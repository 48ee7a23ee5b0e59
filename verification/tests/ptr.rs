use wineserver::ptr::TaggedPtr;

fn address_of(value: &u32) -> usize {
    std::ptr::from_ref(value).addr()
}

#[test]
fn round_trip() {
    let data = 0xdead_beef_u32;
    let packed = 2;

    let ptr = TaggedPtr::<u32, i32>::pack(address_of(&data), packed);

    assert_eq!(address_of(&data), ptr.ptr());
    assert_eq!(data, 0xdead_beef_u32);
    assert_eq!(packed, ptr.data());
}

#[test]
fn new() {
    let data = 0xdead_beef_u32;

    let overflow = TaggedPtr::<u32, i32>::pack(address_of(&data), 4);
    assert_ne!(overflow.data(), 4);

    let ok = TaggedPtr::<u32, i32>::pack(address_of(&data), 3);
    assert_eq!(ok.data(), 3);
}

#[test]
fn eq() {
    let data = 0xdead_beef_u32;
    let ptr = TaggedPtr::<u32, i32>::pack(address_of(&data), 2);
    let ptr2 = TaggedPtr::<u32, i32>::pack(address_of(&data), 2);
    assert_eq!(ptr, ptr2);

    let ptr3 = TaggedPtr::<u32, i32>::pack(address_of(&data), 1);
    assert_ne!(ptr, ptr3);

    let data2 = 0xdead_beef_u32;
    let ptr4 = TaggedPtr::<u32, i32>::pack(address_of(&data2), 2);
    assert_ne!(ptr, ptr4);
}

#[test]
fn tag_bits_follow_the_alignment_of_the_datum() {
    assert_eq!(TaggedPtr::<u32, i32>::tag_bits(), 2);
    assert_eq!(TaggedPtr::<u32, u16>::tag_bits(), 1);
    assert_eq!(TaggedPtr::<u32, u8>::tag_bits(), 0);
}

#[test]
fn unpack_keeps_the_raw_word() {
    let p = TaggedPtr::<u32, i32>::unpack(0x1003);
    assert_eq!(p.raw(), 0x1003);
    assert_eq!(p.ptr(), 0x1000);
    assert_eq!(p.data(), 3);
    assert_eq!(TaggedPtr::<u32, i32>::unpack(p.raw()), p);
}

#[test]
fn negative_datum_keeps_its_low_bits() {
    let p = TaggedPtr::<u32, i32>::pack(0x2000, -1);
    assert_eq!(p.raw(), 0x2003);
    assert_eq!(p.data(), 3);
    assert_eq!(p.ptr(), 0x2000);
}

#[test]
fn u8_datum_has_no_room() {
    let p = TaggedPtr::<(), u8>::pack(0x3000, 2);
    assert_eq!(p.raw(), 0x3000);
    assert_eq!(p.data(), 0);
}
