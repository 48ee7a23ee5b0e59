//! Pointers that carry a small datum in their low bits.
//!
//! An address is held as a `usize`. The datum occupies the bits that the
//! alignment of its own type `D` leaves free: `log2(align_of::<D>())` bits.
use vstd::prelude::*;
use core::marker::PhantomData;
use vstd::std_specs::bits::{u64_trailing_zeros, axiom_u64_trailing_zeros};
use vstd::arithmetic::power2::is_pow2;

verus! {

/// A value that can travel in the low bits of a [`TaggedPtr`].
pub trait TagData: Sized + Copy {
    /// The machine word whose low bytes are the value's representation
    /// (little-endian), zero above it.
    spec fn word_of(self) -> usize;

    /// The value whose representation is the low bytes of `bits`.
    spec fn from_word(bits: usize) -> Self;

    /// Reads the value's representation as a machine word.
    fn to_word(&self) -> (bits: usize)
        ensures
            bits == self.word_of(),
    ;

    /// Makes a value from the low bytes of a machine word.
    fn from_bits(bits: usize) -> (d: Self)
        ensures
            d == Self::from_word(bits),
    ;

    /// Reading a value back from its own representation gives the value.
    proof fn lemma_word_round_trip(self)
        ensures
            Self::from_word(self.word_of()) == self,
    ;
}

impl TagData for u8 {
    open spec fn word_of(self) -> usize {
        self as usize
    }

    open spec fn from_word(bits: usize) -> u8 {
        bits as u8
    }

    fn to_word(&self) -> (bits: usize) {
        *self as usize
    }

    fn from_bits(bits: usize) -> (d: u8) {
        bits as u8
    }

    proof fn lemma_word_round_trip(self) {
    }
}

impl TagData for u16 {
    open spec fn word_of(self) -> usize {
        self as usize
    }

    open spec fn from_word(bits: usize) -> u16 {
        bits as u16
    }

    fn to_word(&self) -> (bits: usize) {
        *self as usize
    }

    fn from_bits(bits: usize) -> (d: u16) {
        bits as u16
    }

    proof fn lemma_word_round_trip(self) {
    }
}

impl TagData for u32 {
    open spec fn word_of(self) -> usize {
        self as usize
    }

    open spec fn from_word(bits: usize) -> u32 {
        bits as u32
    }

    fn to_word(&self) -> (bits: usize) {
        *self as usize
    }

    fn from_bits(bits: usize) -> (d: u32) {
        bits as u32
    }

    proof fn lemma_word_round_trip(self) {
    }
}

impl TagData for i8 {
    open spec fn word_of(self) -> usize {
        self as u8 as usize
    }

    open spec fn from_word(bits: usize) -> i8 {
        bits as u8 as i8
    }

    fn to_word(&self) -> (bits: usize) {
        *self as u8 as usize
    }

    fn from_bits(bits: usize) -> (d: i8) {
        bits as u8 as i8
    }

    proof fn lemma_word_round_trip(self) {
        let x = self;
        assert(x as u8 as usize as u8 as i8 == x) by (bit_vector);
    }
}

impl TagData for i16 {
    open spec fn word_of(self) -> usize {
        self as u16 as usize
    }

    open spec fn from_word(bits: usize) -> i16 {
        bits as u16 as i16
    }

    fn to_word(&self) -> (bits: usize) {
        *self as u16 as usize
    }

    fn from_bits(bits: usize) -> (d: i16) {
        bits as u16 as i16
    }

    proof fn lemma_word_round_trip(self) {
        let x = self;
        assert(x as u16 as usize as u16 as i16 == x) by (bit_vector);
    }
}

impl TagData for i32 {
    open spec fn word_of(self) -> usize {
        self as u32 as usize
    }

    open spec fn from_word(bits: usize) -> i32 {
        bits as u32 as i32
    }

    fn to_word(&self) -> (bits: usize) {
        *self as u32 as usize
    }

    fn from_bits(bits: usize) -> (d: i32) {
        bits as u32 as i32
    }

    proof fn lemma_word_round_trip(self) {
        let x = self;
        assert(x as u32 as usize as u32 as i32 == x) by (bit_vector);
    }
}

impl TagData for usize {
    open spec fn word_of(self) -> usize {
        self
    }

    open spec fn from_word(bits: usize) -> usize {
        bits
    }

    fn to_word(&self) -> (bits: usize) {
        *self
    }

    fn from_bits(bits: usize) -> (d: usize) {
        bits
    }

    proof fn lemma_word_round_trip(self) {
    }
}

/// The number of tag bits that a datum of type `D` gets: the number of
/// trailing zeros of `D`'s alignment.
pub open spec fn tag_bits_of<D>() -> u32 {
    u64_trailing_zeros(vstd::layout::align_of::<D>() as u64)
}

/// The mask of the tag bits: `(1 << tag_bits) - 1`.
pub open spec fn tag_mask_of<D>() -> usize {
    ((1usize << tag_bits_of::<D>()) - 1) as usize
}

/// The mask of the address bits: the complement of the tag mask.
pub open spec fn ptr_mask_of<D>() -> usize {
    !tag_mask_of::<D>()
}

/// The raw word of a datum `data` packed with the address `ptr`.
pub open spec fn packed_word<D: TagData>(ptr: usize, data: D) -> usize {
    ptr | (data.word_of() & tag_mask_of::<D>())
}

/// An address of a `T` with a datum of type `D` in its low bits.
#[derive(Debug)]
pub struct TaggedPtr<T, D> {
    raw: usize,
    marker: PhantomData<(T, D)>,
}

impl<T, D> View for TaggedPtr<T, D> {
    type V = usize;

    /// The raw word: address and tag together.
    closed spec fn view(&self) -> usize {
        self.raw
    }
}

impl<T, D> Clone for TaggedPtr<T, D> {
    fn clone(&self) -> (r: Self)
        ensures
            r == *self,
    {
        TaggedPtr { raw: self.raw, marker: PhantomData }
    }
}

impl<T, D> Copy for TaggedPtr<T, D> {
}

impl<T, D> PartialEq for TaggedPtr<T, D> {
    fn eq(&self, other: &Self) -> (r: bool) {
        self.raw == other.raw
    }
}

impl<T, D> vstd::std_specs::cmp::PartialEqSpecImpl for TaggedPtr<T, D> {
    open spec fn obeys_eq_spec() -> bool {
        true
    }

    open spec fn eq_spec(&self, other: &Self) -> bool {
        self@ == other@
    }
}

impl<T, D> Eq for TaggedPtr<T, D> {
}

/// A non-zero alignment that fits a `usize` has fewer trailing zeros than a
/// `usize` has bits.
proof fn lemma_tag_bits_bound(a: usize)
    requires
        a != 0,
    ensures
        u64_trailing_zeros(a as u64) < usize::BITS,
{
    let x = a as u64;
    axiom_u64_trailing_zeros(x);
    let t = u64_trailing_zeros(x) as u64;
    if usize::BITS == 32 {
        assert(x <= 0xffff_ffff);
        assert(x <= 0xffff_ffff && t < 64 && (x >> t) & 1u64 == 1u64 ==> t < 32) by (bit_vector);
    }
}

impl<T, D: TagData> TaggedPtr<T, D> {
    /// The number of tag bits: the trailing zeros of `align_of::<D>()`.
    pub fn tag_bits() -> (b: u32)
        ensures
            b == tag_bits_of::<D>(),
            b < usize::BITS,
            (1u64 << b) as nat == vstd::layout::align_of::<D>(),
    {
        let align = core::mem::align_of::<D>();
        proof {
            broadcast use vstd::layout::align_nonzero;

            lemma_tag_bits_bound(align);
            lemma_tag_bits_match_alignment::<D>();
        }
        (align as u64).trailing_zeros()
    }

    /// The mask of the tag bits.
    fn tag_mask() -> (m: usize)
        ensures
            m == tag_mask_of::<D>(),
    {
        let b = Self::tag_bits();
        assert((1usize << b) >= 1) by (bit_vector)
            requires
                b < usize::BITS,
        ;
        (1usize << b) - 1
    }

    /// Packs the address `ptr` and the tag bits of `data` into one word.
    pub fn pack(ptr: usize, data: D) -> (p: Self)
        ensures
            p@ == packed_word(ptr, data),
    {
        let data = data.to_word() & Self::tag_mask();
        TaggedPtr { raw: ptr | data, marker: PhantomData }
    }

    /// Takes a raw word as it is, address and tag together.
    pub fn unpack(ptr: usize) -> (p: Self)
        ensures
            p@ == ptr,
    {
        TaggedPtr { raw: ptr, marker: PhantomData }
    }

    /// The raw word.
    pub fn raw(&self) -> (r: usize)
        ensures
            r == self@,
    {
        self.raw
    }

    /// The address, with the tag bits cleared.
    pub fn ptr(&self) -> (r: usize)
        ensures
            r == self@ & ptr_mask_of::<D>(),
    {
        self.raw & !Self::tag_mask()
    }

    /// The datum held in the tag bits.
    pub fn data(&self) -> (d: D)
        ensures
            d == D::from_word(self@ & tag_mask_of::<D>()),
    {
        let tmp = self.raw & Self::tag_mask();
        D::from_bits(tmp)
    }
}

/// An address whose tag bits are clear comes back unchanged from a packed
/// pointer.
pub proof fn lemma_pack_ptr<D: TagData>(ptr: usize, data: D)
    requires
        ptr & tag_mask_of::<D>() == 0,
    ensures
        packed_word(ptr, data) & ptr_mask_of::<D>() == ptr,
{
    let m = tag_mask_of::<D>();
    let w = data.word_of();
    assert((ptr | (w & m)) & !m == ptr) by (bit_vector)
        requires
            ptr & m == 0,
    ;
}

/// Packing keeps exactly the tag bits of the datum, whatever the address
/// (with its tag bits clear); a datum that fits in the tag bits comes back
/// whole.
pub proof fn lemma_pack_data<D: TagData>(ptr: usize, data: D)
    requires
        ptr & tag_mask_of::<D>() == 0,
    ensures
        packed_word(ptr, data) & tag_mask_of::<D>() == data.word_of() & tag_mask_of::<D>(),
        data.word_of() & tag_mask_of::<D>() == data.word_of() ==> D::from_word(
            packed_word(ptr, data) & tag_mask_of::<D>(),
        ) == data,
{
    let m = tag_mask_of::<D>();
    let w = data.word_of();
    assert((ptr | (w & m)) & m == w & m) by (bit_vector)
        requires
            ptr & m == 0,
    ;
    data.lemma_word_round_trip();
}

/// Two packed pointers are equal exactly when their addresses (with tag bits
/// clear) are equal and their data agree on the tag bits.
pub proof fn lemma_pack_injective<D: TagData>(ptr1: usize, data1: D, ptr2: usize, data2: D)
    requires
        ptr1 & tag_mask_of::<D>() == 0,
        ptr2 & tag_mask_of::<D>() == 0,
    ensures
        packed_word(ptr1, data1) == packed_word(ptr2, data2) <==> (ptr1 == ptr2
            && data1.word_of() & tag_mask_of::<D>() == data2.word_of() & tag_mask_of::<D>()),
{
    lemma_pack_ptr(ptr1, data1);
    lemma_pack_ptr(ptr2, data2);
    lemma_pack_data(ptr1, data1);
    lemma_pack_data(ptr2, data2);
}

/// A tagged pointer is determined by its raw word: taking the raw word of a
/// pointer as it is (`unpack`) gives that pointer back.
pub proof fn lemma_raw_determines<T, D>(p: TaggedPtr<T, D>, q: TaggedPtr<T, D>)
    requires
        p@ == q@,
    ensures
        p == q,
{
}

/// A power of two that fits a `u64` is a single bit.
proof fn lemma_pow2_is_bit(x: u64) -> (s: u64)
    requires
        is_pow2(x as int),
    ensures
        s < 64,
        x == 1u64 << s,
    decreases x,
{
    reveal(is_pow2);
    if x == 1 {
        assert(1u64 << 0u64 == 1u64) by (bit_vector);
        0
    } else {
        let h = x / 2;
        assert(is_pow2(h as int));
        let t = lemma_pow2_is_bit(h);
        assert(x == h * 2);
        if t == 63 {
            assert(h == 0x8000_0000_0000_0000u64) by (bit_vector)
                requires
                    h == 1u64 << t,
                    t == 63,
            ;
            assert(false);
        }
        assert(x == 1u64 << (t + 1)) by (bit_vector)
            requires
                h == 1u64 << t,
                t < 63,
                x == h * 2,
        ;
        (t + 1) as u64
    }
}

/// The trailing zeros of a single bit are its position.
proof fn lemma_trailing_zeros_of_bit(s: u64)
    requires
        s < 64,
    ensures
        u64_trailing_zeros(1u64 << s) == s,
{
    let x = 1u64 << s;
    assert(x != 0) by (bit_vector)
        requires
            x == 1u64 << s,
            s < 64,
    ;
    axiom_u64_trailing_zeros(x);
    let t = u64_trailing_zeros(x) as u64;
    assert(t == s) by (bit_vector)
        requires
            x == 1u64 << s,
            s < 64,
            t < 64,
            (x >> t) & 1u64 == 1u64,
    ;
}

/// A datum gets as many tag bits as its alignment leaves free:
/// `2^tag_bits` is the alignment of `D`, and the tag mask is the alignment
/// less one (so an 8-aligned datum gets three bits, mask `0b111`).
pub proof fn lemma_tag_bits_match_alignment<D>()
    requires
        vstd::layout::align_of::<D>() <= usize::MAX,
    ensures
        (1u64 << tag_bits_of::<D>()) as nat == vstd::layout::align_of::<D>(),
        tag_mask_of::<D>() as nat == vstd::layout::align_of::<D>() - 1,
{
    broadcast use vstd::layout::group_align_properties;

    let a = vstd::layout::align_of::<D>() as u64;
    assert(a as int == vstd::layout::align_of::<D>());
    let s = lemma_pow2_is_bit(a);
    lemma_trailing_zeros_of_bit(s);
    let b = tag_bits_of::<D>();
    assert(b as u64 == s);
    assert(a <= usize::MAX);
    if usize::BITS == 32 {
        assert(a <= 0xffff_ffffu64);
        assert(s < 32) by (bit_vector)
            requires
                a == 1u64 << s,
                s < 64,
                a <= 0xffff_ffffu64,
        ;
    }
    assert(s < usize::BITS);
    assert(((1usize << b) - 1) as usize as int == (1u64 << s) - 1) by (bit_vector)
        requires
            b as u64 == s,
            s < usize::BITS,
    ;
}

} // verus!
