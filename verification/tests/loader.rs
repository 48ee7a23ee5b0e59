use wineserver::loader::{init_reserved_areas, WinePreloadInfo};

#[test]
fn reserved_areas_end_at_the_zero_size_entry() {
    let table = [
        WinePreloadInfo { addr: 0x1000, size: 0x1fffff000 },
        WinePreloadInfo { addr: 0x7ff000000000, size: 0x001ff0000 },
        WinePreloadInfo { addr: 0, size: 0 },
        WinePreloadInfo { addr: 0x5000, size: 0x1000 },
    ];
    let areas = init_reserved_areas(&table);
    assert_eq!(areas, vec![table[0], table[1]]);
}

#[test]
fn table_with_only_the_end_marker() {
    let table = [WinePreloadInfo { addr: 0, size: 0 }];
    assert!(init_reserved_areas(&table).is_empty());
}
