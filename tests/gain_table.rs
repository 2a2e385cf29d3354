use ad9361_rs::{GainTable, GainTableKind, FULL_GAIN_TABLE, SPLIT_ABS_GAIN};

#[test]
fn gain_table_from_recommended() {
    let _gt = GainTable::new_from_recommended(GainTableKind::Full, 2_000_000_000);
}

#[test]
fn set_gain_entry() {
    let mut gt = GainTable::new_from_recommended(GainTableKind::Full, 0);
    let mut ge = gt.get_entry(1);
    ge.set_reg131(0);
    gt.set_entry(1, ge);
}

#[test]
fn recommended_full_table_by_band() {
    let gt = GainTable::new_from_recommended(GainTableKind::Full, 800_000_000);
    assert_eq!(gt.kind(), GainTableKind::Full);
    assert_eq!(gt.max_index(), 77);
    let e = gt.get_entry(9);
    assert_eq!((e.reg131(), e.reg132(), e.reg133(), e.abs_gain()), (0x01, 0x03, 0x20, 5));

    let gt = GainTable::new_from_recommended(GainTableKind::Full, 2_300_000_000);
    let e = gt.get_entry(31);
    assert_eq!((e.reg131(), e.reg132(), e.reg133()), (0x04, 0x27, 0x20));
    assert_eq!(e.abs_gain(), 25);

    // the band boundaries
    let low = GainTable::new_from_recommended(GainTableKind::Full, 1_299_999_999);
    let mid = GainTable::new_from_recommended(GainTableKind::Full, 1_300_000_000);
    let high = GainTable::new_from_recommended(GainTableKind::Full, 4_000_000_000);
    assert_eq!(low.get_entry(31).reg132(), 0x28);
    assert_eq!(mid.get_entry(31).reg132(), FULL_GAIN_TABLE[1][30][1]);
    assert_eq!(high.get_entry(4).reg132(), 0x00);
    assert_eq!(high.get_entry(6).reg132(), 0x01);
}

#[test]
fn recommended_split_table() {
    let gt = GainTable::new_from_recommended(GainTableKind::Split, 5_500_000_000);
    assert_eq!(gt.kind(), GainTableKind::Split);
    assert_eq!(gt.max_index(), 41);
    assert_eq!(gt.get_entry(41).abs_gain(), SPLIT_ABS_GAIN[2][40]);
    assert_eq!(gt.get_entry(90).reg131(), 0);
}

#[test]
fn set_entry_expands_table() {
    let mut gt = GainTable::new_from_recommended(GainTableKind::Split, 0);
    let mut e = gt.get_entry(1);
    e.set_reg131(0x7F).set_reg132(0x11).set_reg133(0x22).set_abs_gain(-20);
    gt.set_entry(60, e);
    assert_eq!(gt.max_index(), 60);
    let back = gt.get_entry(60);
    assert_eq!(back, e);
    assert_eq!((back.reg131(), back.reg132(), back.reg133(), back.abs_gain()), (0x7F, 0x11, 0x22, -20));
    // a lower index leaves the maximum alone
    gt.set_entry(2, e);
    assert_eq!(gt.max_index(), 60);
    assert_eq!(gt.kind(), GainTableKind::Split);
}
