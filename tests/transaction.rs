use ad9361_rs::Ad9361Transaction;

#[test]
fn decode_write_frame() {
    let frame = [0x80, 0x37, 0x00];
    let t = Ad9361Transaction(&frame);
    assert!(t.is_write());
    assert_eq!(t.register(), 0x37);
    assert_eq!(t.value(), 0);
    assert_eq!(t.length(), 1);
}

#[test]
fn decode_read_frame() {
    let frame = [0x00, 0x37, 0x00];
    let t = Ad9361Transaction(&frame);
    assert!(!t.is_write());
    assert_eq!(t.register(), 0x37);
}

#[test]
fn decode_high_address_and_burst() {
    let frame = [0xF3, 0xFF, 0xAB, 0, 0, 0, 0, 0, 0, 0];
    let t = Ad9361Transaction(&frame);
    assert!(t.is_write());
    assert_eq!(t.register(), 0x3FF);
    assert_eq!(t.length(), 8);
    assert_eq!(t.value(), 0xAB);

    let frame = [0x12, 0x44, 0x00];
    let t = Ad9361Transaction(&frame);
    assert_eq!(t.register(), 0x244);
    assert_eq!(t.length(), 2);
}
