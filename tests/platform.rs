use ad9361_rs::{callback_status, do_div, gpio_connected, pin_level, PinLevel};

#[test]
fn callback_statuses() {
    let ok: Result<&[u8], ()> = Ok(&[1, 2]);
    let failed: Result<(), u32> = Err(7);
    assert_eq!(callback_status(&ok), 0);
    assert_eq!(callback_status(&failed), -1);
}

#[test]
fn pin_levels() {
    assert_eq!(pin_level(0), PinLevel::Low);
    assert_eq!(pin_level(1), PinLevel::High);
    assert_eq!(pin_level(0xFF), PinLevel::High);
}

#[test]
fn gpio_lines() {
    assert!(!gpio_connected(-1));
    assert!(gpio_connected(0));
    assert!(gpio_connected(1));
}

#[test]
fn division_with_remainder() {
    let mut n: u64 = 2_400_000_007;
    assert_eq!(do_div(&mut n, 1000), 7);
    assert_eq!(n, 2_400_000);
    let mut n: u64 = 3;
    assert_eq!(do_div(&mut n, 7), 3);
    assert_eq!(n, 0);
}
