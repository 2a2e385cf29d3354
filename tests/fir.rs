use ad9361_rs::{Ad9361RxFir, Ad9361TxFir};

#[test]
fn get_tx_coefficients() {
    let txfir = Ad9361TxFir::default();
    assert_eq!(
        txfir.get_tx_coef(),
        &[
            -4, -6, -37, 35, 186, 86, -284, -315, 107, 219, -4, 271, 558, -307, -1182, -356, 658,
            157, 207, 1648, 790, -2525, -2553, 748, 865, -476, 3737, 6560, -3583, -14731, -5278,
            14819, 14819, -5278, -14731, -3583, 6560, 3737, -476, 865, 748, -2553, -2525, 790, 1648,
            207, 157, 658, -356, -1182, -307, 558, 271, -4, 219, 107, -315, -284, 86, 186, 35, -37,
            -6, -4
        ]
    );
}

#[test]
fn set_tx_coefficients() {
    let txfir = Ad9361TxFir::default().tx_coef(&[0x55; 128]);
    assert_eq!(txfir.get_tx_coef(), &[0x55; 128]);

    let txfir = Ad9361TxFir::default().tx_coef(&[0x55; 10]);
    assert_eq!(txfir.get_tx_coef(), &[0x55; 10]);
}

#[test]
fn empty_coefficients() {
    let txfir = Ad9361TxFir::default().tx_coef(&[]);
    assert!(txfir.get_tx_coef().is_empty());
    // storage past the coefficients in use keeps its earlier values
    assert_eq!(txfir.config().tx_coef[0], -4);
    assert_eq!(txfir.config().tx_coef_size, 0);
}

#[test]
fn tx_fir_defaults_and_builders() {
    let txfir = Ad9361TxFir::default();
    assert_eq!(txfir.get_tx_gain(), -6);
    assert_eq!(txfir.get_tx_int(), 1);
    let config = txfir.config();
    assert_eq!(config.tx, 3);
    assert_eq!(config.tx_coef_size, 64);
    assert_eq!(config.tx_path_clks, [0; 6]);
    assert_eq!(config.tx_bandwidth, 0);

    let txfir = txfir.tx_gain(0).tx_int(2);
    assert_eq!(txfir.get_tx_gain(), 0);
    assert_eq!(txfir.get_tx_int(), 2);
    assert_eq!(txfir.get_tx_coef().len(), 64);
}

#[test]
fn rx_fir_defaults_and_builders() {
    let rxfir = Ad9361RxFir::default();
    assert_eq!(rxfir.get_rx_gain(), 0);
    assert_eq!(rxfir.get_rx_dec(), 1);
    assert_eq!(rxfir.get_rx_coef(), Ad9361TxFir::default().get_tx_coef());
    assert_eq!(rxfir.config().rx, 3);

    let rxfir = rxfir.rx_gain(-12).rx_dec(4).rx_coef(&[1, 2, 3]);
    assert_eq!(rxfir.get_rx_gain(), -12);
    assert_eq!(rxfir.get_rx_dec(), 4);
    assert_eq!(rxfir.get_rx_coef(), &[1, 2, 3]);
    assert_eq!(rxfir.config().rx_coef[3], 35);
}
