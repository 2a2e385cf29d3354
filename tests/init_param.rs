use ad9361_rs::{Ad9361InitParam, DeviceId, GpioInitParam};

#[test]
fn default_parameters() {
    let p = Ad9361InitParam::default();
    assert_eq!(p.dev_sel(), DeviceId::Ad9361);
    assert_eq!(p.reference_clk_rate(), 40_000_000);
    assert_eq!(p.two_rx_two_tx_mode_enable(), 1);
    assert_eq!(p.rx_synthesizer_frequency_hz(), 2_400_000_000);
    assert_eq!(p.tx_synthesizer_frequency_hz(), 2_479_000_000);
    assert_eq!(p.rx_path_clock_frequencies(), [983040000, 245760000, 122880000, 61440000, 30720000, 30720000]);
    assert_eq!(p.dcxo_coarse_and_fine_tune(), [8, 5920]);
    assert_eq!(p.tx_attenuation_md_b(), 10_000);
    assert_eq!(p.temp_sense_offset_signed(), -49);
    assert_eq!(p.lvds_bias_m_v(), 150);
    assert_eq!(p.ctrl_outs_enable_mask(), 0xFF);
    assert_eq!(p.external_rx_lo_enable(), 0);
    assert_eq!(p.gpio_resetb(), GpioInitParam { number: -1 });
}

#[test]
fn setters_chain() {
    let mut p = Ad9361InitParam::default();
    p.set_rx_synthesizer_frequency_hz(1_000_000_000).set_tx_attenuation_md_b(20_000);
    assert_eq!(p.rx_synthesizer_frequency_hz(), 1_000_000_000);
    assert_eq!(p.tx_attenuation_md_b(), 20_000);
    assert_eq!(p.tx_synthesizer_frequency_hz(), 2_479_000_000);
}

#[test]
fn reset_line_binding() {
    let mut p = Ad9361InitParam::default();
    p.bind_reset_line(false);
    assert_eq!(p.gpio_resetb().number, -1);
    p.bind_reset_line(true);
    assert_eq!(p.gpio_resetb().number, 1);
}
