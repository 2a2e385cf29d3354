use ad9361_rs::{
    BistMode, EnsmState, InBool, InternalExternalLO, LOPowerStatus, LoopbackMode,
    RfGainControlMode, RxRfPortSelection, TemperatureX1000, TxRfPortSelection,
};

#[test]
fn lo_power_report_is_inverted() {
    assert_eq!(LOPowerStatus::from_report(1), Some(LOPowerStatus::On));
    assert_eq!(LOPowerStatus::from_report(0), Some(LOPowerStatus::Off));
    assert_eq!(LOPowerStatus::from_report(2), None);
    assert_eq!(u8::from(LOPowerStatus::On), 0);
    assert_eq!(u8::from(LOPowerStatus::Off), 1);
}

#[test]
fn temperature_in_milli_degrees() {
    let t = TemperatureX1000::from(2600);
    assert_eq!(t.milli_celsius(), 2600);
    let celsius = t.milli_celsius() as f32 / 1000.0;
    assert!((celsius - 2.6).abs() < 0.1);
    assert_eq!(TemperatureX1000::from(-40000).milli_celsius(), -40000);
}

#[test]
fn enable_flags() {
    assert!(!bool::from(InBool::from(0u8)));
    assert!(bool::from(InBool::from(1u8)));
    assert!(bool::from(InBool::from(0x80u8)));
    assert_eq!(u8::from(InBool::from(true)), 1);
    assert_eq!(u8::from(InBool::from(false)), 0);
}

#[test]
fn port_selection_decoding_falls_back() {
    assert_eq!(TxRfPortSelection::from(0), TxRfPortSelection::TXA);
    assert_eq!(TxRfPortSelection::from(1), TxRfPortSelection::TXB);
    assert_eq!(TxRfPortSelection::from(7), TxRfPortSelection::TXB);
    assert_eq!(u32::from(TxRfPortSelection::TXB), 1);
    assert_eq!(RxRfPortSelection::from(1), RxRfPortSelection::B_BALANCED);
    assert_eq!(RxRfPortSelection::from(11), RxRfPortSelection::TX_MON1_2);
    assert_eq!(RxRfPortSelection::from(12), RxRfPortSelection::A_BALANCED);
    assert_eq!(u32::from(RxRfPortSelection::C_P), 8);
}

#[test]
fn gain_control_mode_falls_back() {
    assert_eq!(RfGainControlMode::from(2u8), RfGainControlMode::SlowAttackAgc);
    assert_eq!(RfGainControlMode::from(3u8), RfGainControlMode::HybridAgc);
    assert_eq!(RfGainControlMode::from(9u8), RfGainControlMode::Manual);
    assert_eq!(u8::from(RfGainControlMode::FastAttackAgc), 1);
}

#[test]
fn ensm_states() {
    assert_eq!(EnsmState::from(5u8), EnsmState::Alert);
    assert_eq!(EnsmState::from(10u8), EnsmState::Fdd);
    assert_eq!(EnsmState::from(3u8), EnsmState::Unknown);
    assert_eq!(u8::from(EnsmState::FddFlush), 11);
    assert_eq!(u8::from(EnsmState::Unknown), 0xFF);
}

#[test]
fn other_encodings() {
    assert_eq!(u8::from(InternalExternalLO::External), 1);
    assert_eq!(u32::from(BistMode::InjectRx), 2);
    assert_eq!(BistMode::from_raw(1), Some(BistMode::InjectTx));
    assert_eq!(BistMode::from_raw(3), None);
    assert_eq!(BistMode::default(), BistMode::Disable);
    assert_eq!(i32::from(LoopbackMode::Enabled), 1);
    assert_eq!(LoopbackMode::from(1), LoopbackMode::Enabled);
    assert_eq!(LoopbackMode::from(-1), LoopbackMode::Disabled);
}

#[test]
fn symmetric_round_trips() {
    for v in [RfGainControlMode::Manual, RfGainControlMode::FastAttackAgc, RfGainControlMode::SlowAttackAgc, RfGainControlMode::HybridAgc] {
        assert_eq!(RfGainControlMode::from(u8::from(v)), v);
    }
    for b in [false, true] {
        assert_eq!(bool::from(InBool::from(u8::from(InBool::from(b)))), b);
    }
    for m in [BistMode::Disable, BistMode::InjectTx, BistMode::InjectRx] {
        assert_eq!(BistMode::from_raw(u32::from(m)), Some(m));
    }
    assert_eq!(TxRfPortSelection::from(u32::from(TxRfPortSelection::TXA)), TxRfPortSelection::TXA);
    assert_eq!(RxRfPortSelection::from(u32::from(RxRfPortSelection::TX_MON2)), RxRfPortSelection::TX_MON2);
}
