use ad9361_rs::{intf_delay_steps, lvds_bias_control_step, EnsmState, RegisterStep};

#[test]
fn intf_delay_without_clock_change() {
    let steps = intf_delay_steps(true, 3, 5, false);
    assert_eq!(steps, vec![RegisterStep::Write { address: 0x7, value: 0x35 }]);
    let steps = intf_delay_steps(false, 15, 15, false);
    assert_eq!(steps, vec![RegisterStep::Write { address: 0x6, value: 0xFF }]);
}

#[test]
fn intf_delay_with_clock_change() {
    let steps = intf_delay_steps(false, 1, 0, true);
    assert_eq!(
        steps,
        vec![
            RegisterStep::ForceState(EnsmState::Alert),
            RegisterStep::Write { address: 0x6, value: 0x10 },
            RegisterStep::ForceState(EnsmState::Fdd),
        ]
    );
}

#[test]
fn lvds_bias_values() {
    assert_eq!(lvds_bias_control_step(false, false, 75), RegisterStep::Write { address: 0x3C, value: 0 });
    assert_eq!(lvds_bias_control_step(true, false, 150), RegisterStep::Write { address: 0x3C, value: 0x21 });
    assert_eq!(lvds_bias_control_step(true, true, 450), RegisterStep::Write { address: 0x3C, value: 0x2D });
    assert_eq!(lvds_bias_control_step(false, true, 224), RegisterStep::Write { address: 0x3C, value: 0x09 });
}
