//! Direct register operations that bypass the driver's accessor functions.
//!
//! Each operation is computed here as a short list of steps; the handle
//! carries them out against the driver in order and returns the status of
//! the register write.

use vstd::prelude::*;
use crate::types::EnsmState;

verus! {

/// Address of the RX data/clock delay register.
pub const RX_CLOCK_DATA_DELAY: u16 = 0x006;

/// Address of the TX data/clock delay register.
pub const TX_CLOCK_DATA_DELAY: u16 = 0x007;

/// Address of the LVDS bias control register.
pub const LVDS_BIAS_CONTROL: u16 = 0x03C;

/// One step of a direct register operation.
#[derive(Clone, Copy, Debug, PartialEq, Eq, Structural)]
pub enum RegisterStep {
    /// Force the Enable State Machine into a state (its status is ignored).
    ForceState(EnsmState),
    /// Write `value` to the register at `address`.
    Write { address: u16, value: u32 },
}

/// The interface delay register of the TX (`tx`) or RX path, and the value
/// that sets the clock delay (high nibble) and data delay (low nibble).
pub open spec fn intf_delay_write(tx: bool, clock_delay: u32, data_delay: u32) -> RegisterStep {
    RegisterStep::Write {
        address: if tx {
            TX_CLOCK_DATA_DELAY
        } else {
            RX_CLOCK_DATA_DELAY
        },
        value: (clock_delay * 16 + data_delay) as u32,
    }
}

/// Steps that set the interface timing. When the clock delay changed, the
/// write is bracketed by a move to the alert state and back to FDD.
pub fn intf_delay_steps(tx: bool, clock_delay: u32, data_delay: u32, clock_changed: bool) -> (r: Vec<
    RegisterStep,
>)
    requires
        clock_delay < 16,
        data_delay < 16,
    ensures
        clock_changed ==> r@ == seq![
            RegisterStep::ForceState(EnsmState::Alert),
            intf_delay_write(tx, clock_delay, data_delay),
            RegisterStep::ForceState(EnsmState::Fdd),
        ],
        !clock_changed ==> r@ == seq![intf_delay_write(tx, clock_delay, data_delay)],
{
    let address: u16 = if tx {
        TX_CLOCK_DATA_DELAY
    } else {
        RX_CLOCK_DATA_DELAY
    };
    assert((clock_delay << 4u32) | data_delay == clock_delay * 16 + data_delay) by (bit_vector)
        requires
            clock_delay < 16,
            data_delay < 16,
    ;
    let value: u32 = (clock_delay << 4u32) | data_delay;
    let write = RegisterStep::Write { address, value };
    let mut steps: Vec<RegisterStep> = Vec::new();
    if clock_changed {
        steps.push(RegisterStep::ForceState(EnsmState::Alert));
    }
    steps.push(write);
    if clock_changed {
        steps.push(RegisterStep::ForceState(EnsmState::Fdd));
    }
    steps
}

/// Value of the LVDS bias control register: bit 5 enables the RX on-chip
/// termination, bit 3 the TX LO common-mode voltage, and the low bits hold
/// the bias in steps of 75 mV above 75 mV.
pub open spec fn lvds_bias_value(rx_on_chip_term: bool, lvds_tx_lo_vcm: bool, lvds_bias_m_v: u32) -> int {
    (if rx_on_chip_term {
        0x20int
    } else {
        0
    }) + (if lvds_tx_lo_vcm {
        0x08int
    } else {
        0
    }) + (lvds_bias_m_v - 75) / 75
}

/// The write that sets the LVDS bias control register.
pub fn lvds_bias_control_step(rx_on_chip_term: bool, lvds_tx_lo_vcm: bool, lvds_bias_m_v: u32) -> (r:
    RegisterStep)
    requires
        75 <= lvds_bias_m_v <= 450,
    ensures
        r matches RegisterStep::Write { address, value } && address == LVDS_BIAS_CONTROL
            && value as int == lvds_bias_value(rx_on_chip_term, lvds_tx_lo_vcm, lvds_bias_m_v),
{
    let term: u32 = if rx_on_chip_term {
        0x20
    } else {
        0
    };
    let vcm: u32 = if lvds_tx_lo_vcm {
        0x08
    } else {
        0
    };
    let bias: u32 = (lvds_bias_m_v - 75) / 75;
    assert(bias <= 5);
    assert(term | vcm | bias == term + vcm + bias) by (bit_vector)
        requires
            term == 0 || term == 0x20,
            vcm == 0 || vcm == 0x08,
            bias <= 5,
    ;
    RegisterStep::Write { address: LVDS_BIAS_CONTROL, value: term | vcm | bias }
}

} // verus!
