//! Decisions of the platform callbacks that the driver calls.
//!
//! The driver reaches the bus, the reset pin and the delay source through C
//! callbacks that take an untyped context. The handle's callbacks restore the
//! typed peripheral and call it; what they return to the driver, and how
//! they read the driver's arguments, is decided here.

use vstd::prelude::*;

verus! {

/// Status that a callback reports to the driver for a successful operation.
pub const CALLBACK_OK: i32 = 0;

/// Status that a callback reports to the driver for a failed operation.
pub const CALLBACK_FAILED: i32 = -1;

/// Status reported to the driver for the outcome of a peripheral operation.
pub fn callback_status<T, E>(outcome: &Result<T, E>) -> (r: i32)
    ensures
        outcome is Ok ==> r == CALLBACK_OK,
        outcome is Err ==> r == CALLBACK_FAILED,
{
    match outcome {
        Ok(_) => CALLBACK_OK,
        Err(_) => CALLBACK_FAILED,
    }
}

/// Level of a digital output.
#[derive(Clone, Copy, Debug, PartialEq, Eq, Structural)]
pub enum PinLevel {
    Low,
    High,
}

/// Level that the driver's raw pin value asks for: 0 is low, anything else
/// is high.
pub fn pin_level(value: u8) -> (r: PinLevel)
    ensures
        value == 0 ==> r == PinLevel::Low,
        value != 0 ==> r == PinLevel::High,
{
    if value == 0 {
        PinLevel::Low
    } else {
        PinLevel::High
    }
}

/// Whether a GPIO request names a connected line. A negative number is the
/// driver's marker for an unused line, for which no descriptor is handed out.
pub fn gpio_connected(number: i32) -> (r: bool)
    ensures
        r == (number >= 0),
{
    number >= 0
}

/// Integer division with remainder: `n` becomes the quotient, and the
/// remainder is returned.
pub fn do_div(n: &mut u64, base: u64) -> (r: u64)
    requires
        base != 0,
    ensures
        *final(n) == *old(n) / base,
        r == *old(n) % base,
{
    let remainder = *n % base;
    *n = *n / base;
    remainder
}

} // verus!
