//! Domain types of the accessor protocol and their raw encodings.
//!
//! Each type converts to the raw integer that the driver takes, and (where
//! the driver reports it) back from the raw integer. Decoding is total where
//! the driver may report values outside the type's range: those fall back to
//! a designated variant.

use vstd::prelude::*;
use vstd::std_specs::convert::FromSpec;

verus! {

/// TX RF port selection (`tx_rf_port_input_select`).
#[derive(Clone, Copy, Debug, PartialEq, Eq, Structural)]
pub enum TxRfPortSelection {
    TXA,
    TXB,
}

impl From<u32> for TxRfPortSelection {
    fn from(v: u32) -> (r: TxRfPortSelection) {
        match v {
            0u32 => TxRfPortSelection::TXA,
            _ => TxRfPortSelection::TXB,
        }
    }
}

impl vstd::std_specs::convert::FromSpecImpl<u32> for TxRfPortSelection {
    open spec fn obeys_from_spec() -> bool {
        true
    }

    open spec fn from_spec(v: u32) -> TxRfPortSelection {
        match v {
            0u32 => TxRfPortSelection::TXA,
            _ => TxRfPortSelection::TXB,
        }
    }
}

impl From<TxRfPortSelection> for u32 {
    fn from(v: TxRfPortSelection) -> (r: u32) {
        match v {
            TxRfPortSelection::TXA => 0,
            TxRfPortSelection::TXB => 1,
        }
    }
}

impl vstd::std_specs::convert::FromSpecImpl<TxRfPortSelection> for u32 {
    open spec fn obeys_from_spec() -> bool {
        true
    }

    open spec fn from_spec(v: TxRfPortSelection) -> u32 {
        match v {
            TxRfPortSelection::TXA => 0,
            TxRfPortSelection::TXB => 1,
        }
    }
}

/// RX RF port selection (`rx_rf_port_input_select`).
#[allow(non_camel_case_types)]
#[derive(Clone, Copy, Debug, PartialEq, Eq, Structural)]
pub enum RxRfPortSelection {
    /// (RX1A_N & RX1A_P) and (RX2A_N & RX2A_P) enabled; balanced
    A_BALANCED,
    /// (RX1B_N & RX1B_P) and (RX2B_N & RX2B_P) enabled; balanced
    B_BALANCED,
    /// (RX1C_N & RX1C_P) and (RX2C_N & RX2C_P) enabled; balanced
    C_BALANCED,
    /// RX1A_N and RX2A_N enabled; unbalanced
    A_N,
    /// RX1A_P and RX2A_P enabled; unbalanced
    A_P,
    /// RX1B_N and RX2B_N enabled; unbalanced
    B_N,
    /// RX1B_P and RX2B_P enabled; unbalanced
    B_P,
    /// RX1C_N and RX2C_N enabled; unbalanced
    C_N,
    /// RX1C_P and RX2C_P enabled; unbalanced
    C_P,
    /// TX_MONITOR1
    TX_MON1,
    /// TX_MONITOR2
    TX_MON2,
    /// TX_MONITOR1 & TX_MONITOR2
    TX_MON1_2,
}

impl From<u32> for RxRfPortSelection {
    fn from(v: u32) -> (r: RxRfPortSelection) {
        match v {
            1u32 => RxRfPortSelection::B_BALANCED,
            2u32 => RxRfPortSelection::C_BALANCED,
            3u32 => RxRfPortSelection::A_N,
            4u32 => RxRfPortSelection::A_P,
            5u32 => RxRfPortSelection::B_N,
            6u32 => RxRfPortSelection::B_P,
            7u32 => RxRfPortSelection::C_N,
            8u32 => RxRfPortSelection::C_P,
            9u32 => RxRfPortSelection::TX_MON1,
            10u32 => RxRfPortSelection::TX_MON2,
            11u32 => RxRfPortSelection::TX_MON1_2,
            _ => RxRfPortSelection::A_BALANCED,
        }
    }
}

impl vstd::std_specs::convert::FromSpecImpl<u32> for RxRfPortSelection {
    open spec fn obeys_from_spec() -> bool {
        true
    }

    open spec fn from_spec(v: u32) -> RxRfPortSelection {
        match v {
            1u32 => RxRfPortSelection::B_BALANCED,
            2u32 => RxRfPortSelection::C_BALANCED,
            3u32 => RxRfPortSelection::A_N,
            4u32 => RxRfPortSelection::A_P,
            5u32 => RxRfPortSelection::B_N,
            6u32 => RxRfPortSelection::B_P,
            7u32 => RxRfPortSelection::C_N,
            8u32 => RxRfPortSelection::C_P,
            9u32 => RxRfPortSelection::TX_MON1,
            10u32 => RxRfPortSelection::TX_MON2,
            11u32 => RxRfPortSelection::TX_MON1_2,
            _ => RxRfPortSelection::A_BALANCED,
        }
    }
}

impl From<RxRfPortSelection> for u32 {
    fn from(v: RxRfPortSelection) -> (r: u32) {
        match v {
            RxRfPortSelection::A_BALANCED => 0,
            RxRfPortSelection::B_BALANCED => 1,
            RxRfPortSelection::C_BALANCED => 2,
            RxRfPortSelection::A_N => 3,
            RxRfPortSelection::A_P => 4,
            RxRfPortSelection::B_N => 5,
            RxRfPortSelection::B_P => 6,
            RxRfPortSelection::C_N => 7,
            RxRfPortSelection::C_P => 8,
            RxRfPortSelection::TX_MON1 => 9,
            RxRfPortSelection::TX_MON2 => 10,
            RxRfPortSelection::TX_MON1_2 => 11,
        }
    }
}

impl vstd::std_specs::convert::FromSpecImpl<RxRfPortSelection> for u32 {
    open spec fn obeys_from_spec() -> bool {
        true
    }

    open spec fn from_spec(v: RxRfPortSelection) -> u32 {
        match v {
            RxRfPortSelection::A_BALANCED => 0,
            RxRfPortSelection::B_BALANCED => 1,
            RxRfPortSelection::C_BALANCED => 2,
            RxRfPortSelection::A_N => 3,
            RxRfPortSelection::A_P => 4,
            RxRfPortSelection::B_N => 5,
            RxRfPortSelection::B_P => 6,
            RxRfPortSelection::C_N => 7,
            RxRfPortSelection::C_P => 8,
            RxRfPortSelection::TX_MON1 => 9,
            RxRfPortSelection::TX_MON2 => 10,
            RxRfPortSelection::TX_MON1_2 => 11,
        }
    }
}

/// Enable State Machine (ENSM) state.
#[derive(Clone, Copy, Debug, PartialEq, Eq, Structural)]
pub enum EnsmState {
    /// Clocks/BB PLL disabled OR Clocks enabled
    SleepOrWait,
    /// Synthesizers enabled
    Alert,
    /// Tx signal chain enabled
    Tx,
    /// Tx digital block flush time
    TxFlush,
    /// Rx signal chain enabled
    Rx,
    /// Rx digital block flush time
    RxFlush,
    /// Tx and Rx signal chains enabled
    Fdd,
    /// Flush all digital signal path blocks
    FddFlush,
    /// A state the driver does not name
    Unknown,
}

impl From<EnsmState> for u8 {
    fn from(v: EnsmState) -> (r: u8) {
        match v {
            EnsmState::SleepOrWait => 0,
            EnsmState::Alert => 5,
            EnsmState::Tx => 6,
            EnsmState::TxFlush => 7,
            EnsmState::Rx => 8,
            EnsmState::RxFlush => 9,
            EnsmState::Fdd => 10,
            EnsmState::FddFlush => 11,
            EnsmState::Unknown => 255,
        }
    }
}

impl vstd::std_specs::convert::FromSpecImpl<EnsmState> for u8 {
    open spec fn obeys_from_spec() -> bool {
        true
    }

    open spec fn from_spec(v: EnsmState) -> u8 {
        match v {
            EnsmState::SleepOrWait => 0,
            EnsmState::Alert => 5,
            EnsmState::Tx => 6,
            EnsmState::TxFlush => 7,
            EnsmState::Rx => 8,
            EnsmState::RxFlush => 9,
            EnsmState::Fdd => 10,
            EnsmState::FddFlush => 11,
            EnsmState::Unknown => 255,
        }
    }
}

impl From<u8> for EnsmState {
    fn from(v: u8) -> (r: EnsmState) {
        match v {
            0u8 => EnsmState::SleepOrWait,
            5u8 => EnsmState::Alert,
            6u8 => EnsmState::Tx,
            7u8 => EnsmState::TxFlush,
            8u8 => EnsmState::Rx,
            9u8 => EnsmState::RxFlush,
            10u8 => EnsmState::Fdd,
            11u8 => EnsmState::FddFlush,
            _ => EnsmState::Unknown,
        }
    }
}

impl vstd::std_specs::convert::FromSpecImpl<u8> for EnsmState {
    open spec fn obeys_from_spec() -> bool {
        true
    }

    open spec fn from_spec(v: u8) -> EnsmState {
        match v {
            0u8 => EnsmState::SleepOrWait,
            5u8 => EnsmState::Alert,
            6u8 => EnsmState::Tx,
            7u8 => EnsmState::TxFlush,
            8u8 => EnsmState::Rx,
            9u8 => EnsmState::RxFlush,
            10u8 => EnsmState::Fdd,
            11u8 => EnsmState::FddFlush,
            _ => EnsmState::Unknown,
        }
    }
}

/// Internal / external LO selection.
#[derive(Clone, Copy, Debug, PartialEq, Eq, Structural)]
pub enum InternalExternalLO {
    Internal,
    External,
}

impl From<InternalExternalLO> for u8 {
    fn from(v: InternalExternalLO) -> (r: u8) {
        match v {
            InternalExternalLO::Internal => 0,
            InternalExternalLO::External => 1,
        }
    }
}

impl vstd::std_specs::convert::FromSpecImpl<InternalExternalLO> for u8 {
    open spec fn obeys_from_spec() -> bool {
        true
    }

    open spec fn from_spec(v: InternalExternalLO) -> u8 {
        match v {
            InternalExternalLO::Internal => 0,
            InternalExternalLO::External => 1,
        }
    }
}

/// TX local oscillator power status.
#[derive(Clone, Copy, Debug, PartialEq, Eq, Structural)]
pub enum LOPowerStatus {
    On,
    Off,
}

impl From<LOPowerStatus> for u8 {
    fn from(v: LOPowerStatus) -> (r: u8) {
        match v {
            LOPowerStatus::On => 0,
            LOPowerStatus::Off => 1,
        }
    }
}

impl vstd::std_specs::convert::FromSpecImpl<LOPowerStatus> for u8 {
    open spec fn obeys_from_spec() -> bool {
        true
    }

    open spec fn from_spec(v: LOPowerStatus) -> u8 {
        match v {
            LOPowerStatus::On => 0,
            LOPowerStatus::Off => 1,
        }
    }
}

/// The power status that the driver's raw report stands for. The driver
/// reports the opposite sense to the encoding it takes, so a raw 1 means `On`
/// and a raw 0 means `Off`; it reports no other value.
pub open spec fn lo_power_from_report(v: u8) -> Option<LOPowerStatus> {
    if v == 1 {
        Some(LOPowerStatus::On)
    } else if v == 0 {
        Some(LOPowerStatus::Off)
    } else {
        None
    }
}

impl LOPowerStatus {
    /// Decodes the driver's raw power status report (see
    /// `lo_power_from_report`); `None` for a value the driver never reports.
    pub fn from_report(v: u8) -> (r: Option<LOPowerStatus>)
        ensures
            r == lo_power_from_report(v),
    {
        match v {
            1 => Some(LOPowerStatus::On),
            0 => Some(LOPowerStatus::Off),
            _ => None,
        }
    }
}

/// Built-In Self Test (BIST) mode.
#[derive(Clone, Copy, Debug, PartialEq, Eq, Structural)]
pub enum BistMode {
    Disable,
    InjectTx,
    InjectRx,
}

impl Default for BistMode {
    fn default() -> (r: BistMode)
        ensures
            r == BistMode::Disable,
    {
        BistMode::Disable
    }
}

impl From<BistMode> for u32 {
    fn from(v: BistMode) -> (r: u32) {
        match v {
            BistMode::Disable => 0,
            BistMode::InjectTx => 1,
            BistMode::InjectRx => 2,
        }
    }
}

impl vstd::std_specs::convert::FromSpecImpl<BistMode> for u32 {
    open spec fn obeys_from_spec() -> bool {
        true
    }

    open spec fn from_spec(v: BistMode) -> u32 {
        match v {
            BistMode::Disable => 0,
            BistMode::InjectTx => 1,
            BistMode::InjectRx => 2,
        }
    }
}

/// The BIST mode that a raw driver value stands for, if any.
pub open spec fn bist_mode_from_raw(v: u32) -> Option<BistMode> {
    if v == 0 {
        Some(BistMode::Disable)
    } else if v == 1 {
        Some(BistMode::InjectTx)
    } else if v == 2 {
        Some(BistMode::InjectRx)
    } else {
        None
    }
}

impl BistMode {
    /// Decodes a raw driver BIST mode; `None` for a value outside the
    /// driver's enumeration.
    pub fn from_raw(v: u32) -> (r: Option<BistMode>)
        ensures
            r == bist_mode_from_raw(v),
    {
        match v {
            0 => Some(BistMode::Disable),
            1 => Some(BistMode::InjectTx),
            2 => Some(BistMode::InjectRx),
            _ => None,
        }
    }
}

/// Loopback mode. When enabled, TX is looped back to RX inside the chip.
#[derive(Clone, Copy, Debug, PartialEq, Eq, Structural)]
pub enum LoopbackMode {
    Disabled,
    Enabled,
}

impl From<LoopbackMode> for i32 {
    fn from(v: LoopbackMode) -> (r: i32) {
        match v {
            LoopbackMode::Disabled => 0,
            LoopbackMode::Enabled => 1,
        }
    }
}

impl vstd::std_specs::convert::FromSpecImpl<LoopbackMode> for i32 {
    open spec fn obeys_from_spec() -> bool {
        true
    }

    open spec fn from_spec(v: LoopbackMode) -> i32 {
        match v {
            LoopbackMode::Disabled => 0,
            LoopbackMode::Enabled => 1,
        }
    }
}

impl From<i32> for LoopbackMode {
    fn from(v: i32) -> (r: LoopbackMode) {
        match v {
            1i32 => LoopbackMode::Enabled,
            _ => LoopbackMode::Disabled,
        }
    }
}

impl vstd::std_specs::convert::FromSpecImpl<i32> for LoopbackMode {
    open spec fn obeys_from_spec() -> bool {
        true
    }

    open spec fn from_spec(v: i32) -> LoopbackMode {
        match v {
            1i32 => LoopbackMode::Enabled,
            _ => LoopbackMode::Disabled,
        }
    }
}

/// RF gain control mode.
#[derive(Clone, Copy, Debug, PartialEq, Eq, Structural)]
pub enum RfGainControlMode {
    Manual,
    FastAttackAgc,
    SlowAttackAgc,
    HybridAgc,
}

impl From<RfGainControlMode> for u8 {
    fn from(v: RfGainControlMode) -> (r: u8) {
        match v {
            RfGainControlMode::Manual => 0,
            RfGainControlMode::FastAttackAgc => 1,
            RfGainControlMode::SlowAttackAgc => 2,
            RfGainControlMode::HybridAgc => 3,
        }
    }
}

impl vstd::std_specs::convert::FromSpecImpl<RfGainControlMode> for u8 {
    open spec fn obeys_from_spec() -> bool {
        true
    }

    open spec fn from_spec(v: RfGainControlMode) -> u8 {
        match v {
            RfGainControlMode::Manual => 0,
            RfGainControlMode::FastAttackAgc => 1,
            RfGainControlMode::SlowAttackAgc => 2,
            RfGainControlMode::HybridAgc => 3,
        }
    }
}

impl From<u8> for RfGainControlMode {
    fn from(v: u8) -> (r: RfGainControlMode) {
        match v {
            1u8 => RfGainControlMode::FastAttackAgc,
            2u8 => RfGainControlMode::SlowAttackAgc,
            3u8 => RfGainControlMode::HybridAgc,
            _ => RfGainControlMode::Manual,
        }
    }
}

impl vstd::std_specs::convert::FromSpecImpl<u8> for RfGainControlMode {
    open spec fn obeys_from_spec() -> bool {
        true
    }

    open spec fn from_spec(v: u8) -> RfGainControlMode {
        match v {
            1u8 => RfGainControlMode::FastAttackAgc,
            2u8 => RfGainControlMode::SlowAttackAgc,
            3u8 => RfGainControlMode::HybridAgc,
            _ => RfGainControlMode::Manual,
        }
    }
}

/// A temperature as the driver reports it: in thousandths of a degree
/// Celsius.
#[derive(Clone, Copy, Debug, PartialEq, Eq, Structural)]
pub struct TemperatureX1000(pub i32);

impl TemperatureX1000 {
    /// The temperature in thousandths of a degree Celsius.
    pub fn milli_celsius(&self) -> (r: i32)
        ensures
            r == self.0,
    {
        self.0
    }
}

impl From<i32> for TemperatureX1000 {
    fn from(v: i32) -> (r: TemperatureX1000) {
        TemperatureX1000(v)
    }
}

impl vstd::std_specs::convert::FromSpecImpl<i32> for TemperatureX1000 {
    open spec fn obeys_from_spec() -> bool {
        true
    }

    open spec fn from_spec(v: i32) -> TemperatureX1000 {
        TemperatureX1000(v)
    }
}

/// A driver enable flag: raw 0 is false, any other raw value is true.
#[derive(Clone, Copy, Debug, PartialEq, Eq, Structural)]
pub struct InBool(pub bool);

impl From<u8> for InBool {
    fn from(v: u8) -> (r: InBool) {
        match v {
            0u8 => InBool(false),
            _ => InBool(true),
        }
    }
}

impl vstd::std_specs::convert::FromSpecImpl<u8> for InBool {
    open spec fn obeys_from_spec() -> bool {
        true
    }

    open spec fn from_spec(v: u8) -> InBool {
        match v {
            0u8 => InBool(false),
            _ => InBool(true),
        }
    }
}

impl From<InBool> for u8 {
    fn from(v: InBool) -> (r: u8) {
        match v {
            InBool(false) => 0,
            InBool(true) => 1,
        }
    }
}

impl vstd::std_specs::convert::FromSpecImpl<InBool> for u8 {
    open spec fn obeys_from_spec() -> bool {
        true
    }

    open spec fn from_spec(v: InBool) -> u8 {
        match v {
            InBool(false) => 0,
            InBool(true) => 1,
        }
    }
}

impl From<bool> for InBool {
    fn from(v: bool) -> (r: InBool) {
        InBool(v)
    }
}

impl vstd::std_specs::convert::FromSpecImpl<bool> for InBool {
    open spec fn obeys_from_spec() -> bool {
        true
    }

    open spec fn from_spec(v: bool) -> InBool {
        InBool(v)
    }
}

impl From<InBool> for bool {
    fn from(v: InBool) -> (r: bool) {
        v.0
    }
}

impl vstd::std_specs::convert::FromSpecImpl<InBool> for bool {
    open spec fn obeys_from_spec() -> bool {
        true
    }

    open spec fn from_spec(v: InBool) -> bool {
        v.0
    }
}

/// Symmetric properties round-trip through their raw encodings: decoding
/// the raw value that a domain value encodes to gives the value back. (The
/// TX LO power status is not symmetric: see `lo_power_from_report`.)
pub proof fn lemma_encoding_round_trip(
    tx: TxRfPortSelection,
    rx: RxRfPortSelection,
    state: EnsmState,
    bist: BistMode,
    loopback: LoopbackMode,
    gain: RfGainControlMode,
    flag: bool,
)
    ensures
        <TxRfPortSelection as FromSpec<u32>>::from_spec(<u32 as FromSpec<TxRfPortSelection>>::from_spec(tx)) == tx,
        <RxRfPortSelection as FromSpec<u32>>::from_spec(<u32 as FromSpec<RxRfPortSelection>>::from_spec(rx)) == rx,
        <EnsmState as FromSpec<u8>>::from_spec(<u8 as FromSpec<EnsmState>>::from_spec(state)) == state,
        bist_mode_from_raw(<u32 as FromSpec<BistMode>>::from_spec(bist)) == Some(bist),
        <LoopbackMode as FromSpec<i32>>::from_spec(<i32 as FromSpec<LoopbackMode>>::from_spec(loopback)) == loopback,
        <RfGainControlMode as FromSpec<u8>>::from_spec(<u8 as FromSpec<RfGainControlMode>>::from_spec(gain)) == gain,
        <bool as FromSpec<InBool>>::from_spec(<InBool as FromSpec<u8>>::from_spec(<u8 as FromSpec<InBool>>::from_spec(<InBool as FromSpec<bool>>::from_spec(flag)))) == flag,
{
}

} // verus!
