//! `ad9361_rs`: a safe, verified interface layer for the AD9361 RF transceiver
//! driver.
//!
//! The register-level driver is a foreign, non-reentrant C library. This crate
//! holds the logic that surrounds it: the special-purpose allocator that feeds
//! it memory, the single-instance and initialisation discipline of the device
//! handle, the decisions of the platform callbacks, the typed conversions of
//! the accessor protocol, the configuration blocks handed to the driver, and a
//! decoder for the SPI register transaction frames.

mod device;
mod fir;
mod gain_table;
mod heap;
mod init;
mod platform;
mod registers;
mod transaction;
mod types;

pub use device::{
    InstanceError, InstanceFlag, Lifecycle, LifecycleState, UsageError, give_back_result,
    init_completed, new_lifecycle, ready_result, release_due, released, status_outcome,
    status_result, take_result, value_result,
};
pub use fir::{Ad9361RxFir, Ad9361TxFir, RxFirConfig, TxFirConfig, default_fir_coefficients};
pub use gain_table::{
    FULL_ABS_GAIN, FULL_GAIN_TABLE, FULL_TABLE_SLOT, GAIN_TABLE_ENTRIES, GainEntry, GainTable,
    GainTableInfo, GainTableKind, GainTableView, SIZE_FULL_TABLE, SIZE_SPLIT_TABLE, SPLIT_ABS_GAIN,
    SPLIT_GAIN_TABLE, SPLIT_TABLE_SLOT, TABLE_END_HZ, null_info, recommended_band,
};
pub use heap::{
    AllocError, AllocState, Address, HeapAllocator, SCRATCHPAD_BYTES, WORD_BYTES, allocate_result,
    allocate_run, allocate_state, free_state, fresh_state, is_releasable, run_result, state_wf,
    words_for, words_total,
};
pub use init::{
    Ad9361InitParam, DeviceId, GPIO_RESET_LINE, GPIO_UNUSED, GpioInitParam, default_init_param,
};
pub use platform::{
    CALLBACK_FAILED, CALLBACK_OK, PinLevel, callback_status, do_div, gpio_connected, pin_level,
};
pub use registers::{
    LVDS_BIAS_CONTROL, RX_CLOCK_DATA_DELAY, RegisterStep, TX_CLOCK_DATA_DELAY, intf_delay_steps,
    intf_delay_write, lvds_bias_control_step, lvds_bias_value,
};
pub use transaction::{Ad9361Transaction, frame_length, frame_register};
pub use types::{
    BistMode, EnsmState, InBool, InternalExternalLO, LOPowerStatus, LoopbackMode, RfGainControlMode,
    RxRfPortSelection, TemperatureX1000, TxRfPortSelection, bist_mode_from_raw,
    lo_power_from_report,
};
