//! Gain table configuration.

use vstd::prelude::*;

verus! {

/// Number of entries a gain table holds.
pub const GAIN_TABLE_ENTRIES: usize = 90;

/// Entries in use in the recommended full gain table.
pub const SIZE_FULL_TABLE: u8 = 77;

/// Entries in use in the recommended split gain table.
pub const SIZE_SPLIT_TABLE: u8 = 41;

/// Slot of the gain table descriptors that a full table occupies.
pub const FULL_TABLE_SLOT: usize = 0;

/// Slot of the gain table descriptors that a split table occupies, so that
/// the driver finds it at the index of its mid-frequency lookups.
pub const SPLIT_TABLE_SLOT: usize = 4;

/// Upper end of the frequency range that a recommended table covers, in Hz.
pub const TABLE_END_HZ: u64 = 6_000_000_000;

/// The AD9361 supports both full and split gain tables.
#[derive(Clone, Copy, Debug, PartialEq, Eq, Structural)]
pub enum GainTableKind {
    Full,
    Split,
}

/// Descriptor of one gain table, as the driver reads it.
#[derive(Clone, Copy, Debug, PartialEq, Eq, Structural)]
pub struct GainTableInfo {
    /// Lowest frequency the table applies to, in Hz.
    pub start: u64,
    /// Highest frequency the table applies to, in Hz.
    pub end: u64,
    /// Number of entries in use.
    pub max_index: u8,
    /// 1 for a split table, 0 for a full table.
    pub split_table: u8,
}

/// An unused descriptor slot.
pub open spec fn null_info() -> GainTableInfo {
    GainTableInfo { start: 0, end: 0, max_index: 0, split_table: 0 }
}

/// Index of the recommended table for a LO frequency: below 1.3 GHz, below
/// 4 GHz, and above.
pub open spec fn recommended_band(frequency: u64) -> int {
    if frequency < 1_300_000_000 {
        0
    } else if frequency < 4_000_000_000 {
        1
    } else {
        2
    }
}

/// Register values of the recommended full gain tables, per band.
pub const FULL_GAIN_TABLE: [[[u8; 3]; 90]; 3] = [
    // 800 MHz
    [
        [0x00, 0x00, 0x20], [0x00, 0x00, 0x00], [0x00, 0x00, 0x00], [0x00, 0x01, 0x00],
        [0x00, 0x02, 0x00], [0x00, 0x03, 0x00], [0x00, 0x04, 0x00], [0x00, 0x05, 0x00],
        [0x01, 0x03, 0x20], [0x01, 0x04, 0x00], [0x01, 0x05, 0x00], [0x01, 0x06, 0x00],
        [0x01, 0x07, 0x00], [0x01, 0x08, 0x00], [0x01, 0x09, 0x00], [0x01, 0x0A, 0x00],
        [0x01, 0x0B, 0x00], [0x01, 0x0C, 0x00], [0x01, 0x0D, 0x00], [0x01, 0x0E, 0x00],
        [0x02, 0x09, 0x20], [0x02, 0x0A, 0x00], [0x02, 0x0B, 0x00], [0x02, 0x0C, 0x00],
        [0x02, 0x0D, 0x00], [0x02, 0x0E, 0x00], [0x02, 0x0F, 0x00], [0x02, 0x10, 0x00],
        [0x02, 0x2B, 0x20], [0x02, 0x2C, 0x00], [0x04, 0x28, 0x20], [0x04, 0x29, 0x00],
        [0x04, 0x2A, 0x00], [0x04, 0x2B, 0x00], [0x24, 0x20, 0x20], [0x24, 0x21, 0x00],
        [0x44, 0x20, 0x20], [0x44, 0x21, 0x00], [0x44, 0x22, 0x00], [0x44, 0x23, 0x00],
        [0x44, 0x24, 0x00], [0x44, 0x25, 0x00], [0x44, 0x26, 0x00], [0x44, 0x27, 0x00],
        [0x44, 0x28, 0x00], [0x44, 0x29, 0x00], [0x44, 0x2A, 0x00], [0x44, 0x2B, 0x00],
        [0x44, 0x2C, 0x00], [0x44, 0x2D, 0x00], [0x44, 0x2E, 0x00], [0x44, 0x2F, 0x00],
        [0x44, 0x30, 0x00], [0x44, 0x31, 0x00], [0x44, 0x32, 0x00], [0x64, 0x2E, 0x20],
        [0x64, 0x2F, 0x00], [0x64, 0x30, 0x00], [0x64, 0x31, 0x00], [0x64, 0x32, 0x00],
        [0x64, 0x33, 0x00], [0x64, 0x34, 0x00], [0x64, 0x35, 0x00], [0x64, 0x36, 0x00],
        [0x64, 0x37, 0x00], [0x64, 0x38, 0x00], [0x65, 0x38, 0x20], [0x66, 0x38, 0x20],
        [0x67, 0x38, 0x20], [0x68, 0x38, 0x20], [0x69, 0x38, 0x20], [0x6A, 0x38, 0x20],
        [0x6B, 0x38, 0x20], [0x6C, 0x38, 0x20], [0x6D, 0x38, 0x20], [0x6E, 0x38, 0x20],
        [0x6F, 0x38, 0x20], [0x00, 0x00, 0x00], [0x00, 0x00, 0x00], [0x00, 0x00, 0x00],
        [0x00, 0x00, 0x00], [0x00, 0x00, 0x00], [0x00, 0x00, 0x00], [0x00, 0x00, 0x00],
        [0x00, 0x00, 0x00], [0x00, 0x00, 0x00], [0x00, 0x00, 0x00], [0x00, 0x00, 0x00],
        [0x00, 0x00, 0x00], [0x00, 0x00, 0x00],
    ],
    // 2300 MHz
    [
        [0x00, 0x00, 0x20], [0x00, 0x00, 0x00], [0x00, 0x00, 0x00], [0x00, 0x01, 0x00],
        [0x00, 0x02, 0x00], [0x00, 0x03, 0x00], [0x00, 0x04, 0x00], [0x00, 0x05, 0x00],
        [0x01, 0x03, 0x20], [0x01, 0x04, 0x00], [0x01, 0x05, 0x00], [0x01, 0x06, 0x00],
        [0x01, 0x07, 0x00], [0x01, 0x08, 0x00], [0x01, 0x09, 0x00], [0x01, 0x0A, 0x00],
        [0x01, 0x0B, 0x00], [0x01, 0x0C, 0x00], [0x01, 0x0D, 0x00], [0x01, 0x0E, 0x00],
        [0x02, 0x09, 0x20], [0x02, 0x0A, 0x00], [0x02, 0x0B, 0x00], [0x02, 0x0C, 0x00],
        [0x02, 0x0D, 0x00], [0x02, 0x0E, 0x00], [0x02, 0x0F, 0x00], [0x02, 0x10, 0x00],
        [0x02, 0x2B, 0x20], [0x02, 0x2C, 0x00], [0x04, 0x27, 0x20], [0x04, 0x28, 0x00],
        [0x04, 0x29, 0x00], [0x04, 0x2A, 0x00], [0x04, 0x2B, 0x00], [0x24, 0x21, 0x20],
        [0x24, 0x22, 0x00], [0x44, 0x20, 0x20], [0x44, 0x21, 0x00], [0x44, 0x22, 0x00],
        [0x44, 0x23, 0x00], [0x44, 0x24, 0x00], [0x44, 0x25, 0x00], [0x44, 0x26, 0x00],
        [0x44, 0x27, 0x00], [0x44, 0x28, 0x00], [0x44, 0x29, 0x00], [0x44, 0x2A, 0x00],
        [0x44, 0x2B, 0x00], [0x44, 0x2C, 0x00], [0x44, 0x2D, 0x00], [0x44, 0x2E, 0x00],
        [0x44, 0x2F, 0x00], [0x44, 0x30, 0x00], [0x44, 0x31, 0x00], [0x64, 0x2E, 0x20],
        [0x64, 0x2F, 0x00], [0x64, 0x30, 0x00], [0x64, 0x31, 0x00], [0x64, 0x32, 0x00],
        [0x64, 0x33, 0x00], [0x64, 0x34, 0x00], [0x64, 0x35, 0x00], [0x64, 0x36, 0x00],
        [0x64, 0x37, 0x00], [0x64, 0x38, 0x00], [0x65, 0x38, 0x20], [0x66, 0x38, 0x20],
        [0x67, 0x38, 0x20], [0x68, 0x38, 0x20], [0x69, 0x38, 0x20], [0x6A, 0x38, 0x20],
        [0x6B, 0x38, 0x20], [0x6C, 0x38, 0x20], [0x6D, 0x38, 0x20], [0x6E, 0x38, 0x20],
        [0x6F, 0x38, 0x20], [0x00, 0x00, 0x00], [0x00, 0x00, 0x00], [0x00, 0x00, 0x00],
        [0x00, 0x00, 0x00], [0x00, 0x00, 0x00], [0x00, 0x00, 0x00], [0x00, 0x00, 0x00],
        [0x00, 0x00, 0x00], [0x00, 0x00, 0x00], [0x00, 0x00, 0x00], [0x00, 0x00, 0x00],
        [0x00, 0x00, 0x00], [0x00, 0x00, 0x00],
    ],
    // 5500 MHz
    [
        [0x00, 0x00, 0x20], [0x00, 0x00, 0x00], [0x00, 0x00, 0x00], [0x00, 0x00, 0x00],
        [0x00, 0x00, 0x00], [0x00, 0x01, 0x00], [0x00, 0x02, 0x00], [0x00, 0x03, 0x00],
        [0x01, 0x01, 0x20], [0x01, 0x02, 0x00], [0x01, 0x03, 0x00], [0x01, 0x04, 0x20],
        [0x01, 0x05, 0x00], [0x01, 0x06, 0x00], [0x01, 0x07, 0x00], [0x01, 0x08, 0x00],
        [0x01, 0x09, 0x00], [0x01, 0x0A, 0x00], [0x01, 0x0B, 0x00], [0x01, 0x0C, 0x00],
        [0x02, 0x08, 0x20], [0x02, 0x09, 0x00], [0x02, 0x0A, 0x00], [0x02, 0x0B, 0x20],
        [0x02, 0x0C, 0x00], [0x02, 0x0D, 0x00], [0x02, 0x0E, 0x00], [0x02, 0x0F, 0x00],
        [0x02, 0x2A, 0x20], [0x02, 0x2B, 0x00], [0x04, 0x27, 0x20], [0x04, 0x28, 0x00],
        [0x04, 0x29, 0x00], [0x04, 0x2A, 0x00], [0x04, 0x2B, 0x00], [0x04, 0x2C, 0x00],
        [0x04, 0x2D, 0x00], [0x24, 0x20, 0x20], [0x24, 0x21, 0x00], [0x24, 0x22, 0x00],
        [0x44, 0x20, 0x20], [0x44, 0x21, 0x00], [0x44, 0x22, 0x00], [0x44, 0x23, 0x00],
        [0x44, 0x24, 0x00], [0x44, 0x25, 0x00], [0x44, 0x26, 0x00], [0x44, 0x27, 0x00],
        [0x44, 0x28, 0x00], [0x44, 0x29, 0x00], [0x44, 0x2A, 0x00], [0x44, 0x2B, 0x00],
        [0x44, 0x2C, 0x00], [0x44, 0x2D, 0x00], [0x44, 0x2E, 0x00], [0x64, 0x2E, 0x20],
        [0x64, 0x2F, 0x00], [0x64, 0x30, 0x00], [0x64, 0x31, 0x00], [0x64, 0x32, 0x00],
        [0x64, 0x33, 0x00], [0x64, 0x34, 0x00], [0x64, 0x35, 0x00], [0x64, 0x36, 0x00],
        [0x64, 0x37, 0x00], [0x64, 0x38, 0x00], [0x65, 0x38, 0x20], [0x66, 0x38, 0x20],
        [0x67, 0x38, 0x20], [0x68, 0x38, 0x20], [0x69, 0x38, 0x20], [0x6A, 0x38, 0x20],
        [0x6B, 0x38, 0x20], [0x6C, 0x38, 0x20], [0x6D, 0x38, 0x20], [0x6E, 0x38, 0x20],
        [0x6F, 0x38, 0x20], [0x00, 0x00, 0x00], [0x00, 0x00, 0x00], [0x00, 0x00, 0x00],
        [0x00, 0x00, 0x00], [0x00, 0x00, 0x00], [0x00, 0x00, 0x00], [0x00, 0x00, 0x00],
        [0x00, 0x00, 0x00], [0x00, 0x00, 0x00], [0x00, 0x00, 0x00], [0x00, 0x00, 0x00],
        [0x00, 0x00, 0x00], [0x00, 0x00, 0x00],
    ],
];

/// Absolute gains of the recommended full gain tables, per band.
pub const FULL_ABS_GAIN: [[i8; 90]; 3] = [
    // 800 MHz
    [
        -1, -1, -1, 0, 1, 2, 3, 4, 5, 6, 7, 8, 9, 10, 11, 12, 13, 14, 15, 16, 17, 18, 19, 20, 21,
        22, 23, 24, 25, 26, 27, 28, 29, 30, 31, 32, 33, 34, 35, 36, 37, 38, 39, 40, 41, 42, 43, 44,
        45, 46, 47, 48, 49, 50, 51, 52, 53, 54, 55, 56, 57, 58, 59, 60, 61, 62, 63, 64, 65, 66, 67,
        68, 69, 70, 71, 72, 73, 0, 0, 0, 0, 0, 0, 0, 0, 0, 0, 0, 0, 0,
    ],
    // 2300 MHz
    [
        -3, -3, -3, -2, -1, 0, 1, 2, 3, 4, 5, 6, 7, 8, 9, 10, 11, 12, 13, 14, 15, 16, 17, 18, 19,
        20, 21, 22, 23, 24, 25, 26, 27, 28, 29, 30, 31, 32, 33, 34, 35, 36, 37, 38, 39, 40, 41, 42,
        43, 44, 45, 46, 47, 48, 49, 50, 51, 52, 53, 54, 55, 56, 57, 58, 59, 60, 61, 62, 63, 64, 65,
        66, 67, 68, 69, 70, 71, 0, 0, 0, 0, 0, 0, 0, 0, 0, 0, 0, 0, 0,
    ],
    // 5500 MHz
    [
        -10, -10, -10, -10, -10, -9, -8, -7, -6, -5, -4, -3, -2, -1, 0, 1, 2, 3, 4, 5, 6, 7, 8, 9,
        10, 11, 12, 13, 14, 15, 16, 17, 18, 19, 20, 21, 22, 23, 24, 25, 26, 27, 28, 29, 30, 31, 32,
        33, 34, 35, 36, 37, 38, 39, 40, 41, 42, 43, 44, 45, 46, 47, 48, 49, 50, 51, 52, 53, 54, 55,
        56, 57, 58, 59, 60, 61, 62, 0, 0, 0, 0, 0, 0, 0, 0, 0, 0, 0, 0, 0,
    ],
];

/// Register values of the recommended split gain tables, per band.
pub const SPLIT_GAIN_TABLE: [[[u8; 3]; 90]; 3] = [
    // 800 MHz
    [
        [0x00, 0x18, 0x20], [0x00, 0x18, 0x00], [0x00, 0x18, 0x00], [0x00, 0x18, 0x00],
        [0x00, 0x18, 0x00], [0x00, 0x18, 0x00], [0x00, 0x18, 0x20], [0x01, 0x18, 0x20],
        [0x02, 0x18, 0x20], [0x04, 0x18, 0x20], [0x04, 0x38, 0x20], [0x05, 0x38, 0x20],
        [0x06, 0x38, 0x20], [0x07, 0x38, 0x20], [0x08, 0x38, 0x20], [0x09, 0x38, 0x20],
        [0x0A, 0x38, 0x20], [0x0B, 0x38, 0x20], [0x0C, 0x38, 0x20], [0x0D, 0x38, 0x20],
        [0x0E, 0x38, 0x20], [0x0F, 0x38, 0x20], [0x24, 0x38, 0x20], [0x25, 0x38, 0x20],
        [0x44, 0x38, 0x20], [0x45, 0x38, 0x20], [0x46, 0x38, 0x20], [0x47, 0x38, 0x20],
        [0x48, 0x38, 0x20], [0x64, 0x38, 0x20], [0x65, 0x38, 0x20], [0x66, 0x38, 0x20],
        [0x67, 0x38, 0x20], [0x68, 0x38, 0x20], [0x69, 0x38, 0x20], [0x6A, 0x38, 0x20],
        [0x6B, 0x38, 0x20], [0x6C, 0x38, 0x20], [0x6D, 0x38, 0x20], [0x6E, 0x38, 0x20],
        [0x6F, 0x38, 0x20], [0x00, 0x00, 0x00], [0x00, 0x00, 0x00], [0x00, 0x00, 0x00],
        [0x00, 0x00, 0x00], [0x00, 0x00, 0x00], [0x00, 0x00, 0x00], [0x00, 0x00, 0x00],
        [0x00, 0x00, 0x00], [0x00, 0x00, 0x00], [0x00, 0x00, 0x00], [0x00, 0x00, 0x00],
        [0x00, 0x00, 0x00], [0x00, 0x00, 0x00], [0x00, 0x00, 0x00], [0x00, 0x00, 0x00],
        [0x00, 0x00, 0x00], [0x00, 0x00, 0x00], [0x00, 0x00, 0x00], [0x00, 0x00, 0x00],
        [0x00, 0x00, 0x00], [0x00, 0x00, 0x00], [0x00, 0x00, 0x00], [0x00, 0x00, 0x00],
        [0x00, 0x00, 0x00], [0x00, 0x00, 0x00], [0x00, 0x00, 0x00], [0x00, 0x00, 0x00],
        [0x00, 0x00, 0x00], [0x00, 0x00, 0x00], [0x00, 0x00, 0x00], [0x00, 0x00, 0x00],
        [0x00, 0x00, 0x00], [0x00, 0x00, 0x00], [0x00, 0x00, 0x00], [0x00, 0x00, 0x00],
        [0x00, 0x00, 0x00], [0x00, 0x00, 0x00], [0x00, 0x00, 0x00], [0x00, 0x00, 0x00],
        [0x00, 0x00, 0x00], [0x00, 0x00, 0x00], [0x00, 0x00, 0x00], [0x00, 0x00, 0x00],
        [0x00, 0x00, 0x00], [0x00, 0x00, 0x00], [0x00, 0x00, 0x00], [0x00, 0x00, 0x00],
        [0x00, 0x00, 0x00], [0x00, 0x00, 0x00],
    ],
    // 2300 MHz
    [
        [0x00, 0x18, 0x20], [0x00, 0x18, 0x00], [0x00, 0x18, 0x00], [0x00, 0x18, 0x00],
        [0x00, 0x18, 0x00], [0x00, 0x18, 0x00], [0x00, 0x18, 0x00], [0x00, 0x18, 0x20],
        [0x01, 0x18, 0x20], [0x02, 0x18, 0x20], [0x04, 0x18, 0x20], [0x04, 0x38, 0x20],
        [0x05, 0x38, 0x20], [0x06, 0x38, 0x20], [0x07, 0x38, 0x20], [0x08, 0x38, 0x20],
        [0x09, 0x38, 0x20], [0x0A, 0x38, 0x20], [0x0B, 0x38, 0x20], [0x0C, 0x38, 0x20],
        [0x0D, 0x38, 0x20], [0x0E, 0x38, 0x20], [0x0F, 0x38, 0x20], [0x25, 0x38, 0x20],
        [0x26, 0x38, 0x20], [0x44, 0x38, 0x20], [0x45, 0x38, 0x20], [0x46, 0x38, 0x20],
        [0x47, 0x38, 0x20], [0x64, 0x38, 0x20], [0x65, 0x38, 0x20], [0x66, 0x38, 0x20],
        [0x67, 0x38, 0x20], [0x68, 0x38, 0x20], [0x69, 0x38, 0x20], [0x6A, 0x38, 0x20],
        [0x6B, 0x38, 0x20], [0x6C, 0x38, 0x20], [0x6D, 0x38, 0x20], [0x6E, 0x38, 0x20],
        [0x6F, 0x38, 0x20], [0x00, 0x00, 0x00], [0x00, 0x00, 0x00], [0x00, 0x00, 0x00],
        [0x00, 0x00, 0x00], [0x00, 0x00, 0x00], [0x00, 0x00, 0x00], [0x00, 0x00, 0x00],
        [0x00, 0x00, 0x00], [0x00, 0x00, 0x00], [0x00, 0x00, 0x00], [0x00, 0x00, 0x00],
        [0x00, 0x00, 0x00], [0x00, 0x00, 0x00], [0x00, 0x00, 0x00], [0x00, 0x00, 0x00],
        [0x00, 0x00, 0x00], [0x00, 0x00, 0x00], [0x00, 0x00, 0x00], [0x00, 0x00, 0x00],
        [0x00, 0x00, 0x00], [0x00, 0x00, 0x00], [0x00, 0x00, 0x00], [0x00, 0x00, 0x00],
        [0x00, 0x00, 0x00], [0x00, 0x00, 0x00], [0x00, 0x00, 0x00], [0x00, 0x00, 0x00],
        [0x00, 0x00, 0x00], [0x00, 0x00, 0x00], [0x00, 0x00, 0x00], [0x00, 0x00, 0x00],
        [0x00, 0x00, 0x00], [0x00, 0x00, 0x00], [0x00, 0x00, 0x00], [0x00, 0x00, 0x00],
        [0x00, 0x00, 0x00], [0x00, 0x00, 0x00], [0x00, 0x00, 0x00], [0x00, 0x00, 0x00],
        [0x00, 0x00, 0x00], [0x00, 0x00, 0x00], [0x00, 0x00, 0x00], [0x00, 0x00, 0x00],
        [0x00, 0x00, 0x00], [0x00, 0x00, 0x00], [0x00, 0x00, 0x00], [0x00, 0x00, 0x00],
        [0x00, 0x00, 0x00], [0x00, 0x00, 0x00],
    ],
    // 5500 MHz
    [
        [0x00, 0x18, 0x20], [0x00, 0x18, 0x00], [0x00, 0x18, 0x00], [0x00, 0x18, 0x00],
        [0x00, 0x18, 0x00], [0x00, 0x18, 0x00], [0x00, 0x18, 0x00], [0x00, 0x18, 0x00],
        [0x00, 0x18, 0x00], [0x00, 0x18, 0x00], [0x01, 0x18, 0x20], [0x02, 0x18, 0x20],
        [0x04, 0x18, 0x20], [0x04, 0x38, 0x20], [0x05, 0x38, 0x20], [0x06, 0x38, 0x20],
        [0x07, 0x38, 0x20], [0x08, 0x38, 0x20], [0x09, 0x38, 0x20], [0x0A, 0x38, 0x20],
        [0x0B, 0x38, 0x20], [0x0C, 0x38, 0x20], [0x0D, 0x38, 0x20], [0x0E, 0x38, 0x20],
        [0x0F, 0x38, 0x20], [0x62, 0x38, 0x20], [0x25, 0x38, 0x20], [0x26, 0x38, 0x20],
        [0x44, 0x38, 0x20], [0x64, 0x38, 0x20], [0x65, 0x38, 0x20], [0x66, 0x38, 0x20],
        [0x67, 0x38, 0x20], [0x68, 0x38, 0x20], [0x69, 0x38, 0x20], [0x6A, 0x38, 0x20],
        [0x6B, 0x38, 0x20], [0x6C, 0x38, 0x20], [0x6D, 0x38, 0x20], [0x6E, 0x38, 0x20],
        [0x6F, 0x38, 0x20], [0x00, 0x00, 0x00], [0x00, 0x00, 0x00], [0x00, 0x00, 0x00],
        [0x00, 0x00, 0x00], [0x00, 0x00, 0x00], [0x00, 0x00, 0x00], [0x00, 0x00, 0x00],
        [0x00, 0x00, 0x00], [0x00, 0x00, 0x00], [0x00, 0x00, 0x00], [0x00, 0x00, 0x00],
        [0x00, 0x00, 0x00], [0x00, 0x00, 0x00], [0x00, 0x00, 0x00], [0x00, 0x00, 0x00],
        [0x00, 0x00, 0x00], [0x00, 0x00, 0x00], [0x00, 0x00, 0x00], [0x00, 0x00, 0x00],
        [0x00, 0x00, 0x00], [0x00, 0x00, 0x00], [0x00, 0x00, 0x00], [0x00, 0x00, 0x00],
        [0x00, 0x00, 0x00], [0x00, 0x00, 0x00], [0x00, 0x00, 0x00], [0x00, 0x00, 0x00],
        [0x00, 0x00, 0x00], [0x00, 0x00, 0x00], [0x00, 0x00, 0x00], [0x00, 0x00, 0x00],
        [0x00, 0x00, 0x00], [0x00, 0x00, 0x00], [0x00, 0x00, 0x00], [0x00, 0x00, 0x00],
        [0x00, 0x00, 0x00], [0x00, 0x00, 0x00], [0x00, 0x00, 0x00], [0x00, 0x00, 0x00],
        [0x00, 0x00, 0x00], [0x00, 0x00, 0x00], [0x00, 0x00, 0x00], [0x00, 0x00, 0x00],
        [0x00, 0x00, 0x00], [0x00, 0x00, 0x00], [0x00, 0x00, 0x00], [0x00, 0x00, 0x00],
        [0x00, 0x00, 0x00], [0x00, 0x00, 0x00],
    ],
];

/// Absolute gains of the recommended split gain tables, per band.
pub const SPLIT_ABS_GAIN: [[i8; 90]; 3] = [
    // 800 MHz
    [
        -1, -1, -1, -1, -1, -1, -1, 2, 8, 13, 19, 20, 21, 22, 23, 24, 25, 26, 27, 28, 29, 30, 31,
        32, 33, 34, 35, 36, 37, 38, 39, 40, 41, 42, 43, 44, 45, 46, 47, 48, 49, 0, 0, 0, 0, 0, 0, 0,
        0, 0, 0, 0, 0, 0, 0, 0, 0, 0, 0, 0, 0, 0, 0, 0, 0, 0, 0, 0, 0, 0, 0, 0, 0, 0, 0, 0, 0, 0, 0,
        0, 0, 0, 0, 0, 0, 0, 0, 0, 0, 0,
    ],
    // 2300 MHz
    [
        -3, -3, -3, -3, -3, -3, -3, -3, 0, 6, 12, 18, 19, 20, 21, 22, 23, 24, 25, 26, 27, 28, 29,
        30, 31, 32, 33, 34, 35, 36, 37, 38, 39, 40, 41, 42, 43, 44, 45, 46, 47, 0, 0, 0, 0, 0, 0, 0,
        0, 0, 0, 0, 0, 0, 0, 0, 0, 0, 0, 0, 0, 0, 0, 0, 0, 0, 0, 0, 0, 0, 0, 0, 0, 0, 0, 0, 0, 0, 0,
        0, 0, 0, 0, 0, 0, 0, 0, 0, 0, 0,
    ],
    // 5500 MHz
    [
        -10, -10, -10, -10, -10, -10, -10, -10, -10, -10, -7, -2, 3, 9, 10, 11, 12, 13, 14, 15, 16,
        17, 18, 19, 20, 22, 24, 25, 26, 27, 28, 29, 30, 31, 32, 33, 34, 35, 36, 37, 38, 0, 0, 0, 0,
        0, 0, 0, 0, 0, 0, 0, 0, 0, 0, 0, 0, 0, 0, 0, 0, 0, 0, 0, 0, 0, 0, 0, 0, 0, 0, 0, 0, 0, 0, 0,
        0, 0, 0, 0, 0, 0, 0, 0, 0, 0, 0, 0, 0, 0,
    ],
];

/// An entry of a gain table.
#[derive(Clone, Copy, Debug, PartialEq, Eq, Structural)]
pub struct GainEntry {
    /// Register 0x131 value.
    pub reg131: u8,
    /// Register 0x132 value.
    pub reg132: u8,
    /// Register 0x133 value.
    pub reg133: u8,
    /// Absolute gain, in dB.
    pub abs_gain: i8,
}

impl GainEntry {
    /// Value of `reg131`.
    pub fn reg131(&self) -> (r: u8)
        ensures
            r == self.reg131,
    {
        self.reg131
    }

    /// Sets `reg131`.
    pub fn set_reg131(&mut self, val: u8) -> (r: &mut Self)
        ensures
            *r == (GainEntry { reg131: val, ..*old(self) }),
            *final(self) == *final(r),
    {
        self.reg131 = val;
        self
    }

    /// Value of `reg132`.
    pub fn reg132(&self) -> (r: u8)
        ensures
            r == self.reg132,
    {
        self.reg132
    }

    /// Sets `reg132`.
    pub fn set_reg132(&mut self, val: u8) -> (r: &mut Self)
        ensures
            *r == (GainEntry { reg132: val, ..*old(self) }),
            *final(self) == *final(r),
    {
        self.reg132 = val;
        self
    }

    /// Value of `reg133`.
    pub fn reg133(&self) -> (r: u8)
        ensures
            r == self.reg133,
    {
        self.reg133
    }

    /// Sets `reg133`.
    pub fn set_reg133(&mut self, val: u8) -> (r: &mut Self)
        ensures
            *r == (GainEntry { reg133: val, ..*old(self) }),
            *final(self) == *final(r),
    {
        self.reg133 = val;
        self
    }

    /// Value of `abs_gain`.
    pub fn abs_gain(&self) -> (r: i8)
        ensures
            r == self.abs_gain,
    {
        self.abs_gain
    }

    /// Sets `abs_gain`.
    pub fn set_abs_gain(&mut self, val: i8) -> (r: &mut Self)
        ensures
            *r == (GainEntry { abs_gain: val, ..*old(self) }),
            *final(self) == *final(r),
    {
        self.abs_gain = val;
        self
    }
}

/// Abstract contents of a gain table.
pub struct GainTableView {
    /// The descriptor slots.
    pub info: Seq<GainTableInfo>,
    /// The slot of the active descriptor.
    pub active: int,
    /// Register values of each entry.
    pub table: Seq<[u8; 3]>,
    /// Absolute gain of each entry.
    pub abs_gain: Seq<i8>,
}

impl GainTableView {
    /// The active descriptor.
    pub open spec fn active_info(self) -> GainTableInfo {
        self.info[self.active]
    }

    /// The entry at `index`, counted from 1.
    pub open spec fn entry(self, index: int) -> GainEntry {
        GainEntry {
            reg131: self.table[index - 1][0],
            reg132: self.table[index - 1][1],
            reg133: self.table[index - 1][2],
            abs_gain: self.abs_gain[index - 1],
        }
    }

    /// The kind of the active table.
    pub open spec fn kind(self) -> GainTableKind {
        if self.active_info().split_table == 1 {
            GainTableKind::Split
        } else {
            GainTableKind::Full
        }
    }
}

/// A gain table, with the descriptor slots that the driver reads it
/// through.
#[derive(Clone, Copy, Debug)]
pub struct GainTable {
    info: [GainTableInfo; 6],
    index: usize,
    table: [[u8; 3]; 90],
    abs_gain_tbl: [i8; 90],
}

impl View for GainTable {
    type V = GainTableView;

    closed spec fn view(&self) -> GainTableView {
        GainTableView {
            info: self.info@,
            active: self.index as int,
            table: self.table@,
            abs_gain: self.abs_gain_tbl@,
        }
    }
}

impl GainTable {
    /// The active slot is a descriptor slot and names at most as many
    /// entries as the table holds.
    pub open spec fn wf(&self) -> bool {
        &&& 0 <= self@.active < 6
        &&& self@.active_info().max_index <= GAIN_TABLE_ENTRIES
        &&& self@.info.len() == 6
        &&& self@.table.len() == GAIN_TABLE_ENTRIES
        &&& self@.abs_gain.len() == GAIN_TABLE_ENTRIES
    }

    /// Returns the entry at `index` (from 1 to 90) of the table.
    pub fn get_entry(&self, index: usize) -> (r: GainEntry)
        requires
            self.wf(),
            1 <= index <= GAIN_TABLE_ENTRIES,
        ensures
            r == self@.entry(index as int),
    {
        let row = self.table[index - 1];
        GainEntry {
            reg131: row[0],
            reg132: row[1],
            reg133: row[2],
            abs_gain: self.abs_gain_tbl[index - 1],
        }
    }

    /// Sets the entry at `index` (from 1 to 90) of the table. If not already
    /// the case, expands the table to at least `index` entries.
    pub fn set_entry(&mut self, index: usize, e: GainEntry)
        requires
            old(self).wf(),
            1 <= index <= GAIN_TABLE_ENTRIES,
        ensures
            final(self).wf(),
            final(self)@.entry(index as int) == e,
            forall|i: int|
                1 <= i <= GAIN_TABLE_ENTRIES && i != index ==> final(self)@.entry(i) == old(
                    self,
                )@.entry(i),
            final(self)@.active == old(self)@.active,
            final(self)@.active_info() == (GainTableInfo {
                max_index: if index > old(self)@.active_info().max_index {
                    index as u8
                } else {
                    old(self)@.active_info().max_index
                },
                ..old(self)@.active_info()
            }),
            forall|s: int| 0 <= s < 6 && s != old(self)@.active ==> final(self)@.info[s] == old(
                self,
            )@.info[s],
    {
        let i = index - 1;
        self.table[i] = [e.reg131, e.reg132, e.reg133];
        self.abs_gain_tbl[i] = e.abs_gain;
        let active = self.index;
        let mut info = self.info[active];
        if index as u8 > info.max_index {
            info.max_index = index as u8;
        }
        self.info[active] = info;
    }

    /// Gain table kind.
    pub fn kind(&self) -> (r: GainTableKind)
        requires
            self.wf(),
        ensures
            r == self@.kind(),
    {
        if self.info[self.index].split_table == 1 {
            GainTableKind::Split
        } else {
            GainTableKind::Full
        }
    }

    /// Maximum index currently used in this gain table.
    pub fn max_index(&self) -> (r: usize)
        requires
            self.wf(),
        ensures
            r == self@.active_info().max_index,
    {
        self.info[self.index].max_index as usize
    }

    /// The recommended gain table of the given kind for a LO `frequency`,
    /// in Hz.
    pub fn new_from_recommended(kind: GainTableKind, frequency: u64) -> (r: Self)
        ensures
            r.wf(),
            r@.kind() == kind,
            kind == GainTableKind::Full ==> {
                &&& r@.active == FULL_TABLE_SLOT
                &&& r@.active_info() == (GainTableInfo {
                    start: 0,
                    end: TABLE_END_HZ,
                    max_index: SIZE_FULL_TABLE,
                    split_table: 0,
                })
                &&& r@.table == FULL_GAIN_TABLE[recommended_band(frequency)]@
                &&& r@.abs_gain == FULL_ABS_GAIN[recommended_band(frequency)]@
            },
            kind == GainTableKind::Split ==> {
                &&& r@.active == SPLIT_TABLE_SLOT
                &&& r@.active_info() == (GainTableInfo {
                    start: 0,
                    end: TABLE_END_HZ,
                    max_index: SIZE_SPLIT_TABLE,
                    split_table: 1,
                })
                &&& r@.table == SPLIT_GAIN_TABLE[recommended_band(frequency)]@
                &&& r@.abs_gain == SPLIT_ABS_GAIN[recommended_band(frequency)]@
            },
            forall|s: int| 0 <= s < 6 && s != r@.active ==> r@.info[s] == null_info(),
    {
        let band: usize = if frequency < 1_300_000_000 {
            0
        } else if frequency < 4_000_000_000 {
            1
        } else {
            2
        };
        let gt_null = GainTableInfo { start: 0, end: 0, max_index: 0, split_table: 0 };
        match kind {
            GainTableKind::Full => {
                let full = GainTableInfo {
                    start: 0,
                    end: TABLE_END_HZ,
                    max_index: SIZE_FULL_TABLE,
                    split_table: 0,
                };
                GainTable {
                    info: [full, gt_null, gt_null, gt_null, gt_null, gt_null],
                    index: FULL_TABLE_SLOT,
                    table: FULL_GAIN_TABLE[band],
                    abs_gain_tbl: FULL_ABS_GAIN[band],
                }
            },
            GainTableKind::Split => {
                let split = GainTableInfo {
                    start: 0,
                    end: TABLE_END_HZ,
                    max_index: SIZE_SPLIT_TABLE,
                    split_table: 1,
                };
                GainTable {
                    info: [gt_null, gt_null, gt_null, gt_null, split, gt_null],
                    index: SPLIT_TABLE_SLOT,
                    table: SPLIT_GAIN_TABLE[band],
                    abs_gain_tbl: SPLIT_ABS_GAIN[band],
                }
            },
        }
    }
}

} // verus!
