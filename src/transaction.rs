//! Register transaction frames, as they travel over the SPI bus.
//!
//! Byte 0 carries the direction (bit 7), the burst length less one
//! (bits 4 to 6) and the two high bits of the register address (bits 0 and 1).
//! Byte 1 carries the low eight bits of the address, and byte 2 the value of
//! the first register.

use vstd::prelude::*;

verus! {

/// Register address encoded by the two header bytes of a frame.
pub open spec fn frame_register(b0: u8, b1: u8) -> int {
    b1 as int + (b0 as int % 4) * 256
}

/// Burst length (number of registers) encoded by the first header byte.
pub open spec fn frame_length(b0: u8) -> int {
    (b0 as int / 16) % 8 + 1
}

/// A view of one register transaction frame.
pub struct Ad9361Transaction<'a>(pub &'a [u8]);

impl<'a> Ad9361Transaction<'a> {
    /// Register address of the first register of the transaction.
    pub fn register(&self) -> (r: u16)
        requires
            self.0@.len() >= 2,
        ensures
            r as int == frame_register(self.0@[0], self.0@[1]),
            r < 1024,
    {
        let b0: u8 = self.0[0];
        let b1: u8 = self.0[1];
        let high: u16 = ((b0 as u16) & 3) << 8;
        assert(((b0 as u16) & 3) << 8 == ((b0 % 4) as u16) * 256) by (bit_vector);
        (b1 as u16) + high
    }

    /// True for a write transaction, false for a read.
    pub fn is_write(&self) -> (r: bool)
        requires
            self.0@.len() >= 1,
        ensures
            r == (self.0@[0] >= 128),
    {
        let b0: u8 = self.0[0];
        assert((b0 & 0x80 > 0) == (b0 >= 128)) by (bit_vector);
        b0 & 0x80 > 0
    }

    /// Value written to (or read from) the first register.
    pub fn value(&self) -> (r: u8)
        requires
            self.0@.len() >= 3,
        ensures
            r == self.0@[2],
    {
        self.0[2]
    }

    /// Number of consecutive registers covered by the transaction.
    pub fn length(&self) -> (r: usize)
        requires
            self.0@.len() >= 1,
        ensures
            r as int == frame_length(self.0@[0]),
            1 <= r <= 8,
    {
        let b0: u8 = self.0[0];
        assert((b0 >> 4) & 7 == (b0 / 16) % 8) by (bit_vector);
        (((b0 >> 4) & 7) as usize) + 1
    }
}

} // verus!
