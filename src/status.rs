//! The processor status register `P`.
//!
//! ```text
//!  7 6 5 4 3 2 1 0
//!  N V _ B D I Z C
//! ```
use vstd::prelude::*;

verus! {

/// Carry: unsigned carry out of additions, shifts and compares.
pub const CARRY: u8 = 0b0000_0001;

/// Zero: the last result was zero.
pub const ZERO: u8 = 0b0000_0010;

/// Interrupt disable.
pub const INTERRUPT: u8 = 0b0000_0100;

/// Decimal mode (kept, but without effect on arithmetic).
pub const DECIMAL_MODE: u8 = 0b0000_1000;

/// Break: set by `BRK`, and in the copy of `P` that `PHP` pushes.
pub const BREAK: u8 = 0b0001_0000;

/// The unused bit 5, set in the copy of `P` that `PHP` pushes.
pub const UNUSED: u8 = 0b0010_0000;

/// Overflow: signed overflow of additions, bit 6 of the operand of `BIT`.
pub const OVERFLOW: u8 = 0b0100_0000;

/// Negative: bit 7 of the last result.
pub const NEGATIVE: u8 = 0b1000_0000;

/// Every bit that names a flag (all but bit 5).
pub const ALL_FLAGS: u8 = 0b1101_1111;

/// `p` with the bits of `mask` set when `on`, cleared otherwise.
pub open spec fn with_flag(p: u8, mask: u8, on: bool) -> u8 {
    if on {
        p | mask
    } else {
        p & !mask
    }
}

/// `p` with Zero and Negative describing the byte `v`.
pub open spec fn with_zn(p: u8, v: u8) -> u8 {
    with_flag(with_flag(p, ZERO, v == 0), NEGATIVE, v & 0x80 != 0)
}

/// Whether any bit of `mask` is set in `p`.
pub open spec fn flag_set(p: u8, mask: u8) -> bool {
    p & mask != 0
}

/// The status register: a set of flags held as the bits of one byte.
#[derive(Clone, Copy, Debug, PartialEq, Eq, Structural)]
pub struct CpuStatus {
    pub bits: u8,
}

impl CpuStatus {
    /// No flag set.
    pub fn empty() -> (r: CpuStatus)
        ensures
            r.bits == 0,
    {
        CpuStatus { bits: 0 }
    }

    /// The flags kept from `bits`: every bit but the unused bit 5.
    pub fn from_bits_truncate(bits: u8) -> (r: CpuStatus)
        ensures
            r.bits == bits & ALL_FLAGS,
    {
        CpuStatus { bits: bits & ALL_FLAGS }
    }

    /// The raw byte.
    pub fn bits(&self) -> (r: u8)
        ensures
            r == self.bits,
    {
        self.bits
    }

    /// Whether every bit of `mask` is set.
    pub fn contains(&self, mask: u8) -> (r: bool)
        ensures
            r == (self.bits & mask == mask),
    {
        self.bits & mask == mask
    }

    /// Sets the bits of `mask`.
    pub fn insert(&mut self, mask: u8)
        ensures
            final(self).bits == old(self).bits | mask,
    {
        self.bits = self.bits | mask;
    }

    /// Clears the bits of `mask`.
    pub fn remove(&mut self, mask: u8)
        ensures
            final(self).bits == old(self).bits & !mask,
    {
        self.bits = self.bits & !mask;
    }

    /// Sets the bits of `mask` when `on`, clears them otherwise.
    pub fn set(&mut self, mask: u8, on: bool)
        ensures
            final(self).bits == with_flag(old(self).bits, mask, on),
    {
        if on {
            self.insert(mask);
        } else {
            self.remove(mask);
        }
    }

    /// Clears every flag.
    pub fn clear(&mut self)
        ensures
            final(self).bits == 0,
    {
        self.bits = 0;
    }

    /// Sets Zero when `value` is 0 and Negative to bit 7 of `value`; the
    /// other flags stay.
    pub fn update_zero_and_negative_flags(&mut self, value: u8)
        ensures
            final(self).bits == with_zn(old(self).bits, value),
    {
        self.set(ZERO, value == 0);
        self.set(NEGATIVE, value & 0x80 != 0);
    }
}

impl Default for CpuStatus {
    fn default() -> (r: CpuStatus)
        ensures
            r.bits == 0,
    {
        CpuStatus::empty()
    }
}

/// Zero and Negative, as set by `update_zero_and_negative_flags`, describe
/// the byte, and no other flag changes.
pub proof fn lemma_with_zn(p: u8, v: u8)
    ensures
        flag_set(with_zn(p, v), ZERO) == (v == 0),
        flag_set(with_zn(p, v), NEGATIVE) == (v >= 0x80),
        with_zn(p, v) & !(ZERO | NEGATIVE) == p & !(ZERO | NEGATIVE),
{
    assert(flag_set(with_flag(with_flag(p, 2, v == 0), 128, v & 0x80 != 0), 2) == (v == 0))
        by (bit_vector);
    assert(flag_set(with_flag(with_flag(p, 2, v == 0), 128, v & 0x80 != 0), 128) == (v >= 0x80))
        by (bit_vector);
    assert(with_flag(with_flag(p, 2, v == 0), 128, v & 0x80 != 0) & !(2u8 | 128u8) == p & !(
    2u8 | 128u8)) by (bit_vector);
}

} // verus!
