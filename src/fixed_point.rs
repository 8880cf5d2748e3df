//! Fixed-point numbers held as their raw bits.
//!
//! Each type stores the integer `bits`; its value is `bits / 2^F` where `F`
//! is the number of fractional bits named by the type. Arithmetic truncates
//! toward zero, the way binary fixed-point multiplication and division do.
use vstd::prelude::*;

verus! {

/// Unsigned value in [0, 1) with 16 fractional bits.
#[derive(Clone, Copy, Debug, PartialEq, Eq, Structural)]
pub struct U0F16 {
    pub bits: u16,
}

/// Unsigned value in [0, 16) with 4 fractional bits.
#[derive(Clone, Copy, Debug, PartialEq, Eq, Structural)]
pub struct U4F4 {
    pub bits: u8,
}

/// Unsigned value in [0, 4096) with 4 fractional bits.
#[derive(Clone, Copy, Debug, PartialEq, Eq, Structural)]
pub struct U12F4 {
    pub bits: u16,
}

/// Unsigned value in [0, 2^24) with 8 fractional bits.
#[derive(Clone, Copy, Debug, PartialEq, Eq, Structural)]
pub struct U24F8 {
    pub bits: u32,
}

/// Signed value in [-1, 1) with 15 fractional bits.
#[derive(Clone, Copy, Debug, PartialEq, Eq, Structural)]
pub struct I1F15 {
    pub bits: i16,
}

impl U0F16 {
    /// Distance between two values.
    pub fn abs_diff(self, other: U0F16) -> (r: U0F16)
        ensures
            r.bits == if self.bits >= other.bits {
                self.bits - other.bits
            } else {
                other.bits - self.bits
            },
    {
        if self.bits >= other.bits {
            U0F16 { bits: self.bits - other.bits }
        } else {
            U0F16 { bits: other.bits - self.bits }
        }
    }

    /// Product, truncated to 16 fractional bits.
    pub fn mul(self, other: U0F16) -> (r: U0F16)
        ensures
            r.bits == (self.bits as int * other.bits as int) / 0x1_0000,
    {
        assert(self.bits as int * other.bits as int <= 0xFFFF * 0xFFFF) by (nonlinear_arith)
            requires
                self.bits <= 0xFFFF,
                other.bits <= 0xFFFF,
        ;
        let p: u32 = self.bits as u32 * other.bits as u32;
        U0F16 { bits: (p / 0x1_0000) as u16 }
    }

    /// The same value with its lowest 8 fractional bits dropped.
    pub fn to_u24f8(self) -> (r: U24F8)
        ensures
            r.bits == self.bits as int / 0x100,
    {
        U24F8 { bits: (self.bits / 0x100) as u32 }
    }

    /// The same value with its lowest 12 fractional bits dropped.
    pub fn to_u4f4(self) -> (r: U4F4)
        ensures
            r.bits == self.bits as int / 0x1000,
    {
        U4F4 { bits: (self.bits / 0x1000) as u8 }
    }
}

impl U12F4 {
    /// The same value, exactly, with 8 fractional bits.
    pub fn to_u24f8(self) -> (r: U24F8)
        ensures
            r.bits == self.bits as int * 16,
    {
        U24F8 { bits: self.bits as u32 * 16 }
    }
}

impl U24F8 {
    /// Product, truncated to 8 fractional bits.
    pub fn mul(self, other: U24F8) -> (r: U24F8)
        requires
            (self.bits as int * other.bits as int) / 0x100 <= u32::MAX,
        ensures
            r.bits == (self.bits as int * other.bits as int) / 0x100,
    {
        assert(self.bits as int * other.bits as int <= 0xFFFF_FFFF * 0xFFFF_FFFF)
            by (nonlinear_arith)
            requires
                self.bits <= 0xFFFF_FFFF,
                other.bits <= 0xFFFF_FFFF,
        ;
        let p: u64 = self.bits as u64 * other.bits as u64;
        U24F8 { bits: (p / 0x100) as u32 }
    }

    /// Quotient, truncated to 8 fractional bits.
    pub fn div(self, other: U24F8) -> (r: U24F8)
        requires
            other.bits > 0,
            (self.bits as int * 0x100) / (other.bits as int) <= u32::MAX,
        ensures
            r.bits == (self.bits as int * 0x100) / (other.bits as int),
    {
        let n: u64 = self.bits as u64 * 0x100;
        U24F8 { bits: (n / other.bits as u64) as u32 }
    }

    /// The value with 4 fractional bits, or the largest such value where it
    /// does not fit.
    pub fn saturating_to_u12f4(self) -> (r: U12F4)
        ensures
            r.bits == if self.bits as int / 16 <= u16::MAX {
                self.bits as int / 16
            } else {
                u16::MAX as int
            },
    {
        let q: u32 = self.bits / 16;
        if q <= u16::MAX as u32 {
            U12F4 { bits: q as u16 }
        } else {
            U12F4 { bits: u16::MAX }
        }
    }
}

} // verus!
