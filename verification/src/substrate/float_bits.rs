//! Single-precision measurements held as their IEEE-754 bit patterns.
//!
//! The substrate stores sensor readings (gaze coordinates, confidences,
//! heart rate, distances, probabilities) exactly as the producers measured
//! them, but as the 32-bit pattern of the value rather than as a float. The
//! comparisons below are the IEEE-754 ordering expressed on those patterns:
//! a pattern with the sign bit clear orders by its magnitude bits, one with
//! the sign bit set orders by the negated magnitude, both zeros are equal,
//! and every comparison involving a NaN is false.
use vstd::prelude::*;
use vstd::std_specs::cmp::PartialEqSpecImpl;

verus! {

/// A single-precision value, held as its IEEE-754 bit pattern. Two values
/// are `==` as floats are: when neither is a NaN and both denote the same
/// number, so `+0.0 == -0.0` and a NaN equals nothing, itself included.
#[derive(Debug, Clone, Copy)]
pub struct FloatBits(pub u32);

/// Bit pattern of `+0.0`.
pub const POSITIVE_ZERO_BITS: u32 = 0x0000_0000;

/// Bit pattern of `1.0`.
pub const ONE_BITS: u32 = 0x3F80_0000;

/// `true` when the pattern encodes a NaN (all exponent bits set and a
/// non-zero mantissa, with either sign).
pub open spec fn bits_is_nan(b: u32) -> bool {
    (0x7F80_0000 < b && b < 0x8000_0000) || 0xFF80_0000 < b
}

/// Position of a non-NaN pattern in the numeric order.
pub open spec fn bits_order_key(b: u32) -> int {
    if b < 0x8000_0000 {
        b as int
    } else {
        -((b - 0x8000_0000) as int)
    }
}

/// `a < b` in floating-point order.
pub open spec fn float_lt(a: FloatBits, b: FloatBits) -> bool {
    !bits_is_nan(a.0) && !bits_is_nan(b.0) && bits_order_key(a.0) < bits_order_key(b.0)
}

/// `a <= b` in floating-point order.
pub open spec fn float_le(a: FloatBits, b: FloatBits) -> bool {
    !bits_is_nan(a.0) && !bits_is_nan(b.0) && bits_order_key(a.0) <= bits_order_key(b.0)
}

/// `a == b` in floating-point order.
pub open spec fn float_eq(a: FloatBits, b: FloatBits) -> bool {
    !bits_is_nan(a.0) && !bits_is_nan(b.0) && bits_order_key(a.0) == bits_order_key(b.0)
}

impl PartialEq for FloatBits {
    fn eq(&self, other: &Self) -> (r: bool) {
        !self.is_nan() && !other.is_nan() && self.order_key() == other.order_key()
    }
}

impl PartialEqSpecImpl for FloatBits {
    open spec fn obeys_eq_spec() -> bool {
        true
    }

    open spec fn eq_spec(&self, other: &Self) -> bool {
        float_eq(*self, *other)
    }
}

impl FloatBits {
    /// The value's bit pattern encodes a NaN.
    pub fn is_nan(self) -> (r: bool)
        ensures
            r == bits_is_nan(self.0),
    {
        (0x7F80_0000 < self.0 && self.0 < 0x8000_0000) || 0xFF80_0000 < self.0
    }

    fn order_key(self) -> (r: i64)
        ensures
            r == bits_order_key(self.0),
    {
        if self.0 < 0x8000_0000 {
            self.0 as i64
        } else {
            -((self.0 - 0x8000_0000) as i64)
        }
    }

    /// `self < other` in floating-point order (false when either is NaN).
    pub fn lt(self, other: FloatBits) -> (r: bool)
        ensures
            r == float_lt(self, other),
    {
        !self.is_nan() && !other.is_nan() && self.order_key() < other.order_key()
    }

    /// `self <= other` in floating-point order (false when either is NaN).
    pub fn le(self, other: FloatBits) -> (r: bool)
        ensures
            r == float_le(self, other),
    {
        !self.is_nan() && !other.is_nan() && self.order_key() <= other.order_key()
    }
}

} // verus!
