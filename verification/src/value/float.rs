//! Equality and order of floating-point numbers, read off their IEEE 754
//! binary64 bit patterns.

use vstd::prelude::*;

use crate::value::Float;

verus! {

/// The bit pattern without its sign bit.
pub open spec fn float_magnitude(bits: u64) -> int {
    if bits >= 0x8000_0000_0000_0000 {
        bits - 0x8000_0000_0000_0000
    } else {
        bits as int
    }
}

/// Whether the bit pattern is a NaN: all exponent bits set, and a fraction
/// that is not zero.
pub open spec fn float_is_nan(bits: u64) -> bool {
    float_magnitude(bits) > 0x7ff0_0000_0000_0000
}

/// An integer that orders the bit patterns that are no NaN as IEEE 754
/// orders the numbers they stand for: the magnitude, negated where the
/// sign bit is set. Both zeros get 0.
pub open spec fn float_key(bits: u64) -> int {
    if bits >= 0x8000_0000_0000_0000 {
        -float_magnitude(bits)
    } else {
        float_magnitude(bits)
    }
}

/// IEEE 754 equality: a NaN equals nothing, itself included; the two zeros
/// are equal; every other number equals itself only.
pub open spec fn float_equal(a: u64, b: u64) -> bool {
    !float_is_nan(a) && !float_is_nan(b) && float_key(a) == float_key(b)
}

impl Float {
    /// Whether this number is a NaN.
    pub fn is_nan(&self) -> (r: bool)
        ensures
            r == float_is_nan(self.bits),
    {
        if self.bits >= 0x8000_0000_0000_0000 {
            self.bits - 0x8000_0000_0000_0000 > 0x7ff0_0000_0000_0000
        } else {
            self.bits > 0x7ff0_0000_0000_0000
        }
    }

    /// The integer by which this number is ordered.
    pub fn key(&self) -> (r: i64)
        ensures
            r == float_key(self.bits),
    {
        if self.bits >= 0x8000_0000_0000_0000 {
            let magnitude: u64 = self.bits - 0x8000_0000_0000_0000;
            -(magnitude as i64)
        } else {
            self.bits as i64
        }
    }
}

} // verus!
