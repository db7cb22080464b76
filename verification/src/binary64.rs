//! Floating-point quantities, carried by their IEEE-754 binary64 bit patterns.
//!
//! The monitor compares a charge reading with a threshold and otherwise only
//! passes such numbers through, so a bit pattern and the order of the numbers
//! that patterns stand for are all it needs.

use vstd::prelude::*;

verus! {

/// Bit pattern of positive infinity; every larger magnitude is a NaN.
pub const INFINITY_BITS: u64 = 0x7ff0_0000_0000_0000;

/// The sign bit of a binary64 pattern.
pub const SIGN_BIT: u64 = 0x8000_0000_0000_0000;

/// Magnitude (the pattern without its sign bit) of a binary64 pattern.
pub open spec fn magnitude(bits: u64) -> int {
    if bits >= SIGN_BIT {
        bits - SIGN_BIT
    } else {
        bits as int
    }
}

/// Whether the pattern denotes a NaN.
pub open spec fn is_nan(bits: u64) -> bool {
    magnitude(bits) > INFINITY_BITS
}

/// Position of a non-NaN pattern on the number line of patterns: negative
/// values mirror their magnitude, so both zeros sit at 0.
pub open spec fn rank(bits: u64) -> int {
    if bits >= SIGN_BIT {
        -magnitude(bits)
    } else {
        magnitude(bits)
    }
}

/// The IEEE-754 `<=` on two patterns: false when either is a NaN.
pub open spec fn at_or_below(a: u64, b: u64) -> bool {
    !is_nan(a) && !is_nan(b) && rank(a) <= rank(b)
}

/// A binary64 number, held as its bit pattern.
#[derive(Clone, Copy, Debug, PartialEq, Eq, Structural)]
pub struct Binary64 {
    pub bits: u64,
}

impl Binary64 {
    /// Wraps a bit pattern.
    pub fn from_bits(bits: u64) -> (r: Self)
        ensures
            r.bits == bits,
    {
        Binary64 { bits }
    }

    /// The bit pattern.
    pub fn to_bits(&self) -> (bits: u64)
        ensures
            bits == self.bits,
    {
        self.bits
    }

    /// Positive zero.
    pub fn zero() -> (r: Self)
        ensures
            r.bits == 0,
    {
        Binary64 { bits: 0 }
    }

    /// Numeric `self <= other`.
    pub fn le(&self, other: &Binary64) -> (r: bool)
        ensures
            r == at_or_below(self.bits, other.bits),
    {
        let a_neg: bool = self.bits >= SIGN_BIT;
        let b_neg: bool = other.bits >= SIGN_BIT;
        let a_mag: u64 = if a_neg { self.bits - SIGN_BIT } else { self.bits };
        let b_mag: u64 = if b_neg { other.bits - SIGN_BIT } else { other.bits };
        if a_mag > INFINITY_BITS || b_mag > INFINITY_BITS {
            false
        } else if a_neg {
            if b_neg {
                a_mag >= b_mag
            } else {
                true
            }
        } else {
            if b_neg {
                a_mag == 0 && b_mag == 0
            } else {
                a_mag <= b_mag
            }
        }
    }
}

} // verus!
