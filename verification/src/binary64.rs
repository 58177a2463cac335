//! IEEE 754 binary64 values, handled through their bit patterns.
//!
//! A value is one sign bit, eleven exponent bits and fifty-two fraction bits.
//! Leaving the sign aside, the remaining sixty-three bits read as an unsigned
//! integer grow with the absolute value they encode, so the order of two
//! numbers can be decided by integer comparison alone.

use vstd::prelude::*;

verus! {

/// The sign bit of a binary64 pattern.
pub const SIGN_BIT: u64 = 0x8000_0000_0000_0000;

/// The pattern of positive infinity: all exponent bits set, no fraction bit.
pub const INFINITY_BITS: u64 = 0x7FF0_0000_0000_0000;

/// A binary64 value, identified by its bit pattern.
///
/// `==` on this type is identity of patterns. It differs from numeric
/// equality on the two zeros (distinct patterns, equal numbers) and on NaN
/// (equal patterns, unordered numbers); numeric comparison is [`Binary64::lt`]
/// and its relatives.
#[derive(Clone, Copy, Debug, PartialEq, Eq, Structural)]
pub struct Binary64 {
    pub bits: u64,
}

impl Binary64 {
    /// The pattern with the sign bit cleared.
    pub open spec fn magnitude(self) -> int {
        if self.bits >= SIGN_BIT {
            self.bits - SIGN_BIT
        } else {
            self.bits as int
        }
    }

    /// Whether the sign bit is set (true of `-0.0` and of negative NaNs too).
    pub open spec fn sign(self) -> bool {
        self.bits >= SIGN_BIT
    }

    /// Whether the value is not a number: its magnitude lies beyond that of
    /// the infinities.
    pub open spec fn spec_is_nan(self) -> bool {
        self.magnitude() > INFINITY_BITS
    }

    /// The place of a number on the number line, as an integer: the
    /// magnitude, negated where the sign is set. Both zeros have ordinal 0.
    /// For two numbers `a` and `b`, `a < b` exactly when
    /// `a.ordinal() < b.ordinal()`.
    pub open spec fn ordinal(self) -> int {
        if self.sign() {
            -self.magnitude()
        } else {
            self.magnitude()
        }
    }

    /// Numeric `<`: false as soon as either side is NaN.
    pub open spec fn spec_lt(self, other: Binary64) -> bool {
        !self.is_nan() && !other.is_nan() && self.ordinal() < other.ordinal()
    }

    /// Numeric `>`.
    pub open spec fn spec_gt(self, other: Binary64) -> bool {
        other.spec_lt(self)
    }

    /// Numeric `<=`: false as soon as either side is NaN.
    pub open spec fn spec_le(self, other: Binary64) -> bool {
        !self.is_nan() && !other.is_nan() && self.ordinal() <= other.ordinal()
    }

    /// Numeric `>=`.
    pub open spec fn spec_ge(self, other: Binary64) -> bool {
        other.spec_le(self)
    }

    /// Whether the value is a finite number greater than zero.
    pub open spec fn spec_is_positive_finite(self) -> bool {
        0 < self.bits < INFINITY_BITS
    }

    /// The value with the given pattern.
    pub fn from_bits(bits: u64) -> (value: Binary64)
        ensures
            value.bits == bits,
    {
        Binary64 { bits }
    }

    /// The pattern of the value.
    pub fn to_bits(self) -> (bits: u64)
        ensures
            bits == self.bits,
    {
        self.bits
    }

    fn abs_bits(self) -> (m: u64)
        ensures
            m == self.magnitude(),
    {
        if self.bits >= SIGN_BIT {
            self.bits - SIGN_BIT
        } else {
            self.bits
        }
    }

    /// Whether the value is not a number.
    #[verifier::when_used_as_spec(spec_is_nan)]
    pub fn is_nan(self) -> (r: bool)
        ensures
            r == self.spec_is_nan(),
    {
        self.abs_bits() > INFINITY_BITS
    }

    /// Numeric `<`.
    #[verifier::when_used_as_spec(spec_lt)]
    pub fn lt(self, other: Binary64) -> (r: bool)
        ensures
            r == self.spec_lt(other),
    {
        let a: u64 = self.abs_bits();
        let b: u64 = other.abs_bits();
        if a > INFINITY_BITS || b > INFINITY_BITS {
            false
        } else if self.bits >= SIGN_BIT {
            if other.bits >= SIGN_BIT {
                a > b
            } else {
                a != 0 || b != 0
            }
        } else {
            other.bits < SIGN_BIT && a < b
        }
    }

    /// Numeric `>`.
    #[verifier::when_used_as_spec(spec_gt)]
    pub fn gt(self, other: Binary64) -> (r: bool)
        ensures
            r == self.spec_gt(other),
    {
        other.lt(self)
    }

    /// Whether the value is a finite number greater than zero.
    #[verifier::when_used_as_spec(spec_is_positive_finite)]
    pub fn is_positive_finite(self) -> (r: bool)
        ensures
            r == self.spec_is_positive_finite(),
    {
        0 < self.bits && self.bits < INFINITY_BITS
    }
}

} // verus!
