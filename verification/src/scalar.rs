//! Single-precision numbers as bit patterns.
//!
//! This crate computes with no floating-point number. Where it has to carry
//! one, a depth or a coordinate, it carries the 32 bits of its IEEE 754
//! binary32 form, and where it has to compare two, it compares them as that
//! standard orders them, read off the bits.

use vstd::prelude::*;

verus! {

/// The bits of positive infinity.
pub const INFINITY_BITS: u32 = 0x7f80_0000;

/// The bits of positive zero.
pub const ZERO_BITS: u32 = 0;

/// The bits of one.
pub const ONE_BITS: u32 = 0x3f80_0000;

/// An IEEE 754 binary32 number, held by its bit pattern: the sign in bit
/// 31, the exponent in bits 23 to 30, the fraction below.
#[derive(Debug, Clone, Copy, PartialEq, Eq, Structural)]
pub struct Scalar {
    pub bits: u32,
}

impl Scalar {
    /// The bits below the sign: the magnitude of the number.
    pub open spec fn magnitude(self) -> int {
        self.bits as int % 0x8000_0000
    }

    /// Whether the sign bit is set.
    pub open spec fn is_negative(self) -> bool {
        self.bits >= 0x8000_0000
    }

    /// Whether the bits are those of a NaN: exponent all ones and a
    /// fraction that is not zero.
    pub open spec fn nan(self) -> bool {
        self.magnitude() > INFINITY_BITS
    }

    /// The place of a number that is no NaN in the order of all such
    /// numbers: its magnitude, negated where the sign is set. The two zeros
    /// share place zero.
    pub open spec fn rank(self) -> int {
        if self.is_negative() {
            -self.magnitude()
        } else {
            self.magnitude()
        }
    }

    /// The order `<` of IEEE 754: false where either side is a NaN, and the
    /// order of the ranks elsewhere.
    pub open spec fn less_than(self, other: Scalar) -> bool {
        !self.nan() && !other.nan() && self.rank() < other.rank()
    }

    /// The order `<=` of IEEE 754: false where either side is a NaN, and
    /// the order of the ranks elsewhere.
    pub open spec fn at_most(self, other: Scalar) -> bool {
        !self.nan() && !other.nan() && self.rank() <= other.rank()
    }

    /// The number with the bits given.
    pub fn from_bits(bits: u32) -> (s: Scalar)
        ensures
            s.bits == bits,
    {
        Scalar { bits }
    }

    /// The bits of this number.
    pub fn to_bits(self) -> (bits: u32)
        ensures
            bits == self.bits,
    {
        self.bits
    }

    /// Positive infinity.
    pub fn infinity() -> (s: Scalar)
        ensures
            s.bits == INFINITY_BITS,
    {
        Scalar { bits: INFINITY_BITS }
    }

    /// Positive zero.
    pub fn zero() -> (s: Scalar)
        ensures
            s.bits == ZERO_BITS,
    {
        Scalar { bits: ZERO_BITS }
    }

    /// One.
    pub fn one() -> (s: Scalar)
        ensures
            s.bits == ONE_BITS,
    {
        Scalar { bits: ONE_BITS }
    }

    /// Whether the bits are those of a NaN.
    pub fn is_nan(self) -> (r: bool)
        ensures
            r == self.nan(),
    {
        self.bits % 0x8000_0000 > INFINITY_BITS
    }

    /// Whether this number is less than `other`, as IEEE 754 orders them.
    pub fn is_less_than(self, other: Scalar) -> (r: bool)
        ensures
            r == self.less_than(other),
    {
        if self.is_nan() || other.is_nan() {
            return false;
        }
        let a: u32 = self.bits % 0x8000_0000;
        let b: u32 = other.bits % 0x8000_0000;
        let a_negative = self.bits >= 0x8000_0000;
        let b_negative = other.bits >= 0x8000_0000;
        if a_negative {
            if b_negative {
                b < a
            } else {
                a > 0 || b > 0
            }
        } else {
            if b_negative {
                false
            } else {
                a < b
            }
        }
    }
}

/// What is less than something less than a third is less than the third.
pub proof fn lemma_less_than_transitive(a: Scalar, b: Scalar, c: Scalar)
    requires
        a.less_than(b),
        b.less_than(c),
    ensures
        a.less_than(c),
{
}

} // verus!
