//! Real numbers as IEEE 754 binary64 words.
//!
//! A word has a sign bit, eleven exponent bits and fifty-two fraction bits.
//! Its order among the other words is described by [`Scalar::rank`]: the
//! words that are numbers compare as their ranks do, and a word that is not a
//! number compares with nothing.

use vstd::prelude::*;

verus! {

/// The sign bit of a word.
pub const SIGN_BIT: u64 = 0x8000_0000_0000_0000;

/// The word of positive infinity. A larger magnitude is not a number.
pub const INFINITY_BITS: u64 = 0x7FF0_0000_0000_0000;

/// The word of `+0.0`.
pub const ZERO_BITS: u64 = 0;

/// The word of `1.0`.
pub const ONE_BITS: u64 = 0x3FF0_0000_0000_0000;

/// One binary64 value, held as its bit pattern.
///
/// The numeric comparisons are
/// [`Scalar::same_value`], [`Scalar::lt`] and [`Scalar::le`].
#[derive(Clone, Copy, Debug)]
pub struct Scalar {
    pub bits: u64,
}

impl Scalar {
    /// The word without its sign bit.
    pub open spec fn magnitude(self) -> int {
        if self.bits >= SIGN_BIT {
            self.bits - SIGN_BIT
        } else {
            self.bits as int
        }
    }

    /// Whether the sign bit is set.
    pub open spec fn sign(self) -> bool {
        self.bits >= SIGN_BIT
    }

    /// Whether the word is not a number.
    pub open spec fn nan(self) -> bool {
        self.magnitude() > INFINITY_BITS
    }

    /// The place of a number among the numbers: `a` is below `b` exactly when
    /// `a.rank() < b.rank()`. Both zeros have rank 0.
    pub open spec fn rank(self) -> int {
        if self.sign() {
            -self.magnitude()
        } else {
            self.magnitude()
        }
    }

    /// Numeric equality: both are numbers of the same rank.
    pub open spec fn spec_same_value(self, other: Scalar) -> bool {
        !self.nan() && !other.nan() && self.rank() == other.rank()
    }

    /// Numeric `<`: both are numbers and `self` has the smaller rank.
    pub open spec fn spec_lt(self, other: Scalar) -> bool {
        !self.nan() && !other.nan() && self.rank() < other.rank()
    }

    /// Numeric `<=`: both are numbers and `self` has no larger rank.
    pub open spec fn spec_le(self, other: Scalar) -> bool {
        !self.nan() && !other.nan() && self.rank() <= other.rank()
    }

    /// The word with its sign bit flipped.
    pub open spec fn spec_neg(self) -> Scalar {
        if self.bits >= SIGN_BIT {
            Scalar { bits: (self.bits - SIGN_BIT) as u64 }
        } else {
            Scalar { bits: (self.bits + SIGN_BIT) as u64 }
        }
    }

    /// The `Scalar` with the given bit pattern.
    pub fn from_bits(bits: u64) -> (r: Scalar)
        ensures
            r.bits == bits,
    {
        Scalar { bits }
    }

    /// The bit pattern.
    pub fn to_bits(self) -> (r: u64)
        ensures
            r == self.bits,
    {
        self.bits
    }

    /// `+0.0`.
    pub open spec fn spec_zero() -> Scalar {
        Scalar { bits: ZERO_BITS }
    }

    /// `1.0`.
    pub open spec fn spec_one() -> Scalar {
        Scalar { bits: ONE_BITS }
    }

    /// `+0.0`.
    #[verifier::when_used_as_spec(spec_zero)]
    pub fn zero() -> (r: Scalar)
        ensures
            r == Scalar::spec_zero(),
    {
        Scalar { bits: ZERO_BITS }
    }

    /// `1.0`.
    #[verifier::when_used_as_spec(spec_one)]
    pub fn one() -> (r: Scalar)
        ensures
            r == Scalar::spec_one(),
    {
        Scalar { bits: ONE_BITS }
    }

    fn magnitude_bits(self) -> (r: u64)
        ensures
            r == self.magnitude(),
    {
        if self.bits >= SIGN_BIT {
            self.bits - SIGN_BIT
        } else {
            self.bits
        }
    }

    /// Whether the word is not a number.
    pub fn is_nan(self) -> (r: bool)
        ensures
            r == self.nan(),
    {
        self.magnitude_bits() > INFINITY_BITS
    }

    /// Numeric equality. A word that is not a number equals nothing, itself
    /// included; the two zeros are equal.
    pub fn same_value(self, other: Scalar) -> (r: bool)
        ensures
            r == self.spec_same_value(other),
    {
        if self.is_nan() || other.is_nan() {
            return false;
        }
        let a: u64 = self.magnitude_bits();
        let b: u64 = other.magnitude_bits();
        a == b && (a == 0 || (self.bits >= SIGN_BIT) == (other.bits >= SIGN_BIT))
    }

    /// Numeric `<`. False when either word is not a number.
    pub fn lt(self, other: Scalar) -> (r: bool)
        ensures
            r == self.spec_lt(other),
    {
        if self.is_nan() || other.is_nan() {
            return false;
        }
        let a: u64 = self.magnitude_bits();
        let b: u64 = other.magnitude_bits();
        if self.bits >= SIGN_BIT {
            if other.bits >= SIGN_BIT {
                a > b
            } else {
                a != 0 || b != 0
            }
        } else {
            if other.bits >= SIGN_BIT {
                false
            } else {
                a < b
            }
        }
    }

    /// Numeric `<=`. False when either word is not a number.
    pub fn le(self, other: Scalar) -> (r: bool)
        ensures
            r == self.spec_le(other),
    {
        self.lt(other) || self.same_value(other)
    }

    /// The negated value: the same word with the sign bit flipped.
    pub fn neg(self) -> (r: Scalar)
        ensures
            r == self.spec_neg(),
    {
        if self.bits >= SIGN_BIT {
            Scalar { bits: self.bits - SIGN_BIT }
        } else {
            Scalar { bits: self.bits + SIGN_BIT }
        }
    }
}

/// Negating twice gives the word back.
pub proof fn lemma_neg_involutive(a: Scalar)
    ensures
        a.spec_neg().spec_neg() == a,
{
}

/// Negation mirrors the order: it keeps what is a number, and turns every
/// rank into its opposite.
pub proof fn lemma_neg_mirrors_rank(a: Scalar)
    ensures
        a.spec_neg().nan() == a.nan(),
        a.spec_neg().rank() == -a.rank(),
{
}

/// Among numbers exactly one of `a < b`, `a` equals `b`, `b < a` holds, and
/// `<` is transitive.
pub proof fn lemma_order_is_total_on_numbers(a: Scalar, b: Scalar, c: Scalar)
    requires
        !a.nan(),
        !b.nan(),
    ensures
        a.spec_lt(b) || a.spec_same_value(b) || b.spec_lt(a),
        !(a.spec_lt(b) && b.spec_lt(a)),
        !(a.spec_lt(b) && a.spec_same_value(b)),
        a.spec_lt(b) && b.spec_lt(c) ==> a.spec_lt(c),
{
}

} // verus!
