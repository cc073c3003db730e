//! Binary64 numbers, held by their bit patterns.
//!
//! A pattern has a sign bit and, below it, 63 bits of magnitude. Magnitudes up
//! to [`INFINITY_BITS`] are numbers, and among patterns of one sign a larger
//! magnitude is a number further from zero; magnitudes above it are NaN. So
//! the order of two numbers is the order of their signed magnitudes, which is
//! what [`Scalar::rank`] is.

use vstd::prelude::*;

verus! {

/// The sign bit of a pattern.
pub const SIGN_BIT: u64 = 0x8000_0000_0000_0000;

/// The magnitude of an infinity: the largest magnitude that is not a NaN.
pub const INFINITY_BITS: u64 = 0x7ff0_0000_0000_0000;

/// The pattern of `1.0`.
pub const ONE_BITS: u64 = 0x3ff0_0000_0000_0000;

/// A binary64 number, known by its 64 bits.
///
/// `==` on this type compares patterns: it tells `0.0` from `-0.0` and holds
/// between a NaN and itself. [`Scalar::num_eq`] and [`Scalar::lt`] compare the
/// numbers.
#[derive(Clone, Copy, Debug, PartialEq, Eq, Structural)]
pub struct Scalar {
    pub bits: u64,
}

impl Scalar {
    /// The pattern without its sign bit.
    pub open spec fn magnitude(self) -> int {
        if self.bits >= SIGN_BIT {
            self.bits - SIGN_BIT
        } else {
            self.bits as int
        }
    }

    /// Whether the sign bit is set.
    pub open spec fn sign(self) -> bool {
        self.bits >= SIGN_BIT
    }

    /// Whether the pattern is a NaN.
    pub open spec fn nan(self) -> bool {
        self.magnitude() > INFINITY_BITS
    }

    /// The signed magnitude. For two patterns that are not NaN, the smaller
    /// number has the smaller rank, and equal numbers have equal ranks; the
    /// two zeros share rank 0.
    pub open spec fn rank(self) -> int {
        if self.sign() {
            -self.magnitude()
        } else {
            self.magnitude()
        }
    }

    /// `self < other` as numbers. False when either is a NaN.
    pub open spec fn lt(self, other: Scalar) -> bool {
        !self.nan() && !other.nan() && self.rank() < other.rank()
    }

    /// `self == other` as numbers. False when either is a NaN.
    pub open spec fn num_eq(self, other: Scalar) -> bool {
        !self.nan() && !other.nan() && self.rank() == other.rank()
    }

    /// `self <= other` as numbers. False when either is a NaN.
    pub open spec fn le(self, other: Scalar) -> bool {
        !self.nan() && !other.nan() && self.rank() <= other.rank()
    }

    /// Whether the pattern is a number that is not an infinity.
    pub open spec fn finite(self) -> bool {
        self.magnitude() < INFINITY_BITS
    }

    /// `self == 0.0` as numbers: either zero.
    pub open spec fn zero(self) -> bool {
        self.magnitude() == 0
    }

    /// `self > 0.0` as numbers. False for a NaN and for either zero; true for
    /// positive infinity.
    pub open spec fn positive(self) -> bool {
        !self.nan() && self.rank() > 0
    }

    /// The number with the given pattern.
    pub fn from_bits(bits: u64) -> (r: Scalar)
        ensures
            r.bits == bits,
    {
        Scalar { bits }
    }

    /// The pattern of the number.
    pub fn to_bits(&self) -> (bits: u64)
        ensures
            bits == self.bits,
    {
        self.bits
    }

    fn abs_bits(&self) -> (m: u64)
        ensures
            m == self.magnitude(),
            m < SIGN_BIT,
    {
        if self.bits >= SIGN_BIT {
            self.bits - SIGN_BIT
        } else {
            self.bits
        }
    }

    /// Whether the pattern is a NaN.
    pub fn is_nan(&self) -> (r: bool)
        ensures
            r == self.nan(),
    {
        self.abs_bits() > INFINITY_BITS
    }

    /// Whether the pattern is a number that is not an infinity.
    pub fn is_finite(&self) -> (r: bool)
        ensures
            r == self.finite(),
    {
        self.abs_bits() < INFINITY_BITS
    }

    /// Whether the number is a zero of either sign.
    pub fn is_zero(&self) -> (r: bool)
        ensures
            r == self.zero(),
    {
        self.abs_bits() == 0
    }

    /// Whether the number is greater than zero.
    pub fn is_positive(&self) -> (r: bool)
        ensures
            r == self.positive(),
    {
        self.bits < SIGN_BIT && 0 < self.bits && self.bits <= INFINITY_BITS
    }

    /// Whether `self` is less than `other` as numbers.
    pub fn less_than(&self, other: &Scalar) -> (r: bool)
        ensures
            r == self.lt(*other),
    {
        if self.is_nan() || other.is_nan() {
            return false;
        }
        let a: u64 = self.abs_bits();
        let b: u64 = other.abs_bits();
        if self.bits >= SIGN_BIT {
            if other.bits >= SIGN_BIT {
                b < a
            } else {
                a != 0 || b != 0
            }
        } else {
            other.bits < SIGN_BIT && a < b
        }
    }

    /// Whether `self` is less than `other` or equal to it as numbers.
    pub fn at_most(&self, other: &Scalar) -> (r: bool)
        ensures
            r == self.le(*other),
    {
        self.less_than(other) || self.equals(other)
    }

    /// Whether `self` and `other` are equal as numbers.
    pub fn equals(&self, other: &Scalar) -> (r: bool)
        ensures
            r == self.num_eq(*other),
    {
        if self.is_nan() || other.is_nan() {
            return false;
        }
        let a: u64 = self.abs_bits();
        let b: u64 = other.abs_bits();
        self.bits == other.bits || (a == 0 && b == 0)
    }
}

/// Numbers that are not NaN are totally ordered: of two, one is less than the
/// other or they are equal, and never two of these at once.
pub proof fn lemma_numbers_are_ordered(a: Scalar, b: Scalar)
    requires
        !a.nan(),
        !b.nan(),
    ensures
        a.lt(b) || b.lt(a) || a.num_eq(b),
        !(a.lt(b) && b.lt(a)),
        !(a.lt(b) && a.num_eq(b)),
{
}

/// `lt` is a strict order: nothing is less than itself, and what is less than
/// something that is less than a third is less than the third.
pub proof fn lemma_lt_is_a_strict_order(a: Scalar, b: Scalar, c: Scalar)
    ensures
        !a.lt(a),
        a.lt(b) && b.lt(c) ==> a.lt(c),
{
}

/// A NaN compares with nothing: it is not less than anything, nothing is less
/// than it, and it equals nothing, itself included.
pub proof fn lemma_nan_is_incomparable(a: Scalar, b: Scalar)
    requires
        a.nan(),
    ensures
        !a.lt(b),
        !b.lt(a),
        !a.num_eq(b),
        !b.num_eq(a),
{
}

} // verus!
