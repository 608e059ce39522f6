//! Real numbers held by their bit patterns, and their order.
//!
//! A `Scalar` is the 64-bit pattern of a double-precision number: one sign
//! bit, then an eleven-bit exponent and a 52-bit fraction that together form
//! the magnitude. Among numbers of one sign the magnitudes order as the
//! numbers do, so every comparison can be made on whole numbers. Patterns
//! whose magnitude lies above that of infinity are not numbers, and compare
//! false with everything.

use vstd::prelude::*;

verus! {

/// Patterns at or above this value have the sign bit set.
pub const SIGN_BIT: u64 = 9223372036854775808;

/// The magnitude of infinity, the largest magnitude that is a number.
pub const INFINITY_MAGNITUDE: u64 = 9218868437227405312;

/// A real number, or a pattern that is not a number, by its bits.
#[derive(Clone, Copy, Debug, PartialEq, Eq, Structural)]
pub struct Scalar {
    pub bits: u64,
}

impl Scalar {
    /// Whether the sign bit is set.
    pub open spec fn sign_set(self) -> bool {
        self.bits >= SIGN_BIT
    }

    /// The pattern without its sign bit.
    pub open spec fn magnitude(self) -> int {
        if self.bits >= SIGN_BIT {
            self.bits - SIGN_BIT
        } else {
            self.bits as int
        }
    }

    /// Whether the pattern stands for a number, finite or infinite.
    pub open spec fn is_number(self) -> bool {
        self.magnitude() <= INFINITY_MAGNITUDE
    }

    /// Whether the pattern stands for a finite number.
    pub open spec fn finite(self) -> bool {
        self.magnitude() < INFINITY_MAGNITUDE
    }

    /// The place of a number in the order of all numbers: the magnitude,
    /// negated where the sign bit is set. Both zeros have rank 0.
    pub open spec fn rank(self) -> int {
        if self.sign_set() {
            -self.magnitude()
        } else {
            self.magnitude()
        }
    }

    /// `self < other` as numbers; false where either is not a number.
    pub open spec fn below(self, other: Scalar) -> bool {
        self.is_number() && other.is_number() && self.rank() < other.rank()
    }

    /// `self > 0`.
    pub open spec fn positive(self) -> bool {
        self.is_number() && self.rank() > 0
    }

    /// `self < 0`.
    pub open spec fn negative(self) -> bool {
        self.is_number() && self.rank() < 0
    }

    /// `self == 0`, for the zero of either sign.
    pub open spec fn null(self) -> bool {
        self.magnitude() == 0
    }

    /// Zero with the sign bit clear.
    pub open spec fn plain_zero() -> Scalar {
        Scalar { bits: 0 }
    }

    /// The scalar with the given bit pattern.
    pub fn from_bits(bits: u64) -> (s: Scalar)
        ensures
            s.bits == bits,
    {
        Scalar { bits }
    }

    /// The bit pattern.
    pub fn to_bits(&self) -> (bits: u64)
        ensures
            bits == self.bits,
    {
        self.bits
    }

    /// Zero, with the sign bit clear.
    pub fn zero() -> (s: Scalar)
        ensures
            s == Scalar::plain_zero(),
    {
        Scalar { bits: 0 }
    }

    fn magnitude_bits(&self) -> (m: u64)
        ensures
            m == self.magnitude(),
    {
        if self.bits >= SIGN_BIT {
            self.bits - SIGN_BIT
        } else {
            self.bits
        }
    }

    /// Whether the pattern is not a number.
    pub fn is_nan(&self) -> (nan: bool)
        ensures
            nan == !self.is_number(),
    {
        self.magnitude_bits() > INFINITY_MAGNITUDE
    }

    /// Whether the pattern is a finite number.
    pub fn is_finite(&self) -> (finite: bool)
        ensures
            finite == self.finite(),
    {
        self.magnitude_bits() < INFINITY_MAGNITUDE
    }

    /// Whether the number is zero.
    pub fn is_zero(&self) -> (zero: bool)
        ensures
            zero == self.null(),
    {
        self.magnitude_bits() == 0
    }

    /// Whether the number is greater than zero.
    pub fn is_positive(&self) -> (pos: bool)
        ensures
            pos == self.positive(),
    {
        0 < self.bits && self.bits <= INFINITY_MAGNITUDE
    }

    /// Whether the number is less than zero.
    pub fn is_negative(&self) -> (neg: bool)
        ensures
            neg == self.negative(),
    {
        self.bits > SIGN_BIT && self.bits - SIGN_BIT <= INFINITY_MAGNITUDE
    }

    /// Whether `self < other` as numbers.
    pub fn lt(&self, other: &Scalar) -> (less: bool)
        ensures
            less == self.below(*other),
    {
        let a: u64 = self.magnitude_bits();
        let b: u64 = other.magnitude_bits();
        if a > INFINITY_MAGNITUDE || b > INFINITY_MAGNITUDE {
            false
        } else if self.bits >= SIGN_BIT {
            if other.bits >= SIGN_BIT {
                a > b
            } else {
                a > 0 || b > 0
            }
        } else {
            other.bits < SIGN_BIT && a < b
        }
    }

    /// The larger of the number and zero: a negative number gives zero, any
    /// other pattern is handed back as it is.
    pub fn or_zero(self) -> (s: Scalar)
        ensures
            s == (if self.negative() { Scalar::plain_zero() } else { self }),
            !s.negative(),
    {
        if self.is_negative() {
            Scalar::zero()
        } else {
            self
        }
    }
}

/// `below` is a strict order on the numbers in which the two zeros are equal:
/// nothing is below itself, the order is transitive, and of two numbers of
/// different rank exactly one is below the other.
pub proof fn lemma_below_is_strict_order(a: Scalar, b: Scalar, c: Scalar)
    ensures
        !a.below(a),
        a.below(b) && b.below(c) ==> a.below(c),
        a.below(b) ==> !b.below(a),
        a.is_number() && b.is_number() ==> (a.below(b) || b.below(a) || a.rank() == b.rank()),
        a.positive() <==> Scalar::plain_zero().below(a),
        a.negative() <==> a.below(Scalar::plain_zero()),
{
}

} // verus!
