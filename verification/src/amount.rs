//! Binary64 numbers held by their bit pattern.
//!
//! Every decision the crate takes on a number (is it above zero, which of
//! two is larger) is an integer comparison on the pattern that agrees with
//! the IEEE-754 ordering of the numbers the patterns encode.

use vstd::prelude::*;

verus! {

/// The sign bit of a binary64 pattern.
pub const SIGN_BIT: u64 = 0x8000_0000_0000_0000;

/// The pattern of positive infinity: all exponent bits set, no fraction bit.
pub const INFINITY_BITS: u64 = 0x7ff0_0000_0000_0000;

/// A binary64 number, held by its IEEE-754 bit pattern.
///
/// The derived `==` compares patterns: it tells `0.0` from `-0.0` and finds
/// a NaN equal to itself. Numeric comparison is [`Amount::exceeds`].
#[derive(Clone, Copy, Debug, PartialEq, Eq, Structural)]
pub struct Amount {
    pub bits: u64,
}

impl Amount {
    /// The pattern with the sign bit cleared.
    pub open spec fn magnitude(self) -> int {
        if self.bits >= SIGN_BIT {
            self.bits - SIGN_BIT
        } else {
            self.bits as int
        }
    }

    /// The pattern encodes no number.
    pub open spec fn is_nan(self) -> bool {
        self.magnitude() > INFINITY_BITS
    }

    /// For patterns that encode a number (an infinity included), an integer
    /// that orders as the numbers do; both zeros have rank 0.
    pub open spec fn rank(self) -> int {
        if self.bits >= SIGN_BIT {
            -self.magnitude()
        } else {
            self.magnitude()
        }
    }

    /// The number is strictly above zero.
    pub open spec fn is_positive(self) -> bool {
        !self.is_nan() && self.rank() > 0
    }

    /// The number is positive or negative zero.
    pub open spec fn is_zero(self) -> bool {
        self.magnitude() == 0
    }

    /// The number is strictly above `other`; false when either is a NaN.
    pub open spec fn exceeds(self, other: Amount) -> bool {
        !self.is_nan() && !other.is_nan() && self.rank() > other.rank()
    }

    /// Positive zero.
    pub open spec fn zero() -> Amount {
        Amount { bits: 0 }
    }

    /// What an absent number counts as: positive zero.
    pub open spec fn or_zero(value: Option<Amount>) -> Amount {
        match value {
            Some(v) => v,
            None => Amount::zero(),
        }
    }

    /// The number with this bit pattern.
    pub fn from_bits(bits: u64) -> (r: Amount)
        ensures
            r.bits == bits,
    {
        Amount { bits }
    }

    /// The bit pattern of the number.
    pub fn to_bits(&self) -> (r: u64)
        ensures
            r == self.bits,
    {
        self.bits
    }

    /// Positive zero.
    pub fn new_zero() -> (r: Amount)
        ensures
            r == Amount::zero(),
    {
        Amount { bits: 0 }
    }

    /// The number, or positive zero where there is none.
    pub fn unwrap_or_zero(value: Option<Amount>) -> (r: Amount)
        ensures
            r == Amount::or_zero(value),
    {
        match value {
            Some(v) => v,
            None => Amount { bits: 0 },
        }
    }

    /// Whether the pattern encodes no number.
    pub fn check_nan(&self) -> (r: bool)
        ensures
            r == self.is_nan(),
    {
        let magnitude: u64 = if self.bits >= SIGN_BIT {
            self.bits - SIGN_BIT
        } else {
            self.bits
        };
        magnitude > INFINITY_BITS
    }

    /// Whether the number is strictly above zero.
    pub fn check_positive(&self) -> (r: bool)
        ensures
            r == self.is_positive(),
    {
        0 < self.bits && self.bits <= INFINITY_BITS
    }

    /// Whether the number is strictly above `other`.
    pub fn check_exceeds(&self, other: &Amount) -> (r: bool)
        ensures
            r == self.exceeds(*other),
    {
        if self.check_nan() || other.check_nan() {
            return false;
        }
        let mine_negative: bool = self.bits >= SIGN_BIT;
        let theirs_negative: bool = other.bits >= SIGN_BIT;
        if mine_negative {
            if theirs_negative {
                self.bits < other.bits
            } else {
                false
            }
        } else {
            if theirs_negative {
                self.bits > 0 || other.bits > SIGN_BIT
            } else {
                self.bits > other.bits
            }
        }
    }
}

/// On numbers, `exceeds` is a strict order: nothing exceeds itself, and it
/// is transitive.
pub proof fn lemma_exceeds_strict_order(a: Amount, b: Amount, c: Amount)
    ensures
        !a.exceeds(a),
        a.exceeds(b) ==> !b.exceeds(a),
        a.exceeds(b) && b.exceeds(c) ==> a.exceeds(c),
{
}

/// Of two numbers, one exceeds the other or they are numerically equal;
/// a NaN neither exceeds nor is exceeded.
pub proof fn lemma_exceeds_total_on_numbers(a: Amount, b: Amount)
    ensures
        !a.is_nan() && !b.is_nan() ==> (a.exceeds(b) || b.exceeds(a) || a.rank() == b.rank()),
        a.is_nan() || b.is_nan() ==> !a.exceeds(b) && !b.exceeds(a),
        a.is_positive() <==> a.exceeds(Amount::zero()),
{
}

} // verus!
