//! Match confidence as an exactly ordered value.
//!
//! A score is a binary64 floating-point number, held by its bit pattern so
//! that it can be compared without rounding. Of the number only its place in
//! the order matters here: a bit pattern is either not a number, or it has a
//! rank, and a score exceeds another exactly when both are numbers and its
//! rank is the greater one. The two zeros share rank zero.

use vstd::prelude::*;

verus! {

/// The bit that holds the sign.
pub const SIGN_BIT: u64 = 0x8000_0000_0000_0000;

/// The pattern of positive infinity: the greatest magnitude that is a number.
pub const INFINITY_BITS: u64 = 0x7FF0_0000_0000_0000;

/// The pattern of `1.0`.
pub const ONE_BITS: u64 = 0x3FF0_0000_0000_0000;

/// The pattern of `-1.0`.
pub const MINUS_ONE_BITS: u64 = 0xBFF0_0000_0000_0000;

/// The pattern with its sign bit cleared.
pub open spec fn magnitude(bits: u64) -> int {
    if bits >= SIGN_BIT {
        bits - SIGN_BIT
    } else {
        bits as int
    }
}

/// The pattern encodes no number.
pub open spec fn not_a_number(bits: u64) -> bool {
    magnitude(bits) > INFINITY_BITS
}

/// The place of a pattern in the order of the numbers: the magnitude, taken
/// negative where the sign bit is set.
pub open spec fn rank(bits: u64) -> int {
    if bits >= SIGN_BIT {
        -magnitude(bits)
    } else {
        magnitude(bits)
    }
}

/// A confidence value or a threshold for one. Two scores are equal when
/// their bit patterns are.
#[derive(Clone, Copy, Debug, PartialEq, Eq)]
pub struct Score {
    pub bits: u64,
}

impl Score {
    /// This score encodes no number.
    pub open spec fn is_nan_spec(self) -> bool {
        not_a_number(self.bits)
    }

    /// The place of this score in the order of the numbers.
    pub open spec fn rank(self) -> int {
        rank(self.bits)
    }

    /// `self` is strictly greater than `other`; false when either is not a
    /// number.
    pub open spec fn exceeds_spec(self, other: Score) -> bool {
        !self.is_nan_spec() && !other.is_nan_spec() && self.rank() > other.rank()
    }

    /// `self` is greater than or equal to `other`; false when either is not
    /// a number.
    pub open spec fn reaches_spec(self, other: Score) -> bool {
        !self.is_nan_spec() && !other.is_nan_spec() && self.rank() >= other.rank()
    }

    /// `self` lies between zero and one, both ends included.
    pub open spec fn in_unit_interval_spec(self) -> bool {
        !self.is_nan_spec() && 0 <= self.rank() <= ONE_BITS
    }

    /// The score with the given bit pattern.
    pub fn from_bits(bits: u64) -> (res: Score)
        ensures
            res.bits == bits,
    {
        Score { bits }
    }

    /// The bit pattern of this score.
    pub fn to_bits(&self) -> (res: u64)
        ensures
            res == self.bits,
    {
        self.bits
    }

    /// The score `0.0`.
    pub fn zero() -> (res: Score)
        ensures
            res.bits == 0,
            res.rank() == 0,
            !res.is_nan_spec(),
    {
        Score { bits: 0 }
    }

    /// The score `1.0`, the greatest that a threshold may ask for.
    pub fn one() -> (res: Score)
        ensures
            res.bits == ONE_BITS,
            res.rank() == ONE_BITS,
            !res.is_nan_spec(),
    {
        Score { bits: ONE_BITS }
    }

    /// The score `-1.0`, below every correlation that counts as a match.
    pub fn minus_one() -> (res: Score)
        ensures
            res.bits == MINUS_ONE_BITS,
            res.rank() == -(ONE_BITS as int),
            !res.is_nan_spec(),
    {
        Score { bits: MINUS_ONE_BITS }
    }

    /// Whether this score encodes no number.
    pub fn is_nan(&self) -> (res: bool)
        ensures
            res == self.is_nan_spec(),
    {
        let mag: u64 = if self.bits >= SIGN_BIT { self.bits - SIGN_BIT } else { self.bits };
        mag > INFINITY_BITS
    }

    /// Whether this score is strictly greater than `other`.
    pub fn exceeds(&self, other: &Score) -> (res: bool)
        ensures
            res == self.exceeds_spec(*other),
    {
        if self.is_nan() || other.is_nan() {
            return false;
        }
        let negative: bool = self.bits >= SIGN_BIT;
        let other_negative: bool = other.bits >= SIGN_BIT;
        let mag: u64 = if negative { self.bits - SIGN_BIT } else { self.bits };
        let other_mag: u64 = if other_negative { other.bits - SIGN_BIT } else { other.bits };
        if negative {
            other_negative && mag < other_mag
        } else if other_negative {
            mag > 0 || other_mag > 0
        } else {
            mag > other_mag
        }
    }

    /// Whether this score lies in the closed interval from zero to one.
    pub fn in_unit_interval(&self) -> (res: bool)
        ensures
            res == self.in_unit_interval_spec(),
    {
        self.bits <= ONE_BITS || self.bits == SIGN_BIT
    }
}

/// Exceeding is a strict order on the scores: no score exceeds itself, no
/// two exceed each other, and it passes along a chain.
pub proof fn lemma_exceeds_is_strict_order(a: Score, b: Score, c: Score)
    ensures
        !a.exceeds_spec(a),
        a.exceeds_spec(b) ==> !b.exceeds_spec(a),
        a.exceeds_spec(b) && b.exceeds_spec(c) ==> a.exceeds_spec(c),
{
}

/// What is not a number neither exceeds a score nor is exceeded by one.
pub proof fn lemma_nan_is_unordered(a: Score, b: Score)
    requires
        a.is_nan_spec(),
    ensures
        !a.exceeds_spec(b),
        !b.exceeds_spec(a),
        !a.in_unit_interval_spec(),
{
}

/// Of two numbers that differ in rank, one exceeds the other.
pub proof fn lemma_numbers_are_comparable(a: Score, b: Score)
    requires
        !a.is_nan_spec(),
        !b.is_nan_spec(),
    ensures
        a.exceeds_spec(b) || b.exceeds_spec(a) || a.rank() == b.rank(),
{
}

} // verus!
