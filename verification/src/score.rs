//! Real-valued scores, held by their bit patterns.
//!
//! A score is an IEEE 754 single-precision number. It is stored as its 32-bit
//! pattern: bit 31 is the sign, bits 30..23 the exponent and bits 22..0 the
//! fraction. Comparing two scores needs no arithmetic on reals: apart from
//! NaN, the numeric order of two such numbers is the order of their patterns
//! read as sign-and-magnitude integers.

use vstd::prelude::*;

verus! {

/// The pattern with only the sign bit set.
pub const SIGN_BIT: u32 = 0x8000_0000;

/// The magnitude of the two infinities: exponent all ones, fraction zero.
/// Every larger magnitude is a NaN.
pub const INFINITY_MAGNITUDE: u32 = 0x7f80_0000;

/// A single-precision score, stored as its bit pattern.
///
/// `==` compares patterns, not numbers: the two zeros are different scores,
/// and a NaN equals itself. The numeric order is [`Score::at_least`].
#[derive(Clone, Copy, Debug, PartialEq, Eq, Structural)]
pub struct Score {
    pub bits: u32,
}

impl Score {
    /// The low 31 bits of the pattern: the absolute value's pattern.
    pub open spec fn magnitude(self) -> int {
        if self.bits >= SIGN_BIT {
            self.bits - SIGN_BIT
        } else {
            self.bits as int
        }
    }

    /// Whether the sign bit is set.
    pub open spec fn is_negative(self) -> bool {
        self.bits >= SIGN_BIT
    }

    /// Whether the pattern encodes a NaN.
    pub open spec fn spec_is_nan(self) -> bool {
        self.magnitude() > INFINITY_MAGNITUDE
    }

    /// The position of a score on the number line, as an integer: for two
    /// scores that are not NaN, one is numerically below the other exactly
    /// when its rank is smaller. Both zeros have rank 0.
    pub open spec fn rank(self) -> int {
        if self.is_negative() {
            -self.magnitude()
        } else {
            self.magnitude()
        }
    }

    /// The numeric comparison `self >= threshold`. As for every IEEE 754
    /// comparison, it is false as soon as either side is a NaN.
    pub open spec fn spec_at_least(self, threshold: Score) -> bool {
        &&& !self.spec_is_nan()
        &&& !threshold.spec_is_nan()
        &&& self.rank() >= threshold.rank()
    }

    /// The score with the given bit pattern.
    pub fn from_bits(bits: u32) -> (score: Score)
        ensures
            score.bits == bits,
    {
        Score { bits }
    }

    /// The bit pattern of the score.
    pub fn to_bits(&self) -> (bits: u32)
        ensures
            bits == self.bits,
    {
        self.bits
    }

    /// Positive zero, the decision boundary of a model that emits logits.
    pub fn zero() -> (score: Score)
        ensures
            score.bits == 0,
            score.rank() == 0,
            !score.spec_is_nan(),
    {
        Score { bits: 0 }
    }

    /// Whether the score is a NaN.
    pub fn is_nan(&self) -> (nan: bool)
        ensures
            nan == self.spec_is_nan(),
    {
        let magnitude: u32 = if self.bits >= SIGN_BIT {
            self.bits - SIGN_BIT
        } else {
            self.bits
        };
        magnitude > INFINITY_MAGNITUDE
    }

    /// The rank of the score as a machine integer.
    fn signed_rank(&self) -> (rank: i64)
        ensures
            rank == self.rank(),
    {
        if self.bits >= SIGN_BIT {
            let magnitude: u32 = self.bits - SIGN_BIT;
            -(magnitude as i64)
        } else {
            self.bits as i64
        }
    }

    /// Whether `self >= threshold` numerically.
    pub fn at_least(&self, threshold: Score) -> (reached: bool)
        ensures
            reached == self.spec_at_least(threshold),
    {
        !self.is_nan() && !threshold.is_nan() && self.signed_rank() >= threshold.signed_rank()
    }
}

} // verus!
