//! Single-precision numbers as bit patterns, with the order the numbers have.

use vstd::prelude::*;

verus! {

/// The sign bit of a pattern.
pub const SIGN_BIT: u32 = 0x8000_0000;

/// The pattern of positive infinity: every larger magnitude is not a number.
pub const INFINITY_BITS: u32 = 0x7f80_0000;

/// The pattern of the number one.
pub const ONE_BITS: u32 = 0x3f80_0000;

/// A single-precision binary floating-point number, held as its IEEE 754
/// bit pattern: one sign bit, eight exponent bits, twenty-three fraction bits.
///
/// Two scalars are `==` when their patterns agree. That is finer than
/// numeric equality, which [`Scalar::num_eq`] decides: the two zeros differ
/// in pattern and are the same number, and a NaN is no number at all.
#[derive(Clone, Copy, Debug, PartialEq, Eq, Structural)]
pub struct Scalar {
    pub bits: u32,
}

impl Scalar {
    /// The pattern without its sign bit.
    pub open spec fn magnitude(self) -> int {
        if self.bits >= SIGN_BIT {
            self.bits - SIGN_BIT
        } else {
            self.bits as int
        }
    }

    /// Whether the sign bit is set.
    pub open spec fn sign(self) -> bool {
        self.bits >= SIGN_BIT
    }

    /// Whether the pattern encodes no number.
    pub open spec fn spec_is_nan(self) -> bool {
        self.magnitude() > INFINITY_BITS
    }

    /// The place of the number on the number line. For patterns that encode
    /// numbers (the infinities included) a smaller number has a smaller
    /// rank, and both zeros have rank zero: a pattern with the sign bit
    /// clear grows with its number, and the sign bit mirrors it.
    pub open spec fn rank(self) -> int {
        if self.sign() {
            -self.magnitude()
        } else {
            self.magnitude()
        }
    }

    /// `self < other` as numbers; false when either is NaN.
    pub open spec fn spec_lt(self, other: Scalar) -> bool {
        !self.spec_is_nan() && !other.spec_is_nan() && self.rank() < other.rank()
    }

    /// `self > other` as numbers; false when either is NaN.
    pub open spec fn spec_gt(self, other: Scalar) -> bool {
        other.spec_lt(self)
    }

    /// `self <= other` as numbers; false when either is NaN.
    pub open spec fn spec_le(self, other: Scalar) -> bool {
        !self.spec_is_nan() && !other.spec_is_nan() && self.rank() <= other.rank()
    }

    /// `self == other` as numbers; false when either is NaN.
    pub open spec fn spec_num_eq(self, other: Scalar) -> bool {
        !self.spec_is_nan() && !other.spec_is_nan() && self.rank() == other.rank()
    }

    /// `self` restricted to `[lo, hi]`: raised to `lo` where it is below,
    /// then lowered to `hi` where it is above. A NaN is below and above
    /// nothing and stays as it is.
    pub open spec fn spec_clamp(self, lo: Scalar, hi: Scalar) -> Scalar {
        let raised = if self.spec_lt(lo) {
            lo
        } else {
            self
        };
        if raised.spec_gt(hi) {
            hi
        } else {
            raised
        }
    }

    /// Whether `self` is a number within `[lo, hi]`.
    pub open spec fn within(self, lo: Scalar, hi: Scalar) -> bool {
        lo.spec_le(self) && self.spec_le(hi)
    }

    /// The scalar with the given pattern.
    pub fn from_bits(bits: u32) -> (s: Scalar)
        ensures
            s.bits == bits,
    {
        Scalar { bits }
    }

    /// The pattern of this scalar.
    pub fn to_bits(self) -> (bits: u32)
        ensures
            bits == self.bits,
    {
        self.bits
    }

    /// Positive zero.
    pub fn zero() -> (s: Scalar)
        ensures
            s.bits == 0,
    {
        Scalar { bits: 0 }
    }

    /// The number one.
    pub fn one() -> (s: Scalar)
        ensures
            s.bits == ONE_BITS,
    {
        Scalar { bits: ONE_BITS }
    }

    #[verifier::when_used_as_spec(spec_is_nan)]
    pub fn is_nan(self) -> (r: bool)
        ensures
            r == self.spec_is_nan(),
    {
        if self.bits >= SIGN_BIT {
            self.bits - SIGN_BIT > INFINITY_BITS
        } else {
            self.bits > INFINITY_BITS
        }
    }

    /// The rank as a machine integer, for sorting and comparing.
    pub fn sort_key(self) -> (r: i64)
        ensures
            r == self.rank(),
    {
        if self.bits >= SIGN_BIT {
            let m: u32 = self.bits - SIGN_BIT;
            -(m as i64)
        } else {
            self.bits as i64
        }
    }

    #[verifier::when_used_as_spec(spec_lt)]
    pub fn lt(self, other: Scalar) -> (r: bool)
        ensures
            r == self.spec_lt(other),
    {
        !self.is_nan() && !other.is_nan() && self.sort_key() < other.sort_key()
    }

    #[verifier::when_used_as_spec(spec_gt)]
    pub fn gt(self, other: Scalar) -> (r: bool)
        ensures
            r == self.spec_gt(other),
    {
        other.lt(self)
    }

    #[verifier::when_used_as_spec(spec_le)]
    pub fn le(self, other: Scalar) -> (r: bool)
        ensures
            r == self.spec_le(other),
    {
        !self.is_nan() && !other.is_nan() && self.sort_key() <= other.sort_key()
    }

    #[verifier::when_used_as_spec(spec_num_eq)]
    pub fn num_eq(self, other: Scalar) -> (r: bool)
        ensures
            r == self.spec_num_eq(other),
    {
        !self.is_nan() && !other.is_nan() && self.sort_key() == other.sort_key()
    }

    #[verifier::when_used_as_spec(spec_clamp)]
    pub fn clamp(self, lo: Scalar, hi: Scalar) -> (r: Scalar)
        ensures
            r == self.spec_clamp(lo, hi),
    {
        let raised = if self.lt(lo) {
            lo
        } else {
            self
        };
        if raised.gt(hi) {
            hi
        } else {
            raised
        }
    }
}

/// Clamping a number into ordered bounds gives a number within the bounds,
/// and leaves a number that is already within them as it is.
pub proof fn lemma_clamp_within(v: Scalar, lo: Scalar, hi: Scalar)
    requires
        lo.le(hi),
        !v.is_nan(),
    ensures
        v.clamp(lo, hi).within(lo, hi),
        v.within(lo, hi) ==> v.clamp(lo, hi) == v,
        v.lt(lo) ==> v.clamp(lo, hi) == lo,
        v.gt(hi) ==> v.clamp(lo, hi) == hi,
{
}

/// On numbers the order is total: of two, one is below the other or they
/// are the same number; and it is transitive.
pub proof fn lemma_order(a: Scalar, b: Scalar, c: Scalar)
    requires
        !a.is_nan(),
        !b.is_nan(),
        !c.is_nan(),
    ensures
        a.lt(b) || b.lt(a) || a.num_eq(b),
        !(a.lt(b) && b.lt(a)),
        a.le(b) <==> a.lt(b) || a.num_eq(b),
        a.lt(b) && b.lt(c) ==> a.lt(c),
        a.le(b) && b.le(c) ==> a.le(c),
{
}

} // verus!
