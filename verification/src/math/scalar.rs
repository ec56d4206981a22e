//! Real numbers, held by their bit patterns and compared by their order.

use vstd::prelude::*;

verus! {

/// The bit that holds the sign in a binary64 bit pattern.
pub const SIGN_BIT: u64 = 0x8000_0000_0000_0000;

/// The bit pattern of one.
pub const ONE_BITS: u64 = 0x3FF0_0000_0000_0000;

/// The bit pattern of positive infinity.
pub const INFINITY_BITS: u64 = 0x7FF0_0000_0000_0000;

/// The bit pattern of negative infinity.
pub const NEG_INFINITY_BITS: u64 = 0xFFF0_0000_0000_0000;

/// The order of one.
pub const ONE_ORD: i64 = 0x3FF0_0000_0000_0000;

/// The order of positive infinity. That of negative infinity is its
/// negative, and an order outside the two belongs to no number.
pub const INFINITY_ORD: i64 = 0x7FF0_0000_0000_0000;

/// A real number, held by its binary64 bit pattern.
///
/// The library never computes with the number. It compares numbers by their
/// order (see [`Scalar::ord`]), an integer that goes up as the number does,
/// and it changes no more of a pattern than its sign. A pattern that is not
/// a number has an order outside the two infinities and is compared by it
/// like any other.
#[derive(Clone, Copy, Debug, Hash, PartialEq, Eq, Structural)]
pub struct Scalar {
    pub bits: u64,
}

impl Scalar {
    /// The order of the number: the magnitude of its pattern, negative where
    /// the sign bit is set. The two zeros have order 0, equal numbers have
    /// equal orders, and of two numbers the smaller has the smaller order.
    pub open spec fn spec_ord(self) -> i64 {
        if self.bits < SIGN_BIT {
            self.bits as i64
        } else {
            (SIGN_BIT - self.bits) as i64
        }
    }

    /// The order of the number.
    #[verifier::when_used_as_spec(spec_ord)]
    pub fn ord(self) -> (r: i64)
        ensures
            r == self.spec_ord(),
            -0x7FFF_FFFF_FFFF_FFFF <= r <= 0x7FFF_FFFF_FFFF_FFFF,
    {
        if self.bits < SIGN_BIT {
            self.bits as i64
        } else {
            let magnitude: u64 = self.bits - SIGN_BIT;
            -(magnitude as i64)
        }
    }

    /// Whether the two scalars have the same order, as equal numbers do.
    pub open spec fn spec_same(self, other: Scalar) -> bool {
        self.ord() == other.ord()
    }

    /// Whether the two scalars have the same order: whether they are one
    /// pattern or the two zeros.
    #[verifier::when_used_as_spec(spec_same)]
    pub fn same(self, other: Scalar) -> (r: bool)
        ensures
            r == self.spec_same(other),
    {
        self.ord() == other.ord()
    }

    /// Whether the pattern is a number, infinite ones included.
    pub open spec fn is_number(self) -> bool {
        -INFINITY_ORD <= self.ord() <= INFINITY_ORD
    }

    /// The scalar with bit pattern `bits`.
    pub fn from_bits(bits: u64) -> (r: Scalar)
        ensures
            r.bits == bits,
    {
        Scalar { bits }
    }

    /// The bit pattern of the scalar.
    pub fn to_bits(self) -> (bits: u64)
        ensures
            bits == self.bits,
    {
        self.bits
    }

    /// Zero.
    pub fn zero() -> (r: Scalar)
        ensures
            r.bits == 0,
            r.ord() == 0,
    {
        Scalar { bits: 0 }
    }

    /// One.
    pub fn one() -> (r: Scalar)
        ensures
            r.bits == ONE_BITS,
            r.ord() == ONE_ORD,
    {
        Scalar { bits: ONE_BITS }
    }

    /// Positive infinity.
    pub fn infinity() -> (r: Scalar)
        ensures
            r.bits == INFINITY_BITS,
            r.ord() == INFINITY_ORD,
    {
        Scalar { bits: INFINITY_BITS }
    }

    /// Negative infinity.
    pub fn neg_infinity() -> (r: Scalar)
        ensures
            r.bits == NEG_INFINITY_BITS,
            r.ord() == -INFINITY_ORD,
    {
        Scalar { bits: NEG_INFINITY_BITS }
    }

    /// The pattern with the other sign.
    pub open spec fn spec_neg(self) -> Scalar {
        if self.bits < SIGN_BIT {
            Scalar { bits: (self.bits + SIGN_BIT) as u64 }
        } else {
            Scalar { bits: (self.bits - SIGN_BIT) as u64 }
        }
    }

    /// The negated number: the same magnitude under the other sign.
    pub fn neg(self) -> (r: Scalar)
        ensures
            r == self.spec_neg(),
            r.ord() == -self.ord(),
    {
        if self.bits < SIGN_BIT {
            Scalar { bits: self.bits + SIGN_BIT }
        } else {
            Scalar { bits: self.bits - SIGN_BIT }
        }
    }

    /// The pattern with a clear sign bit.
    pub open spec fn spec_abs(self) -> Scalar {
        if self.bits < SIGN_BIT {
            self
        } else {
            Scalar { bits: (self.bits - SIGN_BIT) as u64 }
        }
    }

    /// The absolute value: the same magnitude under a clear sign bit.
    pub fn abs(self) -> (r: Scalar)
        ensures
            r == self.spec_abs(),
            r.ord() >= 0,
            r.ord() == self.ord() || r.ord() == -self.ord(),
    {
        if self.bits < SIGN_BIT {
            self
        } else {
            Scalar { bits: self.bits - SIGN_BIT }
        }
    }

    /// The first scalar unless the second is smaller.
    pub open spec fn spec_min(self, other: Scalar) -> Scalar {
        if self.ord() <= other.ord() {
            self
        } else {
            other
        }
    }

    /// The smaller of two scalars; the first of two equal ones.
    pub fn min(self, other: Scalar) -> (r: Scalar)
        ensures
            r == self.spec_min(other),
    {
        if self.ord() <= other.ord() {
            self
        } else {
            other
        }
    }

    /// The first scalar unless the second is larger.
    pub open spec fn spec_max(self, other: Scalar) -> Scalar {
        if self.ord() >= other.ord() {
            self
        } else {
            other
        }
    }

    /// The larger of two scalars; the first of two equal ones.
    pub fn max(self, other: Scalar) -> (r: Scalar)
        ensures
            r == self.spec_max(other),
    {
        if self.ord() >= other.ord() {
            self
        } else {
            other
        }
    }
}

/// Two patterns have the same order exactly if they are the same pattern or
/// the two zeros; a pattern under a clear sign bit has its own value as order
/// and a pattern under a set sign bit the negative of its magnitude.
pub proof fn lemma_ord(a: Scalar, b: Scalar)
    ensures
        a.ord() == b.ord() <==> a == b || (a.spec_abs().bits == 0 && b.spec_abs().bits == 0),
        a.bits < SIGN_BIT ==> a.ord() == a.bits,
        a.bits >= SIGN_BIT ==> a.ord() == -(a.bits - SIGN_BIT),
        a.bits < SIGN_BIT && b.bits < SIGN_BIT ==> (a.ord() < b.ord() <==> a.bits < b.bits),
        a.bits >= SIGN_BIT && b.bits >= SIGN_BIT ==> (a.ord() < b.ord() <==> a.bits > b.bits),
        a.bits >= SIGN_BIT && b.bits < SIGN_BIT ==> a.ord() <= b.ord(),
{
}

/// Negation is its own inverse, turns the order round and exchanges the two
/// infinities; the absolute value has the order of the number or of its
/// negative, whichever is not below zero.
pub proof fn lemma_neg(a: Scalar, b: Scalar)
    ensures
        a.spec_neg().spec_neg() == a,
        a.spec_neg().ord() == -a.ord(),
        a.ord() < b.ord() <==> b.spec_neg().ord() < a.spec_neg().ord(),
        a.is_number() <==> a.spec_neg().is_number(),
        a.spec_abs().ord() >= 0,
        a.spec_abs().ord() == a.ord() || a.spec_abs().ord() == -a.ord(),
{
}

} // verus!
