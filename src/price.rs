//! A price as the bit pattern of a 64-bit IEEE-754 float, ordered as the float is.
use vstd::prelude::*;

verus! {

/// The bit of a 64-bit float that holds its sign.
pub const SIGN_BIT: u64 = 0x8000_0000_0000_0000;

/// The largest magnitude (bits without the sign) that is not a NaN: infinity.
pub const INFINITY_MAGNITUDE: u64 = 0x7ff0_0000_0000_0000;

/// A price, held as the bits of an `f64` (`f64::to_bits`), so that converting
/// to and from the float loses nothing.
///
/// `==` compares bit patterns; the float order is given by `less_than`.
#[derive(Debug, Clone, Copy, PartialEq, Eq, Structural)]
pub struct Price {
    pub bits: u64,
}

impl Price {
    /// The bits without the sign bit.
    pub open spec fn magnitude(self) -> int {
        self.bits as int % SIGN_BIT as int
    }

    /// Exponent all ones with a nonzero fraction.
    pub open spec fn is_nan(self) -> bool {
        self.magnitude() > INFINITY_MAGNITUDE as int
    }

    /// A number that orders the non-NaN floats as `<` on `f64` does:
    /// the magnitude, negated when the sign bit is set (so that both zeros get 0).
    pub open spec fn order_key(self) -> int {
        if self.bits < SIGN_BIT {
            self.magnitude()
        } else {
            -self.magnitude()
        }
    }

    /// `self < other` on the floats: false whenever either side is a NaN.
    pub open spec fn lt(self, other: Price) -> bool {
        &&& !self.is_nan()
        &&& !other.is_nan()
        &&& self.order_key() < other.order_key()
    }

    /// `self > other` on the floats.
    pub open spec fn gt(self, other: Price) -> bool {
        other.lt(self)
    }

    pub fn from_bits(bits: u64) -> (r: Price)
        ensures
            r.bits == bits,
    {
        Price { bits }
    }

    pub fn to_bits(&self) -> (r: u64)
        ensures
            r == self.bits,
    {
        self.bits
    }

    pub fn is_nan_price(&self) -> (r: bool)
        ensures
            r == self.is_nan(),
    {
        self.bits % SIGN_BIT > INFINITY_MAGNITUDE
    }

    fn signed_key(&self) -> (r: i64)
        ensures
            r as int == self.order_key(),
    {
        let magnitude = (self.bits % SIGN_BIT) as i64;
        if self.bits < SIGN_BIT {
            magnitude
        } else {
            -magnitude
        }
    }

    /// Float `<`: false when either side is a NaN.
    pub fn less_than(&self, other: &Price) -> (r: bool)
        ensures
            r == self.lt(*other),
    {
        !self.is_nan_price() && !other.is_nan_price() && self.signed_key() < other.signed_key()
    }

    /// Float `>`: false when either side is a NaN.
    pub fn greater_than(&self, other: &Price) -> (r: bool)
        ensures
            r == self.gt(*other),
    {
        other.less_than(self)
    }
}

/// No price is below itself.
pub proof fn lemma_lt_irreflexive(a: Price)
    ensures
        !a.lt(a),
{
}

/// Two prices are never each below the other.
pub proof fn lemma_lt_asymmetric(a: Price, b: Price)
    ensures
        !(a.lt(b) && b.lt(a)),
{
}

/// Below is transitive.
pub proof fn lemma_lt_transitive(a: Price, b: Price, c: Price)
    requires
        a.lt(b),
        b.lt(c),
    ensures
        a.lt(c),
{
}

} // verus!
