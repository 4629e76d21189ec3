//! Binary64 values carried by their bit pattern, with the operations that are
//! exact on the pattern: ordering, negation, magnitude, and classification.
use vstd::prelude::*;
use vstd::arithmetic::power2::{pow2, lemma_pow2_pos, lemma_pow2_strictly_increases, lemma_pow2_unfold};

verus! {

/// The sign bit of a binary64 pattern.
pub const SIGN_BIT: u64 = 0x8000_0000_0000_0000;

/// The pattern of positive infinity; every larger magnitude is a NaN.
pub const INFINITY_BITS: u64 = 0x7ff0_0000_0000_0000;

/// The pattern of `1.0`.
pub const ONE_BITS: u64 = 0x3ff0_0000_0000_0000;

/// The number of patterns that share one exponent: `2^52`.
pub const FRACTION_RANGE: u64 = 0x10_0000_0000_0000;

/// A binary64 value, held by its bit pattern.
#[derive(Clone, Copy, Debug)]
pub struct Scalar {
    pub bits: u64,
}

impl Scalar {
    /// The pattern with the sign bit cleared.
    pub open spec fn magnitude(self) -> u64 {
        if self.bits >= SIGN_BIT {
            (self.bits - SIGN_BIT) as u64
        } else {
            self.bits
        }
    }

    /// Whether the sign bit is set.
    pub open spec fn is_negative(self) -> bool {
        self.bits >= SIGN_BIT
    }

    /// Whether the pattern encodes a NaN.
    pub open spec fn is_nan(self) -> bool {
        self.magnitude() > INFINITY_BITS
    }

    /// The biased exponent: the eleven bits below the sign.
    pub open spec fn exponent_field(self) -> nat {
        (self.magnitude() / FRACTION_RANGE) as nat
    }

    /// The fraction: the low fifty-two bits.
    pub open spec fn fraction_field(self) -> nat {
        (self.magnitude() % FRACTION_RANGE) as nat
    }

    /// The magnitude of a finite value, counted in units of `2^-1074`, the
    /// smallest positive binary64.
    pub open spec fn numerator(self) -> nat {
        if self.exponent_field() == 0 {
            self.fraction_field()
        } else {
            ((FRACTION_RANGE + self.fraction_field()) * pow2(
                (self.exponent_field() - 1) as nat,
            )) as nat
        }
    }

    /// The value, counted in units of `2^-1074`. For an infinity this is a
    /// number beyond every finite value, of the same sign.
    pub open spec fn value(self) -> int {
        if self.is_negative() {
            -(self.numerator() as int)
        } else {
            self.numerator() as int
        }
    }

    /// An integer that orders non-NaN patterns as the values they encode:
    /// both zeros map to 0, positive values to their magnitude and negative
    /// values to its opposite.
    pub open spec fn key(self) -> int {
        if self.is_negative() {
            -(self.magnitude() as int)
        } else {
            self.magnitude() as int
        }
    }

    /// `self < other` as binary64 values: false whenever either is a NaN.
    pub open spec fn spec_lt(self, other: Scalar) -> bool {
        !self.is_nan() && !other.is_nan() && self.key() < other.key()
    }

    /// `self <= other` as binary64 values: false whenever either is a NaN.
    pub open spec fn spec_le(self, other: Scalar) -> bool {
        !self.is_nan() && !other.is_nan() && self.key() <= other.key()
    }

    /// `self > other` as binary64 values.
    pub open spec fn spec_gt(self, other: Scalar) -> bool {
        other.spec_lt(self)
    }

    /// `self >= other` as binary64 values.
    pub open spec fn spec_ge(self, other: Scalar) -> bool {
        other.spec_le(self)
    }

    /// The value with the opposite sign bit.
    pub open spec fn spec_neg(self) -> Scalar {
        if self.bits >= SIGN_BIT {
            Scalar { bits: (self.bits - SIGN_BIT) as u64 }
        } else {
            Scalar { bits: (self.bits + SIGN_BIT) as u64 }
        }
    }

    /// The value with the sign bit cleared.
    pub open spec fn spec_abs(self) -> Scalar {
        Scalar { bits: self.magnitude() }
    }

    /// The value with the given pattern.
    pub fn from_bits(bits: u64) -> (s: Scalar)
        ensures
            s.bits == bits,
    {
        Scalar { bits }
    }

    /// The pattern of the value.
    pub fn to_bits(&self) -> (bits: u64)
        ensures
            bits == self.bits,
    {
        self.bits
    }

    /// Positive zero.
    pub fn zero() -> (s: Scalar)
        ensures
            s.bits == 0,
    {
        Scalar { bits: 0 }
    }

    /// The value `1.0`.
    pub fn one() -> (s: Scalar)
        ensures
            s.bits == ONE_BITS,
    {
        Scalar { bits: ONE_BITS }
    }

    /// Positive infinity.
    pub fn infinity() -> (s: Scalar)
        ensures
            s.bits == INFINITY_BITS,
    {
        Scalar { bits: INFINITY_BITS }
    }

    /// The pattern with the sign bit cleared.
    fn magnitude_bits(&self) -> (m: u64)
        ensures
            m == self.magnitude(),
    {
        if self.bits >= SIGN_BIT {
            self.bits - SIGN_BIT
        } else {
            self.bits
        }
    }

    /// Whether the value is a NaN.
    pub fn nan(&self) -> (b: bool)
        ensures
            b == self.is_nan(),
    {
        self.magnitude_bits() > INFINITY_BITS
    }

    /// Whether the sign bit is set.
    pub fn negative(&self) -> (b: bool)
        ensures
            b == self.is_negative(),
    {
        self.bits >= SIGN_BIT
    }

    /// `self < other`, as binary64 compares: by sign and magnitude, with the
    /// two zeros equal and a NaN unordered.
    pub fn lt(&self, other: &Scalar) -> (b: bool)
        ensures
            b == self.spec_lt(*other),
    {
        let ma: u64 = self.magnitude_bits();
        let mb: u64 = other.magnitude_bits();
        if ma > INFINITY_BITS || mb > INFINITY_BITS {
            false
        } else if self.bits >= SIGN_BIT {
            if other.bits >= SIGN_BIT {
                mb < ma
            } else {
                ma != 0 || mb != 0
            }
        } else {
            if other.bits >= SIGN_BIT {
                false
            } else {
                ma < mb
            }
        }
    }

    /// `self <= other`, as binary64 compares.
    pub fn le(&self, other: &Scalar) -> (b: bool)
        ensures
            b == self.spec_le(*other),
    {
        let ma: u64 = self.magnitude_bits();
        let mb: u64 = other.magnitude_bits();
        if ma > INFINITY_BITS || mb > INFINITY_BITS {
            false
        } else if self.bits >= SIGN_BIT {
            if other.bits >= SIGN_BIT {
                mb <= ma
            } else {
                true
            }
        } else {
            if other.bits >= SIGN_BIT {
                ma == 0 && mb == 0
            } else {
                ma <= mb
            }
        }
    }

    /// `self > other`, as binary64 compares.
    pub fn gt(&self, other: &Scalar) -> (b: bool)
        ensures
            b == self.spec_gt(*other),
    {
        other.lt(self)
    }

    /// `self >= other`, as binary64 compares.
    pub fn ge(&self, other: &Scalar) -> (b: bool)
        ensures
            b == self.spec_ge(*other),
    {
        other.le(self)
    }

    /// Flips the sign bit; exact on every pattern, NaNs included.
    pub fn neg(&self) -> (r: Scalar)
        ensures
            r == self.spec_neg(),
    {
        if self.bits >= SIGN_BIT {
            Scalar { bits: self.bits - SIGN_BIT }
        } else {
            Scalar { bits: self.bits + SIGN_BIT }
        }
    }

    /// Clears the sign bit.
    pub fn abs(&self) -> (r: Scalar)
        ensures
            r == self.spec_abs(),
    {
        Scalar { bits: self.magnitude_bits() }
    }
}

/// Among patterns with the sign bit clear, a larger pattern has a larger
/// numerator.
pub proof fn lemma_numerator_increases(a: Scalar, b: Scalar)
    requires
        !a.is_negative(),
        !b.is_negative(),
        a.bits < b.bits,
    ensures
        a.numerator() < b.numerator(),
{
    let c = FRACTION_RANGE as int;
    let ea = a.exponent_field() as int;
    let eb = b.exponent_field() as int;
    let fa = a.fraction_field() as int;
    let fb = b.fraction_field() as int;
    assert(a.bits == ea * c + fa && b.bits == eb * c + fb && 0 <= fa < c && 0 <= fb < c && ea
        >= 0 && eb >= 0) by (nonlinear_arith)
        requires
            ea == a.bits as int / c,
            fa == a.bits as int % c,
            eb == b.bits as int / c,
            fb == b.bits as int % c,
            c == 0x10_0000_0000_0000,
    ;
    assert(ea <= eb) by (nonlinear_arith)
        requires
            ea * c + fa < eb * c + fb,
            0 <= fa < c,
            0 <= fb < c,
    ;
    if ea == eb {
        assert(fa < fb) by (nonlinear_arith)
            requires
                ea * c + fa < eb * c + fb,
                ea == eb,
        ;
        if ea > 0 {
            let p = pow2((ea - 1) as nat) as int;
            lemma_pow2_pos((ea - 1) as nat);
            assert((c + fa) * p < (c + fb) * p) by (nonlinear_arith)
                requires
                    fa < fb,
                    p > 0,
            ;
        }
    } else {
        let q = pow2((eb - 1) as nat) as int;
        lemma_pow2_pos((eb - 1) as nat);
        if ea == 0 {
            assert(fa < (c + fb) * q) by (nonlinear_arith)
                requires
                    fa < c,
                    fb >= 0,
                    q >= 1,
                    c > 0,
            ;
        } else {
            let p = pow2((ea - 1) as nat) as int;
            lemma_pow2_pos((ea - 1) as nat);
            lemma_pow2_unfold(ea as nat);
            if ea < eb - 1 {
                lemma_pow2_strictly_increases(ea as nat, (eb - 1) as nat);
            }
            assert((c + fa) * p < (c + fb) * q) by (nonlinear_arith)
                requires
                    0 <= fa < c,
                    0 <= fb,
                    p > 0,
                    2 * p <= q,
            ;
        }
    }
}

/// Only the two zeros have numerator zero.
pub proof fn lemma_numerator_zero(a: Scalar)
    ensures
        a.numerator() == 0 <==> a.magnitude() == 0,
{
    let c = FRACTION_RANGE as int;
    let m = a.magnitude() as int;
    let e = a.exponent_field() as int;
    let f = a.fraction_field() as int;
    assert(m == e * c + f && 0 <= f < c && e >= 0) by (nonlinear_arith)
        requires
            e == m / c,
            f == m % c,
            m >= 0,
            c == 0x10_0000_0000_0000,
    ;
    if e > 0 {
        let p = pow2((e - 1) as nat) as int;
        lemma_pow2_pos((e - 1) as nat);
        assert((c + f) * p > 0) by (nonlinear_arith)
            requires
                c > 0,
                f >= 0,
                p > 0,
        ;
    }
}

/// The order of the keys is the order of the values: comparing two numbers
/// by their patterns compares the quantities they encode.
pub proof fn lemma_order_is_value_order(a: Scalar, b: Scalar)
    requires
        !a.is_nan(),
        !b.is_nan(),
    ensures
        a.key() < b.key() <==> a.value() < b.value(),
        a.key() == b.key() <==> a.value() == b.value(),
{
    let ma = a.spec_abs();
    let mb = b.spec_abs();
    assert(ma.numerator() == a.numerator() && mb.numerator() == b.numerator());
    lemma_numerator_zero(a);
    lemma_numerator_zero(b);
    if ma.bits < mb.bits {
        lemma_numerator_increases(ma, mb);
    } else if mb.bits < ma.bits {
        lemma_numerator_increases(mb, ma);
    }
}

} // verus!
