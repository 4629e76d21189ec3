//! Three-component vectors over binary64 bit patterns.
use vstd::prelude::*;
use crate::common::{is_signed_draw_of, random_signed};
use crate::scalar::{Scalar, ONE_BITS};

verus! {

/// The pattern of `1e-8`, the bound under which a component counts as zero.
pub const NEAR_ZERO_BITS: u64 = 0x3e45_798e_e230_8c3a;

/// The pattern of `1e-160`, the squared length under which a sample is too
/// short to be normalised.
pub const TINY_BITS: u64 = 0x1eb6_7e9c_127b_6e74;

/// A point, a free vector or a colour triple, depending on context.
#[derive(Clone, Copy, Debug)]
pub struct Vec3 {
    pub e0: Scalar,
    pub e1: Scalar,
    pub e2: Scalar,
}

impl Vec3 {
    /// The vector with every sign bit flipped.
    pub open spec fn spec_neg(self) -> Vec3 {
        Vec3 { e0: self.e0.spec_neg(), e1: self.e1.spec_neg(), e2: self.e2.spec_neg() }
    }

    /// Every component has magnitude strictly below `1e-8`.
    pub open spec fn spec_near_zero(self) -> bool {
        let s = Scalar { bits: NEAR_ZERO_BITS };
        self.e0.spec_abs().spec_lt(s) && self.e1.spec_abs().spec_lt(s) && self.e2.spec_abs().spec_lt(s)
    }

    /// No component is a NaN.
    pub open spec fn is_ordered(self) -> bool {
        !self.e0.is_nan() && !self.e1.is_nan() && !self.e2.is_nan()
    }

    /// The vector with the given components.
    pub fn new(x: Scalar, y: Scalar, z: Scalar) -> (v: Vec3)
        ensures
            v.e0 == x,
            v.e1 == y,
            v.e2 == z,
    {
        Vec3 { e0: x, e1: y, e2: z }
    }

    /// The first component.
    pub fn x(&self) -> (r: Scalar)
        ensures
            r == self.e0,
    {
        self.e0
    }

    /// The second component.
    pub fn y(&self) -> (r: Scalar)
        ensures
            r == self.e1,
    {
        self.e1
    }

    /// The third component.
    pub fn z(&self) -> (r: Scalar)
        ensures
            r == self.e2,
    {
        self.e2
    }

    /// Componentwise negation; exact, since it only flips sign bits.
    pub fn neg(&self) -> (r: Vec3)
        ensures
            r == self.spec_neg(),
    {
        Vec3 { e0: self.e0.neg(), e1: self.e1.neg(), e2: self.e2.neg() }
    }

    /// Whether every component is a number.
    pub fn ordered(&self) -> (b: bool)
        ensures
            b == self.is_ordered(),
    {
        !self.e0.nan() && !self.e1.nan() && !self.e2.nan()
    }

    /// Whether the vector is too short to serve as a direction.
    pub fn near_zero(&self) -> (b: bool)
        ensures
            b == self.spec_near_zero(),
    {
        let s = Scalar::from_bits(NEAR_ZERO_BITS);
        self.e0.abs().lt(&s) && self.e1.abs().lt(&s) && self.e2.abs().lt(&s)
    }
}

/// A random point of the square `[-1, 1)^2` in the plane of the first two
/// components: a candidate for a sample of the unit disk.
pub fn random_in_square() -> (p: Vec3)
    ensures
        exists|word: u64| #[trigger] is_signed_draw_of(p.e0, word),
        exists|word: u64| #[trigger] is_signed_draw_of(p.e1, word),
        p.e2.bits == 0,
{
    let x = random_signed();
    let y = random_signed();
    Vec3::new(x, y, Scalar::zero())
}

/// A random point of the cube `[-1, 1)^3`: a candidate for the seed of a
/// random unit vector.
pub fn random_in_cube() -> (p: Vec3)
    ensures
        exists|word: u64| #[trigger] is_signed_draw_of(p.e0, word),
        exists|word: u64| #[trigger] is_signed_draw_of(p.e1, word),
        exists|word: u64| #[trigger] is_signed_draw_of(p.e2, word),
{
    let x = random_signed();
    let y = random_signed();
    let z = random_signed();
    Vec3::new(x, y, z)
}

/// Whether a point sampled in the square `[-1, 1]^2` is kept as a sample of
/// the unit disk: its squared length must be strictly below one.
pub fn accepts_disk_sample(length_squared: Scalar) -> (b: bool)
    ensures
        b == length_squared.spec_lt(Scalar { bits: ONE_BITS }),
{
    length_squared.lt(&Scalar::one())
}

/// Whether a point sampled in the cube `[-1, 1]^3` is kept as the seed of a
/// unit vector: its squared length must lie in `(1e-160, 1]`.
pub fn accepts_sphere_sample(length_squared: Scalar) -> (b: bool)
    ensures
        b == (Scalar { bits: TINY_BITS }.spec_lt(length_squared) && length_squared.spec_le(
            Scalar { bits: ONE_BITS },
        )),
{
    Scalar::from_bits(TINY_BITS).lt(&length_squared) && length_squared.le(&Scalar::one())
}

/// Turns a unit vector into the hemisphere around a normal: the vector is
/// kept when `alignment`, its dot product with the normal, is strictly
/// positive, and reversed otherwise.
pub fn on_hemisphere(sample: Vec3, alignment: Scalar) -> (v: Vec3)
    ensures
        alignment.spec_gt(Scalar { bits: 0 }) ==> v == sample,
        !alignment.spec_gt(Scalar { bits: 0 }) ==> v == sample.spec_neg(),
{
    if alignment.gt(&Scalar::zero()) {
        sample
    } else {
        sample.neg()
    }
}

/// Negating twice gives the vector back, bit for bit.
pub proof fn lemma_neg_involution(v: Vec3)
    ensures
        v.spec_neg().spec_neg() == v,
{
}

} // verus!
