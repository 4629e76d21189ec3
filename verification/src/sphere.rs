//! Spheres and the choice of the root at which a ray meets one.
use vstd::prelude::*;
use crate::error::ConfigError;
use crate::scalar::Scalar;
use crate::vec3::Vec3;

verus! {

/// A sphere that refers to its material by index into the scene's materials.
#[derive(Clone, Copy, Debug)]
pub struct Sphere {
    pub center: Vec3,
    pub radius: Scalar,
    pub material: usize,
}

/// The quadratic `a t^2 + 2 h t + c = 0` of one ray against one sphere, as
/// the caller evaluated it: the discriminant `h^2 - a c` and the two roots
/// `(-h - sqrt(d)) / a` and `(-h + sqrt(d)) / a`.
#[derive(Clone, Copy, Debug)]
pub struct Roots {
    pub discriminant: Scalar,
    pub near: Scalar,
    pub far: Scalar,
}

/// `t` lies strictly inside the open interval `(t_min, t_max)`.
pub open spec fn inside(t: Scalar, t_min: Scalar, t_max: Scalar) -> bool {
    t_min.spec_lt(t) && t.spec_lt(t_max)
}

impl Roots {
    /// The nearer root does not exceed the farther one, whenever both are
    /// numbers. Roots of a quadratic with a non-negative leading coefficient
    /// are of this shape.
    pub open spec fn ordered(self) -> bool {
        !self.near.is_nan() && !self.far.is_nan() ==> self.near.key() <= self.far.key()
    }

    /// The root at which the ray meets the sphere within `(t_min, t_max)`:
    /// none when the discriminant is negative; otherwise the nearer root if
    /// it lies strictly inside the interval, else the farther one if that
    /// does, else none.
    pub open spec fn spec_select(self, t_min: Scalar, t_max: Scalar) -> Option<Scalar> {
        if self.discriminant.spec_lt(Scalar { bits: 0 }) {
            None
        } else if inside(self.near, t_min, t_max) {
            Some(self.near)
        } else if inside(self.far, t_min, t_max) {
            Some(self.far)
        } else {
            None
        }
    }

    /// The roots as the caller evaluated them.
    pub fn new(discriminant: Scalar, near: Scalar, far: Scalar) -> (r: Roots)
        ensures
            r == (Roots { discriminant, near, far }),
    {
        Roots { discriminant, near, far }
    }

    /// Chooses the nearest root that lies strictly inside `(t_min, t_max)`.
    pub fn select(&self, t_min: Scalar, t_max: Scalar) -> (t: Option<Scalar>)
        ensures
            t == self.spec_select(t_min, t_max),
            t matches Some(root) ==> inside(root, t_min, t_max),
    {
        if self.discriminant.lt(&Scalar::zero()) {
            return None;
        }
        if t_min.lt(&self.near) && self.near.lt(&t_max) {
            return Some(self.near);
        }
        if t_min.lt(&self.far) && self.far.lt(&t_max) {
            return Some(self.far);
        }
        None
    }
}

impl Sphere {
    /// A sphere is accepted exactly when its radius is strictly positive.
    pub fn new(center: Vec3, radius: Scalar, material: usize) -> (s: Result<Sphere, ConfigError>)
        ensures
            radius.spec_gt(Scalar { bits: 0 }) ==> s == Ok::<Sphere, ConfigError>(
                Sphere { center, radius, material },
            ),
            !radius.spec_gt(Scalar { bits: 0 }) ==> s == Err::<Sphere, ConfigError>(
                ConfigError::NonPositiveRadius,
            ),
    {
        if radius.gt(&Scalar::zero()) {
            Ok(Sphere { center, radius, material })
        } else {
            Err(ConfigError::NonPositiveRadius)
        }
    }
}

/// A selected root is one of the two roots and lies strictly inside the
/// interval it was selected for.
pub proof fn lemma_select_inside(roots: Roots, t_min: Scalar, t_max: Scalar)
    ensures
        roots.spec_select(t_min, t_max) matches Some(t) ==> inside(t, t_min, t_max) && (t
            == roots.near || t == roots.far),
{
}

/// With ordered roots the selection is the nearest one: no root inside the
/// interval lies strictly before the selected one.
pub proof fn lemma_select_nearest(roots: Roots, t_min: Scalar, t_max: Scalar)
    requires
        roots.ordered(),
    ensures
        roots.spec_select(t_min, t_max) matches Some(t) ==> {
            &&& inside(roots.near, t_min, t_max) ==> t.key() <= roots.near.key()
            &&& inside(roots.far, t_min, t_max) ==> t.key() <= roots.far.key()
        },
{
}

} // verus!
