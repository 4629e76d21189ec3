//! Rays: an origin and a direction.
use vstd::prelude::*;
use crate::vec3::Vec3;

verus! {

/// A half-line `origin + t * direction`; the direction need not be unit length.
#[derive(Clone, Copy, Debug)]
pub struct Ray {
    pub orig: Vec3,
    pub dir: Vec3,
}

impl Ray {
    /// The ray from `origin` along `direction`.
    pub fn new(origin: Vec3, direction: Vec3) -> (r: Ray)
        ensures
            r.orig == origin,
            r.dir == direction,
    {
        Ray { orig: origin, dir: direction }
    }

    /// Where the ray starts.
    pub fn origin(&self) -> (v: Vec3)
        ensures
            v == self.orig,
    {
        self.orig
    }

    /// The direction of the ray.
    pub fn direction(&self) -> (v: Vec3)
        ensures
            v == self.dir,
    {
        self.dir
    }
}

} // verus!
