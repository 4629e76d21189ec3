//! The record of a ray meeting a surface.
use vstd::prelude::*;
use crate::scalar::Scalar;
use crate::vec3::Vec3;

verus! {

/// Where and how a ray met a primitive.
#[derive(Clone, Copy, Debug)]
pub struct HitRecord {
    /// The point of intersection.
    pub p: Vec3,
    /// The surface normal, turned against the incoming ray.
    pub normal: Vec3,
    /// The ray parameter of the intersection.
    pub t: Scalar,
    /// Whether the ray came from outside the surface.
    pub front_face: bool,
    /// The material of the primitive, as an index into the scene's materials.
    pub mat: usize,
}

impl HitRecord {
    /// The ray comes from outside exactly when `alignment`, the dot product
    /// of its direction with the outward normal, is strictly negative.
    pub open spec fn spec_front_face(alignment: Scalar) -> bool {
        alignment.spec_lt(Scalar { bits: 0 })
    }

    /// The outward normal as it is, or reversed, so that it opposes the ray.
    pub open spec fn spec_oriented(alignment: Scalar, outward_normal: Vec3) -> Vec3 {
        if Self::spec_front_face(alignment) {
            outward_normal
        } else {
            outward_normal.spec_neg()
        }
    }

    /// The dot product of the oriented normal with the ray direction.
    /// Reversing a vector reverses the sign of its dot product with any
    /// other, so this is the alignment itself on the front face and its
    /// opposite on the back face.
    pub open spec fn spec_oriented_alignment(alignment: Scalar) -> Scalar {
        if Self::spec_front_face(alignment) {
            alignment
        } else {
            alignment.spec_neg()
        }
    }

    /// A record at parameter `t` and point `p`, not yet oriented: the normal
    /// is the outward one and the front face is assumed.
    pub fn new(p: Vec3, t: Scalar, outward_normal: Vec3, mat: usize) -> (rec: HitRecord)
        ensures
            rec == (HitRecord { p, normal: outward_normal, t, front_face: true, mat }),
    {
        HitRecord { p, normal: outward_normal, t, front_face: true, mat }
    }

    /// Orients the record against the incoming ray. `alignment` is the dot
    /// product of the ray direction with `outward_normal`.
    pub fn set_face_normal(&mut self, alignment: Scalar, outward_normal: Vec3)
        ensures
            final(self).front_face == Self::spec_front_face(alignment),
            final(self).normal == Self::spec_oriented(alignment, outward_normal),
            final(self).p == old(self).p,
            final(self).t == old(self).t,
            final(self).mat == old(self).mat,
    {
        self.front_face = alignment.lt(&Scalar::zero());
        self.normal = if self.front_face {
            outward_normal
        } else {
            outward_normal.neg()
        };
    }
}

/// The oriented normal never points along the ray: its alignment with the
/// ray direction is at most zero, whatever the alignment of the outward
/// normal was.
pub proof fn lemma_oriented_normal_opposes_ray(alignment: Scalar)
    requires
        !alignment.is_nan(),
    ensures
        HitRecord::spec_oriented_alignment(alignment).spec_le(Scalar { bits: 0 }),
{
}

} // verus!
