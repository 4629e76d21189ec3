//! Material scattering decisions.
//!
//! Each material decides, from quantities the caller has already evaluated,
//! whether a ray continues and along which direction.
use vstd::prelude::*;
use crate::error::ConfigError;
use crate::hittable::HitRecord;
use crate::ray::Ray;
use crate::scalar::{Scalar, ONE_BITS};
use crate::vec3::Vec3;

verus! {

/// A colour attenuation together with the ray that continues the path.
#[derive(Clone, Copy, Debug)]
pub struct Scatter {
    pub attenuation: Vec3,
    pub scattered: Ray,
}

/// A diffuse surface.
#[derive(Clone, Copy, Debug)]
pub struct Lambertian {
    pub albedo: Vec3,
}

/// A reflective surface with roughness `fuzz`.
#[derive(Clone, Copy, Debug)]
pub struct Metal {
    pub albedo: Vec3,
    pub fuzz: Scalar,
}

/// A transparent surface.
#[derive(Clone, Copy, Debug)]
pub struct Dielectric {
    pub refractive_index: Scalar,
}

/// The scattering models a primitive can refer to.
#[derive(Clone, Copy, Debug)]
pub enum Material {
    Lambertian(Lambertian),
    Metal(Metal),
    Dielectric(Dielectric),
}

/// Which way the refractive index enters the ratio of Snell's law.
#[derive(Clone, Copy, Debug, PartialEq, Eq, Structural)]
pub enum IndexRatio {
    /// `1 / refractive_index`: the ray enters the solid.
    Reciprocal,
    /// `refractive_index`: the ray leaves the solid.
    Direct,
}

/// The colour `(1, 1, 1)`.
pub open spec fn white() -> Vec3 {
    let one = Scalar { bits: ONE_BITS };
    Vec3 { e0: one, e1: one, e2: one }
}

impl Lambertian {
    /// A diffuse material of the given albedo.
    pub fn new(albedo: Vec3) -> (m: Lambertian)
        ensures
            m.albedo == albedo,
    {
        Lambertian { albedo }
    }

    /// The direction a diffuse bounce takes: `candidate`, which the caller
    /// formed as the hit normal plus a random unit vector, unless it
    /// cancelled to nearly zero, in which case the normal itself.
    pub open spec fn spec_direction(rec: HitRecord, candidate: Vec3) -> Vec3 {
        if candidate.spec_near_zero() {
            rec.normal
        } else {
            candidate
        }
    }

    /// A diffuse surface always scatters, from the hit point, with the
    /// albedo as attenuation.
    pub fn scatter(&self, rec: &HitRecord, candidate: Vec3) -> (s: Option<Scatter>)
        ensures
            s == Some(
                Scatter {
                    attenuation: self.albedo,
                    scattered: Ray { orig: rec.p, dir: Self::spec_direction(*rec, candidate) },
                },
            ),
    {
        let direction = if candidate.near_zero() {
            rec.normal
        } else {
            candidate
        };
        Some(Scatter { attenuation: self.albedo, scattered: Ray::new(rec.p, direction) })
    }
}

impl Metal {
    /// A roughness is accepted exactly when it lies in `[0, 1]`.
    pub open spec fn valid_fuzz(fuzz: Scalar) -> bool {
        Scalar { bits: 0 }.spec_le(fuzz) && fuzz.spec_le(Scalar { bits: ONE_BITS })
    }

    /// A metal of the given albedo and roughness, or the reason why the
    /// roughness is refused.
    pub fn new(albedo: Vec3, fuzz: Scalar) -> (m: Result<Metal, ConfigError>)
        ensures
            Self::valid_fuzz(fuzz) ==> m == Ok::<Metal, ConfigError>(Metal { albedo, fuzz }),
            !Self::valid_fuzz(fuzz) ==> m == Err::<Metal, ConfigError>(
                ConfigError::FuzzOutOfRange,
            ),
    {
        if Scalar::zero().le(&fuzz) && fuzz.le(&Scalar::one()) {
            Ok(Metal { albedo, fuzz })
        } else {
            Err(ConfigError::FuzzOutOfRange)
        }
    }

    /// `direction` is the fuzzed mirror direction and `facing` its dot product
    /// with the hit normal, both evaluated by the caller. The ray continues
    /// exactly when `facing` is strictly positive; a direction that points
    /// into the surface is absorbed.
    pub fn scatter(&self, rec: &HitRecord, direction: Vec3, facing: Scalar) -> (s: Option<Scatter>)
        ensures
            facing.spec_gt(Scalar { bits: 0 }) ==> s == Some(
                Scatter { attenuation: self.albedo, scattered: Ray { orig: rec.p, dir: direction } },
            ),
            !facing.spec_gt(Scalar { bits: 0 }) ==> s.is_none(),
    {
        if facing.gt(&Scalar::zero()) {
            Some(Scatter { attenuation: self.albedo, scattered: Ray::new(rec.p, direction) })
        } else {
            None
        }
    }
}

impl Dielectric {
    /// A transparent material; the index must be strictly positive.
    pub fn new(refractive_index: Scalar) -> (m: Result<Dielectric, ConfigError>)
        ensures
            refractive_index.spec_gt(Scalar { bits: 0 }) ==> m == Ok::<Dielectric, ConfigError>(
                Dielectric { refractive_index },
            ),
            !refractive_index.spec_gt(Scalar { bits: 0 }) ==> m == Err::<Dielectric, ConfigError>(
                ConfigError::NonPositiveRefractiveIndex,
            ),
    {
        if refractive_index.gt(&Scalar::zero()) {
            Ok(Dielectric { refractive_index })
        } else {
            Err(ConfigError::NonPositiveRefractiveIndex)
        }
    }

    /// A ray that meets the front face enters the solid and sees the
    /// reciprocal of the index; one that meets the back face leaves it.
    pub fn index_ratio(&self, rec: &HitRecord) -> (r: IndexRatio)
        ensures
            rec.front_face ==> r == IndexRatio::Reciprocal,
            !rec.front_face ==> r == IndexRatio::Direct,
    {
        if rec.front_face {
            IndexRatio::Reciprocal
        } else {
            IndexRatio::Direct
        }
    }

    /// The ray is reflected when refraction is impossible (`ratio_sine`, the
    /// index ratio times the sine of the incidence angle, exceeds one) or
    /// when the reflectance exceeds the uniform draw.
    pub open spec fn reflects(ratio_sine: Scalar, reflectance: Scalar, draw: Scalar) -> bool {
        ratio_sine.spec_gt(Scalar { bits: ONE_BITS }) || reflectance.spec_gt(draw)
    }

    /// A transparent surface never absorbs: the attenuation is white and the
    /// ray continues from the hit point, along `reflected` or `refracted`.
    pub fn scatter(
        &self,
        rec: &HitRecord,
        ratio_sine: Scalar,
        reflectance: Scalar,
        draw: Scalar,
        reflected: Vec3,
        refracted: Vec3,
    ) -> (s: Option<Scatter>)
        ensures
            s == Some(
                Scatter {
                    attenuation: white(),
                    scattered: Ray {
                        orig: rec.p,
                        dir: if Self::reflects(ratio_sine, reflectance, draw) {
                            reflected
                        } else {
                            refracted
                        },
                    },
                },
            ),
    {
        let one = Scalar::one();
        let direction = if ratio_sine.gt(&one) || reflectance.gt(&draw) {
            reflected
        } else {
            refracted
        };
        Some(Scatter { attenuation: Vec3::new(one, one, one), scattered: Ray::new(rec.p, direction) })
    }
}

/// Where refraction is possible, only the reflectance decides: the ray is
/// reflected exactly when the reflectance exceeds the draw. This is so in
/// particular wherever the index ratio is one, since a sine never exceeds
/// one.
pub proof fn lemma_refracts_unless_reflectance_wins(
    ratio_sine: Scalar,
    reflectance: Scalar,
    draw: Scalar,
)
    requires
        !ratio_sine.spec_gt(Scalar { bits: ONE_BITS }),
    ensures
        Dielectric::reflects(ratio_sine, reflectance, draw) == reflectance.spec_gt(draw),
{
}

} // verus!
