//! The discrete core of a Monte-Carlo ray tracer.
//!
//! Real quantities are carried as binary64 bit patterns. Everything that can
//! be decided exactly on those patterns (ordering, negation, root selection,
//! closest-hit reduction, scatter decisions, the bounce budget, raster order
//! and the text of the image stream) is verified here; rounding arithmetic is
//! left to the caller.
pub mod scalar;
pub mod vec3;
pub mod ray;
pub mod error;
pub mod hittable;
pub mod material;
pub mod sphere;
pub mod hittable_list;
pub mod common;
pub mod color;
pub mod camera;
pub mod path;
pub mod scene;
