//! A ray-tracing kernel: rays, shapes, a camera, a scene that resolves a ray
//! to a colour, and a renderer that averages jittered samples per pixel.
//!
//! The kernel is generic over its number type. Every function is stated and
//! proved for any [`scalar::Scalar`] whose operators are total and
//! deterministic ([`scalar::lawful`]); its contract says which expression over
//! the type's own operators the result is. [`fixed::Fixed`] is a number type
//! that is proved to be lawful, and for which a list of spheres is proved to
//! report the nearest hit whatever the spheres and the ray.
use vstd::prelude::*;

pub mod camera;
pub mod fixed;
pub mod ray;
pub mod render;
pub mod scalar;
pub mod scene;
pub mod shape;
pub mod sphere;
pub mod vector;
