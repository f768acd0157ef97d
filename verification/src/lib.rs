//! Geometric-intersection and light-transport core of a path tracer.
//!
//! Given a ray, a scene of surfaces and a material model, the crate decides
//! whether and where the ray meets the scene, and how light is scattered or
//! given off at that point. Everything is computed in saturating fixed-point
//! arithmetic, so that every query is total, exact and the same on every
//! machine; the contracts say which value comes out.
//!
//! - `scalar`, `vec3`, `colour`, `ray`, `aabb`: the value types.
//! - `texture`: a colour for every surface coordinate.
//! - `sampling`: the caller-owned random source.
//! - `hittable`: what a ray can hit, the record of a hit, and the list that
//!   answers for all of its members.
//! - `sphere`: the primitive shape.
//! - `material`: diffuse, metal, dielectric and emissive surfaces.

pub mod aabb;
pub mod colour;
pub mod hittable;
pub mod material;
pub mod ray;
pub mod sampling;
pub mod scalar;
pub mod sphere;
pub mod texture;
pub mod vec3;
