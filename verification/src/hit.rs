//! What is known of the point where a ray meets a surface.

use vstd::prelude::*;
use crate::material::Material;
use crate::scalar::Scalar;
use crate::scalar::Vec3;

verus! {

/// One intersection of a ray with a surface.
#[derive(Clone, Copy, Debug)]
pub struct HitRecord {
    /// The distance along the ray, in lengths of its direction.
    pub t: Scalar,
    /// The point of the surface that was hit.
    pub position: Vec3,
    /// The unit normal of the surface at that point.
    pub normal: Vec3,
    /// The material of the surface.
    pub material: Material,
}

/// The point where a ray meets a surface, as the geometry gives it: what
/// a `HitRecord` holds but for the material, and the squared distance of
/// the point from the ray's origin.
#[derive(Clone, Copy, Debug)]
pub struct Contact {
    pub t: Scalar,
    pub position: Vec3,
    pub normal: Vec3,
    /// By this the nearest of several contacts is found.
    pub distance2: Scalar,
}

} // verus!
