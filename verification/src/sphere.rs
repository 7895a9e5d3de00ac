//! Spheres, and the choice between the two points where a ray crosses one.

use vstd::prelude::*;
use crate::config::InvalidConfig;
use crate::hit::Contact;
use crate::hit::HitRecord;
use crate::material::Material;
use crate::scalar::Scalar;
use crate::scalar::Vec3;

verus! {

/// The quadratic equation of a ray and a sphere, solved.
///
/// With `oc` the vector from the centre to the ray's origin and `d` the
/// ray's direction, the distances `t` at which the ray crosses the sphere
/// solve `a t^2 + 2 b t + c = 0`, where `a = d.d`, `b = oc.d` and
/// `c = oc.oc - radius^2`.
#[derive(Clone, Copy, Debug)]
pub struct Roots {
    /// `a`, the squared length of the direction.
    pub leading: Scalar,
    /// `b^2 - a c`.
    pub discriminant: Scalar,
    /// `(-b - sqrt(discriminant)) / a`, the smaller root.
    pub near: Scalar,
    /// `(-b + sqrt(discriminant)) / a`, the larger root.
    pub far: Scalar,
}

/// `t` lies strictly between `t_min` and `t_max`.
pub open spec fn within(t: Scalar, t_min: Scalar, t_max: Scalar) -> bool {
    t.less(t_max) && t_min.less(t)
}

/// The distance at which a ray with these roots first crosses the sphere
/// inside the window from `t_min` to `t_max`, both ends excluded.
///
/// There is none unless the direction has a length and the discriminant is
/// greater than zero: a ray that only touches the sphere misses it. The
/// smaller root is taken if it lies in the window, else the larger one if
/// that does.
pub open spec fn first_crossing(roots: Roots, t_min: Scalar, t_max: Scalar) -> Option<Scalar> {
    if !roots.leading.positive() || !roots.discriminant.positive() {
        None
    } else if within(roots.near, t_min, t_max) {
        Some(roots.near)
    } else if within(roots.far, t_min, t_max) {
        Some(roots.far)
    } else {
        None
    }
}

/// A sphere of one material.
#[derive(Clone, Copy, Debug)]
pub struct Sphere {
    center: Vec3,
    radius: Scalar,
    material: Material,
}

impl View for Sphere {
    type V = (Vec3, Scalar, Material);

    /// The centre, the radius and the material.
    closed spec fn view(&self) -> (Vec3, Scalar, Material) {
        (self.center, self.radius, self.material)
    }
}

impl Sphere {
    /// The radius of every sphere is greater than zero.
    #[verifier::type_invariant]
    closed spec fn positive_radius(self) -> bool {
        self.radius.positive()
    }

    /// The sphere round `center`. Its radius must be greater than zero.
    pub fn new(center: Vec3, radius: Scalar, material: Material) -> (r: Result<
        Sphere,
        InvalidConfig,
    >)
        ensures
            radius.positive() <==> r is Ok,
            r matches Ok(sphere) ==> sphere@ == (center, radius, material),
            r matches Err(e) ==> e == InvalidConfig::Radius,
    {
        if radius.is_positive() {
            Ok(Sphere { center, radius, material })
        } else {
            Err(InvalidConfig::Radius)
        }
    }

    /// The centre of the sphere.
    pub fn center(&self) -> (r: Vec3)
        ensures
            r == self@.0,
    {
        self.center
    }

    /// The radius of the sphere, which is greater than zero.
    pub fn radius(&self) -> (r: Scalar)
        ensures
            r == self@.1,
            r.positive(),
    {
        proof {
            use_type_invariant(self);
        }
        self.radius
    }

    /// The material of which the sphere is made.
    pub fn material(&self) -> (r: Material)
        ensures
            r == self@.2,
    {
        self.material
    }

    /// Decides whether and where a ray hits the sphere within the window
    /// from `t_min` to `t_max`, given the roots of their equation: at the
    /// nearer crossing that lies in the window, and not at all where the
    /// discriminant is not greater than zero.
    pub fn hit(&self, roots: Roots, t_min: Scalar, t_max: Scalar) -> (t: Option<Scalar>)
        ensures
            t == first_crossing(roots, t_min, t_max),
            t matches Some(at) ==> within(at, t_min, t_max) && (at == roots.near || at
                == roots.far),
            !roots.discriminant.positive() ==> t is None,
    {
        if !roots.leading.is_positive() || !roots.discriminant.is_positive() {
            return None;
        }
        if roots.near.lt(t_max) && roots.near.gt(t_min) {
            return Some(roots.near);
        }
        if roots.far.lt(t_max) && roots.far.gt(t_min) {
            return Some(roots.far);
        }
        None
    }

    /// The record of a hit on this sphere: the contact, with the sphere's
    /// material.
    pub open spec fn spec_record(self, contact: Contact) -> HitRecord {
        HitRecord {
            t: contact.t,
            position: contact.position,
            normal: contact.normal,
            material: self@.2,
        }
    }

    /// The record of a hit on this sphere at `contact`.
    pub fn record(&self, contact: Contact) -> (r: HitRecord)
        ensures
            r == self.spec_record(contact),
    {
        HitRecord {
            t: contact.t,
            position: contact.position,
            normal: contact.normal,
            material: self.material,
        }
    }
}

} // verus!
