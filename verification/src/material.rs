//! What a surface does with the light that reaches it.

use vstd::prelude::*;
use crate::config::InvalidConfig;
use crate::hit::HitRecord;
use crate::ray::Ray;
use crate::scalar::Scalar;
use crate::scalar::Vec3;

verus! {

/// The ray that leaves a surface, and the colour by which the light that
/// comes back along it is multiplied.
#[derive(Clone, Copy, Debug)]
pub struct ScatteredRay {
    pub ray: Ray,
    pub attenuation: Vec3,
}

/// The kinds of surface.
#[derive(Clone, Copy, Debug)]
pub enum Material {
    /// A matte surface: light leaves it in every direction.
    Lambertian { albedo: Vec3 },
    /// A mirror, blurred by `fuzziness`: 0 is a perfect mirror.
    Metallic { albedo: Vec3, fuzziness: Scalar },
    /// Glass or water: light passes through and is bent.
    Dielectric { refractive_index: Scalar },
}

/// The directions that were computed for one bounce, each kind of surface
/// having its own.
#[derive(Clone, Copy, Debug)]
pub enum Bounce {
    /// Off a matte surface: the normal plus a random point of the unit
    /// sphere.
    Diffuse { direction: Vec3 },
    /// Off a mirror: the mirrored direction plus the blur, and the dot
    /// product of that sum with the normal.
    Mirror { direction: Vec3, facing: Scalar },
    /// Through a dielectric: the bent direction, unless all light is
    /// reflected, and the mirrored direction.
    Glass { refracted: Option<Vec3>, reflected: Vec3 },
}

/// The side of a dielectric surface that a ray meets.
#[derive(Clone, Copy, Debug)]
pub struct Interface {
    /// The normal on the side from which the ray comes.
    pub normal: Vec3,
    /// The ray leaves the medium: the ratio of the indices is one over the
    /// refractive index, not the index itself.
    pub inverted: bool,
}

/// The side of the surface that a ray meets, where `facing` is the dot
/// product of its direction with `normal`.
pub open spec fn spec_orient(normal: Vec3, facing: Scalar) -> Interface {
    if facing.positive() {
        Interface { normal: normal.spec_neg(), inverted: true }
    } else {
        Interface { normal, inverted: false }
    }
}

/// Tells whether a ray enters or leaves a dielectric. A ray that runs with
/// the normal is inside and leaving: it sees the opposite normal and the
/// inverse ratio.
pub fn orient(normal: Vec3, facing: Scalar) -> (r: Interface)
    ensures
        r == spec_orient(normal, facing),
{
    if facing.is_positive() {
        Interface { normal: normal.neg(), inverted: true }
    } else {
        Interface { normal, inverted: false }
    }
}

/// Snell's law has a solution exactly when its discriminant is greater
/// than zero. Otherwise all light is reflected.
pub open spec fn spec_refract(bent: Vec3, discriminant: Scalar) -> Option<Vec3> {
    if discriminant.positive() {
        Some(bent)
    } else {
        None
    }
}

/// The refracted direction `bent`, if the discriminant allows refraction.
pub fn refract(bent: Vec3, discriminant: Scalar) -> (r: Option<Vec3>)
    ensures
        r == spec_refract(bent, discriminant),
{
    if discriminant.is_positive() {
        Some(bent)
    } else {
        None
    }
}

/// A random point is kept if its squared distance from the centre is not
/// at least one.
pub open spec fn spec_in_unit_sphere(distance2: Scalar) -> bool {
    !Scalar::spec_one().at_most(distance2)
}

/// Tells whether a point drawn from the unit cube lies in the unit sphere,
/// by its squared distance from the centre.
pub fn in_unit_sphere(distance2: Scalar) -> (r: bool)
    ensures
        r == spec_in_unit_sphere(distance2),
{
    !distance2.ge(Scalar::one())
}

impl Material {
    /// A matte surface of the colour `(r, g, b)`.
    pub fn new_lambertian(r: Scalar, g: Scalar, b: Scalar) -> (m: Material)
        ensures
            m == (Material::Lambertian { albedo: Vec3 { x: r, y: g, z: b } }),
    {
        Material::Lambertian { albedo: Vec3::new(r, g, b) }
    }

    /// A mirror of the colour `(r, g, b)`, blurred by `fuzziness`.
    pub fn new_metallic(r: Scalar, g: Scalar, b: Scalar, fuzziness: Scalar) -> (m: Material)
        ensures
            m == (Material::Metallic { albedo: Vec3 { x: r, y: g, z: b }, fuzziness }),
    {
        Material::Metallic { albedo: Vec3::new(r, g, b), fuzziness }
    }

    /// A transparent medium. Its refractive index must be greater than zero.
    pub fn new_dielectric(refractive_index: Scalar) -> (m: Result<Material, InvalidConfig>)
        ensures
            refractive_index.positive() ==> m == Ok::<Material, InvalidConfig>(
                Material::Dielectric { refractive_index },
            ),
            !refractive_index.positive() ==> m == Err::<Material, InvalidConfig>(
                InvalidConfig::RefractiveIndex,
            ),
    {
        if refractive_index.is_positive() {
            Ok(Material::Dielectric { refractive_index })
        } else {
            Err(InvalidConfig::RefractiveIndex)
        }
    }

    /// The colour by which this material multiplies the light that it
    /// passes on: its albedo, and white for a dielectric.
    pub open spec fn attenuation(self) -> Vec3 {
        match self {
            Material::Lambertian { albedo } => albedo,
            Material::Metallic { albedo, .. } => albedo,
            Material::Dielectric { .. } => Vec3::spec_splat(Scalar::spec_one()),
        }
    }

    /// The material takes all the light of the bounce away. Only a mirror
    /// does, and only where the blurred reflection points into the surface
    /// or along it.
    pub open spec fn absorbs(self, bounce: Bounce) -> bool {
        self is Metallic && (bounce matches Bounce::Mirror { facing, .. } && facing.at_most(
            Scalar::spec_zero(),
        ))
    }

    /// The outcome of a bounce off this material at `record`: the origin
    /// and the direction of the ray that leaves, and its attenuation; or
    /// `None` where the light is absorbed.
    pub open spec fn scattered(self, record: HitRecord, bounce: Bounce) -> Option<
        ((Vec3, Vec3), Vec3),
    > {
        if self.absorbs(bounce) {
            None
        } else {
            Some(((record.position, bounce.outgoing()), self.attenuation()))
        }
    }

    /// Decides what becomes of a ray that hit this material at `record`:
    /// the ray that leaves and its attenuation, or `None` if the light is
    /// absorbed.
    ///
    /// The ray leaves the point of the hit in the direction that `bounce`
    /// gives. A matte surface and a dielectric never absorb. A matte
    /// surface attenuates by exactly its albedo, a dielectric not at all.
    pub fn scatter(&self, record: HitRecord, bounce: Bounce) -> (r: Option<ScatteredRay>)
        ensures
            r is None <==> self.absorbs(bounce),
            r matches Some(s) ==> s.ray@ == (record.position, bounce.outgoing()) && s.attenuation
                == self.attenuation(),
            r matches Some(s) ==> self.scattered(record, bounce) == Some((s.ray@, s.attenuation)),
            r is None ==> self.scattered(record, bounce) is None,
            self matches Material::Lambertian { albedo } ==> r is Some && r->0.attenuation
                == albedo,
            self is Dielectric ==> r is Some && r->0.attenuation == Vec3::spec_splat(
                Scalar::spec_one(),
            ),
    {
        let direction = match bounce {
            Bounce::Diffuse { direction } => direction,
            Bounce::Mirror { direction, .. } => direction,
            Bounce::Glass { refracted: Some(bent), .. } => bent,
            Bounce::Glass { refracted: None, reflected } => reflected,
        };
        let ray = Ray::new(record.position, direction);
        match *self {
            Material::Lambertian { albedo } => Some(ScatteredRay { ray, attenuation: albedo }),
            Material::Metallic { albedo, .. } => {
                let absorbed = match bounce {
                    Bounce::Mirror { facing, .. } => facing.le(Scalar::zero()),
                    _ => false,
                };
                if absorbed {
                    None
                } else {
                    Some(ScatteredRay { ray, attenuation: albedo })
                }
            },
            Material::Dielectric { .. } => Some(ScatteredRay { ray, attenuation: Vec3::ones() }),
        }
    }
}

impl Bounce {
    /// The direction in which the light goes on: for glass the bent
    /// direction, and the mirrored one where there is none.
    pub open spec fn outgoing(self) -> Vec3 {
        match self {
            Bounce::Diffuse { direction } => direction,
            Bounce::Mirror { direction, .. } => direction,
            Bounce::Glass { refracted: Some(bent), .. } => bent,
            Bounce::Glass { refracted: None, reflected } => reflected,
        }
    }
}

} // verus!
