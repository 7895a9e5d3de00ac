//! The scene that is rendered: three small spheres on a large one.

use vstd::prelude::*;
use crate::hittable_list::HittableList;
use crate::material::Material;
use crate::scalar::Scalar;
use crate::scalar::Vec3;
use crate::scalar::HALF_BITS;
use crate::scalar::ONE_BITS;
use crate::sphere::Sphere;

verus! {

/// The bit pattern of `0.1`, to single precision.
pub const TENTH_BITS: u32 = 0x3DCC_CCCD;

/// The bit pattern of `0.2`, to single precision.
pub const FIFTH_BITS: u32 = 0x3E4C_CCCD;

/// The bit pattern of `0.6`, to single precision.
pub const THREE_FIFTHS_BITS: u32 = 0x3F19_999A;

/// The bit pattern of `0.8`, to single precision.
pub const FOUR_FIFTHS_BITS: u32 = 0x3F4C_CCCD;

/// The bit pattern of `1.5`.
pub const THREE_HALVES_BITS: u32 = 0x3FC0_0000;

/// The bit pattern of `100`.
pub const HUNDRED_BITS: u32 = 0x42C8_0000;

/// The bit pattern of `-1`.
pub const MINUS_ONE_BITS: u32 = 0xBF80_0000;

/// The bit pattern of `-100.5`.
pub const GROUND_BITS: u32 = 0xC2C9_0000;

/// The spheres of the scene, each with its centre, radius and material:
/// a blue matte sphere in the middle, a blurred golden mirror to its
/// right, a glass sphere to its left, and under them a yellow matte
/// sphere so large that it is the ground.
pub open spec fn spheres() -> Seq<(Vec3, Scalar, Material)> {
    seq![
        (
            Vec3::spec_from_bits(0, 0, MINUS_ONE_BITS),
            Scalar { bits: HALF_BITS },
            Material::Lambertian {
                albedo: Vec3::spec_from_bits(TENTH_BITS, FIFTH_BITS, HALF_BITS),
            },
        ),
        (
            Vec3::spec_from_bits(ONE_BITS, 0, MINUS_ONE_BITS),
            Scalar { bits: HALF_BITS },
            Material::Metallic {
                albedo: Vec3::spec_from_bits(FOUR_FIFTHS_BITS, THREE_FIFTHS_BITS, FIFTH_BITS),
                fuzziness: Scalar { bits: ONE_BITS },
            },
        ),
        (
            Vec3::spec_from_bits(MINUS_ONE_BITS, 0, MINUS_ONE_BITS),
            Scalar { bits: HALF_BITS },
            Material::Dielectric { refractive_index: Scalar { bits: THREE_HALVES_BITS } },
        ),
        (
            Vec3::spec_from_bits(0, GROUND_BITS, MINUS_ONE_BITS),
            Scalar { bits: HUNDRED_BITS },
            Material::Lambertian {
                albedo: Vec3::spec_from_bits(FOUR_FIFTHS_BITS, FOUR_FIFTHS_BITS, 0),
            },
        ),
    ]
}

/// Builds the scene.
pub fn load_scene() -> (world: HittableList)
    ensures
        world@.map_values(|sphere: Sphere| sphere@) == spheres(),
{
    let lambertian_blue = Material::new_lambertian(
        Scalar::from_bits(TENTH_BITS),
        Scalar::from_bits(FIFTH_BITS),
        Scalar::from_bits(HALF_BITS),
    );
    let lambertian_yellow = Material::new_lambertian(
        Scalar::from_bits(FOUR_FIFTHS_BITS),
        Scalar::from_bits(FOUR_FIFTHS_BITS),
        Scalar::from_bits(0),
    );
    let metallic = Material::new_metallic(
        Scalar::from_bits(FOUR_FIFTHS_BITS),
        Scalar::from_bits(THREE_FIFTHS_BITS),
        Scalar::from_bits(FIFTH_BITS),
        Scalar::from_bits(ONE_BITS),
    );
    let dielectric = Material::new_dielectric(Scalar::from_bits(THREE_HALVES_BITS)).unwrap();

    let half = Scalar::from_bits(HALF_BITS);
    let sphere_zero = Sphere::new(
        Vec3::from_bits(0, 0, MINUS_ONE_BITS),
        half,
        lambertian_blue,
    ).unwrap();
    let sphere_one = Sphere::new(
        Vec3::from_bits(ONE_BITS, 0, MINUS_ONE_BITS),
        half,
        metallic,
    ).unwrap();
    let sphere_two = Sphere::new(
        Vec3::from_bits(MINUS_ONE_BITS, 0, MINUS_ONE_BITS),
        half,
        dielectric,
    ).unwrap();
    let big_sphere = Sphere::new(
        Vec3::from_bits(0, GROUND_BITS, MINUS_ONE_BITS),
        Scalar::from_bits(HUNDRED_BITS),
        lambertian_yellow,
    ).unwrap();

    let mut world = HittableList::new();
    world.insert(sphere_zero);
    world.insert(sphere_one);
    world.insert(sphere_two);
    world.insert(big_sphere);
    assert(world@.map_values(|sphere: Sphere| sphere@) =~= spheres());
    world
}

} // verus!
