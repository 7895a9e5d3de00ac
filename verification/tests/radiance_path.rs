use cgmath::Vector3;
use ray_tracer::camera::Camera;
use ray_tracer::hit::HitRecord;
use ray_tracer::hittable_list::HittableList;
use ray_tracer::material::Bounce;
use ray_tracer::material::Material;
use ray_tracer::radiance::color;
use ray_tracer::radiance::horizon_color;
use ray_tracer::radiance::window;
use ray_tracer::radiance::zenith_color;
use ray_tracer::radiance::Verdict;
use ray_tracer::radiance::MAX_DEPTH;
use ray_tracer::ray::Ray;
use ray_tracer::scalar::Scalar;
use ray_tracer::scalar::Vec3;

fn s(x: f32) -> Scalar {
    Scalar::from_bits(x.to_bits())
}

fn f(x: Scalar) -> f32 {
    f32::from_bits(x.to_bits())
}

fn v(x: f32, y: f32, z: f32) -> Vec3 {
    Vec3::new(s(x), s(y), s(z))
}

fn vector(a: Vec3) -> Vector3<f32> {
    Vector3::new(f(a.x), f(a.y), f(a.z))
}

fn mirror_hit() -> HitRecord {
    HitRecord {
        t: s(1.0),
        position: v(0.0, 0.0, -1.0),
        normal: v(0.0, 0.0, 1.0),
        material: Material::new_metallic(s(1.0), s(1.0), s(1.0), s(0.0)),
    }
}

fn sky(direction: Vector3<f32>) -> Vector3<f32> {
    let length = (direction.x * direction.x + direction.y * direction.y
        + direction.z * direction.z).sqrt();
    let t = 0.5 * (direction.y / length + 1.0);
    (1.0 - t) * vector(horizon_color()) + t * vector(zenith_color())
}

#[test]
fn the_depth_limit_is_fifty() {
    assert_eq!(MAX_DEPTH, 50);
}

#[test]
fn hits_are_looked_for_beyond_a_thousandth() {
    let (t_min, t_max) = window();
    assert_eq!(f(t_min), 0.001);
    assert_eq!(f(t_max), f32::MAX);
}

#[test]
fn the_sky_is_white_below_and_blue_above() {
    assert_eq!(vector(horizon_color()), Vector3::new(1.0, 1.0, 1.0));
    assert_eq!(vector(zenith_color()), Vector3::new(0.5, 0.7, 1.0));
    assert_eq!(sky(Vector3::new(0.0, 1.0, 0.0)), Vector3::new(0.5, 0.7, 1.0));
    assert_eq!(sky(Vector3::new(0.0, -1.0, 0.0)), Vector3::new(1.0, 1.0, 1.0));
}

#[test]
fn a_ray_that_hits_nothing_sees_the_sky() {
    for depth in [0u32, 1, 49, 50, 51, u32::MAX].iter() {
        assert!(matches!(color(None, *depth, MAX_DEPTH), Verdict::Sky));
    }
    assert!(matches!(color(None, 0, 0), Verdict::Sky));
}

#[test]
fn a_scene_without_spheres_shows_the_sky() {
    let world = HittableList::new();
    let nearest = world.hit(&Vec::new());
    assert!(nearest.is_none());
    assert!(matches!(color(nearest, 0, MAX_DEPTH), Verdict::Sky));
}

#[test]
fn a_hit_is_scattered_one_level_deeper() {
    match color(Some(mirror_hit()), 0, MAX_DEPTH) {
        Verdict::Scatter { record, deeper } => {
            assert_eq!(deeper, 1);
            assert_eq!(f(record.t), 1.0);
            assert_eq!(vector(record.position), Vector3::new(0.0, 0.0, -1.0));
        },
        other => panic!("{:?}", other),
    }
    match color(Some(mirror_hit()), 49, MAX_DEPTH) {
        Verdict::Scatter { deeper, .. } => assert_eq!(deeper, 50),
        other => panic!("{:?}", other),
    }
    match color(Some(mirror_hit()), u32::MAX - 1, u32::MAX) {
        Verdict::Scatter { deeper, .. } => assert_eq!(deeper, u32::MAX),
        other => panic!("{:?}", other),
    }
}

#[test]
fn a_hit_at_the_depth_limit_is_black() {
    assert!(matches!(color(Some(mirror_hit()), 50, MAX_DEPTH), Verdict::Black));
    assert!(matches!(color(Some(mirror_hit()), 51, MAX_DEPTH), Verdict::Black));
    assert!(matches!(color(Some(mirror_hit()), u32::MAX, u32::MAX), Verdict::Black));
    assert!(matches!(color(Some(mirror_hit()), 0, 0), Verdict::Black));
}

#[test]
fn a_path_between_mirrors_ends_after_fifty_bounces() {
    let mut depth: u32 = 0;
    let mut bounces: u32 = 0;
    let mut rays: u32 = 0;
    let black = loop {
        rays += 1;
        assert!(rays <= MAX_DEPTH + 1);
        match color(Some(mirror_hit()), depth, MAX_DEPTH) {
            Verdict::Scatter { record, deeper } => {
                let bounce = Bounce::Mirror { direction: v(0.0, 0.0, 1.0), facing: s(1.0) };
                assert!(record.material.scatter(record, bounce).is_some());
                bounces += 1;
                depth = deeper;
            },
            Verdict::Black => break true,
            Verdict::Sky => break false,
        }
    };
    assert!(black);
    assert_eq!(bounces, 50);
    assert_eq!(rays, 51);
}

#[test]
fn a_path_of_any_limit_ends_after_that_many_bounces() {
    for limit in [0u32, 1, 2, 7, 1000].iter() {
        let mut depth: u32 = 0;
        let mut bounces: u32 = 0;
        loop {
            match color(Some(mirror_hit()), depth, *limit) {
                Verdict::Scatter { deeper, .. } => {
                    bounces += 1;
                    depth = deeper;
                },
                Verdict::Black => break,
                Verdict::Sky => panic!("no sky between mirrors"),
            }
        }
        assert_eq!(bounces, *limit);
    }
}

fn ray_through(camera: &Camera, horizontal_offset: f32, vertical_offset: f32) -> Ray {
    let width = camera.width() as f32 / camera.height() as f32;
    let position = Vector3::new(0.0f32, 0.0, 0.0);
    let lower_left_corner = Vector3::new(-width, -1.0, -1.0);
    let horizontal_scale = Vector3::new(width * 2.0, 0.0, 0.0);
    let vertical_scale = Vector3::new(0.0f32, 2.0, 0.0);
    let destination = lower_left_corner + horizontal_offset * horizontal_scale
        + vertical_offset * vertical_scale - position;
    Ray::new(
        v(position.x, position.y, position.z),
        v(destination.x, destination.y, destination.z),
    )
}

#[test]
fn the_corners_of_the_image_are_the_corners_of_the_viewport() {
    let camera = Camera::new(200, 100).unwrap();
    let lower_left = ray_through(&camera, 0.0, 0.0);
    assert_eq!(vector(lower_left.origin()), Vector3::new(0.0, 0.0, 0.0));
    assert_eq!(vector(lower_left.direction()), Vector3::new(-2.0, -1.0, -1.0));
    let upper_right = ray_through(&camera, 1.0, 1.0);
    assert_eq!(vector(upper_right.direction()), Vector3::new(2.0, 1.0, -1.0));
    let middle = ray_through(&camera, 0.5, 0.5);
    assert_eq!(vector(middle.direction()), Vector3::new(0.0, 0.0, -1.0));
}

#[test]
fn samples_without_jitter_are_all_the_same() {
    let camera = Camera::new(200, 100).unwrap();
    let world = HittableList::new();
    let (x, y) = (50u32, 80u32);
    let samples = 4u32;

    let single = {
        let u = (x as f32 + 0.0) / camera.width() as f32;
        let w = (y as f32 + 0.0) / camera.height() as f32;
        let ray = ray_through(&camera, u, w);
        assert!(matches!(color(world.hit(&Vec::new()), 0, MAX_DEPTH), Verdict::Sky));
        sky(vector(ray.direction()))
    };

    let mut total = Vector3::new(0.0f32, 0.0, 0.0);
    for _ in 0..samples {
        let u = (x as f32 + 0.0) / camera.width() as f32;
        let w = (y as f32 + 0.0) / camera.height() as f32;
        let ray = ray_through(&camera, u, w);
        match color(world.hit(&Vec::new()), 0, MAX_DEPTH) {
            Verdict::Sky => total += sky(vector(ray.direction())),
            other => panic!("{:?}", other),
        }
    }
    assert_eq!(total / samples as f32, single);
}
