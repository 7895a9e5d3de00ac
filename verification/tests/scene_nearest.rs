use cgmath::InnerSpace;
use cgmath::MetricSpace;
use cgmath::Vector3;
use ray_tracer::hit::Contact;
use ray_tracer::hittable_list::HittableList;
use ray_tracer::material::Material;
use ray_tracer::ray::Ray;
use ray_tracer::scalar::Scalar;
use ray_tracer::scalar::Vec3;
use ray_tracer::scene::load_scene;
use ray_tracer::sphere::Roots;
use ray_tracer::sphere::Sphere;

fn s(x: f32) -> Scalar {
    Scalar::from_bits(x.to_bits())
}

fn f(x: Scalar) -> f32 {
    f32::from_bits(x.to_bits())
}

fn v(x: f32, y: f32, z: f32) -> Vec3 {
    Vec3::new(s(x), s(y), s(z))
}

fn vector(a: Vec3) -> Vector3<f32> {
    Vector3::new(f(a.x), f(a.y), f(a.z))
}

fn matte(r: f32, g: f32, b: f32) -> Material {
    Material::new_lambertian(s(r), s(g), s(b))
}

fn red(material: Material) -> f32 {
    match material {
        Material::Lambertian { albedo } => f(albedo.x),
        Material::Metallic { albedo, .. } => f(albedo.x),
        Material::Dielectric { .. } => 1.0,
    }
}

fn contact(sphere: &Sphere, ray: &Ray, t_min: f32, t_max: f32) -> Option<Contact> {
    let origin = vector(ray.origin());
    let center = vector(sphere.center());
    let oc = origin - center;
    let d = vector(ray.direction());
    let radius = f(sphere.radius());
    let a = d.dot(d);
    let b = oc.dot(d);
    let c = oc.dot(oc) - radius * radius;
    let discriminant = b * b - a * c;
    let root = discriminant.sqrt();
    let roots = Roots {
        leading: s(a),
        discriminant: s(discriminant),
        near: s((-b - root) / a),
        far: s((-b + root) / a),
    };
    let t = sphere.hit(roots, s(t_min), s(t_max))?;
    let position = origin + f(t) * d;
    let normal = (position - center).normalize();
    Some(Contact {
        t,
        position: v(position.x, position.y, position.z),
        normal: v(normal.x, normal.y, normal.z),
        distance2: s(position.distance2(origin)),
    })
}

fn reports(world: &HittableList, ray: &Ray) -> Vec<Option<Contact>> {
    let mut found = Vec::new();
    let mut i = 0;
    while i < world.len() {
        let sphere = world.get(i).unwrap();
        found.push(contact(&sphere, ray, 0.001, f32::MAX));
        i += 1;
    }
    found
}

fn at(distance2: f32) -> Option<Contact> {
    Some(Contact {
        t: s(distance2.sqrt()),
        position: v(0.0, 0.0, -distance2.sqrt()),
        normal: v(0.0, 0.0, 1.0),
        distance2: s(distance2),
    })
}

fn world_of(colours: &[f32]) -> HittableList {
    let mut world = HittableList::new();
    for &c in colours.iter() {
        world.insert(Sphere::new(v(0.0, 0.0, 0.0), s(1.0), matte(c, 0.0, 0.0)).unwrap());
    }
    world
}

#[test]
fn a_new_scene_is_empty() {
    let world = HittableList::new();
    assert_eq!(world.len(), 0);
    assert!(world.get(0).is_none());
    assert!(world.hit(&Vec::new()).is_none());
}

#[test]
fn spheres_stay_in_the_order_of_insertion() {
    let world = world_of(&[0.1, 0.2, 0.3]);
    assert_eq!(world.len(), 3);
    assert_eq!(red(world.get(0).unwrap().material()), 0.1);
    assert_eq!(red(world.get(1).unwrap().material()), 0.2);
    assert_eq!(red(world.get(2).unwrap().material()), 0.3);
    assert!(world.get(3).is_none());
    assert!(world.get(usize::MAX).is_none());
}

#[test]
fn the_nearer_of_two_spheres_is_hit_in_either_order() {
    let near = Sphere::new(v(0.0, 0.0, -2.0), s(0.5), matte(0.25, 0.0, 0.0)).unwrap();
    let far = Sphere::new(v(0.0, 0.0, -5.0), s(0.5), matte(0.75, 0.0, 0.0)).unwrap();
    let ray = Ray::new(v(0.0, 0.0, 0.0), v(0.0, 0.0, -1.0));

    let mut one = HittableList::new();
    one.insert(near);
    one.insert(far);
    let first = one.hit(&reports(&one, &ray)).unwrap();

    let mut other = HittableList::new();
    other.insert(far);
    other.insert(near);
    let second = other.hit(&reports(&other, &ray)).unwrap();

    assert_eq!(f(first.t), 1.5);
    assert_eq!(f(second.t), 1.5);
    assert_eq!(vector(first.position), Vector3::new(0.0, 0.0, -1.5));
    assert_eq!(vector(second.position), Vector3::new(0.0, 0.0, -1.5));
    assert_eq!(vector(first.normal), Vector3::new(0.0, 0.0, 1.0));
    assert_eq!(red(first.material), 0.25);
    assert_eq!(red(second.material), 0.25);
}

#[test]
fn the_nearest_is_found_by_the_squared_distance() {
    let world = world_of(&[0.1, 0.2, 0.3, 0.4]);
    let found = vec![at(9.0), at(4.0), at(1.0), at(16.0)];
    let hit = world.hit(&found).unwrap();
    assert_eq!(red(hit.material), 0.3);
    assert_eq!(f(hit.t), 1.0);
    let mut wrong_t = found.clone();
    wrong_t[3] = Some(Contact { t: s(0.5), ..wrong_t[3].unwrap() });
    assert_eq!(red(world.hit(&wrong_t).unwrap().material), 0.3);
}

#[test]
fn spheres_that_report_nothing_are_passed_over() {
    let world = world_of(&[0.1, 0.2, 0.3, 0.4]);
    assert!(world.hit(&vec![None, None, None, None]).is_none());
    assert_eq!(red(world.hit(&vec![None, None, None, at(4.0)]).unwrap().material), 0.4);
    assert_eq!(red(world.hit(&vec![None, at(4.0), None, None]).unwrap().material), 0.2);
    assert_eq!(red(world.hit(&vec![None, at(4.0), None, at(1.0)]).unwrap().material), 0.4);
    assert_eq!(red(world.hit(&vec![at(1.0), None, at(4.0), None]).unwrap().material), 0.1);
}

#[test]
fn only_the_reports_of_spheres_count() {
    let world = world_of(&[0.1, 0.2]);
    assert_eq!(red(world.hit(&vec![at(9.0), at(4.0), at(1.0)]).unwrap().material), 0.2);
    assert_eq!(red(world.hit(&vec![at(9.0)]).unwrap().material), 0.1);
    assert!(world.hit(&vec![None, None, at(1.0)]).is_none());
    assert!(world.hit(&Vec::new()).is_none());
    let empty = HittableList::new();
    assert!(empty.hit(&vec![at(1.0), at(2.0)]).is_none());
}

#[test]
fn of_two_equally_far_the_first_is_kept() {
    let world = world_of(&[0.1, 0.2, 0.3]);
    assert_eq!(red(world.hit(&vec![at(4.0), at(4.0), at(4.0)]).unwrap().material), 0.1);
    assert_eq!(red(world.hit(&vec![at(9.0), at(4.0), at(4.0)]).unwrap().material), 0.2);
    assert_eq!(red(world.hit(&vec![at(0.0), at(-0.0), None]).unwrap().material), 0.1);
}

#[test]
fn a_distance_that_is_not_a_number_never_wins_a_comparison() {
    let world = world_of(&[0.1, 0.2, 0.3]);
    let nan = f32::NAN;
    assert_eq!(red(world.hit(&vec![at(4.0), at(nan), at(9.0)]).unwrap().material), 0.1);
    assert_eq!(red(world.hit(&vec![at(4.0), at(nan), at(1.0)]).unwrap().material), 0.3);
    assert_eq!(red(world.hit(&vec![at(nan), at(4.0), at(1.0)]).unwrap().material), 0.1);
}

#[test]
fn the_camera_ray_meets_the_sphere_in_the_middle() {
    let world = load_scene();
    let ray = Ray::new(v(0.0, 0.0, 0.0), v(0.0, 0.0, -1.0));
    let found = reports(&world, &ray);
    assert!(found[0].is_some());
    assert!(found[1].is_none());
    assert!(found[2].is_none());
    assert!(found[3].is_none());
    let hit = world.hit(&found).unwrap();
    assert_eq!(f(hit.t), 0.5);
    assert_eq!(vector(hit.position), Vector3::new(0.0, 0.0, -0.5));
    match hit.material {
        Material::Lambertian { albedo } => {
            assert_eq!(vector(albedo), Vector3::new(0.1, 0.2, 0.5))
        },
        other => panic!("{:?}", other),
    }
}

#[test]
fn a_ray_upwards_leaves_the_scene() {
    let world = load_scene();
    let ray = Ray::new(v(0.0, 0.0, 0.0), v(0.0, 1.0, 0.0));
    assert!(world.hit(&reports(&world, &ray)).is_none());
}

#[test]
fn a_ray_downwards_meets_the_ground() {
    let world = load_scene();
    let ray = Ray::new(v(0.0, 0.0, 0.0), v(0.0, -1.0, 0.0));
    let hit = world.hit(&reports(&world, &ray)).unwrap();
    match hit.material {
        Material::Lambertian { albedo } => {
            assert_eq!(vector(albedo), Vector3::new(0.8, 0.8, 0.0))
        },
        other => panic!("{:?}", other),
    }
}

#[test]
fn the_scene_holds_its_four_spheres() {
    let world = load_scene();
    assert_eq!(world.len(), 4);

    let blue = world.get(0).unwrap();
    assert_eq!(vector(blue.center()), Vector3::new(0.0, 0.0, -1.0));
    assert_eq!(f(blue.radius()), 0.5);
    match blue.material() {
        Material::Lambertian { albedo } => {
            assert_eq!(vector(albedo), Vector3::new(0.1, 0.2, 0.5))
        },
        other => panic!("{:?}", other),
    }

    let metal = world.get(1).unwrap();
    assert_eq!(vector(metal.center()), Vector3::new(1.0, 0.0, -1.0));
    assert_eq!(f(metal.radius()), 0.5);
    match metal.material() {
        Material::Metallic { albedo, fuzziness } => {
            assert_eq!(vector(albedo), Vector3::new(0.8, 0.6, 0.2));
            assert_eq!(f(fuzziness), 1.0);
        },
        other => panic!("{:?}", other),
    }

    let glass = world.get(2).unwrap();
    assert_eq!(vector(glass.center()), Vector3::new(-1.0, 0.0, -1.0));
    assert_eq!(f(glass.radius()), 0.5);
    match glass.material() {
        Material::Dielectric { refractive_index } => assert_eq!(f(refractive_index), 1.5),
        other => panic!("{:?}", other),
    }

    let ground = world.get(3).unwrap();
    assert_eq!(vector(ground.center()), Vector3::new(0.0, -100.5, -1.0));
    assert_eq!(f(ground.radius()), 100.0);
    match ground.material() {
        Material::Lambertian { albedo } => {
            assert_eq!(vector(albedo), Vector3::new(0.8, 0.8, 0.0))
        },
        other => panic!("{:?}", other),
    }
}
