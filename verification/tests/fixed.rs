use raytrace::camera::CameraLookAtBuilder;
use raytrace::fixed::{Fixed, ONE};
use raytrace::ray::Ray;
use raytrace::render::{Jitter, Renderer};
use raytrace::scalar::Scalar;
use raytrace::scene::Scene;
use raytrace::shape::{Shape, ShapeList};
use raytrace::sphere::Sphere;
use raytrace::vector::Vector3;

fn fx(n: i64, d: i64) -> Fixed {
    Fixed::from_raw(n * ONE / d)
}

fn whole(n: i64) -> Fixed {
    Fixed::from_raw(n * ONE)
}

fn vec3(x: i64, y: i64, z: i64) -> Vector3<Fixed> {
    Vector3::new(whole(x), whole(y), whole(z))
}

fn value(x: Fixed) -> f64 {
    x.raw as f64 / ONE as f64
}

struct Corner;

impl Jitter<Fixed> for Corner {
    fn next(&mut self) -> Fixed {
        Fixed::from_raw(0)
    }
}

#[test]
fn one_is_two_to_the_sixteenth() {
    assert_eq!(ONE, 65536);
    assert_eq!(Fixed::from(1u32).raw, 65536);
    assert_eq!(Fixed::from(0u32).raw, 0);
    assert_eq!(Fixed::from(u32::MAX).raw, 4294967295 * 65536);
    assert_eq!(Fixed::from_raw(-7).raw, -7);
}

#[test]
fn fixed_adds_and_subtracts_raw_values() {
    assert_eq!(fx(3, 2) + fx(1, 4), fx(7, 4));
    assert_eq!(fx(3, 2) - fx(2, 1), fx(-1, 2));
    assert_eq!(-fx(3, 2), fx(-3, 2));
    assert_eq!(-Fixed::from_raw(0), Fixed::from_raw(0));
}

#[test]
fn fixed_saturates_at_both_ends() {
    let max = Fixed::from_raw(i64::MAX);
    let min = Fixed::from_raw(i64::MIN);
    assert_eq!(max + whole(1), max);
    assert_eq!(min - whole(1), min);
    assert_eq!(min + max, Fixed::from_raw(-1));
    assert_eq!(-min, max);
    assert_eq!(-max, Fixed::from_raw(i64::MIN + 1));
    assert_eq!(max * whole(2), max);
    assert_eq!(max * whole(-2), min);
    assert_eq!(min * min, max);
    assert_eq!(max / fx(1, 2), max);
    assert_eq!(min / fx(1, 2), min);
    assert_eq!(min / Fixed::from_raw(-1), max);
}

#[test]
fn fixed_multiplies_and_rounds_towards_zero() {
    assert_eq!(whole(3) * whole(-4), whole(-12));
    assert_eq!(fx(3, 2) * fx(1, 2), fx(3, 4));
    assert_eq!(Fixed::from_raw(1) * Fixed::from_raw(1), Fixed::from_raw(0));
    assert_eq!(Fixed::from_raw(3) * fx(1, 2), Fixed::from_raw(1));
    assert_eq!(Fixed::from_raw(-3) * fx(1, 2), Fixed::from_raw(-1));
    assert_eq!(Fixed::from_raw(-1) * Fixed::from_raw(1), Fixed::from_raw(0));
    assert_eq!(whole(0) * Fixed::from_raw(i64::MIN), whole(0));
}

#[test]
fn fixed_divides_and_rounds_towards_zero() {
    assert_eq!(whole(1) / whole(2), fx(1, 2));
    assert_eq!(whole(7) / whole(-2), fx(-7, 2));
    assert_eq!((whole(1) / whole(3)).raw, 21845);
    assert_eq!((whole(-1) / whole(3)).raw, -21845);
    assert_eq!((whole(1) / whole(-3)).raw, -21845);
    assert_eq!((whole(-1) / whole(-3)).raw, 21845);
    assert_eq!((whole(7) / whole(10)).raw, 45875);
    assert_eq!(Fixed::from_raw(1) / whole(2), Fixed::from_raw(0));
}

#[test]
fn fixed_division_by_zero_saturates() {
    let zero = whole(0);
    assert_eq!(whole(5) / zero, Fixed::from_raw(i64::MAX));
    assert_eq!(whole(-5) / zero, Fixed::from_raw(i64::MIN));
    assert_eq!(zero / zero, Fixed::from_raw(i64::MAX));
}

#[test]
fn fixed_compares_by_raw_value() {
    assert!(fx(1, 2) < fx(3, 4));
    assert!(fx(-1, 2) > fx(-3, 4));
    assert!(!(fx(1, 2) < fx(1, 2)));
    assert!(!(fx(1, 2) > fx(1, 2)));
    assert!(fx(1, 2) <= fx(1, 2));
    assert!(Fixed::from_raw(i64::MIN) < Fixed::from_raw(i64::MAX));
    assert_eq!(fx(1, 2).partial_cmp(&fx(1, 2)), Some(std::cmp::Ordering::Equal));
    assert_eq!(fx(1, 2).partial_cmp(&fx(2, 2)), Some(std::cmp::Ordering::Less));
    assert_eq!(fx(3, 2).partial_cmp(&fx(2, 2)), Some(std::cmp::Ordering::Greater));
}

#[test]
fn fixed_square_root_rounds_down() {
    assert_eq!(whole(4).sqrt(), whole(2));
    assert_eq!(whole(0).sqrt(), whole(0));
    assert_eq!(whole(1).sqrt(), whole(1));
    assert_eq!(fx(1, 4).sqrt(), fx(1, 2));
    assert_eq!(whole(2).sqrt().raw, 92681);
    assert_eq!(whole(10000).sqrt(), whole(100));
    assert_eq!(Fixed::from_raw(1).sqrt().raw, 256);
    assert_eq!(Fixed::from_raw(2).sqrt().raw, 362);
    let top = Fixed::from_raw(i64::MAX).sqrt().raw as i128;
    let n = i64::MAX as i128 * 65536;
    assert!(top * top <= n && n < (top + 1) * (top + 1));
}

#[test]
fn fixed_square_root_of_a_negative_number_is_zero() {
    assert_eq!(whole(-4).sqrt(), whole(0));
    assert_eq!(Fixed::from_raw(-1).sqrt(), whole(0));
    assert_eq!(Fixed::from_raw(i64::MIN).sqrt(), whole(0));
}

#[test]
fn fixed_degrees_to_radians() {
    assert_eq!(whole(180).to_radians().raw, 205887);
    assert_eq!(whole(0).to_radians().raw, 0);
    assert_eq!(whole(90).to_radians().raw, 102943);
    assert_eq!(whole(-180).to_radians().raw, -205887);
}

#[test]
fn fixed_tangent_near_zero() {
    assert_eq!(whole(0).tan(), whole(0));
    let quarter = whole(45).to_radians().tan();
    assert!((value(quarter) - 1.0).abs() < 1e-3);
    let sixth = whole(30).to_radians().tan();
    assert!((value(sixth) - 0.5773502691896257).abs() < 1e-3);
    let down = whole(-45).to_radians().tan();
    assert!((value(down) + 1.0).abs() < 1e-3);
    let small = whole(15).to_radians().tan();
    assert!((value(small) - 0.2679491924311227).abs() < 1e-3);
}

#[test]
fn fixed_largest_is_the_end_of_the_range() {
    assert_eq!(Fixed::largest().raw, i64::MAX);
    assert!(whole(1_000_000) < Fixed::largest());
}

#[test]
fn fixed_sphere_straight_ahead_is_hit_at_half() {
    let s = Sphere::new(vec3(0, 0, -1), fx(1, 2));
    let r = Ray::new(vec3(0, 0, 0), vec3(0, 0, -1));
    let h = s.hit(&r, whole(0), Fixed::largest()).unwrap();
    assert_eq!(h.t, fx(1, 2));
    assert_eq!(h.p, Vector3::new(whole(0), whole(0), fx(-1, 2)));
    assert_eq!(h.n, vec3(0, 0, 1));
    let h = s.hit(&r, fx(3, 5), Fixed::largest()).unwrap();
    assert_eq!(h.t, fx(3, 2));
    assert_eq!(h.n, vec3(0, 0, -1));
    assert!(s.hit(&r, whole(0), fx(2, 5)).is_none());
}

#[test]
fn fixed_tangent_ray_is_a_miss() {
    let s = Sphere::new(vec3(0, 0, -1), fx(1, 2));
    let r = Ray::new(Vector3::new(fx(1, 2), whole(0), whole(0)), vec3(0, 0, -1));
    assert!(s.hit(&r, whole(0), Fixed::largest()).is_none());
}

#[test]
fn fixed_nearest_sphere_wins_in_every_order() {
    let orders: [[i64; 3]; 6] =
        [[-1, -3, -5], [-1, -5, -3], [-3, -1, -5], [-3, -5, -1], [-5, -1, -3], [-5, -3, -1]];
    let r = Ray::new(vec3(0, 0, 0), vec3(0, 0, -1));
    for order in orders.iter() {
        let mut list = ShapeList::new();
        for z in order.iter() {
            list.add(Sphere::new(vec3(0, 0, *z), fx(1, 2)));
        }
        let h = list.hit(&r, whole(0), Fixed::largest()).unwrap();
        assert_eq!(h.t, fx(1, 2));
        let h = list.hit(&r, whole(2), Fixed::largest()).unwrap();
        assert_eq!(h.t, fx(5, 2));
    }
}

#[test]
fn fixed_look_at_camera_spans_the_frustum() {
    let mut b = CameraLookAtBuilder::new();
    let cam = b.lookfrom(vec3(0, 0, 0)).lookat(vec3(0, 0, -1)).vup(vec3(0, 1, 0)).vfov(whole(90))
        .aspect(whole(1)).finalize();
    let low = cam.get_ray(&whole(0), &whole(0));
    let high = cam.get_ray(&whole(1), &whole(1));
    assert_eq!(low.origin, vec3(0, 0, 0));
    assert!((value(low.direction.x) + 1.0).abs() < 1e-3);
    assert!((value(low.direction.y) + 1.0).abs() < 1e-3);
    assert_eq!(low.direction.z, whole(-1));
    assert!((value(high.direction.x) - 1.0).abs() < 1e-3);
    assert!((value(high.direction.y) - 1.0).abs() < 1e-3);
    assert_eq!(high.direction.z, whole(-1));
}

#[test]
fn fixed_render_two_spheres_without_jitter() {
    let renderer: Renderer<ShapeList<Sphere<Fixed>>> = Renderer::new(200, 100, 1);
    let pixels = renderer.render(&mut Corner);
    assert_eq!(pixels.len(), 200 * 100);
    assert_eq!(pixels[50 * 200 + 100], Vector3::new(fx(1, 2), fx(1, 2), whole(1)));
    let scene: Scene<ShapeList<Sphere<Fixed>>> = Scene::new();
    let up = scene.get_camera().get_ray(&fx(10, 200), &fx(90, 100));
    let sky = Scene::<ShapeList<Sphere<Fixed>>>::background_sky(&up.direction);
    assert_eq!(pixels[90 * 200 + 10], sky);
    let y = value(up.direction.y) / (value(up.direction.x).powi(2)
        + value(up.direction.y).powi(2) + 1.0).sqrt();
    let t = 0.5 * (y + 1.0);
    assert!((value(sky.x) - (1.0 - t + 0.5 * t)).abs() < 1e-3);
    assert!((value(sky.y) - (1.0 - t + 0.7 * t)).abs() < 1e-3);
    assert!((value(sky.z) - 1.0).abs() < 1e-3);
}
