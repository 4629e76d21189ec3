use raytracer::error::ConfigError;
use raytracer::hittable::HitRecord;
use raytracer::hittable_list::closest_hit;
use raytracer::scalar::Scalar;
use raytracer::sphere::{Roots, Sphere};
use raytracer::vec3::Vec3;

fn s(x: f64) -> Scalar {
    Scalar::from_bits(x.to_bits())
}

fn f(x: Scalar) -> f64 {
    f64::from_bits(x.to_bits())
}

fn v(p: [f64; 3]) -> Vec3 {
    Vec3::new(s(p[0]), s(p[1]), s(p[2]))
}

fn a(p: Vec3) -> [f64; 3] {
    [f(p.x()), f(p.y()), f(p.z())]
}

fn dot(u: [f64; 3], w: [f64; 3]) -> f64 {
    u[0] * w[0] + u[1] * w[1] + u[2] * w[2]
}

fn sub(u: [f64; 3], w: [f64; 3]) -> [f64; 3] {
    [u[0] - w[0], u[1] - w[1], u[2] - w[2]]
}

fn at(origin: [f64; 3], direction: [f64; 3], t: f64) -> [f64; 3] {
    [origin[0] + t * direction[0], origin[1] + t * direction[1], origin[2] + t * direction[2]]
}

fn roots(center: [f64; 3], radius: f64, origin: [f64; 3], direction: [f64; 3]) -> Roots {
    let oc = sub(origin, center);
    let aa = dot(direction, direction);
    let h = dot(direction, oc);
    let c = dot(oc, oc) - radius * radius;
    let d = h * h - aa * c;
    let sq = d.sqrt();
    Roots::new(s(d), s((-h - sq) / aa), s((-h + sq) / aa))
}

fn record(center: [f64; 3], radius: f64, origin: [f64; 3], direction: [f64; 3], t: f64) -> HitRecord {
    let p = at(origin, direction, t);
    let d = sub(p, center);
    let outward = [d[0] / radius, d[1] / radius, d[2] / radius];
    let mut rec = HitRecord::new(v(p), s(t), v(outward), 0);
    rec.set_face_normal(s(dot(direction, outward)), v(outward));
    rec
}

#[test]
fn sphere_needs_a_positive_radius() {
    let c = v([0.0, 0.0, -1.0]);
    assert!(Sphere::new(c, s(0.5), 3).is_ok());
    let made = Sphere::new(c, s(0.5), 3).unwrap();
    assert_eq!(f(made.radius), 0.5);
    assert_eq!(made.material, 3);
    assert_eq!(a(made.center), [0.0, 0.0, -1.0]);
    assert_eq!(Sphere::new(c, s(0.0), 0).unwrap_err(), ConfigError::NonPositiveRadius);
    assert_eq!(Sphere::new(c, s(-0.0), 0).unwrap_err(), ConfigError::NonPositiveRadius);
    assert_eq!(Sphere::new(c, s(-2.0), 0).unwrap_err(), ConfigError::NonPositiveRadius);
    assert_eq!(Sphere::new(c, s(f64::NAN), 0).unwrap_err(), ConfigError::NonPositiveRadius);
}

#[test]
fn ray_aimed_at_the_centre_takes_the_nearer_root() {
    let center = [0.0, 0.0, -1.0];
    let origin = [0.0, 0.0, 0.0];
    let direction = [0.0, 0.0, -1.0];
    let r = roots(center, 0.5, origin, direction);
    let t = r.select(s(0.001), s(f64::INFINITY)).unwrap();
    assert_eq!(f(t), 0.5);
    let rec = record(center, 0.5, origin, direction, f(t));
    assert_eq!(a(rec.p), [0.0, 0.0, -0.5]);
    assert_eq!(a(rec.normal), [0.0, 0.0, 1.0]);
    assert!(rec.front_face);
    assert_eq!(f(rec.t), 0.5);
}

#[test]
fn ray_from_inside_takes_the_farther_root_and_turns_the_normal() {
    let center = [0.0, 0.0, -1.0];
    let origin = [0.0, 0.0, -1.0];
    let direction = [0.0, 0.0, -1.0];
    let r = roots(center, 0.5, origin, direction);
    assert_eq!(f(r.near), -0.5);
    assert_eq!(f(r.far), 0.5);
    let t = r.select(s(0.001), s(f64::INFINITY)).unwrap();
    assert_eq!(f(t), 0.5);
    let rec = record(center, 0.5, origin, direction, f(t));
    assert_eq!(a(rec.p), [0.0, 0.0, -1.5]);
    assert!(!rec.front_face);
    assert_eq!(a(rec.normal), [0.0, 0.0, 1.0]);
    assert!(dot(a(rec.normal), direction) <= 0.0);
}

#[test]
fn ray_that_passes_by_has_no_root() {
    let r = roots([0.0, 0.0, -1.0], 0.5, [0.0, 0.0, 0.0], [0.0, 1.0, 0.0]);
    assert!(f(r.discriminant) < 0.0);
    assert!(r.select(s(0.001), s(f64::INFINITY)).is_none());
}

#[test]
fn roots_on_the_bounds_are_not_inside() {
    let r = Roots::new(s(1.0), s(2.0), s(5.0));
    assert_eq!(f(r.select(s(1.0), s(10.0)).unwrap()), 2.0);
    assert_eq!(f(r.select(s(2.0), s(10.0)).unwrap()), 5.0);
    assert_eq!(f(r.select(s(1.0), s(2.0000000000000004)).unwrap()), 2.0);
    assert!(r.select(s(2.0), s(5.0)).is_none());
    assert!(r.select(s(5.0), s(10.0)).is_none());
    assert!(r.select(s(0.0), s(2.0)).is_none());
    assert_eq!(f(Roots::new(s(0.0), s(3.0), s(3.0)).select(s(0.0), s(4.0)).unwrap()), 3.0);
    assert_eq!(f(Roots::new(s(-0.0), s(3.0), s(3.0)).select(s(0.0), s(4.0)).unwrap()), 3.0);
}

#[test]
fn undefined_roots_are_never_reported() {
    let nan = f64::NAN;
    assert!(Roots::new(s(nan), s(nan), s(nan)).select(s(0.001), s(f64::INFINITY)).is_none());
    assert!(Roots::new(s(1.0), s(nan), s(nan)).select(s(0.001), s(f64::INFINITY)).is_none());
    assert_eq!(
        f(Roots::new(s(1.0), s(nan), s(4.0)).select(s(0.001), s(f64::INFINITY)).unwrap()),
        4.0
    );
    assert!(Roots::new(s(1.0), s(1.0), s(2.0)).select(s(nan), s(f64::INFINITY)).is_none());
    assert!(Roots::new(s(1.0), s(1.0), s(2.0)).select(s(0.0), s(nan)).is_none());
    assert!(Roots::new(s(-1.0), s(1.0), s(2.0)).select(s(0.0), s(9.0)).is_none());
}

#[test]
fn reported_hits_lie_inside_the_interval_and_face_the_ray() {
    let centers = [[0.0, 0.0, -1.0], [0.3, -0.2, -2.0], [-1.0, 0.5, 0.5], [0.0, -100.5, -1.0]];
    let radii = [0.5, 1.0, 0.25, 100.0];
    let origins = [[0.0, 0.0, 0.0], [0.1, 0.2, -1.1], [3.0, 1.0, 2.0]];
    let directions = [
        [0.0, 0.0, -1.0],
        [0.1, -0.3, -1.0],
        [-1.0, -0.2, -0.6],
        [0.0, -1.0, 0.0],
        [2.0, 0.5, 0.1],
    ];
    let bounds = [(0.001, f64::INFINITY), (0.001, 1.0), (0.5, 3.0), (-5.0, 0.2)];
    let mut hits = 0;
    for k in 0..centers.len() {
        for origin in origins {
            for direction in directions {
                for (t_min, t_max) in bounds {
                    let r = roots(centers[k], radii[k], origin, direction);
                    if let Some(t) = r.select(s(t_min), s(t_max)) {
                        hits += 1;
                        assert!(t_min < f(t) && f(t) < t_max);
                        let rec = record(centers[k], radii[k], origin, direction, f(t));
                        assert!(dot(a(rec.normal), direction) <= 0.0);
                        let length = dot(a(rec.normal), a(rec.normal)).sqrt();
                        assert!((length - 1.0).abs() < 1e-9);
                    }
                }
            }
        }
    }
    assert!(hits > 20);
}

#[test]
fn closest_of_two_overlapping_spheres_in_either_order() {
    let origin = [0.0, 0.0, 0.0];
    let direction = [0.0, 0.0, -1.0];
    let front = roots([0.0, 0.0, -1.0], 0.5, origin, direction);
    let back = roots([0.0, 0.0, -1.3], 0.5, origin, direction);
    let first = closest_hit(&vec![front, back], s(0.001), s(f64::INFINITY)).unwrap();
    assert_eq!(first.index, 0);
    assert_eq!(f(first.t), 0.5);
    let second = closest_hit(&vec![back, front], s(0.001), s(f64::INFINITY)).unwrap();
    assert_eq!(second.index, 1);
    assert_eq!(f(second.t), 0.5);
}

#[test]
fn closest_hit_is_the_least_parameter_under_every_rotation() {
    let origin = [0.2, 0.1, 0.0];
    let direction = [0.05, -0.02, -1.0];
    let mut all = vec![
        roots([0.0, 0.0, -3.0], 0.5, origin, direction),
        roots([0.0, 0.0, -1.0], 0.5, origin, direction),
        roots([5.0, 0.0, -1.0], 0.5, origin, direction),
        roots([0.0, 0.0, -2.0], 0.7, origin, direction),
        roots([0.0, -100.5, -1.0], 100.0, origin, direction),
    ];
    let mut least = f64::INFINITY;
    for r in all.iter() {
        if let Some(t) = r.select(s(0.001), s(f64::INFINITY)) {
            least = least.min(f(t));
        }
    }
    assert!(least.is_finite());
    for _ in 0..all.len() {
        let hit = closest_hit(&all, s(0.001), s(f64::INFINITY)).unwrap();
        assert_eq!(f(hit.t), least);
        assert_eq!(f(all[hit.index].select(s(0.001), s(f64::INFINITY)).unwrap()), least);
        all.rotate_left(1);
    }
    all.reverse();
    assert_eq!(f(closest_hit(&all, s(0.001), s(f64::INFINITY)).unwrap().t), least);
}

#[test]
fn equal_parameters_keep_the_first_sphere() {
    let r = Roots::new(s(1.0), s(2.0), s(3.0));
    let hit = closest_hit(&vec![r, r, r], s(0.0), s(10.0)).unwrap();
    assert_eq!(hit.index, 0);
    assert_eq!(f(hit.t), 2.0);
}

#[test]
fn no_sphere_or_no_root_is_no_hit() {
    assert!(closest_hit(&Vec::new(), s(0.001), s(f64::INFINITY)).is_none());
    let miss = roots([0.0, 0.0, -1.0], 0.5, [0.0, 0.0, 0.0], [0.0, 1.0, 0.0]);
    assert!(closest_hit(&vec![miss, miss], s(0.001), s(f64::INFINITY)).is_none());
    let behind = roots([0.0, 0.0, 1.0], 0.5, [0.0, 0.0, 0.0], [0.0, 0.0, -1.0]);
    assert!(closest_hit(&vec![behind], s(0.001), s(f64::INFINITY)).is_none());
}

#[test]
fn face_normal_follows_the_sign_of_the_alignment() {
    let outward = v([0.0, 0.6, -0.8]);
    let mut rec = HitRecord::new(v([1.0, 2.0, 3.0]), s(4.0), outward, 7);
    assert!(rec.front_face);
    rec.set_face_normal(s(0.25), outward);
    assert!(!rec.front_face);
    assert_eq!(rec.normal.x().to_bits(), (-0.0f64).to_bits());
    assert_eq!(f(rec.normal.y()), -0.6);
    assert_eq!(f(rec.normal.z()), 0.8);
    rec.set_face_normal(s(-0.25), outward);
    assert!(rec.front_face);
    assert_eq!(a(rec.normal), [0.0, 0.6, -0.8]);
    rec.set_face_normal(s(0.0), outward);
    assert!(!rec.front_face);
    assert_eq!(a(rec.p), [1.0, 2.0, 3.0]);
    assert_eq!(f(rec.t), 4.0);
    assert_eq!(rec.mat, 7);
}
