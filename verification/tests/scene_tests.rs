use raytracer::error::ConfigError;
use raytracer::hittable_list::HittableList;
use raytracer::material::{Lambertian, Material, Metal};
use raytracer::scalar::Scalar;
use raytracer::common::unit_interval;
use raytracer::scene::{final_scence, grid_cell, material_kind, random_scence, CellSample, Kind, DIFFUSE_DRAWS, OPAQUE_DRAWS, COS_QUARTER_PI, FIFTH, FOUR, FOUR_FIFTHS, GLASS, HALF, HUNDRED, MINUS_COS_QUARTER_PI, MINUS_FOUR, MINUS_HUNDRED_AND_HALF, MINUS_ONE, MINUS_SIX_FIFTHS, MINUS_THOUSAND, NINETEEN_TWENTIETHS, NINE_TENTHS, SEVEN_TENTHS, TENTH, THOUSAND, THREE_FIFTHS, TWO_FIFTHS, TWO_THIRDS};
use raytracer::sphere::Sphere;
use raytracer::vec3::Vec3;

fn s(x: f64) -> Scalar {
    Scalar::from_bits(x.to_bits())
}

fn f(x: Scalar) -> f64 {
    f64::from_bits(x.to_bits())
}

fn v(p: [f64; 3]) -> Vec3 {
    Vec3::new(s(p[0]), s(p[1]), s(p[2]))
}

fn a(p: Vec3) -> [f64; 3] {
    [f(p.x()), f(p.y()), f(p.z())]
}

fn lambertian(world: &HittableList, index: usize) -> [f64; 3] {
    match world.material(world.get(index).unwrap().material).unwrap() {
        Material::Lambertian(m) => a(m.albedo),
        other => panic!("sphere {index} is {other:?}"),
    }
}

fn metal(world: &HittableList, index: usize) -> ([f64; 3], f64) {
    match world.material(world.get(index).unwrap().material).unwrap() {
        Material::Metal(m) => (a(m.albedo), f(m.fuzz)),
        other => panic!("sphere {index} is {other:?}"),
    }
}

fn dielectric(world: &HittableList, index: usize) -> f64 {
    match world.material(world.get(index).unwrap().material).unwrap() {
        Material::Dielectric(m) => f(m.refractive_index),
        other => panic!("sphere {index} is {other:?}"),
    }
}

fn place(world: &HittableList, index: usize) -> ([f64; 3], f64) {
    let sphere = world.get(index).unwrap();
    (a(sphere.center), f(sphere.radius))
}

fn cell(choose_mat: f64, center: [f64; 3], clearance: f64, fuzz: f64) -> CellSample {
    CellSample {
        choose_mat: s(choose_mat),
        center: v(center),
        clearance: s(clearance),
        diffuse_albedo: v([0.25, 0.5, 0.75]),
        metal_albedo: v([0.6, 0.7, 0.8]),
        fuzz: s(fuzz),
    }
}

#[test]
fn scene_constants_are_the_patterns_of_their_values() {
    assert_eq!(TENTH, 0.1f64.to_bits());
    assert_eq!(FIFTH, 0.2f64.to_bits());
    assert_eq!(TWO_FIFTHS, 0.4f64.to_bits());
    assert_eq!(HALF, 0.5f64.to_bits());
    assert_eq!(THREE_FIFTHS, 0.6f64.to_bits());
    assert_eq!(TWO_THIRDS, (1.0f64 / 1.5).to_bits());
    assert_eq!(SEVEN_TENTHS, 0.7f64.to_bits());
    assert_eq!(COS_QUARTER_PI, std::f64::consts::FRAC_1_SQRT_2.to_bits());
    assert_eq!(MINUS_COS_QUARTER_PI, (-std::f64::consts::FRAC_1_SQRT_2).to_bits());
    assert!((f64::from_bits(COS_QUARTER_PI) - (std::f64::consts::PI / 4.0).cos()).abs() < 2e-16);
    assert_eq!(FOUR_FIFTHS, 0.8f64.to_bits());
    assert_eq!(NINE_TENTHS, 0.9f64.to_bits());
    assert_eq!(NINETEEN_TWENTIETHS, 0.95f64.to_bits());
    assert_eq!(GLASS, 1.5f64.to_bits());
    assert_eq!(FOUR, 4.0f64.to_bits());
    assert_eq!(HUNDRED, 100.0f64.to_bits());
    assert_eq!(THOUSAND, 1000.0f64.to_bits());
    assert_eq!(MINUS_ONE, (-1.0f64).to_bits());
    assert_eq!(MINUS_SIX_FIFTHS, (-1.2f64).to_bits());
    assert_eq!(MINUS_FOUR, (-4.0f64).to_bits());
    assert_eq!(MINUS_HUNDRED_AND_HALF, (-100.5f64).to_bits());
    assert_eq!(MINUS_THOUSAND, (-1000.0f64).to_bits());
}

#[test]
fn scene_grows_by_materials_and_spheres() {
    let mut world = HittableList::new();
    assert_eq!(world.len(), 0);
    assert!(world.get(0).is_none());
    assert!(world.material(0).is_none());
    let grey = world.add_material(Material::Lambertian(Lambertian::new(v([0.5, 0.5, 0.5]))));
    assert_eq!(grey, 0);
    let steel = world.add_material(Material::Metal(Metal::new(v([0.7, 0.6, 0.5]), s(0.1)).unwrap()));
    assert_eq!(steel, 1);
    assert!(world.add(Sphere::new(v([0.0, 0.0, -1.0]), s(0.5), steel).unwrap()).is_ok());
    assert!(world.add(Sphere::new(v([1.0, 0.0, -1.0]), s(0.25), grey).unwrap()).is_ok());
    assert_eq!(world.len(), 2);
    assert_eq!(place(&world, 0), ([0.0, 0.0, -1.0], 0.5));
    assert_eq!(metal(&world, 0), ([0.7, 0.6, 0.5], 0.1));
    assert_eq!(lambertian(&world, 1), [0.5, 0.5, 0.5]);
    assert!(world.get(2).is_none());
}

#[test]
fn sphere_with_an_unknown_material_is_refused() {
    let mut world = HittableList::new();
    let sphere = Sphere::new(v([0.0, 0.0, -1.0]), s(0.5), 0).unwrap();
    assert_eq!(world.add(sphere), Err(ConfigError::UnknownMaterial));
    assert_eq!(world.len(), 0);
    world.add_material(Material::Lambertian(Lambertian::new(v([0.5, 0.5, 0.5]))));
    assert_eq!(world.add(sphere), Ok(()));
    let other = Sphere::new(v([0.0, 0.0, -1.0]), s(0.5), 1).unwrap();
    assert_eq!(world.add(other), Err(ConfigError::UnknownMaterial));
    assert_eq!(world.len(), 1);
}

#[test]
fn add_sphere_refuses_a_radius_that_is_not_positive() {
    let mut world = HittableList::new();
    let grey = Material::Lambertian(Lambertian::new(v([0.5, 0.5, 0.5])));
    assert_eq!(world.add_sphere(v([0.0, 0.0, 0.0]), s(0.0), grey), Err(ConfigError::NonPositiveRadius));
    assert_eq!(world.add_sphere(v([0.0, 0.0, 0.0]), s(-1.0), grey), Err(ConfigError::NonPositiveRadius));
    assert_eq!(world.len(), 0);
    assert!(world.material(0).is_none());
    assert_eq!(world.add_sphere(v([0.0, 1.0, 0.0]), s(2.0), grey), Ok(()));
    assert_eq!(place(&world, 0), ([0.0, 1.0, 0.0], 2.0));
    assert_eq!(lambertian(&world, 0), [0.5, 0.5, 0.5]);
}

#[test]
fn fixed_scene_holds_its_seven_spheres() {
    let world = random_scence();
    let r = (std::f64::consts::PI / 4.0).cos();
    assert_eq!(world.len(), 7);
    assert_eq!(place(&world, 0), ([0.0, -100.5, -1.0], 100.0));
    assert_eq!(lambertian(&world, 0), [0.8, 0.8, 0.0]);
    assert_eq!(place(&world, 1), ([0.0, 0.0, -1.2], 0.5));
    assert_eq!(lambertian(&world, 1), [0.1, 0.2, 0.5]);
    assert_eq!(place(&world, 2), ([-1.0, 0.0, -1.0], 0.5));
    assert_eq!(dielectric(&world, 2), 1.50);
    assert_eq!(place(&world, 3), ([-1.0, 0.0, -1.0], 0.4));
    assert_eq!(dielectric(&world, 3), 1.0 / 1.5);
    assert_eq!(place(&world, 4), ([1.0, 0.0, -1.0], 0.5));
    assert_eq!(metal(&world, 4), ([0.8, 0.6, 0.2], 1.0));
    assert_eq!(place(&world, 5), ([-r, 0.0, -1.0], r));
    assert_eq!(lambertian(&world, 5), [0.0, 0.0, 1.0]);
    assert_eq!(place(&world, 6), ([r, 0.0, -1.0], r));
    assert_eq!(lambertian(&world, 6), [1.0, 0.0, 0.0]);
    for index in 0..7 {
        assert_eq!(world.get(index).unwrap().material, index);
    }
}

#[test]
fn material_is_picked_by_the_thresholds() {
    assert_eq!(material_kind(s(0.0)), Kind::Diffuse);
    assert_eq!(material_kind(s(0.7999999999999999)), Kind::Diffuse);
    assert_eq!(material_kind(s(0.8)), Kind::Metal);
    assert_eq!(material_kind(s(0.9499999999999998)), Kind::Metal);
    assert_eq!(material_kind(s(0.95)), Kind::Glass);
    assert_eq!(material_kind(s(0.9999999999999999)), Kind::Glass);
    let mut x = 0.0;
    while x < 1.0 {
        let expected = if x < 0.8 {
            Kind::Diffuse
        } else if x < 0.95 {
            Kind::Metal
        } else {
            Kind::Glass
        };
        assert_eq!(material_kind(s(x)), expected);
        x += 0.001;
    }
}

#[test]
fn grid_runs_over_twenty_two_columns_and_rows() {
    assert_eq!(grid_cell(0), Some((-11, -11)));
    assert_eq!(grid_cell(1), Some((-11, -10)));
    assert_eq!(grid_cell(21), Some((-11, 10)));
    assert_eq!(grid_cell(22), Some((-10, -11)));
    assert_eq!(grid_cell(483), Some((10, 10)));
    assert_eq!(grid_cell(484), None);
    assert_eq!(grid_cell(u32::MAX), None);
    let mut expected = Vec::new();
    for a in -11..11 {
        for b in -11..11 {
            expected.push((a, b));
        }
    }
    let cells: Vec<(i32, i32)> = (0..484).map(|k| grid_cell(k).unwrap()).collect();
    assert_eq!(cells, expected);
}

#[test]
fn strewn_scene_without_cells_is_the_ground_and_the_large_spheres() {
    let world = final_scence(&Vec::new()).unwrap();
    assert_eq!(world.len(), 4);
    assert_eq!(place(&world, 0), ([0.0, -1000.0, 0.0], 1000.0));
    assert_eq!(lambertian(&world, 0), [0.5, 0.5, 0.5]);
    assert_eq!(place(&world, 1), ([0.0, 1.0, 0.0], 1.0));
    assert_eq!(dielectric(&world, 1), 1.5);
    assert_eq!(place(&world, 2), ([-4.0, 1.0, 0.0], 1.0));
    assert_eq!(lambertian(&world, 2), [0.4, 0.2, 0.1]);
    assert_eq!(place(&world, 3), ([4.0, 1.0, 0.0], 1.0));
    assert_eq!(metal(&world, 3), ([0.7, 0.6, 0.5], 0.0));
}

#[test]
fn strewn_scene_places_each_kept_cell_in_order() {
    let samples = vec![
        cell(0.3, [-10.5, 0.2, -10.1], 15.0, 0.7),
        cell(0.3, [4.1, 0.2, 0.3], 0.9, 0.1),
        cell(0.85, [-3.2, 0.2, 5.5], 9.0, 0.25),
        cell(0.3, [4.1, 0.2, 0.3], 0.5, 0.1),
        cell(0.97, [7.7, 0.2, -2.4], 4.4, 99.0),
        cell(0.85, [4.0, 0.2, 0.0], 0.0, 99.0),
        cell(0.8, [1.0, 0.2, 1.0], 0.9000000000000001, 0.0),
    ];
    let world = final_scence(&samples).unwrap();
    assert_eq!(world.len(), 1 + 4 + 3);
    assert_eq!(place(&world, 0), ([0.0, -1000.0, 0.0], 1000.0));
    assert_eq!(place(&world, 1), ([-10.5, 0.2, -10.1], 0.2));
    assert_eq!(lambertian(&world, 1), [0.25, 0.5, 0.75]);
    assert_eq!(place(&world, 2), ([-3.2, 0.2, 5.5], 0.2));
    assert_eq!(metal(&world, 2), ([0.6, 0.7, 0.8], 0.25));
    assert_eq!(place(&world, 3), ([7.7, 0.2, -2.4], 0.2));
    assert_eq!(dielectric(&world, 3), 1.5);
    assert_eq!(place(&world, 4), ([1.0, 0.2, 1.0], 0.2));
    assert_eq!(metal(&world, 4), ([0.6, 0.7, 0.8], 0.0));
    assert_eq!(place(&world, 5), ([0.0, 1.0, 0.0], 1.0));
    assert_eq!(place(&world, 6), ([-4.0, 1.0, 0.0], 1.0));
    assert_eq!(place(&world, 7), ([4.0, 1.0, 0.0], 1.0));
    for index in 0..world.len() {
        assert_eq!(world.get(index).unwrap().material, index);
    }
}

#[test]
fn strewn_scene_refuses_a_metal_roughness_out_of_range() {
    let bad = vec![cell(0.3, [0.0, 0.2, 0.0], 5.0, 0.1), cell(0.9, [1.0, 0.2, 0.0], 5.0, 1.5)];
    assert_eq!(final_scence(&bad).unwrap_err(), ConfigError::FuzzOutOfRange);
    let negative = vec![cell(0.9, [1.0, 0.2, 0.0], 5.0, -0.5)];
    assert_eq!(final_scence(&negative).unwrap_err(), ConfigError::FuzzOutOfRange);
    let unused = vec![cell(0.9, [1.0, 0.2, 0.0], 0.1, 1.5), cell(0.1, [1.0, 0.2, 0.0], 5.0, 1.5)];
    assert_eq!(final_scence(&unused).unwrap().len(), 5);
}

#[test]
fn draws_split_into_kinds_at_the_counted_thresholds() {
    assert_eq!(DIFFUSE_DRAWS as f64 / (1u64 << 53) as f64, 0.8);
    assert_eq!(OPAQUE_DRAWS as f64 / (1u64 << 53) as f64, 0.95);
    let word = |kept: u64| kept << 11;
    assert_eq!(material_kind(unit_interval(word(0))), Kind::Diffuse);
    assert_eq!(material_kind(unit_interval(word(DIFFUSE_DRAWS - 1))), Kind::Diffuse);
    assert_eq!(material_kind(unit_interval(word(DIFFUSE_DRAWS) + 2047)), Kind::Metal);
    assert_eq!(material_kind(unit_interval(word(OPAQUE_DRAWS - 1))), Kind::Metal);
    assert_eq!(material_kind(unit_interval(word(OPAQUE_DRAWS))), Kind::Glass);
    assert_eq!(material_kind(unit_interval(u64::MAX)), Kind::Glass);
}
