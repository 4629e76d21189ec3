use raytracer::color::{clamp, push_decimal, quantize, write_header, write_pixels, MAX_INTENSITY_BITS};
use raytracer::scalar::Scalar;
use raytracer::vec3::Vec3;

fn s(x: f64) -> Scalar {
    Scalar::from_bits(x.to_bits())
}

fn reference_clamp(x: f64, lo: f64, hi: f64) -> f64 {
    if x < lo {
        lo
    } else if x > hi {
        hi
    } else {
        x
    }
}

fn reference_level(x: f64) -> i32 {
    (256.0 * reference_clamp(x, 0.0, 0.999)) as i32
}

#[test]
fn largest_intensity_is_the_pattern_of_its_value() {
    assert_eq!(MAX_INTENSITY_BITS, 0.999f64.to_bits());
}

#[test]
fn clamp_limits_to_the_interval() {
    assert_eq!(clamp(s(-1.0), s(0.0), s(0.999)).to_bits(), 0.0f64.to_bits());
    assert_eq!(clamp(s(2.0), s(0.0), s(0.999)).to_bits(), 0.999f64.to_bits());
    assert_eq!(clamp(s(0.25), s(0.0), s(0.999)).to_bits(), 0.25f64.to_bits());
    assert!(clamp(s(f64::NAN), s(0.0), s(0.999)).nan());
}

#[test]
fn quantize_exact_levels() {
    assert_eq!(quantize(s(0.0)), 0);
    assert_eq!(quantize(s(-0.0)), 0);
    assert_eq!(quantize(s(-3.0)), 0);
    assert_eq!(quantize(s(0.5)), 128);
    assert_eq!(quantize(s(0.25)), 64);
    assert_eq!(quantize(s(0.999)), 255);
    assert_eq!(quantize(s(1.0)), 255);
    assert_eq!(quantize(s(7.0)), 255);
    assert_eq!(quantize(s(f64::INFINITY)), 255);
    assert_eq!(quantize(s(f64::NAN)), 0);
    assert_eq!(quantize(s(1.0 / 256.0)), 1);
    assert_eq!(quantize(s(0.00390624)), 0);
    assert_eq!(quantize(s(5e-324)), 0);
    assert_eq!(quantize(s(0.7071067811865476)), 181);
}

#[test]
fn quantize_agrees_with_scaling_and_truncating() {
    let mut x = 0.0f64;
    while x < 1.2 {
        assert_eq!(quantize(s(x)) as i32, reference_level(x), "{x}");
        let root = x.sqrt();
        assert_eq!(quantize(s(root)) as i32, reference_level(root), "{root}");
        x += 0.000_37;
    }
    for level in 0..=256 {
        let edge = level as f64 / 256.0;
        for bits in [edge.to_bits().wrapping_sub(1), edge.to_bits(), edge.to_bits() + 1] {
            let v = f64::from_bits(bits);
            if v.is_nan() {
                continue;
            }
            assert_eq!(quantize(Scalar::from_bits(bits)) as i32, reference_level(v), "{v}");
        }
    }
}

#[test]
fn decimal_digits_of_small_and_large_numbers() {
    for n in [0u32, 7, 9, 10, 42, 99, 100, 255, 1200, 65535, 4294967295] {
        let mut out = Vec::new();
        push_decimal(&mut out, n);
        assert_eq!(out, format!("{n}").into_bytes());
    }
}

#[test]
fn pixel_line_is_three_levels_and_a_line_feed() {
    let mut out = b"x".to_vec();
    raytracer::color::write(&mut out, Vec3::new(s(0.5), s(0.0), s(1.0)));
    assert_eq!(out, b"x128 0 255\n".to_vec());
    raytracer::color::write(&mut out, Vec3::new(s(0.25), s(0.999), s(0.1)));
    assert_eq!(out, b"x128 0 255\n64 255 25\n".to_vec());
}

#[test]
fn header_names_the_format_the_dimensions_and_the_maximum() {
    let mut out = Vec::new();
    write_header(&mut out, 1200, 675);
    assert_eq!(out, b"P3\n1200 675\n255\n".to_vec());
    let mut small = Vec::new();
    write_header(&mut small, 1, 1);
    assert_eq!(small, b"P3\n1 1\n255\n".to_vec());
}

#[test]
fn pixels_are_written_one_line_each_in_order() {
    let mut out = b"P3\n".to_vec();
    write_pixels(&mut out, &vec![
        Vec3::new(s(0.0), s(0.5), s(1.0)),
        Vec3::new(s(0.25), s(0.25), s(0.25)),
        Vec3::new(s(0.999), s(0.001), s(0.01)),
    ]);
    assert_eq!(out, b"P3\n0 128 255\n64 64 64\n255 0 2\n".to_vec());
    write_pixels(&mut out, &Vec::new());
    assert_eq!(out.len(), 30);
}
