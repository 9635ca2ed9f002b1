//! Exact-value tests for the fixed-point scalar operations.

use raytracer::fixed::Fx;
use raytracer::scene::color::Color;
use raytracer::scene::helpers::to_radians;

fn fx(v: f32) -> Fx {
    Fx { raw: (v * 65536.0).round() as i64 }
}

#[test]
fn add_and_sub_are_exact() {
    assert_eq!(fx(1.5).add(fx(2.0)).raw, 229376);
    assert_eq!(fx(1.5).sub(fx(2.0)).raw, -32768);
    assert_eq!(fx(0.0).add(fx(0.0)).raw, 0);
}

#[test]
fn add_saturates_at_the_i64_range() {
    assert_eq!(Fx { raw: i64::MAX }.add(Fx { raw: 1 }).raw, i64::MAX);
    assert_eq!(Fx { raw: i64::MIN }.sub(Fx { raw: 1 }).raw, i64::MIN);
    assert_eq!(Fx { raw: i64::MIN }.neg().raw, i64::MAX);
}

#[test]
fn mul_matches_the_scaled_product() {
    assert_eq!(fx(1.5).mul(fx(2.0)).raw, 196608);
    assert_eq!(fx(-1.5).mul(fx(2.0)).raw, -196608);
    assert_eq!(fx(0.9).mul(fx(0.9)).raw, 53083);
}

#[test]
fn mul_truncates_toward_zero() {
    assert_eq!(Fx { raw: 99 }.mul(Fx { raw: 99 }).raw, 0);
    assert_eq!(Fx { raw: -99 }.mul(Fx { raw: 99 }).raw, 0);
}

#[test]
fn div_matches_the_scaled_quotient() {
    assert_eq!(fx(3.0).div(fx(2.0)).raw, 98304);
    assert_eq!(fx(-3.0).div(fx(2.0)).raw, -98304);
    assert_eq!(fx(3.0).div(fx(-2.0)).raw, -98304);
}

#[test]
fn div_by_zero_is_zero() {
    assert_eq!(fx(3.0).div(Fx { raw: 0 }).raw, 0);
}

#[test]
fn div_int_truncates_toward_zero() {
    assert_eq!(fx(1.0).div_int(6).raw, 10922);
    assert_eq!(fx(-1.0).div_int(6).raw, -10922);
}

#[test]
fn sqrt_is_the_integer_square_root() {
    assert_eq!(fx(4.0).sqrt().raw, 131072);
    assert_eq!(fx(2.0).sqrt().raw, 92681);
    assert_eq!(fx(0.0).sqrt().raw, 0);
    assert_eq!(fx(1.0).sqrt().raw, 65536);
}

#[test]
fn sqrt_brackets_its_argument() {
    let a: Fx = Fx { raw: 1234567 };
    let r: i64 = a.sqrt().raw;
    assert!(r * r <= a.raw * 65536);
    assert!(a.raw * 65536 < (r + 1) * (r + 1));
}

#[test]
fn powi_is_iterated_multiplication() {
    assert_eq!(fx(0.5).powi(3).raw, 8192);
    assert_eq!(fx(0.5).powi(0).raw, 65536);
    assert_eq!(fx(2.0).powi(4).raw, 16 * 65536);
}

#[test]
fn from_int_scales() {
    assert_eq!(Fx::from_int(3).raw, 196608);
    assert_eq!(Fx::from_int(-3).raw, -196608);
    assert_eq!(Fx::from_u32(7).raw, 7 * 65536);
}

#[test]
fn to_radians_divides_by_the_degree_constant() {
    assert_eq!(to_radians(fx(70.0)).raw, 80062);
    assert_eq!(to_radians(fx(0.0)).raw, 0);
}

#[test]
fn tangent_of_a_half_right_angle_is_near_one() {
    let t: i64 = to_radians(fx(45.0)).tan().raw;
    assert_eq!(t, 65528);
    assert!((t - 65536).abs() < 100);
}

#[test]
fn clamp_caps_only_the_upper_bound() {
    let c: Color = Color { red: fx(300.0), green: fx(-5.0), blue: fx(100.0) };
    let k: Color = c.clamp();
    assert_eq!(k.red.raw, 16711680);
    assert_eq!(k.green.raw, fx(-5.0).raw);
    assert_eq!(k.blue.raw, fx(100.0).raw);
}

#[test]
fn quantize_saturates_into_the_byte_range() {
    let c: Color = Color { red: fx(300.0), green: fx(-5.0), blue: Fx { raw: 478717 } };
    assert_eq!(c.quantize(), (255u8, 0u8, 7u8));
    let exact: Color = Color { red: Fx { raw: 16711680 }, green: Fx { raw: 0 }, blue: fx(254.5) };
    assert_eq!(exact.quantize(), (255u8, 0u8, 254u8));
}

#[test]
fn color_arithmetic_is_channelwise() {
    let a: Color = Color { red: fx(2.0), green: fx(3.0), blue: fx(4.0) };
    let b: Color = Color { red: fx(0.5), green: fx(1.0), blue: fx(2.0) };
    let s: Color = a.add(b);
    assert_eq!((s.red.raw, s.green.raw, s.blue.raw), (fx(2.5).raw, fx(4.0).raw, fx(6.0).raw));
    let m: Color = a.multiply(b);
    assert_eq!((m.red.raw, m.green.raw, m.blue.raw), (fx(1.0).raw, fx(3.0).raw, fx(8.0).raw));
    let k: Color = a.multiply_scalar(fx(2.0));
    assert_eq!((k.red.raw, k.green.raw, k.blue.raw), (fx(4.0).raw, fx(6.0).raw, fx(8.0).raw));
}
