use softrast::color::Color;
use softrast::fx::{
    fx_add, fx_sub, fx_mul, fx_div, fx_abs, fx_sqrt, fx_sin, fx_cos,
    FX_ONE, FX_MAX, FX_PI, FX_HALF_PI,
};

#[test]
fn lerp_at_zero_returns_first_color() {
    let a = Color::new(12, 200, 77);
    let b = Color::new(255, 0, 140);
    assert_eq!(a.lerp(&b, 0), a);
}

#[test]
fn lerp_at_one_returns_second_color() {
    let a = Color::new(12, 200, 77);
    let b = Color::new(255, 0, 140);
    assert_eq!(a.lerp(&b, FX_ONE), b);
}

#[test]
fn lerp_midpoint() {
    let a = Color::new(0, 0, 0);
    let b = Color::new(255, 100, 1);
    let m = a.lerp(&b, 500_000);
    assert_eq!(m, Color::new(127, 50, 0));
}

#[test]
fn lerp_with_weight_above_one_clamps() {
    let a = Color::new(0, 0, 0);
    let b = Color::new(255, 255, 255);
    assert_eq!(a.lerp(&b, 2_000_000), Color::new(255, 255, 255));
}

#[test]
fn lerp_with_negative_weight_clamps() {
    let a = Color::new(10, 10, 10);
    let b = Color::new(255, 255, 255);
    assert_eq!(a.lerp(&b, -1_000_000), Color::new(0, 0, 0));
}

#[test]
fn mul_clamps_high_factor() {
    let c = Color::new(200, 200, 200);
    assert_eq!(c.mul(2_000_000), Color::new(255, 255, 255));
}

#[test]
fn mul_clamps_negative_factor_to_zero() {
    let c = Color::new(200, 200, 200);
    assert_eq!(c.mul(-3_000_000), Color::new(0, 0, 0));
}

#[test]
fn mul_scales_exactly() {
    let c = Color::new(100, 50, 3);
    assert_eq!(c.mul(500_000), Color::new(50, 25, 1));
}

#[test]
fn add_clamps_at_channel_maximum() {
    let a = Color::new(200, 100, 0);
    let b = Color::new(100, 100, 255);
    assert_eq!(a.add(&b), Color::new(255, 200, 255));
}

#[test]
fn to_hex_packs_channels() {
    assert_eq!(Color::new(255, 100, 0).to_hex(), 0x00ff6400);
    assert_eq!(Color::new(0, 0, 0).to_hex(), 0);
    assert_eq!(Color::new(1, 2, 3).to_hex(), 0x00010203);
}

#[test]
fn scalar_add_saturates_at_band_edge() {
    assert_eq!(fx_add(FX_MAX, FX_MAX), FX_MAX);
    assert_eq!(fx_sub(-FX_MAX, FX_MAX), -FX_MAX);
    assert_eq!(fx_add(2_000_000, 3_000_000), 5_000_000);
}

#[test]
fn scalar_mul_rescales() {
    assert_eq!(fx_mul(2_000_000, 3_000_000), 6_000_000);
    assert_eq!(fx_mul(-2_000_000, 3_000_000), -6_000_000);
    assert_eq!(fx_mul(500_000, 500_000), 250_000);
}

#[test]
fn scalar_div_truncates_toward_zero() {
    assert_eq!(fx_div(1_000_000, 3_000_000), 333_333);
    assert_eq!(fx_div(-1_000_000, 3_000_000), -333_333);
}

#[test]
fn scalar_abs() {
    assert_eq!(fx_abs(-7_500_000), 7_500_000);
    assert_eq!(fx_abs(7_500_000), 7_500_000);
}

#[test]
fn square_root_of_perfect_square() {
    assert_eq!(fx_sqrt(4_000_000), 2_000_000);
    assert_eq!(fx_sqrt(1_000_000), 1_000_000);
    assert_eq!(fx_sqrt(0), 0);
    assert_eq!(fx_sqrt(-5), 0);
}

#[test]
fn sine_at_reference_angles() {
    assert_eq!(fx_sin(0), 0);
    assert_eq!(fx_sin(FX_PI), 0);
    assert_eq!(fx_sin(FX_HALF_PI), FX_ONE);
    assert_eq!(fx_cos(0), FX_ONE);
    assert_eq!(fx_sin(FX_PI + FX_HALF_PI), -FX_ONE);
}

#[test]
fn sine_stays_within_unit_band() {
    let mut x: i64 = -10_000_000;
    while x <= 10_000_000 {
        let s = fx_sin(x);
        assert!((-FX_ONE..=FX_ONE).contains(&s));
        x += 137_111;
    }
}
