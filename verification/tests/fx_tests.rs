use softrender::fx::{clamp01, fx_div, fx_mul, fx_pow, isqrt, mul_div_sat, sat_add, sat_sub, FX_ONE};
use softrender::vec::{Vec2, Vec3};

#[test]
fn fx_mul_rounds_toward_zero() {
    assert_eq!(fx_mul(3 * FX_ONE, FX_ONE / 2), 3 * FX_ONE / 2);
    assert_eq!(fx_mul(-3 * FX_ONE, FX_ONE / 2), -(3 * FX_ONE / 2));
    assert_eq!(fx_mul(FX_ONE, FX_ONE), FX_ONE);
    assert_eq!(fx_mul(0, 12345), 0);
}

#[test]
fn fx_div_rounds_toward_zero() {
    assert_eq!(fx_div(FX_ONE, 3 * FX_ONE), 21845);
    assert_eq!(fx_div(-FX_ONE, 3 * FX_ONE), -21845);
    assert_eq!(fx_div(10 * FX_ONE, -4 * FX_ONE), -(5 * FX_ONE / 2));
}

#[test]
fn fx_ops_saturate() {
    assert_eq!(sat_add(i64::MAX, 1), i64::MAX);
    assert_eq!(sat_sub(i64::MIN, 1), i64::MIN);
    assert_eq!(mul_div_sat(i64::MAX, i64::MAX, 1), i64::MAX);
}

#[test]
fn isqrt_brackets() {
    assert_eq!(isqrt(0), 0);
    assert_eq!(isqrt(1), 1);
    assert_eq!(isqrt(10), 3);
    assert_eq!(isqrt(16), 4);
    assert_eq!(isqrt(u64::MAX), 0xFFFF_FFFF);
}

#[test]
fn clamp01_unit_interval() {
    assert_eq!(clamp01(-5), 0);
    assert_eq!(clamp01(70000), FX_ONE);
    assert_eq!(clamp01(123), 123);
}

#[test]
fn fx_pow_squares() {
    assert_eq!(fx_pow(FX_ONE / 2, 0), FX_ONE);
    assert_eq!(fx_pow(FX_ONE / 2, 1), FX_ONE / 2);
    assert_eq!(fx_pow(FX_ONE / 2, 2), FX_ONE / 4);
    assert_eq!(fx_pow(FX_ONE, 100), FX_ONE);
    assert_eq!(fx_pow(0, 3), 0);
}

#[test]
fn cross_of_axes() {
    let x = Vec3::new(FX_ONE, 0, 0);
    let y = Vec3::new(0, FX_ONE, 0);
    let z = x.cross(y);
    assert_eq!((z.x, z.y, z.z), (0, 0, FX_ONE));
}

#[test]
fn dot_accumulates() {
    let a = Vec3::new(FX_ONE, 2 * FX_ONE, 3 * FX_ONE);
    let b = Vec3::new(FX_ONE, FX_ONE, FX_ONE);
    assert_eq!(a.dot(b), 6 * FX_ONE);
}

#[test]
fn normalize_three_four_five() {
    let v = Vec3::new(3 * FX_ONE, 4 * FX_ONE, 0);
    let n = v.normalize();
    assert_eq!(n.x, 39321);
    assert_eq!(n.y, 52428);
    assert_eq!(n.z, 0);
}

#[test]
fn normalize_zero_stays_zero() {
    let v = Vec3::new(0, 0, 0);
    let n = v.dir();
    assert_eq!((n.x, n.y, n.z), (0, 0, 0));
}

#[test]
fn scale_by_a_fixed_point_factor() {
    let v = Vec3::new(2 * FX_ONE, -4 * FX_ONE, 6 * FX_ONE).scale(FX_ONE / 2);
    assert_eq!((v.x, v.y, v.z), (FX_ONE, -2 * FX_ONE, 3 * FX_ONE));
}

#[test]
fn vec2_holds_components() {
    let t = Vec2::new(5, -7);
    assert_eq!((t.x, t.y), (5, -7));
}
