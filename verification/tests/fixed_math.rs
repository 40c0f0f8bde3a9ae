use raytracer::fixed::{
    fx_add, fx_div, fx_mul, fx_neg, fx_pow, fx_sqrt, fx_sub, FX_MAX, FX_ONE,
};
use raytracer::trig::{asin_fx, atan2_fx, cos_fx, sin_fx, FX_HALF_PI, FX_PI};

fn to_f64(raw: i64) -> f64 {
    raw as f64 / 65536.0
}

#[test]
fn add_and_sub_saturate() {
    assert_eq!(fx_add(FX_MAX, FX_MAX), FX_MAX);
    assert_eq!(fx_sub(-FX_MAX, FX_MAX), -FX_MAX);
    assert_eq!(fx_add(FX_ONE, FX_ONE), 2 * FX_ONE);
    assert_eq!(fx_neg(FX_ONE), -FX_ONE);
}

#[test]
fn mul_rounds_toward_zero() {
    // -1.5 truncates to -1 raw units of the product grid, not -2.
    assert_eq!(fx_mul(-3, 32768), -1);
    assert_eq!(fx_mul(3, 32768), 1);
    assert_eq!(fx_mul(FX_ONE, FX_ONE), FX_ONE);
    assert_eq!(fx_mul(FX_MAX, FX_MAX), FX_MAX);
}

#[test]
fn div_by_zero_saturates_with_numerator_sign() {
    assert_eq!(fx_div(5, 0), FX_MAX);
    assert_eq!(fx_div(-5, 0), -FX_MAX);
    assert_eq!(fx_div(0, 0), 0);
    assert_eq!(fx_div(FX_ONE, FX_ONE), FX_ONE);
    assert_eq!(fx_div(3 * FX_ONE, 2 * FX_ONE), 98304);
}

#[test]
fn sqrt_exact_and_floor() {
    assert_eq!(fx_sqrt(4 * FX_ONE), 2 * FX_ONE);
    assert_eq!(fx_sqrt(FX_ONE), FX_ONE);
    // sqrt(2) floors: isqrt(2 * 65536 * 65536) = 92681.
    assert_eq!(fx_sqrt(2 * FX_ONE), 92681);
    assert_eq!(fx_sqrt(0), 0);
    assert_eq!(fx_sqrt(-7), 0);
}

#[test]
fn pow_matches_repeated_multiplication() {
    assert_eq!(fx_pow(FX_ONE / 2, 0), FX_ONE);
    assert_eq!(fx_pow(FX_ONE / 2, 1), FX_ONE / 2);
    assert_eq!(fx_pow(FX_ONE / 2, 2), FX_ONE / 4);
    let mut acc = FX_ONE;
    for _ in 0..10 {
        acc = fx_mul(49152, acc);
    }
    assert_eq!(fx_pow(49152, 10), acc);
}

#[test]
fn sine_and_cosine_track_the_real_functions() {
    let angles: [i64; 8] = [0, 10000, -25000, 65536, 102944, -102944, 205887, 300000];
    for &a in angles.iter() {
        let expect_sin = to_f64(a).sin();
        let expect_cos = to_f64(a).cos();
        assert!((to_f64(sin_fx(a)) - expect_sin).abs() < 0.01, "sin at {a}");
        assert!((to_f64(cos_fx(a)) - expect_cos).abs() < 0.01, "cos at {a}");
    }
    assert_eq!(sin_fx(0), 0);
    assert_eq!(cos_fx(FX_HALF_PI + FX_HALF_PI), sin_fx(FX_PI + FX_HALF_PI));
}

#[test]
fn atan2_tracks_the_real_function() {
    let pts: [(i64, i64); 7] = [
        (0, 65536),
        (65536, 65536),
        (65536, 0),
        (65536, -65536),
        (0, -65536),
        (-65536, -65536),
        (-65536, 65536),
    ];
    for &(y, x) in pts.iter() {
        let expect = (y as f64).atan2(x as f64);
        assert!((to_f64(atan2_fx(y, x)) - expect).abs() < 0.01, "atan2({y},{x})");
    }
    assert_eq!(atan2_fx(0, 0), 0);
}

#[test]
fn asin_tracks_the_real_function_and_is_exact_at_the_ends() {
    assert_eq!(asin_fx(FX_ONE), FX_HALF_PI);
    assert_eq!(asin_fx(-FX_ONE), -FX_HALF_PI);
    assert_eq!(asin_fx(0), 0);
    // Arguments beyond the domain clamp.
    assert_eq!(asin_fx(3 * FX_ONE), FX_HALF_PI);
    let values: [i64; 6] = [16384, -16384, 32768, 45000, 60000, -60000];
    for &v in values.iter() {
        let expect = to_f64(v).asin();
        assert!((to_f64(asin_fx(v)) - expect).abs() < 0.015, "asin({v})");
    }
}
