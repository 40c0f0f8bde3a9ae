//! Fixed-point circular functions.
//!
//! Angles are fixed-point radians.  `sin_fx`/`cos_fx` reduce the angle into
//! a quarter wave and evaluate a truncated Taylor polynomial; `atan2_fx`
//! uses a quadratic approximation of the arctangent on [0, 1] with quadrant
//! fix-up, and `asin_fx` switches to its complement near the ends of the
//! domain so that the poles map exactly to a right angle.  Every function
//! returns exactly the value of its spec-level mirror; the mirrors are the
//! defining formulas.
use vstd::prelude::*;
use crate::fixed::{
    FX_ONE, fx_abs, fx_abs_s, fx_add, fx_add_s, fx_clamp, fx_clamp_s, fx_div, fx_div_s,
    fx_mul, fx_mul_s, fx_neg, fx_neg_s, fx_sqrt, fx_sqrt_s, fx_sub, fx_sub_s, tmod,
};

verus! {

/// Fixed-point pi.
pub const FX_PI: i64 = 205887;
/// Fixed-point pi/2.
pub const FX_HALF_PI: i64 = 102944;
/// Fixed-point 2*pi.
pub const FX_TWO_PI: i64 = 411775;
/// Fixed-point pi/4.
pub const FX_QUARTER_PI: i64 = 51472;

/// Taylor coefficients of sine: 1/6, 1/120, 1/5040.
pub const SIN_C3: i64 = 10923;
pub const SIN_C5: i64 = 546;
pub const SIN_C7: i64 = 13;

/// Arctangent approximation coefficients: 0.2447 and 0.0663.
pub const ATAN_C1: i64 = 16037;
pub const ATAN_C2: i64 = 4345;

/// Taylor coefficients of arcsine: 1/6, 3/40, 15/336.
pub const ASIN_C3: i64 = 10923;
pub const ASIN_C5: i64 = 4915;
pub const ASIN_C7: i64 = 2926;
/// Threshold (0.7) above which arcsine goes through its complement.
pub const ASIN_SPLIT: i64 = 45875;

/// Reduce an angle into [-pi, pi] (up to the rounding of the constants).
pub open spec fn wrap_pi_s(a: int) -> int {
    let m = tmod(a, FX_TWO_PI as int);
    if m > FX_PI as int {
        m - FX_TWO_PI as int
    } else if m < -(FX_PI as int) {
        m + FX_TWO_PI as int
    } else {
        m
    }
}

/// Reflect an angle in [-pi, pi] into the quarter wave [-pi/2, pi/2].
pub open spec fn fold_half_s(x: int) -> int {
    if x > FX_HALF_PI as int {
        (FX_PI as int) - x
    } else if x < -(FX_HALF_PI as int) {
        -(FX_PI as int) - x
    } else {
        x
    }
}

/// Truncated Taylor polynomial of sine on the quarter wave.
pub open spec fn sin_core_s(t: int) -> int {
    let t2 = fx_mul_s(t, t);
    let t3 = fx_mul_s(t2, t);
    let t5 = fx_mul_s(t3, t2);
    let t7 = fx_mul_s(t5, t2);
    fx_sub_s(
        fx_add_s(fx_sub_s(t, fx_mul_s(t3, SIN_C3 as int)), fx_mul_s(t5, SIN_C5 as int)),
        fx_mul_s(t7, SIN_C7 as int),
    )
}

pub open spec fn sin_s(a: int) -> int {
    sin_core_s(fold_half_s(wrap_pi_s(a)))
}

pub open spec fn cos_s(a: int) -> int {
    sin_s(fx_add_s(a, FX_HALF_PI as int))
}

/// Arctangent approximation on [0, 1].
pub open spec fn atan_core_s(z: int) -> int {
    fx_add_s(
        fx_mul_s(z, FX_QUARTER_PI as int),
        fx_mul_s(
            fx_mul_s(z, fx_sub_s(FX_ONE as int, z)),
            fx_add_s(ATAN_C1 as int, fx_mul_s(ATAN_C2 as int, z)),
        ),
    )
}

/// Angle of the point (x, z) measured as `atan2(y = first, x = second)`.
pub open spec fn atan2_s(y: int, x: int) -> int {
    if x == 0 && y == 0 {
        0
    } else {
        let ax = fx_abs_s(x);
        let ay = fx_abs_s(y);
        let base = if ax >= ay {
            atan_core_s(fx_div_s(ay, ax))
        } else {
            fx_sub_s(FX_HALF_PI as int, atan_core_s(fx_div_s(ax, ay)))
        };
        let q = if x >= 0 {
            base
        } else {
            fx_sub_s(FX_PI as int, base)
        };
        if y >= 0 {
            q
        } else {
            fx_neg_s(q)
        }
    }
}

/// Truncated Taylor polynomial of arcsine on [0, ASIN_SPLIT].
pub open spec fn asin_core_s(t: int) -> int {
    let t2 = fx_mul_s(t, t);
    let t3 = fx_mul_s(t2, t);
    let t5 = fx_mul_s(t3, t2);
    let t7 = fx_mul_s(t5, t2);
    fx_add_s(
        fx_add_s(fx_add_s(t, fx_mul_s(t3, ASIN_C3 as int)), fx_mul_s(t5, ASIN_C5 as int)),
        fx_mul_s(t7, ASIN_C7 as int),
    )
}

/// Arcsine with the argument clamped into [-1, 1].
pub open spec fn asin_s(v: int) -> int {
    let c = fx_clamp_s(v, -(FX_ONE as int), FX_ONE as int);
    let a = fx_abs_s(c);
    let r = if a <= ASIN_SPLIT as int {
        asin_core_s(a)
    } else {
        fx_sub_s(
            FX_HALF_PI as int,
            asin_core_s(fx_sqrt_s(fx_sub_s(FX_ONE as int, fx_mul_s(a, a)))),
        )
    };
    if c >= 0 {
        r
    } else {
        fx_neg_s(r)
    }
}

fn wrap_pi(a: i64) -> (r: i64)
    ensures
        r as int == wrap_pi_s(a as int),
{
    let mag: u64 = if a >= 0 {
        a as u64
    } else {
        (-(a as i128)) as u64
    };
    let rem: u64 = mag % (FX_TWO_PI as u64);
    let m: i64 = if a >= 0 {
        rem as i64
    } else {
        -(rem as i64)
    };
    if m > FX_PI {
        m - FX_TWO_PI
    } else if m < -FX_PI {
        m + FX_TWO_PI
    } else {
        m
    }
}

fn sin_core(t: i64) -> (r: i64)
    ensures
        r as int == sin_core_s(t as int),
{
    let t2 = fx_mul(t, t);
    let t3 = fx_mul(t2, t);
    let t5 = fx_mul(t3, t2);
    let t7 = fx_mul(t5, t2);
    fx_sub(
        fx_add(fx_sub(t, fx_mul(t3, SIN_C3)), fx_mul(t5, SIN_C5)),
        fx_mul(t7, SIN_C7),
    )
}

/// Fixed-point sine of an angle in radians.
pub fn sin_fx(a: i64) -> (r: i64)
    ensures
        r as int == sin_s(a as int),
{
    let w = wrap_pi(a);
    let f = if w > FX_HALF_PI {
        FX_PI - w
    } else if w < -FX_HALF_PI {
        -FX_PI - w
    } else {
        w
    };
    sin_core(f)
}

/// Fixed-point cosine of an angle in radians.
pub fn cos_fx(a: i64) -> (r: i64)
    ensures
        r as int == cos_s(a as int),
{
    sin_fx(fx_add(a, FX_HALF_PI))
}

fn atan_core(z: i64) -> (r: i64)
    ensures
        r as int == atan_core_s(z as int),
{
    fx_add(
        fx_mul(z, FX_QUARTER_PI),
        fx_mul(fx_mul(z, fx_sub(FX_ONE, z)), fx_add(ATAN_C1, fx_mul(ATAN_C2, z))),
    )
}

/// Fixed-point two-argument arctangent.
pub fn atan2_fx(y: i64, x: i64) -> (r: i64)
    ensures
        r as int == atan2_s(y as int, x as int),
{
    if x == 0 && y == 0 {
        0
    } else {
        let ax = fx_abs(x);
        let ay = fx_abs(y);
        let base = if ax >= ay {
            atan_core(fx_div(ay, ax))
        } else {
            fx_sub(FX_HALF_PI, atan_core(fx_div(ax, ay)))
        };
        let q = if x >= 0 {
            base
        } else {
            fx_sub(FX_PI, base)
        };
        if y >= 0 {
            q
        } else {
            fx_neg(q)
        }
    }
}

fn asin_core(t: i64) -> (r: i64)
    ensures
        r as int == asin_core_s(t as int),
{
    let t2 = fx_mul(t, t);
    let t3 = fx_mul(t2, t);
    let t5 = fx_mul(t3, t2);
    let t7 = fx_mul(t5, t2);
    fx_add(
        fx_add(fx_add(t, fx_mul(t3, ASIN_C3)), fx_mul(t5, ASIN_C5)),
        fx_mul(t7, ASIN_C7),
    )
}

/// Fixed-point arcsine; the argument is clamped into [-1, 1].
pub fn asin_fx(v: i64) -> (r: i64)
    ensures
        r as int == asin_s(v as int),
{
    let c = fx_clamp(v, -FX_ONE, FX_ONE);
    let a = fx_abs(c);
    let r = if a <= ASIN_SPLIT {
        asin_core(a)
    } else {
        fx_sub(FX_HALF_PI, asin_core(fx_sqrt(fx_sub(FX_ONE, fx_mul(a, a)))))
    };
    if c >= 0 {
        r
    } else {
        fx_neg(r)
    }
}

} // verus!
