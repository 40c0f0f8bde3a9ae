//! Saturating signed 16.16 fixed-point scalars.
//!
//! A value is a raw `i64` counting units of `1/FX_ONE`.  Every operation
//! clamps its mathematical result into `[-FX_MAX, FX_MAX]` instead of
//! overflowing, and division by zero saturates with the sign of the
//! numerator, standing in for the infinities of floating-point slab
//! arithmetic.  Each executable operation returns exactly the value of
//! its spec-level mirror (`fx_add_s`, `fx_mul_s`, ...).
use vstd::prelude::*;

verus! {

/// One in fixed point: raw values count units of 1/65536.
pub const FX_ONE: i64 = 65536;
/// Saturation bound on every raw value (2^40, about 16.7 million units).
pub const FX_MAX: i64 = 1099511627776;
/// One half in fixed point.
pub const FX_HALF: i64 = 32768;
/// Two in fixed point.
pub const FX_TWO: i64 = 131072;
/// Four in fixed point.
pub const FX_FOUR: i64 = 262144;

/// Magnitude of an unbounded integer.
pub open spec fn iabs(a: int) -> int {
    if a >= 0 {
        a
    } else {
        -a
    }
}

/// Division rounding toward zero, with a zero divisor giving zero.
pub open spec fn tdiv(a: int, b: int) -> int {
    if b == 0 {
        0
    } else if (a >= 0) == (b >= 0) {
        iabs(a) / iabs(b)
    } else {
        -(iabs(a) / iabs(b))
    }
}

/// Remainder of truncating division by a positive modulus.
pub open spec fn tmod(a: int, b: int) -> int {
    if b == 0 {
        0
    } else if a >= 0 {
        a % iabs(b)
    } else {
        -((-a) % iabs(b))
    }
}

/// Clamp an unbounded integer into the representable range.
pub open spec fn fx_sat(x: int) -> int {
    if x > FX_MAX as int {
        FX_MAX as int
    } else if x < -(FX_MAX as int) {
        -(FX_MAX as int)
    } else {
        x
    }
}

pub open spec fn fx_add_s(a: int, b: int) -> int {
    fx_sat(a + b)
}

pub open spec fn fx_sub_s(a: int, b: int) -> int {
    fx_sat(a - b)
}

pub open spec fn fx_neg_s(a: int) -> int {
    fx_sat(-a)
}

pub open spec fn fx_abs_s(a: int) -> int {
    fx_sat(iabs(a))
}

pub open spec fn fx_mul_s(a: int, b: int) -> int {
    fx_sat(tdiv(a * b, FX_ONE as int))
}

/// Fixed-point quotient; a zero divisor saturates with the numerator's sign.
pub open spec fn fx_div_s(a: int, b: int) -> int {
    if b == 0 {
        if a > 0 {
            FX_MAX as int
        } else if a < 0 {
            -(FX_MAX as int)
        } else {
            0
        }
    } else {
        fx_sat(tdiv(a * (FX_ONE as int), b))
    }
}

pub open spec fn fx_max_s(a: int, b: int) -> int {
    if a >= b {
        a
    } else {
        b
    }
}

pub open spec fn fx_min_s(a: int, b: int) -> int {
    if a <= b {
        a
    } else {
        b
    }
}

pub open spec fn fx_clamp_s(a: int, lo: int, hi: int) -> int {
    fx_min_s(fx_max_s(a, lo), hi)
}

/// A plain integer as a fixed value.
pub open spec fn fx_of_int_s(n: int) -> int {
    fx_sat(n * (FX_ONE as int))
}

proof fn lemma_sign_product(a: int, b: int)
    ensures
        ((a < 0) != (b < 0)) ==> a * b <= 0,
        (!((a < 0) != (b < 0))) ==> a * b >= 0,
        iabs(a * b) == iabs(a) * iabs(b),
{
    assert(((a < 0) != (b < 0)) ==> a * b <= 0) by (nonlinear_arith);
    assert((!((a < 0) != (b < 0))) ==> a * b >= 0) by (nonlinear_arith);
    assert(iabs(a * b) == iabs(a) * iabs(b)) by (nonlinear_arith);
}

fn fx_clip(x: i128) -> (r: i64)
    ensures
        r as int == fx_sat(x as int),
{
    if x > FX_MAX as i128 {
        FX_MAX
    } else if x < -(FX_MAX as i128) {
        -FX_MAX
    } else {
        x as i64
    }
}

fn abs_u64(a: i64) -> (r: u64)
    ensures
        r as int == iabs(a as int),
{
    if a >= 0 {
        a as u64
    } else {
        (-(a as i128)) as u64
    }
}

fn fx_clip_mag(neg: bool, m: u128) -> (r: i64)
    ensures
        r as int == fx_sat(
            if neg {
                -(m as int)
            } else {
                m as int
            },
        ),
{
    if m > FX_MAX as u128 {
        if neg {
            -FX_MAX
        } else {
            FX_MAX
        }
    } else {
        if neg {
            -(m as i64)
        } else {
            m as i64
        }
    }
}

pub fn fx_add(a: i64, b: i64) -> (r: i64)
    ensures
        r as int == fx_add_s(a as int, b as int),
{
    fx_clip(a as i128 + b as i128)
}

pub fn fx_sub(a: i64, b: i64) -> (r: i64)
    ensures
        r as int == fx_sub_s(a as int, b as int),
{
    fx_clip(a as i128 - b as i128)
}

pub fn fx_neg(a: i64) -> (r: i64)
    ensures
        r as int == fx_neg_s(a as int),
{
    fx_clip(-(a as i128))
}

pub fn fx_abs(a: i64) -> (r: i64)
    ensures
        r as int == fx_abs_s(a as int),
{
    if a >= 0 {
        fx_clip(a as i128)
    } else {
        fx_neg(a)
    }
}

pub fn fx_mul(a: i64, b: i64) -> (r: i64)
    ensures
        r as int == fx_mul_s(a as int, b as int),
{
    let ua: u64 = abs_u64(a);
    let ub: u64 = abs_u64(b);
    proof {
        assert((ua as int) * (ub as int) < 0x100000000000000000000000000000000)
            by (nonlinear_arith)
            requires
                ua as int <= 0xffffffffffffffff,
                ub as int <= 0xffffffffffffffff;
    }
    let p: u128 = (ua as u128) * (ub as u128);
    let q: u128 = p / (FX_ONE as u128);
    let neg: bool = (a < 0) != (b < 0);
    proof {
        lemma_sign_product(a as int, b as int);
    }
    fx_clip_mag(neg, q)
}

pub fn fx_div(a: i64, b: i64) -> (r: i64)
    ensures
        r as int == fx_div_s(a as int, b as int),
{
    if b == 0 {
        if a > 0 {
            FX_MAX
        } else if a < 0 {
            -FX_MAX
        } else {
            0
        }
    } else {
        let ua: u64 = abs_u64(a);
        let ub: u64 = abs_u64(b);
        proof {
            assert((ua as int) * (FX_ONE as int) < 0x100000000000000000000000000000000)
                by (nonlinear_arith)
                requires
                    ua as int <= 0xffffffffffffffff;
        }
        let p: u128 = (ua as u128) * (FX_ONE as u128);
        let q: u128 = p / (ub as u128);
        let neg: bool = (a < 0) != (b < 0);
        proof {
            lemma_sign_product(a as int, FX_ONE as int);
            lemma_sign_product(b as int, 1);
            assert(iabs((a as int) * (FX_ONE as int)) == iabs(a as int) * (FX_ONE as int));
            assert(((a as int) * (FX_ONE as int) >= 0) == (a as int >= 0)) by (nonlinear_arith);
        }
        fx_clip_mag(neg, q)
    }
}

pub fn fx_max(a: i64, b: i64) -> (r: i64)
    ensures
        r as int == fx_max_s(a as int, b as int),
{
    if a >= b {
        a
    } else {
        b
    }
}

pub fn fx_min(a: i64, b: i64) -> (r: i64)
    ensures
        r as int == fx_min_s(a as int, b as int),
{
    if a <= b {
        a
    } else {
        b
    }
}

pub fn fx_clamp(a: i64, lo: i64, hi: i64) -> (r: i64)
    ensures
        r as int == fx_clamp_s(a as int, lo as int, hi as int),
{
    fx_min(fx_max(a, lo), hi)
}

pub fn fx_of_int(n: i64) -> (r: i64)
    ensures
        r as int == fx_of_int_s(n as int),
{
    proof {
        assert(-0x80000000000000000000 <= (n as int) * (FX_ONE as int)
            < 0x80000000000000000000) by (nonlinear_arith)
            requires
                -0x8000000000000000 <= n as int,
                (n as int) < 0x8000000000000000;
    }
    fx_clip((n as i128) * (FX_ONE as i128))
}

/// Floor of the square root of a natural number.
pub open spec fn isqrt_s(n: nat) -> nat
    decreases n,
{
    if n == 0 {
        0
    } else {
        let r = isqrt_s((n - 1) as nat);
        if (r + 1) * (r + 1) <= n {
            r + 1
        } else {
            r
        }
    }
}

pub proof fn lemma_isqrt_bounds(n: nat)
    ensures
        (isqrt_s(n) as int) * (isqrt_s(n) as int) <= n as int,
        (n as int) < (isqrt_s(n) as int + 1) * (isqrt_s(n) as int + 1),
    decreases n,
{
    if n == 0 {
        assert(isqrt_s(0) == 0);
    } else {
        lemma_isqrt_bounds((n - 1) as nat);
        reveal_with_fuel(isqrt_s, 2);
        let r = isqrt_s((n - 1) as nat) as int;
        assert(r * r <= n - 1);
        assert(n - 1 < (r + 1) * (r + 1));
        if (r + 1) * (r + 1) <= n {
            assert(isqrt_s(n) as int == r + 1);
            assert(n == (r + 1) * (r + 1));
            assert((r + 1) * (r + 1) < (r + 2) * (r + 2)) by (nonlinear_arith)
                requires
                    0 <= r;
        } else {
            assert(isqrt_s(n) as int == r);
        }
    }
}

pub proof fn lemma_isqrt_unique(n: nat, r: nat)
    requires
        (r as int) * (r as int) <= n as int,
        (n as int) < (r as int + 1) * (r as int + 1),
    ensures
        r == isqrt_s(n),
{
    lemma_isqrt_bounds(n);
    let s = isqrt_s(n) as int;
    let ri = r as int;
    if ri < s {
        assert((ri + 1) * (ri + 1) <= s * s) by (nonlinear_arith)
            requires
                0 <= ri,
                ri + 1 <= s;
    }
    if s < ri {
        assert((s + 1) * (s + 1) <= ri * ri) by (nonlinear_arith)
            requires
                0 <= s,
                s + 1 <= ri;
    }
}

fn isqrt128(n: u128) -> (r: u64)
    requires
        n < 0x100000000000000000000,
    ensures
        r as nat == isqrt_s(n as nat),
{
    let mut lo: u64 = 0;
    let mut hi: u64 = 1099511627776;
    proof {
        assert((hi as int) * (hi as int) == 0x100000000000000000000);
    }
    while hi - lo > 1
        invariant
            lo < hi,
            hi <= 1099511627776,
            (lo as int) * (lo as int) <= n as int,
            (n as int) < (hi as int) * (hi as int),
        decreases hi - lo,
    {
        let mid: u64 = lo + (hi - lo) / 2;
        proof {
            assert((mid as int) * (mid as int) <= 0x100000000000000000000)
                by (nonlinear_arith)
                requires
                    mid as int <= 0x10000000000;
        }
        let sq: u128 = (mid as u128) * (mid as u128);
        if sq <= n {
            lo = mid;
        } else {
            hi = mid;
        }
    }
    proof {
        lemma_isqrt_unique(n as nat, lo as nat);
    }
    lo
}

/// Fixed-point square root: nonpositive inputs give zero.
pub open spec fn fx_sqrt_s(a: int) -> int {
    if a <= 0 {
        0
    } else {
        isqrt_s((a * (FX_ONE as int)) as nat) as int
    }
}

pub fn fx_sqrt(a: i64) -> (r: i64)
    ensures
        r as int == fx_sqrt_s(a as int),
{
    if a <= 0 {
        0
    } else {
        proof {
            assert((a as int) * (FX_ONE as int) < 0x100000000000000000000)
                by (nonlinear_arith)
                requires
                    0 < a as int,
                    (a as int) < 0x8000000000000000;
        }
        let n: u128 = (a as u128) * (FX_ONE as u128);
        let r = isqrt128(n);
        proof {
            lemma_isqrt_bounds(n as nat);
            assert(r as int <= 0x7fffffffffffffff) by (nonlinear_arith)
                requires
                    (r as int) * (r as int) <= n as int,
                    n < 0x100000000000000000000,
                    r as int >= 0;
        }
        r as i64
    }
}

/// Phong power: repeated fixed-point multiplication.
pub open spec fn fx_pow_s(b: int, e: nat) -> int
    decreases e,
{
    if e == 0 {
        FX_ONE as int
    } else {
        fx_mul_s(b, fx_pow_s(b, (e - 1) as nat))
    }
}

pub fn fx_pow(b: i64, e: u32) -> (r: i64)
    ensures
        r as int == fx_pow_s(b as int, e as nat),
{
    let mut acc: i64 = FX_ONE;
    let mut i: u32 = 0;
    while i < e
        invariant
            i <= e,
            acc as int == fx_pow_s(b as int, i as nat),
        decreases e - i,
    {
        acc = fx_mul(b, acc);
        i = i + 1;
    }
    acc
}

} // verus!
