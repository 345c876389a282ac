//! Saturating fixed-point arithmetic.
//!
//! Every quantity in the model is stored as an `i64` holding a multiple of
//! `1 / SCALE`.  Multiplication and division truncate toward zero, and every
//! operation saturates at `FIX_MAX` in magnitude, so no verified function can
//! overflow or panic.  The spec functions here give each executable operation
//! its exact mathematical meaning over `int`.

use vstd::prelude::*;

verus! {

/// Number of fixed-point units in one whole model unit.
pub const SCALE: i64 = 10000;

/// Largest representable magnitude; results are clamped to `[-FIX_MAX, FIX_MAX]`.
pub const FIX_MAX: i64 = i64::MAX;

/// Fixed-point representation of 1.0.
pub const FIX_ONE: i64 = 10000;

/// Clamp an unbounded integer into the representable fixed-point range.
pub open spec fn sat(v: int) -> int {
    if v > FIX_MAX as int {
        FIX_MAX as int
    } else if v < -(FIX_MAX as int) {
        -(FIX_MAX as int)
    } else {
        v
    }
}

/// Division truncating toward zero (the semantics of the executable ops),
/// defined for `b != 0`.
pub open spec fn tdiv(a: int, b: int) -> int {
    let q = (vstd::math::abs(a) / vstd::math::abs(b)) as int;
    if (a < 0) != (b < 0) {
        -q
    } else {
        q
    }
}

/// Fixed-point product: `a * b / SCALE`, truncated and saturated.
pub open spec fn fmul(a: int, b: int) -> int {
    sat(tdiv(a * b, SCALE as int))
}

/// Fixed-point quotient: `a * SCALE / b`, truncated and saturated.
pub open spec fn fdiv(a: int, b: int) -> int {
    sat(tdiv(a * SCALE as int, b))
}

/// Scale a fixed-point value by the plain rational `n / d`.
pub open spec fn fratio(a: int, n: int, d: int) -> int {
    sat(tdiv(a * n, d))
}

/// Saturating sum.
pub open spec fn fadd(a: int, b: int) -> int {
    sat(a + b)
}

/// Saturating difference.
pub open spec fn fsub(a: int, b: int) -> int {
    sat(a - b)
}

pub open spec fn fmax(a: int, b: int) -> int {
    if a >= b {
        a
    } else {
        b
    }
}

pub open spec fn fmin(a: int, b: int) -> int {
    if a <= b {
        a
    } else {
        b
    }
}

pub open spec fn fclamp(a: int, lo: int, hi: int) -> int {
    fmax(lo, fmin(a, hi))
}

/// `|x * y| == |x| * |y|`.
proof fn lemma_abs_mul(x: int, y: int)
    ensures
        vstd::math::abs(x * y) == vstd::math::abs(x) * vstd::math::abs(y),
{
    assert(vstd::math::abs(x * y) == vstd::math::abs(x) * vstd::math::abs(y)) by (nonlinear_arith);
}

/// The sign of a product.
proof fn lemma_sign_mul(x: int, y: int)
    ensures
        (x * y < 0) <==> ((x < 0) != (y < 0)) && x != 0 && y != 0,
{
    assert((x * y < 0) <==> ((x < 0) != (y < 0)) && x != 0 && y != 0) by (nonlinear_arith);
}

/// Truncating division of a product, expressed over magnitudes: this is how
/// the executable operations compute `tdiv(x * y, d)`.
proof fn lemma_tdiv_mul(x: int, y: int, d: int)
    requires
        d != 0,
    ensures
        tdiv(x * y, d) == if ((x < 0) != (y < 0)) != (d < 0) {
            -(((vstd::math::abs(x) * vstd::math::abs(y)) / vstd::math::abs(d)) as int)
        } else {
            ((vstd::math::abs(x) * vstd::math::abs(y)) / vstd::math::abs(d)) as int
        },
{
    lemma_abs_mul(x, y);
    lemma_sign_mul(x, y);
    if x * y == 0 {
        assert(vstd::math::abs(x) * vstd::math::abs(y) == 0);
    }
}

/// A fixed product of nonnegative factors is nonnegative.
pub proof fn lemma_fmul_nonneg(a: int, b: int)
    requires
        a >= 0,
        b >= 0,
    ensures
        fmul(a, b) >= 0,
{
    assert(a * b >= 0) by (nonlinear_arith)
        requires a >= 0 && b >= 0;
}

/// A fixed quotient of a nonnegative value by a positive one is nonnegative.
pub proof fn lemma_fdiv_nonneg(a: int, b: int)
    requires
        a >= 0,
        b > 0,
    ensures
        fdiv(a, b) >= 0,
{
    assert(a * SCALE as int >= 0) by (nonlinear_arith)
        requires a >= 0;
}

/// A fixed ratio of a nonnegative value by a positive plain fraction is
/// nonnegative.
pub proof fn lemma_fratio_nonneg(a: int, n: int, d: int)
    requires
        a >= 0,
        n >= 0,
        d > 0,
    ensures
        fratio(a, n, d) >= 0,
{
    assert(a * n >= 0) by (nonlinear_arith)
        requires a >= 0 && n >= 0;
}

/// Magnitude of an `i64`, exact also for `i64::MIN`.
fn mag(a: i64) -> (m: u64)
    ensures
        m == vstd::math::abs(a as int),
{
    if a >= 0 {
        a as u64
    } else {
        ((-(a + 1)) as u64) + 1
    }
}

/// Clamp a magnitude to `FIX_MAX` and apply a sign.
fn signed_sat(m: u128, neg: bool) -> (r: i64)
    ensures
        r as int == if neg {
            sat(-(m as int))
        } else {
            sat(m as int)
        },
{
    let c: i64 = if m > FIX_MAX as u128 {
        FIX_MAX
    } else {
        m as i64
    };
    if neg {
        -c
    } else {
        c
    }
}

/// Saturating addition.
pub fn fix_add(a: i64, b: i64) -> (r: i64)
    ensures
        r as int == fadd(a as int, b as int),
{
    let s: i128 = a as i128 + b as i128;
    if s > FIX_MAX as i128 {
        FIX_MAX
    } else if s < -(FIX_MAX as i128) {
        -FIX_MAX
    } else {
        s as i64
    }
}

/// Saturating subtraction.
pub fn fix_sub(a: i64, b: i64) -> (r: i64)
    ensures
        r as int == fsub(a as int, b as int),
{
    let s: i128 = a as i128 - b as i128;
    if s > FIX_MAX as i128 {
        FIX_MAX
    } else if s < -(FIX_MAX as i128) {
        -FIX_MAX
    } else {
        s as i64
    }
}

/// Fixed-point multiplication: truncating, saturating.
pub fn fix_mul(a: i64, b: i64) -> (r: i64)
    ensures
        r as int == fmul(a as int, b as int),
{
    let am = mag(a);
    let bm = mag(b);
    proof {
        assert((am as int) * (bm as int) <= (u64::MAX as int) * (u64::MAX as int))
            by (nonlinear_arith)
            requires am <= u64::MAX && bm <= u64::MAX;
    }
    let p: u128 = (am as u128) * (bm as u128) / (SCALE as u128);
    let neg = (a < 0) != (b < 0);
    proof {
        lemma_tdiv_mul(a as int, b as int, SCALE as int);
    }
    signed_sat(p, neg)
}

/// Fixed-point division: truncating, saturating.  The divisor must be nonzero.
pub fn fix_div(a: i64, b: i64) -> (r: i64)
    requires
        b != 0,
    ensures
        r as int == fdiv(a as int, b as int),
{
    let am = mag(a);
    let bm = mag(b);
    proof {
        assert((am as int) * (SCALE as int) <= (u64::MAX as int) * (SCALE as int))
            by (nonlinear_arith)
            requires am <= u64::MAX;
    }
    let p: u128 = (am as u128) * (SCALE as u128) / (bm as u128);
    let neg = (a < 0) != (b < 0);
    proof {
        lemma_tdiv_mul(a as int, SCALE as int, b as int);
    }
    signed_sat(p, neg)
}

/// Scale `a` by the plain rational `n / d` (no `SCALE` factor involved):
/// used for dimensionless coefficients too small to store in fixed point.
pub fn fix_ratio(a: i64, n: u32, d: u64) -> (r: i64)
    requires
        d != 0,
    ensures
        r as int == fratio(a as int, n as int, d as int),
{
    let am = mag(a);
    proof {
        assert((am as int) * (n as int) <= (u64::MAX as int) * (u32::MAX as int))
            by (nonlinear_arith)
            requires am <= u64::MAX && n <= u32::MAX;
    }
    let p: u128 = (am as u128) * (n as u128) / (d as u128);
    let neg = a < 0 && n > 0;
    proof {
        lemma_tdiv_mul(a as int, n as int, d as int);
        if n == 0 {
            assert(vstd::math::abs(a as int) * 0 == 0);
        }
    }
    signed_sat(p, neg)
}

/// Halve a value, truncating toward zero.
pub open spec fn fhalf(a: int) -> int {
    tdiv(a, 2)
}

pub fn fix_halve(a: i64) -> (r: i64)
    ensures
        r as int == fhalf(a as int),
{
    let m = mag(a) / 2;
    if a < 0 {
        -(m as i64)
    } else {
        m as i64
    }
}

/// `k * dt / den` over fixed-point `k` and `dt` and a small plain integer
/// `den`, in one fused truncation: the integrator's stage weights.
pub open spec fn fscaled(k: int, dt: int, den: int) -> int {
    sat(tdiv(k * dt, den * SCALE as int))
}

pub fn fix_scaled(k: i64, dt: i64, den: u32) -> (r: i64)
    requires
        0 < den <= 1000,
    ensures
        r as int == fscaled(k as int, dt as int, den as int),
{
    let km = mag(k);
    let dm = mag(dt);
    proof {
        assert((km as int) * (dm as int) <= (u64::MAX as int) * (u64::MAX as int))
            by (nonlinear_arith)
            requires km <= u64::MAX && dm <= u64::MAX;
    }
    let p: u128 = (km as u128) * (dm as u128) / ((den as u128) * (SCALE as u128));
    let neg = (k < 0) != (dt < 0);
    proof {
        lemma_tdiv_mul(k as int, dt as int, den as int * SCALE as int);
        assert(vstd::math::abs(den as int * SCALE as int) == (den as int) * (SCALE as int));
    }
    signed_sat(p, neg)
}

/// `base` to the power `n`, where `base` is fixed point and the exponent is a
/// plain count; truncation is applied after each factor.
pub open spec fn fpow(base: int, n: nat) -> int
    decreases n,
{
    if n == 0 {
        SCALE as int
    } else {
        fmul(fpow(base, (n - 1) as nat), base)
    }
}

/// Compound growth over a fixed-point span of `years >= 0`: `base` raised to
/// the whole years, blended linearly across the fractional year.
pub open spec fn fgrowth(base: int, years: int) -> int {
    let n = tdiv(years, SCALE as int);
    let frac = years - n * SCALE as int;
    fmul(fpow(base, n as nat), fadd(SCALE as int, fmul(frac, fsub(base, SCALE as int))))
}

pub fn fix_pow(base: i64, n: u64) -> (r: i64)
    ensures
        r as int == fpow(base as int, n as nat),
{
    let mut acc: i64 = SCALE;
    let mut i: u64 = 0;
    while i < n
        invariant
            0 <= i <= n,
            acc as int == fpow(base as int, i as nat),
        decreases n - i,
    {
        acc = fix_mul(acc, base);
        i = i + 1;
    }
    acc
}

pub fn fix_growth(base: i64, years: i64) -> (r: i64)
    requires
        years >= 0,
    ensures
        r as int == fgrowth(base as int, years as int),
{
    let n: u64 = (years as u64) / (SCALE as u64);
    let frac: i64 = ((years as u64) % (SCALE as u64)) as i64;
    proof {
        assert(vstd::math::abs(years as int) == years as int);
        assert(vstd::math::abs(SCALE as int) == SCALE as int);
        assert(n as int == tdiv(years as int, SCALE as int));
        assert(frac as int == years as int - (n as int) * (SCALE as int));
    }
    let p = fix_pow(base, n);
    let blend = fix_add(SCALE, fix_mul(frac, fix_sub(base, SCALE)));
    fix_mul(p, blend)
}

pub fn fix_max(a: i64, b: i64) -> (r: i64)
    ensures
        r as int == fmax(a as int, b as int),
{
    if a >= b {
        a
    } else {
        b
    }
}

pub fn fix_min(a: i64, b: i64) -> (r: i64)
    ensures
        r as int == fmin(a as int, b as int),
{
    if a <= b {
        a
    } else {
        b
    }
}

pub fn fix_clamp(a: i64, lo: i64, hi: i64) -> (r: i64)
    ensures
        r as int == fclamp(a as int, lo as int, hi as int),
{
    fix_max(lo, fix_min(a, hi))
}

} // verus!
