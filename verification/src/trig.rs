//! Fixed-point trigonometry on micro-radians: the closed-form kinematics
//! and steering of this crate are defined over these integer
//! approximations of sine, cosine and the two-argument arctangent.
use vstd::prelude::*;
use crate::fixed::{SCALE, PI_FP, HALF_PI_FP, QUARTER_PI_FP, abs_sp, clamp_sp, clamp_fp};
use crate::angle::{wrap_sp, wrap};
use vstd::arithmetic::div_mod::{lemma_fundamental_div_mod, lemma_mod_bound};

verus! {

/// Truncated Taylor series for sine on the first quarter turn,
/// evaluated in fixed point: z - z^3/6 + z^5/120 - z^7/5040.
pub open spec fn sin_taylor(z: int) -> int {
    let z2 = (z * z) / 1_000_000;
    let t2 = (z * z2) / 6_000_000;
    let t4 = (t2 * z2) / 20_000_000;
    let t6 = (t4 * z2) / 42_000_000;
    z - t2 + t4 - t6
}

/// Sine on [0, PI_FP], by reflection onto the first quarter turn.
pub open spec fn sin_half(x: int) -> int {
    if x > HALF_PI_FP { sin_taylor(PI_FP - x) } else { sin_taylor(x) }
}

/// Sine on [-PI_FP, PI_FP], scaled by `SCALE` and clipped into one unit.
pub open spec fn sin_sp(x: int) -> int {
    clamp_sp(if x < 0 { -sin_half(-x) } else { sin_half(x) }, -SCALE as int, SCALE as int)
}

/// Cosine as the sine of the complementary angle.
pub open spec fn cos_sp(x: int) -> int {
    sin_sp(wrap_sp(HALF_PI_FP - x))
}

pub fn sin_fp(x: i64) -> (r: i64)
    requires
        -PI_FP <= x <= PI_FP,
    ensures
        r == sin_sp(x as int),
        -SCALE <= r <= SCALE,
{
    let neg: bool = x < 0;
    let ax: i64 = if neg { -x } else { x };
    let z: i64 = if ax > HALF_PI_FP { PI_FP - ax } else { ax };
    assert(0 <= z <= HALF_PI_FP);
    assert(z * z <= 2_467_400_073_616) by (nonlinear_arith)
        requires 0 <= z <= 1_570_796,
    ;
    let z2: i64 = (z * z) / 1_000_000;
    assert(0 <= z2 <= 2_467_400);
    assert(z * z2 <= 3_876_201_966_400) by (nonlinear_arith)
        requires 0 <= z <= 1_570_796, 0 <= z2 <= 2_467_400,
    ;
    let t2: i64 = (z * z2) / 6_000_000;
    assert(0 <= t2 <= 646_034);
    assert(t2 * z2 <= 1_594_026_293_600) by (nonlinear_arith)
        requires 0 <= t2 <= 646_034, 0 <= z2 <= 2_467_400,
    ;
    let t4: i64 = (t2 * z2) / 20_000_000;
    assert(0 <= t4 <= 79_702);
    assert(t4 * z2 <= 196_656_714_800) by (nonlinear_arith)
        requires 0 <= t4 <= 79_702, 0 <= z2 <= 2_467_400,
    ;
    let t6: i64 = (t4 * z2) / 42_000_000;
    assert(0 <= t6 <= 4_683);
    let s0: i64 = z - t2 + t4 - t6;
    let sv: i64 = if neg { -s0 } else { s0 };
    clamp_fp(sv, -SCALE, SCALE)
}

pub fn cos_fp(x: i64) -> (r: i64)
    requires
        -PI_FP <= x <= PI_FP,
    ensures
        r == cos_sp(x as int),
        -SCALE <= r <= SCALE,
{
    let w: i64 = wrap(HALF_PI_FP - x);
    sin_fp(w)
}

/// Polynomial approximation of the arctangent on [0, 1], in fixed point:
/// atan(q) ~ (pi/4) q + q (1 - q) (0.2447 + 0.0663 q).
pub open spec fn atan_unit_sp(q: int) -> int {
    let lin = (q * QUARTER_PI_FP) / 1_000_000;
    let u = (q * (SCALE - q)) / 1_000_000;
    let w = 244_700 + (66_300 * q) / 1_000_000;
    lin + (u * w) / 1_000_000
}

fn atan_unit_fp(q: i64) -> (r: i64)
    requires
        0 <= q <= SCALE,
    ensures
        r == atan_unit_sp(q as int),
        0 <= r <= 863_148,
{
    assert(q * QUARTER_PI_FP <= 785_398_000_000) by (nonlinear_arith)
        requires 0 <= q <= 1_000_000,
    ;
    let lin: i64 = (q * QUARTER_PI_FP) / 1_000_000;
    assert(0 <= lin <= 785_398);
    assert(0 <= q * (SCALE - q) <= 250_000_000_000) by (nonlinear_arith)
        requires 0 <= q <= 1_000_000, SCALE == 1_000_000,
    ;
    let u: i64 = (q * (SCALE - q)) / 1_000_000;
    assert(0 <= u <= 250_000);
    let w: i64 = 244_700 + (66_300 * q) / 1_000_000;
    assert(244_700 <= w <= 311_000);
    assert(0 <= u * w <= 77_750_000_000) by (nonlinear_arith)
        requires 0 <= u <= 250_000, 244_700 <= w <= 311_000,
    ;
    let poly: i64 = (u * w) / 1_000_000;
    lin + poly
}

/// The quadrant-resolved arctangent of y/x, in (-PI_FP, PI_FP] except for
/// the negative x axis approached from below, which yields -PI_FP.
pub open spec fn atan2_sp(y: int, x: int) -> int {
    let ay = abs_sp(y);
    let ax = abs_sp(x);
    if ay == 0 && ax == 0 {
        0
    } else {
        let base = if ay <= ax {
            atan_unit_sp((ay * SCALE) / ax)
        } else {
            HALF_PI_FP - atan_unit_sp((ax * SCALE) / ay)
        };
        let mag = if x >= 0 { base } else { PI_FP - base };
        if y >= 0 { mag } else { -mag }
    }
}

/// Quotient of two scaled magnitudes stays within one unit when the
/// numerator does not exceed the denominator.
proof fn lemma_ratio_unit(a: int, b: int)
    requires
        0 <= a <= b,
        0 < b,
    ensures
        0 <= (a * 1_000_000) / b <= 1_000_000,
{
    let n = a * 1_000_000;
    lemma_fundamental_div_mod(n, b);
    lemma_mod_bound(n, b);
    let q = n / b;
    assert(0 <= n) by (nonlinear_arith)
        requires 0 <= a, n == a * 1_000_000,
    ;
    assert(q >= 0) by (nonlinear_arith)
        requires n == b * q + n % b, 0 <= n % b < b, 0 < b, n >= 0,
    ;
    assert(n <= b * 1_000_000) by (nonlinear_arith)
        requires a <= b, n == a * 1_000_000, 0 < b,
    ;
    assert(q <= 1_000_000) by (nonlinear_arith)
        requires n == b * q + n % b, 0 <= n % b < b, 0 < b, n <= b * 1_000_000,
    ;
}

pub fn atan2_fp(y: i64, x: i64) -> (r: i64)
    requires
        -1_000_000_000 <= y <= 1_000_000_000,
        -1_000_000_000 <= x <= 1_000_000_000,
    ensures
        r == atan2_sp(y as int, x as int),
        -PI_FP <= r <= PI_FP,
{
    let ay: i64 = if y < 0 { -y } else { y };
    let ax: i64 = if x < 0 { -x } else { x };
    if ay == 0 && ax == 0 {
        return 0;
    }
    let base: i64 = if ay <= ax {
        proof { lemma_ratio_unit(ay as int, ax as int); }
        atan_unit_fp((ay * SCALE) / ax)
    } else {
        proof { lemma_ratio_unit(ax as int, ay as int); }
        HALF_PI_FP - atan_unit_fp((ax * SCALE) / ay)
    };
    assert(0 <= base <= HALF_PI_FP);
    let mag: i64 = if x >= 0 { base } else { PI_FP - base };
    if y >= 0 { mag } else { -mag }
}

} // verus!
