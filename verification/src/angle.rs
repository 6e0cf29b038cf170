//! Angle normalization and signed angular differences, in micro-radians.
use vstd::prelude::*;
use crate::fixed::{PI_FP, TWO_PI_FP, HALF_PI_FP, abs_sp, div_fp, abs_fp};
use vstd::arithmetic::div_mod::{
    lemma_fundamental_div_mod, lemma_mod_bound, lemma_small_mod, lemma_mod_multiples_vanish,
    lemma_add_mod_noop,
};

verus! {

/// The canonical representative of an angle, in the half-open interval
/// (-PI_FP, PI_FP]: the residue modulo a full turn, shifted down by one
/// turn when it lands above PI_FP.
pub open spec fn wrap_sp(a: int) -> int {
    let m = a % (TWO_PI_FP as int);
    if m > PI_FP { m - TWO_PI_FP } else { m }
}

pub proof fn lemma_wrap_range(a: int)
    ensures
        -PI_FP < wrap_sp(a) <= PI_FP,
{
    lemma_mod_bound(a, TWO_PI_FP as int);
}

/// Normalizing is idempotent: a value already in (-PI_FP, PI_FP] is its
/// own canonical representative.
pub proof fn lemma_wrap_idempotent(a: int)
    ensures
        wrap_sp(wrap_sp(a)) == wrap_sp(a),
        -PI_FP < wrap_sp(a) <= PI_FP,
{
    lemma_mod_bound(a, TWO_PI_FP as int);
    let r = wrap_sp(a);
    if r >= 0 {
        lemma_small_mod(r as nat, TWO_PI_FP as nat);
    } else {
        lemma_small_mod((r + TWO_PI_FP) as nat, TWO_PI_FP as nat);
        lemma_mod_multiples_vanish(1, r, TWO_PI_FP as int);
    }
}

/// A value already in (-PI_FP, PI_FP] is its own canonical
/// representative.
pub proof fn lemma_wrap_fixed(a: int)
    requires
        -PI_FP < a <= PI_FP,
    ensures
        wrap_sp(a) == a,
{
    if a >= 0 {
        lemma_small_mod(a as nat, TWO_PI_FP as nat);
    } else {
        lemma_small_mod((a + TWO_PI_FP) as nat, TWO_PI_FP as nat);
        lemma_mod_multiples_vanish(1, a, TWO_PI_FP as int);
    }
}

/// Normalize an angle into (-PI_FP, PI_FP].
pub fn wrap(a: i64) -> (r: i64)
    requires
        a >= i64::MIN + TWO_PI_FP,
    ensures
        r == wrap_sp(a as int),
        -PI_FP < r <= PI_FP,
{
    proof {
        lemma_fundamental_div_mod(a as int, TWO_PI_FP as int);
        lemma_mod_bound(a as int, TWO_PI_FP as int);
    }
    let q: i64 = div_fp(a, TWO_PI_FP);
    let p: i64 = TWO_PI_FP * q;
    let m: i64 = a - p;
    if m > PI_FP {
        m - TWO_PI_FP
    } else {
        m
    }
}

/// The minimum-magnitude steering difference between two headings: the
/// smaller in magnitude of the wrapped difference and the wrapped
/// difference shifted by half a turn (a heading is treated as equivalent
/// modulo half a turn); the shifted candidate wins ties.
pub open spec fn sad_sp(actual: int, desired: int) -> int {
    let d1 = wrap_sp(desired - actual);
    let d2 = wrap_sp(desired - actual + PI_FP);
    if abs_sp(d1) < abs_sp(d2) { d1 } else { d2 }
}

/// The two candidate differences are half a turn apart within
/// (-PI_FP, PI_FP], so their magnitudes sum to a half-turn constant and
/// the chosen one is at most a quarter turn.
pub proof fn lemma_sad_bound(actual: int, desired: int)
    ensures
        abs_sp(sad_sp(actual, desired)) <= HALF_PI_FP,
{
    let x = desired - actual;
    let t = TWO_PI_FP as int;
    lemma_mod_bound(x, t);
    lemma_add_mod_noop(x, PI_FP as int, t);
    lemma_mod_bound(PI_FP as int, t);
    lemma_small_mod(PI_FP as nat, TWO_PI_FP as nat);
    let m = x % t;
    let m2 = (x + PI_FP) % t;
    if m + PI_FP < t {
        lemma_small_mod((m + PI_FP) as nat, TWO_PI_FP as nat);
        lemma_add_mod_noop(m, PI_FP as int, t);
        lemma_small_mod(m as nat, TWO_PI_FP as nat);
        assert(m2 == m + PI_FP);
    } else {
        lemma_small_mod((m + PI_FP - t) as nat, TWO_PI_FP as nat);
        lemma_mod_multiples_vanish(1, m + PI_FP - t, t);
        lemma_add_mod_noop(m, PI_FP as int, t);
        lemma_small_mod(m as nat, TWO_PI_FP as nat);
        assert(m2 == m + PI_FP - t);
    }
}

/// The minimum-magnitude angular difference that steers one heading
/// toward another.
pub fn signed_angle_diff(actual: i64, desired: i64) -> (r: i64)
    requires
        -0x2000_0000_0000_0000 <= actual <= 0x2000_0000_0000_0000,
        -0x2000_0000_0000_0000 <= desired <= 0x2000_0000_0000_0000,
    ensures
        r == sad_sp(actual as int, desired as int),
        abs_sp(r as int) <= HALF_PI_FP,
{
    let d: i64 = desired - actual;
    let d1: i64 = wrap(d);
    let d2: i64 = wrap(d + PI_FP);
    let a1: i64 = abs_fp(d1);
    let a2: i64 = abs_fp(d2);
    proof {
        lemma_sad_bound(actual as int, desired as int);
    }
    if a1 < a2 {
        d1
    } else {
        d2
    }
}

} // verus!
