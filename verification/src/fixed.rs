//! Fixed-point numeric base: all physical quantities in this crate are
//! integers scaled by `SCALE` (micro-units), angles in micro-radians.
use vstd::prelude::*;

verus! {

/// One unit of the workspace, in micro-units.
pub const SCALE: i64 = 1_000_000;

/// The circle constant, in micro-radians (rounded to the nearest integer).
pub const PI_FP: i64 = 3_141_593;

/// A full turn; kept exactly twice `PI_FP` so that angle normalization
/// preserves residues modulo a full turn.
pub const TWO_PI_FP: i64 = 2 * PI_FP;

/// Half of `PI_FP`, rounded down; `PI_FP == 2 * HALF_PI_FP + 1`.
pub const HALF_PI_FP: i64 = 1_570_796;

/// A quarter turn, in micro-radians.
pub const QUARTER_PI_FP: i64 = 785_398;

pub open spec fn abs_sp(a: int) -> int {
    if a < 0 { -a } else { a }
}

pub open spec fn clamp_sp(v: int, lo: int, hi: int) -> int {
    if v < lo { lo } else if v > hi { hi } else { v }
}

/// Sum of squares, the quantity under every Euclidean square root here.
pub open spec fn dist_sq(a: int, b: int) -> int {
    a * a + b * b
}

/// Integer square root, rounded down.
pub open spec fn isqrt_sp(n: nat) -> nat
    decreases n,
{
    if n == 0 {
        0
    } else {
        let r = isqrt_sp((n - 1) as nat);
        if (r + 1) * (r + 1) <= n { r + 1 } else { r }
    }
}

pub proof fn lemma_isqrt_bounds(n: nat)
    ensures
        isqrt_sp(n) * isqrt_sp(n) <= n,
        n < (isqrt_sp(n) + 1) * (isqrt_sp(n) + 1),
    decreases n,
{
    if n == 0 {
        assert(isqrt_sp(n) == 0);
        assert(n < (isqrt_sp(n) + 1) * (isqrt_sp(n) + 1)) by (nonlinear_arith)
            requires n == 0, isqrt_sp(n) == 0,
        ;
    } else {
        let r = isqrt_sp((n - 1) as nat);
        lemma_isqrt_bounds((n - 1) as nat);
        let s = isqrt_sp(n);
        if (r + 1) * (r + 1) <= n {
            assert(s == r + 1);
            assert(s * s <= n) by (nonlinear_arith)
                requires s == r + 1, (r + 1) * (r + 1) <= n,
            ;
            assert(n < (s + 1) * (s + 1)) by (nonlinear_arith)
                requires n - 1 < (r + 1) * (r + 1), r >= 0, s == r + 1,
            ;
        } else {
            assert(s == r);
            assert(s * s <= n) by (nonlinear_arith)
                requires s == r, r * r <= n - 1,
            ;
            assert(n < (s + 1) * (s + 1)) by (nonlinear_arith)
                requires s == r, !((r + 1) * (r + 1) <= n),
            ;
        }
    }
}

pub proof fn lemma_isqrt_unique(n: nat, r: nat)
    requires
        r * r <= n,
        n < (r + 1) * (r + 1),
    ensures
        isqrt_sp(n) == r,
{
    let s = isqrt_sp(n);
    lemma_isqrt_bounds(n);
    if s < r {
        assert((s + 1) * (s + 1) <= r * r) by (nonlinear_arith)
            requires s + 1 <= r, s >= 0,
        ;
    }
    if r < s {
        assert((r + 1) * (r + 1) <= s * s) by (nonlinear_arith)
            requires r + 1 <= s, r >= 0,
        ;
    }
}

/// Comparing a square root against a threshold is the same as comparing
/// the radicand against the squared threshold.
pub proof fn lemma_isqrt_cmp(n: nat, m: nat)
    ensures
        (isqrt_sp(n) >= m) <==> (n >= m * m),
{
    let s = isqrt_sp(n);
    lemma_isqrt_bounds(n);
    if s >= m {
        assert(m * m <= s * s) by (nonlinear_arith)
            requires m <= s, m >= 0,
        ;
    }
    if n >= m * m && s < m {
        assert((s + 1) * (s + 1) <= m * m) by (nonlinear_arith)
            requires s + 1 <= m, s >= 0,
        ;
    }
}

/// Integer square root by bisection.
pub fn isqrt(n: u64) -> (r: u64)
    ensures
        r == isqrt_sp(n as nat),
        r * r <= n,
{
    let mut lo: u64 = 0;
    let mut hi: u64 = 4_294_967_296;
    while hi - lo > 1
        invariant
            lo < hi <= 4_294_967_296,
            lo * lo <= n,
            n < hi * hi || hi == 4_294_967_296,
        decreases hi - lo,
    {
        let mid: u64 = lo + (hi - lo) / 2;
        assert(mid * mid <= 0xffff_ffff_ffff_ffff) by (nonlinear_arith)
            requires mid <= 4_294_967_295,
        ;
        if mid * mid <= n {
            lo = mid;
        } else {
            hi = mid;
        }
    }
    proof {
        if hi == 4_294_967_296 && !(n < hi * hi) {
            assert(false);
        }
        lemma_isqrt_unique(n as nat, lo as nat);
    }
    lo
}

/// Flooring division for a positive divisor; agrees with the Euclidean
/// `/` of specifications also on negative dividends.
pub fn div_fp(a: i64, b: i64) -> (q: i64)
    requires
        b > 0,
        -0x7fff_ffff_ffff_fff0 <= a,
    ensures
        q == a as int / b as int,
{
    if a >= 0 {
        a / b
    } else {
        let na: i64 = -a;
        let q0: i64 = na / b;
        let r0: i64 = na % b;
        proof {
            vstd::arithmetic::div_mod::lemma_fundamental_div_mod(na as int, b as int);
        }
        if r0 == 0 {
            proof {
                assert(a == (-q0) * b + 0) by (nonlinear_arith)
                    requires na == b * (na as int / b as int) + 0, q0 == na as int / b as int, a == -na,
                ;
                vstd::arithmetic::div_mod::lemma_fundamental_div_mod_converse(
                    a as int, b as int, -q0 as int, 0);
            }
            -q0
        } else {
            proof {
                assert(a == (-q0 - 1) * b + (b - r0)) by (nonlinear_arith)
                    requires
                        na == b * (na as int / b as int) + r0,
                        q0 == na as int / b as int,
                        a == -na,
                ;
                vstd::arithmetic::div_mod::lemma_fundamental_div_mod_converse(
                    a as int, b as int, (-q0 - 1) as int, (b - r0) as int);
            }
            -q0 - 1
        }
    }
}

/// A quotient is bounded by `m` whenever the dividend is within
/// `m` multiples of the (positive) divisor.
pub proof fn lemma_div_abs(a: int, b: int, m: int)
    requires
        b > 0,
        m >= 0,
        -(m * b) <= a <= m * b,
    ensures
        -m <= a / b <= m,
{
    vstd::arithmetic::div_mod::lemma_fundamental_div_mod(a, b);
    vstd::arithmetic::div_mod::lemma_mod_bound(a, b);
    let q = a / b;
    let r = a % b;
    assert(q <= m) by (nonlinear_arith)
        requires a == b * q + r, 0 <= r < b, a <= m * b, b > 0,
    ;
    assert(-m <= q) by (nonlinear_arith)
        requires a == b * q + r, 0 <= r < b, -(m * b) <= a, b > 0,
    ;
}

pub fn abs_fp(a: i64) -> (r: i64)
    requires
        a != i64::MIN,
    ensures
        r == abs_sp(a as int),
{
    if a < 0 { -a } else { a }
}

pub fn clamp_fp(v: i64, lo: i64, hi: i64) -> (r: i64)
    requires
        lo <= hi,
    ensures
        r == clamp_sp(v as int, lo as int, hi as int),
{
    if v < lo {
        lo
    } else if v > hi {
        hi
    } else {
        v
    }
}

} // verus!
