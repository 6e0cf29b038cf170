//! Euclidean and angular distance measures.
use vstd::prelude::*;
use crate::fixed::{dist_sq, isqrt_sp, isqrt, abs_sp, abs_fp, HALF_PI_FP};
use crate::angle::{sad_sp, signed_angle_diff};

verus! {

/// Euclidean norm of a planar displacement, rounded down.
pub open spec fn euclid_sp(a: int, b: int) -> int {
    isqrt_sp(dist_sq(a, b) as nat) as int
}

pub fn euclidean(a: i64, b: i64) -> (r: i64)
    requires
        -2_000_000_000 <= a <= 2_000_000_000,
        -2_000_000_000 <= b <= 2_000_000_000,
    ensures
        r == euclid_sp(a as int, b as int),
        0 <= r <= 2_828_427_125,
{
    assert(0 <= a * a <= 4_000_000_000_000_000_000 && 0 <= b * b <= 4_000_000_000_000_000_000)
        by (nonlinear_arith)
        requires -2_000_000_000 <= a <= 2_000_000_000, -2_000_000_000 <= b <= 2_000_000_000,
    ;
    let n: i64 = a * a + b * b;
    let s: u64 = isqrt(n as u64);
    proof {
        assert(s * s <= 8_000_000_000_000_000_000);
        assert(s <= 2_828_427_125) by (nonlinear_arith)
            requires s * s <= 8_000_000_000_000_000_000, s >= 0,
        ;
    }
    s as i64
}

/// Magnitude of the minimum signed angular difference.
pub open spec fn angular_sp(a: int, b: int) -> int {
    abs_sp(sad_sp(a, b))
}

pub fn angular(a: i64, b: i64) -> (r: i64)
    requires
        -0x2000_0000_0000_0000 <= a <= 0x2000_0000_0000_0000,
        -0x2000_0000_0000_0000 <= b <= 0x2000_0000_0000_0000,
    ensures
        r == angular_sp(a as int, b as int),
        0 <= r <= HALF_PI_FP,
{
    let d: i64 = signed_angle_diff(a, b);
    abs_fp(d)
}

} // verus!
