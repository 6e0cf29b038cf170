//! Forward dynamics and steering for the three models.
//!
//! Propagation integrates the continuous kinematics over a duration `t`
//! (micro-seconds of motion, in fixed point): closed-form for the
//! holonomic point, trapezoidal quadrature over ten subintervals for the
//! two unicycle models. Steering is the closed-form one-step inverse,
//! clamped into the control bounds.
use vstd::prelude::*;
use crate::fixed::{SCALE, PI_FP, div_fp, lemma_div_abs, clamp_sp};
use crate::angle::{wrap_sp, wrap, sad_sp, signed_angle_diff, lemma_wrap_fixed};
use crate::trig::{sin_sp, cos_sp, sin_fp, cos_fp, atan2_sp, atan2_fp};
use crate::distance::{euclid_sp, euclidean};
use crate::states::{GeoState, VelState, AccState, State, Model, geo_in_bounds, vel_in_bounds,
    acc_in_bounds};
use crate::controls::{GeoControl, VelControl, AccControl, Control, geo_ctrl_in_bounds,
    vel_ctrl_in_bounds, acc_ctrl_in_bounds, control_in_bounds};
use vstd::arithmetic::div_mod::{lemma_fundamental_div_mod, lemma_mod_bound,
    lemma_fundamental_div_mod_converse, lemma_div_is_ordered, lemma_div_pos_is_pos};

verus! {

/// The model a control belongs to.
pub open spec fn control_model(c: Control) -> Model {
    match c {
        Control::Geo(_) => Model::Geo,
        Control::Vel(_) => Model::Vel,
        Control::Acc(_) => Model::Acc,
    }
}

/// The k-th quadrature point of [0, t] split into ten subintervals.
pub open spec fn tau_of(t: int, k: int) -> int {
    (k * t) / 10
}

/// Heading after time `tau` under constant angular rate `omega`.
pub open spec fn heading_at(theta0: int, omega: int, tau: int) -> int {
    wrap_sp(theta0 + (omega * tau) / (SCALE as int))
}

/// Speed after time `tau` under constant linear acceleration `a`.
pub open spec fn speed_at(v0: int, a: int, tau: int) -> int {
    v0 + (a * tau) / (SCALE as int)
}

proof fn lemma_tau_bounds(t: int, k: int)
    requires
        0 <= t <= 10_000_000,
        0 <= k <= 9,
    ensures
        0 <= tau_of(t, k) <= tau_of(t, k + 1) <= t,
        tau_of(t, k + 1) - tau_of(t, k) <= 1_000_001,
        t == 0 ==> tau_of(t, k) == 0 && tau_of(t, k + 1) == 0,
{
    assert(0 <= k * t <= (k + 1) * t <= 10 * t) by (nonlinear_arith)
        requires 0 <= t, 0 <= k <= 9,
    ;
    lemma_div_pos_is_pos(k * t, 10);
    lemma_div_is_ordered(k * t, (k + 1) * t, 10);
    lemma_div_is_ordered((k + 1) * t, 10 * t, 10);
    lemma_fundamental_div_mod_converse(10 * t, 10, t, 0);
    lemma_fundamental_div_mod(k * t, 10);
    lemma_mod_bound(k * t, 10);
    lemma_fundamental_div_mod((k + 1) * t, 10);
    lemma_mod_bound((k + 1) * t, 10);
    assert((k + 1) * t == k * t + t) by (nonlinear_arith);
    assert(10 * (tau_of(t, k + 1) - tau_of(t, k)) <= t + 9);
}

/// Closed-form constant-heading translation of the holonomic point.
pub open spec fn geo_prop_sp(s: GeoState, u: GeoControl, t: int) -> GeoState {
    (GeoState {
        x: (s.x + (cos_sp(u.theta as int) * t) / (SCALE as int)) as i64,
        y: (s.y + (sin_sp(u.theta as int) * t) / (SCALE as int)) as i64,
    })
}

impl GeoState {
    /// Propagate under a fixed heading for duration `t`: the zero
    /// duration is the identity, and the position moves at most `t`.
    pub fn propagate(&self, u: &GeoControl, t: i64) -> (r: Self)
        requires
            geo_in_bounds(*self),
            geo_ctrl_in_bounds(*u),
            0 <= t <= 10_000_000,
        ensures
            r == geo_prop_sp(*self, *u, t as int),
            t == 0 ==> r == *self,
            self.x - t <= r.x <= self.x + t,
            self.y - t <= r.y <= self.y + t,
    {
        let c: i64 = cos_fp(u.theta);
        let sn: i64 = sin_fp(u.theta);
        proof {
            assert(-(t * SCALE) <= c * t <= t * SCALE && -(t * SCALE) <= sn * t <= t * SCALE)
                by (nonlinear_arith)
                requires -SCALE <= c <= SCALE, -SCALE <= sn <= SCALE, 0 <= t, SCALE == 1_000_000,
            ;
            lemma_div_abs(c * t, SCALE as int, t as int);
            lemma_div_abs(sn * t, SCALE as int, t as int);
        }
        let dx: i64 = div_fp(c * t, SCALE);
        let dy: i64 = div_fp(sn * t, SCALE);
        GeoState { x: self.x + dx, y: self.y + dy }
    }
}

/// Velocity-model integrand of the x position: speed times the cosine
/// of the heading at time `tau`, in fixed point.
pub open spec fn vel_fx(s: VelState, u: VelControl, tau: int) -> int {
    (u.v * cos_sp(heading_at(s.theta as int, u.omega as int, tau))) / (SCALE as int)
}

pub open spec fn vel_fy(s: VelState, u: VelControl, tau: int) -> int {
    (u.v * sin_sp(heading_at(s.theta as int, u.omega as int, tau))) / (SCALE as int)
}

/// Trapezoidal partial sum of the first `k` subintervals for the
/// velocity model's x displacement (scaled by twice `SCALE`).
pub open spec fn vel_sum_x(s: VelState, u: VelControl, t: int, k: int) -> int
    decreases k,
{
    if k <= 0 {
        0
    } else {
        vel_sum_x(s, u, t, k - 1) + (vel_fx(s, u, tau_of(t, k - 1)) + vel_fx(s, u, tau_of(t, k)))
            * (tau_of(t, k) - tau_of(t, k - 1))
    }
}

pub open spec fn vel_sum_y(s: VelState, u: VelControl, t: int, k: int) -> int
    decreases k,
{
    if k <= 0 {
        0
    } else {
        vel_sum_y(s, u, t, k - 1) + (vel_fy(s, u, tau_of(t, k - 1)) + vel_fy(s, u, tau_of(t, k)))
            * (tau_of(t, k) - tau_of(t, k - 1))
    }
}

/// Ten-subinterval trapezoidal propagation of the velocity unicycle;
/// the heading itself moves linearly and is wrapped at the end.
pub open spec fn vel_prop_sp(s: VelState, u: VelControl, t: int) -> VelState {
    (VelState {
        x: (s.x + vel_sum_x(s, u, t, 10) / (2 * SCALE as int)) as i64,
        y: (s.y + vel_sum_y(s, u, t, 10) / (2 * SCALE as int)) as i64,
        theta: wrap_sp(s.theta + (u.omega * t) / (SCALE as int)) as i64,
    })
}

proof fn lemma_vel_sum_zero(s: VelState, u: VelControl, k: int)
    requires
        0 <= k,
    ensures
        vel_sum_x(s, u, 0, k) == 0,
        vel_sum_y(s, u, 0, k) == 0,
    decreases k,
{
    if k > 0 {
        lemma_vel_sum_zero(s, u, k - 1);
        assert(k * 0 == 0) by (nonlinear_arith);
        assert((k - 1) * 0 == 0) by (nonlinear_arith);
        assert(tau_of(0, k) == 0);
        assert(tau_of(0, k - 1) == 0);
        assert((vel_fx(s, u, 0) + vel_fx(s, u, 0)) * 0 == 0) by (nonlinear_arith);
        assert((vel_fy(s, u, 0) + vel_fy(s, u, 0)) * 0 == 0) by (nonlinear_arith);
    }
}

/// Acceleration-model integrand: the linearly evolving speed times the
/// cosine of the heading at time `tau`.
pub open spec fn acc_fx(s: AccState, u: AccControl, tau: int) -> int {
    (speed_at(s.v as int, u.a as int, tau)
        * cos_sp(heading_at(s.theta as int, u.omega as int, tau))) / (SCALE as int)
}

pub open spec fn acc_fy(s: AccState, u: AccControl, tau: int) -> int {
    (speed_at(s.v as int, u.a as int, tau)
        * sin_sp(heading_at(s.theta as int, u.omega as int, tau))) / (SCALE as int)
}

pub open spec fn acc_sum_x(s: AccState, u: AccControl, t: int, k: int) -> int
    decreases k,
{
    if k <= 0 {
        0
    } else {
        acc_sum_x(s, u, t, k - 1) + (acc_fx(s, u, tau_of(t, k - 1)) + acc_fx(s, u, tau_of(t, k)))
            * (tau_of(t, k) - tau_of(t, k - 1))
    }
}

pub open spec fn acc_sum_y(s: AccState, u: AccControl, t: int, k: int) -> int
    decreases k,
{
    if k <= 0 {
        0
    } else {
        acc_sum_y(s, u, t, k - 1) + (acc_fy(s, u, tau_of(t, k - 1)) + acc_fy(s, u, tau_of(t, k)))
            * (tau_of(t, k) - tau_of(t, k - 1))
    }
}

/// Ten-subinterval trapezoidal propagation of the acceleration
/// unicycle. The resulting speed is deliberately not clamped into the
/// state bounds here: only `clamp` saturates, and the validity check
/// discards out-of-envelope states.
pub open spec fn acc_prop_sp(s: AccState, u: AccControl, t: int) -> AccState {
    (AccState {
        x: (s.x + acc_sum_x(s, u, t, 10) / (2 * SCALE as int)) as i64,
        y: (s.y + acc_sum_y(s, u, t, 10) / (2 * SCALE as int)) as i64,
        v: (s.v + (u.a * t) / (SCALE as int)) as i64,
        theta: wrap_sp(s.theta + (u.omega * t) / (SCALE as int)) as i64,
    })
}

proof fn lemma_acc_sum_zero(s: AccState, u: AccControl, k: int)
    requires
        0 <= k,
    ensures
        acc_sum_x(s, u, 0, k) == 0,
        acc_sum_y(s, u, 0, k) == 0,
    decreases k,
{
    if k > 0 {
        lemma_acc_sum_zero(s, u, k - 1);
        assert(k * 0 == 0) by (nonlinear_arith);
        assert((k - 1) * 0 == 0) by (nonlinear_arith);
        assert(tau_of(0, k) == 0);
        assert(tau_of(0, k - 1) == 0);
        assert((acc_fx(s, u, 0) + acc_fx(s, u, 0)) * 0 == 0) by (nonlinear_arith);
        assert((acc_fy(s, u, 0) + acc_fy(s, u, 0)) * 0 == 0) by (nonlinear_arith);
    }
}

impl VelState {
    /// Heading and position after driving with constant angular rate
    /// and linear speed for duration `t`.
    pub fn propagate(&self, u: &VelControl, t: i64) -> (r: Self)
        requires
            vel_in_bounds(*self),
            vel_ctrl_in_bounds(*u),
            0 <= t <= 10_000_000,
        ensures
            r == vel_prop_sp(*self, *u, t as int),
            t == 0 && self.theta != -PI_FP ==> r == *self,
            t == 0 ==> r.x == self.x && r.y == self.y,
            self.x - 10_000_010 <= r.x <= self.x + 10_000_010,
            self.y - 10_000_010 <= r.y <= self.y + 10_000_010,
            -PI_FP < r.theta <= PI_FP,
    {
        let mut sx: i64 = 0;
        let mut sy: i64 = 0;
        let mut k: i64 = 0;
        while k < 10
            invariant
                0 <= k <= 10,
                vel_in_bounds(*self),
                vel_ctrl_in_bounds(*u),
                0 <= t <= 10_000_000,
                sx == vel_sum_x(*self, *u, t as int, k as int),
                sy == vel_sum_y(*self, *u, t as int, k as int),
                -(k * 2_000_002_000_000) <= sx <= k * 2_000_002_000_000,
                -(k * 2_000_002_000_000) <= sy <= k * 2_000_002_000_000,
            decreases 10 - k,
        {
            proof {
                lemma_tau_bounds(t as int, k as int);
            }
            let tau0: i64 = (k * t) / 10;
            let tau1: i64 = ((k + 1) * t) / 10;
            let dtau: i64 = tau1 - tau0;
            proof {
                assert(-(10_000_000 * SCALE) <= u.omega * tau0 <= 10_000_000 * SCALE
                    && -(10_000_000 * SCALE) <= u.omega * tau1 <= 10_000_000 * SCALE)
                    by (nonlinear_arith)
                    requires
                        -SCALE <= u.omega <= SCALE, 0 <= tau0 <= 10_000_000,
                        0 <= tau1 <= 10_000_000, SCALE == 1_000_000,
                ;
                lemma_div_abs(u.omega * tau0, SCALE as int, 10_000_000);
                lemma_div_abs(u.omega * tau1, SCALE as int, 10_000_000);
            }
            let h0: i64 = wrap(self.theta + div_fp(u.omega * tau0, SCALE));
            let h1: i64 = wrap(self.theta + div_fp(u.omega * tau1, SCALE));
            let c0: i64 = cos_fp(h0);
            let c1: i64 = cos_fp(h1);
            let n0: i64 = sin_fp(h0);
            let n1: i64 = sin_fp(h1);
            proof {
                assert(-(1_000_000 * SCALE) <= u.v * c0 <= 1_000_000 * SCALE
                    && -(1_000_000 * SCALE) <= u.v * c1 <= 1_000_000 * SCALE
                    && -(1_000_000 * SCALE) <= u.v * n0 <= 1_000_000 * SCALE
                    && -(1_000_000 * SCALE) <= u.v * n1 <= 1_000_000 * SCALE)
                    by (nonlinear_arith)
                    requires
                        0 <= u.v <= 1_000_000, -1_000_000 <= c0 <= 1_000_000,
                        -1_000_000 <= c1 <= 1_000_000, -1_000_000 <= n0 <= 1_000_000,
                        -1_000_000 <= n1 <= 1_000_000, SCALE == 1_000_000,
                ;
                lemma_div_abs(u.v * c0, SCALE as int, 1_000_000);
                lemma_div_abs(u.v * c1, SCALE as int, 1_000_000);
                lemma_div_abs(u.v * n0, SCALE as int, 1_000_000);
                lemma_div_abs(u.v * n1, SCALE as int, 1_000_000);
            }
            let fx0: i64 = div_fp(u.v * c0, SCALE);
            let fx1: i64 = div_fp(u.v * c1, SCALE);
            let fy0: i64 = div_fp(u.v * n0, SCALE);
            let fy1: i64 = div_fp(u.v * n1, SCALE);
            proof {
                assert(-2_000_002_000_000 <= (fx0 + fx1) * dtau <= 2_000_002_000_000
                    && -2_000_002_000_000 <= (fy0 + fy1) * dtau <= 2_000_002_000_000)
                    by (nonlinear_arith)
                    requires
                        -2_000_000 <= fx0 + fx1 <= 2_000_000,
                        -2_000_000 <= fy0 + fy1 <= 2_000_000,
                        0 <= dtau <= 1_000_001,
                ;
                assert((k as int + 1) * 2_000_002_000_000
                    == k as int * 2_000_002_000_000 + 2_000_002_000_000) by (nonlinear_arith);
            }
            sx = sx + (fx0 + fx1) * dtau;
            sy = sy + (fy0 + fy1) * dtau;
            k = k + 1;
        }
        proof {
            lemma_div_abs(sx as int, 2 * SCALE as int, 10_000_010);
            lemma_div_abs(sy as int, 2 * SCALE as int, 10_000_010);
            assert(-(10_000_000 * SCALE) <= u.omega * t <= 10_000_000 * SCALE)
                by (nonlinear_arith)
                requires -SCALE <= u.omega <= SCALE, 0 <= t <= 10_000_000, SCALE == 1_000_000,
            ;
            lemma_div_abs(u.omega * t, SCALE as int, 10_000_000);
        }
        let dx: i64 = div_fp(sx, 2 * SCALE);
        let dy: i64 = div_fp(sy, 2 * SCALE);
        let th: i64 = wrap(self.theta + div_fp(u.omega * t, SCALE));
        proof {
            if t == 0 {
                lemma_vel_sum_zero(*self, *u, 10);
                assert(u.omega * t == 0) by (nonlinear_arith)
                    requires t == 0,
                ;
                if self.theta != -PI_FP {
                    lemma_wrap_fixed(self.theta as int);
                }
            }
        }
        VelState { x: self.x + dx, y: self.y + dy, theta: th }
    }
}

impl AccState {
    /// Position, speed and heading after driving with constant angular
    /// rate and linear acceleration for duration `t`.
    pub fn propagate(&self, u: &AccControl, t: i64) -> (r: Self)
        requires
            acc_in_bounds(*self),
            acc_ctrl_in_bounds(*u),
            0 <= t <= 10_000_000,
        ensures
            r == acc_prop_sp(*self, *u, t as int),
            t == 0 && self.theta != -PI_FP ==> r == *self,
            t == 0 ==> r.x == self.x && r.y == self.y && r.v == self.v,
            self.x - 70_000_070 <= r.x <= self.x + 70_000_070,
            self.y - 70_000_070 <= r.y <= self.y + 70_000_070,
            self.v - 5_000_000 <= r.v <= self.v + 5_000_000,
            -PI_FP < r.theta <= PI_FP,
    {
        let mut sx: i64 = 0;
        let mut sy: i64 = 0;
        let mut k: i64 = 0;
        while k < 10
            invariant
                0 <= k <= 10,
                acc_in_bounds(*self),
                acc_ctrl_in_bounds(*u),
                0 <= t <= 10_000_000,
                sx == acc_sum_x(*self, *u, t as int, k as int),
                sy == acc_sum_y(*self, *u, t as int, k as int),
                -(k * 14_000_014_000_000) <= sx <= k * 14_000_014_000_000,
                -(k * 14_000_014_000_000) <= sy <= k * 14_000_014_000_000,
            decreases 10 - k,
        {
            proof {
                lemma_tau_bounds(t as int, k as int);
            }
            let tau0: i64 = (k * t) / 10;
            let tau1: i64 = ((k + 1) * t) / 10;
            let dtau: i64 = tau1 - tau0;
            proof {
                assert(-(10_000_000 * SCALE) <= u.omega * tau0 <= 10_000_000 * SCALE
                    && -(10_000_000 * SCALE) <= u.omega * tau1 <= 10_000_000 * SCALE
                    && -(5_000_000 * SCALE) <= u.a * tau0 <= 5_000_000 * SCALE
                    && -(5_000_000 * SCALE) <= u.a * tau1 <= 5_000_000 * SCALE)
                    by (nonlinear_arith)
                    requires
                        -SCALE <= u.omega <= SCALE, -500_000 <= u.a <= 500_000,
                        0 <= tau0 <= 10_000_000, 0 <= tau1 <= 10_000_000, SCALE == 1_000_000,
                ;
                lemma_div_abs(u.omega * tau0, SCALE as int, 10_000_000);
                lemma_div_abs(u.omega * tau1, SCALE as int, 10_000_000);
                lemma_div_abs(u.a * tau0, SCALE as int, 5_000_000);
                lemma_div_abs(u.a * tau1, SCALE as int, 5_000_000);
            }
            let h0: i64 = wrap(self.theta + div_fp(u.omega * tau0, SCALE));
            let h1: i64 = wrap(self.theta + div_fp(u.omega * tau1, SCALE));
            let v0: i64 = self.v + div_fp(u.a * tau0, SCALE);
            let v1: i64 = self.v + div_fp(u.a * tau1, SCALE);
            let c0: i64 = cos_fp(h0);
            let c1: i64 = cos_fp(h1);
            let n0: i64 = sin_fp(h0);
            let n1: i64 = sin_fp(h1);
            proof {
                assert(-(7_000_000 * SCALE) <= v0 * c0 <= 7_000_000 * SCALE
                    && -(7_000_000 * SCALE) <= v1 * c1 <= 7_000_000 * SCALE
                    && -(7_000_000 * SCALE) <= v0 * n0 <= 7_000_000 * SCALE
                    && -(7_000_000 * SCALE) <= v1 * n1 <= 7_000_000 * SCALE)
                    by (nonlinear_arith)
                    requires
                        -5_000_000 <= v0 <= 7_000_000, -5_000_000 <= v1 <= 7_000_000,
                        -1_000_000 <= c0 <= 1_000_000, -1_000_000 <= c1 <= 1_000_000,
                        -1_000_000 <= n0 <= 1_000_000, -1_000_000 <= n1 <= 1_000_000,
                        SCALE == 1_000_000,
                ;
                lemma_div_abs(v0 * c0, SCALE as int, 7_000_000);
                lemma_div_abs(v1 * c1, SCALE as int, 7_000_000);
                lemma_div_abs(v0 * n0, SCALE as int, 7_000_000);
                lemma_div_abs(v1 * n1, SCALE as int, 7_000_000);
            }
            let fx0: i64 = div_fp(v0 * c0, SCALE);
            let fx1: i64 = div_fp(v1 * c1, SCALE);
            let fy0: i64 = div_fp(v0 * n0, SCALE);
            let fy1: i64 = div_fp(v1 * n1, SCALE);
            proof {
                assert(-14_000_014_000_000 <= (fx0 + fx1) * dtau <= 14_000_014_000_000
                    && -14_000_014_000_000 <= (fy0 + fy1) * dtau <= 14_000_014_000_000)
                    by (nonlinear_arith)
                    requires
                        -14_000_000 <= fx0 + fx1 <= 14_000_000,
                        -14_000_000 <= fy0 + fy1 <= 14_000_000,
                        0 <= dtau <= 1_000_001,
                ;
                assert((k as int + 1) * 14_000_014_000_000
                    == k as int * 14_000_014_000_000 + 14_000_014_000_000) by (nonlinear_arith);
            }
            sx = sx + (fx0 + fx1) * dtau;
            sy = sy + (fy0 + fy1) * dtau;
            k = k + 1;
        }
        proof {
            lemma_div_abs(sx as int, 2 * SCALE as int, 70_000_070);
            lemma_div_abs(sy as int, 2 * SCALE as int, 70_000_070);
            assert(-(10_000_000 * SCALE) <= u.omega * t <= 10_000_000 * SCALE
                && -(5_000_000 * SCALE) <= u.a * t <= 5_000_000 * SCALE)
                by (nonlinear_arith)
                requires
                    -SCALE <= u.omega <= SCALE, -500_000 <= u.a <= 500_000,
                    0 <= t <= 10_000_000, SCALE == 1_000_000,
            ;
            lemma_div_abs(u.omega * t, SCALE as int, 10_000_000);
            lemma_div_abs(u.a * t, SCALE as int, 5_000_000);
        }
        let dx: i64 = div_fp(sx, 2 * SCALE);
        let dy: i64 = div_fp(sy, 2 * SCALE);
        let dv: i64 = div_fp(u.a * t, SCALE);
        let th: i64 = wrap(self.theta + div_fp(u.omega * t, SCALE));
        proof {
            if t == 0 {
                lemma_acc_sum_zero(*self, *u, 10);
                assert(u.omega * t == 0) by (nonlinear_arith)
                    requires t == 0,
                ;
                assert(u.a * t == 0) by (nonlinear_arith)
                    requires t == 0,
                ;
                if self.theta != -PI_FP {
                    lemma_wrap_fixed(self.theta as int);
                }
            }
        }
        AccState { x: self.x + dx, y: self.y + dy, v: self.v + dv, theta: th }
    }
}

/// Steering control of the holonomic point: head straight at the target.
pub open spec fn geo_steer_sp(s: GeoState, d: GeoState) -> GeoControl {
    (GeoControl {
        theta: clamp_sp(atan2_sp(d.y - s.y, d.x - s.x), -PI_FP as int, PI_FP as int) as i64,
    })
}

/// Steering control of the velocity unicycle: turn by the signed
/// angular difference to the bearing of the target, drive at the
/// remaining distance, both clamped into the control bounds.
pub open spec fn vel_steer_sp(s: VelState, d: VelState) -> VelControl {
    (VelControl {
        omega: clamp_sp(
            sad_sp(s.theta as int, atan2_sp(d.y - s.y, d.x - s.x)),
            -SCALE as int, SCALE as int) as i64,
        v: clamp_sp(euclid_sp(d.x - s.x, d.y - s.y), 0, SCALE as int) as i64,
    })
}

/// Steering control of the acceleration unicycle: turn as above,
/// accelerate by the remaining distance minus the current speed.
pub open spec fn acc_steer_sp(s: AccState, d: AccState) -> AccControl {
    (AccControl {
        omega: clamp_sp(
            sad_sp(s.theta as int, atan2_sp(d.y - s.y, d.x - s.x)),
            -SCALE as int, SCALE as int) as i64,
        a: clamp_sp(euclid_sp(d.x - s.x, d.y - s.y) - s.v, -500_000, 500_000) as i64,
    })
}

/// The closed-form inverse that picks the control driving a state
/// toward a desired state, clamped into the control bounds.
pub trait SteeringFunction: Sized {
    spec fn steer_req(self, desired: Self) -> bool;

    spec fn steer_sp(self, desired: Self) -> Control;

    fn steer(&self, desired: &Self) -> (u: Control)
        requires
            self.steer_req(*desired),
        ensures
            u == self.steer_sp(*desired),
    ;
}

impl SteeringFunction for GeoState {
    open spec fn steer_req(self, desired: Self) -> bool {
        geo_in_bounds(self) && geo_in_bounds(desired)
    }

    open spec fn steer_sp(self, desired: Self) -> Control {
        Control::Geo(geo_steer_sp(self, desired))
    }

    fn steer(&self, desired: &Self) -> (u: Control) {
        let th: i64 = atan2_fp(desired.y - self.y, desired.x - self.x);
        Control::Geo(GeoControl { theta: th }.clamp())
    }
}

impl SteeringFunction for VelState {
    open spec fn steer_req(self, desired: Self) -> bool {
        vel_in_bounds(self) && vel_in_bounds(desired)
    }

    open spec fn steer_sp(self, desired: Self) -> Control {
        Control::Vel(vel_steer_sp(self, desired))
    }

    fn steer(&self, desired: &Self) -> (u: Control) {
        let bearing: i64 = atan2_fp(desired.y - self.y, desired.x - self.x);
        let om: i64 = signed_angle_diff(self.theta, bearing);
        let dist: i64 = euclidean(desired.x - self.x, desired.y - self.y);
        Control::Vel(VelControl { omega: om, v: dist }.clamp())
    }
}

impl SteeringFunction for AccState {
    open spec fn steer_req(self, desired: Self) -> bool {
        acc_in_bounds(self) && acc_in_bounds(desired)
    }

    open spec fn steer_sp(self, desired: Self) -> Control {
        Control::Acc(acc_steer_sp(self, desired))
    }

    fn steer(&self, desired: &Self) -> (u: Control) {
        let bearing: i64 = atan2_fp(desired.y - self.y, desired.x - self.x);
        let om: i64 = signed_angle_diff(self.theta, bearing);
        let dist: i64 = euclidean(desired.x - self.x, desired.y - self.y);
        Control::Acc(AccControl { omega: om, a: dist - self.v }.clamp())
    }
}


impl State {
    /// Propagation dispatched over the model; a mismatched control
    /// leaves the state unchanged.
    pub open spec fn prop_sp_st(self, u: Control, t: int) -> State {
        match (self, u) {
            (State::Geo(s), Control::Geo(c)) => State::Geo(geo_prop_sp(s, c, t)),
            (State::Vel(s), Control::Vel(c)) => State::Vel(vel_prop_sp(s, c, t)),
            (State::Acc(s), Control::Acc(c)) => State::Acc(acc_prop_sp(s, c, t)),
            _ => self,
        }
    }

    /// Steering dispatched over the model; the mismatched case yields a
    /// zero-heading control and never arises under the preconditions.
    pub open spec fn steer_sp_st(self, d: State) -> Control {
        match (self, d) {
            (State::Geo(a), State::Geo(b)) => a.steer_sp(b),
            (State::Vel(a), State::Vel(b)) => a.steer_sp(b),
            (State::Acc(a), State::Acc(b)) => a.steer_sp(b),
            _ => Control::Geo(GeoControl { theta: 0 }),
        }
    }

    /// Whether the heading (if the model has one) is the canonical
    /// representative of its angle class, so that a zero-duration
    /// propagation is exactly the identity.
    pub open spec fn heading_canonical(self) -> bool {
        match self {
            State::Geo(_) => true,
            State::Vel(s) => s.theta != -PI_FP,
            State::Acc(s) => s.theta != -PI_FP,
        }
    }

    /// Propagate under a model-matched control for duration `t`.
    pub fn propagate(&self, u: &Control, t: i64) -> (r: State)
        requires
            self.in_bounds(),
            control_in_bounds(*u),
            control_model(*u) == self.model(),
            0 <= t <= 10_000_000,
        ensures
            r == self.prop_sp_st(*u, t as int),
            r.model() == self.model(),
            t == 0 && self.heading_canonical() ==> r == *self,
            self.pos_sp().0 - 70_000_070 <= r.pos_sp().0 <= self.pos_sp().0 + 70_000_070,
            self.pos_sp().1 - 70_000_070 <= r.pos_sp().1 <= self.pos_sp().1 + 70_000_070,
    {
        match (self, u) {
            (State::Geo(s), Control::Geo(c)) => State::Geo(s.propagate(c, t)),
            (State::Vel(s), Control::Vel(c)) => State::Vel(s.propagate(c, t)),
            (State::Acc(s), Control::Acc(c)) => State::Acc(s.propagate(c, t)),
            _ => *self,
        }
    }

    /// Steer toward a desired state of the same model; the returned
    /// control is within its bounds.
    pub fn steer(&self, desired: &State) -> (u: Control)
        requires
            self.in_bounds(),
            desired.in_bounds(),
            desired.model() == self.model(),
        ensures
            u == self.steer_sp_st(*desired),
            control_in_bounds(u),
            control_model(u) == self.model(),
    {
        match (self, desired) {
            (State::Geo(a), State::Geo(b)) => a.steer(b),
            (State::Vel(a), State::Vel(b)) => a.steer(b),
            (State::Acc(a), State::Acc(b)) => a.steer(b),
            _ => Control::Geo(GeoControl { theta: 0 }),
        }
    }
}

} // verus!
