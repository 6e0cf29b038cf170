//! Bounded control manifolds for the three dynamical models.
use vstd::prelude::*;
use crate::fixed::{SCALE, PI_FP, clamp_sp, clamp_fp};
use crate::sampling::sample_uniform;

verus! {

/// Control of the holonomic point: a heading to translate along.
#[derive(Clone, Copy, PartialEq, Eq, Structural, Debug)]
pub struct GeoControl {
    pub theta: i64,
}

/// Control of the velocity-driven unicycle: angular rate and linear speed.
#[derive(Clone, Copy, PartialEq, Eq, Structural, Debug)]
pub struct VelControl {
    pub omega: i64,
    pub v: i64,
}

/// Control of the acceleration-driven unicycle: angular rate and linear
/// acceleration.
#[derive(Clone, Copy, PartialEq, Eq, Structural, Debug)]
pub struct AccControl {
    pub omega: i64,
    pub a: i64,
}

pub open spec fn geo_ctrl_in_bounds(c: GeoControl) -> bool {
    -PI_FP <= c.theta <= PI_FP
}

pub open spec fn vel_ctrl_in_bounds(c: VelControl) -> bool {
    -SCALE <= c.omega <= SCALE && 0 <= c.v <= SCALE
}

pub open spec fn acc_ctrl_in_bounds(c: AccControl) -> bool {
    -SCALE <= c.omega <= SCALE && -500_000 <= c.a <= 500_000
}

impl GeoControl {
    pub fn min() -> (r: Self)
        ensures
            r.theta == -PI_FP,
    {
        GeoControl { theta: -PI_FP }
    }

    pub fn max() -> (r: Self)
        ensures
            r.theta == PI_FP,
    {
        GeoControl { theta: PI_FP }
    }

    /// Independent uniform draw of each coordinate within its bounds.
    pub fn sample() -> (r: Self)
        ensures
            geo_ctrl_in_bounds(r),
    {
        GeoControl { theta: sample_uniform(-PI_FP, PI_FP) }
    }

    /// Per-coordinate saturation into the control bounds.
    pub fn clamp(self) -> (r: Self)
        ensures
            r.theta == clamp_sp(self.theta as int, -PI_FP as int, PI_FP as int),
            geo_ctrl_in_bounds(r),
            geo_ctrl_in_bounds(self) ==> r == self,
    {
        GeoControl { theta: clamp_fp(self.theta, -PI_FP, PI_FP) }
    }
}

impl VelControl {
    pub fn min() -> (r: Self)
        ensures
            r.omega == -SCALE,
            r.v == 0,
    {
        VelControl { omega: -SCALE, v: 0 }
    }

    pub fn max() -> (r: Self)
        ensures
            r.omega == SCALE,
            r.v == SCALE,
    {
        VelControl { omega: SCALE, v: SCALE }
    }

    /// Independent uniform draw of each coordinate within its bounds.
    pub fn sample() -> (r: Self)
        ensures
            vel_ctrl_in_bounds(r),
    {
        VelControl { omega: sample_uniform(-SCALE, SCALE), v: sample_uniform(0, SCALE) }
    }

    /// Per-coordinate saturation into the control bounds.
    pub fn clamp(self) -> (r: Self)
        ensures
            r.omega == clamp_sp(self.omega as int, -SCALE as int, SCALE as int),
            r.v == clamp_sp(self.v as int, 0, SCALE as int),
            vel_ctrl_in_bounds(r),
            vel_ctrl_in_bounds(self) ==> r == self,
    {
        VelControl {
            omega: clamp_fp(self.omega, -SCALE, SCALE),
            v: clamp_fp(self.v, 0, SCALE),
        }
    }
}

impl AccControl {
    pub fn min() -> (r: Self)
        ensures
            r.omega == -SCALE,
            r.a == -500_000,
    {
        AccControl { omega: -SCALE, a: -500_000 }
    }

    pub fn max() -> (r: Self)
        ensures
            r.omega == SCALE,
            r.a == 500_000,
    {
        AccControl { omega: SCALE, a: 500_000 }
    }

    /// Independent uniform draw of each coordinate within its bounds.
    pub fn sample() -> (r: Self)
        ensures
            acc_ctrl_in_bounds(r),
    {
        AccControl { omega: sample_uniform(-SCALE, SCALE), a: sample_uniform(-500_000, 500_000) }
    }

    /// Per-coordinate saturation into the control bounds.
    pub fn clamp(self) -> (r: Self)
        ensures
            r.omega == clamp_sp(self.omega as int, -SCALE as int, SCALE as int),
            r.a == clamp_sp(self.a as int, -500_000, 500_000),
            acc_ctrl_in_bounds(r),
            acc_ctrl_in_bounds(self) ==> r == self,
    {
        AccControl {
            omega: clamp_fp(self.omega, -SCALE, SCALE),
            a: clamp_fp(self.a, -500_000, 500_000),
        }
    }
}

/// A control for any of the three models.
#[derive(Clone, Copy, PartialEq, Eq, Structural, Debug)]
pub enum Control {
    Geo(GeoControl),
    Vel(VelControl),
    Acc(AccControl),
}

pub open spec fn control_in_bounds(c: Control) -> bool {
    match c {
        Control::Geo(u) => geo_ctrl_in_bounds(u),
        Control::Vel(u) => vel_ctrl_in_bounds(u),
        Control::Acc(u) => acc_ctrl_in_bounds(u),
    }
}

} // verus!
