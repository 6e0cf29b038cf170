//! Bounded state manifolds for the three dynamical models, and the
//! tagged union the planner works over.
use vstd::prelude::*;
use crate::fixed::{SCALE, PI_FP, dist_sq, clamp_sp, clamp_fp, abs_sp, abs_fp, isqrt_sp,
    lemma_isqrt_bounds};
use crate::distance::{euclid_sp, euclidean, angular_sp, angular};
use crate::sampling::sample_uniform;

verus! {

/// Workspace bounds shared by all models, in micro-units.
pub const XY_MIN: i64 = 0;

pub const XY_MAX: i64 = 10_000_000;

/// Speed bounds of the acceleration-driven unicycle.
pub const V_MIN: i64 = 0;

pub const V_MAX: i64 = 2_000_000;

/// Euclidean norm of the positional span (XY_MAX - XY_MIN in each axis),
/// rounded down: the normalizer of the positional distance term.
pub const SPAN_NORM: i64 = 14_142_135;

/// State of the holonomic point: a position.
#[derive(Clone, Copy, PartialEq, Eq, Structural, Debug)]
pub struct GeoState {
    pub x: i64,
    pub y: i64,
}

/// State of the velocity-driven unicycle: position and heading.
#[derive(Clone, Copy, PartialEq, Eq, Structural, Debug)]
pub struct VelState {
    pub x: i64,
    pub y: i64,
    pub theta: i64,
}

/// State of the acceleration-driven unicycle: position, speed, heading.
#[derive(Clone, Copy, PartialEq, Eq, Structural, Debug)]
pub struct AccState {
    pub x: i64,
    pub y: i64,
    pub v: i64,
    pub theta: i64,
}

pub open spec fn geo_in_bounds(s: GeoState) -> bool {
    XY_MIN <= s.x <= XY_MAX && XY_MIN <= s.y <= XY_MAX
}

pub open spec fn vel_in_bounds(s: VelState) -> bool {
    XY_MIN <= s.x <= XY_MAX && XY_MIN <= s.y <= XY_MAX && -PI_FP <= s.theta <= PI_FP
}

pub open spec fn acc_in_bounds(s: AccState) -> bool {
    XY_MIN <= s.x <= XY_MAX && XY_MIN <= s.y <= XY_MAX && V_MIN <= s.v <= V_MAX
        && -PI_FP <= s.theta <= PI_FP
}

/// Positional distance scaled to the workspace diagonal: at most one
/// unit across the whole workspace.
pub open spec fn pos_term_sp(ax: int, ay: int, bx: int, by: int) -> int {
    (euclid_sp(ax - bx, ay - by) * SCALE) / (SPAN_NORM as int)
}

/// Angular distance scaled to half the heading span.
pub open spec fn ang_term_sp(at: int, bt: int) -> int {
    (angular_sp(at, bt) * SCALE) / (PI_FP as int)
}

pub open spec fn geo_dh_sp(a: GeoState, b: GeoState) -> int {
    pos_term_sp(a.x as int, a.y as int, b.x as int, b.y as int)
}

pub open spec fn vel_dh_sp(a: VelState, b: VelState) -> int {
    pos_term_sp(a.x as int, a.y as int, b.x as int, b.y as int)
        + ang_term_sp(a.theta as int, b.theta as int)
}

pub open spec fn acc_dh_sp(a: AccState, b: AccState) -> int {
    pos_term_sp(a.x as int, a.y as int, b.x as int, b.y as int)
        + (abs_sp(a.v - b.v) * SCALE) / (V_MAX as int)
        + ang_term_sp(a.theta as int, b.theta as int)
}

/// The positional term of the distance heuristic, for in-workspace
/// displacements.
fn pos_term(ax: i64, ay: i64, bx: i64, by: i64) -> (r: i64)
    requires
        XY_MIN <= ax <= XY_MAX,
        XY_MIN <= ay <= XY_MAX,
        XY_MIN <= bx <= XY_MAX,
        XY_MIN <= by <= XY_MAX,
    ensures
        r == pos_term_sp(ax as int, ay as int, bx as int, by as int),
        0 <= r <= SCALE,
{
    let d: i64 = euclidean(ax - bx, ay - by);
    proof {
        let dx = ax - bx;
        let dy = ay - by;
        assert(0 <= dist_sq(dx as int, dy as int) <= 200_000_000_000_000) by (nonlinear_arith)
            requires -10_000_000 <= dx <= 10_000_000, -10_000_000 <= dy <= 10_000_000,
        ;
        lemma_isqrt_bounds(dist_sq(dx as int, dy as int) as nat);
        assert(d <= 14_142_135) by (nonlinear_arith)
            requires d * d <= 200_000_000_000_000, d >= 0,
        ;
    }
    (d * SCALE) / SPAN_NORM
}

/// The angular term of the distance heuristic.
fn ang_term(at: i64, bt: i64) -> (r: i64)
    requires
        -PI_FP <= at <= PI_FP,
        -PI_FP <= bt <= PI_FP,
    ensures
        r == ang_term_sp(at as int, bt as int),
        0 <= r <= 500_000,
{
    let d: i64 = angular(at, bt);
    (d * SCALE) / PI_FP
}

impl GeoState {
    pub fn min() -> (r: Self)
        ensures
            r.x == XY_MIN && r.y == XY_MIN,
    {
        GeoState { x: XY_MIN, y: XY_MIN }
    }

    pub fn max() -> (r: Self)
        ensures
            r.x == XY_MAX && r.y == XY_MAX,
    {
        GeoState { x: XY_MAX, y: XY_MAX }
    }

    /// Independent uniform draw of each coordinate within its bounds.
    pub fn sample() -> (r: Self)
        ensures
            geo_in_bounds(r),
    {
        GeoState { x: sample_uniform(XY_MIN, XY_MAX), y: sample_uniform(XY_MIN, XY_MAX) }
    }

    /// Containment in the per-coordinate bound intervals, inclusive.
    pub fn contains(other: &Self) -> (r: bool)
        ensures
            r == geo_in_bounds(*other),
    {
        other.x >= XY_MIN && other.x <= XY_MAX && other.y >= XY_MIN && other.y <= XY_MAX
    }

    /// Per-coordinate saturation into bounds; the identity on states
    /// already inside.
    pub fn clamp(self) -> (r: Self)
        ensures
            r.x == clamp_sp(self.x as int, XY_MIN as int, XY_MAX as int),
            r.y == clamp_sp(self.y as int, XY_MIN as int, XY_MAX as int),
            geo_in_bounds(r),
            geo_in_bounds(self) ==> r == self,
    {
        GeoState { x: clamp_fp(self.x, XY_MIN, XY_MAX), y: clamp_fp(self.y, XY_MIN, XY_MAX) }
    }

    /// Normalized positional distance used for nearest-neighbor ranking.
    pub fn distance_heuristic(a: &Self, b: &Self) -> (r: i64)
        requires
            geo_in_bounds(*a),
            geo_in_bounds(*b),
        ensures
            r == geo_dh_sp(*a, *b),
            0 <= r <= SCALE,
    {
        pos_term(a.x, a.y, b.x, b.y)
    }

    pub fn span() -> (r: Self)
        ensures
            r.x == XY_MAX - XY_MIN && r.y == XY_MAX - XY_MIN,
    {
        GeoState { x: XY_MAX - XY_MIN, y: XY_MAX - XY_MIN }
    }

    pub fn position(&self) -> (r: (i64, i64))
        ensures
            r.0 == self.x && r.1 == self.y,
    {
        (self.x, self.y)
    }
}

impl VelState {
    pub fn min() -> (r: Self)
        ensures
            r.x == XY_MIN && r.y == XY_MIN && r.theta == -PI_FP,
    {
        VelState { x: XY_MIN, y: XY_MIN, theta: -PI_FP }
    }

    pub fn max() -> (r: Self)
        ensures
            r.x == XY_MAX && r.y == XY_MAX && r.theta == PI_FP,
    {
        VelState { x: XY_MAX, y: XY_MAX, theta: PI_FP }
    }

    /// Independent uniform draw of each coordinate within its bounds.
    pub fn sample() -> (r: Self)
        ensures
            vel_in_bounds(r),
    {
        VelState {
            x: sample_uniform(XY_MIN, XY_MAX),
            y: sample_uniform(XY_MIN, XY_MAX),
            theta: sample_uniform(-PI_FP, PI_FP),
        }
    }

    /// Containment in the per-coordinate bound intervals, inclusive.
    pub fn contains(other: &Self) -> (r: bool)
        ensures
            r == vel_in_bounds(*other),
    {
        other.x >= XY_MIN && other.x <= XY_MAX && other.y >= XY_MIN && other.y <= XY_MAX
            && other.theta >= -PI_FP && other.theta <= PI_FP
    }

    /// Per-coordinate saturation into bounds (the heading saturates here,
    /// it does not wrap); the identity on states already inside.
    pub fn clamp(self) -> (r: Self)
        ensures
            r.x == clamp_sp(self.x as int, XY_MIN as int, XY_MAX as int),
            r.y == clamp_sp(self.y as int, XY_MIN as int, XY_MAX as int),
            r.theta == clamp_sp(self.theta as int, -PI_FP as int, PI_FP as int),
            vel_in_bounds(r),
            vel_in_bounds(self) ==> r == self,
    {
        VelState {
            x: clamp_fp(self.x, XY_MIN, XY_MAX),
            y: clamp_fp(self.y, XY_MIN, XY_MAX),
            theta: clamp_fp(self.theta, -PI_FP, PI_FP),
        }
    }

    /// Normalized positional plus angular distance for ranking.
    pub fn distance_heuristic(a: &Self, b: &Self) -> (r: i64)
        requires
            vel_in_bounds(*a),
            vel_in_bounds(*b),
        ensures
            r == vel_dh_sp(*a, *b),
            0 <= r <= 1_500_000,
    {
        pos_term(a.x, a.y, b.x, b.y) + ang_term(a.theta, b.theta)
    }

    pub fn span() -> (r: Self)
        ensures
            r.x == XY_MAX - XY_MIN && r.y == XY_MAX - XY_MIN && r.theta == 2 * PI_FP,
    {
        VelState { x: XY_MAX - XY_MIN, y: XY_MAX - XY_MIN, theta: 2 * PI_FP }
    }

    pub fn position(&self) -> (r: (i64, i64))
        ensures
            r.0 == self.x && r.1 == self.y,
    {
        (self.x, self.y)
    }
}

impl AccState {
    pub fn min() -> (r: Self)
        ensures
            r.x == XY_MIN && r.y == XY_MIN && r.v == V_MIN && r.theta == -PI_FP,
    {
        AccState { x: XY_MIN, y: XY_MIN, v: V_MIN, theta: -PI_FP }
    }

    pub fn max() -> (r: Self)
        ensures
            r.x == XY_MAX && r.y == XY_MAX && r.v == V_MAX && r.theta == PI_FP,
    {
        AccState { x: XY_MAX, y: XY_MAX, v: V_MAX, theta: PI_FP }
    }

    /// Independent uniform draw of each coordinate within its bounds.
    pub fn sample() -> (r: Self)
        ensures
            acc_in_bounds(r),
    {
        AccState {
            x: sample_uniform(XY_MIN, XY_MAX),
            y: sample_uniform(XY_MIN, XY_MAX),
            v: sample_uniform(V_MIN, V_MAX),
            theta: sample_uniform(-PI_FP, PI_FP),
        }
    }

    /// Containment in the per-coordinate bound intervals, inclusive.
    pub fn contains(other: &Self) -> (r: bool)
        ensures
            r == acc_in_bounds(*other),
    {
        other.x >= XY_MIN && other.x <= XY_MAX && other.y >= XY_MIN && other.y <= XY_MAX
            && other.v >= V_MIN && other.v <= V_MAX && other.theta >= -PI_FP
            && other.theta <= PI_FP
    }

    /// Per-coordinate saturation into bounds (the heading saturates here,
    /// it does not wrap); the identity on states already inside.
    pub fn clamp(self) -> (r: Self)
        ensures
            r.x == clamp_sp(self.x as int, XY_MIN as int, XY_MAX as int),
            r.y == clamp_sp(self.y as int, XY_MIN as int, XY_MAX as int),
            r.v == clamp_sp(self.v as int, V_MIN as int, V_MAX as int),
            r.theta == clamp_sp(self.theta as int, -PI_FP as int, PI_FP as int),
            acc_in_bounds(r),
            acc_in_bounds(self) ==> r == self,
    {
        AccState {
            x: clamp_fp(self.x, XY_MIN, XY_MAX),
            y: clamp_fp(self.y, XY_MIN, XY_MAX),
            v: clamp_fp(self.v, V_MIN, V_MAX),
            theta: clamp_fp(self.theta, -PI_FP, PI_FP),
        }
    }

    /// Normalized positional, speed and angular distance for ranking.
    pub fn distance_heuristic(a: &Self, b: &Self) -> (r: i64)
        requires
            acc_in_bounds(*a),
            acc_in_bounds(*b),
        ensures
            r == acc_dh_sp(*a, *b),
            0 <= r <= 2_500_000,
    {
        let dv: i64 = abs_fp(a.v - b.v);
        let vterm: i64 = (dv * SCALE) / V_MAX;
        pos_term(a.x, a.y, b.x, b.y) + vterm + ang_term(a.theta, b.theta)
    }

    pub fn span() -> (r: Self)
        ensures
            r.x == XY_MAX - XY_MIN && r.y == XY_MAX - XY_MIN && r.v == V_MAX - V_MIN
                && r.theta == 2 * PI_FP,
    {
        AccState { x: XY_MAX - XY_MIN, y: XY_MAX - XY_MIN, v: V_MAX - V_MIN, theta: 2 * PI_FP }
    }

    pub fn position(&self) -> (r: (i64, i64))
        ensures
            r.0 == self.x && r.1 == self.y,
    {
        (self.x, self.y)
    }
}

/// The three dynamical models.
#[derive(Clone, Copy, PartialEq, Eq, Structural, Debug)]
pub enum Model {
    Geo,
    Vel,
    Acc,
}

/// A state of any of the three models.
#[derive(Clone, Copy, PartialEq, Eq, Structural, Debug)]
pub enum State {
    Geo(GeoState),
    Vel(VelState),
    Acc(AccState),
}

impl State {
    pub open spec fn model(self) -> Model {
        match self {
            State::Geo(_) => Model::Geo,
            State::Vel(_) => Model::Vel,
            State::Acc(_) => Model::Acc,
        }
    }

    pub open spec fn in_bounds(self) -> bool {
        match self {
            State::Geo(s) => geo_in_bounds(s),
            State::Vel(s) => vel_in_bounds(s),
            State::Acc(s) => acc_in_bounds(s),
        }
    }

    pub open spec fn pos_sp(self) -> (int, int) {
        match self {
            State::Geo(s) => (s.x as int, s.y as int),
            State::Vel(s) => (s.x as int, s.y as int),
            State::Acc(s) => (s.x as int, s.y as int),
        }
    }

    pub open spec fn dh_sp(self, other: State) -> int {
        match (self, other) {
            (State::Geo(a), State::Geo(b)) => geo_dh_sp(a, b),
            (State::Vel(a), State::Vel(b)) => vel_dh_sp(a, b),
            (State::Acc(a), State::Acc(b)) => acc_dh_sp(a, b),
            _ => 0,
        }
    }

    /// Containment test dispatched over the model.
    pub fn contains(&self) -> (r: bool)
        ensures
            r == self.in_bounds(),
    {
        match self {
            State::Geo(s) => GeoState::contains(s),
            State::Vel(s) => VelState::contains(s),
            State::Acc(s) => AccState::contains(s),
        }
    }

    /// Uniform draw from the bounds of the given model.
    pub fn sample(m: Model) -> (r: State)
        ensures
            r.model() == m,
            r.in_bounds(),
    {
        match m {
            Model::Geo => State::Geo(GeoState::sample()),
            Model::Vel => State::Vel(VelState::sample()),
            Model::Acc => State::Acc(AccState::sample()),
        }
    }

    /// The 2D position, as a pair of fixed-point coordinates.
    pub open spec fn pos64(self) -> (i64, i64) {
        match self {
            State::Geo(s) => (s.x, s.y),
            State::Vel(s) => (s.x, s.y),
            State::Acc(s) => (s.x, s.y),
        }
    }

    /// The 2D position shared by all models.
    pub fn position(&self) -> (r: (i64, i64))
        ensures
            (r.0 as int, r.1 as int) == self.pos_sp(),
            r == self.pos64(),
    {
        match self {
            State::Geo(s) => s.position(),
            State::Vel(s) => s.position(),
            State::Acc(s) => s.position(),
        }
    }

    /// Distance heuristic dispatched over the model.
    pub fn distance_heuristic(a: &State, b: &State) -> (r: i64)
        requires
            a.model() == b.model(),
            a.in_bounds(),
            b.in_bounds(),
        ensures
            r == a.dh_sp(*b),
            0 <= r <= 2_500_000,
    {
        match (a, b) {
            (State::Geo(sa), State::Geo(sb)) => GeoState::distance_heuristic(sa, sb),
            (State::Vel(sa), State::Vel(sb)) => VelState::distance_heuristic(sa, sb),
            (State::Acc(sa), State::Acc(sb)) => AccState::distance_heuristic(sa, sb),
            _ => 0,
        }
    }
}

} // verus!
