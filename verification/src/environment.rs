//! Environments: a start state, a goal disc, and a validity rule, for
//! each model, with and without the fixed forest of circular obstacles.
use vstd::prelude::*;
use crate::fixed::{SCALE, dist_sq, lemma_isqrt_cmp};
use crate::distance::euclidean;
use crate::states::{GeoState, VelState, AccState, State, Model, geo_in_bounds, vel_in_bounds,
    acc_in_bounds};

verus! {

/// The goal test: strictly within `radius` of the goal position,
/// measured by squared Euclidean distance, over positions alone.
pub open spec fn goal_sp(gx: int, gy: int, radius: int, x: int, y: int) -> bool {
    dist_sq(gx - x, gy - y) < radius * radius
}

/// Whether a position is within `radius` of a goal, decided by the
/// rounded-down Euclidean distance, as the squared comparison says.
pub fn goal_reached(gx: i64, gy: i64, radius: i64, x: i64, y: i64) -> (r: bool)
    requires
        -1_000_000_000 <= gx <= 1_000_000_000,
        -1_000_000_000 <= gy <= 1_000_000_000,
        -1_000_000_000 <= x <= 1_000_000_000,
        -1_000_000_000 <= y <= 1_000_000_000,
        0 <= radius <= 1_000_000_000,
    ensures
        r == goal_sp(gx as int, gy as int, radius as int, x as int, y as int),
{
    let d: i64 = euclidean(gx - x, gy - y);
    proof {
        assert(dist_sq((gx - x) as int, (gy - y) as int) >= 0) by (nonlinear_arith);
        lemma_isqrt_cmp(dist_sq((gx - x) as int, (gy - y) as int) as nat, radius as nat);
    }
    d < radius
}

/// The ten fixed obstacle centers, arranged in three rows across the
/// workspace.
pub open spec fn obstacles_sp() -> Seq<(i64, i64)> {
    seq![
        (2_000_000i64, 2_000_000i64),
        (5_000_000i64, 2_000_000i64),
        (8_000_000i64, 2_000_000i64),
        (500_000i64, 5_000_000i64),
        (3_500_000i64, 5_000_000i64),
        (6_500_000i64, 5_000_000i64),
        (9_500_000i64, 5_000_000i64),
        (2_000_000i64, 8_000_000i64),
        (5_000_000i64, 8_000_000i64),
        (8_000_000i64, 8_000_000i64),
    ]
}

/// Clearance from the i-th obstacle: squared distance at least one
/// squared workspace unit.
pub open spec fn obs_clear_at(x: int, y: int, i: int) -> bool {
    dist_sq(x - obstacles_sp()[i].0, y - obstacles_sp()[i].1) >= (SCALE as int) * (SCALE as int)
}

/// Clearance from every obstacle.
pub open spec fn clear_sp(x: int, y: int) -> bool {
    forall|i: int| 0 <= i < obstacles_sp().len() ==> #[trigger] obs_clear_at(x, y, i)
}

fn obstacle_list() -> (v: Vec<(i64, i64)>)
    ensures
        v@ == obstacles_sp(),
{
    let mut v: Vec<(i64, i64)> = Vec::new();
    v.push((2_000_000, 2_000_000));
    v.push((5_000_000, 2_000_000));
    v.push((8_000_000, 2_000_000));
    v.push((500_000, 5_000_000));
    v.push((3_500_000, 5_000_000));
    v.push((6_500_000, 5_000_000));
    v.push((9_500_000, 5_000_000));
    v.push((2_000_000, 8_000_000));
    v.push((5_000_000, 8_000_000));
    v.push((8_000_000, 8_000_000));
    proof {
        assert(v@ =~= obstacles_sp());
    }
    v
}

/// Whether a position keeps at least one workspace unit of Euclidean
/// distance to every obstacle center.
pub fn clear_of_obstacles(x: i64, y: i64) -> (r: bool)
    requires
        -1_000_000_000 <= x <= 1_000_000_000,
        -1_000_000_000 <= y <= 1_000_000_000,
    ensures
        r == clear_sp(x as int, y as int),
{
    let obs: Vec<(i64, i64)> = obstacle_list();
    let mut i: usize = 0;
    while i < obs.len()
        invariant
            0 <= i <= obs.len(),
            obs@ == obstacles_sp(),
            -1_000_000_000 <= x <= 1_000_000_000,
            -1_000_000_000 <= y <= 1_000_000_000,
            forall|j: int| 0 <= j < i ==> #[trigger] obs_clear_at(x as int, y as int, j),
        decreases obs.len() - i,
    {
        let ox: i64 = obs[i].0;
        let oy: i64 = obs[i].1;
        let d: i64 = euclidean(x - ox, y - oy);
        proof {
            assert(dist_sq((x - ox) as int, (y - oy) as int) >= 0) by (nonlinear_arith);
            lemma_isqrt_cmp(dist_sq((x - ox) as int, (y - oy) as int) as nat, SCALE as nat);
        }
        if d < SCALE {
            assert(!obs_clear_at(x as int, y as int, i as int));
            return false;
        }
        assert(obs_clear_at(x as int, y as int, i as int));
        i = i + 1;
    }
    true
}


/// Environment of the holonomic point; validity is in-bounds containment alone.
#[derive(Clone, Copy, PartialEq, Eq, Structural, Debug)]
pub struct SimpleGeoEnv {
    pub initial_state: GeoState,
    pub goal_state: GeoState,
    pub goal_radius: i64,
}

impl SimpleGeoEnv {
    pub open spec fn wf(self) -> bool {
        geo_in_bounds(self.initial_state) && geo_in_bounds(self.goal_state) && 0 <= self.goal_radius
            <= 1_000_000_000
    }

    pub open spec fn valid_sp(self, s: GeoState) -> bool {
        geo_in_bounds(s)
    }

    pub fn new(initial_state: GeoState, goal_state: GeoState, goal_radius: i64) -> (r: Self)
        requires
            geo_in_bounds(initial_state),
            geo_in_bounds(goal_state),
            0 <= goal_radius <= 1_000_000_000,
        ensures
            r.initial_state == initial_state,
            r.goal_state == goal_state,
            r.goal_radius == goal_radius,
            r.wf(),
    {
        Self { initial_state, goal_state, goal_radius }
    }

    pub fn initial_state(&self) -> (r: GeoState)
        ensures
            r == self.initial_state,
    {
        self.initial_state
    }

    /// True iff the position lies strictly within the goal disc; the
    /// other state coordinates play no part.
    pub fn is_goal(&self, state: &GeoState) -> (r: bool)
        requires
            self.wf(),
            -1_000_000_000 <= state.x <= 1_000_000_000,
            -1_000_000_000 <= state.y <= 1_000_000_000,
        ensures
            r == goal_sp(self.goal_state.x as int, self.goal_state.y as int,
                self.goal_radius as int, state.x as int, state.y as int),
    {
        goal_reached(self.goal_state.x, self.goal_state.y, self.goal_radius, state.x, state.y)
    }

    /// Always the exact fixed goal state.
    pub fn sample_goal(&self) -> (r: GeoState)
        ensures
            r == self.goal_state,
    {
        self.goal_state
    }

    /// A uniform draw from the state bounds.
    pub fn sample_state(&self) -> (r: GeoState)
        ensures
            geo_in_bounds(r),
    {
        GeoState::sample()
    }

    pub fn is_valid(&self, state: &GeoState) -> (r: bool)
        requires
            -1_000_000_000 <= state.x <= 1_000_000_000,
            -1_000_000_000 <= state.y <= 1_000_000_000,
        ensures
            r == self.valid_sp(*state),
    {
        GeoState::contains(state)
    }
}

/// Environment of the velocity-driven unicycle; validity is in-bounds containment alone.
#[derive(Clone, Copy, PartialEq, Eq, Structural, Debug)]
pub struct SimpleVelEnv {
    pub initial_state: VelState,
    pub goal_state: VelState,
    pub goal_radius: i64,
}

impl SimpleVelEnv {
    pub open spec fn wf(self) -> bool {
        vel_in_bounds(self.initial_state) && vel_in_bounds(self.goal_state) && 0 <= self.goal_radius
            <= 1_000_000_000
    }

    pub open spec fn valid_sp(self, s: VelState) -> bool {
        vel_in_bounds(s)
    }

    pub fn new(initial_state: VelState, goal_state: VelState, goal_radius: i64) -> (r: Self)
        requires
            vel_in_bounds(initial_state),
            vel_in_bounds(goal_state),
            0 <= goal_radius <= 1_000_000_000,
        ensures
            r.initial_state == initial_state,
            r.goal_state == goal_state,
            r.goal_radius == goal_radius,
            r.wf(),
    {
        Self { initial_state, goal_state, goal_radius }
    }

    pub fn initial_state(&self) -> (r: VelState)
        ensures
            r == self.initial_state,
    {
        self.initial_state
    }

    /// True iff the position lies strictly within the goal disc; the
    /// other state coordinates play no part.
    pub fn is_goal(&self, state: &VelState) -> (r: bool)
        requires
            self.wf(),
            -1_000_000_000 <= state.x <= 1_000_000_000,
            -1_000_000_000 <= state.y <= 1_000_000_000,
        ensures
            r == goal_sp(self.goal_state.x as int, self.goal_state.y as int,
                self.goal_radius as int, state.x as int, state.y as int),
    {
        goal_reached(self.goal_state.x, self.goal_state.y, self.goal_radius, state.x, state.y)
    }

    /// Always the exact fixed goal state.
    pub fn sample_goal(&self) -> (r: VelState)
        ensures
            r == self.goal_state,
    {
        self.goal_state
    }

    /// A uniform draw from the state bounds.
    pub fn sample_state(&self) -> (r: VelState)
        ensures
            vel_in_bounds(r),
    {
        VelState::sample()
    }

    pub fn is_valid(&self, state: &VelState) -> (r: bool)
        requires
            -1_000_000_000 <= state.x <= 1_000_000_000,
            -1_000_000_000 <= state.y <= 1_000_000_000,
        ensures
            r == self.valid_sp(*state),
    {
        VelState::contains(state)
    }
}

/// Environment of the acceleration-driven unicycle; validity is in-bounds containment alone.
#[derive(Clone, Copy, PartialEq, Eq, Structural, Debug)]
pub struct SimpleAccEnv {
    pub initial_state: AccState,
    pub goal_state: AccState,
    pub goal_radius: i64,
}

impl SimpleAccEnv {
    pub open spec fn wf(self) -> bool {
        acc_in_bounds(self.initial_state) && acc_in_bounds(self.goal_state) && 0 <= self.goal_radius
            <= 1_000_000_000
    }

    pub open spec fn valid_sp(self, s: AccState) -> bool {
        acc_in_bounds(s)
    }

    pub fn new(initial_state: AccState, goal_state: AccState, goal_radius: i64) -> (r: Self)
        requires
            acc_in_bounds(initial_state),
            acc_in_bounds(goal_state),
            0 <= goal_radius <= 1_000_000_000,
        ensures
            r.initial_state == initial_state,
            r.goal_state == goal_state,
            r.goal_radius == goal_radius,
            r.wf(),
    {
        Self { initial_state, goal_state, goal_radius }
    }

    pub fn initial_state(&self) -> (r: AccState)
        ensures
            r == self.initial_state,
    {
        self.initial_state
    }

    /// True iff the position lies strictly within the goal disc; the
    /// other state coordinates play no part.
    pub fn is_goal(&self, state: &AccState) -> (r: bool)
        requires
            self.wf(),
            -1_000_000_000 <= state.x <= 1_000_000_000,
            -1_000_000_000 <= state.y <= 1_000_000_000,
        ensures
            r == goal_sp(self.goal_state.x as int, self.goal_state.y as int,
                self.goal_radius as int, state.x as int, state.y as int),
    {
        goal_reached(self.goal_state.x, self.goal_state.y, self.goal_radius, state.x, state.y)
    }

    /// Always the exact fixed goal state.
    pub fn sample_goal(&self) -> (r: AccState)
        ensures
            r == self.goal_state,
    {
        self.goal_state
    }

    /// A uniform draw from the state bounds.
    pub fn sample_state(&self) -> (r: AccState)
        ensures
            acc_in_bounds(r),
    {
        AccState::sample()
    }

    pub fn is_valid(&self, state: &AccState) -> (r: bool)
        requires
            -1_000_000_000 <= state.x <= 1_000_000_000,
            -1_000_000_000 <= state.y <= 1_000_000_000,
        ensures
            r == self.valid_sp(*state),
    {
        AccState::contains(state)
    }
}

/// Environment of the holonomic point; validity is containment plus obstacle clearance.
#[derive(Clone, Copy, PartialEq, Eq, Structural, Debug)]
pub struct ForestGeoEnv {
    pub initial_state: GeoState,
    pub goal_state: GeoState,
    pub goal_radius: i64,
}

impl ForestGeoEnv {
    pub open spec fn wf(self) -> bool {
        geo_in_bounds(self.initial_state) && geo_in_bounds(self.goal_state) && 0 <= self.goal_radius
            <= 1_000_000_000
    }

    pub open spec fn valid_sp(self, s: GeoState) -> bool {
        geo_in_bounds(s) && clear_sp(s.x as int, s.y as int)
    }

    pub fn new(initial_state: GeoState, goal_state: GeoState, goal_radius: i64) -> (r: Self)
        requires
            geo_in_bounds(initial_state),
            geo_in_bounds(goal_state),
            0 <= goal_radius <= 1_000_000_000,
        ensures
            r.initial_state == initial_state,
            r.goal_state == goal_state,
            r.goal_radius == goal_radius,
            r.wf(),
    {
        Self { initial_state, goal_state, goal_radius }
    }

    pub fn initial_state(&self) -> (r: GeoState)
        ensures
            r == self.initial_state,
    {
        self.initial_state
    }

    /// True iff the position lies strictly within the goal disc; the
    /// other state coordinates play no part.
    pub fn is_goal(&self, state: &GeoState) -> (r: bool)
        requires
            self.wf(),
            -1_000_000_000 <= state.x <= 1_000_000_000,
            -1_000_000_000 <= state.y <= 1_000_000_000,
        ensures
            r == goal_sp(self.goal_state.x as int, self.goal_state.y as int,
                self.goal_radius as int, state.x as int, state.y as int),
    {
        goal_reached(self.goal_state.x, self.goal_state.y, self.goal_radius, state.x, state.y)
    }

    /// Always the exact fixed goal state.
    pub fn sample_goal(&self) -> (r: GeoState)
        ensures
            r == self.goal_state,
    {
        self.goal_state
    }

    /// A uniform draw from the state bounds.
    pub fn sample_state(&self) -> (r: GeoState)
        ensures
            geo_in_bounds(r),
    {
        GeoState::sample()
    }

    pub fn is_valid(&self, state: &GeoState) -> (r: bool)
        requires
            -1_000_000_000 <= state.x <= 1_000_000_000,
            -1_000_000_000 <= state.y <= 1_000_000_000,
        ensures
            r == self.valid_sp(*state),
    {
        GeoState::contains(state) && clear_of_obstacles(state.x, state.y)
    }
}

/// Environment of the velocity-driven unicycle; validity is containment plus obstacle clearance.
#[derive(Clone, Copy, PartialEq, Eq, Structural, Debug)]
pub struct ForestVelEnv {
    pub initial_state: VelState,
    pub goal_state: VelState,
    pub goal_radius: i64,
}

impl ForestVelEnv {
    pub open spec fn wf(self) -> bool {
        vel_in_bounds(self.initial_state) && vel_in_bounds(self.goal_state) && 0 <= self.goal_radius
            <= 1_000_000_000
    }

    pub open spec fn valid_sp(self, s: VelState) -> bool {
        vel_in_bounds(s) && clear_sp(s.x as int, s.y as int)
    }

    pub fn new(initial_state: VelState, goal_state: VelState, goal_radius: i64) -> (r: Self)
        requires
            vel_in_bounds(initial_state),
            vel_in_bounds(goal_state),
            0 <= goal_radius <= 1_000_000_000,
        ensures
            r.initial_state == initial_state,
            r.goal_state == goal_state,
            r.goal_radius == goal_radius,
            r.wf(),
    {
        Self { initial_state, goal_state, goal_radius }
    }

    pub fn initial_state(&self) -> (r: VelState)
        ensures
            r == self.initial_state,
    {
        self.initial_state
    }

    /// True iff the position lies strictly within the goal disc; the
    /// other state coordinates play no part.
    pub fn is_goal(&self, state: &VelState) -> (r: bool)
        requires
            self.wf(),
            -1_000_000_000 <= state.x <= 1_000_000_000,
            -1_000_000_000 <= state.y <= 1_000_000_000,
        ensures
            r == goal_sp(self.goal_state.x as int, self.goal_state.y as int,
                self.goal_radius as int, state.x as int, state.y as int),
    {
        goal_reached(self.goal_state.x, self.goal_state.y, self.goal_radius, state.x, state.y)
    }

    /// Always the exact fixed goal state.
    pub fn sample_goal(&self) -> (r: VelState)
        ensures
            r == self.goal_state,
    {
        self.goal_state
    }

    /// A uniform draw from the state bounds.
    pub fn sample_state(&self) -> (r: VelState)
        ensures
            vel_in_bounds(r),
    {
        VelState::sample()
    }

    pub fn is_valid(&self, state: &VelState) -> (r: bool)
        requires
            -1_000_000_000 <= state.x <= 1_000_000_000,
            -1_000_000_000 <= state.y <= 1_000_000_000,
        ensures
            r == self.valid_sp(*state),
    {
        VelState::contains(state) && clear_of_obstacles(state.x, state.y)
    }
}

/// Environment of the acceleration-driven unicycle; validity is containment plus obstacle clearance.
#[derive(Clone, Copy, PartialEq, Eq, Structural, Debug)]
pub struct ForestAccEnv {
    pub initial_state: AccState,
    pub goal_state: AccState,
    pub goal_radius: i64,
}

impl ForestAccEnv {
    pub open spec fn wf(self) -> bool {
        acc_in_bounds(self.initial_state) && acc_in_bounds(self.goal_state) && 0 <= self.goal_radius
            <= 1_000_000_000
    }

    pub open spec fn valid_sp(self, s: AccState) -> bool {
        acc_in_bounds(s) && clear_sp(s.x as int, s.y as int)
    }

    pub fn new(initial_state: AccState, goal_state: AccState, goal_radius: i64) -> (r: Self)
        requires
            acc_in_bounds(initial_state),
            acc_in_bounds(goal_state),
            0 <= goal_radius <= 1_000_000_000,
        ensures
            r.initial_state == initial_state,
            r.goal_state == goal_state,
            r.goal_radius == goal_radius,
            r.wf(),
    {
        Self { initial_state, goal_state, goal_radius }
    }

    pub fn initial_state(&self) -> (r: AccState)
        ensures
            r == self.initial_state,
    {
        self.initial_state
    }

    /// True iff the position lies strictly within the goal disc; the
    /// other state coordinates play no part.
    pub fn is_goal(&self, state: &AccState) -> (r: bool)
        requires
            self.wf(),
            -1_000_000_000 <= state.x <= 1_000_000_000,
            -1_000_000_000 <= state.y <= 1_000_000_000,
        ensures
            r == goal_sp(self.goal_state.x as int, self.goal_state.y as int,
                self.goal_radius as int, state.x as int, state.y as int),
    {
        goal_reached(self.goal_state.x, self.goal_state.y, self.goal_radius, state.x, state.y)
    }

    /// Always the exact fixed goal state.
    pub fn sample_goal(&self) -> (r: AccState)
        ensures
            r == self.goal_state,
    {
        self.goal_state
    }

    /// A uniform draw from the state bounds.
    pub fn sample_state(&self) -> (r: AccState)
        ensures
            acc_in_bounds(r),
    {
        AccState::sample()
    }

    pub fn is_valid(&self, state: &AccState) -> (r: bool)
        requires
            -1_000_000_000 <= state.x <= 1_000_000_000,
            -1_000_000_000 <= state.y <= 1_000_000_000,
        ensures
            r == self.valid_sp(*state),
    {
        AccState::contains(state) && clear_of_obstacles(state.x, state.y)
    }
}

/// Any of the six environments: each couples one model to a start
/// state, a goal disc, and a validity rule.
#[derive(Clone, Copy, PartialEq, Eq, Structural, Debug)]
pub enum Environment {
    SimpleGeo(SimpleGeoEnv),
    SimpleVel(SimpleVelEnv),
    SimpleAcc(SimpleAccEnv),
    ForestGeo(ForestGeoEnv),
    ForestVel(ForestVelEnv),
    ForestAcc(ForestAccEnv),
}

impl Environment {
    pub open spec fn model(self) -> Model {
        match self {
            Environment::SimpleGeo(_) => Model::Geo,
            Environment::SimpleVel(_) => Model::Vel,
            Environment::SimpleAcc(_) => Model::Acc,
            Environment::ForestGeo(_) => Model::Geo,
            Environment::ForestVel(_) => Model::Vel,
            Environment::ForestAcc(_) => Model::Acc,
        }
    }

    pub open spec fn wf(self) -> bool {
        match self {
            Environment::SimpleGeo(e) => e.wf(),
            Environment::SimpleVel(e) => e.wf(),
            Environment::SimpleAcc(e) => e.wf(),
            Environment::ForestGeo(e) => e.wf(),
            Environment::ForestVel(e) => e.wf(),
            Environment::ForestAcc(e) => e.wf(),
        }
    }

    pub open spec fn initial_sp(self) -> State {
        match self {
            Environment::SimpleGeo(e) => State::Geo(e.initial_state),
            Environment::SimpleVel(e) => State::Vel(e.initial_state),
            Environment::SimpleAcc(e) => State::Acc(e.initial_state),
            Environment::ForestGeo(e) => State::Geo(e.initial_state),
            Environment::ForestVel(e) => State::Vel(e.initial_state),
            Environment::ForestAcc(e) => State::Acc(e.initial_state),
        }
    }

    pub open spec fn goal_state_sp(self) -> State {
        match self {
            Environment::SimpleGeo(e) => State::Geo(e.goal_state),
            Environment::SimpleVel(e) => State::Vel(e.goal_state),
            Environment::SimpleAcc(e) => State::Acc(e.goal_state),
            Environment::ForestGeo(e) => State::Geo(e.goal_state),
            Environment::ForestVel(e) => State::Vel(e.goal_state),
            Environment::ForestAcc(e) => State::Acc(e.goal_state),
        }
    }

    pub open spec fn goal_pos_sp(self) -> (int, int) {
        self.goal_state_sp().pos_sp()
    }

    pub open spec fn goal_radius_sp(self) -> int {
        match self {
            Environment::SimpleGeo(e) => e.goal_radius as int,
            Environment::SimpleVel(e) => e.goal_radius as int,
            Environment::SimpleAcc(e) => e.goal_radius as int,
            Environment::ForestGeo(e) => e.goal_radius as int,
            Environment::ForestVel(e) => e.goal_radius as int,
            Environment::ForestAcc(e) => e.goal_radius as int,
        }
    }

    /// The goal test over a position: it reads nothing of a state but
    /// its 2D position.
    pub open spec fn goal_at_sp(self, x: int, y: int) -> bool {
        goal_sp(self.goal_pos_sp().0, self.goal_pos_sp().1, self.goal_radius_sp(), x, y)
    }

    pub open spec fn valid_sp(self, s: State) -> bool {
        match (self, s) {
            (Environment::SimpleGeo(e), State::Geo(st)) => e.valid_sp(st),
            (Environment::SimpleVel(e), State::Vel(st)) => e.valid_sp(st),
            (Environment::SimpleAcc(e), State::Acc(st)) => e.valid_sp(st),
            (Environment::ForestGeo(e), State::Geo(st)) => e.valid_sp(st),
            (Environment::ForestVel(e), State::Vel(st)) => e.valid_sp(st),
            (Environment::ForestAcc(e), State::Acc(st)) => e.valid_sp(st),
            _ => false,
        }
    }

    pub fn initial_state(&self) -> (r: State)
        requires
            self.wf(),
        ensures
            r == self.initial_sp(),
            r.model() == self.model(),
            r.in_bounds(),
    {
        match self {
            Environment::SimpleGeo(e) => State::Geo(e.initial_state()),
            Environment::SimpleVel(e) => State::Vel(e.initial_state()),
            Environment::SimpleAcc(e) => State::Acc(e.initial_state()),
            Environment::ForestGeo(e) => State::Geo(e.initial_state()),
            Environment::ForestVel(e) => State::Vel(e.initial_state()),
            Environment::ForestAcc(e) => State::Acc(e.initial_state()),
        }
    }

    /// Always the exact fixed goal state.
    pub fn sample_goal(&self) -> (r: State)
        requires
            self.wf(),
        ensures
            r == self.goal_state_sp(),
            r.model() == self.model(),
            r.in_bounds(),
    {
        match self {
            Environment::SimpleGeo(e) => State::Geo(e.sample_goal()),
            Environment::SimpleVel(e) => State::Vel(e.sample_goal()),
            Environment::SimpleAcc(e) => State::Acc(e.sample_goal()),
            Environment::ForestGeo(e) => State::Geo(e.sample_goal()),
            Environment::ForestVel(e) => State::Vel(e.sample_goal()),
            Environment::ForestAcc(e) => State::Acc(e.sample_goal()),
        }
    }

    /// A uniform draw from the model's state bounds; validity against
    /// obstacles is not checked here.
    pub fn sample_state(&self) -> (r: State)
        ensures
            r.model() == self.model(),
            r.in_bounds(),
    {
        match self {
            Environment::SimpleGeo(e) => State::Geo(e.sample_state()),
            Environment::SimpleVel(e) => State::Vel(e.sample_state()),
            Environment::SimpleAcc(e) => State::Acc(e.sample_state()),
            Environment::ForestGeo(e) => State::Geo(e.sample_state()),
            Environment::ForestVel(e) => State::Vel(e.sample_state()),
            Environment::ForestAcc(e) => State::Acc(e.sample_state()),
        }
    }

    /// The goal test, over the state's position alone.
    pub fn is_goal(&self, state: &State) -> (r: bool)
        requires
            self.wf(),
            -1_000_000_000 <= state.pos_sp().0 <= 1_000_000_000,
            -1_000_000_000 <= state.pos_sp().1 <= 1_000_000_000,
        ensures
            r == self.goal_at_sp(state.pos_sp().0, state.pos_sp().1),
    {
        let p: (i64, i64) = state.position();
        match self {
            Environment::SimpleGeo(e) => goal_reached(e.goal_state.x, e.goal_state.y,
                e.goal_radius, p.0, p.1),
            Environment::SimpleVel(e) => goal_reached(e.goal_state.x, e.goal_state.y,
                e.goal_radius, p.0, p.1),
            Environment::SimpleAcc(e) => goal_reached(e.goal_state.x, e.goal_state.y,
                e.goal_radius, p.0, p.1),
            Environment::ForestGeo(e) => goal_reached(e.goal_state.x, e.goal_state.y,
                e.goal_radius, p.0, p.1),
            Environment::ForestVel(e) => goal_reached(e.goal_state.x, e.goal_state.y,
                e.goal_radius, p.0, p.1),
            Environment::ForestAcc(e) => goal_reached(e.goal_state.x, e.goal_state.y,
                e.goal_radius, p.0, p.1),
        }
    }

    /// The validity rule: containment, plus obstacle clearance in the
    /// forest variants; false for a state of another model.
    pub fn is_valid(&self, state: &State) -> (r: bool)
        requires
            -1_000_000_000 <= state.pos_sp().0 <= 1_000_000_000,
            -1_000_000_000 <= state.pos_sp().1 <= 1_000_000_000,
        ensures
            r == self.valid_sp(*state),
    {
        match (self, state) {
            (Environment::SimpleGeo(e), State::Geo(st)) => e.is_valid(st),
            (Environment::SimpleVel(e), State::Vel(st)) => e.is_valid(st),
            (Environment::SimpleAcc(e), State::Acc(st)) => e.is_valid(st),
            (Environment::ForestGeo(e), State::Geo(st)) => e.is_valid(st),
            (Environment::ForestVel(e), State::Vel(st)) => e.is_valid(st),
            (Environment::ForestAcc(e), State::Acc(st)) => e.is_valid(st),
            _ => false,
        }
    }
}

/// A valid state is in particular within its model's bounds.
pub proof fn lemma_valid_in_bounds(e: Environment, s: State)
    requires
        e.valid_sp(s),
    ensures
        s.in_bounds(),
        s.model() == e.model(),
{
}

/// Goal detection reads the position alone: two states that share a
/// position get the same answer, whatever their heading or speed.
pub proof fn lemma_goal_position_only(e: Environment, a: State, b: State)
    requires
        a.pos_sp() == b.pos_sp(),
    ensures
        e.goal_at_sp(a.pos_sp().0, a.pos_sp().1) == e.goal_at_sp(b.pos_sp().0, b.pos_sp().1),
{
}

} // verus!
