//! Kinodynamic rapidly-exploring random trees over three dynamical
//! models (holonomic point, velocity- and acceleration-driven
//! unicycles), in fixed-point arithmetic: micro-units of length,
//! micro-radians of angle.
use vstd::prelude::*;

pub mod fixed;
pub mod angle;
pub mod trig;
pub mod distance;
pub mod sampling;
pub mod controls;
pub mod states;
pub mod dynamics;
pub mod environment;
pub mod clock;
pub mod planners;
pub mod rrt;

verus! {

/// One planning run with the standard hyperparameters: a 0.15 unit
/// step, a one unit extension cap, a five percent goal bias, a one
/// second budget. Returns the solution record and the tree's node
/// positions for export.
pub fn run_scenario(env: environment::Environment) -> (r: (
    planners::PlannerSolution,
    Vec<(i64, i64)>,
))
    requires
        env.wf(),
    ensures
        r.0.tree_size == r.1@.len(),
        !r.0.success ==> r.0.path@.len() == 0,
{
    let mut planner: rrt::RRT = rrt::RRT::new(env, 150_000, 1_000_000, 50_000);
    let sol: planners::PlannerSolution = planner.solve(1000);
    let tree: Vec<(i64, i64)> = planner.tree_positions();
    (sol, tree)
}

/// `n` independent trials of the same scenario, each with a fresh
/// planner on its own copy of the environment.
pub fn run_benchmark(env: environment::Environment, n: usize) -> (r: Vec<
    planners::PlannerSolution,
>)
    requires
        env.wf(),
    ensures
        r@.len() == n,
{
    let mut results: Vec<planners::PlannerSolution> = Vec::new();
    let mut i: usize = 0;
    while i < n
        invariant
            env.wf(),
            results@.len() == i <= n,
        decreases n - i,
    {
        let mut planner: rrt::RRT = rrt::RRT::new(env, 150_000, 1_000_000, 50_000);
        results.push(planner.solve(1000));
        i = i + 1;
    }
    results
}

} // verus!
