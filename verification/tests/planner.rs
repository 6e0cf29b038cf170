use kinorrt::states::{GeoState, State};
use kinorrt::environment::{Environment, SimpleGeoEnv, ForestGeoEnv};
use kinorrt::rrt::RRT;
use kinorrt::run_scenario;
use kinorrt::run_benchmark;
use kinorrt::environment::{SimpleVelEnv, SimpleAccEnv};
use kinorrt::states::{VelState, AccState};

fn geo_env() -> Environment {
    Environment::SimpleGeo(SimpleGeoEnv::new(
        GeoState { x: 0, y: 0 },
        GeoState { x: 9_500_000, y: 9_500_000 },
        500_000,
    ))
}

fn forest_env() -> Environment {
    Environment::ForestGeo(ForestGeoEnv::new(
        GeoState { x: 0, y: 0 },
        GeoState { x: 9_500_000, y: 9_500_000 },
        500_000,
    ))
}

fn dist_sq_to(p: (i64, i64), q: (i64, i64)) -> i64 {
    let dx = p.0 - q.0;
    let dy = p.1 - q.1;
    dx * dx + dy * dy
}

#[test]
fn simple_geo_scenario_succeeds() {
    let mut planner = RRT::new(geo_env(), 150_000, 1_000_000, 50_000);
    let sol = planner.solve(1000);
    assert!(sol.success);
    assert!(!sol.path.is_empty());
    assert_eq!(sol.path[0], (0, 0));
    let last = sol.path[sol.path.len() - 1];
    assert!(dist_sq_to(last, (9_500_000, 9_500_000)) < 500_000 * 500_000);
    assert_eq!(sol.tree_size, planner.nodes.len());
}

#[test]
fn forest_geo_path_clears_obstacles() {
    let obstacles: Vec<(i64, i64)> = vec![
        (2_000_000, 2_000_000),
        (5_000_000, 2_000_000),
        (8_000_000, 2_000_000),
        (500_000, 5_000_000),
        (3_500_000, 5_000_000),
        (6_500_000, 5_000_000),
        (9_500_000, 5_000_000),
        (2_000_000, 8_000_000),
        (5_000_000, 8_000_000),
        (8_000_000, 8_000_000),
    ];
    let mut succeeded = false;
    for _ in 0..5 {
        let mut planner = RRT::new(forest_env(), 150_000, 1_000_000, 50_000);
        let sol = planner.solve(1000);
        for p in &sol.path {
            for o in &obstacles {
                assert!(dist_sq_to(*p, *o) >= 1_000_000_000_000,
                    "path point {:?} too close to obstacle {:?}", p, o);
            }
        }
        if sol.success {
            succeeded = true;
            assert_eq!(sol.path[0], (0, 0));
            break;
        }
    }
    assert!(succeeded);
}

#[test]
fn zero_budget_returns_immediately() {
    let mut planner = RRT::new(geo_env(), 150_000, 1_000_000, 50_000);
    let sol = planner.solve(0);
    assert!(!sol.success);
    assert_eq!(sol.tree_size, 1);
    assert!(sol.path.is_empty());
}

#[test]
fn full_bias_always_samples_the_goal() {
    let planner = RRT::new(geo_env(), 150_000, 1_000_000, 1_000_000);
    for _ in 0..20 {
        let t = planner.sample_target();
        assert_eq!(t, State::Geo(GeoState { x: 9_500_000, y: 9_500_000 }));
    }
}

#[test]
fn full_bias_still_solves() {
    let mut planner = RRT::new(geo_env(), 150_000, 1_000_000, 1_000_000);
    let sol = planner.solve(1000);
    assert!(sol.success);
    assert_eq!(sol.path[0], (0, 0));
}

#[test]
fn full_bias_discards_invalid_extensions() {
    // the goal sits inside an obstacle's clearance ring, so goal-directed
    // extensions keep failing validity near it and the budget runs out
    let blocked = Environment::ForestGeo(ForestGeoEnv::new(
        GeoState { x: 0, y: 0 },
        GeoState { x: 2_000_000, y: 2_000_000 },
        100_000,
    ));
    let mut planner = RRT::new(blocked, 150_000, 1_000_000, 1_000_000);
    let sol = planner.solve(200);
    assert!(!sol.success);
    assert!(sol.path.is_empty());
}

#[test]
fn unreachable_goal_exhausts_budget() {
    // a zero goal radius can never be strictly entered
    let env = Environment::SimpleGeo(SimpleGeoEnv::new(
        GeoState { x: 0, y: 0 },
        GeoState { x: 9_500_000, y: 9_500_000 },
        0,
    ));
    let mut planner = RRT::new(env, 150_000, 1_000_000, 50_000);
    let sol = planner.solve(100);
    assert!(!sol.success);
    assert!(sol.tree_size > 1);
    assert_eq!(sol.tree_size, planner.nodes.len());
}

#[test]
fn tree_parents_precede_children() {
    let mut planner = RRT::new(geo_env(), 150_000, 1_000_000, 50_000);
    let _ = planner.solve(200);
    assert!(planner.nodes.len() >= 1);
    assert_eq!(planner.nodes[0].1, None);
    for (i, node) in planner.nodes.iter().enumerate() {
        if i == 0 {
            continue;
        }
        let p = node.1.expect("non-root node without a parent");
        assert!(p < i);
        // walking parents reaches the root
        let mut cur = i;
        let mut steps = 0;
        while let Some(q) = planner.nodes[cur].1 {
            cur = q;
            steps += 1;
            assert!(steps <= i);
        }
        assert_eq!(cur, 0);
    }
}

#[test]
fn nearest_on_single_node_tree() {
    let planner = RRT::new(geo_env(), 150_000, 1_000_000, 50_000);
    let target = State::Geo(GeoState { x: 9_000_000, y: 9_000_000 });
    assert_eq!(planner.nearest(&target), 0);
}

#[test]
fn run_scenario_reports_tree() {
    let (sol, tree) = run_scenario(geo_env());
    assert_eq!(sol.tree_size, tree.len());
    assert_eq!(tree[0], (0, 0));
    if !sol.success {
        assert!(sol.path.is_empty());
    }
}

#[test]
fn run_benchmark_returns_one_record_per_trial() {
    let results = run_benchmark(geo_env(), 2);
    assert_eq!(results.len(), 2);
    for r in &results {
        assert!(r.tree_size >= 1);
    }
}

#[test]
fn velocity_model_scenario_is_consistent() {
    let env = Environment::SimpleVel(SimpleVelEnv::new(
        VelState { x: 0, y: 0, theta: 785_398 },
        VelState { x: 9_500_000, y: 9_500_000, theta: 0 },
        500_000,
    ));
    let mut planner = RRT::new(env, 150_000, 1_000_000, 50_000);
    let sol = planner.solve(1000);
    assert!(sol.tree_size >= 1);
    if sol.success {
        assert_eq!(sol.path[0], (0, 0));
        let last = sol.path[sol.path.len() - 1];
        assert!(dist_sq_to(last, (9_500_000, 9_500_000)) < 500_000 * 500_000);
    } else {
        assert!(sol.path.is_empty());
    }
}

#[test]
fn acceleration_model_scenario_is_consistent() {
    let env = Environment::SimpleAcc(SimpleAccEnv::new(
        AccState { x: 0, y: 0, v: 0, theta: 785_398 },
        AccState { x: 9_500_000, y: 9_500_000, v: 0, theta: 0 },
        500_000,
    ));
    let mut planner = RRT::new(env, 150_000, 1_000_000, 50_000);
    let sol = planner.solve(1000);
    assert!(sol.tree_size >= 1);
    if sol.success {
        assert_eq!(sol.path[0], (0, 0));
        let last = sol.path[sol.path.len() - 1];
        assert!(dist_sq_to(last, (9_500_000, 9_500_000)) < 500_000 * 500_000);
    } else {
        assert!(sol.path.is_empty());
    }
}
