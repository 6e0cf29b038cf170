use kinorrt::states::{GeoState, VelState, AccState, State, Model, XY_MAX, V_MAX};
use kinorrt::controls::{GeoControl, VelControl, AccControl};
use kinorrt::environment::{SimpleGeoEnv, SimpleVelEnv, ForestGeoEnv, clear_of_obstacles,
    goal_reached};
use kinorrt::fixed::{PI_FP, HALF_PI_FP};
use kinorrt::dynamics::SteeringFunction;
use kinorrt::controls::Control;

#[test]
fn state_bounds_constants() {
    assert_eq!(GeoState::min().x, 0);
    assert_eq!(GeoState::max().x, 10_000_000);
    assert_eq!(VelState::min().theta, -PI_FP);
    assert_eq!(VelState::max().theta, PI_FP);
    assert_eq!(AccState::min().v, 0);
    assert_eq!(AccState::max().v, 2_000_000);
    assert_eq!(GeoState::span().x, 10_000_000);
    assert_eq!(AccState::span().v, 2_000_000);
    assert_eq!(VelState::span().theta, 2 * PI_FP);
}

#[test]
fn control_bounds_constants() {
    assert_eq!(GeoControl::min().theta, -PI_FP);
    assert_eq!(GeoControl::max().theta, PI_FP);
    assert_eq!(VelControl::min().omega, -1_000_000);
    assert_eq!(VelControl::max().v, 1_000_000);
    assert_eq!(AccControl::min().a, -500_000);
    assert_eq!(AccControl::max().a, 500_000);
}

#[test]
fn contains_inclusive_bounds() {
    assert!(GeoState::contains(&GeoState { x: 0, y: 0 }));
    assert!(GeoState::contains(&GeoState { x: XY_MAX, y: XY_MAX }));
    assert!(!GeoState::contains(&GeoState { x: -1, y: 0 }));
    assert!(!GeoState::contains(&GeoState { x: 0, y: XY_MAX + 1 }));
    assert!(AccState::contains(&AccState { x: 0, y: 0, v: V_MAX, theta: PI_FP }));
    assert!(!AccState::contains(&AccState { x: 0, y: 0, v: V_MAX + 1, theta: 0 }));
}

#[test]
fn clamp_is_no_op_inside_bounds() {
    let s = VelState { x: 5_000_000, y: 1, theta: -PI_FP };
    assert_eq!(s.clamp(), s);
    let g = GeoState { x: 0, y: XY_MAX };
    assert_eq!(g.clamp(), g);
}

#[test]
fn clamp_saturates_outside_bounds() {
    let s = AccState { x: -5, y: 20_000_000, v: 3_000_000, theta: 4_000_000 };
    let c = s.clamp();
    assert_eq!(c, AccState { x: 0, y: 10_000_000, v: 2_000_000, theta: PI_FP });
    assert!(AccState::contains(&c));
}

#[test]
fn sampling_stays_in_bounds_and_varies() {
    let mut all_same = true;
    let first = AccState::sample();
    for _ in 0..50 {
        let s = AccState::sample();
        assert!(AccState::contains(&s));
        if s != first {
            all_same = false;
        }
    }
    assert!(!all_same);
}

#[test]
fn distance_heuristic_exact_values() {
    let a = GeoState { x: 0, y: 0 };
    let b = GeoState { x: 10_000_000, y: 10_000_000 };
    assert_eq!(GeoState::distance_heuristic(&a, &b), 1_000_000);
    assert_eq!(GeoState::distance_heuristic(&a, &a), 0);
    let va = VelState { x: 0, y: 0, theta: 0 };
    let vb = VelState { x: 3_000_000, y: 4_000_000, theta: HALF_PI_FP };
    assert_eq!(VelState::distance_heuristic(&va, &vb), 853_552);
}

#[test]
fn steering_exact_controls() {
    let from = GeoState { x: 0, y: 0 };
    let to = GeoState { x: 1_000_000, y: 0 };
    let u = from.steer(&to);
    assert_eq!(u, Control::Geo(GeoControl { theta: 0 }));

    // velocity steering clamps the drive control to one unit
    let vf = VelState { x: 0, y: 0, theta: 0 };
    let vt = VelState { x: 3_000_000, y: 4_000_000, theta: 0 };
    let uv = vf.steer(&vt);
    match uv {
        Control::Vel(c) => {
            assert_eq!(c.v, 1_000_000);
            assert!(c.omega.abs() <= 1_000_000);
        }
        _ => panic!("wrong control model"),
    }
}

#[test]
fn propagate_zero_duration_is_identity() {
    let g = GeoState { x: 4_000_000, y: 5_000_000 };
    assert_eq!(g.propagate(&GeoControl { theta: 700_000 }, 0), g);
    let v = VelState { x: 4_000_000, y: 5_000_000, theta: 1_000_000 };
    assert_eq!(v.propagate(&VelControl { omega: 500_000, v: 800_000 }, 0), v);
    let a = AccState { x: 4_000_000, y: 5_000_000, v: 1_500_000, theta: -1_000_000 };
    assert_eq!(a.propagate(&AccControl { omega: -500_000, a: 300_000 }, 0), a);
}

#[test]
fn propagate_exact_values() {
    let g = GeoState { x: 0, y: 0 };
    let r = g.propagate(&GeoControl { theta: 0 }, 150_000);
    assert_eq!(r, GeoState { x: 149_976, y: 0 });

    // straight-line drive at one unit per second for one second
    let v = VelState { x: 0, y: 0, theta: 0 };
    let rv = v.propagate(&VelControl { omega: 0, v: 1_000_000 }, 1_000_000);
    assert_eq!(rv, VelState { x: 999_844, y: 0, theta: 0 });

    // constant acceleration from rest: the speed ramps linearly
    let a = AccState { x: 0, y: 0, v: 0, theta: 0 };
    let ra = a.propagate(&AccControl { omega: 0, a: 500_000 }, 1_000_000);
    assert_eq!(ra, AccState { x: 249_960, y: 0, v: 500_000, theta: 0 });
}

#[test]
fn goal_test_uses_position_only() {
    let env = SimpleVelEnv::new(
        VelState { x: 0, y: 0, theta: 0 },
        VelState { x: 5_000_000, y: 5_000_000, theta: 0 },
        500_000,
    );
    let near_flat = VelState { x: 5_100_000, y: 5_000_000, theta: 0 };
    let near_turned = VelState { x: 5_100_000, y: 5_000_000, theta: -3_000_000 };
    assert_eq!(env.is_goal(&near_flat), env.is_goal(&near_turned));
    assert!(env.is_goal(&near_flat));
    let far = VelState { x: 5_600_000, y: 5_000_000, theta: 0 };
    assert!(!env.is_goal(&far));
}

#[test]
fn goal_disc_is_strict() {
    // exactly on the rim is not inside
    assert!(!goal_reached(0, 0, 500_000, 500_000, 0));
    assert!(goal_reached(0, 0, 500_001, 500_000, 0));
    assert!(!goal_reached(0, 0, 0, 0, 0));
}

#[test]
fn forest_validity() {
    // half a unit from the obstacle at (2, 2): too close
    assert!(!clear_of_obstacles(2_500_000, 2_000_000));
    // one and a half units away from every center: clear
    assert!(clear_of_obstacles(3_500_000, 2_000_000));
    // exactly one unit away counts as clear
    assert!(clear_of_obstacles(3_000_000, 2_000_000));

    let env = ForestGeoEnv::new(
        GeoState { x: 0, y: 0 },
        GeoState { x: 9_500_000, y: 9_500_000 },
        500_000,
    );
    assert!(!env.is_valid(&GeoState { x: 2_500_000, y: 2_000_000 }));
    assert!(env.is_valid(&GeoState { x: 3_500_000, y: 2_000_000 }));
    // out of bounds is invalid even when far from every obstacle
    assert!(!env.is_valid(&GeoState { x: -1_000_000, y: 2_000_000 }));

    let simple = SimpleGeoEnv::new(
        GeoState { x: 0, y: 0 },
        GeoState { x: 9_500_000, y: 9_500_000 },
        500_000,
    );
    // the simple variant only asks for containment
    assert!(simple.is_valid(&GeoState { x: 2_500_000, y: 2_000_000 }));
}

#[test]
fn state_enum_dispatch() {
    let s = State::Geo(GeoState { x: 1, y: 2 });
    assert_eq!(s.position(), (1, 2));
    assert!(s.contains());
    let t = State::sample(Model::Acc);
    assert!(t.contains());
    match t {
        State::Acc(_) => {}
        _ => panic!("wrong model sampled"),
    }
}
