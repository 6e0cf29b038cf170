use kinorrt::fixed::{isqrt, div_fp, abs_fp, clamp_fp, SCALE, PI_FP, TWO_PI_FP, HALF_PI_FP};
use kinorrt::angle::{wrap, signed_angle_diff};
use kinorrt::trig::{sin_fp, cos_fp, atan2_fp};
use kinorrt::distance::{euclidean, angular};
use kinorrt::planners::PlannerSolution;

#[test]
fn isqrt_exact_values() {
    assert_eq!(isqrt(0), 0);
    assert_eq!(isqrt(1), 1);
    assert_eq!(isqrt(2), 1);
    assert_eq!(isqrt(3), 1);
    assert_eq!(isqrt(4), 2);
    assert_eq!(isqrt(999_999), 999);
    assert_eq!(isqrt(1_000_000), 1000);
    assert_eq!(isqrt(25_000_000_000_000), 5_000_000);
    assert_eq!(isqrt(200_000_000_000_000), 14_142_135);
}

#[test]
fn div_fp_floors_toward_negative_infinity() {
    assert_eq!(div_fp(7, 2), 3);
    assert_eq!(div_fp(-7, 2), -4);
    assert_eq!(div_fp(-8, 2), -4);
    assert_eq!(div_fp(0, 5), 0);
}

#[test]
fn abs_and_clamp() {
    assert_eq!(abs_fp(-5), 5);
    assert_eq!(abs_fp(5), 5);
    assert_eq!(clamp_fp(-3, 0, 10), 0);
    assert_eq!(clamp_fp(12, 0, 10), 10);
    assert_eq!(clamp_fp(7, 0, 10), 7);
}

#[test]
fn wrap_exact_values() {
    assert_eq!(wrap(0), 0);
    assert_eq!(wrap(PI_FP), PI_FP);
    assert_eq!(wrap(TWO_PI_FP), 0);
    assert_eq!(wrap(7_000_000), 716_814);
    assert_eq!(wrap(-7_000_000), -716_814);
    // the canonical range is half-open: the negative half-turn maps to
    // the positive one
    assert_eq!(wrap(-PI_FP), PI_FP);
}

#[test]
fn wrap_is_idempotent_and_in_range() {
    let samples: Vec<i64> = vec![
        0, 1, -1, PI_FP, -PI_FP, TWO_PI_FP, -TWO_PI_FP, 7_000_000, -7_000_000, 123_456_789,
        -987_654_321, 40_000_000_000,
    ];
    for a in samples {
        let w = wrap(a);
        assert!(-PI_FP < w && w <= PI_FP);
        assert_eq!(wrap(w), w);
    }
}

#[test]
fn signed_angle_diff_exact_values() {
    // a half turn of difference collapses to zero: headings are treated
    // modulo half a turn
    assert_eq!(signed_angle_diff(0, PI_FP), 0);
    assert_eq!(signed_angle_diff(0, HALF_PI_FP), HALF_PI_FP);
    assert_eq!(signed_angle_diff(PI_FP, -PI_FP), 0);
    assert_eq!(signed_angle_diff(0, 0), 0);
}

#[test]
fn signed_angle_diff_magnitude_bounded() {
    let samples: Vec<i64> = vec![
        0, 1, -1, PI_FP, -PI_FP, HALF_PI_FP, 300_000, 2_900_000, -2_900_000, 5_000_000,
    ];
    for a in &samples {
        for b in &samples {
            let d = signed_angle_diff(*a, *b);
            assert!(d.abs() <= HALF_PI_FP, "diff {} of {} {}", d, a, b);
        }
    }
}

#[test]
fn euclidean_exact_values() {
    assert_eq!(euclidean(3_000_000, 4_000_000), 5_000_000);
    assert_eq!(euclidean(-3_000_000, 4_000_000), 5_000_000);
    assert_eq!(euclidean(0, 0), 0);
    assert_eq!(euclidean(1, 0), 1);
    assert_eq!(euclidean(10_000_000, 10_000_000), 14_142_135);
}

#[test]
fn angular_exact_values() {
    assert_eq!(angular(0, PI_FP), 0);
    assert_eq!(angular(0, HALF_PI_FP), HALF_PI_FP);
    assert_eq!(angular(HALF_PI_FP, 0), HALF_PI_FP);
}

#[test]
fn sine_cosine_exact_values() {
    assert_eq!(sin_fp(0), 0);
    assert_eq!(sin_fp(HALF_PI_FP), 999_844);
    assert_eq!(sin_fp(PI_FP), 0);
    assert_eq!(sin_fp(-HALF_PI_FP), -999_844);
    assert_eq!(sin_fp(523_599), 500_000);
    assert_eq!(cos_fp(0), 999_844);
    assert_eq!(cos_fp(PI_FP), -999_844);
    assert_eq!(cos_fp(HALF_PI_FP), 0);
}

#[test]
fn sine_cosine_within_unit() {
    let mut a: i64 = -PI_FP;
    while a <= PI_FP {
        assert!(sin_fp(a).abs() <= SCALE);
        assert!(cos_fp(a).abs() <= SCALE);
        a += 97_003;
    }
}

#[test]
fn atan2_exact_values() {
    assert_eq!(atan2_fp(0, 0), 0);
    assert_eq!(atan2_fp(0, 1_000_000), 0);
    assert_eq!(atan2_fp(1_000_000, 1_000_000), 785_398);
    assert_eq!(atan2_fp(0, -1_000_000), PI_FP);
    assert_eq!(atan2_fp(-1_000_000, 0), -HALF_PI_FP);
    assert_eq!(atan2_fp(1_000_000, 0), HALF_PI_FP);
    // atan(0.5) in micro-radians, within the approximation's tolerance
    assert_eq!(atan2_fp(1_000_000, 2_000_000), 462_161);
}

#[test]
fn path_length_exact_value() {
    let sol = PlannerSolution {
        success: true,
        time_ms: 0,
        path: vec![(0, 0), (3_000_000, 4_000_000), (3_000_000, 5_000_000)],
        tree_size: 3,
    };
    assert_eq!(sol.path_length(), 6_000_000);
    let empty = PlannerSolution::new();
    assert_eq!(empty.path_length(), 0);
    assert!(!empty.success);
    assert_eq!(empty.tree_size, 0);
}
