use somble::geometry::isqrt;
use somble::geometry::saturating_difference;
use somble::geometry::Vector;
use somble::units::floor_div;
use somble::units::floor_div_parts;
use somble::units::scale;
use somble::units::UNIT;
use somble::utils::TimeScale;

#[test]
fn scale_by_one_is_identity() {
    assert_eq!(scale(25_000, UNIT), 25_000);
    assert_eq!(scale(-25_000, UNIT), -25_000);
    assert_eq!(scale(i64::MAX, UNIT), i64::MAX);
    assert_eq!(scale(i64::MIN, UNIT), i64::MIN);
}

#[test]
fn scale_rounds_toward_minus_infinity() {
    assert_eq!(scale(50_000, 700), 35_000);
    assert_eq!(scale(1, 500), 0);
    assert_eq!(scale(-1, 500), -1);
    assert_eq!(scale(3, 500), 1);
    assert_eq!(scale(-3, 500), -2);
    assert_eq!(scale(7, -500), -4);
}

#[test]
fn scale_saturates() {
    assert_eq!(scale(i64::MAX, 2_000), i64::MAX);
    assert_eq!(scale(i64::MIN, 2_000), i64::MIN);
    assert_eq!(scale(i64::MIN, -2_000), i64::MAX);
    assert_eq!(scale(i64::MAX, i64::MAX), i64::MAX);
}

#[test]
fn floor_div_matches_mathematical_floor() {
    assert_eq!(floor_div(7, 2), 3);
    assert_eq!(floor_div(-7, 2), -4);
    assert_eq!(floor_div(-8, 2), -4);
    assert_eq!(floor_div(0, 5), 0);
    assert_eq!(floor_div(-1, 1_000), -1);
    assert_eq!(floor_div(i128::MAX, 1), i128::MAX);
    assert_eq!(floor_div(i128::MIN + 1, 1), i128::MIN + 1);
    assert_eq!(floor_div_parts(true, 9, 4), -3);
    assert_eq!(floor_div_parts(false, 9, 4), 2);
    assert_eq!(floor_div_parts(true, 8, 4), -2);
}

#[test]
fn isqrt_rounds_down() {
    assert_eq!(isqrt(0), 0);
    assert_eq!(isqrt(1), 1);
    assert_eq!(isqrt(2), 1);
    assert_eq!(isqrt(3), 1);
    assert_eq!(isqrt(4), 2);
    assert_eq!(isqrt(99), 9);
    assert_eq!(isqrt(100), 10);
    assert_eq!(isqrt(2_000_000_000_000), 1_414_213);
    assert_eq!(isqrt(u128::MAX), u64::MAX as u128);
}

#[test]
fn distance_is_euclidean_rounded_down() {
    let o = Vector { x: 0, y: 0 };
    assert_eq!(Vector { x: 3_000, y: 4_000 }.distance(&o), 5_000);
    assert_eq!(Vector { x: 1_000, y: 1_000 }.distance(&o), 1_414);
    assert_eq!(Vector { x: -10_000, y: 0 }.distance(&o), 10_000);
    assert_eq!(o.distance(&o), 0);
    let a = Vector { x: 7_000, y: -2_000 };
    let b = Vector { x: 4_000, y: 2_000 };
    assert_eq!(a.distance(&b), 5_000);
    assert_eq!(b.distance(&a), 5_000);
}

#[test]
fn distance_saturates() {
    let a = Vector { x: i64::MIN, y: i64::MIN };
    let b = Vector { x: i64::MAX, y: i64::MAX };
    assert_eq!(a.distance(&b), i64::MAX);
    let c = Vector { x: i64::MAX, y: 0 };
    let d = Vector { x: 0, y: 0 };
    assert_eq!(c.distance(&d), i64::MAX);
}

#[test]
fn offset_points_from_origin_to_position() {
    let origin = Vector { x: 1_000, y: 2_000 };
    let position = Vector { x: 4_000, y: -2_000 };
    assert_eq!(position.offset(&origin), Vector { x: 3_000, y: -4_000 });
    let far = Vector { x: i64::MAX, y: i64::MIN };
    let other = Vector { x: -1, y: 1 };
    assert_eq!(far.offset(&other), Vector { x: i64::MAX, y: i64::MIN });
    assert_eq!(saturating_difference(5, 7), -2);
    assert_eq!(saturating_difference(i64::MIN, 1), i64::MIN);
}

#[test]
fn dot_signs() {
    let a = Vector { x: 2, y: 3 };
    assert!(a.dot_is_positive(&Vector { x: 1, y: 1 }));
    assert!(!a.dot_is_negative(&Vector { x: 1, y: 1 }));
    assert!(a.dot_is_negative(&Vector { x: -4, y: 1 }));
    assert!(!a.dot_is_positive(&Vector { x: -4, y: 1 }));
    assert!(!a.dot_is_positive(&Vector { x: 3, y: -2 }));
    assert!(!a.dot_is_negative(&Vector { x: 3, y: -2 }));
    let m = Vector { x: i64::MIN, y: i64::MIN };
    assert!(m.dot_is_positive(&m));
    assert!(m.dot_is_negative(&Vector { x: i64::MAX, y: i64::MAX }));
    assert!(!m.dot_is_negative(&Vector { x: i64::MAX, y: i64::MIN }));
}

#[test]
fn time_scale_multiplies_the_delta() {
    assert_eq!(TimeScale(1_000).scale_delta(16_000_000), 16_000_000);
    assert_eq!(TimeScale(10).scale_delta(16_000_000), 160_000);
    assert_eq!(TimeScale(0).scale_delta(16_000_000), 0);
    assert_eq!(TimeScale(500).scale_delta(3), 1);
    assert_eq!(TimeScale(2_000).scale_delta(u64::MAX), u64::MAX);
    assert_eq!(TimeScale(u32::MAX).scale_delta(u64::MAX), u64::MAX);
}
