use somble::falloff::Falloff;
use somble::units::UNIT;

#[test]
fn flat_curve_is_one_everywhere() {
    let f = Falloff::none();
    assert_eq!(f.amount(0), UNIT);
    assert_eq!(f.amount(10_000), UNIT);
    assert_eq!(f.amount(i64::MAX), UNIT);
    assert_eq!(f.amount(i64::MIN), UNIT);
}

#[test]
fn ratio_of_one_ignores_start_and_end() {
    let f = Falloff::new(UNIT, 5_000, 32_000);
    assert_eq!(f.amount(0), UNIT);
    assert_eq!(f.amount(20_000), UNIT);
    assert_eq!(f.amount(40_000), UNIT);
}

#[test]
fn curve_is_ratio_from_end_outward() {
    let f = Falloff::new(500, 5_000, 32_000);
    assert_eq!(f.amount(32_000), 500);
    assert_eq!(f.amount(32_001), 500);
    assert_eq!(f.amount(1_000_000), 500);
    assert_eq!(f.amount(i64::MAX), 500);
}

#[test]
fn curve_is_one_from_start_inward() {
    let f = Falloff::new(500, 5_000, 32_000);
    assert_eq!(f.amount(5_000), UNIT);
    assert_eq!(f.amount(4_999), UNIT);
    assert_eq!(f.amount(0), UNIT);
    assert_eq!(f.amount(-7), UNIT);
}

#[test]
fn curve_interpolates_in_between() {
    let f = Falloff::new(500, 5_000, 32_000);
    // Half way: 500 + (13_500 * 500) / 27_000 = 750.
    assert_eq!(f.amount(18_500), 750);
    // One thousandth short of the end: 500 + (1 * 500) / 27_000 = 500.
    assert_eq!(f.amount(31_999), 500);
    // One thousandth past the start: 500 + (26_999 * 500) / 27_000 = 999.
    assert_eq!(f.amount(5_001), 999);
    let g = Falloff::new(0, 0, 10_000);
    assert_eq!(g.amount(2_500), 750);
    assert_eq!(g.amount(7_500), 250);
}

#[test]
fn curve_never_rises_with_distance() {
    let f = Falloff::new(200, 3_000, 47_000);
    let mut last = f.amount(0);
    let mut d = 0;
    while d <= 50_000 {
        let now = f.amount(d);
        assert!(now <= last);
        assert!(now >= 200 && now <= UNIT);
        last = now;
        d += 137;
    }
}

#[test]
fn ratio_above_one_falls_toward_one() {
    let f = Falloff::new(2_000, 0, 10_000);
    assert_eq!(f.amount(10_000), 2_000);
    assert_eq!(f.amount(0), UNIT);
    // 2_000 + floor((5_000 * -1_000) / 10_000) = 1_500.
    assert_eq!(f.amount(5_000), 1_500);
    // 2_000 + floor((3_333 * -1_000) / 10_000) = 2_000 - 334.
    assert_eq!(f.amount(6_667), 1_666);
}

#[test]
fn degenerate_curve_steps_at_end() {
    let f = Falloff::new(300, 8_000, 8_000);
    assert_eq!(f.amount(8_000), 300);
    assert_eq!(f.amount(7_999), UNIT);
    let g = Falloff::new(300, 9_000, 8_000);
    assert_eq!(g.amount(8_500), 300);
    assert_eq!(g.amount(7_000), UNIT);
}

#[test]
fn extreme_curve_does_not_overflow() {
    let f = Falloff::new(i64::MIN, i64::MIN, i64::MAX);
    assert_eq!(f.amount(i64::MAX), i64::MIN);
    assert_eq!(f.amount(i64::MIN), UNIT);
    let mid = f.amount(0);
    assert!(mid < UNIT && mid > i64::MIN);
    let g = Falloff::new(i64::MAX, i64::MIN, i64::MAX);
    let high = g.amount(0);
    assert!(high > UNIT && high < i64::MAX);
}
