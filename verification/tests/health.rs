use somble::health::DamageFlash;
use somble::health::Health;
use somble::health::Verdict;
use somble::utils::TimeScale;

#[test]
fn new_health_is_full() {
    let h = Health::new(100_000);
    assert_eq!(h.current, 100_000);
    assert_eq!(h.max, 100_000);
    assert_eq!(h.percentage(), 1_000);
}

#[test]
fn damage_lowers_health_and_flashes() {
    let mut h = Health::new(100_000);
    let v = h.apply(-25_000);
    assert_eq!(h.current, 75_000);
    assert_eq!(v, Verdict { dead: false, flash: true });
    assert_eq!(h.percentage(), 750);
}

#[test]
fn healing_stops_at_the_maximum() {
    let mut h = Health::new(100_000);
    h.apply(-10_000);
    let v = h.apply(30_000);
    assert_eq!(h.current, 100_000);
    assert_eq!(v, Verdict { dead: false, flash: false });
}

#[test]
fn agent_dies_below_zero_not_at_zero() {
    let mut h = Health::new(100_000);
    let v = h.apply(-100_000);
    assert_eq!(h.current, 0);
    assert!(!v.dead);
    let w = h.apply(-1);
    assert_eq!(h.current, -1);
    assert!(w.dead);
    assert!(w.flash);
}

#[test]
fn health_does_not_overflow() {
    let mut h = Health { current: i64::MIN + 5, max: 10 };
    let v = h.apply(i64::MIN);
    assert_eq!(h.current, i64::MIN);
    assert!(v.dead);
    let mut g = Health { current: i64::MAX, max: i64::MAX };
    g.apply(i64::MAX);
    assert_eq!(g.current, i64::MAX);
}

#[test]
fn percentage_of_an_empty_maximum_is_zero() {
    assert_eq!(Health { current: 5, max: 0 }.percentage(), 0);
    assert_eq!(Health { current: 1, max: 3 }.percentage(), 333);
    assert_eq!(Health { current: -1, max: 3 }.percentage(), -334);
    assert_eq!(Health { current: -1, max: -3 }.percentage(), 333);
}

#[test]
fn flash_fades_by_five_per_second() {
    let mut f = DamageFlash::new();
    assert_eq!(f.amount, 0);
    let one = TimeScale(1_000);
    assert!(!f.update(100_000_000, &one));
    assert_eq!(f.amount, 500);
    assert!(f.update(100_000_000, &one));
    assert_eq!(f.amount, 1_000);
    let mut g = DamageFlash::new();
    assert!(!g.update(100_000_000, &TimeScale(10)));
    assert_eq!(g.amount, 5);
    assert!(g.update(u64::MAX, &one));
    assert_eq!(g.amount, 1_000);
}
