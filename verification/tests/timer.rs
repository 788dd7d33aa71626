use somble::timer::Timer;

#[test]
fn new_timer_has_not_started() {
    let t = Timer::new(1_000, false);
    assert_eq!(t.elapsed, 0);
    assert_eq!(t.duration, 1_000);
    assert!(!t.repeating);
    assert!(!t.finished());
    assert!(!t.just_finished());
    assert!(!t.paused());
}

#[test]
fn one_shot_timer_stops_at_its_duration() {
    let mut t = Timer::new(10_000, false);
    t.tick(250);
    assert_eq!(t.elapsed, 250);
    assert!(!t.finished());
    assert_eq!(t.times_finished, 0);
    t.pause();
    t.tick(500_000);
    assert_eq!(t.elapsed, 250);
    assert!(!t.finished());
    t.unpause();
    t.tick(500_000);
    assert_eq!(t.elapsed, 10_000);
    assert!(t.finished());
    assert!(t.just_finished());
    assert_eq!(t.times_finished, 1);
    t.tick(1_000);
    assert_eq!(t.elapsed, 10_000);
    assert!(t.finished());
    assert!(!t.just_finished());
}

#[test]
fn repeating_timer_wraps() {
    let mut t = Timer::new(2_000, true);
    t.tick(750);
    assert_eq!(t.elapsed, 750);
    assert!(!t.finished());
    t.tick(1_500);
    assert_eq!(t.elapsed, 250);
    assert!(t.finished());
    assert!(t.just_finished());
    assert_eq!(t.times_finished, 1);
    t.tick(1_000);
    assert_eq!(t.elapsed, 1_250);
    assert!(!t.finished());
    assert!(!t.just_finished());
}

#[test]
fn repeating_timer_counts_periods() {
    let mut t = Timer::new(1_000, true);
    t.tick(3_500);
    assert_eq!(t.times_finished, 3);
    assert_eq!(t.elapsed, 500);
    assert!(t.finished());
    t.tick(200);
    assert_eq!(t.times_finished, 0);
    let mut u = Timer::new(1, true);
    u.tick(u64::MAX);
    assert_eq!(u.times_finished, u32::MAX);
    assert_eq!(u.elapsed, 0);
}

#[test]
fn paused_repeating_timer_is_not_finished() {
    let mut t = Timer::new(1_000, true);
    t.tick(1_000);
    assert!(t.finished());
    t.pause();
    t.tick(1);
    assert!(!t.finished());
    assert_eq!(t.times_finished, 0);
    assert_eq!(t.elapsed, 0);
}

#[test]
fn zero_duration_timers_finish_on_the_first_tick() {
    let mut t = Timer::new(0, false);
    assert!(!t.finished());
    t.tick(0);
    assert!(t.finished());
    let mut r = Timer::new(0, true);
    r.tick(5);
    assert!(r.finished());
    assert_eq!(r.times_finished, 1);
    assert_eq!(r.elapsed, 0);
}

#[test]
fn reset_starts_over_and_keeps_the_duration() {
    let mut t = Timer::new(700, false);
    t.tick(700);
    assert!(t.finished());
    t.reset();
    assert!(!t.finished());
    assert_eq!(t.elapsed, 0);
    assert_eq!(t.duration, 700);
    t.set_duration(900);
    assert_eq!(t.duration, 900);
    t.tick(800);
    assert!(!t.finished());
    t.tick(100);
    assert!(t.finished());
}

#[test]
fn tick_does_not_overflow() {
    let mut t = Timer::new(u64::MAX, false);
    t.tick(u64::MAX - 1);
    assert!(!t.finished());
    t.tick(u64::MAX);
    assert!(t.finished());
    assert_eq!(t.elapsed, u64::MAX);
    let mut r = Timer::new(u64::MAX, true);
    r.tick(u64::MAX - 1);
    r.tick(u64::MAX);
    assert!(r.finished());
    assert_eq!(r.elapsed, u64::MAX - 1);
    assert_eq!(r.times_finished, 1);
}
