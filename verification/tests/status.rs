use somble::geometry::Vector;
use somble::health::HealthChange;
use somble::status::tick_blinded;
use somble::status::tick_delayed_explosion;
use somble::status::tick_on_fire;
use somble::status::tick_shocked;
use somble::status::tick_slowed;
use somble::status::Blast;
use somble::status::Blinded;
use somble::status::Conditions;
use somble::status::DelayedExplosion;
use somble::status::Effect;
use somble::status::OnFire;
use somble::status::Shocked;
use somble::status::Slowed;
use somble::timer::Timer;
use somble::utils::TimeScale;

const ONE: TimeScale = TimeScale(1_000);

fn with(effect: Effect) -> Conditions {
    let mut c = Conditions::new();
    let mut pending = Some(effect);
    assert_eq!(c.insert_effect(&mut pending), Some(effect));
    assert_eq!(pending, None);
    c
}

#[test]
fn conditions_start_with_five_seconds_and_half_second_periods() {
    let duration = Timer::new(5_000_000_000, false);
    let tick = Timer::new(500_000_000, true);
    assert_eq!(OnFire::new(), OnFire { duration, tick });
    assert_eq!(Shocked::new(), Shocked { duration, tick });
    assert_eq!(DelayedExplosion::new(), DelayedExplosion { duration });
    assert_eq!(Blinded::new(), Blinded { duration });
    assert_eq!(Slowed::new(), Slowed { duration });
}

#[test]
fn burning_for_five_seconds_damages_ten_times() {
    for step in [100_000_000u64, 500_000_000, 250_000_000, 50_000_000] {
        let mut c = with(Effect::OnFire);
        let mut burns = 0;
        let mut ticks = 0u64;
        while c.on_fire.is_some() {
            let out = c.tick(7, step, &ONE, false);
            if let Some(change) = out.burn {
                assert_eq!(change, HealthChange { target: 7, amount: -10_000 });
                burns += 1;
            }
            ticks += 1;
            assert_eq!(out.on_fire_ended, c.on_fire.is_none());
            assert!(ticks <= 1_000);
        }
        assert_eq!(burns, 10);
        assert_eq!(ticks * step, 5_000_000_000);
        // Once gone, nothing more happens.
        let after = c.tick(7, step, &ONE, false);
        assert_eq!(after.burn, None);
        assert!(!after.on_fire_ended);
    }
}

#[test]
fn burning_slows_down_with_the_time_scale() {
    let mut c = with(Effect::OnFire);
    // At a hundredth of the speed, 49 seconds of real time are not half
    // a second of game time.
    for _ in 0..49 {
        let out = c.tick(1, 1_000_000_000, &TimeScale(10), false);
        assert_eq!(out.burn, None);
    }
    let out = c.tick(1, 1_000_000_000, &TimeScale(10), false);
    assert!(out.burn.is_some());
}

#[test]
fn shocked_agent_discharges_every_half_second() {
    let mut c = with(Effect::Shocked);
    let mut sparks = 0;
    for i in 1..=50 {
        let out = c.tick(3, 100_000_000, &ONE, false);
        if let Some(blast) = out.discharge {
            assert_eq!(blast, Blast { radius: 24_000, amount: 10_000, lifetime: 50_000_000 });
            assert_eq!(i % 5, 0);
            sparks += 1;
        }
        assert_eq!(out.shocked_ended, i == 50);
    }
    assert_eq!(sparks, 10);
    assert!(c.shocked.is_none());
}

#[test]
fn delayed_explosion_goes_off_when_its_time_is_up() {
    let mut c = with(Effect::DelayedExplosion);
    for _ in 0..4 {
        let out = c.tick(3, 1_000_000_000, &ONE, false);
        assert_eq!(out.explosion, None);
        assert!(!out.delayed_explosion_ended);
    }
    let out = c.tick(3, 1_000_000_000, &ONE, false);
    assert_eq!(out.explosion, Some(Blast { radius: 24_000, amount: 60_000, lifetime: 50_000_000 }));
    assert!(out.delayed_explosion_ended);
    assert!(c.delayed_explosion.is_none());
    assert_eq!(c.tick(3, 1_000_000_000, &ONE, true).explosion, None);
}

#[test]
fn delayed_explosion_goes_off_early_when_the_agent_dies() {
    let mut c = with(Effect::DelayedExplosion);
    assert_eq!(c.tick(3, 1_000_000, &ONE, false).explosion, None);
    let out = c.tick(3, 1_000_000, &ONE, true);
    assert_eq!(out.explosion.unwrap().amount, 60_000);
    assert!(out.delayed_explosion_ended);
    assert!(c.delayed_explosion.is_none());
}

#[test]
fn death_does_not_end_the_other_conditions() {
    let mut c = with(Effect::Blinded);
    let mut pending = Some(Effect::Slowed);
    c.insert_effect(&mut pending);
    let out = c.tick(3, 1_000_000, &ONE, true);
    assert!(c.is_blinded());
    assert!(c.is_slowed());
    assert!(!out.blinded_ended && !out.slowed_ended);
    assert_eq!(out.explosion, None);
}

#[test]
fn blindness_and_slowness_wear_off_after_five_seconds() {
    let mut c = with(Effect::Blinded);
    assert!(c.is_blinded());
    assert!(!c.is_slowed());
    let mut pending = Some(Effect::Slowed);
    c.tick(1, 2_000_000_000, &ONE, false);
    assert_eq!(c.insert_effect(&mut pending), Some(Effect::Slowed));
    let out = c.tick(1, 2_999_999_999, &ONE, false);
    assert!(!out.blinded_ended);
    let out = c.tick(1, 1, &ONE, false);
    assert!(out.blinded_ended);
    assert!(!out.slowed_ended);
    assert!(!c.is_blinded());
    assert!(c.is_slowed());
    let out = c.tick(1, 2_000_000_000, &ONE, false);
    assert!(out.slowed_ended);
    assert!(!c.is_slowed());
}

#[test]
fn applying_an_active_condition_starts_it_over_without_stacking() {
    let mut c = with(Effect::OnFire);
    c.tick(1, 4_900_000_000, &ONE, false);
    assert!(c.on_fire.is_some());
    let mut pending = Some(Effect::OnFire);
    // Already active: no new visual.
    assert_eq!(c.insert_effect(&mut pending), None);
    assert_eq!(pending, None);
    assert_eq!(c.on_fire, Some(OnFire::new()));
    let out = c.tick(1, 4_900_000_000, &ONE, false);
    assert!(!out.on_fire_ended);
    assert!(c.on_fire.is_some());
    assert!(c.shocked.is_none() && c.blinded.is_none() && c.slowed.is_none());
}

#[test]
fn nothing_pending_changes_nothing() {
    let mut c = with(Effect::Slowed);
    let before = c;
    let mut pending = None;
    assert_eq!(c.insert_effect(&mut pending), None);
    assert_eq!(c, before);
}

#[test]
fn blast_is_a_one_shot_damage() {
    let blast = Blast { radius: 24_000, amount: 60_000, lifetime: 50_000_000 };
    let mut h = blast.hazard();
    let o = Vector { x: 0, y: 0 };
    let hit = h.begin_contact(4, &o, &Vector { x: 20_000, y: 0 });
    assert_eq!(hit.damage, Some(HealthChange { target: 4, amount: -60_000 }));
    assert_eq!(h.begin_contact(4, &o, &o).damage, None);
    assert_eq!(hit.hitstun, None);
    assert_eq!(hit.status, None);
}

#[test]
fn single_conditions_tick_by_themselves() {
    let mut fire = Some(OnFire::new());
    assert_eq!(tick_on_fire(&mut fire, 9, 499_999_999), (None, false));
    assert_eq!(
        tick_on_fire(&mut fire, 9, 1),
        (Some(HealthChange { target: 9, amount: -10_000 }), false)
    );
    assert_eq!(
        tick_on_fire(&mut fire, 9, 4_500_000_000),
        (Some(HealthChange { target: 9, amount: -10_000 }), true)
    );
    assert_eq!(fire, None);
    assert_eq!(tick_on_fire(&mut fire, 9, 1), (None, false));

    let mut shock = Some(Shocked::new());
    let (spark, ended) = tick_shocked(&mut shock, 500_000_000);
    assert_eq!(spark.unwrap().amount, 10_000);
    assert!(!ended);

    let mut bomb = Some(DelayedExplosion::new());
    assert_eq!(tick_delayed_explosion(&mut bomb, 1, false), None);
    assert!(tick_delayed_explosion(&mut bomb, 1, true).is_some());
    assert_eq!(bomb, None);
    assert_eq!(tick_delayed_explosion(&mut bomb, 1, true), None);

    let mut blind = Some(Blinded::new());
    assert!(!tick_blinded(&mut blind, 4_999_999_999));
    assert!(tick_blinded(&mut blind, 1));
    assert_eq!(blind, None);
    assert!(!tick_blinded(&mut blind, 1));

    let mut slow = Some(Slowed::new());
    assert!(tick_slowed(&mut slow, 5_000_000_000));
    assert_eq!(slow, None);
}

#[test]
fn each_condition_has_its_visual() {
    let v = somble::status::attach_visuals(Effect::OnFire);
    assert_eq!((v.sheet, v.tile, v.frames, v.period), ("on_fire.png", 16, 5, 100_000_000));
    let v = somble::status::attach_visuals(Effect::Shocked);
    assert_eq!((v.sheet, v.tile, v.frames, v.period), ("shocked.png", 32, 5, 100_000_000));
    let v = somble::status::attach_visuals(Effect::DelayedExplosion);
    assert_eq!((v.sheet, v.tile, v.frames, v.period), ("fire_lightning.png", 16, 2, 100_000_000));
    let v = somble::status::attach_visuals(Effect::Blinded);
    assert_eq!((v.sheet, v.tile, v.frames, v.period), ("blinded.png", 16, 5, 100_000_000));
    let v = somble::status::attach_visuals(Effect::Slowed);
    assert_eq!((v.sheet, v.tile, v.frames, v.period), ("slowed.png", 16, 4, 100_000_000));
}
