use somble::falloff::Falloff;
use somble::geometry::Vector;
use somble::health::HealthChange;
use somble::hitbox::DamageOnce;
use somble::hitbox::DamagePeriodic;
use somble::hitbox::DirectedForce;
use somble::hitbox::DirectedImpulse;
use somble::hitbox::Hazard;
use somble::hitbox::Hitstun;
use somble::hitbox::ImpulseRequest;
use somble::hitbox::Push;
use somble::hitbox::RadialForce;
use somble::hitbox::RadialImpulse;
use somble::hitbox::StatusEffect;
use somble::status::Effect;

fn origin() -> Vector {
    Vector { x: 0, y: 0 }
}

#[test]
fn empty_hazard_does_nothing() {
    let mut h = Hazard::empty();
    let impact = h.begin_contact(7, &origin(), &Vector { x: 10_000, y: 0 });
    assert_eq!(impact.hitstun, None);
    assert_eq!(impact.radial_impulse, None);
    assert_eq!(impact.directed_impulse, None);
    assert_eq!(impact.damage, None);
    assert_eq!(impact.status, None);
    h.end_contact(7);
    assert!(h.damage_once.is_none());
}

#[test]
fn damage_once_fires_once_while_the_overlap_lasts() {
    let mut h = Hazard::empty();
    h.damage_once = Some(DamageOnce::new(25_000, Falloff::none()));
    let position = Vector { x: 10_000, y: 0 };
    let first = h.begin_contact(7, &origin(), &position);
    assert_eq!(first.damage, Some(HealthChange { target: 7, amount: -25_000 }));
    // Further starts before any stop: nothing more.
    for _ in 0..5 {
        let again = h.begin_contact(7, &origin(), &position);
        assert_eq!(again.damage, None);
    }
    assert!(h.damage_once.as_ref().unwrap().has_hit(7));
}

#[test]
fn damage_once_does_not_fire_again_after_a_stop() {
    let mut h = Hazard::empty();
    h.damage_once = Some(DamageOnce::new(25_000, Falloff::none()));
    let position = Vector { x: 10_000, y: 0 };
    assert!(h.begin_contact(7, &origin(), &position).damage.is_some());
    h.end_contact(7);
    assert!(h.damage_once.as_ref().unwrap().has_hit(7));
    assert_eq!(h.begin_contact(7, &origin(), &position).damage, None);
    // Another target is still owed its damage.
    assert!(!h.damage_once.as_ref().unwrap().has_hit(8));
    assert_eq!(
        h.begin_contact(8, &origin(), &position).damage,
        Some(HealthChange { target: 8, amount: -25_000 })
    );
    assert_eq!(h.begin_contact(8, &origin(), &position).damage, None);
}

#[test]
fn damage_once_weakens_with_distance() {
    let mut h = Hazard::empty();
    h.damage_once = Some(DamageOnce::new(250_000, Falloff::new(500, 0, 2_000)));
    let near = h.begin_contact(1, &origin(), &Vector { x: 0, y: 0 });
    assert_eq!(near.damage, Some(HealthChange { target: 1, amount: -250_000 }));
    let mid = h.begin_contact(2, &origin(), &Vector { x: 0, y: 1_000 });
    assert_eq!(mid.damage, Some(HealthChange { target: 2, amount: -187_500 }));
    let far = h.begin_contact(3, &origin(), &Vector { x: 3_000, y: 4_000 });
    assert_eq!(far.damage, Some(HealthChange { target: 3, amount: -125_000 }));
}

#[test]
fn one_shot_primitives_all_act_on_a_start() {
    let mut h = Hazard::empty();
    h.hitstun = Some(Hitstun(500_000_000));
    h.radial_impulse = Some(RadialImpulse::new(25_000, Falloff::none()));
    h.directed_impulse = Some(DirectedImpulse(Vector { x: 1_000, y: -2_000 }));
    h.status = Some(StatusEffect(Effect::Blinded));
    let hazard_at = Vector { x: 5_000, y: 5_000 };
    let target_at = Vector { x: 8_000, y: 1_000 };
    let impact = h.begin_contact(42, &hazard_at, &target_at);
    assert_eq!(impact.hitstun, Some(500_000_000));
    assert_eq!(
        impact.radial_impulse,
        Some(ImpulseRequest {
            target: 42,
            push: Push::Radial { offset: Vector { x: 3_000, y: -4_000 }, magnitude: 25_000 },
        })
    );
    assert_eq!(
        impact.directed_impulse,
        Some(ImpulseRequest {
            target: 42,
            push: Push::Directed { impulse: Vector { x: 1_000, y: -2_000 } },
        })
    );
    assert_eq!(impact.status, Some(Effect::Blinded));
    assert_eq!(impact.damage, None);
}

#[test]
fn radial_impulse_weakens_with_distance() {
    let mut h = Hazard::empty();
    h.radial_impulse = Some(RadialImpulse::new(-10_000, Falloff::new(0, 0, 10_000)));
    let impact = h.begin_contact(1, &origin(), &Vector { x: 0, y: 7_500 });
    assert_eq!(
        impact.radial_impulse,
        Some(ImpulseRequest {
            target: 1,
            push: Push::Radial { offset: Vector { x: 0, y: 7_500 }, magnitude: -2_500 },
        })
    );
}

#[test]
fn continuous_primitives_enrol_on_start_and_withdraw_on_stop() {
    let mut h = Hazard::empty();
    h.radial_force = Some(RadialForce::new(5_000, Falloff::none()));
    h.directed_force = Some(DirectedForce::new(Vector { x: 1, y: 2 }));
    h.damage_periodic = Some(DamagePeriodic::new(5_000, Falloff::none(), 100_000_000));
    assert!(!h.radial_force.as_ref().unwrap().holds(3));
    let impact = h.begin_contact(3, &origin(), &origin());
    assert_eq!(impact.radial_impulse, None);
    assert_eq!(impact.damage, None);
    assert!(h.radial_force.as_ref().unwrap().holds(3));
    assert!(h.directed_force.as_ref().unwrap().holds(3));
    assert!(h.damage_periodic.as_ref().unwrap().holds(3));
    assert!(!h.radial_force.as_ref().unwrap().holds(4));
    h.begin_contact(4, &origin(), &origin());
    h.end_contact(3);
    assert!(!h.radial_force.as_ref().unwrap().holds(3));
    assert!(!h.directed_force.as_ref().unwrap().holds(3));
    assert!(!h.damage_periodic.as_ref().unwrap().holds(3));
    assert!(h.radial_force.as_ref().unwrap().holds(4));
    assert!(h.directed_force.as_ref().unwrap().holds(4));
    assert!(h.damage_periodic.as_ref().unwrap().holds(4));
    // Stopping a contact that never started changes nothing.
    h.end_contact(99);
    assert!(h.radial_force.as_ref().unwrap().holds(4));
}

#[test]
fn primitive_getters_return_what_was_given() {
    let f = Falloff::new(500, 5_000, 32_000);
    let rf = RadialForce::new(-5_000, f);
    assert_eq!(rf.force(), -5_000);
    assert_eq!(rf.falloff(), f);
    let df = DirectedForce::new(Vector { x: 3, y: 4 });
    assert_eq!(df.force(), Vector { x: 3, y: 4 });
    let mut dp = DamagePeriodic::new(7_000, f, 250_000_000);
    assert_eq!(dp.amount(), 7_000);
    assert_eq!(dp.falloff(), f);
    assert!(!dp.period_finished());
    dp.tick_period(250_000_000);
    assert!(dp.period_finished());
    dp.tick_period(1);
    assert!(!dp.period_finished());
}
