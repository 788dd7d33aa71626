use somble::falloff::Falloff;
use somble::geometry::Vector;
use somble::health::HealthChange;
use somble::hitbox::DamageOnce;
use somble::hitbox::DamagePeriodic;
use somble::hitbox::DirectedForce;
use somble::hitbox::DirectedImpulse;
use somble::hitbox::Hazard;
use somble::hitbox::Hitstun;
use somble::hitbox::ImpulseRequest;
use somble::hitbox::Push;
use somble::hitbox::RadialForce;
use somble::hitbox::RadialImpulse;
use somble::hitbox::StatusEffect;
use somble::hitstun::HitstunTimer;
use somble::resolver::find_hazard;
use somble::resolver::find_pair;
use somble::resolver::find_target;
use somble::resolver::handle_hits;
use somble::resolver::update_continuous_boxes;
use somble::resolver::CollisionEvent;
use somble::resolver::Emissions;
use somble::resolver::Placed;
use somble::resolver::Target;
use somble::status::Effect;
use somble::timer::Timer;
use somble::utils::TimeScale;

fn target(id: u64, x: i64, y: i64) -> Target {
    Target {
        id,
        position: Vector { x, y },
        hitstun: HitstunTimer(Timer::new(0, false)),
        pending: None,
    }
}

fn placed(id: u64, hazard: Hazard) -> Placed {
    Placed { id, origin: Vector { x: 0, y: 0 }, hazard }
}

fn nothing() -> Emissions {
    let out = Emissions::new();
    assert!(out.impulses.is_empty() && out.health.is_empty());
    out
}

fn once(amount: i64) -> Hazard {
    let mut h = Hazard::empty();
    h.damage_once = Some(DamageOnce::new(amount, Falloff::none()));
    h
}

#[test]
fn overlap_of_many_ticks_damages_once() {
    // One hazard with a one-shot damage of 25 and no falloff, one target
    // ten units away. The overlap lasts several ticks before it stops.
    let mut targets = vec![target(1, 10_000, 0)];
    let mut hazards = vec![placed(100, once(25_000))];
    let mut out = nothing();
    let one = TimeScale(1_000);
    update_continuous_boxes(&mut hazards, &targets, 16_000_000, &one, &mut out);
    handle_hits(&vec![CollisionEvent::Started(1, 100)], &mut targets, &mut hazards, &mut out);
    for _ in 0..20 {
        update_continuous_boxes(&mut hazards, &targets, 16_000_000, &one, &mut out);
        handle_hits(&Vec::new(), &mut targets, &mut hazards, &mut out);
    }
    handle_hits(&vec![CollisionEvent::Stopped(100, 1)], &mut targets, &mut hazards, &mut out);
    assert_eq!(out.health, vec![HealthChange { target: 1, amount: -25_000 }]);
    assert!(out.impulses.is_empty());
}

#[test]
fn repeated_starts_before_a_stop_damage_once() {
    let mut targets = vec![target(1, 10_000, 0)];
    let mut hazards = vec![placed(100, once(25_000))];
    let mut out = nothing();
    let events = vec![
        CollisionEvent::Started(1, 100),
        CollisionEvent::Started(100, 1),
        CollisionEvent::Started(1, 100),
        CollisionEvent::Stopped(1, 100),
        CollisionEvent::Started(1, 100),
    ];
    handle_hits(&events, &mut targets, &mut hazards, &mut out);
    assert_eq!(out.health, vec![HealthChange { target: 1, amount: -25_000 }]);
}

#[test]
fn each_pair_of_hazard_and_target_is_damaged_once() {
    let mut targets = vec![target(1, 0, 0), target(2, 0, 0)];
    let mut hazards = vec![placed(100, once(25_000)), placed(101, once(7_000))];
    let mut out = nothing();
    let events = vec![
        CollisionEvent::Started(1, 100),
        CollisionEvent::Started(2, 100),
        CollisionEvent::Started(101, 1),
        CollisionEvent::Started(1, 100),
        CollisionEvent::Started(101, 2),
        CollisionEvent::Started(2, 101),
    ];
    handle_hits(&events, &mut targets, &mut hazards, &mut out);
    assert_eq!(
        out.health,
        vec![
            HealthChange { target: 1, amount: -25_000 },
            HealthChange { target: 2, amount: -25_000 },
            HealthChange { target: 1, amount: -7_000 },
            HealthChange { target: 2, amount: -7_000 },
        ]
    );
}

#[test]
fn events_between_other_entities_are_ignored() {
    let mut targets = vec![target(1, 0, 0), target(2, 0, 0)];
    let mut hazards = vec![placed(100, once(25_000)), placed(101, once(25_000))];
    let mut out = nothing();
    let events = vec![
        CollisionEvent::Started(1, 2),
        CollisionEvent::Started(100, 101),
        CollisionEvent::Started(5, 100),
        CollisionEvent::Started(1, 6),
        CollisionEvent::Started(8, 9),
        CollisionEvent::Stopped(1, 2),
        CollisionEvent::Stopped(8, 100),
    ];
    handle_hits(&events, &mut targets, &mut hazards, &mut out);
    assert!(out.health.is_empty());
    assert!(out.impulses.is_empty());
    assert!(!hazards[0].hazard.damage_once.as_ref().unwrap().has_hit(1));
}

#[test]
fn start_applies_hitstun_impulses_and_status_to_the_target() {
    let mut h = Hazard::empty();
    h.hitstun = Some(Hitstun(500_000_000));
    h.radial_impulse = Some(RadialImpulse::new(25_000, Falloff::none()));
    h.directed_impulse = Some(DirectedImpulse(Vector { x: 9, y: 9 }));
    h.status = Some(StatusEffect(Effect::OnFire));
    let mut targets = vec![target(1, 0, 0), target(2, 3_000, 4_000)];
    targets[1].hitstun.0.tick(1);
    assert!(targets[1].hitstun.0.finished());
    let mut hazards = vec![placed(100, h)];
    let mut out = nothing();
    handle_hits(&vec![CollisionEvent::Started(100, 2)], &mut targets, &mut hazards, &mut out);
    assert_eq!(targets[1].hitstun.0.duration, 500_000_000);
    assert_eq!(targets[1].hitstun.0.elapsed, 0);
    assert!(!targets[1].hitstun.0.finished());
    assert_eq!(targets[1].pending, Some(Effect::OnFire));
    assert_eq!(targets[0], target(1, 0, 0));
    assert_eq!(
        out.impulses,
        vec![
            ImpulseRequest {
                target: 2,
                push: Push::Radial { offset: Vector { x: 3_000, y: 4_000 }, magnitude: 25_000 },
            },
            ImpulseRequest { target: 2, push: Push::Directed { impulse: Vector { x: 9, y: 9 } } },
        ]
    );
    assert!(out.health.is_empty());
}

#[test]
fn radial_force_pushes_on_every_tick_from_the_current_distance() {
    // A radial force holds one target for three ticks while it moves.
    let mut h = Hazard::empty();
    h.radial_force = Some(RadialForce::new(10_000, Falloff::new(0, 0, 10_000)));
    let mut targets = vec![target(1, 2_000, 0)];
    let mut hazards = vec![placed(100, h)];
    let mut out = nothing();
    let one = TimeScale(1_000);
    handle_hits(&vec![CollisionEvent::Started(1, 100)], &mut targets, &mut hazards, &mut out);
    assert!(out.impulses.is_empty());
    update_continuous_boxes(&mut hazards, &targets, 16_000_000, &one, &mut out);
    targets[0].position = Vector { x: 5_000, y: 0 };
    update_continuous_boxes(&mut hazards, &targets, 16_000_000, &one, &mut out);
    targets[0].position = Vector { x: 0, y: -8_000 };
    update_continuous_boxes(&mut hazards, &targets, 16_000_000, &one, &mut out);
    assert_eq!(
        out.impulses,
        vec![
            ImpulseRequest {
                target: 1,
                push: Push::Radial { offset: Vector { x: 2_000, y: 0 }, magnitude: 8_000 },
            },
            ImpulseRequest {
                target: 1,
                push: Push::Radial { offset: Vector { x: 5_000, y: 0 }, magnitude: 5_000 },
            },
            ImpulseRequest {
                target: 1,
                push: Push::Radial { offset: Vector { x: 0, y: -8_000 }, magnitude: 2_000 },
            },
        ]
    );
}

#[test]
fn continuous_primitives_leave_a_target_alone_after_the_stop() {
    let mut h = Hazard::empty();
    h.directed_force = Some(DirectedForce::new(Vector { x: 15_000, y: 0 }));
    let mut targets = vec![target(1, 0, 0), target(2, 0, 0)];
    let mut hazards = vec![placed(100, h)];
    let mut out = nothing();
    let one = TimeScale(1_000);
    handle_hits(
        &vec![CollisionEvent::Started(1, 100), CollisionEvent::Started(2, 100)],
        &mut targets,
        &mut hazards,
        &mut out,
    );
    update_continuous_boxes(&mut hazards, &targets, 16_000_000, &one, &mut out);
    assert_eq!(out.impulses.len(), 2);
    // The stop arrives in the event step of this tick: the next tick's
    // continuous step no longer acts on the target.
    handle_hits(&vec![CollisionEvent::Stopped(1, 100)], &mut targets, &mut hazards, &mut out);
    update_continuous_boxes(&mut hazards, &targets, 16_000_000, &one, &mut out);
    assert_eq!(out.impulses.len(), 3);
    assert_eq!(
        out.impulses[2],
        ImpulseRequest { target: 2, push: Push::Directed { impulse: Vector { x: 15_000, y: 0 } } }
    );
}

#[test]
fn periodic_damage_fires_when_its_period_ends() {
    let mut h = Hazard::empty();
    h.damage_periodic = Some(DamagePeriodic::new(5_000, Falloff::new(0, 0, 10_000), 100_000_000));
    let mut targets = vec![target(1, 5_000, 0), target(2, 0, 0)];
    let mut hazards = vec![placed(100, h)];
    let mut out = nothing();
    let one = TimeScale(1_000);
    handle_hits(&vec![CollisionEvent::Started(1, 100)], &mut targets, &mut hazards, &mut out);
    // Three ticks of 40 ms: the period of 100 ms ends during the third.
    update_continuous_boxes(&mut hazards, &targets, 40_000_000, &one, &mut out);
    update_continuous_boxes(&mut hazards, &targets, 40_000_000, &one, &mut out);
    assert!(out.health.is_empty());
    targets[0].position = Vector { x: 2_500, y: 0 };
    update_continuous_boxes(&mut hazards, &targets, 40_000_000, &one, &mut out);
    assert_eq!(out.health, vec![HealthChange { target: 1, amount: -3_750 }]);
    update_continuous_boxes(&mut hazards, &targets, 40_000_000, &one, &mut out);
    assert_eq!(out.health.len(), 1);
    // At a hundredth of the speed nothing fires for a long while.
    update_continuous_boxes(&mut hazards, &targets, 40_000_000, &TimeScale(10), &mut out);
    assert_eq!(out.health.len(), 1);
    update_continuous_boxes(&mut hazards, &targets, 40_000_000, &one, &mut out);
    assert_eq!(out.health.len(), 2);
}

#[test]
fn hazards_act_in_order_on_targets_in_order() {
    let mut a = Hazard::empty();
    a.directed_force = Some(DirectedForce::new(Vector { x: 1, y: 0 }));
    let mut b = Hazard::empty();
    b.directed_force = Some(DirectedForce::new(Vector { x: 2, y: 0 }));
    b.radial_force = Some(RadialForce::new(1_000, Falloff::none()));
    let mut targets = vec![target(1, 0, 0), target(2, 1, 1), target(3, 2, 2)];
    let mut hazards = vec![placed(100, a), placed(101, b)];
    let mut out = nothing();
    let events = vec![
        CollisionEvent::Started(3, 100),
        CollisionEvent::Started(1, 100),
        CollisionEvent::Started(101, 2),
    ];
    handle_hits(&events, &mut targets, &mut hazards, &mut out);
    update_continuous_boxes(&mut hazards, &targets, 1, &TimeScale(1_000), &mut out);
    assert_eq!(
        out.impulses,
        vec![
            ImpulseRequest { target: 1, push: Push::Directed { impulse: Vector { x: 1, y: 0 } } },
            ImpulseRequest { target: 3, push: Push::Directed { impulse: Vector { x: 1, y: 0 } } },
            ImpulseRequest {
                target: 2,
                push: Push::Radial { offset: Vector { x: 1, y: 1 }, magnitude: 1_000 },
            },
            ImpulseRequest { target: 2, push: Push::Directed { impulse: Vector { x: 2, y: 0 } } },
        ]
    );
}

#[test]
fn lookups_find_the_first_match() {
    let targets = vec![target(5, 0, 0), target(6, 0, 0), target(5, 1, 1)];
    assert_eq!(find_target(&targets, 5), Some(0));
    assert_eq!(find_target(&targets, 6), Some(1));
    assert_eq!(find_target(&targets, 7), None);
    let hazards = vec![placed(9, Hazard::empty()), placed(6, Hazard::empty())];
    assert_eq!(find_hazard(&hazards, 6), Some(1));
    assert_eq!(find_hazard(&hazards, 5), None);
    assert_eq!(find_pair(&targets, &hazards, 5, 9), Some((0, 0)));
    assert_eq!(find_pair(&targets, &hazards, 9, 5), Some((0, 0)));
    // The first entity is a target, so the second must be the hazard.
    assert_eq!(find_pair(&targets, &hazards, 6, 6), Some((1, 1)));
    assert_eq!(find_pair(&targets, &hazards, 5, 6), Some((0, 1)));
    assert_eq!(find_pair(&targets, &hazards, 6, 5), None);
    assert_eq!(find_pair(&targets, &hazards, 9, 9), None);
}

#[test]
fn a_tick_acts_on_members_before_it_drains_the_events() {
    let mut h = Hazard::empty();
    h.directed_force = Some(DirectedForce::new(Vector { x: 7, y: 0 }));
    let mut targets = vec![target(1, 0, 0), target(2, 0, 0)];
    let mut hazards = vec![placed(100, h)];
    let mut out = nothing();
    let one = TimeScale(1_000);
    // The contact starts in the first tick: nothing is pushed yet.
    let start = vec![CollisionEvent::Started(1, 100)];
    somble::resolver::resolve_tick(&start, &mut targets, &mut hazards, 1, &one, &mut out);
    assert!(out.impulses.is_empty());
    // It stops in the second tick, and another starts: the first target is
    // pushed one last time, the second not yet.
    let swap = vec![CollisionEvent::Stopped(1, 100), CollisionEvent::Started(2, 100)];
    somble::resolver::resolve_tick(&swap, &mut targets, &mut hazards, 1, &one, &mut out);
    assert_eq!(
        out.impulses,
        vec![ImpulseRequest { target: 1, push: Push::Directed { impulse: Vector { x: 7, y: 0 } } }]
    );
    somble::resolver::resolve_tick(&Vec::new(), &mut targets, &mut hazards, 1, &one, &mut out);
    assert_eq!(out.impulses.len(), 2);
    assert_eq!(out.impulses[1].target, 2);
}
