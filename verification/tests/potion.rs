use somble::essence::EssenceCounts;
use somble::falloff::Falloff;
use somble::geometry::Vector;
use somble::hitbox::ImpulseRequest;
use somble::hitbox::Push;
use somble::potion::brew;
use somble::potion::dispatch;
use somble::potion::earth_earth;
use somble::potion::fire_earth;
use somble::potion::fire_fire;
use somble::potion::fire_lightning;
use somble::potion::fire_water;
use somble::potion::fire_wind;
use somble::potion::find_potion;
use somble::potion::init_throw;
use somble::potion::lightning_earth;
use somble::potion::lightning_lightning;
use somble::potion::manage_brew_state;
use somble::potion::potion_effect;
use somble::potion::potion_explode;
use somble::potion::throw_potion;
use somble::potion::update_brew;
use somble::potion::water_earth;
use somble::potion::water_lightning;
use somble::potion::water_water;
use somble::potion::water_wind;
use somble::potion::wind_earth;
use somble::potion::wind_lightning;
use somble::potion::wind_wind;
use somble::potion::Attenuated;
use somble::potion::Motion;
use somble::potion::Pointer;
use somble::potion::Potion;
use somble::potion::PotionBrewData;
use somble::potion::PotionBrewState;
use somble::potion::PotionExplode;
use somble::potion::PotionType;
use somble::potion::Pulsed;
use somble::potion::Recipe;
use somble::potion::Shape;
use somble::potion::ThrowPotion;
use somble::resolver::CollisionEvent;
use somble::status::Effect;
use somble::utils::TimeScale;
use somble::Element;

const ELEMENTS: [Element; 5] =
    [Element::Fire, Element::Water, Element::Wind, Element::Lightning, Element::Earth];

#[test]
fn dispatch_ignores_the_order_of_the_elements() {
    for a in ELEMENTS {
        for b in ELEMENTS {
            assert_eq!(dispatch(PotionType(a, b)), dispatch(PotionType(b, a)));
            assert_eq!(potion_effect(PotionType(a, b)), potion_effect(PotionType(b, a)));
        }
    }
}

#[test]
fn exactly_fifteen_recipes_are_reachable() {
    let mut seen: Vec<Recipe> = Vec::new();
    for a in ELEMENTS {
        for b in ELEMENTS {
            let r = dispatch(PotionType(a, b));
            if !seen.contains(&r) {
                seen.push(r);
            }
        }
    }
    assert_eq!(seen.len(), 15);
    // Different pairs give different recipes.
    for a in ELEMENTS {
        for b in ELEMENTS {
            for c in ELEMENTS {
                for d in ELEMENTS {
                    let same_pair = (a == c && b == d) || (a == d && b == c);
                    assert_eq!(dispatch(PotionType(a, b)) == dispatch(PotionType(c, d)), same_pair);
                }
            }
        }
    }
}

#[test]
fn each_pair_has_its_recipe() {
    assert_eq!(dispatch(PotionType(Element::Fire, Element::Fire)), Recipe::FireFire);
    assert_eq!(dispatch(PotionType(Element::Water, Element::Water)), Recipe::WaterWater);
    assert_eq!(dispatch(PotionType(Element::Wind, Element::Wind)), Recipe::WindWind);
    assert_eq!(dispatch(PotionType(Element::Lightning, Element::Lightning)), Recipe::LightningLightning);
    assert_eq!(dispatch(PotionType(Element::Earth, Element::Earth)), Recipe::EarthEarth);
    assert_eq!(dispatch(PotionType(Element::Water, Element::Fire)), Recipe::FireWater);
    assert_eq!(dispatch(PotionType(Element::Wind, Element::Fire)), Recipe::FireWind);
    assert_eq!(dispatch(PotionType(Element::Fire, Element::Lightning)), Recipe::FireLightning);
    assert_eq!(dispatch(PotionType(Element::Earth, Element::Fire)), Recipe::FireEarth);
    assert_eq!(dispatch(PotionType(Element::Water, Element::Wind)), Recipe::WaterWind);
    assert_eq!(dispatch(PotionType(Element::Lightning, Element::Water)), Recipe::WaterLightning);
    assert_eq!(dispatch(PotionType(Element::Water, Element::Earth)), Recipe::WaterEarth);
    assert_eq!(dispatch(PotionType(Element::Lightning, Element::Wind)), Recipe::WindLightning);
    assert_eq!(dispatch(PotionType(Element::Wind, Element::Earth)), Recipe::WindEarth);
    assert_eq!(dispatch(PotionType(Element::Earth, Element::Lightning)), Recipe::LightningEarth);
}

#[test]
fn brew_calls_the_recipe() {
    assert_eq!(brew(Recipe::FireFire), fire_fire());
    assert_eq!(brew(Recipe::WaterWater), water_water());
    assert_eq!(brew(Recipe::WindWind), wind_wind());
    assert_eq!(brew(Recipe::LightningLightning), lightning_lightning());
    assert_eq!(brew(Recipe::EarthEarth), earth_earth());
    assert_eq!(brew(Recipe::FireWater), fire_water());
    assert_eq!(brew(Recipe::FireWind), fire_wind());
    assert_eq!(brew(Recipe::FireLightning), fire_lightning());
    assert_eq!(brew(Recipe::FireEarth), fire_earth());
    assert_eq!(brew(Recipe::WaterWind), water_wind());
    assert_eq!(brew(Recipe::WaterLightning), water_lightning());
    assert_eq!(brew(Recipe::WaterEarth), water_earth());
    assert_eq!(brew(Recipe::WindLightning), wind_lightning());
    assert_eq!(brew(Recipe::WindEarth), wind_earth());
    assert_eq!(brew(Recipe::LightningEarth), lightning_earth());
    assert_eq!(potion_effect(PotionType(Element::Earth, Element::Water)), water_earth());
}

#[test]
fn pure_recipes() {
    let none = Falloff::none();
    let e = fire_fire();
    assert_eq!(e.lifetime, Some(300_000_000));
    assert_eq!(e.motion, Motion::Still);
    assert_eq!(e.volume.shape, Shape::Ball { radius: 32_000 });
    assert_eq!(e.volume.memberships, 8);
    assert_eq!(e.volume.filters, 2);
    assert_eq!(e.volume.lifetime, Some(100_000_000));
    assert_eq!(e.volume.primitives.hitstun, Some(500_000_000));
    assert_eq!(e.volume.primitives.radial_impulse, Some(Attenuated { amount: 25_000, falloff: none }));
    assert_eq!(e.volume.primitives.damage_once, Some(Attenuated { amount: 25_000, falloff: none }));
    assert_eq!(e.volume.primitives.status, None);

    let e = water_water();
    assert_eq!(e.motion, Motion::Thrown { speed: 100_000 });
    assert_eq!(e.lifetime, Some(600_000_000));
    assert_eq!(e.volume.shape, Shape::Cuboid { half_width: 32_000, half_height: 8_000, forward: 0 });
    assert_eq!(e.volume.primitives.directed_force, Some(15_000));

    let e = wind_wind();
    assert_eq!(e.lifetime, Some(2_000_000_000));
    assert_eq!(
        e.volume.primitives.radial_force,
        Some(Attenuated { amount: -5_000, falloff: Falloff::new(500, 5_000, 32_000) })
    );

    let e = lightning_lightning();
    assert_eq!(e.volume.shape, Shape::Ball { radius: 2_000 });
    assert_eq!(e.volume.primitives.hitstun, Some(3_000_000_000));
    assert_eq!(e.volume.primitives.damage_once.unwrap().amount, 250_000);

    let e = earth_earth();
    assert!(!e.volume.hitbox);
    assert!(!e.volume.sensor);
    assert_eq!(e.volume.memberships, 4);
    assert_eq!(e.volume.filters, 2 | 1 | 8 | 16);
    assert_eq!(e.volume.shape, Shape::Ball { radius: 16_000 });
}

#[test]
fn mixed_recipes() {
    let none = Falloff::none();
    assert_eq!(
        fire_water().volume.primitives.radial_force,
        Some(Attenuated { amount: 5_000, falloff: Falloff::new(500, 5_000, 32_000) })
    );
    assert_eq!(fire_wind().volume.primitives.status, Some(Effect::OnFire));
    assert_eq!(fire_wind().volume.lifetime, Some(500_000_000));
    assert_eq!(fire_lightning().volume.primitives.status, Some(Effect::DelayedExplosion));
    assert_eq!(
        fire_earth().volume.primitives.damage_periodic,
        Some(Pulsed { amount: 5_000, falloff: none, period: 100_000_000 })
    );
    assert_eq!(water_wind().motion, Motion::Homing { max_speed: 10_000, radius: 128_000 });
    assert_eq!(water_wind().volume.primitives.status, Some(Effect::Slowed));
    assert_eq!(water_lightning().volume.primitives.status, Some(Effect::Shocked));
    assert_eq!(
        water_earth().volume.shape,
        Shape::Cuboid { half_width: 16_000, half_height: 48_000, forward: 48_000 }
    );
    assert_eq!(water_earth().volume.primitives.hitstun, Some(500_000_000));
    assert_eq!(wind_lightning().motion, Motion::Homing { max_speed: 10_000, radius: 128_000 });
    assert_eq!(
        wind_lightning().volume.primitives.damage_periodic,
        Some(Pulsed { amount: 5_000, falloff: none, period: 100_000_000 })
    );
    assert_eq!(wind_earth().volume.primitives.status, Some(Effect::Blinded));
    let sparks = lightning_earth();
    assert_eq!(sparks.lifetime, None);
    assert_eq!(sparks.volume.copies, 7);
    assert_eq!(sparks.volume.speed, 600_000);
    assert_eq!(sparks.volume.filters, 2 | 4);
    assert_eq!(sparks.volume.primitives.hitstun, Some(1_500_000_000));
    assert_eq!(sparks.volume.primitives.damage_once, Some(Attenuated { amount: 0, falloff: none }));
    for a in ELEMENTS {
        for b in ELEMENTS {
            let e = potion_effect(PotionType(a, b));
            if e.volume.copies != 1 {
                assert_eq!(dispatch(PotionType(a, b)), Recipe::LightningEarth);
            }
        }
    }
}

#[test]
fn hazard_of_an_effect_carries_its_primitives() {
    let along = Vector { x: 600, y: -800 };
    let mut wave = water_water().volume.primitives.hazard(&along);
    assert!(wave.damage_once.is_none());
    assert_eq!(wave.directed_force.as_ref().unwrap().force(), Vector { x: 9_000, y: -12_000 });
    assert!(!wave.directed_force.as_ref().unwrap().holds(1));
    wave.begin_contact(1, &along, &along);
    assert!(wave.directed_force.as_ref().unwrap().holds(1));

    let mut burst = fire_fire().volume.primitives.hazard(&along);
    let o = Vector { x: 0, y: 0 };
    let impact = burst.begin_contact(5, &o, &Vector { x: 0, y: 30_000 });
    assert_eq!(impact.hitstun, Some(500_000_000));
    assert_eq!(impact.damage.unwrap().amount, -25_000);
    assert_eq!(
        impact.radial_impulse,
        Some(ImpulseRequest {
            target: 5,
            push: Push::Radial { offset: Vector { x: 0, y: 30_000 }, magnitude: 25_000 },
        })
    );
    let dust = wind_earth().volume.primitives.hazard(&along);
    assert_eq!(dust.status.unwrap().0, Effect::Blinded);
    let lava = fire_earth().volume.primitives.hazard(&along);
    assert_eq!(lava.damage_periodic.as_ref().unwrap().amount(), 5_000);
    let whirl = wind_wind().volume.primitives.hazard(&along);
    assert_eq!(whirl.radial_force.as_ref().unwrap().force(), -5_000);
    assert_eq!(whirl.radial_force.as_ref().unwrap().falloff(), Falloff::new(500, 5_000, 32_000));
}

fn potion(id: u64, position: (i64, i64), velocity: (i64, i64), aim: (i64, i64)) -> Potion {
    Potion {
        id,
        potion_type: PotionType(Element::Fire, Element::Wind),
        position: Vector { x: position.0, y: position.1 },
        velocity: Vector { x: velocity.0, y: velocity.1 },
        aim: Vector { x: aim.0, y: aim.1 },
    }
}

fn broken(p: &Potion) -> PotionExplode {
    PotionExplode { id: p.id, potion_type: p.potion_type, position: p.position, velocity: p.velocity }
}

#[test]
fn potion_breaks_once_it_no_longer_flies_toward_its_aim() {
    assert!(!potion(1, (0, 0), (400, 0), (100, 0)).past_aim());
    assert!(potion(1, (100, 0), (400, 0), (100, 0)).past_aim());
    assert!(potion(1, (101, 0), (400, 0), (100, 0)).past_aim());
    assert!(potion(1, (0, 0), (0, 0), (100, 0)).past_aim());
    assert!(potion(1, (0, 0), (0, 400), (100, 0)).past_aim());
    assert!(!potion(1, (0, 0), (1, 400), (100, 0)).past_aim());
    assert!(!potion(1, (i64::MIN, 0), (1, 0), (i64::MAX, 0)).past_aim());
}

#[test]
fn potions_break_on_collisions_and_at_their_aim() {
    let flying = potion(1, (0, 0), (400, 0), (100, 0));
    let arrived = potion(2, (100, 0), (400, 0), (100, 0));
    let bumping = potion(3, (0, 0), (0, 400), (0, 900));
    let potions = vec![flying, arrived, bumping];
    assert_eq!(find_potion(&potions, 3), Some(2));
    assert_eq!(find_potion(&potions, 4), None);
    let events = vec![
        CollisionEvent::Started(50, 3),
        CollisionEvent::Stopped(1, 50),
        CollisionEvent::Started(60, 61),
        CollisionEvent::Started(2, 3),
    ];
    let out = potion_explode(&potions, &events);
    assert_eq!(out, vec![broken(&bumping), broken(&arrived), broken(&arrived)]);
    assert!(potion_explode(&vec![flying], &Vec::new()).is_empty());
    assert!(potion_explode(&Vec::new(), &events).is_empty());
}

fn empty_brew() -> PotionBrewData {
    PotionBrewData {
        direction: Vector { x: 0, y: 0 },
        position: Vector { x: 0, y: 0 },
        first: None,
        second: None,
    }
}

#[test]
fn brewing_two_elements_throws_a_potion() {
    let mut counts = EssenceCounts::default();
    counts.set(Element::Fire, 2);
    counts.set(Element::Earth, 1);
    let mut state = PotionBrewState::Inactive;
    let mut data = empty_brew();
    let mut scale = TimeScale(1_000);
    init_throw(&mut state, &mut data, Vector { x: 1_000, y: 0 }, Vector { x: 70_000, y: 0 });
    assert_eq!(state, PotionBrewState::Active);
    manage_brew_state(true, state, &mut data, &mut scale, &mut counts);
    assert_eq!(scale, TimeScale(10));

    assert_eq!(update_brew(&mut state, &mut data, &mut counts, Pointer::Centre), None);
    assert_eq!(update_brew(&mut state, &mut data, &mut counts, Pointer::Sector(Element::Wind)), None);
    assert_eq!(data.first, None);
    assert_eq!(update_brew(&mut state, &mut data, &mut counts, Pointer::Sector(Element::Fire)), None);
    assert_eq!(data.first, Some(Element::Fire));
    assert_eq!(counts.count(Element::Fire), 1);
    assert_eq!(state, PotionBrewState::Active);
    let thrown = update_brew(&mut state, &mut data, &mut counts, Pointer::Sector(Element::Earth));
    assert_eq!(thrown, Some(ThrowPotion(Element::Fire, Element::Earth)));
    assert_eq!(state, PotionBrewState::Inactive);
    assert_eq!(counts.count(Element::Earth), 0);
    assert_eq!(counts.count(Element::Fire), 1);

    let p = throw_potion(thrown.unwrap(), &data, Vector { x: 5, y: 6 }, 77);
    assert_eq!(p.id, 77);
    assert_eq!(p.potion_type, PotionType(Element::Fire, Element::Earth));
    assert_eq!(p.position, Vector { x: 5, y: 6 });
    assert_eq!(p.velocity, Vector { x: 400_000, y: 0 });
    assert_eq!(p.aim, Vector { x: 70_000, y: 0 });

    manage_brew_state(true, state, &mut data, &mut scale, &mut counts);
    assert_eq!(scale, TimeScale(1_000));
    assert_eq!(data.first, None);
    assert_eq!(data.second, None);
    // A completed potion is not given back.
    assert_eq!(counts.count(Element::Fire), 1);
    assert_eq!(counts.count(Element::Earth), 0);
}

#[test]
fn giving_up_a_brew_gives_the_element_back() {
    let mut counts = EssenceCounts::default();
    counts.set(Element::Water, 3);
    let mut state = PotionBrewState::Active;
    let mut data = empty_brew();
    let mut scale = TimeScale(10);
    update_brew(&mut state, &mut data, &mut counts, Pointer::Sector(Element::Water));
    assert_eq!(counts.count(Element::Water), 2);
    assert_eq!(update_brew(&mut state, &mut data, &mut counts, Pointer::Outside), None);
    assert_eq!(state, PotionBrewState::Inactive);
    assert_eq!(data.first, Some(Element::Water));
    // Without a change nothing is managed.
    manage_brew_state(false, state, &mut data, &mut scale, &mut counts);
    assert_eq!(counts.count(Element::Water), 2);
    assert_eq!(scale, TimeScale(10));
    manage_brew_state(true, state, &mut data, &mut scale, &mut counts);
    assert_eq!(counts.count(Element::Water), 3);
    assert_eq!(data, empty_brew());
    assert_eq!(scale, TimeScale(1_000));
}

#[test]
fn clicks_do_nothing_while_no_potion_is_brewed() {
    let mut counts = EssenceCounts::default();
    counts.set(Element::Water, 3);
    let mut state = PotionBrewState::Inactive;
    let mut data = empty_brew();
    assert_eq!(update_brew(&mut state, &mut data, &mut counts, Pointer::Sector(Element::Water)), None);
    assert_eq!(update_brew(&mut state, &mut data, &mut counts, Pointer::Outside), None);
    assert_eq!(state, PotionBrewState::Inactive);
    assert_eq!(data, empty_brew());
    assert_eq!(counts.count(Element::Water), 3);
}

#[test]
fn same_element_twice_needs_two_essences() {
    let mut counts = EssenceCounts::default();
    counts.set(Element::Wind, 1);
    let mut state = PotionBrewState::Active;
    let mut data = empty_brew();
    update_brew(&mut state, &mut data, &mut counts, Pointer::Sector(Element::Wind));
    assert_eq!(update_brew(&mut state, &mut data, &mut counts, Pointer::Sector(Element::Wind)), None);
    assert_eq!(state, PotionBrewState::Active);
    counts.set(Element::Wind, 1);
    assert_eq!(
        update_brew(&mut state, &mut data, &mut counts, Pointer::Sector(Element::Wind)),
        Some(ThrowPotion(Element::Wind, Element::Wind))
    );
}
