//! Potions: what two elements combine into, and how a potion is brewed,
//! thrown and set off.
//!
//! A potion holds two elements. The pair, taken without order, selects one
//! of fifteen recipes; each recipe spawns one self-contained effect made of
//! the primitives of [`crate::hitbox`].

use vstd::prelude::*;
use crate::consts::EARTH_EARTH_DURATION;
use crate::consts::EARTH_EARTH_RADIUS;
use crate::consts::ENEMY_ATTACK_COLLISION_GROUP;
use crate::consts::BREW_TIME_SCALE;
use crate::consts::ENEMY_COLLISION_GROUP;
use crate::consts::FIRE_EARTH_DAMAGE;
use crate::consts::FIRE_EARTH_DURATION;
use crate::consts::FIRE_EARTH_RADIUS;
use crate::consts::FIRE_EARTH_TICK;
use crate::consts::FIRE_FIRE_DAMAGE;
use crate::consts::FIRE_FIRE_HITSTUN;
use crate::consts::FIRE_FIRE_IMPULSE;
use crate::consts::FIRE_FIRE_RADIUS;
use crate::consts::FIRE_LIGHTNING_DURATION;
use crate::consts::FIRE_LIGHTNING_RADIUS;
use crate::consts::FIRE_WATER_DURATION;
use crate::consts::FIRE_WATER_FALLOFF_END;
use crate::consts::FIRE_WATER_FALLOFF_START;
use crate::consts::FIRE_WATER_FORCE;
use crate::consts::FIRE_WATER_MAX_FALLOFF;
use crate::consts::FIRE_WATER_RADIUS;
use crate::consts::FIRE_WIND_RADIUS;
use crate::consts::LIGHTNING_EARTH_COUNT;
use crate::consts::LIGHTNING_EARTH_DAMAGE;
use crate::consts::LIGHTNING_EARTH_DURATION;
use crate::consts::LIGHTNING_EARTH_HITSTUN;
use crate::consts::LIGHTNING_EARTH_RADIUS;
use crate::consts::LIGHTNING_EARTH_SPEED;
use crate::consts::LIGHTNING_LIGHTNING_DAMAGE;
use crate::consts::LIGHTNING_LIGHTNING_FALLOFF_END;
use crate::consts::LIGHTNING_LIGHTNING_FALLOFF_START;
use crate::consts::LIGHTNING_LIGHTNING_HITSTUN;
use crate::consts::LIGHTNING_LIGHTNING_MAX_FALLOFF;
use crate::consts::LIGHTNING_LIGHTNING_RADIUS;
use crate::consts::PLAYER_ATTACK_COLLISION_GROUP;
use crate::consts::PLAYER_COLLISION_GROUP;
use crate::consts::POTION_THROW_SPEED;
use crate::consts::WALL_COLLISION_GROUP;
use crate::consts::WATER_EARTH_DAMAGE;
use crate::consts::WATER_EARTH_DURATION;
use crate::consts::WATER_EARTH_HALF_HEIGHT;
use crate::consts::WATER_EARTH_HALF_WIDTH;
use crate::consts::WATER_EARTH_HITSTUN;
use crate::consts::WATER_EARTH_TICK;
use crate::consts::WATER_LIGHTNING_DURATION;
use crate::consts::WATER_LIGHTNING_RADIUS;
use crate::consts::WATER_WATER_DURATION;
use crate::consts::WATER_WATER_FORCE;
use crate::consts::WATER_WATER_HALF_HEIGHT;
use crate::consts::WATER_WATER_HALF_WIDTH;
use crate::consts::WATER_WATER_SPEED;
use crate::consts::WATER_WIND_CHASE_RADIUS;
use crate::consts::WATER_WIND_CHASE_SPEED;
use crate::consts::WATER_WIND_DURATION;
use crate::consts::WATER_WIND_RADIUS;
use crate::consts::WIND_EARTH_DURATION;
use crate::consts::WIND_EARTH_RADIUS;
use crate::consts::WIND_LIGHTNING_CHASE_RADIUS;
use crate::consts::WIND_LIGHTNING_CHASE_SPEED;
use crate::consts::WIND_LIGHTNING_DAMAGE;
use crate::consts::WIND_LIGHTNING_DURATION;
use crate::consts::WIND_LIGHTNING_RADIUS;
use crate::consts::WIND_LIGHTNING_TICK;
use crate::consts::WIND_WIND_DURATION;
use crate::consts::WIND_WIND_FALLOFF_END;
use crate::consts::WIND_WIND_FALLOFF_START;
use crate::consts::WIND_WIND_PULL;
use crate::consts::WIND_WIND_MAX_FALLOFF;
use crate::consts::WIND_WIND_RADIUS;
use crate::entity_set::EntityId;
use crate::essence::EssenceCounts;
use crate::falloff::Falloff;
use crate::geometry::Vector;
use crate::hitbox::DamageOnce;
use crate::hitbox::DamageOnceView;
use crate::hitbox::DamagePeriodic;
use crate::hitbox::DamagePeriodicView;
use crate::hitbox::DirectedForce;
use crate::hitbox::DirectedForceView;
use crate::hitbox::Hazard;
use crate::hitbox::HazardView;
use crate::hitbox::Hitstun;
use crate::hitbox::RadialForce;
use crate::hitbox::RadialForceView;
use crate::hitbox::RadialImpulse;
use crate::hitbox::StatusEffect;
use crate::resolver::CollisionEvent;
use crate::status::Effect;
use crate::timer::Timer;
use crate::units::scale;
use crate::units::scaled;
use crate::units::UNIT;
use crate::utils::TimeScale;
use crate::Element;

verus! {

/// The two elements of a potion, in the order in which they were chosen.
#[derive(Clone, Copy, Debug, PartialEq, Eq, Structural)]
pub struct PotionType(pub Element, pub Element);

/// The request to throw a potion of two elements.
#[derive(Clone, Copy, Debug, PartialEq, Eq, Structural)]
pub struct ThrowPotion(pub Element, pub Element);

/// One of the fifteen effects that two elements can combine into.
#[derive(Clone, Copy, Debug, PartialEq, Eq, Structural)]
pub enum Recipe {
    FireFire,
    WaterWater,
    WindWind,
    LightningLightning,
    EarthEarth,
    FireWater,
    FireWind,
    FireLightning,
    FireEarth,
    WaterWind,
    WaterLightning,
    WaterEarth,
    WindLightning,
    WindEarth,
    LightningEarth,
}

/// The recipe that two elements combine into.
pub open spec fn recipe_of(a: Element, b: Element) -> Recipe {
    match (a, b) {
        (Element::Fire, Element::Fire) => Recipe::FireFire,
        (Element::Water, Element::Water) => Recipe::WaterWater,
        (Element::Wind, Element::Wind) => Recipe::WindWind,
        (Element::Lightning, Element::Lightning) => Recipe::LightningLightning,
        (Element::Earth, Element::Earth) => Recipe::EarthEarth,
        (Element::Fire, Element::Water) | (Element::Water, Element::Fire) => Recipe::FireWater,
        (Element::Fire, Element::Wind) | (Element::Wind, Element::Fire) => Recipe::FireWind,
        (Element::Fire, Element::Lightning) | (Element::Lightning, Element::Fire) => Recipe::FireLightning,
        (Element::Fire, Element::Earth) | (Element::Earth, Element::Fire) => Recipe::FireEarth,
        (Element::Water, Element::Wind) | (Element::Wind, Element::Water) => Recipe::WaterWind,
        (Element::Water, Element::Lightning) | (Element::Lightning, Element::Water) => Recipe::WaterLightning,
        (Element::Water, Element::Earth) | (Element::Earth, Element::Water) => Recipe::WaterEarth,
        (Element::Wind, Element::Lightning) | (Element::Lightning, Element::Wind) => Recipe::WindLightning,
        (Element::Wind, Element::Earth) | (Element::Earth, Element::Wind) => Recipe::WindEarth,
        (Element::Lightning, Element::Earth) | (Element::Earth, Element::Lightning) => Recipe::LightningEarth,
    }
}

/// Selects the recipe of a potion.
pub fn dispatch(potion: PotionType) -> (recipe: Recipe)
    ensures
        recipe == recipe_of(potion.0, potion.1),
{
    match (potion.0, potion.1) {
        (Element::Fire, Element::Fire) => Recipe::FireFire,
        (Element::Water, Element::Water) => Recipe::WaterWater,
        (Element::Wind, Element::Wind) => Recipe::WindWind,
        (Element::Lightning, Element::Lightning) => Recipe::LightningLightning,
        (Element::Earth, Element::Earth) => Recipe::EarthEarth,
        (Element::Fire, Element::Water) | (Element::Water, Element::Fire) => Recipe::FireWater,
        (Element::Fire, Element::Wind) | (Element::Wind, Element::Fire) => Recipe::FireWind,
        (Element::Fire, Element::Lightning) | (Element::Lightning, Element::Fire) => {
            Recipe::FireLightning
        },
        (Element::Fire, Element::Earth) | (Element::Earth, Element::Fire) => Recipe::FireEarth,
        (Element::Water, Element::Wind) | (Element::Wind, Element::Water) => Recipe::WaterWind,
        (Element::Water, Element::Lightning) | (Element::Lightning, Element::Water) => {
            Recipe::WaterLightning
        },
        (Element::Water, Element::Earth) | (Element::Earth, Element::Water) => Recipe::WaterEarth,
        (Element::Wind, Element::Lightning) | (Element::Lightning, Element::Wind) => {
            Recipe::WindLightning
        },
        (Element::Wind, Element::Earth) | (Element::Earth, Element::Wind) => Recipe::WindEarth,
        (Element::Lightning, Element::Earth) | (Element::Earth, Element::Lightning) => {
            Recipe::LightningEarth
        },
    }
}

/// The order in which the elements are combined does not matter.
pub proof fn lemma_dispatch_is_symmetric(a: Element, b: Element)
    ensures
        recipe_of(a, b) == recipe_of(b, a),
{
}

/// Two pairs of elements combine into the same recipe only if they are
/// the same pair, up to order.
pub proof fn lemma_dispatch_tells_pairs_apart(a: Element, b: Element, c: Element, d: Element)
    requires
        recipe_of(a, b) == recipe_of(c, d),
    ensures
        (a == c && b == d) || (a == d && b == c),
{
}

/// Every recipe is the combination of some pair of elements. With the two
/// laws above, exactly fifteen effects can be reached: one for each pair
/// of elements taken without order.
pub proof fn lemma_every_recipe_is_reachable(recipe: Recipe) -> (pair: (Element, Element))
    ensures
        recipe_of(pair.0, pair.1) == recipe,
{
    match recipe {
        Recipe::FireFire => (Element::Fire, Element::Fire),
        Recipe::WaterWater => (Element::Water, Element::Water),
        Recipe::WindWind => (Element::Wind, Element::Wind),
        Recipe::LightningLightning => (Element::Lightning, Element::Lightning),
        Recipe::EarthEarth => (Element::Earth, Element::Earth),
        Recipe::FireWater => (Element::Fire, Element::Water),
        Recipe::FireWind => (Element::Fire, Element::Wind),
        Recipe::FireLightning => (Element::Fire, Element::Lightning),
        Recipe::FireEarth => (Element::Fire, Element::Earth),
        Recipe::WaterWind => (Element::Water, Element::Wind),
        Recipe::WaterLightning => (Element::Water, Element::Lightning),
        Recipe::WaterEarth => (Element::Water, Element::Earth),
        Recipe::WindLightning => (Element::Wind, Element::Lightning),
        Recipe::WindEarth => (Element::Wind, Element::Earth),
        Recipe::LightningEarth => (Element::Lightning, Element::Earth),
    }
}

/// An amount that weakens with distance.
#[derive(Clone, Copy, Debug, PartialEq, Eq, Structural)]
pub struct Attenuated {
    pub amount: i64,
    pub falloff: Falloff,
}

/// An amount that weakens with distance and acts once per period.
#[derive(Clone, Copy, Debug, PartialEq, Eq, Structural)]
pub struct Pulsed {
    pub amount: i64,
    pub falloff: Falloff,
    pub period: u64,
}

/// The primitives that the hazard of an effect carries.
#[derive(Clone, Copy, Debug, PartialEq, Eq, Structural)]
pub struct Primitives {
    pub hitstun: Option<u64>,
    pub radial_impulse: Option<Attenuated>,
    pub radial_force: Option<Attenuated>,
    /// The strength of a continuous push along the direction of the throw.
    pub directed_force: Option<i64>,
    pub damage_once: Option<Attenuated>,
    pub damage_periodic: Option<Pulsed>,
    pub status: Option<Effect>,
}

/// How the effect moves.
#[derive(Clone, Copy, Debug, PartialEq, Eq, Structural)]
pub enum Motion {
    /// It stays where the potion broke.
    Still,
    /// It travels on along the throw.
    Thrown { speed: i64 },
    /// It drifts toward the targets within `radius`, no faster than
    /// `max_speed`.
    Homing { max_speed: i64, radius: i64 },
}

/// The outline of a collision volume.
#[derive(Clone, Copy, Debug, PartialEq, Eq, Structural)]
pub enum Shape {
    Ball { radius: i64 },
    /// A box turned to lie across the throw and moved `forward` along it.
    Cuboid { half_width: i64, half_height: i64, forward: i64 },
}

/// The collision volume of an effect.
#[derive(Clone, Copy, Debug, PartialEq, Eq, Structural)]
pub struct Volume {
    pub shape: Shape,
    /// The collision groups the volume belongs to.
    pub memberships: u32,
    /// The collision groups the volume meets.
    pub filters: u32,
    /// Whether the volume only senses contacts instead of colliding.
    pub sensor: bool,
    /// Whether the volume is a hazard.
    pub hitbox: bool,
    /// After how many nanoseconds the volume vanishes, if before the
    /// effect does.
    pub lifetime: Option<u64>,
    /// How many such volumes are spawned. More than one fly apart evenly
    /// in all directions.
    pub copies: u32,
    /// The speed at which the copies fly apart.
    pub speed: i64,
    pub primitives: Primitives,
}

/// What a recipe spawns.
#[derive(Clone, Copy, Debug, PartialEq, Eq, Structural)]
pub struct EffectEntity {
    /// After how many nanoseconds the effect vanishes.
    pub lifetime: Option<u64>,
    pub motion: Motion,
    pub volume: Volume,
}

/// The effect that each recipe spawns.
pub open spec fn effect_of(recipe: Recipe) -> EffectEntity {
    match recipe {
        Recipe::FireFire => EffectEntity {
            lifetime: Some(300_000_000),
            motion: Motion::Still,
            volume: Volume {
                shape: Shape::Ball { radius: FIRE_FIRE_RADIUS },
                memberships: PLAYER_ATTACK_COLLISION_GROUP,
                filters: ENEMY_COLLISION_GROUP,
                sensor: true,
                hitbox: true,
                lifetime: Some(100_000_000),
                copies: 1,
                speed: 0,
                primitives: Primitives {
                    hitstun: Some(FIRE_FIRE_HITSTUN),
                    radial_impulse: Some(Attenuated { amount: FIRE_FIRE_IMPULSE, falloff: Falloff { ratio: UNIT, start: 0, end: 0 } }),
                    radial_force: None,
                    directed_force: None,
                    damage_once: Some(Attenuated { amount: FIRE_FIRE_DAMAGE, falloff: Falloff { ratio: UNIT, start: 0, end: 0 } }),
                    damage_periodic: None,
                    status: None,
                },
            },
        },
        Recipe::WaterWater => EffectEntity {
            lifetime: Some(WATER_WATER_DURATION),
            motion: Motion::Thrown { speed: WATER_WATER_SPEED },
            volume: Volume {
                shape: Shape::Cuboid { half_width: WATER_WATER_HALF_WIDTH, half_height: WATER_WATER_HALF_HEIGHT, forward: 0 },
                memberships: PLAYER_ATTACK_COLLISION_GROUP,
                filters: ENEMY_COLLISION_GROUP,
                sensor: true,
                hitbox: true,
                lifetime: None,
                copies: 1,
                speed: 0,
                primitives: Primitives {
                    hitstun: None,
                    radial_impulse: None,
                    radial_force: None,
                    directed_force: Some(WATER_WATER_FORCE),
                    damage_once: None,
                    damage_periodic: None,
                    status: None,
                },
            },
        },
        Recipe::WindWind => EffectEntity {
            lifetime: Some(WIND_WIND_DURATION),
            motion: Motion::Still,
            volume: Volume {
                shape: Shape::Ball { radius: WIND_WIND_RADIUS },
                memberships: PLAYER_ATTACK_COLLISION_GROUP,
                filters: ENEMY_COLLISION_GROUP,
                sensor: true,
                hitbox: true,
                lifetime: None,
                copies: 1,
                speed: 0,
                primitives: Primitives {
                    hitstun: None,
                    radial_impulse: None,
                    radial_force: Some(Attenuated { amount: WIND_WIND_PULL, falloff: Falloff { ratio: WIND_WIND_MAX_FALLOFF, start: WIND_WIND_FALLOFF_START, end: WIND_WIND_FALLOFF_END } }),
                    directed_force: None,
                    damage_once: None,
                    damage_periodic: None,
                    status: None,
                },
            },
        },
        Recipe::LightningLightning => EffectEntity {
            lifetime: Some(250_000_000),
            motion: Motion::Still,
            volume: Volume {
                shape: Shape::Ball { radius: LIGHTNING_LIGHTNING_RADIUS },
                memberships: PLAYER_ATTACK_COLLISION_GROUP,
                filters: ENEMY_COLLISION_GROUP,
                sensor: true,
                hitbox: true,
                lifetime: Some(100_000_000),
                copies: 1,
                speed: 0,
                primitives: Primitives {
                    hitstun: Some(LIGHTNING_LIGHTNING_HITSTUN),
                    radial_impulse: None,
                    radial_force: None,
                    directed_force: None,
                    damage_once: Some(Attenuated { amount: LIGHTNING_LIGHTNING_DAMAGE, falloff: Falloff { ratio: LIGHTNING_LIGHTNING_MAX_FALLOFF, start: LIGHTNING_LIGHTNING_FALLOFF_START, end: LIGHTNING_LIGHTNING_FALLOFF_END } }),
                    damage_periodic: None,
                    status: None,
                },
            },
        },
        Recipe::EarthEarth => EffectEntity {
            lifetime: Some(EARTH_EARTH_DURATION),
            motion: Motion::Still,
            volume: Volume {
                shape: Shape::Ball { radius: EARTH_EARTH_RADIUS },
                memberships: WALL_COLLISION_GROUP,
                filters: ENEMY_COLLISION_GROUP | PLAYER_COLLISION_GROUP | PLAYER_ATTACK_COLLISION_GROUP
                    | ENEMY_ATTACK_COLLISION_GROUP,
                sensor: false,
                hitbox: false,
                lifetime: None,
                copies: 1,
                speed: 0,
                primitives: Primitives {
                    hitstun: None,
                    radial_impulse: None,
                    radial_force: None,
                    directed_force: None,
                    damage_once: None,
                    damage_periodic: None,
                    status: None,
                },
            },
        },
        Recipe::FireWater => EffectEntity {
            lifetime: Some(FIRE_WATER_DURATION),
            motion: Motion::Still,
            volume: Volume {
                shape: Shape::Ball { radius: FIRE_WATER_RADIUS },
                memberships: PLAYER_ATTACK_COLLISION_GROUP,
                filters: ENEMY_COLLISION_GROUP,
                sensor: true,
                hitbox: true,
                lifetime: None,
                copies: 1,
                speed: 0,
                primitives: Primitives {
                    hitstun: None,
                    radial_impulse: None,
                    radial_force: Some(Attenuated { amount: FIRE_WATER_FORCE, falloff: Falloff { ratio: FIRE_WATER_MAX_FALLOFF, start: FIRE_WATER_FALLOFF_START, end: FIRE_WATER_FALLOFF_END } }),
                    directed_force: None,
                    damage_once: None,
                    damage_periodic: None,
                    status: None,
                },
            },
        },
        Recipe::FireWind => EffectEntity {
            lifetime: Some(150_000_000),
            motion: Motion::Still,
            volume: Volume {
                shape: Shape::Ball { radius: FIRE_WIND_RADIUS },
                memberships: PLAYER_ATTACK_COLLISION_GROUP,
                filters: ENEMY_COLLISION_GROUP,
                sensor: true,
                hitbox: true,
                lifetime: Some(500_000_000),
                copies: 1,
                speed: 0,
                primitives: Primitives {
                    hitstun: None,
                    radial_impulse: None,
                    radial_force: None,
                    directed_force: None,
                    damage_once: None,
                    damage_periodic: None,
                    status: Some(Effect::OnFire),
                },
            },
        },
        Recipe::FireLightning => EffectEntity {
            lifetime: Some(200_000_000),
            motion: Motion::Still,
            volume: Volume {
                shape: Shape::Ball { radius: FIRE_LIGHTNING_RADIUS },
                memberships: PLAYER_ATTACK_COLLISION_GROUP,
                filters: ENEMY_COLLISION_GROUP,
                sensor: true,
                hitbox: true,
                lifetime: Some(FIRE_LIGHTNING_DURATION),
                copies: 1,
                speed: 0,
                primitives: Primitives {
                    hitstun: None,
                    radial_impulse: None,
                    radial_force: None,
                    directed_force: None,
                    damage_once: None,
                    damage_periodic: None,
                    status: Some(Effect::DelayedExplosion),
                },
            },
        },
        Recipe::FireEarth => EffectEntity {
            lifetime: Some(FIRE_EARTH_DURATION),
            motion: Motion::Still,
            volume: Volume {
                shape: Shape::Ball { radius: FIRE_EARTH_RADIUS },
                memberships: PLAYER_ATTACK_COLLISION_GROUP,
                filters: ENEMY_COLLISION_GROUP,
                sensor: true,
                hitbox: true,
                lifetime: None,
                copies: 1,
                speed: 0,
                primitives: Primitives {
                    hitstun: None,
                    radial_impulse: None,
                    radial_force: None,
                    directed_force: None,
                    damage_once: None,
                    damage_periodic: Some(Pulsed { amount: FIRE_EARTH_DAMAGE, falloff: Falloff { ratio: UNIT, start: 0, end: 0 }, period: FIRE_EARTH_TICK }),
                    status: None,
                },
            },
        },
        Recipe::WaterWind => EffectEntity {
            lifetime: Some(WATER_WIND_DURATION),
            motion: Motion::Homing { max_speed: WATER_WIND_CHASE_SPEED, radius: WATER_WIND_CHASE_RADIUS },
            volume: Volume {
                shape: Shape::Ball { radius: WATER_WIND_RADIUS },
                memberships: PLAYER_ATTACK_COLLISION_GROUP,
                filters: ENEMY_COLLISION_GROUP,
                sensor: true,
                hitbox: true,
                lifetime: None,
                copies: 1,
                speed: 0,
                primitives: Primitives {
                    hitstun: None,
                    radial_impulse: None,
                    radial_force: None,
                    directed_force: None,
                    damage_once: None,
                    damage_periodic: None,
                    status: Some(Effect::Slowed),
                },
            },
        },
        Recipe::WaterLightning => EffectEntity {
            lifetime: Some(150_000_000),
            motion: Motion::Still,
            volume: Volume {
                shape: Shape::Ball { radius: WATER_LIGHTNING_RADIUS },
                memberships: PLAYER_ATTACK_COLLISION_GROUP,
                filters: ENEMY_COLLISION_GROUP,
                sensor: true,
                hitbox: true,
                lifetime: Some(WATER_LIGHTNING_DURATION),
                copies: 1,
                speed: 0,
                primitives: Primitives {
                    hitstun: None,
                    radial_impulse: None,
                    radial_force: None,
                    directed_force: None,
                    damage_once: None,
                    damage_periodic: None,
                    status: Some(Effect::Shocked),
                },
            },
        },
        Recipe::WaterEarth => EffectEntity {
            lifetime: Some(WATER_EARTH_DURATION),
            motion: Motion::Still,
            volume: Volume {
                shape: Shape::Cuboid { half_width: WATER_EARTH_HALF_WIDTH, half_height: WATER_EARTH_HALF_HEIGHT, forward: WATER_EARTH_HALF_HEIGHT },
                memberships: PLAYER_ATTACK_COLLISION_GROUP,
                filters: ENEMY_COLLISION_GROUP,
                sensor: true,
                hitbox: true,
                lifetime: None,
                copies: 1,
                speed: 0,
                primitives: Primitives {
                    hitstun: Some(WATER_EARTH_HITSTUN),
                    radial_impulse: None,
                    radial_force: None,
                    directed_force: None,
                    damage_once: None,
                    damage_periodic: Some(Pulsed { amount: WATER_EARTH_DAMAGE, falloff: Falloff { ratio: UNIT, start: 0, end: 0 }, period: WATER_EARTH_TICK }),
                    status: None,
                },
            },
        },
        Recipe::WindLightning => EffectEntity {
            lifetime: Some(WIND_LIGHTNING_DURATION),
            motion: Motion::Homing {
                max_speed: WIND_LIGHTNING_CHASE_SPEED,
                radius: WIND_LIGHTNING_CHASE_RADIUS,
            },
            volume: Volume {
                shape: Shape::Ball { radius: WIND_LIGHTNING_RADIUS },
                memberships: PLAYER_ATTACK_COLLISION_GROUP,
                filters: ENEMY_COLLISION_GROUP,
                sensor: true,
                hitbox: true,
                lifetime: None,
                copies: 1,
                speed: 0,
                primitives: Primitives {
                    hitstun: None,
                    radial_impulse: None,
                    radial_force: None,
                    directed_force: None,
                    damage_once: None,
                    damage_periodic: Some(Pulsed { amount: WIND_LIGHTNING_DAMAGE, falloff: Falloff { ratio: UNIT, start: 0, end: 0 }, period: WIND_LIGHTNING_TICK }),
                    status: None,
                },
            },
        },
        Recipe::WindEarth => EffectEntity {
            lifetime: Some(150_000_000),
            motion: Motion::Still,
            volume: Volume {
                shape: Shape::Ball { radius: WIND_EARTH_RADIUS },
                memberships: PLAYER_ATTACK_COLLISION_GROUP,
                filters: ENEMY_COLLISION_GROUP,
                sensor: true,
                hitbox: true,
                lifetime: Some(WIND_EARTH_DURATION),
                copies: 1,
                speed: 0,
                primitives: Primitives {
                    hitstun: None,
                    radial_impulse: None,
                    radial_force: None,
                    directed_force: None,
                    damage_once: None,
                    damage_periodic: None,
                    status: Some(Effect::Blinded),
                },
            },
        },
        Recipe::LightningEarth => EffectEntity {
            lifetime: None,
            motion: Motion::Still,
            volume: Volume {
                shape: Shape::Ball { radius: LIGHTNING_EARTH_RADIUS },
                memberships: PLAYER_ATTACK_COLLISION_GROUP,
                filters: ENEMY_COLLISION_GROUP | WALL_COLLISION_GROUP,
                sensor: false,
                hitbox: true,
                lifetime: Some(LIGHTNING_EARTH_DURATION),
                copies: LIGHTNING_EARTH_COUNT,
                speed: LIGHTNING_EARTH_SPEED,
                primitives: Primitives {
                    hitstun: Some(LIGHTNING_EARTH_HITSTUN),
                    radial_impulse: None,
                    radial_force: None,
                    directed_force: None,
                    damage_once: Some(Attenuated { amount: LIGHTNING_EARTH_DAMAGE, falloff: Falloff { ratio: UNIT, start: 0, end: 0 } }),
                    damage_periodic: None,
                    status: None,
                },
            },
        },
    }
}

/// A burst that damages, stuns and throws back whoever stands in it.
pub fn fire_fire() -> (e: EffectEntity)
    ensures
        e == effect_of(Recipe::FireFire),
{
    EffectEntity {
        lifetime: Some(300_000_000),
        motion: Motion::Still,
        volume: Volume {
            shape: Shape::Ball { radius: FIRE_FIRE_RADIUS },
            memberships: PLAYER_ATTACK_COLLISION_GROUP,
            filters: ENEMY_COLLISION_GROUP,
            sensor: true,
            hitbox: true,
            lifetime: Some(100_000_000),
            copies: 1,
            speed: 0,
            primitives: Primitives {
                hitstun: Some(FIRE_FIRE_HITSTUN),
                radial_impulse: Some(Attenuated { amount: FIRE_FIRE_IMPULSE, falloff: Falloff { ratio: UNIT, start: 0, end: 0 } }),
                radial_force: None,
                directed_force: None,
                damage_once: Some(Attenuated { amount: FIRE_FIRE_DAMAGE, falloff: Falloff { ratio: UNIT, start: 0, end: 0 } }),
                damage_periodic: None,
                status: None,
            },
        },
    }
}

/// A wave that travels on along the throw and carries targets with it.
pub fn water_water() -> (e: EffectEntity)
    ensures
        e == effect_of(Recipe::WaterWater),
{
    EffectEntity {
        lifetime: Some(WATER_WATER_DURATION),
        motion: Motion::Thrown { speed: WATER_WATER_SPEED },
        volume: Volume {
            shape: Shape::Cuboid { half_width: WATER_WATER_HALF_WIDTH, half_height: WATER_WATER_HALF_HEIGHT, forward: 0 },
            memberships: PLAYER_ATTACK_COLLISION_GROUP,
            filters: ENEMY_COLLISION_GROUP,
            sensor: true,
            hitbox: true,
            lifetime: None,
            copies: 1,
            speed: 0,
            primitives: Primitives {
                hitstun: None,
                radial_impulse: None,
                radial_force: None,
                directed_force: Some(WATER_WATER_FORCE),
                damage_once: None,
                damage_periodic: None,
                status: None,
            },
        },
    }
}

/// A whirl that keeps pulling targets toward its centre.
pub fn wind_wind() -> (e: EffectEntity)
    ensures
        e == effect_of(Recipe::WindWind),
{
    EffectEntity {
        lifetime: Some(WIND_WIND_DURATION),
        motion: Motion::Still,
        volume: Volume {
            shape: Shape::Ball { radius: WIND_WIND_RADIUS },
            memberships: PLAYER_ATTACK_COLLISION_GROUP,
            filters: ENEMY_COLLISION_GROUP,
            sensor: true,
            hitbox: true,
            lifetime: None,
            copies: 1,
            speed: 0,
            primitives: Primitives {
                hitstun: None,
                radial_impulse: None,
                radial_force: Some(Attenuated { amount: WIND_WIND_PULL, falloff: Falloff { ratio: WIND_WIND_MAX_FALLOFF, start: WIND_WIND_FALLOFF_START, end: WIND_WIND_FALLOFF_END } }),
                directed_force: None,
                damage_once: None,
                damage_periodic: None,
                status: None,
            },
        },
    }
}

/// A narrow strike of great damage and long stun.
pub fn lightning_lightning() -> (e: EffectEntity)
    ensures
        e == effect_of(Recipe::LightningLightning),
{
    EffectEntity {
        lifetime: Some(250_000_000),
        motion: Motion::Still,
        volume: Volume {
            shape: Shape::Ball { radius: LIGHTNING_LIGHTNING_RADIUS },
            memberships: PLAYER_ATTACK_COLLISION_GROUP,
            filters: ENEMY_COLLISION_GROUP,
            sensor: true,
            hitbox: true,
            lifetime: Some(100_000_000),
            copies: 1,
            speed: 0,
            primitives: Primitives {
                hitstun: Some(LIGHTNING_LIGHTNING_HITSTUN),
                radial_impulse: None,
                radial_force: None,
                directed_force: None,
                damage_once: Some(Attenuated { amount: LIGHTNING_LIGHTNING_DAMAGE, falloff: Falloff { ratio: LIGHTNING_LIGHTNING_MAX_FALLOFF, start: LIGHTNING_LIGHTNING_FALLOFF_START, end: LIGHTNING_LIGHTNING_FALLOFF_END } }),
                damage_periodic: None,
                status: None,
            },
        },
    }
}

/// A rock that blocks the way like a wall for a while. It is no hazard.
pub fn earth_earth() -> (e: EffectEntity)
    ensures
        e == effect_of(Recipe::EarthEarth),
{
    EffectEntity {
        lifetime: Some(EARTH_EARTH_DURATION),
        motion: Motion::Still,
        volume: Volume {
            shape: Shape::Ball { radius: EARTH_EARTH_RADIUS },
            memberships: WALL_COLLISION_GROUP,
            filters: ENEMY_COLLISION_GROUP | PLAYER_COLLISION_GROUP | PLAYER_ATTACK_COLLISION_GROUP
                    | ENEMY_ATTACK_COLLISION_GROUP,
            sensor: false,
            hitbox: false,
            lifetime: None,
            copies: 1,
            speed: 0,
            primitives: Primitives {
                hitstun: None,
                radial_impulse: None,
                radial_force: None,
                directed_force: None,
                damage_once: None,
                damage_periodic: None,
                status: None,
            },
        },
    }
}

/// A geyser of steam that keeps pushing targets away.
pub fn fire_water() -> (e: EffectEntity)
    ensures
        e == effect_of(Recipe::FireWater),
{
    EffectEntity {
        lifetime: Some(FIRE_WATER_DURATION),
        motion: Motion::Still,
        volume: Volume {
            shape: Shape::Ball { radius: FIRE_WATER_RADIUS },
            memberships: PLAYER_ATTACK_COLLISION_GROUP,
            filters: ENEMY_COLLISION_GROUP,
            sensor: true,
            hitbox: true,
            lifetime: None,
            copies: 1,
            speed: 0,
            primitives: Primitives {
                hitstun: None,
                radial_impulse: None,
                radial_force: Some(Attenuated { amount: FIRE_WATER_FORCE, falloff: Falloff { ratio: FIRE_WATER_MAX_FALLOFF, start: FIRE_WATER_FALLOFF_START, end: FIRE_WATER_FALLOFF_END } }),
                directed_force: None,
                damage_once: None,
                damage_periodic: None,
                status: None,
            },
        },
    }
}

/// A wide flare that sets targets on fire.
pub fn fire_wind() -> (e: EffectEntity)
    ensures
        e == effect_of(Recipe::FireWind),
{
    EffectEntity {
        lifetime: Some(150_000_000),
        motion: Motion::Still,
        volume: Volume {
            shape: Shape::Ball { radius: FIRE_WIND_RADIUS },
            memberships: PLAYER_ATTACK_COLLISION_GROUP,
            filters: ENEMY_COLLISION_GROUP,
            sensor: true,
            hitbox: true,
            lifetime: Some(500_000_000),
            copies: 1,
            speed: 0,
            primitives: Primitives {
                hitstun: None,
                radial_impulse: None,
                radial_force: None,
                directed_force: None,
                damage_once: None,
                damage_periodic: None,
                status: Some(Effect::OnFire),
            },
        },
    }
}

/// A spark that sticks to a target and explodes later.
pub fn fire_lightning() -> (e: EffectEntity)
    ensures
        e == effect_of(Recipe::FireLightning),
{
    EffectEntity {
        lifetime: Some(200_000_000),
        motion: Motion::Still,
        volume: Volume {
            shape: Shape::Ball { radius: FIRE_LIGHTNING_RADIUS },
            memberships: PLAYER_ATTACK_COLLISION_GROUP,
            filters: ENEMY_COLLISION_GROUP,
            sensor: true,
            hitbox: true,
            lifetime: Some(FIRE_LIGHTNING_DURATION),
            copies: 1,
            speed: 0,
            primitives: Primitives {
                hitstun: None,
                radial_impulse: None,
                radial_force: None,
                directed_force: None,
                damage_once: None,
                damage_periodic: None,
                status: Some(Effect::DelayedExplosion),
            },
        },
    }
}

/// A puddle of lava that damages whoever stands in it.
pub fn fire_earth() -> (e: EffectEntity)
    ensures
        e == effect_of(Recipe::FireEarth),
{
    EffectEntity {
        lifetime: Some(FIRE_EARTH_DURATION),
        motion: Motion::Still,
        volume: Volume {
            shape: Shape::Ball { radius: FIRE_EARTH_RADIUS },
            memberships: PLAYER_ATTACK_COLLISION_GROUP,
            filters: ENEMY_COLLISION_GROUP,
            sensor: true,
            hitbox: true,
            lifetime: None,
            copies: 1,
            speed: 0,
            primitives: Primitives {
                hitstun: None,
                radial_impulse: None,
                radial_force: None,
                directed_force: None,
                damage_once: None,
                damage_periodic: Some(Pulsed { amount: FIRE_EARTH_DAMAGE, falloff: Falloff { ratio: UNIT, start: 0, end: 0 }, period: FIRE_EARTH_TICK }),
                status: None,
            },
        },
    }
}

/// A rain cloud that drifts after targets and slows those under it.
pub fn water_wind() -> (e: EffectEntity)
    ensures
        e == effect_of(Recipe::WaterWind),
{
    EffectEntity {
        lifetime: Some(WATER_WIND_DURATION),
        motion: Motion::Homing { max_speed: WATER_WIND_CHASE_SPEED, radius: WATER_WIND_CHASE_RADIUS },
        volume: Volume {
            shape: Shape::Ball { radius: WATER_WIND_RADIUS },
            memberships: PLAYER_ATTACK_COLLISION_GROUP,
            filters: ENEMY_COLLISION_GROUP,
            sensor: true,
            hitbox: true,
            lifetime: None,
            copies: 1,
            speed: 0,
            primitives: Primitives {
                hitstun: None,
                radial_impulse: None,
                radial_force: None,
                directed_force: None,
                damage_once: None,
                damage_periodic: None,
                status: Some(Effect::Slowed),
            },
        },
    }
}

/// A burst that shocks targets, which then discharge on their neighbours.
pub fn water_lightning() -> (e: EffectEntity)
    ensures
        e == effect_of(Recipe::WaterLightning),
{
    EffectEntity {
        lifetime: Some(150_000_000),
        motion: Motion::Still,
        volume: Volume {
            shape: Shape::Ball { radius: WATER_LIGHTNING_RADIUS },
            memberships: PLAYER_ATTACK_COLLISION_GROUP,
            filters: ENEMY_COLLISION_GROUP,
            sensor: true,
            hitbox: true,
            lifetime: Some(WATER_LIGHTNING_DURATION),
            copies: 1,
            speed: 0,
            primitives: Primitives {
                hitstun: None,
                radial_impulse: None,
                radial_force: None,
                directed_force: None,
                damage_once: None,
                damage_periodic: None,
                status: Some(Effect::Shocked),
            },
        },
    }
}

/// A strip of vines ahead of the throw that stuns and damages whoever walks through.
pub fn water_earth() -> (e: EffectEntity)
    ensures
        e == effect_of(Recipe::WaterEarth),
{
    EffectEntity {
        lifetime: Some(WATER_EARTH_DURATION),
        motion: Motion::Still,
        volume: Volume {
            shape: Shape::Cuboid { half_width: WATER_EARTH_HALF_WIDTH, half_height: WATER_EARTH_HALF_HEIGHT, forward: WATER_EARTH_HALF_HEIGHT },
            memberships: PLAYER_ATTACK_COLLISION_GROUP,
            filters: ENEMY_COLLISION_GROUP,
            sensor: true,
            hitbox: true,
            lifetime: None,
            copies: 1,
            speed: 0,
            primitives: Primitives {
                hitstun: Some(WATER_EARTH_HITSTUN),
                radial_impulse: None,
                radial_force: None,
                directed_force: None,
                damage_once: None,
                damage_periodic: Some(Pulsed { amount: WATER_EARTH_DAMAGE, falloff: Falloff { ratio: UNIT, start: 0, end: 0 }, period: WATER_EARTH_TICK }),
                status: None,
            },
        },
    }
}

/// A storm cloud that drifts after targets and damages those under it.
pub fn wind_lightning() -> (e: EffectEntity)
    ensures
        e == effect_of(Recipe::WindLightning),
{
    EffectEntity {
        lifetime: Some(WIND_LIGHTNING_DURATION),
        motion: Motion::Homing {
                max_speed: WIND_LIGHTNING_CHASE_SPEED,
                radius: WIND_LIGHTNING_CHASE_RADIUS,
            },
        volume: Volume {
            shape: Shape::Ball { radius: WIND_LIGHTNING_RADIUS },
            memberships: PLAYER_ATTACK_COLLISION_GROUP,
            filters: ENEMY_COLLISION_GROUP,
            sensor: true,
            hitbox: true,
            lifetime: None,
            copies: 1,
            speed: 0,
            primitives: Primitives {
                hitstun: None,
                radial_impulse: None,
                radial_force: None,
                directed_force: None,
                damage_once: None,
                damage_periodic: Some(Pulsed { amount: WIND_LIGHTNING_DAMAGE, falloff: Falloff { ratio: UNIT, start: 0, end: 0 }, period: WIND_LIGHTNING_TICK }),
                status: None,
            },
        },
    }
}

/// A cloud of dust that blinds.
pub fn wind_earth() -> (e: EffectEntity)
    ensures
        e == effect_of(Recipe::WindEarth),
{
    EffectEntity {
        lifetime: Some(150_000_000),
        motion: Motion::Still,
        volume: Volume {
            shape: Shape::Ball { radius: WIND_EARTH_RADIUS },
            memberships: PLAYER_ATTACK_COLLISION_GROUP,
            filters: ENEMY_COLLISION_GROUP,
            sensor: true,
            hitbox: true,
            lifetime: Some(WIND_EARTH_DURATION),
            copies: 1,
            speed: 0,
            primitives: Primitives {
                hitstun: None,
                radial_impulse: None,
                radial_force: None,
                directed_force: None,
                damage_once: None,
                damage_periodic: None,
                status: Some(Effect::Blinded),
            },
        },
    }
}

/// Sparks that fly apart in all directions and stun whom they hit.
pub fn lightning_earth() -> (e: EffectEntity)
    ensures
        e == effect_of(Recipe::LightningEarth),
{
    EffectEntity {
        lifetime: None,
        motion: Motion::Still,
        volume: Volume {
            shape: Shape::Ball { radius: LIGHTNING_EARTH_RADIUS },
            memberships: PLAYER_ATTACK_COLLISION_GROUP,
            filters: ENEMY_COLLISION_GROUP | WALL_COLLISION_GROUP,
            sensor: false,
            hitbox: true,
            lifetime: Some(LIGHTNING_EARTH_DURATION),
            copies: LIGHTNING_EARTH_COUNT,
            speed: LIGHTNING_EARTH_SPEED,
            primitives: Primitives {
                hitstun: Some(LIGHTNING_EARTH_HITSTUN),
                radial_impulse: None,
                radial_force: None,
                directed_force: None,
                damage_once: Some(Attenuated { amount: LIGHTNING_EARTH_DAMAGE, falloff: Falloff { ratio: UNIT, start: 0, end: 0 } }),
                damage_periodic: None,
                status: None,
            },
        },
    }
}

/// Spawns the effect of a recipe.
pub fn brew(recipe: Recipe) -> (e: EffectEntity)
    ensures
        e == effect_of(recipe),
{
    match recipe {
        Recipe::FireFire => fire_fire(),
        Recipe::WaterWater => water_water(),
        Recipe::WindWind => wind_wind(),
        Recipe::LightningLightning => lightning_lightning(),
        Recipe::EarthEarth => earth_earth(),
        Recipe::FireWater => fire_water(),
        Recipe::FireWind => fire_wind(),
        Recipe::FireLightning => fire_lightning(),
        Recipe::FireEarth => fire_earth(),
        Recipe::WaterWind => water_wind(),
        Recipe::WaterLightning => water_lightning(),
        Recipe::WaterEarth => water_earth(),
        Recipe::WindLightning => wind_lightning(),
        Recipe::WindEarth => wind_earth(),
        Recipe::LightningEarth => lightning_earth(),
    }
}

/// The effect that a broken potion spawns.
pub fn potion_effect(potion: PotionType) -> (e: EffectEntity)
    ensures
        e == effect_of(recipe_of(potion.0, potion.1)),
{
    brew(dispatch(potion))
}

impl Primitives {
    /// The push of the directed force of an effect thrown along
    /// `direction`, a vector of length one.
    pub open spec fn push_along(strength: i64, direction: Vector) -> Vector {
        Vector {
            x: scaled(direction.x as int, strength as int) as i64,
            y: scaled(direction.y as int, strength as int) as i64,
        }
    }

    /// What the hazard built from these primitives holds, for an effect
    /// thrown along `direction`: each primitive with its numbers, and no
    /// target met yet.
    pub open spec fn hazard_view(self, direction: Vector) -> HazardView {
        HazardView {
            hitstun: match self.hitstun {
                Some(d) => Some(Hitstun(d)),
                None => None,
            },
            radial_impulse: match self.radial_impulse {
                Some(p) => Some(RadialImpulse { force: p.amount, falloff: p.falloff }),
                None => None,
            },
            directed_impulse: None,
            radial_force: match self.radial_force {
                Some(p) => Some(
                    RadialForceView { force: p.amount, falloff: p.falloff, hostages: Set::empty() },
                ),
                None => None,
            },
            directed_force: match self.directed_force {
                Some(s) => Some(
                    DirectedForceView {
                        force: Self::push_along(s, direction),
                        hostages: Set::empty(),
                    },
                ),
                None => None,
            },
            damage_once: match self.damage_once {
                Some(p) => Some(
                    DamageOnceView { amount: p.amount, falloff: p.falloff, hit: Set::empty() },
                ),
                None => None,
            },
            damage_periodic: match self.damage_periodic {
                Some(p) => Some(
                    DamagePeriodicView {
                        amount: p.amount,
                        falloff: p.falloff,
                        period: Timer::fresh(p.period, true),
                        hostages: Set::empty(),
                    },
                ),
                None => None,
            },
            status: match self.status {
                Some(e) => Some(StatusEffect(e)),
                None => None,
            },
        }
    }

    /// Builds the hazard of an effect thrown along `direction`.
    pub fn hazard(&self, direction: &Vector) -> (h: Hazard)
        ensures
            h@ == self.hazard_view(*direction),
    {
        Hazard {
            hitstun: match self.hitstun {
                Some(d) => Some(Hitstun(d)),
                None => None,
            },
            radial_impulse: match self.radial_impulse {
                Some(p) => Some(RadialImpulse::new(p.amount, p.falloff)),
                None => None,
            },
            directed_impulse: None,
            radial_force: match self.radial_force {
                Some(p) => Some(RadialForce::new(p.amount, p.falloff)),
                None => None,
            },
            directed_force: match self.directed_force {
                Some(s) => Some(
                    DirectedForce::new(
                        Vector { x: scale(direction.x, s), y: scale(direction.y, s) },
                    ),
                ),
                None => None,
            },
            damage_once: match self.damage_once {
                Some(p) => Some(DamageOnce::new(p.amount, p.falloff)),
                None => None,
            },
            damage_periodic: match self.damage_periodic {
                Some(p) => Some(DamagePeriodic::new(p.amount, p.falloff, p.period)),
                None => None,
            },
            status: match self.status {
                Some(e) => Some(StatusEffect(e)),
                None => None,
            },
        }
    }
}

/// A potion in flight.
#[derive(Clone, Copy, Debug, PartialEq, Eq, Structural)]
pub struct Potion {
    pub id: EntityId,
    pub potion_type: PotionType,
    pub position: Vector,
    pub velocity: Vector,
    /// The point the potion was aimed at.
    pub aim: Vector,
}

/// A potion that broke, with where it was and how it flew.
#[derive(Clone, Copy, Debug, PartialEq, Eq, Structural)]
pub struct PotionExplode {
    pub id: EntityId,
    pub potion_type: PotionType,
    pub position: Vector,
    pub velocity: Vector,
}

impl Potion {
    /// The report of this potion breaking.
    pub open spec fn broken(self) -> PotionExplode {
        PotionExplode {
            id: self.id,
            potion_type: self.potion_type,
            position: self.position,
            velocity: self.velocity,
        }
    }

    /// Whether the potion has reached or passed the point it was aimed at:
    /// it no longer flies toward it.
    pub open spec fn is_past_aim(self) -> bool {
        self.velocity.dot(self.aim.offset_from(self.position)) <= 0
    }

    /// Computes [`Potion::is_past_aim`].
    pub fn past_aim(&self) -> (b: bool)
        ensures
            b == self.is_past_aim(),
    {
        let ahead: Vector = self.aim.offset(&self.position);
        !self.velocity.dot_is_positive(&ahead)
    }
}

/// The first index from `from` on at which `potions` holds the entity `id`.
pub open spec fn potion_index_from(potions: Seq<Potion>, id: EntityId, from: int) -> Option<int>
    decreases potions.len() - from,
{
    if from < 0 || from >= potions.len() {
        None
    } else if potions[from].id == id {
        Some(from)
    } else {
        potion_index_from(potions, id, from + 1)
    }
}

/// The potion that a collision breaks: the first of the two entities that
/// is a potion, if the collision is one that starts.
pub open spec fn broken_by(potions: Seq<Potion>, event: CollisionEvent) -> Option<int> {
    match event {
        CollisionEvent::Started(e1, e2) => match potion_index_from(potions, e1, 0) {
            Some(i) => Some(i),
            None => potion_index_from(potions, e2, 0),
        },
        CollisionEvent::Stopped(_, _) => None,
    }
}

/// The potions that the collisions `events` break, in the order of the
/// events.
pub open spec fn broken_by_collisions(potions: Seq<Potion>, events: Seq<CollisionEvent>) -> Seq<
    PotionExplode,
>
    decreases events.len(),
{
    if events.len() == 0 {
        Seq::empty()
    } else {
        let before = broken_by_collisions(potions, events.drop_last());
        match broken_by(potions, events.last()) {
            Some(i) => before.push(potions[i].broken()),
            None => before,
        }
    }
}

/// Those of the first `n` potions that are past their aim, in order.
pub open spec fn broken_at_aim(potions: Seq<Potion>, n: int) -> Seq<PotionExplode>
    decreases n,
{
    if n <= 0 || n > potions.len() {
        Seq::empty()
    } else {
        let before = broken_at_aim(potions, n - 1);
        if potions[n - 1].is_past_aim() {
            before.push(potions[n - 1].broken())
        } else {
            before
        }
    }
}

/// Finds the first of `potions` with the identifier `id`.
pub fn find_potion(potions: &Vec<Potion>, id: EntityId) -> (r: Option<usize>)
    ensures
        match r {
            Some(i) => potion_index_from(potions@, id, 0) == Some(i as int) && i < potions.len(),
            None => potion_index_from(potions@, id, 0) is None,
        },
{
    let mut i: usize = 0;
    while i < potions.len()
        invariant
            i <= potions.len(),
            potion_index_from(potions@, id, 0) == potion_index_from(potions@, id, i as int),
        decreases potions.len() - i,
    {
        if potions[i].id == id {
            return Some(i);
        }
        i += 1;
    }
    None
}

/// Decides which potions break this tick.
///
/// A potion breaks when it collides with anything, and when it has reached
/// or passed the point it was aimed at. The collisions are reported first,
/// in the order of the events, then the potions past their aim, in the
/// order of `potions`. A potion to which both happen in the same tick is
/// reported twice.
pub fn potion_explode(potions: &Vec<Potion>, events: &Vec<CollisionEvent>) -> (out: Vec<
    PotionExplode,
>)
    ensures
        out@ == broken_by_collisions(potions@, events@) + broken_at_aim(
            potions@,
            potions.len() as int,
        ),
{
    let mut out: Vec<PotionExplode> = Vec::new();
    let mut i: usize = 0;
    while i < events.len()
        invariant
            i <= events.len(),
            out@ == broken_by_collisions(potions@, events@.take(i as int)),
        decreases events.len() - i,
    {
        proof {
            assert(events@.take(i + 1).drop_last() =~= events@.take(i as int));
        }
        match events[i] {
            CollisionEvent::Started(e1, e2) => {
                let found: Option<usize> = match find_potion(potions, e1) {
                    Some(k) => Some(k),
                    None => find_potion(potions, e2),
                };
                match found {
                    Some(k) => {
                        let p: Potion = potions[k];
                        out.push(
                            PotionExplode {
                                id: p.id,
                                potion_type: p.potion_type,
                                position: p.position,
                                velocity: p.velocity,
                            },
                        );
                    },
                    None => {},
                }
            },
            CollisionEvent::Stopped(_, _) => {},
        }
        i += 1;
    }
    proof {
        assert(events@.take(events.len() as int) =~= events@);
    }
    let ghost collided = out@;
    let mut j: usize = 0;
    while j < potions.len()
        invariant
            j <= potions.len(),
            out@ == collided + broken_at_aim(potions@, j as int),
        decreases potions.len() - j,
    {
        let p: Potion = potions[j];
        if p.past_aim() {
            out.push(
                PotionExplode {
                    id: p.id,
                    potion_type: p.potion_type,
                    position: p.position,
                    velocity: p.velocity,
                },
            );
        }
        j += 1;
    }
    out
}

/// Whether a potion is being brewed.
#[derive(Clone, Copy, Debug, PartialEq, Eq, Structural)]
pub enum PotionBrewState {
    Active,
    Inactive,
}

/// The potion that is being brewed: where it will be thrown, and the
/// elements chosen so far.
#[derive(Clone, Copy, Debug, PartialEq, Eq, Structural)]
pub struct PotionBrewData {
    /// The direction of the throw, a vector of length one.
    pub direction: Vector,
    /// The point the potion is aimed at.
    pub position: Vector,
    pub first: Option<Element>,
    pub second: Option<Element>,
}

/// Where the pointer is on the brewing wheel.
#[derive(Clone, Copy, Debug, PartialEq, Eq, Structural)]
pub enum Pointer {
    /// Beyond the wheel's rim.
    Outside,
    /// In the dead zone at the wheel's centre.
    Centre,
    /// On the sector of an element.
    Sector(Element),
}

/// The brewing as a whole.
#[derive(Clone, Copy, Debug, PartialEq, Eq, Structural)]
pub struct Brewing {
    pub state: PotionBrewState,
    pub data: PotionBrewData,
}

impl Brewing {
    /// Whether a click on the sector of `element` adds the element: the
    /// brewing is active and an essence of the element is carried.
    pub open spec fn takes(self, pointer: Pointer, carried: spec_fn(Element) -> u32) -> bool {
        self.state == PotionBrewState::Active && match pointer {
            Pointer::Sector(e) => carried(e) != 0,
            _ => false,
        }
    }

    /// The brewing after a click.
    ///
    /// A click beyond the rim gives the brewing up. A click on a sector
    /// whose element is carried adds that element: the first one is kept,
    /// the second one completes the potion and ends the brewing. Any other
    /// click changes nothing.
    pub open spec fn clicked(self, pointer: Pointer, carried: spec_fn(Element) -> u32) -> Brewing {
        if self.state != PotionBrewState::Active {
            self
        } else {
            match pointer {
                Pointer::Outside => Brewing { state: PotionBrewState::Inactive, ..self },
                Pointer::Centre => self,
                Pointer::Sector(e) => if carried(e) == 0 {
                    self
                } else if self.data.first is None {
                    Brewing { data: PotionBrewData { first: Some(e), ..self.data }, ..self }
                } else {
                    Brewing {
                        state: PotionBrewState::Inactive,
                        data: PotionBrewData { second: Some(e), ..self.data },
                    }
                },
            }
        }
    }

    /// The potion that a click completes.
    pub open spec fn thrown(self, pointer: Pointer, carried: spec_fn(Element) -> u32) -> Option<
        ThrowPotion,
    > {
        match (pointer, self.data.first) {
            (Pointer::Sector(e), Some(first)) => if self.takes(pointer, carried) {
                Some(ThrowPotion(first, e))
            } else {
                None
            },
            _ => None,
        }
    }
}

/// Starts the brewing of a potion that will be thrown along `direction`
/// at the point `position`.
pub fn init_throw(
    state: &mut PotionBrewState,
    data: &mut PotionBrewData,
    direction: Vector,
    position: Vector,
)
    ensures
        *final(state) == PotionBrewState::Active,
        *final(data) == (PotionBrewData { direction, position, ..*old(data) }),
{
    data.direction = direction;
    data.position = position;
    *state = PotionBrewState::Active;
}

/// Handles a click on the brewing wheel.
///
/// No second element may have been chosen yet: a completed potion ends
/// the brewing, and [`manage_brew_state`] empties it.
pub fn update_brew(
    state: &mut PotionBrewState,
    data: &mut PotionBrewData,
    counts: &mut EssenceCounts,
    pointer: Pointer,
) -> (thrown: Option<ThrowPotion>)
    requires
        old(data).second is None,
    ensures
        (Brewing { state: *final(state), data: *final(data) }) == (Brewing {
            state: *old(state),
            data: *old(data),
        }).clicked(pointer, |e: Element| old(counts).counted(e)),
        thrown == (Brewing { state: *old(state), data: *old(data) }).thrown(
            pointer,
            |e: Element| old(counts).counted(e),
        ),
        forall|e: Element|
            #[trigger] final(counts).counted(e) == (if (Brewing {
                state: *old(state),
                data: *old(data),
            }).takes(pointer, |x: Element| old(counts).counted(x)) && pointer == Pointer::Sector(e) {
                (old(counts).counted(e) - 1) as u32
            } else {
                old(counts).counted(e)
            }),
{
    match *state {
        PotionBrewState::Inactive => {
            return None;
        },
        PotionBrewState::Active => {},
    }
    match pointer {
        Pointer::Outside => {
            *state = PotionBrewState::Inactive;
            None
        },
        Pointer::Centre => None,
        Pointer::Sector(element) => {
            if counts.spend(element) {
                match data.first {
                    None => {
                        data.first = Some(element);
                        None
                    },
                    Some(first) => {
                        data.second = Some(element);
                        *state = PotionBrewState::Inactive;
                        Some(ThrowPotion(first, element))
                    },
                }
            } else {
                None
            }
        },
    }
}

/// Follows a change of the brewing state.
///
/// When brewing starts, time slows down. When it ends, time runs at full
/// speed again, an element that was chosen without completing a potion is
/// given back, and the brewing is emptied. Without a change nothing
/// happens.
pub fn manage_brew_state(
    changed: bool,
    state: PotionBrewState,
    data: &mut PotionBrewData,
    time_scale: &mut TimeScale,
    counts: &mut EssenceCounts,
)
    ensures
        !changed ==> *final(data) == *old(data) && *final(time_scale) == *old(time_scale)
            && final(counts)@ == old(counts)@,
        changed && state == PotionBrewState::Active ==> *final(data) == *old(data)
            && final(time_scale).0 == BREW_TIME_SCALE && final(counts)@ == old(counts)@,
        changed && state == PotionBrewState::Inactive ==> {
            &&& *final(data) == (PotionBrewData { first: None, second: None, ..*old(data) })
            &&& final(time_scale).0 == UNIT
            &&& old(data).second is None && old(data).first is Some ==> final(counts).counted(
                old(data).first->0,
            ) == (if old(counts).counted(old(data).first->0) == u32::MAX {
                u32::MAX
            } else {
                (old(counts).counted(old(data).first->0) + 1) as u32
            })
            &&& !(old(data).second is None && old(data).first is Some) ==> final(counts)@
                == old(counts)@
        },
{
    if !changed {
        return ;
    }
    match state {
        PotionBrewState::Active => {
            time_scale.0 = BREW_TIME_SCALE;
        },
        PotionBrewState::Inactive => {
            time_scale.0 = UNIT as u32;
            if data.second.is_none() {
                match data.first {
                    Some(element) => {
                        counts.refund(element);
                    },
                    None => {},
                }
            }
            data.first = None;
            data.second = None;
        },
    }
}

/// The velocity with which a potion leaves the hand, thrown along
/// `direction`, a vector of length one.
pub fn throw_potion(throw: ThrowPotion, data: &PotionBrewData, origin: Vector, id: EntityId) -> (p:
    Potion)
    ensures
        p == (Potion {
            id,
            potion_type: PotionType(throw.0, throw.1),
            position: origin,
            velocity: Primitives::push_along(POTION_THROW_SPEED, data.direction),
            aim: data.position,
        }),
{
    Potion {
        id,
        potion_type: PotionType(throw.0, throw.1),
        position: origin,
        velocity: Vector {
            x: scale(data.direction.x, POTION_THROW_SPEED),
            y: scale(data.direction.y, POTION_THROW_SPEED),
        },
        aim: data.position,
    }
}

} // verus!
