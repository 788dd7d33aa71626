//! The numbers of the game: collision groups, animation frames, and the
//! statistics of archetypes and effects.
//!
//! Scalars are in thousandths, durations in nanoseconds.

use vstd::prelude::*;

verus! {

pub const PLAYER_COLLISION_GROUP: u32 = 1;
pub const ENEMY_COLLISION_GROUP: u32 = 2;
pub const WALL_COLLISION_GROUP: u32 = 4;
pub const PLAYER_ATTACK_COLLISION_GROUP: u32 = 8;
pub const ENEMY_ATTACK_COLLISION_GROUP: u32 = 16;
pub const ESSENCE_COLLISION_GROUP: u32 = 32;

pub const PLAYER_SPEED: i64 = 200_000;
pub const PLAYER_KICK_RANGE: i64 = 16_000;
pub const PLAYER_KICK_FORCE: i64 = 100_000;
pub const PLAYER_KICK_HITSTUN_SECS: u64 = 1_000_000_000;

pub const PLAYER_IDLE_ANIM_OFFSET: usize = 0;
pub const PLAYER_WALK_ANIM_OFFSET: usize = 4;
pub const PLAYER_WALK_ANIM_FRAMES: usize = 2;

pub const POTION_THROW_SPEED: i64 = 400_000;

pub const GRID_SIZE: i32 = 16;

pub const ELEMENTAL_IDLE_ANIM_OFFSET: usize = 0;
pub const ELEMENTAL_IDLE_ANIM_FRAMES: usize = 3;

pub const ELEMENTAL_WALK_ANIM_OFFSET: usize = 0;
pub const ELEMENTAL_WALK_ANIM_FRAMES: usize = 3;

pub const ELEMENTAL_ATTACK_ANIM_OFFSET: usize = 3;
pub const ELEMENTAL_ATTACK_ANIM_FRAMES: usize = 7;
pub const ELEMENTAL_ATTACK_EMIT_FRAME: usize = 7;

pub const FIRE_ELEMENTAL_SPEED: i64 = 50_000;
pub const FIRE_ELEMENTAL_HEALTH: i64 = 100_000;
pub const FIRE_ELEMENTAL_AGGRO_RANGE: i64 = 100_000;
pub const FIRE_ELEMENTAL_FORGET_RANGE: i64 = 200_000;
pub const FIRE_ELEMENTAL_ATTACK_RANGE: i64 = 50_000;
pub const FIRE_ELEMENTAL_ATTACK_PERIOD: u64 = 700_000_000;
pub const FIRE_ELEMENTAL_ANIM_PERIOD: u64 = 100_000_000;
pub const FIRE_ELEMENTAL_ATTACK_VELOCITY: i64 = 100_000;

pub const WATER_ELEMENTAL_SPEED: i64 = 50_000;
pub const WATER_ELEMENTAL_HEALTH: i64 = 100_000;
pub const WATER_ELEMENTAL_AGGRO_RANGE: i64 = 100_000;
pub const WATER_ELEMENTAL_FORGET_RANGE: i64 = 200_000;
pub const WATER_ELEMENTAL_ATTACK_RANGE: i64 = 50_000;
pub const WATER_ELEMENTAL_ATTACK_PERIOD: u64 = 700_000_000;
pub const WATER_ELEMENTAL_ANIM_PERIOD: u64 = 100_000_000;
pub const WATER_ELEMENTAL_ATTACK_VELOCITY: i64 = 100_000;

pub const WIND_ELEMENTAL_SPEED: i64 = 50_000;
pub const WIND_ELEMENTAL_HEALTH: i64 = 100_000;
pub const WIND_ELEMENTAL_AGGRO_RANGE: i64 = 100_000;
pub const WIND_ELEMENTAL_FORGET_RANGE: i64 = 200_000;
pub const WIND_ELEMENTAL_ATTACK_RANGE: i64 = 50_000;
pub const WIND_ELEMENTAL_ATTACK_PERIOD: u64 = 700_000_000;
pub const WIND_ELEMENTAL_ANIM_PERIOD: u64 = 100_000_000;
pub const WIND_ELEMENTAL_ATTACK_VELOCITY: i64 = 100_000;

pub const LIGHTNING_ELEMENTAL_SPEED: i64 = 50_000;
pub const LIGHTNING_ELEMENTAL_HEALTH: i64 = 100_000;
pub const LIGHTNING_ELEMENTAL_AGGRO_RANGE: i64 = 100_000;
pub const LIGHTNING_ELEMENTAL_FORGET_RANGE: i64 = 200_000;
pub const LIGHTNING_ELEMENTAL_ATTACK_RANGE: i64 = 50_000;
pub const LIGHTNING_ELEMENTAL_ATTACK_PERIOD: u64 = 700_000_000;
pub const LIGHTNING_ELEMENTAL_ANIM_PERIOD: u64 = 100_000_000;
pub const LIGHTNING_ELEMENTAL_ATTACK_VELOCITY: i64 = 100_000;

pub const EARTH_ELEMENTAL_SPEED: i64 = 50_000;
pub const EARTH_ELEMENTAL_HEALTH: i64 = 100_000;
pub const EARTH_ELEMENTAL_AGGRO_RANGE: i64 = 100_000;
pub const EARTH_ELEMENTAL_FORGET_RANGE: i64 = 200_000;
pub const EARTH_ELEMENTAL_ATTACK_RANGE: i64 = 50_000;
pub const EARTH_ELEMENTAL_ATTACK_PERIOD: u64 = 700_000_000;
pub const EARTH_ELEMENTAL_ANIM_PERIOD: u64 = 100_000_000;
pub const EARTH_ELEMENTAL_ATTACK_VELOCITY: i64 = 100_000;

pub const FIRE_FIRE_RADIUS: i64 = 32_000;
pub const FIRE_FIRE_IMPULSE: i64 = 25_000;
pub const FIRE_FIRE_DAMAGE: i64 = 25_000;
pub const FIRE_FIRE_HITSTUN: u64 = 500_000_000;

pub const WATER_WATER_SPEED: i64 = 100_000;
pub const WATER_WATER_DURATION: u64 = 600_000_000;
pub const WATER_WATER_HALF_WIDTH: i64 = 32_000;
pub const WATER_WATER_HALF_HEIGHT: i64 = 8_000;
pub const WATER_WATER_FORCE: i64 = 15_000;

pub const WIND_WIND_DURATION: u64 = 2_000_000_000;
pub const WIND_WIND_RADIUS: i64 = 32_000;
pub const WIND_WIND_FORCE: i64 = 5_000;
/// The force of the whirl as it acts: toward the centre.
pub const WIND_WIND_PULL: i64 = -5_000;
pub const WIND_WIND_MAX_FALLOFF: i64 = 500;
pub const WIND_WIND_FALLOFF_START: i64 = 5_000;
pub const WIND_WIND_FALLOFF_END: i64 = 32_000;

pub const LIGHTNING_LIGHTNING_RADIUS: i64 = 2_000;
pub const LIGHTNING_LIGHTNING_HITSTUN: u64 = 3_000_000_000;
pub const LIGHTNING_LIGHTNING_DAMAGE: i64 = 250_000;

pub const EARTH_EARTH_RADIUS: i64 = 16_000;
pub const EARTH_EARTH_DURATION: u64 = 2_000_000_000;

pub const FIRE_WATER_DURATION: u64 = 2_000_000_000;
pub const FIRE_WATER_RADIUS: i64 = 32_000;
pub const FIRE_WATER_FORCE: i64 = 5_000;
pub const FIRE_WATER_MAX_FALLOFF: i64 = 500;
pub const FIRE_WATER_FALLOFF_START: i64 = 5_000;
pub const FIRE_WATER_FALLOFF_END: i64 = 32_000;

pub const FIRE_WIND_RADIUS: i64 = 48_000;
pub const FIRE_WIND_DURATION: u64 = 100_000_000;

pub const FIRE_LIGHTNING_RADIUS: i64 = 2_000;
pub const FIRE_LIGHTNING_DURATION: u64 = 100_000_000;

pub const FIRE_EARTH_RADIUS: i64 = 48_000;
pub const FIRE_EARTH_DAMAGE: i64 = 5_000;
pub const FIRE_EARTH_TICK: u64 = 100_000_000;
pub const FIRE_EARTH_DURATION: u64 = 1_500_000_000;

pub const WATER_WIND_CHASE_SPEED: i64 = 10_000;
pub const WATER_WIND_CHASE_RADIUS: i64 = 128_000;
pub const WATER_WIND_DURATION: u64 = 3_000_000_000;
pub const WATER_WIND_RADIUS: i64 = 48_000;

pub const WATER_LIGHTNING_RADIUS: i64 = 48_000;
pub const WATER_LIGHTNING_DURATION: u64 = 100_000_000;

pub const WATER_EARTH_HALF_WIDTH: i64 = 16_000;
pub const WATER_EARTH_HALF_HEIGHT: i64 = 48_000;
pub const WATER_EARTH_HITSTUN: u64 = 500_000_000;
pub const WATER_EARTH_DAMAGE: i64 = 5_000;
pub const WATER_EARTH_TICK: u64 = 100_000_000;
pub const WATER_EARTH_DURATION: u64 = 1_500_000_000;

pub const WIND_LIGHTNING_CHASE_SPEED: i64 = 10_000;
pub const WIND_LIGHTNING_CHASE_RADIUS: i64 = 128_000;
pub const WIND_LIGHTNING_DURATION: u64 = 3_000_000_000;
pub const WIND_LIGHTNING_RADIUS: i64 = 48_000;

pub const WIND_EARTH_RADIUS: i64 = 48_000;
pub const WIND_EARTH_DURATION: u64 = 100_000_000;

pub const LIGHTNING_EARTH_COUNT: u32 = 7;
pub const LIGHTNING_EARTH_RADIUS: i64 = 2_000;
pub const LIGHTNING_EARTH_SPEED: i64 = 600_000;
pub const LIGHTNING_EARTH_HITSTUN: u64 = 1_500_000_000;
pub const LIGHTNING_EARTH_DAMAGE: i64 = 0;
pub const LIGHTNING_EARTH_DURATION: u64 = 300_000_000;

pub const ELEMENTAL_DEATH_ANIM_OFFSET: usize = 10;
pub const ELEMENTAL_DEATH_ANIM_FRAMES: usize = 4;

pub const FIRE_ELEMENTAL_ATTACK_RADIUS: i64 = 4_000;
pub const FIRE_ELEMENTAL_ATTACK_DAMAGE: i64 = 10_000;
pub const WATER_ELEMENTAL_ATTACK_DAMAGE: i64 = 10_000;
pub const WIND_ELEMENTAL_ATTACK_DAMAGE: i64 = 10_000;
pub const LIGHTNING_ELEMENTAL_ATTACK_DAMAGE: i64 = 5_000;
pub const EARTH_ELEMENTAL_ATTACK_DAMAGE: i64 = 10_000;

pub const LIGHTNING_LIGHTNING_MAX_FALLOFF: i64 = 500;
pub const LIGHTNING_LIGHTNING_FALLOFF_START: i64 = 0;
pub const LIGHTNING_LIGHTNING_FALLOFF_END: i64 = 2_000;

pub const WIND_LIGHTNING_DAMAGE: i64 = 5_000;
pub const WIND_LIGHTNING_TICK: u64 = 100_000_000;

/// The share of its ranges that a blinded agent keeps.
pub const BLINDED_RANGE_FACTOR: i64 = 330;
/// The share of its speed that a slowed agent keeps.
pub const SLOWED_SPEED_FACTOR: i64 = 700;

/// How long a condition lasts.
pub const STATUS_DURATION: u64 = 5_000_000_000;
/// The period of the conditions that act repeatedly.
pub const STATUS_TICK: u64 = 500_000_000;
/// The health change of one tick of burning.
pub const ON_FIRE_DAMAGE: i64 = -10_000;
/// The damage of one discharge of a shocked agent.
pub const SHOCKED_DAMAGE: i64 = 10_000;
/// The damage of a delayed explosion.
pub const DELAYED_EXPLOSION_DAMAGE: i64 = 60_000;
/// The radius of the hazards that conditions spawn.
pub const STATUS_HAZARD_RADIUS: i64 = 24_000;
/// How long the hazards that conditions spawn last.
pub const STATUS_HAZARD_LIFETIME: u64 = 50_000_000;

/// Hit points of the player.
pub const PLAYER_HEALTH: i64 = 250_000;
/// The health change of a kick.
pub const PLAYER_KICK_DAMAGE: i64 = -10_000;
/// The most essences of one element that can be carried.
pub const ESSENCE_LIMIT: u32 = 3;
/// The health change of collecting an essence.
pub const ESSENCE_HEAL: i64 = 10_000;
/// The time scale while a potion is being brewed.
pub const BREW_TIME_SCALE: u32 = 10;

} // verus!
