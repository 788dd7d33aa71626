//! Hostile agents: what they perceive, how they chase, when they attack.
//!
//! An agent is idle, chasing or attacking. Once per tick it looks at the
//! target and may change state; a chasing agent then decides where to
//! walk, and an attacking agent releases its attack on one frame of its
//! animation.

use vstd::prelude::*;
use crate::consts::BLINDED_RANGE_FACTOR;
use crate::consts::EARTH_ELEMENTAL_AGGRO_RANGE;
use crate::consts::EARTH_ELEMENTAL_ANIM_PERIOD;
use crate::consts::EARTH_ELEMENTAL_ATTACK_PERIOD;
use crate::consts::EARTH_ELEMENTAL_ATTACK_RANGE;
use crate::consts::EARTH_ELEMENTAL_FORGET_RANGE;
use crate::consts::EARTH_ELEMENTAL_HEALTH;
use crate::consts::EARTH_ELEMENTAL_SPEED;
use crate::consts::ELEMENTAL_ATTACK_ANIM_FRAMES;
use crate::consts::ELEMENTAL_ATTACK_ANIM_OFFSET;
use crate::consts::ELEMENTAL_DEATH_ANIM_FRAMES;
use crate::consts::ELEMENTAL_DEATH_ANIM_OFFSET;
use crate::consts::ELEMENTAL_IDLE_ANIM_FRAMES;
use crate::consts::ELEMENTAL_IDLE_ANIM_OFFSET;
use crate::consts::ELEMENTAL_WALK_ANIM_FRAMES;
use crate::consts::ELEMENTAL_WALK_ANIM_OFFSET;
use crate::consts::FIRE_ELEMENTAL_AGGRO_RANGE;
use crate::consts::FIRE_ELEMENTAL_ANIM_PERIOD;
use crate::consts::FIRE_ELEMENTAL_ATTACK_PERIOD;
use crate::consts::FIRE_ELEMENTAL_ATTACK_RANGE;
use crate::consts::FIRE_ELEMENTAL_FORGET_RANGE;
use crate::consts::FIRE_ELEMENTAL_HEALTH;
use crate::consts::FIRE_ELEMENTAL_SPEED;
use crate::consts::GRID_SIZE;
use crate::consts::LIGHTNING_ELEMENTAL_AGGRO_RANGE;
use crate::consts::LIGHTNING_ELEMENTAL_ANIM_PERIOD;
use crate::consts::LIGHTNING_ELEMENTAL_ATTACK_PERIOD;
use crate::consts::LIGHTNING_ELEMENTAL_ATTACK_RANGE;
use crate::consts::LIGHTNING_ELEMENTAL_FORGET_RANGE;
use crate::consts::LIGHTNING_ELEMENTAL_HEALTH;
use crate::consts::LIGHTNING_ELEMENTAL_SPEED;
use crate::consts::SLOWED_SPEED_FACTOR;
use crate::consts::WATER_ELEMENTAL_AGGRO_RANGE;
use crate::consts::WATER_ELEMENTAL_ANIM_PERIOD;
use crate::consts::WATER_ELEMENTAL_ATTACK_PERIOD;
use crate::consts::WATER_ELEMENTAL_ATTACK_RANGE;
use crate::consts::WATER_ELEMENTAL_FORGET_RANGE;
use crate::consts::WATER_ELEMENTAL_HEALTH;
use crate::consts::WATER_ELEMENTAL_SPEED;
use crate::consts::WIND_ELEMENTAL_AGGRO_RANGE;
use crate::consts::WIND_ELEMENTAL_ANIM_PERIOD;
use crate::consts::WIND_ELEMENTAL_ATTACK_PERIOD;
use crate::consts::WIND_ELEMENTAL_ATTACK_RANGE;
use crate::consts::WIND_ELEMENTAL_FORGET_RANGE;
use crate::consts::WIND_ELEMENTAL_HEALTH;
use crate::consts::WIND_ELEMENTAL_SPEED;
use crate::consts::EARTH_ELEMENTAL_ATTACK_DAMAGE;
use crate::consts::EARTH_ELEMENTAL_ATTACK_VELOCITY;
use crate::consts::ELEMENTAL_ATTACK_EMIT_FRAME;
use crate::consts::FIRE_ELEMENTAL_ATTACK_DAMAGE;
use crate::consts::FIRE_ELEMENTAL_ATTACK_RADIUS;
use crate::consts::FIRE_ELEMENTAL_ATTACK_VELOCITY;
use crate::consts::LIGHTNING_ELEMENTAL_ATTACK_DAMAGE;
use crate::consts::LIGHTNING_ELEMENTAL_ATTACK_VELOCITY;
use crate::consts::PLAYER_COLLISION_GROUP;
use crate::consts::WALL_COLLISION_GROUP;
use crate::consts::WATER_ELEMENTAL_ATTACK_DAMAGE;
use crate::consts::WATER_ELEMENTAL_ATTACK_VELOCITY;
use crate::consts::WIND_ELEMENTAL_ATTACK_DAMAGE;
use crate::consts::WIND_ELEMENTAL_ATTACK_VELOCITY;
use crate::falloff::Falloff;
use crate::hitbox::DamageOnce;
use crate::hitbox::DamageOnceView;
use crate::hitbox::DamagePeriodic;
use crate::hitbox::DamagePeriodicView;
use crate::hitbox::Hazard;
use crate::hitbox::HazardView;
use crate::geometry::Vector;
use crate::health::Health;
use crate::hitstun::HitstunTimer;
use crate::level::Cell;
use crate::level::WalkableTiles;
use crate::pathing::astar_route;
use crate::pathing::find_path;
use crate::pathing::route_view;
use crate::timer::Timer;
use crate::units::scale;
use crate::units::scaled;
use crate::units::UNIT;
use crate::utils::TimeScale;
use crate::Element;

verus! {

/// Whether the running attack has already released its projectile.
#[derive(Clone, Copy, Debug, PartialEq, Eq, Structural)]
pub struct Attacked(pub bool);

/// The one-shot cooldown between two attacks.
#[derive(Clone, Copy, Debug, PartialEq, Eq, Structural)]
pub struct AttackTimer(pub Timer);

/// The repeating timer that advances the agent's animation.
#[derive(Clone, Copy, Debug, PartialEq, Eq, Structural)]
pub struct AnimationTimer(pub Timer);

/// What an archetype can do. Fixed when the agent is created.
#[derive(Clone, Copy, Debug, PartialEq, Eq, Structural)]
pub struct EnemyStats {
    pub speed: i64,
    pub aggro_range: i64,
    pub forget_range: i64,
    pub attack_range: i64,
}

/// What the agent is doing.
#[derive(Clone, Copy, Debug, PartialEq, Eq, Structural)]
pub enum EnemyState {
    Idle,
    Chase,
    Attack,
}

/// The numbers of one archetype.
#[derive(Clone, Copy, Debug, PartialEq, Eq, Structural)]
pub struct Archetype {
    pub stats: EnemyStats,
    pub health: i64,
    pub attack_period: u64,
    pub anim_period: u64,
}

/// The table of archetypes, one for each element.
pub open spec fn archetype_of(element: Element) -> Archetype {
    match element {
        Element::Fire => Archetype {
            stats: EnemyStats {
                speed: FIRE_ELEMENTAL_SPEED,
                aggro_range: FIRE_ELEMENTAL_AGGRO_RANGE,
                forget_range: FIRE_ELEMENTAL_FORGET_RANGE,
                attack_range: FIRE_ELEMENTAL_ATTACK_RANGE,
            },
            health: FIRE_ELEMENTAL_HEALTH,
            attack_period: FIRE_ELEMENTAL_ATTACK_PERIOD,
            anim_period: FIRE_ELEMENTAL_ANIM_PERIOD,
        },
        Element::Water => Archetype {
            stats: EnemyStats {
                speed: WATER_ELEMENTAL_SPEED,
                aggro_range: WATER_ELEMENTAL_AGGRO_RANGE,
                forget_range: WATER_ELEMENTAL_FORGET_RANGE,
                attack_range: WATER_ELEMENTAL_ATTACK_RANGE,
            },
            health: WATER_ELEMENTAL_HEALTH,
            attack_period: WATER_ELEMENTAL_ATTACK_PERIOD,
            anim_period: WATER_ELEMENTAL_ANIM_PERIOD,
        },
        Element::Wind => Archetype {
            stats: EnemyStats {
                speed: WIND_ELEMENTAL_SPEED,
                aggro_range: WIND_ELEMENTAL_AGGRO_RANGE,
                forget_range: WIND_ELEMENTAL_FORGET_RANGE,
                attack_range: WIND_ELEMENTAL_ATTACK_RANGE,
            },
            health: WIND_ELEMENTAL_HEALTH,
            attack_period: WIND_ELEMENTAL_ATTACK_PERIOD,
            anim_period: WIND_ELEMENTAL_ANIM_PERIOD,
        },
        Element::Lightning => Archetype {
            stats: EnemyStats {
                speed: LIGHTNING_ELEMENTAL_SPEED,
                aggro_range: LIGHTNING_ELEMENTAL_AGGRO_RANGE,
                forget_range: LIGHTNING_ELEMENTAL_FORGET_RANGE,
                attack_range: LIGHTNING_ELEMENTAL_ATTACK_RANGE,
            },
            health: LIGHTNING_ELEMENTAL_HEALTH,
            attack_period: LIGHTNING_ELEMENTAL_ATTACK_PERIOD,
            anim_period: LIGHTNING_ELEMENTAL_ANIM_PERIOD,
        },
        Element::Earth => Archetype {
            stats: EnemyStats {
                speed: EARTH_ELEMENTAL_SPEED,
                aggro_range: EARTH_ELEMENTAL_AGGRO_RANGE,
                forget_range: EARTH_ELEMENTAL_FORGET_RANGE,
                attack_range: EARTH_ELEMENTAL_ATTACK_RANGE,
            },
            health: EARTH_ELEMENTAL_HEALTH,
            attack_period: EARTH_ELEMENTAL_ATTACK_PERIOD,
            anim_period: EARTH_ELEMENTAL_ANIM_PERIOD,
        },
    }
}

/// Looks an archetype up in the table.
pub fn archetype(element: Element) -> (a: Archetype)
    ensures
        a == archetype_of(element),
{
    match element {
        Element::Fire => Archetype {
            stats: EnemyStats {
                speed: FIRE_ELEMENTAL_SPEED,
                aggro_range: FIRE_ELEMENTAL_AGGRO_RANGE,
                forget_range: FIRE_ELEMENTAL_FORGET_RANGE,
                attack_range: FIRE_ELEMENTAL_ATTACK_RANGE,
            },
            health: FIRE_ELEMENTAL_HEALTH,
            attack_period: FIRE_ELEMENTAL_ATTACK_PERIOD,
            anim_period: FIRE_ELEMENTAL_ANIM_PERIOD,
        },
        Element::Water => Archetype {
            stats: EnemyStats {
                speed: WATER_ELEMENTAL_SPEED,
                aggro_range: WATER_ELEMENTAL_AGGRO_RANGE,
                forget_range: WATER_ELEMENTAL_FORGET_RANGE,
                attack_range: WATER_ELEMENTAL_ATTACK_RANGE,
            },
            health: WATER_ELEMENTAL_HEALTH,
            attack_period: WATER_ELEMENTAL_ATTACK_PERIOD,
            anim_period: WATER_ELEMENTAL_ANIM_PERIOD,
        },
        Element::Wind => Archetype {
            stats: EnemyStats {
                speed: WIND_ELEMENTAL_SPEED,
                aggro_range: WIND_ELEMENTAL_AGGRO_RANGE,
                forget_range: WIND_ELEMENTAL_FORGET_RANGE,
                attack_range: WIND_ELEMENTAL_ATTACK_RANGE,
            },
            health: WIND_ELEMENTAL_HEALTH,
            attack_period: WIND_ELEMENTAL_ATTACK_PERIOD,
            anim_period: WIND_ELEMENTAL_ANIM_PERIOD,
        },
        Element::Lightning => Archetype {
            stats: EnemyStats {
                speed: LIGHTNING_ELEMENTAL_SPEED,
                aggro_range: LIGHTNING_ELEMENTAL_AGGRO_RANGE,
                forget_range: LIGHTNING_ELEMENTAL_FORGET_RANGE,
                attack_range: LIGHTNING_ELEMENTAL_ATTACK_RANGE,
            },
            health: LIGHTNING_ELEMENTAL_HEALTH,
            attack_period: LIGHTNING_ELEMENTAL_ATTACK_PERIOD,
            anim_period: LIGHTNING_ELEMENTAL_ANIM_PERIOD,
        },
        Element::Earth => Archetype {
            stats: EnemyStats {
                speed: EARTH_ELEMENTAL_SPEED,
                aggro_range: EARTH_ELEMENTAL_AGGRO_RANGE,
                forget_range: EARTH_ELEMENTAL_FORGET_RANGE,
                attack_range: EARTH_ELEMENTAL_ATTACK_RANGE,
            },
            health: EARTH_ELEMENTAL_HEALTH,
            attack_period: EARTH_ELEMENTAL_ATTACK_PERIOD,
            anim_period: EARTH_ELEMENTAL_ANIM_PERIOD,
        },
    }
}

/// The simulation state with which an agent enters a level.
#[derive(Clone, Copy, Debug, PartialEq, Eq, Structural)]
pub struct ElementalBundle {
    pub element: Element,
    pub state: EnemyState,
    pub stats: EnemyStats,
    pub health: Health,
    pub hitstun: HitstunTimer,
    pub anim: AnimationTimer,
    pub attack_timer: AttackTimer,
    pub attacked: Attacked,
}

impl ElementalBundle {
    /// A new agent of the archetype of `element`: idle, at full health, not
    /// stunned, with its timers at their start.
    pub open spec fn spawned(element: Element) -> ElementalBundle {
        let a = archetype_of(element);
        ElementalBundle {
            element,
            state: EnemyState::Idle,
            stats: a.stats,
            health: Health { current: a.health, max: a.health },
            hitstun: HitstunTimer(Timer::fresh(0, false)),
            anim: AnimationTimer(Timer::fresh(a.anim_period, true)),
            attack_timer: AttackTimer(Timer::fresh(a.attack_period, false)),
            attacked: Attacked(false),
        }
    }

    /// Creates an agent of the archetype of `element`.
    pub fn bundle_entity(element: Element) -> (b: ElementalBundle)
        ensures
            b == ElementalBundle::spawned(element),
    {
        let a = archetype(element);
        ElementalBundle {
            element,
            state: EnemyState::Idle,
            stats: a.stats,
            health: Health::new(a.health),
            hitstun: HitstunTimer(Timer::new(0, false)),
            anim: AnimationTimer(Timer::new(a.anim_period, true)),
            attack_timer: AttackTimer(Timer::new(a.attack_period, false)),
            attacked: Attacked(false),
        }
    }
}

/// What an agent learns about the target in one tick.
#[derive(Clone, Copy, Debug, PartialEq, Eq, Structural)]
pub struct Percept {
    /// Straight-line distance to the target.
    pub distance: i64,
    /// Whether a ray from the agent toward the target, cast against walls
    /// and the target alone, hits the target first.
    pub sees_target: bool,
    /// Whether the agent is blinded.
    pub blinded: bool,
    /// The frame that the agent's sprite shows.
    pub sprite_index: usize,
}

/// The share of a range that counts for an agent.
pub open spec fn range_factor(blinded: bool) -> int {
    if blinded {
        BLINDED_RANGE_FACTOR as int
    } else {
        UNIT as int
    }
}

/// Whether `distance` is greater than `range`, shortened if blinded.
pub open spec fn is_beyond(distance: i64, range: i64, blinded: bool) -> bool {
    distance as int * UNIT as int > range as int * range_factor(blinded)
}

/// Whether `distance` is less than `range`, shortened if blinded.
pub open spec fn is_within(distance: i64, range: i64, blinded: bool) -> bool {
    (distance as int * UNIT as int) < range as int * range_factor(blinded)
}

/// The last frame of the attack animation.
pub open spec fn last_attack_frame() -> int {
    ELEMENTAL_ATTACK_ANIM_OFFSET + ELEMENTAL_ATTACK_ANIM_FRAMES - 1
}

/// The part of an agent that perception changes.
#[derive(Clone, Copy, Debug, PartialEq, Eq, Structural)]
pub struct Mind {
    pub state: EnemyState,
    pub attack_timer: AttackTimer,
    pub attacked: Attacked,
}

impl Mind {
    /// Whether a chasing agent starts an attack: the cooldown is over, the
    /// target is in sight and within attack range.
    pub open spec fn strikes(self, stats: EnemyStats, percept: Percept) -> bool {
        &&& self.attack_timer.0.finished
        &&& percept.sees_target
        &&& is_within(percept.distance, stats.attack_range, percept.blinded)
    }

    /// The mind after the agent looked at the target.
    ///
    /// Idle: chase once the target is closer than the aggro range. Chase:
    /// go idle once the target is farther than the forget range; else
    /// attack if [`Mind::strikes`], which restarts the cooldown. Attack:
    /// chase again once the animation shows its last frame, ready to
    /// release the next attack.
    pub open spec fn perceived(self, stats: EnemyStats, percept: Percept) -> Mind {
        match self.state {
            EnemyState::Idle => if percept.distance < stats.aggro_range {
                Mind { state: EnemyState::Chase, ..self }
            } else {
                self
            },
            EnemyState::Chase => if is_beyond(
                percept.distance,
                stats.forget_range,
                percept.blinded,
            ) {
                Mind { state: EnemyState::Idle, ..self }
            } else if self.strikes(stats, percept) {
                Mind {
                    state: EnemyState::Attack,
                    attack_timer: AttackTimer(self.attack_timer.0.restarted()),
                    ..self
                }
            } else {
                self
            },
            EnemyState::Attack => if percept.sprite_index == last_attack_frame() {
                Mind { state: EnemyState::Chase, attacked: Attacked(false), ..self }
            } else {
                self
            },
        }
    }
}

/// Compares `distance * UNIT` with `range * factor`.
fn exceeds(distance: i64, range: i64, blinded: bool) -> (r: (bool, bool))
    ensures
        r.0 == is_beyond(distance, range, blinded),
        r.1 == is_within(distance, range, blinded),
{
    // The literals are the values of UNIT and BLINDED_RANGE_FACTOR.
    assert(UNIT == 1_000 && BLINDED_RANGE_FACTOR == 330);
    let left: i128 = distance as i128 * 1_000;
    let right: i128 = if blinded { range as i128 * 330 } else { range as i128 * 1_000 };
    (left > right, left < right)
}

/// Lets an agent look at the target and change state.
pub fn update_state(
    state: &mut EnemyState,
    attack_timer: &mut AttackTimer,
    attacked: &mut Attacked,
    stats: &EnemyStats,
    percept: &Percept,
)
    ensures
        (Mind { state: *final(state), attack_timer: *final(attack_timer), attacked: *final(attacked) })
            == (Mind {
            state: *old(state),
            attack_timer: *old(attack_timer),
            attacked: *old(attacked),
        }).perceived(*stats, *percept),
{
    match *state {
        EnemyState::Idle => {
            if percept.distance < stats.aggro_range {
                *state = EnemyState::Chase;
            }
        },
        EnemyState::Chase => {
            let forget = exceeds(percept.distance, stats.forget_range, percept.blinded);
            let reach = exceeds(percept.distance, stats.attack_range, percept.blinded);
            if forget.0 {
                *state = EnemyState::Idle;
            } else if attack_timer.0.finished() && percept.sees_target && reach.1 {
                *state = EnemyState::Attack;
                attack_timer.0.reset();
            }
        },
        EnemyState::Attack => {
            if percept.sprite_index == ELEMENTAL_ATTACK_ANIM_OFFSET + ELEMENTAL_ATTACK_ANIM_FRAMES
                - 1 {
                *state = EnemyState::Chase;
                attacked.0 = false;
            }
        },
    }
}

/// An idle agent starts to chase exactly when the target is closer than
/// its aggro range: farther away it stays idle, closer it chases after
/// this one look.
pub proof fn lemma_idle_agent_wakes_within_aggro_range(mind: Mind, stats: EnemyStats, percept: Percept)
    requires
        mind.state == EnemyState::Idle,
    ensures
        percept.distance >= stats.aggro_range ==> mind.perceived(stats, percept).state
            == EnemyState::Idle,
        percept.distance < stats.aggro_range ==> mind.perceived(stats, percept).state
            == EnemyState::Chase,
{
}

impl Mind {
    /// The mind after the agent looked at the target once per tick, for
    /// each percept of `percepts` in turn.
    pub open spec fn perceived_all(self, stats: EnemyStats, percepts: Seq<Percept>) -> Mind
        decreases percepts.len(),
    {
        if percepts.len() == 0 {
            self
        } else {
            self.perceived(stats, percepts[0]).perceived_all(stats, percepts.drop_first())
        }
    }
}

/// An idle agent never starts to chase while the target stays at or
/// beyond its aggro range, however many ticks pass.
pub proof fn lemma_idle_agent_never_wakes_beyond_aggro_range(
    mind: Mind,
    stats: EnemyStats,
    percepts: Seq<Percept>,
)
    requires
        mind.state == EnemyState::Idle,
        forall|i: int| 0 <= i < percepts.len() ==> (#[trigger] percepts[i]).distance >= stats.aggro_range,
    ensures
        mind.perceived_all(stats, percepts) == mind,
    decreases percepts.len(),
{
    if percepts.len() > 0 {
        assert(percepts[0].distance >= stats.aggro_range);
        assert forall|i: int| 0 <= i < percepts.drop_first().len() implies (
        #[trigger] percepts.drop_first()[i]).distance >= stats.aggro_range by {
            assert(percepts.drop_first()[i] == percepts[i + 1]);
        }
        lemma_idle_agent_never_wakes_beyond_aggro_range(mind, stats, percepts.drop_first());
    }
}

/// A chasing agent that is not blinded keeps chasing while the target is
/// no farther than its forget range and it cannot strike, and goes idle as
/// soon as the target is farther.
pub proof fn lemma_chasing_agent_forgets_beyond_forget_range(
    mind: Mind,
    stats: EnemyStats,
    percept: Percept,
)
    requires
        mind.state == EnemyState::Chase,
        !percept.blinded,
    ensures
        percept.distance > stats.forget_range ==> mind.perceived(stats, percept).state
            == EnemyState::Idle,
        percept.distance <= stats.forget_range && !mind.strikes(stats, percept) ==> mind.perceived(
            stats,
            percept,
        ).state == EnemyState::Chase,
{
    let d = percept.distance as int;
    let r = stats.forget_range as int;
    let u = UNIT as int;
    assert((d * u > r * u) == (d > r)) by (nonlinear_arith)
        requires
            u == 1_000,
    ;
}

/// Advances the attack cooldown by one tick.
pub fn tick_attack(timer: &mut AttackTimer, delta: u64, time_scale: &TimeScale)
    ensures
        final(timer).0 == old(timer).0.ticked(time_scale.scaled_delta(delta)),
{
    timer.0.tick(time_scale.scale_delta(delta));
}

/// The first frame of the animation of a state.
pub open spec fn anim_offset(state: EnemyState) -> int {
    match state {
        EnemyState::Idle => ELEMENTAL_IDLE_ANIM_OFFSET as int,
        EnemyState::Chase => ELEMENTAL_WALK_ANIM_OFFSET as int,
        EnemyState::Attack => ELEMENTAL_ATTACK_ANIM_OFFSET as int,
    }
}

/// The number of frames of the animation of a state.
pub open spec fn anim_frames(state: EnemyState) -> int {
    match state {
        EnemyState::Idle => ELEMENTAL_IDLE_ANIM_FRAMES as int,
        EnemyState::Chase => ELEMENTAL_WALK_ANIM_FRAMES as int,
        EnemyState::Attack => ELEMENTAL_ATTACK_ANIM_FRAMES as int,
    }
}

/// The frame shown after a tick.
///
/// A change of state jumps to the first frame of the new animation. If the
/// animation timer then completes, the frame advances by one within the
/// animation, returning to its first frame after the last.
pub open spec fn next_frame(index: int, state: EnemyState, state_changed: bool, advance: bool) -> int {
    let base = if state_changed {
        anim_offset(state)
    } else {
        index
    };
    if advance {
        anim_offset(state) + (base - anim_offset(state) + 1) % anim_frames(state)
    } else {
        base
    }
}

/// Advances an agent's animation by one tick.
///
/// The frame must belong to a state's animation or lie after it, unless
/// the state has just changed.
pub fn anim(
    sprite_index: &mut usize,
    state: EnemyState,
    state_changed: bool,
    timer: &mut AnimationTimer,
    delta: u64,
    time_scale: &TimeScale,
)
    requires
        state_changed || *old(sprite_index) >= anim_offset(state),
    ensures
        final(timer).0 == old(timer).0.ticked(time_scale.scaled_delta(delta)),
        *final(sprite_index) == next_frame(
            *old(sprite_index) as int,
            state,
            state_changed,
            final(timer).0.finished,
        ),
{
    let offset: usize = match state {
        EnemyState::Idle => ELEMENTAL_IDLE_ANIM_OFFSET,
        EnemyState::Chase => ELEMENTAL_WALK_ANIM_OFFSET,
        EnemyState::Attack => ELEMENTAL_ATTACK_ANIM_OFFSET,
    };
    let frames: usize = match state {
        EnemyState::Idle => ELEMENTAL_IDLE_ANIM_FRAMES,
        EnemyState::Chase => ELEMENTAL_WALK_ANIM_FRAMES,
        EnemyState::Attack => ELEMENTAL_ATTACK_ANIM_FRAMES,
    };
    if state_changed {
        *sprite_index = offset;
    }
    timer.0.tick(time_scale.scale_delta(delta));
    if timer.0.finished() {
        let step: u128 = ((*sprite_index - offset) as u128 + 1) % (frames as u128);
        *sprite_index = offset + step as usize;
    }
}

/// Lets a stun interrupt the agent.
///
/// When the stun is over, a paused animation resumes. While the stun runs
/// and the animation is not yet paused, it is paused and the agent falls
/// back to idle, whatever it was doing.
pub fn hitstun(timer: &HitstunTimer, anim: &mut AnimationTimer, state: &mut EnemyState)
    ensures
        timer.0.finished && old(anim).0.paused ==> final(anim).0 == (Timer {
            paused: false,
            ..old(anim).0
        }) && *final(state) == *old(state),
        !timer.0.finished && !old(anim).0.paused ==> final(anim).0 == (Timer {
            paused: true,
            ..old(anim).0
        }) && *final(state) == EnemyState::Idle,
        timer.0.finished == !old(anim).0.paused ==> *final(anim) == *old(anim) && *final(state)
            == *old(state),
{
    if timer.0.finished() && anim.0.paused() {
        anim.0.unpause();
    } else if !timer.0.finished() && !anim.0.paused() {
        anim.0.pause();
        *state = EnemyState::Idle;
    }
}

/// The frame on which a dying agent starts its death animation.
pub fn start_die() -> (index: usize)
    ensures
        index == ELEMENTAL_DEATH_ANIM_OFFSET,
{
    ELEMENTAL_DEATH_ANIM_OFFSET
}

/// Whether a dead agent has shown the last frame of its death animation
/// and is to be removed.
pub fn die(sprite_index: usize) -> (gone: bool)
    ensures
        gone == (sprite_index == ELEMENTAL_DEATH_ANIM_OFFSET + ELEMENTAL_DEATH_ANIM_FRAMES - 1),
{
    sprite_index == ELEMENTAL_DEATH_ANIM_OFFSET + ELEMENTAL_DEATH_ANIM_FRAMES - 1
}

/// What lies first on the straight way to the target, as found by
/// sweeping the agent's own shape toward it.
#[derive(Clone, Copy, Debug, PartialEq, Eq, Structural)]
pub enum Sighting {
    /// The sweep hit nothing.
    Nothing,
    /// The sweep reached the target.
    Target,
    /// Something else is in the way.
    Obstacle,
}

/// Where a chasing agent walks.
#[derive(Clone, Copy, Debug, PartialEq, Eq, Structural)]
pub enum Steering {
    /// Keep the velocity of the last tick.
    Keep,
    /// Straight toward the target.
    Direct,
    /// Toward this point, the centre of a cell of the route.
    Waypoint(Vector),
}

/// The decision of one tick of a chasing agent.
#[derive(Clone, Copy, Debug, PartialEq, Eq, Structural)]
pub struct Drive {
    pub steering: Steering,
    /// The speed at which to walk.
    pub speed: i64,
}

/// The centre of a cell, in thousandths of a pixel.
pub open spec fn cell_centre(cell: Cell) -> Vector {
    Vector {
        x: ((cell.0 as int * GRID_SIZE as int) * UNIT as int + (GRID_SIZE as int * UNIT as int) / 2) as i64,
        y: ((cell.1 as int * GRID_SIZE as int) * UNIT as int + (GRID_SIZE as int * UNIT as int) / 2) as i64,
    }
}

/// Computes [`cell_centre`].
pub fn centre_of(cell: Cell) -> (v: Vector)
    ensures
        v == cell_centre(cell),
{
    // A cell is GRID_SIZE * UNIT = 16_000 thousandths wide.
    assert(UNIT == 1_000 && GRID_SIZE == 16);
    Vector { x: cell.0 as i64 * 16_000 + 8_000, y: cell.1 as i64 * 16_000 + 8_000 }
}

/// Which of the first two cells of a route the agent walks toward.
///
/// It is the second, unless the scalar products of the agent's position
/// with the centres of the two cells differ in sign; then it is the first.
/// A product of zero counts as positive.
pub open spec fn waypoint_of(position: Vector, first: Cell, second: Cell) -> Cell {
    if (position.dot(cell_centre(first)) < 0) != (position.dot(cell_centre(second)) < 0) {
        first
    } else {
        second
    }
}

/// How an agent follows a route, or the lack of one.
///
/// Without a route it keeps its velocity. On a route of a single cell it
/// is as good as there and walks straight at the target. Otherwise it
/// walks toward one of the route's first two cells, see [`waypoint_of`].
pub open spec fn steering_along(route: Option<Seq<Cell>>, position: Vector) -> Steering {
    match route {
        None => Steering::Keep,
        Some(r) => if r.len() <= 1 {
            Steering::Direct
        } else {
            Steering::Waypoint(cell_centre(waypoint_of(position, r[0], r[1])))
        },
    }
}

/// Computes [`steering_along`].
pub fn steer_along(route: &Option<Vec<Cell>>, position: &Vector) -> (s: Steering)
    ensures
        s == steering_along(route_view(*route), *position),
{
    match route {
        None => Steering::Keep,
        Some(r) => {
            if r.len() <= 1 {
                Steering::Direct
            } else {
                let first: Vector = centre_of(r[0]);
                let second: Vector = centre_of(r[1]);
                if position.dot_is_negative(&first) != position.dot_is_negative(&second) {
                    Steering::Waypoint(first)
                } else {
                    Steering::Waypoint(second)
                }
            }
        },
    }
}

/// What a chasing agent needs to know to decide where to walk.
#[derive(Clone, Copy, Debug)]
pub struct Outlook {
    /// Where the agent stands.
    pub position: Vector,
    /// The cell the agent stands on.
    pub cell: Cell,
    /// The cell the target stands on.
    pub target_cell: Cell,
    pub sighting: Sighting,
    pub slowed: bool,
    pub blinded: bool,
}

/// The speed of an agent: its archetype's, reduced while it is slowed.
pub open spec fn walking_speed(stats: EnemyStats, slowed: bool) -> int {
    if slowed {
        scaled(stats.speed as int, SLOWED_SPEED_FACTOR as int)
    } else {
        stats.speed as int
    }
}

/// Whether an agent moves by its own will this tick: it chases and is not
/// stunned.
pub open spec fn is_mobile(hitstun: HitstunTimer, state: EnemyState) -> bool {
    hitstun.0.finished && state == EnemyState::Chase
}

/// Decides where a chasing agent walks, given the route that the search
/// found for it.
///
/// With the target in plain sight the agent walks straight at it. With
/// nothing ahead, or blinded behind an obstacle, it keeps its velocity.
/// Behind an obstacle and not blinded it follows the route.
pub open spec fn steering_of(outlook: Outlook, route: Option<Seq<Cell>>) -> Steering {
    match outlook.sighting {
        Sighting::Nothing => Steering::Keep,
        Sighting::Target => Steering::Direct,
        Sighting::Obstacle => if outlook.blinded {
            Steering::Keep
        } else {
            steering_along(route, outlook.position)
        },
    }
}

/// Decides where an agent walks this tick.
///
/// An agent that is stunned or not chasing decides nothing. The route,
/// where one is needed, is searched anew from the agent's cell to the
/// target's.
pub fn movement(
    hitstun: &HitstunTimer,
    state: EnemyState,
    stats: &EnemyStats,
    outlook: &Outlook,
    tiles: &WalkableTiles,
) -> (drive: Option<Drive>)
    ensures
        !is_mobile(*hitstun, state) ==> drive is None,
        is_mobile(*hitstun, state) ==> drive == Some(
            Drive {
                steering: steering_of(
                    *outlook,
                    astar_route(tiles@, outlook.cell, outlook.target_cell),
                ),
                speed: walking_speed(*stats, outlook.slowed) as i64,
            },
        ),
{
    if !hitstun.0.finished() {
        return None;
    }
    match state {
        EnemyState::Chase => {},
        _ => {
            return None;
        },
    }
    let speed: i64 = if outlook.slowed {
        scale(stats.speed, SLOWED_SPEED_FACTOR)
    } else {
        stats.speed
    };
    let steering: Steering = match outlook.sighting {
        Sighting::Nothing => Steering::Keep,
        Sighting::Target => Steering::Direct,
        Sighting::Obstacle => {
            if outlook.blinded {
                Steering::Keep
            } else {
                let route = find_path(tiles, outlook.cell, outlook.target_cell);
                steer_along(&route, &outlook.position)
            }
        },
    };
    Some(Drive { steering, speed })
}

/// The direction in which a projectile leaves the agent.
#[derive(Clone, Copy, Debug, PartialEq, Eq, Structural)]
pub enum Heading {
    /// Toward the target.
    AtTarget,
    /// One of `slots` directions spread evenly over the full circle,
    /// counted from the direction the agent faces.
    Fanned { slot: u8, slots: u8 },
}

/// How a projectile hurts.
#[derive(Clone, Copy, Debug, PartialEq, Eq, Structural)]
pub enum ShotDamage {
    /// The projectile itself damages whom it touches, once.
    Once { amount: i64 },
    /// The projectile carries a larger volume around it that damages
    /// whoever is inside at the end of every period.
    Aura { amount: i64, period: u64, radius: i64, filters: u32 },
}

/// One projectile of an attack.
#[derive(Clone, Copy, Debug, PartialEq, Eq, Structural)]
pub struct Shot {
    pub heading: Heading,
    pub speed: i64,
    /// The radius of the projectile's body.
    pub radius: i64,
    /// The collision groups that the body meets.
    pub filters: u32,
    /// Whether the body only senses contacts instead of colliding.
    pub sensor: bool,
    pub damage: ShotDamage,
    /// After how many nanoseconds the projectile vanishes by itself.
    pub lifetime: Option<u64>,
    /// Whether the projectile vanishes on its first contact.
    pub destroy_on_hit: bool,
    /// The rate at which the projectile's path curls.
    pub spiral: Option<i64>,
    /// The period of the projectile's own animation.
    pub frame_period: Option<u64>,
}

/// The straight shot of the fire archetype.
pub open spec fn fire_shot() -> Shot {
    Shot {
        heading: Heading::AtTarget,
        speed: FIRE_ELEMENTAL_ATTACK_VELOCITY,
        radius: FIRE_ELEMENTAL_ATTACK_RADIUS,
        filters: PLAYER_COLLISION_GROUP | WALL_COLLISION_GROUP,
        sensor: true,
        damage: ShotDamage::Once { amount: FIRE_ELEMENTAL_ATTACK_DAMAGE },
        lifetime: None,
        destroy_on_hit: true,
        spiral: None,
        frame_period: None,
    }
}

/// One of the three spiralling shots of the water archetype.
pub open spec fn water_shot(slot: u8) -> Shot {
    Shot {
        heading: Heading::Fanned { slot, slots: 3 },
        speed: WATER_ELEMENTAL_ATTACK_VELOCITY,
        radius: 2_000,
        filters: PLAYER_COLLISION_GROUP,
        sensor: true,
        damage: ShotDamage::Once { amount: WATER_ELEMENTAL_ATTACK_DAMAGE },
        lifetime: Some(5_000_000_000),
        destroy_on_hit: false,
        spiral: Some(2_000),
        frame_period: None,
    }
}

/// The short gust of the wind archetype.
pub open spec fn wind_shot() -> Shot {
    Shot {
        heading: Heading::AtTarget,
        speed: WIND_ELEMENTAL_ATTACK_VELOCITY,
        radius: 8_000,
        filters: PLAYER_COLLISION_GROUP,
        sensor: true,
        damage: ShotDamage::Once { amount: WIND_ELEMENTAL_ATTACK_DAMAGE },
        lifetime: Some(50_000_000),
        destroy_on_hit: false,
        spiral: None,
        frame_period: None,
    }
}

/// The drifting orb of the lightning archetype, with its damaging aura.
pub open spec fn lightning_shot() -> Shot {
    Shot {
        heading: Heading::AtTarget,
        speed: LIGHTNING_ELEMENTAL_ATTACK_VELOCITY,
        radius: 4_000,
        filters: WALL_COLLISION_GROUP,
        sensor: false,
        damage: ShotDamage::Aura {
            amount: LIGHTNING_ELEMENTAL_ATTACK_DAMAGE,
            period: 250_000_000,
            radius: 16_000,
            filters: PLAYER_COLLISION_GROUP,
        },
        lifetime: Some(5_000_000_000),
        destroy_on_hit: true,
        spiral: None,
        frame_period: Some(100_000_000),
    }
}

/// The lobbed rock of the earth archetype.
pub open spec fn earth_shot() -> Shot {
    Shot {
        heading: Heading::AtTarget,
        speed: EARTH_ELEMENTAL_ATTACK_VELOCITY,
        radius: 16_000,
        filters: PLAYER_COLLISION_GROUP,
        sensor: true,
        damage: ShotDamage::Once { amount: EARTH_ELEMENTAL_ATTACK_DAMAGE },
        lifetime: Some(50_000_000),
        destroy_on_hit: false,
        spiral: None,
        frame_period: None,
    }
}

/// The projectiles of one attack of an archetype, in the order in which
/// they are released.
pub open spec fn volley_of(element: Element) -> Seq<Shot> {
    match element {
        Element::Fire => seq![fire_shot()],
        Element::Water => seq![water_shot(0), water_shot(1), water_shot(2)],
        Element::Wind => seq![wind_shot()],
        Element::Lightning => seq![lightning_shot()],
        Element::Earth => seq![earth_shot()],
    }
}

/// Whether an attacking agent releases its attack now: its sprite shows
/// the emit frame and this attack has released nothing yet.
pub open spec fn releases(sprite_index: usize, attacked: Attacked) -> bool {
    sprite_index == ELEMENTAL_ATTACK_EMIT_FRAME && !attacked.0
}

impl Shot {
    /// What the hazard of this shot holds: a one-shot damage or a periodic
    /// damage, without falloff, that has met nobody yet.
    pub open spec fn hazard_view(self) -> HazardView {
        HazardView {
            hitstun: None,
            radial_impulse: None,
            directed_impulse: None,
            radial_force: None,
            directed_force: None,
            damage_once: match self.damage {
                ShotDamage::Once { amount } => Some(
                    DamageOnceView {
                        amount,
                        falloff: Falloff { ratio: UNIT, start: 0, end: 0 },
                        hit: Set::empty(),
                    },
                ),
                ShotDamage::Aura { .. } => None,
            },
            damage_periodic: match self.damage {
                ShotDamage::Once { .. } => None,
                ShotDamage::Aura { amount, period, .. } => Some(
                    DamagePeriodicView {
                        amount,
                        falloff: Falloff { ratio: UNIT, start: 0, end: 0 },
                        period: Timer::fresh(period, true),
                        hostages: Set::empty(),
                    },
                ),
            },
            status: None,
        }
    }

    /// Builds the hazard that this shot carries.
    pub fn hazard(&self) -> (h: Hazard)
        ensures
            h@ == self.hazard_view(),
    {
        let mut h = Hazard::empty();
        match self.damage {
            ShotDamage::Once { amount } => {
                h.damage_once = Some(DamageOnce::new(amount, Falloff::none()));
            },
            ShotDamage::Aura { amount, period, radius: _, filters: _ } => {
                h.damage_periodic = Some(DamagePeriodic::new(amount, Falloff::none(), period));
            },
        }
        h
    }
}

/// Releases the attack of an attacking agent on the emit frame of its
/// animation, once per attack.
pub fn attack(sprite_index: usize, element: Element, attacked: &mut Attacked) -> (shots: Vec<Shot>)
    ensures
        final(attacked).0 == (old(attacked).0 || releases(sprite_index, *old(attacked))),
        releases(sprite_index, *old(attacked)) ==> shots@ == volley_of(element),
        !releases(sprite_index, *old(attacked)) ==> shots@ == Seq::<Shot>::empty(),
{
    let mut shots: Vec<Shot> = Vec::new();
    if sprite_index != ELEMENTAL_ATTACK_EMIT_FRAME || attacked.0 {
        return shots;
    }
    attacked.0 = true;
    let fan: Shot = Shot {
        heading: Heading::Fanned { slot: 0, slots: 3 },
        speed: WATER_ELEMENTAL_ATTACK_VELOCITY,
        radius: 2_000,
        filters: PLAYER_COLLISION_GROUP,
        sensor: true,
        damage: ShotDamage::Once { amount: WATER_ELEMENTAL_ATTACK_DAMAGE },
        lifetime: Some(5_000_000_000),
        destroy_on_hit: false,
        spiral: Some(2_000),
        frame_period: None,
    };
    match element {
        Element::Fire => {
            shots.push(
                Shot {
                    heading: Heading::AtTarget,
                    speed: FIRE_ELEMENTAL_ATTACK_VELOCITY,
                    radius: FIRE_ELEMENTAL_ATTACK_RADIUS,
                    filters: PLAYER_COLLISION_GROUP | WALL_COLLISION_GROUP,
                    sensor: true,
                    damage: ShotDamage::Once { amount: FIRE_ELEMENTAL_ATTACK_DAMAGE },
                    lifetime: None,
                    destroy_on_hit: true,
                    spiral: None,
                    frame_period: None,
                },
            );
        },
        Element::Water => {
            let mut slot: u8 = 0;
            while slot < 3
                invariant
                    slot <= 3,
                    fan == water_shot(0),
                    shots@ == Seq::new(slot as nat, |i: int| water_shot(i as u8)),
                decreases 3 - slot,
            {
                shots.push(Shot { heading: Heading::Fanned { slot, slots: 3 }, ..fan });
                proof {
                    assert(shots@ =~= Seq::new((slot + 1) as nat, |i: int| water_shot(i as u8)));
                }
                slot += 1;
            }
            proof {
                assert(shots@ =~= volley_of(element));
            }
        },
        Element::Wind => {
            shots.push(
                Shot {
                    heading: Heading::AtTarget,
                    speed: WIND_ELEMENTAL_ATTACK_VELOCITY,
                    radius: 8_000,
                    filters: PLAYER_COLLISION_GROUP,
                    sensor: true,
                    damage: ShotDamage::Once { amount: WIND_ELEMENTAL_ATTACK_DAMAGE },
                    lifetime: Some(50_000_000),
                    destroy_on_hit: false,
                    spiral: None,
                    frame_period: None,
                },
            );
        },
        Element::Lightning => {
            shots.push(
                Shot {
                    heading: Heading::AtTarget,
                    speed: LIGHTNING_ELEMENTAL_ATTACK_VELOCITY,
                    radius: 4_000,
                    filters: WALL_COLLISION_GROUP,
                    sensor: false,
                    damage: ShotDamage::Aura {
                        amount: LIGHTNING_ELEMENTAL_ATTACK_DAMAGE,
                        period: 250_000_000,
                        radius: 16_000,
                        filters: PLAYER_COLLISION_GROUP,
                    },
                    lifetime: Some(5_000_000_000),
                    destroy_on_hit: true,
                    spiral: None,
                    frame_period: Some(100_000_000),
                },
            );
        },
        Element::Earth => {
            shots.push(
                Shot {
                    heading: Heading::AtTarget,
                    speed: EARTH_ELEMENTAL_ATTACK_VELOCITY,
                    radius: 16_000,
                    filters: PLAYER_COLLISION_GROUP,
                    sensor: true,
                    damage: ShotDamage::Once { amount: EARTH_ELEMENTAL_ATTACK_DAMAGE },
                    lifetime: Some(50_000_000),
                    destroy_on_hit: false,
                    spiral: None,
                    frame_period: None,
                },
            );
        },
    }
    proof {
        assert(shots@ =~= volley_of(element));
    }
    shots
}

} // verus!
