//! Finite-duration conditions that afflict an agent.
//!
//! An agent carries at most one condition of each kind. A hazard leaves a
//! pending [`Effect`] on the agent; [`Conditions::insert_effect`] turns it
//! into the condition itself, and applying a kind that is already active
//! starts it over. Every condition ends when its duration has run out.

use vstd::prelude::*;
use crate::consts::DELAYED_EXPLOSION_DAMAGE;
use crate::consts::ON_FIRE_DAMAGE;
use crate::consts::SHOCKED_DAMAGE;
use crate::consts::STATUS_DURATION;
use crate::consts::STATUS_HAZARD_LIFETIME;
use crate::consts::STATUS_HAZARD_RADIUS;
use crate::consts::STATUS_TICK;
use crate::entity_set::EntityId;
use crate::falloff::Falloff;
use crate::health::HealthChange;
use crate::hitbox::DamageOnce;
use crate::hitbox::DamageOnceView;
use crate::hitbox::Hazard;
use crate::hitbox::HazardView;
use crate::timer::Timer;
use crate::units::UNIT;
use crate::utils::TimeScale;

verus! {

/// The kind of a condition, as carried by a hazard before it is applied.
#[derive(Clone, Copy, Debug, PartialEq, Eq, Structural)]
pub enum Effect {
    OnFire,
    Shocked,
    DelayedExplosion,
    Blinded,
    Slowed,
}

/// Burning: damages the agent at the end of every period.
#[derive(Clone, Copy, Debug, PartialEq, Eq, Structural)]
pub struct OnFire {
    pub duration: Timer,
    pub tick: Timer,
}

/// Shocked: discharges around the agent at the end of every period.
#[derive(Clone, Copy, Debug, PartialEq, Eq, Structural)]
pub struct Shocked {
    pub duration: Timer,
    pub tick: Timer,
}

/// Explodes when its duration is over or when the agent dies.
#[derive(Clone, Copy, Debug, PartialEq, Eq, Structural)]
pub struct DelayedExplosion {
    pub duration: Timer,
}

/// Blinded: the agent perceives less far and does not find its way
/// around obstacles.
#[derive(Clone, Copy, Debug, PartialEq, Eq, Structural)]
pub struct Blinded {
    pub duration: Timer,
}

/// Slowed: the agent walks slower.
#[derive(Clone, Copy, Debug, PartialEq, Eq, Structural)]
pub struct Slowed {
    pub duration: Timer,
}

/// The timer of a condition's duration at its start.
pub open spec fn fresh_duration() -> Timer {
    Timer::fresh(STATUS_DURATION, false)
}

/// The timer of a condition's period at its start.
pub open spec fn fresh_tick() -> Timer {
    Timer::fresh(STATUS_TICK, true)
}

impl OnFire {
    pub fn new() -> (c: OnFire)
        ensures
            c == (OnFire { duration: fresh_duration(), tick: fresh_tick() }),
    {
        OnFire { duration: Timer::new(STATUS_DURATION, false), tick: Timer::new(STATUS_TICK, true) }
    }
}

impl Shocked {
    pub fn new() -> (c: Shocked)
        ensures
            c == (Shocked { duration: fresh_duration(), tick: fresh_tick() }),
    {
        Shocked {
            duration: Timer::new(STATUS_DURATION, false),
            tick: Timer::new(STATUS_TICK, true),
        }
    }
}

impl DelayedExplosion {
    pub fn new() -> (c: DelayedExplosion)
        ensures
            c == (DelayedExplosion { duration: fresh_duration() }),
    {
        DelayedExplosion { duration: Timer::new(STATUS_DURATION, false) }
    }
}

impl Blinded {
    pub fn new() -> (c: Blinded)
        ensures
            c == (Blinded { duration: fresh_duration() }),
    {
        Blinded { duration: Timer::new(STATUS_DURATION, false) }
    }
}

impl Slowed {
    pub fn new() -> (c: Slowed)
        ensures
            c == (Slowed { duration: fresh_duration() }),
    {
        Slowed { duration: Timer::new(STATUS_DURATION, false) }
    }
}

/// A short-lived hazard that a condition leaves at the agent's position.
#[derive(Clone, Copy, Debug, PartialEq, Eq, Structural)]
pub struct Blast {
    pub radius: i64,
    /// The one-shot damage of the hazard.
    pub amount: i64,
    /// After how many nanoseconds the hazard vanishes.
    pub lifetime: u64,
}

/// The discharge of a shocked agent.
pub open spec fn discharge() -> Blast {
    Blast { radius: STATUS_HAZARD_RADIUS, amount: SHOCKED_DAMAGE, lifetime: STATUS_HAZARD_LIFETIME }
}

/// The blast of a delayed explosion.
pub open spec fn explosion() -> Blast {
    Blast {
        radius: STATUS_HAZARD_RADIUS,
        amount: DELAYED_EXPLOSION_DAMAGE,
        lifetime: STATUS_HAZARD_LIFETIME,
    }
}

impl Blast {
    /// Builds the hazard of the blast: a one-shot damage without falloff
    /// that has hit nobody yet.
    pub fn hazard(&self) -> (h: Hazard)
        ensures
            h@ == (HazardView {
                hitstun: None,
                radial_impulse: None,
                directed_impulse: None,
                radial_force: None,
                directed_force: None,
                damage_once: Some(
                    DamageOnceView {
                        amount: self.amount,
                        falloff: Falloff { ratio: UNIT, start: 0, end: 0 },
                        hit: Set::empty(),
                    },
                ),
                damage_periodic: None,
                status: None,
            }),
    {
        let mut h = Hazard::empty();
        h.damage_once = Some(DamageOnce::new(self.amount, Falloff::none()));
        h
    }
}

/// The conditions of one agent: at most one of each kind.
#[derive(Clone, Copy, Debug, PartialEq, Eq, Structural)]
pub struct Conditions {
    pub on_fire: Option<OnFire>,
    pub shocked: Option<Shocked>,
    pub delayed_explosion: Option<DelayedExplosion>,
    pub blinded: Option<Blinded>,
    pub slowed: Option<Slowed>,
}

/// What one tick of the conditions of an agent brings about.
#[derive(Clone, Copy, Debug, PartialEq, Eq, Structural)]
pub struct Outcome {
    /// The damage of burning.
    pub burn: Option<HealthChange>,
    /// The hazard that a shocked agent discharges.
    pub discharge: Option<Blast>,
    /// The hazard of a delayed explosion that went off.
    pub explosion: Option<Blast>,
    /// Whether burning ended, and so on for each kind. The visual of a
    /// condition that ended is to be detached.
    pub on_fire_ended: bool,
    pub shocked_ended: bool,
    pub delayed_explosion_ended: bool,
    pub blinded_ended: bool,
    pub slowed_ended: bool,
}

impl Conditions {
    /// No condition at all.
    pub open spec fn none() -> Conditions {
        Conditions {
            on_fire: None,
            shocked: None,
            delayed_explosion: None,
            blinded: None,
            slowed: None,
        }
    }

    /// Whether a condition of the kind `effect` is active.
    pub open spec fn has(self, effect: Effect) -> bool {
        match effect {
            Effect::OnFire => self.on_fire is Some,
            Effect::Shocked => self.shocked is Some,
            Effect::DelayedExplosion => self.delayed_explosion is Some,
            Effect::Blinded => self.blinded is Some,
            Effect::Slowed => self.slowed is Some,
        }
    }

    /// The conditions after `effect` was applied: the condition of that
    /// kind is at its start, whether or not it was active before.
    pub open spec fn with(self, effect: Effect) -> Conditions {
        match effect {
            Effect::OnFire => Conditions {
                on_fire: Some(OnFire { duration: fresh_duration(), tick: fresh_tick() }),
                ..self
            },
            Effect::Shocked => Conditions {
                shocked: Some(Shocked { duration: fresh_duration(), tick: fresh_tick() }),
                ..self
            },
            Effect::DelayedExplosion => Conditions {
                delayed_explosion: Some(DelayedExplosion { duration: fresh_duration() }),
                ..self
            },
            Effect::Blinded => Conditions {
                blinded: Some(Blinded { duration: fresh_duration() }),
                ..self
            },
            Effect::Slowed => Conditions {
                slowed: Some(Slowed { duration: fresh_duration() }),
                ..self
            },
        }
    }

    /// The conditions after a tick of `delta` scaled nanoseconds.
    ///
    /// Every timer advances. A condition whose duration is over is gone,
    /// and so is a delayed explosion on an agent that is dead.
    pub open spec fn ticked(self, delta: u64, dead: bool) -> Conditions {
        Conditions {
            on_fire: match self.on_fire {
                Some(c) => if c.duration.ticked(delta).finished {
                    None
                } else {
                    Some(OnFire { duration: c.duration.ticked(delta), tick: c.tick.ticked(delta) })
                },
                None => None,
            },
            shocked: match self.shocked {
                Some(c) => if c.duration.ticked(delta).finished {
                    None
                } else {
                    Some(Shocked { duration: c.duration.ticked(delta), tick: c.tick.ticked(delta) })
                },
                None => None,
            },
            delayed_explosion: match self.delayed_explosion {
                Some(c) => if c.duration.ticked(delta).finished || dead {
                    None
                } else {
                    Some(DelayedExplosion { duration: c.duration.ticked(delta) })
                },
                None => None,
            },
            blinded: match self.blinded {
                Some(c) => if c.duration.ticked(delta).finished {
                    None
                } else {
                    Some(Blinded { duration: c.duration.ticked(delta) })
                },
                None => None,
            },
            slowed: match self.slowed {
                Some(c) => if c.duration.ticked(delta).finished {
                    None
                } else {
                    Some(Slowed { duration: c.duration.ticked(delta) })
                },
                None => None,
            },
        }
    }

    /// What a tick of `delta` scaled nanoseconds brings about for the
    /// agent `target`.
    ///
    /// Burning damages on every tick that ends a period, the last tick of
    /// the condition included. A shocked agent discharges likewise. A
    /// delayed explosion goes off when it ends, by time or by death.
    pub open spec fn outcome(self, target: EntityId, delta: u64, dead: bool) -> Outcome {
        Outcome {
            burn: match self.on_fire {
                Some(c) => if c.tick.ticked(delta).finished {
                    Some(HealthChange { target, amount: ON_FIRE_DAMAGE })
                } else {
                    None
                },
                None => None,
            },
            discharge: match self.shocked {
                Some(c) => if c.tick.ticked(delta).finished {
                    Some(discharge())
                } else {
                    None
                },
                None => None,
            },
            explosion: match self.delayed_explosion {
                Some(c) => if c.duration.ticked(delta).finished || dead {
                    Some(explosion())
                } else {
                    None
                },
                None => None,
            },
            on_fire_ended: self.on_fire is Some && self.ticked(delta, dead).on_fire is None,
            shocked_ended: self.shocked is Some && self.ticked(delta, dead).shocked is None,
            delayed_explosion_ended: self.delayed_explosion is Some && self.ticked(
                delta,
                dead,
            ).delayed_explosion is None,
            blinded_ended: self.blinded is Some && self.ticked(delta, dead).blinded is None,
            slowed_ended: self.slowed is Some && self.ticked(delta, dead).slowed is None,
        }
    }

    /// An agent without conditions.
    pub fn new() -> (c: Conditions)
        ensures
            c == Conditions::none(),
    {
        Conditions {
            on_fire: None,
            shocked: None,
            delayed_explosion: None,
            blinded: None,
            slowed: None,
        }
    }

    /// Whether the agent is blinded.
    pub fn is_blinded(&self) -> (b: bool)
        ensures
            b == self.has(Effect::Blinded),
    {
        self.blinded.is_some()
    }

    /// Whether the agent is slowed.
    pub fn is_slowed(&self) -> (b: bool)
        ensures
            b == self.has(Effect::Slowed),
    {
        self.slowed.is_some()
    }

    /// Takes up the pending effect of an agent, if there is one, and tells
    /// which kind became active that was not active before: that one needs
    /// its visual attached.
    pub fn insert_effect(&mut self, pending: &mut Option<Effect>) -> (attached: Option<Effect>)
        ensures
            *final(pending) is None,
            *final(self) == match *old(pending) {
                Some(e) => old(self).with(e),
                None => *old(self),
            },
            attached == match *old(pending) {
                Some(e) => if old(self).has(e) {
                    None
                } else {
                    Some(e)
                },
                None => None,
            },
    {
        let taken: Option<Effect> = *pending;
        *pending = None;
        match taken {
            None => None,
            Some(effect) => {
                let fresh: bool = match effect {
                    Effect::OnFire => {
                        let was = self.on_fire.is_some();
                        self.on_fire = Some(OnFire::new());
                        !was
                    },
                    Effect::Shocked => {
                        let was = self.shocked.is_some();
                        self.shocked = Some(Shocked::new());
                        !was
                    },
                    Effect::DelayedExplosion => {
                        let was = self.delayed_explosion.is_some();
                        self.delayed_explosion = Some(DelayedExplosion::new());
                        !was
                    },
                    Effect::Blinded => {
                        let was = self.blinded.is_some();
                        self.blinded = Some(Blinded::new());
                        !was
                    },
                    Effect::Slowed => {
                        let was = self.slowed.is_some();
                        self.slowed = Some(Slowed::new());
                        !was
                    },
                };
                if fresh {
                    Some(effect)
                } else {
                    None
                }
            },
        }
    }

    /// Advances every condition of the agent `target` by one tick.
    ///
    /// `delta` is the tick's length in nanoseconds before the time scale
    /// is applied; `dead` tells whether the agent has died.
    pub fn tick(&mut self, target: EntityId, delta: u64, time_scale: &TimeScale, dead: bool) -> (out:
        Outcome)
        ensures
            *final(self) == old(self).ticked(time_scale.scaled_delta(delta), dead),
            out == old(self).outcome(target, time_scale.scaled_delta(delta), dead),
    {
        let scaled: u64 = time_scale.scale_delta(delta);
        let burn = tick_on_fire(&mut self.on_fire, target, scaled);
        let shock = tick_shocked(&mut self.shocked, scaled);
        let blast = tick_delayed_explosion(&mut self.delayed_explosion, scaled, dead);
        let blinded_ended = tick_blinded(&mut self.blinded, scaled);
        let slowed_ended = tick_slowed(&mut self.slowed, scaled);
        Outcome {
            burn: burn.0,
            discharge: shock.0,
            explosion: blast,
            on_fire_ended: burn.1,
            shocked_ended: shock.1,
            delayed_explosion_ended: blast.is_some(),
            blinded_ended,
            slowed_ended,
        }
    }
}

/// Advances burning by `delta` scaled nanoseconds. Returns the damage of
/// a period that ended, and whether the condition ended.
pub fn tick_on_fire(on_fire: &mut Option<OnFire>, target: EntityId, delta: u64) -> (r: (
    Option<HealthChange>,
    bool,
))
    ensures
        *final(on_fire) == (Conditions { on_fire: *old(on_fire), ..Conditions::none() }).ticked(
            delta,
            false,
        ).on_fire,
        r.0 == (Conditions { on_fire: *old(on_fire), ..Conditions::none() }).outcome(
            target,
            delta,
            false,
        ).burn,
        r.1 == ((*old(on_fire)) is Some && (*final(on_fire)) is None),
{
    match on_fire {
        None => (None, false),
        Some(c) => {
            c.duration.tick(delta);
            c.tick.tick(delta);
            let burn: Option<HealthChange> = if c.tick.finished() {
                Some(HealthChange { target, amount: ON_FIRE_DAMAGE })
            } else {
                None
            };
            if c.duration.finished() {
                *on_fire = None;
                (burn, true)
            } else {
                (burn, false)
            }
        },
    }
}

/// Advances the shock by `delta` scaled nanoseconds. Returns the hazard
/// of a period that ended, and whether the condition ended.
pub fn tick_shocked(shocked: &mut Option<Shocked>, delta: u64) -> (r: (Option<Blast>, bool))
    ensures
        *final(shocked) == (Conditions { shocked: *old(shocked), ..Conditions::none() }).ticked(
            delta,
            false,
        ).shocked,
        r.0 == (Conditions { shocked: *old(shocked), ..Conditions::none() }).outcome(
            0,
            delta,
            false,
        ).discharge,
        r.1 == ((*old(shocked)) is Some && (*final(shocked)) is None),
{
    match shocked {
        None => (None, false),
        Some(c) => {
            c.duration.tick(delta);
            c.tick.tick(delta);
            let spark: Option<Blast> = if c.tick.finished() {
                Some(
                    Blast {
                        radius: STATUS_HAZARD_RADIUS,
                        amount: SHOCKED_DAMAGE,
                        lifetime: STATUS_HAZARD_LIFETIME,
                    },
                )
            } else {
                None
            };
            if c.duration.finished() {
                *shocked = None;
                (spark, true)
            } else {
                (spark, false)
            }
        },
    }
}

/// Advances a delayed explosion by `delta` scaled nanoseconds. Returns
/// the blast if the explosion went off, which also ends the condition.
pub fn tick_delayed_explosion(
    delayed_explosion: &mut Option<DelayedExplosion>,
    delta: u64,
    dead: bool,
) -> (r: Option<Blast>)
    ensures
        *final(delayed_explosion) == (Conditions {
            delayed_explosion: *old(delayed_explosion),
            ..Conditions::none()
        }).ticked(delta, dead).delayed_explosion,
        r == (Conditions {
            delayed_explosion: *old(delayed_explosion),
            ..Conditions::none()
        }).outcome(0, delta, dead).explosion,
        r is Some <==> (*old(delayed_explosion)) is Some && (*final(delayed_explosion)) is None,
{
    match delayed_explosion {
        None => None,
        Some(c) => {
            c.duration.tick(delta);
            if c.duration.finished() || dead {
                *delayed_explosion = None;
                Some(
                    Blast {
                        radius: STATUS_HAZARD_RADIUS,
                        amount: DELAYED_EXPLOSION_DAMAGE,
                        lifetime: STATUS_HAZARD_LIFETIME,
                    },
                )
            } else {
                None
            }
        },
    }
}

/// Advances blindness by `delta` scaled nanoseconds. Returns whether the
/// condition ended.
pub fn tick_blinded(blinded: &mut Option<Blinded>, delta: u64) -> (ended: bool)
    ensures
        *final(blinded) == (Conditions { blinded: *old(blinded), ..Conditions::none() }).ticked(
            delta,
            false,
        ).blinded,
        ended == ((*old(blinded)) is Some && (*final(blinded)) is None),
{
    match blinded {
        None => false,
        Some(c) => {
            c.duration.tick(delta);
            if c.duration.finished() {
                *blinded = None;
                true
            } else {
                false
            }
        },
    }
}

/// Advances slowness by `delta` scaled nanoseconds. Returns whether the
/// condition ended.
pub fn tick_slowed(slowed: &mut Option<Slowed>, delta: u64) -> (ended: bool)
    ensures
        *final(slowed) == (Conditions { slowed: *old(slowed), ..Conditions::none() }).ticked(
            delta,
            false,
        ).slowed,
        ended == ((*old(slowed)) is Some && (*final(slowed)) is None),
{
    match slowed {
        None => false,
        Some(c) => {
            c.duration.tick(delta);
            if c.duration.finished() {
                *slowed = None;
                true
            } else {
                false
            }
        },
    }
}

/// The looping visual that shows a condition on an agent.
#[derive(Clone, Copy, Debug)]
pub struct Visual {
    /// The name of the sprite sheet.
    pub sheet: &'static str,
    /// The edge of one frame in pixels.
    pub tile: u32,
    /// The number of frames in the sheet.
    pub frames: usize,
    /// The time that each frame is shown, in nanoseconds.
    pub period: u64,
}

/// The name of the sprite sheet of a condition.
pub open spec fn sheet_of(effect: Effect) -> Seq<char> {
    match effect {
        Effect::OnFire => "on_fire.png"@,
        Effect::Shocked => "shocked.png"@,
        Effect::DelayedExplosion => "fire_lightning.png"@,
        Effect::Blinded => "blinded.png"@,
        Effect::Slowed => "slowed.png"@,
    }
}

/// The visual to attach to an agent on which `effect` became active.
pub fn attach_visuals(effect: Effect) -> (v: Visual)
    ensures
        v.sheet@ == sheet_of(effect),
        v.tile == (if effect == Effect::Shocked {
            32u32
        } else {
            16u32
        }),
        v.frames == (match effect {
            Effect::DelayedExplosion => 2usize,
            Effect::Slowed => 4usize,
            _ => 5usize,
        }),
        v.period == 100_000_000,
{
    match effect {
        Effect::OnFire => Visual { sheet: "on_fire.png", tile: 16, frames: 5, period: 100_000_000 },
        Effect::Shocked => Visual { sheet: "shocked.png", tile: 32, frames: 5, period: 100_000_000 },
        Effect::DelayedExplosion => Visual {
            sheet: "fire_lightning.png",
            tile: 16,
            frames: 2,
            period: 100_000_000,
        },
        Effect::Blinded => Visual { sheet: "blinded.png", tile: 16, frames: 5, period: 100_000_000 },
        Effect::Slowed => Visual { sheet: "slowed.png", tile: 16, frames: 4, period: 100_000_000 },
    }
}

/// Applying a kind that is already active does not add a second
/// condition: the agent has the same kinds as before, and the condition
/// of that kind is at its start.
pub proof fn lemma_reapplying_does_not_stack(c: Conditions, effect: Effect, other: Effect)
    ensures
        c.with(effect).has(effect),
        other != effect ==> c.with(effect).has(other) == c.has(other),
        c.with(effect).with(effect) == c.with(effect),
{
}

} // verus!
