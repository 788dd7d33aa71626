//! Hazard volumes and the effect primitives attached to them.
//!
//! A hazard carries at most one primitive of each kind. One-shot primitives
//! act when a contact starts. Continuous primitives keep the set of targets
//! that currently overlap the hazard and act on that set at every tick.

use vstd::prelude::*;
use crate::entity_set::EntityId;
use crate::entity_set::EntitySet;
pub use crate::falloff::Falloff;
use crate::geometry::Vector;
use crate::health::HealthChange;
use crate::status::Effect;
use crate::timer::Timer;
use crate::units::clamp_i64;
use crate::units::scale;
use crate::units::lemma_scaled_within;
use crate::units::scaled;
use crate::units::UNIT;

verus! {

/// Marks an entity as a hazard volume.
#[derive(Clone, Copy, Debug, PartialEq, Eq, Structural)]
pub struct Hitbox;

/// One-shot: stuns the target for the given number of nanoseconds.
#[derive(Clone, Copy, Debug, PartialEq, Eq, Structural)]
pub struct Hitstun(pub u64);

/// One-shot: pushes the target away from the hazard's origin.
#[derive(Clone, Copy, Debug, PartialEq, Eq, Structural)]
pub struct RadialImpulse {
    pub force: i64,
    pub falloff: Falloff,
}

/// One-shot: pushes the target along a fixed vector.
#[derive(Clone, Copy, Debug, PartialEq, Eq, Structural)]
pub struct DirectedImpulse(pub Vector);

/// One-shot: afflicts the target with a condition.
#[derive(Clone, Copy, Debug, PartialEq, Eq, Structural)]
pub struct StatusEffect(pub Effect);

/// Continuous: pushes every overlapping target away from the origin.
pub struct RadialForce {
    force: i64,
    falloff: Falloff,
    hostages: EntitySet,
}

/// Continuous: pushes every overlapping target along a fixed vector.
pub struct DirectedForce {
    force: Vector,
    hostages: EntitySet,
}

/// One-shot: damages each target once in the hazard's lifetime.
pub struct DamageOnce {
    amount: i64,
    falloff: Falloff,
    hit: EntitySet,
}

/// Continuous: damages every overlapping target each time its period ends.
pub struct DamagePeriodic {
    amount: i64,
    falloff: Falloff,
    period: Timer,
    hostages: EntitySet,
}

/// What a [`RadialForce`] holds.
pub struct RadialForceView {
    pub force: i64,
    pub falloff: Falloff,
    pub hostages: Set<EntityId>,
}

/// What a [`DirectedForce`] holds.
pub struct DirectedForceView {
    pub force: Vector,
    pub hostages: Set<EntityId>,
}

/// What a [`DamageOnce`] holds.
pub struct DamageOnceView {
    pub amount: i64,
    pub falloff: Falloff,
    pub hit: Set<EntityId>,
}

/// What a [`DamagePeriodic`] holds.
pub struct DamagePeriodicView {
    pub amount: i64,
    pub falloff: Falloff,
    pub period: Timer,
    pub hostages: Set<EntityId>,
}

impl View for RadialForce {
    type V = RadialForceView;

    closed spec fn view(&self) -> RadialForceView {
        RadialForceView { force: self.force, falloff: self.falloff, hostages: self.hostages@ }
    }
}

impl View for DirectedForce {
    type V = DirectedForceView;

    closed spec fn view(&self) -> DirectedForceView {
        DirectedForceView { force: self.force, hostages: self.hostages@ }
    }
}

impl View for DamageOnce {
    type V = DamageOnceView;

    closed spec fn view(&self) -> DamageOnceView {
        DamageOnceView { amount: self.amount, falloff: self.falloff, hit: self.hit@ }
    }
}

impl View for DamagePeriodic {
    type V = DamagePeriodicView;

    closed spec fn view(&self) -> DamagePeriodicView {
        DamagePeriodicView {
            amount: self.amount,
            falloff: self.falloff,
            period: self.period,
            hostages: self.hostages@,
        }
    }
}

impl RadialImpulse {
    pub fn new(force: i64, falloff: Falloff) -> (p: RadialImpulse)
        ensures
            p == (RadialImpulse { force, falloff }),
    {
        RadialImpulse { force, falloff }
    }
}

impl RadialForce {
    /// A radial force that holds no target yet.
    pub fn new(force: i64, falloff: Falloff) -> (p: RadialForce)
        ensures
            p@ == (RadialForceView { force, falloff, hostages: Set::empty() }),
    {
        RadialForce { force, falloff, hostages: EntitySet::new() }
    }

    /// Whether `target` currently overlaps the hazard.
    pub fn holds(&self, target: EntityId) -> (b: bool)
        ensures
            b == self@.hostages.contains(target),
    {
        self.hostages.contains(target)
    }

    /// The nominal strength of the push.
    pub fn force(&self) -> (f: i64)
        ensures
            f == self@.force,
    {
        self.force
    }

    /// The attenuation of the push with distance.
    pub fn falloff(&self) -> (f: Falloff)
        ensures
            f == self@.falloff,
    {
        self.falloff
    }
}

impl DirectedForce {
    /// A directed force that holds no target yet.
    pub fn new(force: Vector) -> (p: DirectedForce)
        ensures
            p@ == (DirectedForceView { force, hostages: Set::empty() }),
    {
        DirectedForce { force, hostages: EntitySet::new() }
    }

    /// Whether `target` currently overlaps the hazard.
    pub fn holds(&self, target: EntityId) -> (b: bool)
        ensures
            b == self@.hostages.contains(target),
    {
        self.hostages.contains(target)
    }

    /// The vector by which held targets are pushed.
    pub fn force(&self) -> (f: Vector)
        ensures
            f == self@.force,
    {
        self.force
    }
}

impl DamageOnce {
    /// A one-shot damage that has hit nobody yet.
    pub fn new(amount: i64, falloff: Falloff) -> (p: DamageOnce)
        ensures
            p@ == (DamageOnceView { amount, falloff, hit: Set::empty() }),
    {
        DamageOnce { amount, falloff, hit: EntitySet::new() }
    }

    /// Whether `target` has already been damaged by this hazard.
    pub fn has_hit(&self, target: EntityId) -> (b: bool)
        ensures
            b == self@.hit.contains(target),
    {
        self.hit.contains(target)
    }
}

impl DamagePeriodic {
    /// A periodic damage that holds no target yet. Its period is a
    /// repeating timer of `period` nanoseconds.
    pub fn new(amount: i64, falloff: Falloff, period: u64) -> (p: DamagePeriodic)
        ensures
            p@ == (DamagePeriodicView {
                amount,
                falloff,
                period: Timer::fresh(period, true),
                hostages: Set::empty(),
            }),
    {
        DamagePeriodic {
            amount,
            falloff,
            period: Timer::new(period, true),
            hostages: EntitySet::new(),
        }
    }

    /// Whether `target` currently overlaps the hazard.
    pub fn holds(&self, target: EntityId) -> (b: bool)
        ensures
            b == self@.hostages.contains(target),
    {
        self.hostages.contains(target)
    }

    /// The nominal damage of one period.
    pub fn amount(&self) -> (a: i64)
        ensures
            a == self@.amount,
    {
        self.amount
    }

    /// The attenuation of the damage with distance.
    pub fn falloff(&self) -> (f: Falloff)
        ensures
            f == self@.falloff,
    {
        self.falloff
    }

    /// Whether the latest tick ended a period.
    pub fn period_finished(&self) -> (b: bool)
        ensures
            b == self@.period.finished,
    {
        self.period.finished()
    }

    /// Advances the period by `delta` nanoseconds.
    pub fn tick_period(&mut self, delta: u64)
        ensures
            final(self)@ == (DamagePeriodicView {
                period: old(self)@.period.ticked(delta),
                ..old(self)@
            }),
    {
        self.period.tick(delta);
    }
}

/// How a target is to be pushed.
#[derive(Clone, Copy, Debug, PartialEq, Eq, Structural)]
pub enum Push {
    /// Along `offset`, the displacement from the hazard's origin to the
    /// target, with the given strength.
    Radial { offset: Vector, magnitude: i64 },
    /// By exactly this vector.
    Directed { impulse: Vector },
}

/// A request to push `target` once.
#[derive(Clone, Copy, Debug, PartialEq, Eq, Structural)]
pub struct ImpulseRequest {
    pub target: EntityId,
    pub push: Push,
}

/// The strength of a radial push of nominal `force` at `position`.
pub open spec fn radial_magnitude(
    force: i64,
    falloff: Falloff,
    origin: Vector,
    position: Vector,
) -> int {
    scaled(force as int, falloff.amount_at(position.distance_from(origin)))
}

/// The radial push on a target at `position`.
pub open spec fn radial_push(
    target: EntityId,
    force: i64,
    falloff: Falloff,
    origin: Vector,
    position: Vector,
) -> ImpulseRequest {
    ImpulseRequest {
        target,
        push: Push::Radial {
            offset: position.offset_from(origin),
            magnitude: radial_magnitude(force, falloff, origin, position) as i64,
        },
    }
}

/// The health change that a damage of nominal `amount` causes at
/// `position`: the attenuated amount, negated.
pub open spec fn damage_at(
    target: EntityId,
    amount: i64,
    falloff: Falloff,
    origin: Vector,
    position: Vector,
) -> HealthChange {
    HealthChange {
        target,
        amount: clamp_i64(
            -scaled(amount as int, falloff.amount_at(position.distance_from(origin))),
        ) as i64,
    }
}

/// Without falloff a damage changes the health by exactly its amount,
/// whatever the distance.
pub proof fn lemma_flat_damage_is_the_amount(
    target: EntityId,
    amount: i64,
    origin: Vector,
    position: Vector,
)
    requires
        amount > i64::MIN,
    ensures
        damage_at(target, amount, Falloff { ratio: UNIT, start: 0, end: 0 }, origin, position) == (
        HealthChange { target, amount: (-amount) as i64 }),
{
    lemma_scaled_within(amount as int, UNIT as int);
}

/// Computes [`radial_push`].
pub fn compute_radial_push(
    target: EntityId,
    force: i64,
    falloff: &Falloff,
    origin: &Vector,
    position: &Vector,
) -> (r: ImpulseRequest)
    ensures
        r == radial_push(target, force, *falloff, *origin, *position),
{
    let distance: i64 = position.distance(origin);
    let magnitude: i64 = scale(force, falloff.amount(distance));
    ImpulseRequest { target, push: Push::Radial { offset: position.offset(origin), magnitude } }
}

/// Computes [`damage_at`].
pub fn compute_damage(
    target: EntityId,
    amount: i64,
    falloff: &Falloff,
    origin: &Vector,
    position: &Vector,
) -> (r: HealthChange)
    ensures
        r == damage_at(target, amount, *falloff, *origin, *position),
{
    let distance: i64 = position.distance(origin);
    let dealt: i64 = scale(amount, falloff.amount(distance));
    let change: i64 = if dealt == i64::MIN { i64::MAX } else { -dealt };
    HealthChange { target, amount: change }
}

/// What a starting contact does to the target.
#[derive(Clone, Copy, Debug, PartialEq, Eq, Structural)]
pub struct Impact {
    /// Restart the target's hit-stun with this duration.
    pub hitstun: Option<u64>,
    /// Push from the hazard's radial impulse.
    pub radial_impulse: Option<ImpulseRequest>,
    /// Push from the hazard's directed impulse. It is issued after the
    /// radial one.
    pub directed_impulse: Option<ImpulseRequest>,
    /// Damage from the hazard's one-shot damage.
    pub damage: Option<HealthChange>,
    /// Condition to afflict the target with.
    pub status: Option<Effect>,
}

/// A hazard volume: one optional primitive of each kind.
pub struct Hazard {
    pub hitstun: Option<Hitstun>,
    pub radial_impulse: Option<RadialImpulse>,
    pub directed_impulse: Option<DirectedImpulse>,
    pub radial_force: Option<RadialForce>,
    pub directed_force: Option<DirectedForce>,
    pub damage_once: Option<DamageOnce>,
    pub damage_periodic: Option<DamagePeriodic>,
    pub status: Option<StatusEffect>,
}

/// What a [`Hazard`] holds.
pub struct HazardView {
    pub hitstun: Option<Hitstun>,
    pub radial_impulse: Option<RadialImpulse>,
    pub directed_impulse: Option<DirectedImpulse>,
    pub radial_force: Option<RadialForceView>,
    pub directed_force: Option<DirectedForceView>,
    pub damage_once: Option<DamageOnceView>,
    pub damage_periodic: Option<DamagePeriodicView>,
    pub status: Option<StatusEffect>,
}

impl View for Hazard {
    type V = HazardView;

    open spec fn view(&self) -> HazardView {
        HazardView {
            hitstun: self.hitstun,
            radial_impulse: self.radial_impulse,
            directed_impulse: self.directed_impulse,
            radial_force: match self.radial_force {
                Some(p) => Some(p@),
                None => None,
            },
            directed_force: match self.directed_force {
                Some(p) => Some(p@),
                None => None,
            },
            damage_once: match self.damage_once {
                Some(p) => Some(p@),
                None => None,
            },
            damage_periodic: match self.damage_periodic {
                Some(p) => Some(p@),
                None => None,
            },
            status: self.status,
        }
    }
}

impl HazardView {
    /// Whether a contact that starts now damages `target`: the hazard has a
    /// one-shot damage that has not hit this target before.
    pub open spec fn fires_on(self, target: EntityId) -> bool {
        self.damage_once matches Some(d) && !d.hit.contains(target)
    }

    /// What a contact that starts now does to `target`.
    pub open spec fn impact_on(self, target: EntityId, origin: Vector, position: Vector) -> Impact {
        Impact {
            hitstun: match self.hitstun {
                Some(h) => Some(h.0),
                None => None,
            },
            radial_impulse: match self.radial_impulse {
                Some(p) => Some(radial_push(target, p.force, p.falloff, origin, position)),
                None => None,
            },
            directed_impulse: match self.directed_impulse {
                Some(p) => Some(ImpulseRequest { target, push: Push::Directed { impulse: p.0 } }),
                None => None,
            },
            damage: match self.damage_once {
                Some(d) => if d.hit.contains(target) {
                    None
                } else {
                    Some(damage_at(target, d.amount, d.falloff, origin, position))
                },
                None => None,
            },
            status: match self.status {
                Some(s) => Some(s.0),
                None => None,
            },
        }
    }

    /// The hazard after a contact with `target` started: the target is
    /// recorded as hit and joins every continuous primitive.
    pub open spec fn after_start(self, target: EntityId) -> HazardView {
        HazardView {
            radial_force: match self.radial_force {
                Some(p) => Some(RadialForceView { hostages: p.hostages.insert(target), ..p }),
                None => None,
            },
            directed_force: match self.directed_force {
                Some(p) => Some(DirectedForceView { hostages: p.hostages.insert(target), ..p }),
                None => None,
            },
            damage_once: match self.damage_once {
                Some(p) => Some(DamageOnceView { hit: p.hit.insert(target), ..p }),
                None => None,
            },
            damage_periodic: match self.damage_periodic {
                Some(p) => Some(DamagePeriodicView { hostages: p.hostages.insert(target), ..p }),
                None => None,
            },
            ..self
        }
    }

    /// The hazard after a contact with `target` stopped: the target leaves
    /// every continuous primitive. It stays recorded as hit.
    pub open spec fn after_stop(self, target: EntityId) -> HazardView {
        HazardView {
            radial_force: match self.radial_force {
                Some(p) => Some(RadialForceView { hostages: p.hostages.remove(target), ..p }),
                None => None,
            },
            directed_force: match self.directed_force {
                Some(p) => Some(DirectedForceView { hostages: p.hostages.remove(target), ..p }),
                None => None,
            },
            damage_periodic: match self.damage_periodic {
                Some(p) => Some(DamagePeriodicView { hostages: p.hostages.remove(target), ..p }),
                None => None,
            },
            ..self
        }
    }
}

impl Hazard {
    /// A hazard without any primitive.
    pub fn empty() -> (h: Hazard)
        ensures
            h@ == (HazardView {
                hitstun: None,
                radial_impulse: None,
                directed_impulse: None,
                radial_force: None,
                directed_force: None,
                damage_once: None,
                damage_periodic: None,
                status: None,
            }),
    {
        Hazard {
            hitstun: None,
            radial_impulse: None,
            directed_impulse: None,
            radial_force: None,
            directed_force: None,
            damage_once: None,
            damage_periodic: None,
            status: None,
        }
    }

    /// Applies the start of a contact with `target`, which stands at
    /// `position` while the hazard's origin is at `origin`.
    ///
    /// Every one-shot primitive acts now; the one-shot damage acts only if
    /// this hazard has not damaged the target before. The target joins every
    /// continuous primitive, which act from the next tick on.
    pub fn begin_contact(&mut self, target: EntityId, origin: &Vector, position: &Vector) -> (impact:
        Impact)
        ensures
            impact == old(self)@.impact_on(target, *origin, *position),
            final(self)@ == old(self)@.after_start(target),
    {
        let hitstun: Option<u64> = match &self.hitstun {
            Some(h) => Some(h.0),
            None => None,
        };
        let radial_impulse: Option<ImpulseRequest> = match &self.radial_impulse {
            Some(p) => Some(compute_radial_push(target, p.force, &p.falloff, origin, position)),
            None => None,
        };
        let directed_impulse: Option<ImpulseRequest> = match &self.directed_impulse {
            Some(p) => Some(ImpulseRequest { target, push: Push::Directed { impulse: p.0 } }),
            None => None,
        };
        match &mut self.radial_force {
            Some(p) => {
                p.hostages.insert(target);
            },
            None => {},
        }
        match &mut self.directed_force {
            Some(p) => {
                p.hostages.insert(target);
            },
            None => {},
        }
        let damage: Option<HealthChange> = match &mut self.damage_once {
            Some(p) => {
                if p.hit.insert(target) {
                    Some(compute_damage(target, p.amount, &p.falloff, origin, position))
                } else {
                    None
                }
            },
            None => None,
        };
        match &mut self.damage_periodic {
            Some(p) => {
                p.hostages.insert(target);
            },
            None => {},
        }
        let status: Option<Effect> = match &self.status {
            Some(s) => Some(s.0),
            None => None,
        };
        Impact { hitstun, radial_impulse, directed_impulse, damage, status }
    }

    /// Applies the end of a contact with `target`: it leaves every
    /// continuous primitive.
    pub fn end_contact(&mut self, target: EntityId)
        ensures
            final(self)@ == old(self)@.after_stop(target),
    {
        match &mut self.radial_force {
            Some(p) => {
                p.hostages.remove(target);
            },
            None => {},
        }
        match &mut self.directed_force {
            Some(p) => {
                p.hostages.remove(target);
            },
            None => {},
        }
        match &mut self.damage_periodic {
            Some(p) => {
                p.hostages.remove(target);
            },
            None => {},
        }
    }
}

/// One change in the overlap between a hazard and a target.
#[derive(Clone, Copy, Debug, PartialEq, Eq, Structural)]
pub enum Contact {
    Start(EntityId),
    Stop(EntityId),
}

impl HazardView {
    /// The hazard after one contact change.
    pub open spec fn after_contact(self, contact: Contact) -> HazardView {
        match contact {
            Contact::Start(target) => self.after_start(target),
            Contact::Stop(target) => self.after_stop(target),
        }
    }

    /// How many of `contacts`, applied in order to this hazard, damage
    /// `target` through the one-shot damage.
    pub open spec fn firings(self, contacts: Seq<Contact>, target: EntityId) -> nat
        decreases contacts.len(),
    {
        if contacts.len() == 0 {
            0
        } else {
            let now: nat = if contacts[0] == Contact::Start(target) && self.fires_on(target) {
                1
            } else {
                0
            };
            now + self.after_contact(contacts[0]).firings(contacts.drop_first(), target)
        }
    }
}

/// A hazard that cannot damage `target` now can never damage it later,
/// whatever contacts start and stop.
pub proof fn lemma_spent_hazard_stays_spent(h: HazardView, contacts: Seq<Contact>, target: EntityId)
    requires
        !h.fires_on(target),
    ensures
        h.firings(contacts, target) == 0,
    decreases contacts.len(),
{
    if contacts.len() > 0 {
        lemma_spent_hazard_stays_spent(
            h.after_contact(contacts[0]),
            contacts.drop_first(),
            target,
        );
    }
}

/// The one-shot damage of a hazard fires at most once for a given target,
/// however many contacts with it start, overlapping or not, and whether or
/// not contacts stop in between.
pub proof fn lemma_damage_once_fires_at_most_once(
    h: HazardView,
    contacts: Seq<Contact>,
    target: EntityId,
)
    ensures
        h.firings(contacts, target) <= 1,
    decreases contacts.len(),
{
    if contacts.len() > 0 {
        let next = h.after_contact(contacts[0]);
        if contacts[0] == Contact::Start(target) && h.fires_on(target) {
            lemma_spent_hazard_stays_spent(next, contacts.drop_first(), target);
        } else {
            lemma_damage_once_fires_at_most_once(next, contacts.drop_first(), target);
        }
    }
}

} // verus!
