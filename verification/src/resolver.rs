//! Turns collision events into effects on targets.
//!
//! Each tick runs two steps in this order. [`update_continuous_boxes`] lets
//! every continuous primitive act on the targets it currently holds. Then
//! [`handle_hits`] drains the tick's collision events: a starting contact
//! fires the one-shot primitives and enrols the target, a stopping contact
//! withdraws it.

use vstd::prelude::*;
use crate::entity_set::EntityId;
use crate::geometry::Vector;
use crate::health::HealthChange;
use crate::hitbox::compute_damage;
use crate::hitbox::compute_radial_push;
use crate::hitbox::damage_at;
use crate::hitbox::radial_push;
use crate::hitbox::DamagePeriodicView;
use crate::hitbox::DirectedForceView;
use crate::hitbox::Hazard;
use crate::hitbox::HazardView;
use crate::hitbox::Impact;
use crate::hitbox::ImpulseRequest;
use crate::hitbox::Push;
use crate::hitbox::RadialForceView;
use crate::hitstun::HitstunTimer;
use crate::status::Effect;
use crate::utils::TimeScale;

verus! {

/// An agent that hazards can act on.
#[derive(Clone, Copy, Debug, PartialEq, Eq, Structural)]
pub struct Target {
    pub id: EntityId,
    /// Where the agent stands now.
    pub position: Vector,
    pub hitstun: HitstunTimer,
    /// A condition that a hazard applied and the status engine has not yet
    /// taken up.
    pub pending: Option<Effect>,
}

impl Target {
    /// The target after an impact: a hit-stun restarts its timer with the
    /// new duration, a status becomes its pending condition.
    pub open spec fn struck(self, impact: Impact) -> Target {
        Target {
            hitstun: match impact.hitstun {
                Some(d) => self.hitstun.stunned_for(d),
                None => self.hitstun,
            },
            pending: match impact.status {
                Some(e) => Some(e),
                None => self.pending,
            },
            ..self
        }
    }

    /// Applies an impact to the target.
    pub fn strike(&mut self, impact: &Impact)
        ensures
            *final(self) == old(self).struck(*impact),
    {
        match impact.hitstun {
            Some(d) => {
                self.hitstun.stun(d);
            },
            None => {},
        }
        match impact.status {
            Some(e) => {
                self.pending = Some(e);
            },
            None => {},
        }
    }
}

/// The pushes that a radial force gives: one for each of `targets` that it
/// holds, in their order, each at the target's present position.
pub open spec fn radial_pushes(p: RadialForceView, origin: Vector, targets: Seq<Target>) -> Seq<
    ImpulseRequest,
>
    decreases targets.len(),
{
    if targets.len() == 0 {
        Seq::empty()
    } else {
        let before = radial_pushes(p, origin, targets.drop_last());
        let t = targets.last();
        if p.hostages.contains(t.id) {
            before.push(radial_push(t.id, p.force, p.falloff, origin, t.position))
        } else {
            before
        }
    }
}

/// The pushes that a directed force gives: one for each of `targets` that
/// it holds, in their order.
pub open spec fn directed_pushes(p: DirectedForceView, targets: Seq<Target>) -> Seq<ImpulseRequest>
    decreases targets.len(),
{
    if targets.len() == 0 {
        Seq::empty()
    } else {
        let before = directed_pushes(p, targets.drop_last());
        let t = targets.last();
        if p.hostages.contains(t.id) {
            before.push(ImpulseRequest { target: t.id, push: Push::Directed { impulse: p.force } })
        } else {
            before
        }
    }
}

/// The damage that a periodic damage deals when its period ends: one
/// change for each of `targets` that it holds, in their order, each at the
/// target's present position.
pub open spec fn periodic_damage(p: DamagePeriodicView, origin: Vector, targets: Seq<Target>) -> Seq<
    HealthChange,
>
    decreases targets.len(),
{
    if targets.len() == 0 {
        Seq::empty()
    } else {
        let before = periodic_damage(p, origin, targets.drop_last());
        let t = targets.last();
        if p.hostages.contains(t.id) {
            before.push(damage_at(t.id, p.amount, p.falloff, origin, t.position))
        } else {
            before
        }
    }
}

/// The hazard after its periodic damage was ticked by `delta` nanoseconds.
pub open spec fn hazard_after_tick(h: HazardView, delta: u64) -> HazardView {
    HazardView {
        damage_periodic: match h.damage_periodic {
            Some(p) => Some(DamagePeriodicView { period: p.period.ticked(delta), ..p }),
            None => None,
        },
        ..h
    }
}

/// The pushes that the hazard's continuous forces give in one tick: the
/// radial ones, then the directed ones.
pub open spec fn hazard_tick_impulses(h: HazardView, origin: Vector, targets: Seq<Target>) -> Seq<
    ImpulseRequest,
> {
    let radial = match h.radial_force {
        Some(p) => radial_pushes(p, origin, targets),
        None => Seq::empty(),
    };
    let directed = match h.directed_force {
        Some(p) => directed_pushes(p, targets),
        None => Seq::empty(),
    };
    radial + directed
}

/// The damage that the hazard's periodic damage deals in a tick of `delta`
/// nanoseconds: none unless the tick ends a period.
pub open spec fn hazard_tick_damage(
    h: HazardView,
    origin: Vector,
    targets: Seq<Target>,
    delta: u64,
) -> Seq<HealthChange> {
    match h.damage_periodic {
        Some(p) => if p.period.ticked(delta).finished {
            periodic_damage(p, origin, targets)
        } else {
            Seq::empty()
        },
        None => Seq::empty(),
    }
}

/// The requests that the resolver hands to the physics and health
/// collaborators, in the order in which they were issued.
pub struct Emissions {
    pub impulses: Vec<ImpulseRequest>,
    pub health: Vec<HealthChange>,
}

impl Emissions {
    /// No request yet.
    pub fn new() -> (out: Emissions)
        ensures
            out.impulses@ == Seq::<ImpulseRequest>::empty(),
            out.health@ == Seq::<HealthChange>::empty(),
    {
        Emissions { impulses: Vec::new(), health: Vec::new() }
    }
}

impl Hazard {
    /// Lets the continuous primitives act for one tick of `delta` scaled
    /// nanoseconds and appends what they request to `out`.
    ///
    /// The forces push every held target. The periodic damage advances its
    /// period and, on the tick that ends it, damages every held target.
    /// Distances are taken from the positions in `targets`.
    pub fn update(&mut self, origin: &Vector, targets: &Vec<Target>, delta: u64, out: &mut Emissions)
        ensures
            final(self)@ == hazard_after_tick(old(self)@, delta),
            final(out).impulses@ == old(out).impulses@ + hazard_tick_impulses(
                old(self)@,
                *origin,
                targets@,
            ),
            final(out).health@ == old(out).health@ + hazard_tick_damage(
                old(self)@,
                *origin,
                targets@,
                delta,
            ),
    {
        let ghost before_impulses = out.impulses@;
        let ghost before_health = out.health@;
        match &self.radial_force {
            Some(p) => {
                let mut i: usize = 0;
                while i < targets.len()
                    invariant
                        i <= targets.len(),
                        out.health@ == before_health,
                        out.impulses@ == before_impulses + radial_pushes(
                            p@,
                            *origin,
                            targets@.take(i as int),
                        ),
                    decreases targets.len() - i,
                {
                    let t = targets[i];
                    proof {
                        assert(targets@.take(i + 1).drop_last() =~= targets@.take(i as int));
                    }
                    if p.holds(t.id) {
                        out.impulses.push(
                            compute_radial_push(t.id, p.force(), &p.falloff(), origin, &t.position),
                        );
                    }
                    i += 1;
                }
                proof {
                    assert(targets@.take(targets.len() as int) =~= targets@);
                }
            },
            None => {},
        }
        let ghost mid_impulses = out.impulses@;
        match &self.directed_force {
            Some(p) => {
                let mut i: usize = 0;
                while i < targets.len()
                    invariant
                        i <= targets.len(),
                        out.health@ == before_health,
                        out.impulses@ == mid_impulses + directed_pushes(p@, targets@.take(i as int)),
                    decreases targets.len() - i,
                {
                    let t = targets[i];
                    proof {
                        assert(targets@.take(i + 1).drop_last() =~= targets@.take(i as int));
                    }
                    if p.holds(t.id) {
                        out.impulses.push(
                            ImpulseRequest { target: t.id, push: Push::Directed { impulse: p.force() } },
                        );
                    }
                    i += 1;
                }
                proof {
                    assert(targets@.take(targets.len() as int) =~= targets@);
                }
            },
            None => {},
        }
        proof {
            assert(out.impulses@ =~= before_impulses + hazard_tick_impulses(
                old(self)@,
                *origin,
                targets@,
            ));
        }
        match &mut self.damage_periodic {
            Some(p) => {
                let ghost held = p@;
                p.tick_period(delta);
                if p.period_finished() {
                    let mut i: usize = 0;
                    while i < targets.len()
                        invariant
                            i <= targets.len(),
                            p@ == (DamagePeriodicView { period: held.period.ticked(delta), ..held }),
                            out.impulses@ == before_impulses + hazard_tick_impulses(
                                old(self)@,
                                *origin,
                                targets@,
                            ),
                            out.health@ == before_health + periodic_damage(
                                held,
                                *origin,
                                targets@.take(i as int),
                            ),
                        decreases targets.len() - i,
                    {
                        let t = targets[i];
                        proof {
                            assert(targets@.take(i + 1).drop_last() =~= targets@.take(i as int));
                        }
                        if p.holds(t.id) {
                            out.health.push(
                                compute_damage(t.id, p.amount(), &p.falloff(), origin, &t.position),
                            );
                        }
                        i += 1;
                    }
                    proof {
                        assert(targets@.take(targets.len() as int) =~= targets@);
                    }
                } else {
                    proof {
                        assert(out.health@ =~= before_health + Seq::<HealthChange>::empty());
                    }
                }
            },
            None => {
                proof {
                    assert(out.health@ =~= before_health + Seq::<HealthChange>::empty());
                }
            },
        }
    }
}

/// A hazard placed in the world.
pub struct Placed {
    pub id: EntityId,
    /// Where the hazard's origin is now.
    pub origin: Vector,
    pub hazard: Hazard,
}

/// What a [`Placed`] holds.
pub struct PlacedView {
    pub id: EntityId,
    pub origin: Vector,
    pub hazard: HazardView,
}

impl View for Placed {
    type V = PlacedView;

    open spec fn view(&self) -> PlacedView {
        PlacedView { id: self.id, origin: self.origin, hazard: self.hazard@ }
    }
}

/// What each of `hazards` holds, in their order.
pub open spec fn placed_views(hazards: Seq<Placed>) -> Seq<PlacedView> {
    Seq::new(hazards.len(), |i: int| hazards[i]@)
}

/// A collision reported by the physics collaborator. It names the two
/// entities in no particular order.
#[derive(Clone, Copy, Debug, PartialEq, Eq, Structural)]
pub enum CollisionEvent {
    Started(EntityId, EntityId),
    Stopped(EntityId, EntityId),
}

/// The first index from `from` on at which `targets` holds the entity `id`.
pub open spec fn target_index_from(targets: Seq<Target>, id: EntityId, from: int) -> Option<int>
    decreases targets.len() - from,
{
    if from < 0 || from >= targets.len() {
        None
    } else if targets[from].id == id {
        Some(from)
    } else {
        target_index_from(targets, id, from + 1)
    }
}

/// The first index from `from` on at which `hazards` holds the entity `id`.
pub open spec fn hazard_index_from(hazards: Seq<PlacedView>, id: EntityId, from: int) -> Option<int>
    decreases hazards.len() - from,
{
    if from < 0 || from >= hazards.len() {
        None
    } else if hazards[from].id == id {
        Some(from)
    } else {
        hazard_index_from(hazards, id, from + 1)
    }
}

/// Which target and which hazard a collision between `e1` and `e2`
/// concerns, as indices.
///
/// If `e1` is a target, `e2` must be the hazard. Otherwise `e2` must be a
/// target and `e1` the hazard. Any other collision concerns nobody.
pub open spec fn contact_pair(
    targets: Seq<Target>,
    hazards: Seq<PlacedView>,
    e1: EntityId,
    e2: EntityId,
) -> Option<(int, int)> {
    match target_index_from(targets, e1, 0) {
        Some(t) => match hazard_index_from(hazards, e2, 0) {
            Some(h) => Some((t, h)),
            None => None,
        },
        None => match target_index_from(targets, e2, 0) {
            Some(t) => match hazard_index_from(hazards, e1, 0) {
                Some(h) => Some((t, h)),
                None => None,
            },
            None => None,
        },
    }
}

/// The pushes of an impact in the order in which they are issued.
pub open spec fn impact_impulses(impact: Impact) -> Seq<ImpulseRequest> {
    let radial = match impact.radial_impulse {
        Some(r) => seq![r],
        None => Seq::empty(),
    };
    let directed = match impact.directed_impulse {
        Some(r) => seq![r],
        None => Seq::empty(),
    };
    radial + directed
}

/// The health changes of an impact.
pub open spec fn impact_health(impact: Impact) -> Seq<HealthChange> {
    match impact.damage {
        Some(c) => seq![c],
        None => Seq::empty(),
    }
}

/// The state that the resolver works on, with the requests issued so far.
pub struct World {
    pub targets: Seq<Target>,
    pub hazards: Seq<PlacedView>,
    pub impulses: Seq<ImpulseRequest>,
    pub health: Seq<HealthChange>,
}

impl World {
    /// The world after one collision event.
    ///
    /// An event that does not pair a target with a hazard changes nothing.
    /// A starting contact strikes the target with the hazard's impact and
    /// enrols it with the hazard. A stopping contact withdraws it.
    pub open spec fn after_event(self, event: CollisionEvent) -> World {
        match event {
            CollisionEvent::Started(e1, e2) => match contact_pair(
                self.targets,
                self.hazards,
                e1,
                e2,
            ) {
                Some((t, h)) => {
                    let target = self.targets[t];
                    let placed = self.hazards[h];
                    let impact = placed.hazard.impact_on(target.id, placed.origin, target.position);
                    World {
                        targets: self.targets.update(t, target.struck(impact)),
                        hazards: self.hazards.update(
                            h,
                            PlacedView { hazard: placed.hazard.after_start(target.id), ..placed },
                        ),
                        impulses: self.impulses + impact_impulses(impact),
                        health: self.health + impact_health(impact),
                    }
                },
                None => self,
            },
            CollisionEvent::Stopped(e1, e2) => match contact_pair(
                self.targets,
                self.hazards,
                e1,
                e2,
            ) {
                Some((t, h)) => {
                    let target = self.targets[t];
                    let placed = self.hazards[h];
                    World {
                        hazards: self.hazards.update(
                            h,
                            PlacedView { hazard: placed.hazard.after_stop(target.id), ..placed },
                        ),
                        ..self
                    }
                },
                None => self,
            },
        }
    }

    /// The world after the events of `events`, each handled once, in order.
    pub open spec fn after_events(self, events: Seq<CollisionEvent>) -> World
        decreases events.len(),
    {
        if events.len() == 0 {
            self
        } else {
            self.after_events(events.drop_last()).after_event(events.last())
        }
    }

    /// The world after the continuous primitives of the first `n` hazards
    /// acted for one tick of `delta` scaled nanoseconds.
    pub open spec fn after_updates(self, n: int, delta: u64) -> World
        decreases n,
    {
        if n <= 0 || n > self.hazards.len() {
            self
        } else {
            let w = self.after_updates(n - 1, delta);
            let placed = self.hazards[n - 1];
            World {
                hazards: w.hazards.update(
                    n - 1,
                    PlacedView { hazard: hazard_after_tick(placed.hazard, delta), ..placed },
                ),
                impulses: w.impulses + hazard_tick_impulses(
                    placed.hazard,
                    placed.origin,
                    self.targets,
                ),
                health: w.health + hazard_tick_damage(
                    placed.hazard,
                    placed.origin,
                    self.targets,
                    delta,
                ),
                ..w
            }
        }
    }
}

/// Finds the first of `targets` with the identifier `id`.
pub fn find_target(targets: &Vec<Target>, id: EntityId) -> (r: Option<usize>)
    ensures
        match r {
            Some(i) => target_index_from(targets@, id, 0) == Some(i as int) && i < targets.len(),
            None => target_index_from(targets@, id, 0) is None,
        },
{
    let mut i: usize = 0;
    while i < targets.len()
        invariant
            i <= targets.len(),
            target_index_from(targets@, id, 0) == target_index_from(targets@, id, i as int),
        decreases targets.len() - i,
    {
        if targets[i].id == id {
            return Some(i);
        }
        i += 1;
    }
    None
}

/// Finds the first of `hazards` with the identifier `id`.
pub fn find_hazard(hazards: &Vec<Placed>, id: EntityId) -> (r: Option<usize>)
    ensures
        match r {
            Some(i) => hazard_index_from(placed_views(hazards@), id, 0) == Some(i as int) && i
                < hazards.len(),
            None => hazard_index_from(placed_views(hazards@), id, 0) is None,
        },
{
    let mut i: usize = 0;
    while i < hazards.len()
        invariant
            i <= hazards.len(),
            hazard_index_from(placed_views(hazards@), id, 0) == hazard_index_from(
                placed_views(hazards@),
                id,
                i as int,
            ),
        decreases hazards.len() - i,
    {
        if hazards[i].id == id {
            return Some(i);
        }
        i += 1;
    }
    None
}

/// Decides which target and which hazard a collision concerns.
pub fn find_pair(targets: &Vec<Target>, hazards: &Vec<Placed>, e1: EntityId, e2: EntityId) -> (r:
    Option<(usize, usize)>)
    ensures
        match r {
            Some((t, h)) => contact_pair(targets@, placed_views(hazards@), e1, e2) == Some(
                (t as int, h as int),
            ) && t < targets.len() && h < hazards.len(),
            None => contact_pair(targets@, placed_views(hazards@), e1, e2) is None,
        },
{
    match find_target(targets, e1) {
        Some(t) => match find_hazard(hazards, e2) {
            Some(h) => Some((t, h)),
            None => None,
        },
        None => match find_target(targets, e2) {
            Some(t) => match find_hazard(hazards, e1) {
                Some(h) => Some((t, h)),
                None => None,
            },
            None => None,
        },
    }
}

/// Drains the collision events of one tick.
///
/// Every event is handled exactly once, in order. The targets and hazards
/// are changed in place and the requests are appended to `out`, as
/// [`World::after_events`] describes.
pub fn handle_hits(
    events: &Vec<CollisionEvent>,
    targets: &mut Vec<Target>,
    hazards: &mut Vec<Placed>,
    out: &mut Emissions,
)
    ensures
        (World {
            targets: final(targets)@,
            hazards: placed_views(final(hazards)@),
            impulses: final(out).impulses@,
            health: final(out).health@,
        }) == (World {
            targets: old(targets)@,
            hazards: placed_views(old(hazards)@),
            impulses: old(out).impulses@,
            health: old(out).health@,
        }).after_events(events@),
{
    let ghost start = World {
        targets: targets@,
        hazards: placed_views(hazards@),
        impulses: out.impulses@,
        health: out.health@,
    };
    let mut i: usize = 0;
    while i < events.len()
        invariant
            i <= events.len(),
            (World {
                targets: targets@,
                hazards: placed_views(hazards@),
                impulses: out.impulses@,
                health: out.health@,
            }) == start.after_events(events@.take(i as int)),
        decreases events.len() - i,
    {
        let ghost now = World {
            targets: targets@,
            hazards: placed_views(hazards@),
            impulses: out.impulses@,
            health: out.health@,
        };
        proof {
            assert(events@.take(i + 1).drop_last() =~= events@.take(i as int));
        }
        match events[i] {
            CollisionEvent::Started(e1, e2) => {
                match find_pair(targets, hazards, e1, e2) {
                    Some((t, h)) => {
                        let target_id: EntityId = targets[t].id;
                        let position: Vector = targets[t].position;
                        let origin: Vector = hazards[h].origin;
                        let impact: Impact = hazards[h].hazard.begin_contact(
                            target_id,
                            &origin,
                            &position,
                        );
                        targets[t].strike(&impact);
                        match impact.radial_impulse {
                            Some(r) => {
                                out.impulses.push(r);
                            },
                            None => {},
                        }
                        match impact.directed_impulse {
                            Some(r) => {
                                out.impulses.push(r);
                            },
                            None => {},
                        }
                        match impact.damage {
                            Some(c) => {
                                out.health.push(c);
                            },
                            None => {},
                        }
                        proof {
                            let next = now.after_event(events@[i as int]);
                            assert(targets@ =~= next.targets);
                            assert(placed_views(hazards@) =~= next.hazards);
                            assert(out.impulses@ =~= next.impulses);
                            assert(out.health@ =~= next.health);
                        }
                    },
                    None => {},
                }
            },
            CollisionEvent::Stopped(e1, e2) => {
                match find_pair(targets, hazards, e1, e2) {
                    Some((t, h)) => {
                        let target_id: EntityId = targets[t].id;
                        hazards[h].hazard.end_contact(target_id);
                        proof {
                            let next = now.after_event(events@[i as int]);
                            assert(placed_views(hazards@) =~= next.hazards);
                        }
                    },
                    None => {},
                }
            },
        }
        i += 1;
    }
    proof {
        assert(events@.take(events.len() as int) =~= events@);
    }
}

/// Lets the continuous primitives of every hazard act for one tick.
///
/// `delta` is the tick's length in nanoseconds before the time scale is
/// applied. The hazards act in order, each as [`Hazard::update`] describes,
/// on the targets' present positions.
pub fn update_continuous_boxes(
    hazards: &mut Vec<Placed>,
    targets: &Vec<Target>,
    delta: u64,
    time_scale: &TimeScale,
    out: &mut Emissions,
)
    ensures
        (World {
            targets: targets@,
            hazards: placed_views(final(hazards)@),
            impulses: final(out).impulses@,
            health: final(out).health@,
        }) == (World {
            targets: targets@,
            hazards: placed_views(old(hazards)@),
            impulses: old(out).impulses@,
            health: old(out).health@,
        }).after_updates(old(hazards).len() as int, time_scale.scaled_delta(delta)),
{
    let scaled: u64 = time_scale.scale_delta(delta);
    let ghost start = World {
        targets: targets@,
        hazards: placed_views(hazards@),
        impulses: out.impulses@,
        health: out.health@,
    };
    let mut i: usize = 0;
    while i < hazards.len()
        invariant
            i <= hazards.len(),
            hazards.len() == start.hazards.len(),
            start.targets == targets@,
            forall|j: int| i <= j < hazards.len() ==> (#[trigger] hazards@[j])@ == start.hazards[j],
            (World {
                targets: targets@,
                hazards: placed_views(hazards@),
                impulses: out.impulses@,
                health: out.health@,
            }) == start.after_updates(i as int, scaled),
        decreases hazards.len() - i,
    {
        let origin: Vector = hazards[i].origin;
        let ghost before = hazards@;
        hazards[i].hazard.update(&origin, targets, scaled, out);
        proof {
            let next = start.after_updates(i + 1, scaled);
            assert(before[i as int]@ == start.hazards[i as int]);
            assert(placed_views(hazards@) =~= next.hazards);
        }
        i += 1;
    }
}

/// Runs the resolver for one tick, in the order that the simulation
/// prescribes: first the continuous primitives act on the targets they
/// held when the tick began, then the tick's collision events are
/// drained. A contact that stops in this tick is therefore still acted on
/// once, and one that starts is acted on from the next tick.
pub fn resolve_tick(
    events: &Vec<CollisionEvent>,
    targets: &mut Vec<Target>,
    hazards: &mut Vec<Placed>,
    delta: u64,
    time_scale: &TimeScale,
    out: &mut Emissions,
)
    ensures
        (World {
            targets: final(targets)@,
            hazards: placed_views(final(hazards)@),
            impulses: final(out).impulses@,
            health: final(out).health@,
        }) == (World {
            targets: old(targets)@,
            hazards: placed_views(old(hazards)@),
            impulses: old(out).impulses@,
            health: old(out).health@,
        }).after_updates(old(hazards).len() as int, time_scale.scaled_delta(delta)).after_events(
            events@,
        ),
{
    update_continuous_boxes(hazards, targets, delta, time_scale, out);
    handle_hits(events, targets, hazards, out);
}

} // verus!
