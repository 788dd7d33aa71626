//! The global time scale and the small timers every entity may carry.

use vstd::prelude::*;
use crate::timer::Timer;
use crate::units::UNIT;

verus! {

/// The factor, in thousandths, by which every gameplay delta is multiplied
/// before it reaches a timer.
#[derive(Clone, Copy, Debug, PartialEq, Eq, Structural)]
pub struct TimeScale(pub u32);

impl TimeScale {
    /// `delta` multiplied by the time scale, rounded down and held to the
    /// range of `u64`.
    pub open spec fn scaled_delta(self, delta: u64) -> u64 {
        let q = (delta as int * self.0 as int) / (UNIT as int);
        if q > u64::MAX as int {
            u64::MAX
        } else {
            q as u64
        }
    }

    /// Computes [`TimeScale::scaled_delta`].
    pub fn scale_delta(&self, delta: u64) -> (d: u64)
        ensures
            d == self.scaled_delta(delta),
    {
        assert(delta as int * self.0 as int <= 0xffff_ffff_ffff_ffff * 0xffff_ffff) by (nonlinear_arith)
            requires
                0 <= delta as int <= 0xffff_ffff_ffff_ffff,
                0 <= self.0 as int <= 0xffff_ffff,
        ;
        let wide: u128 = (delta as u128) * (self.0 as u128);
        let q: u128 = wide / (UNIT as u128);
        if q > u64::MAX as u128 {
            u64::MAX
        } else {
            q as u64
        }
    }
}

/// Marks an entity whose timers run at real time, whatever the time
/// scale.
#[derive(Clone, Copy, Debug, PartialEq, Eq, Structural)]
pub struct TimeIndependent;

/// The repeating timer of an animation that runs through all the frames
/// of its sheet.
#[derive(Clone, Copy, Debug, PartialEq, Eq, Structural)]
pub struct UniformAnim(pub Timer);

/// The one-shot timer after which an entity vanishes.
#[derive(Clone, Copy, Debug, PartialEq, Eq, Structural)]
pub struct DespawnTimer(pub Timer);

/// The delta that reaches the timers of an entity: the plain delta if the
/// entity is independent of the time scale, else the scaled one.
pub open spec fn felt_delta(delta: u64, time_scale: TimeScale, independent: bool) -> u64 {
    if independent {
        delta
    } else {
        time_scale.scaled_delta(delta)
    }
}

/// Computes [`felt_delta`].
pub fn feel_delta(delta: u64, time_scale: &TimeScale, independent: bool) -> (d: u64)
    ensures
        d == felt_delta(delta, *time_scale, independent),
{
    if independent {
        delta
    } else {
        time_scale.scale_delta(delta)
    }
}

/// Advances a uniform animation over a sheet of `frames` frames by one
/// tick: when the timer completes, the next frame is shown, the first one
/// after the last.
pub fn update_animations(
    sprite_index: &mut usize,
    timer: &mut UniformAnim,
    frames: usize,
    independent: bool,
    delta: u64,
    time_scale: &TimeScale,
)
    requires
        frames > 0,
    ensures
        final(timer).0 == old(timer).0.ticked(felt_delta(delta, *time_scale, independent)),
        *final(sprite_index) == (if final(timer).0.times_finished > 0 {
            (*old(sprite_index) + 1) % (frames as int)
        } else {
            *old(sprite_index) as int
        }),
{
    timer.0.tick(feel_delta(delta, time_scale, independent));
    if timer.0.just_finished() {
        let next: u128 = (*sprite_index as u128 + 1) % (frames as u128);
        *sprite_index = next as usize;
    }
}

/// Advances a despawn timer by one tick and tells whether the entity is
/// to vanish now: on the tick on which the timer completes.
pub fn update_despawn(
    timer: &mut DespawnTimer,
    independent: bool,
    delta: u64,
    time_scale: &TimeScale,
) -> (gone: bool)
    ensures
        final(timer).0 == old(timer).0.ticked(felt_delta(delta, *time_scale, independent)),
        gone == (final(timer).0.times_finished > 0),
{
    timer.0.tick(feel_delta(delta, time_scale, independent));
    timer.0.just_finished()
}

} // verus!
