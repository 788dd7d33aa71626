//! The timer that suppresses an agent's movement after an impact.

use vstd::prelude::*;
use crate::timer::Timer;
use crate::utils::TimeScale;

verus! {

/// While this one-shot timer is running, the agent is stunned.
#[derive(Clone, Copy, Debug, PartialEq, Eq, Structural)]
pub struct HitstunTimer(pub Timer);

impl HitstunTimer {
    /// The timer after a stun of `duration` nanoseconds begins: it runs
    /// from zero over the new duration.
    pub open spec fn stunned_for(self, duration: u64) -> HitstunTimer {
        HitstunTimer((Timer { duration, ..self.0 }).restarted())
    }

    /// Begins a stun of `duration` nanoseconds.
    pub fn stun(&mut self, duration: u64)
        ensures
            *final(self) == old(self).stunned_for(duration),
    {
        self.0.set_duration(duration);
        self.0.reset();
    }

    /// Advances the timer by `delta` nanoseconds at the given time scale.
    pub fn tick(&mut self, delta: u64, time_scale: &TimeScale)
        ensures
            final(self).0 == old(self).0.ticked(time_scale.scaled_delta(delta)),
    {
        self.0.tick(time_scale.scale_delta(delta));
    }
}

} // verus!
