//! Countdown timers advanced by explicit deltas.
//!
//! A timer never reads a clock. It holds how many nanoseconds have elapsed
//! and is moved forward only by [`Timer::tick`].

use vstd::prelude::*;

verus! {

/// A countdown over a fixed duration, either one-shot or repeating.
///
/// A one-shot timer stops at its duration and stays finished until it is
/// reset. A repeating timer wraps around: it is finished only on the ticks
/// during which it completed at least one full period.
#[derive(Clone, Copy, Debug, PartialEq, Eq, Structural)]
pub struct Timer {
    /// Nanoseconds counted so far (within the current period when repeating).
    pub elapsed: u64,
    /// Length of one period in nanoseconds.
    pub duration: u64,
    /// Whether the timer starts over when it completes.
    pub repeating: bool,
    /// Whether the timer completed (see the type's description).
    pub finished: bool,
    /// How many periods completed during the latest tick.
    pub times_finished: u32,
    /// While set, ticks do not advance the timer.
    pub paused: bool,
}

impl Timer {
    /// A fresh timer: nothing elapsed, not finished, not paused.
    pub open spec fn fresh(duration: u64, repeating: bool) -> Timer {
        Timer {
            elapsed: 0,
            duration,
            repeating,
            finished: false,
            times_finished: 0,
            paused: false,
        }
    }

    /// The number of whole periods in `total`, held to the range of `u32`.
    pub open spec fn periods_in(total: int, duration: int) -> int {
        if duration == 0 {
            1
        } else if total / duration > u32::MAX as int {
            u32::MAX as int
        } else {
            total / duration
        }
    }

    /// The timer after one tick of `delta` nanoseconds.
    ///
    /// A paused timer does not advance; when repeating it also stops being
    /// finished. A finished one-shot timer stays as it is. Otherwise `delta`
    /// is added: a one-shot timer stops at its duration, a repeating timer
    /// keeps the remainder and counts the periods that passed. A repeating
    /// timer of duration zero completes once on every tick.
    pub open spec fn ticked(self, delta: u64) -> Timer {
        let total = self.elapsed as int + delta as int;
        if self.paused {
            Timer {
                times_finished: 0,
                finished: if self.repeating { false } else { self.finished },
                ..self
            }
        } else if !self.repeating && self.finished {
            Timer { times_finished: 0, ..self }
        } else if total < self.duration as int {
            Timer { elapsed: total as u64, finished: false, times_finished: 0, ..self }
        } else if !self.repeating {
            Timer { elapsed: self.duration, finished: true, times_finished: 1, ..self }
        } else if self.duration == 0 {
            Timer { elapsed: 0, finished: true, times_finished: 1, ..self }
        } else {
            Timer {
                elapsed: (total % (self.duration as int)) as u64,
                finished: true,
                times_finished: Self::periods_in(total, self.duration as int) as u32,
                ..self
            }
        }
    }

    /// The timer started over, keeping its duration, mode and pause flag.
    pub open spec fn restarted(self) -> Timer {
        Timer { elapsed: 0, finished: false, times_finished: 0, ..self }
    }

    /// Creates a timer that has not started counting.
    pub fn new(duration: u64, repeating: bool) -> (t: Timer)
        ensures
            t == Timer::fresh(duration, repeating),
    {
        Timer {
            elapsed: 0,
            duration,
            repeating,
            finished: false,
            times_finished: 0,
            paused: false,
        }
    }

    /// Whether the timer completed.
    pub fn finished(&self) -> (b: bool)
        ensures
            b == self.finished,
    {
        self.finished
    }

    /// Whether the timer completed during the latest tick.
    pub fn just_finished(&self) -> (b: bool)
        ensures
            b == (self.times_finished > 0),
    {
        self.times_finished > 0
    }

    /// Whether ticks are currently ignored.
    pub fn paused(&self) -> (b: bool)
        ensures
            b == self.paused,
    {
        self.paused
    }

    /// Stops the timer from advancing.
    pub fn pause(&mut self)
        ensures
            *final(self) == (Timer { paused: true, ..*old(self) }),
    {
        self.paused = true;
    }

    /// Lets the timer advance again.
    pub fn unpause(&mut self)
        ensures
            *final(self) == (Timer { paused: false, ..*old(self) }),
    {
        self.paused = false;
    }

    /// Changes the length of a period without touching what has elapsed.
    pub fn set_duration(&mut self, duration: u64)
        ensures
            *final(self) == (Timer { duration, ..*old(self) }),
    {
        self.duration = duration;
    }

    /// Starts the timer over.
    pub fn reset(&mut self)
        ensures
            *final(self) == old(self).restarted(),
    {
        self.elapsed = 0;
        self.finished = false;
        self.times_finished = 0;
    }

    /// Advances the timer by `delta` nanoseconds.
    pub fn tick(&mut self, delta: u64)
        ensures
            *final(self) == old(self).ticked(delta),
    {
        if self.paused {
            self.times_finished = 0;
            if self.repeating {
                self.finished = false;
            }
            return ;
        }
        if !self.repeating && self.finished {
            self.times_finished = 0;
            return ;
        }
        let total: u128 = self.elapsed as u128 + delta as u128;
        if total < self.duration as u128 {
            self.elapsed = total as u64;
            self.finished = false;
            self.times_finished = 0;
        } else if !self.repeating {
            self.elapsed = self.duration;
            self.finished = true;
            self.times_finished = 1;
        } else if self.duration == 0 {
            self.elapsed = 0;
            self.finished = true;
            self.times_finished = 1;
        } else {
            let period: u128 = self.duration as u128;
            let whole: u128 = total / period;
            let rest: u128 = total % period;
            self.elapsed = rest as u64;
            self.finished = true;
            self.times_finished = if whole > u32::MAX as u128 {
                u32::MAX
            } else {
                whole as u32
            };
        }
    }
}

} // verus!
