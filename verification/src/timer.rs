//! A tick-driven timer over fixed-point microseconds.
//!
//! The timer accumulates elapsed time and fires when the accumulated time
//! reaches its duration. It fires at most once per tick and discards any
//! overshoot, which is exact enough for frame pacing: a tick is far shorter
//! than any duration used in the scene.

use vstd::prelude::*;

verus! {

/// Accumulates time and fires when `elapsed` reaches `duration`.
#[derive(Clone, Copy, Debug)]
pub struct Timer {
    /// Time accumulated since the last firing or reset, in microseconds.
    pub elapsed: u64,
    /// Time at which the timer fires, in microseconds.
    pub duration: u64,
}

impl Timer {
    /// A fresh timer that fires once `duration` microseconds accumulate.
    pub fn new(duration: u64) -> (t: Timer)
        ensures
            t.elapsed == 0,
            t.duration == duration,
    {
        Timer { elapsed: 0, duration }
    }

    /// Advances the timer by `delta` microseconds. Fires exactly when the
    /// accumulated time reaches the duration; firing empties the timer.
    pub fn tick(&mut self, delta: u64) -> (fired: bool)
        ensures
            fired == (old(self).elapsed + delta >= old(self).duration),
            final(self).duration == old(self).duration,
            fired ==> final(self).elapsed == 0,
            !fired ==> final(self).elapsed == old(self).elapsed + delta,
    {
        let fired = if self.elapsed >= self.duration {
            true
        } else {
            delta >= self.duration - self.elapsed
        };
        if fired {
            self.elapsed = 0;
        } else {
            self.elapsed = self.elapsed + delta;
        }
        fired
    }

    /// Empties the accumulated time; the duration is kept.
    pub fn reset(&mut self)
        ensures
            final(self).elapsed == 0,
            final(self).duration == old(self).duration,
    {
        self.elapsed = 0;
    }

    /// Changes the duration; the accumulated time is kept, so a shorter
    /// duration can make the next tick fire sooner.
    pub fn set_duration(&mut self, duration: u64)
        ensures
            final(self).duration == duration,
            final(self).elapsed == old(self).elapsed,
    {
        self.duration = duration;
    }
}

} // verus!
