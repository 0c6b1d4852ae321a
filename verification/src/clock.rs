//! The animation clock. The counting itself is done by the engine's
//! `Timer`; the two functions at the end of this file hand it the clock's
//! plain values and read the outcome back.

use vstd::prelude::*;
use bevy::time::{Timer, TimerMode};
use std::time::Duration;
use crate::components::AnimationTimer;

verus! {

impl AnimationTimer {
    /// The clock after `delta_ns` more nanoseconds. A finished clock stays
    /// as it is. Otherwise the elapsed time grows by `delta_ns`, stops at
    /// the duration, and the clock is finished once it has got that far.
    pub open spec fn ticked(self, delta_ns: u64) -> AnimationTimer {
        if self.finished {
            self
        } else if self.elapsed_ns + delta_ns >= self.duration_ns {
            AnimationTimer { elapsed_ns: self.duration_ns, duration_ns: self.duration_ns, finished: true }
        } else {
            AnimationTimer {
                elapsed_ns: (self.elapsed_ns + delta_ns) as u64,
                duration_ns: self.duration_ns,
                finished: false,
            }
        }
    }

    /// The clock run to its end.
    pub open spec fn completed(self) -> AnimationTimer {
        AnimationTimer { elapsed_ns: self.duration_ns, duration_ns: self.duration_ns, finished: true }
    }

    /// Whole milliseconds counted so far.
    pub open spec fn elapsed_ms(self) -> int {
        self.elapsed_ns as int / 1_000_000
    }

    /// Advances the clock by `delta_ns` nanoseconds.
    pub fn tick(&mut self, delta_ns: u64)
        requires
            old(self).wf(),
        ensures
            *final(self) == old(self).ticked(delta_ns),
            final(self).wf(),
    {
        if !self.finished {
            *self = timer_tick(*self, delta_ns);
        }
    }

    /// Runs the clock to its end.
    pub fn finish(&mut self)
        requires
            old(self).wf(),
        ensures
            *final(self) == old(self).completed(),
            final(self).wf(),
    {
        *self = timer_finish(*self);
    }

    /// Whether the clock has reached its duration.
    pub fn is_finished(&self) -> (f: bool)
        ensures
            f == self.finished,
    {
        self.finished
    }

    /// Whole milliseconds counted so far.
    pub fn elapsed_millis(&self) -> (ms: u64)
        ensures
            ms == self.elapsed_ms(),
    {
        self.elapsed_ns / 1_000_000
    }
}

/// Calls `Timer::tick` of bevy on a fresh, running, non-repeating timer
/// with the given duration and elapsed time. Assumed of it: the elapsed
/// time grows by `delta_ns`; the timer is finished exactly if it has then
/// reached the duration, and in that case it rests on the duration.
#[verifier::external_body]
fn timer_tick(timer: AnimationTimer, delta_ns: u64) -> (t: AnimationTimer)
    ensures
        t.duration_ns == timer.duration_ns,
        t.finished == (timer.elapsed_ns + delta_ns >= timer.duration_ns),
        t.elapsed_ns == if t.finished {
            timer.duration_ns as int
        } else {
            timer.elapsed_ns + delta_ns
        },
{
    let mut clock = Timer::new(Duration::from_nanos(timer.duration_ns), TimerMode::Once);
    clock.set_elapsed(Duration::from_nanos(timer.elapsed_ns));
    clock.tick(Duration::from_nanos(delta_ns));
    AnimationTimer {
        elapsed_ns: clock.elapsed().as_nanos() as u64,
        duration_ns: timer.duration_ns,
        finished: clock.is_finished(),
    }
}

/// Calls `Timer::finish` of bevy on a fresh, running, non-repeating timer
/// with the given duration and elapsed time. Assumed of it: the timer is
/// finished afterwards and rests on its duration. The call subtracts the
/// elapsed time from the duration, so the elapsed time must not be the
/// larger one.
#[verifier::external_body]
fn timer_finish(timer: AnimationTimer) -> (t: AnimationTimer)
    requires
        timer.elapsed_ns <= timer.duration_ns,
    ensures
        t.duration_ns == timer.duration_ns,
        t.elapsed_ns == timer.duration_ns,
        t.finished,
{
    let mut clock = Timer::new(Duration::from_nanos(timer.duration_ns), TimerMode::Once);
    clock.set_elapsed(Duration::from_nanos(timer.elapsed_ns));
    clock.finish();
    AnimationTimer {
        elapsed_ns: clock.elapsed().as_nanos() as u64,
        duration_ns: timer.duration_ns,
        finished: clock.is_finished(),
    }
}

} // verus!
