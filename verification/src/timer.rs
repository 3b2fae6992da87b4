//! A one-shot countdown, run by the engine's `Timer`.

use bevy::time::{Timer, TimerMode};
use std::time::Duration;
use vstd::prelude::*;

verus! {

/// What a one-shot timer has counted so far. Times are in nanoseconds.
///
/// The countdown runs from zero up to `duration` and stops there: once
/// `finished` is set, further ticks change nothing.
#[derive(Clone, Copy, Debug, PartialEq, Eq, Structural)]
pub struct Countdown {
    pub elapsed: u64,
    pub duration: u64,
    pub finished: bool,
}

/// The time on a running one-shot timer after `delta` more nanoseconds:
/// the sum, held at `duration`.
pub open spec fn elapsed_after(elapsed: u64, duration: u64, delta: u64) -> u64 {
    if elapsed + delta >= duration {
        duration
    } else {
        (elapsed + delta) as u64
    }
}

/// Whether a running one-shot timer has reached `duration` after `delta`
/// more nanoseconds.
pub open spec fn finishes_after(elapsed: u64, duration: u64, delta: u64) -> bool {
    elapsed + delta >= duration
}

/// Runs `bevy::time::Timer::tick` on a one-shot timer that stands at
/// `elapsed` of `duration` and has not finished, and hands back what the
/// timer then reports as `elapsed()` and `finished()`.
///
/// The timer is made with `Timer::new` in `TimerMode::Once` and put at
/// `elapsed` with `set_elapsed`; the times go in and out through
/// `Duration::from_nanos` and `Duration::as_nanos`.
///
/// The contract is taken on trust from the engine's source, which shows for
/// a timer that is neither paused nor finished: the stopwatch adds `delta`;
/// the timer is finished exactly when the sum has reached `duration`; and a
/// finished one-shot timer has its elapsed time set to `duration`.
#[verifier::external_body]
fn tick_once(elapsed: u64, duration: u64, delta: u64) -> (after: (u64, bool))
    ensures
        after.0 == elapsed_after(elapsed, duration, delta),
        after.1 == finishes_after(elapsed, duration, delta),
{
    let mut timer = Timer::new(Duration::from_nanos(duration), TimerMode::Once);
    timer.set_elapsed(Duration::from_nanos(elapsed));
    timer.tick(Duration::from_nanos(delta));
    (timer.elapsed().as_nanos() as u64, timer.finished())
}

impl Countdown {
    /// A countdown never holds more than its duration, and a finished one
    /// holds exactly that.
    pub open spec fn wf(self) -> bool {
        &&& self.elapsed <= self.duration
        &&& self.finished ==> self.elapsed == self.duration
    }

    /// The countdown after `delta` more nanoseconds.
    pub open spec fn ticked(self, delta: u64) -> Countdown {
        if self.finished {
            self
        } else {
            Countdown {
                elapsed: elapsed_after(self.elapsed, self.duration, delta),
                duration: self.duration,
                finished: finishes_after(self.elapsed, self.duration, delta),
            }
        }
    }

    /// A fresh countdown of `duration` nanoseconds.
    pub fn new(duration: u64) -> (c: Countdown)
        ensures
            c == (Countdown { elapsed: 0, duration, finished: false }),
            c.wf(),
    {
        Countdown { elapsed: 0, duration, finished: false }
    }

    /// Advances the countdown by `delta` nanoseconds.
    pub fn tick(&mut self, delta: u64)
        ensures
            *final(self) == old(self).ticked(delta),
            old(self).wf() ==> final(self).wf(),
    {
        if !self.finished {
            let (elapsed, finished) = tick_once(self.elapsed, self.duration, delta);
            self.elapsed = elapsed;
            self.finished = finished;
        }
    }

    pub fn finished(&self) -> (done: bool)
        ensures
            done == self.finished,
    {
        self.finished
    }
}

} // verus!
