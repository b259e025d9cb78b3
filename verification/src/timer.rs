//! Countdown timers over integer milliseconds.
//!
//! A repeating timer drives frame advancement; a one-shot timer drives a
//! scheduled animation transition. A timer "fires" on the tick whose delta
//! carries the elapsed time up to (or past) the period; any excess beyond the
//! threshold is discarded rather than carried into a second firing, so a
//! timer fires at most once per tick however large the delta is.

use vstd::prelude::*;

verus! {

/// What happens when a timer's period elapses: a one-shot timer stays
/// finished, a repeating timer starts a fresh period.
#[derive(Clone, Copy, PartialEq, Eq, Structural, Debug)]
pub enum TimerMode {
    Once,
    Repeating,
}

/// A countdown with a fixed positive period, advanced by elapsed-time deltas.
#[derive(Clone, Copy, Debug)]
pub struct Timer {
    /// The period, in milliseconds; always positive.
    pub duration_ms: u64,
    /// Time accumulated toward the period, in milliseconds.
    pub elapsed_ms: u64,
    pub mode: TimerMode,
}

impl Timer {
    /// A valid timer has a positive period and has not run past it; a
    /// repeating timer is always strictly inside its current period, since
    /// reaching the period resets it.
    pub open spec fn wf(self) -> bool {
        &&& self.duration_ms > 0
        &&& self.elapsed_ms <= self.duration_ms
        &&& (self.mode is Repeating ==> self.elapsed_ms < self.duration_ms)
    }

    /// Whether advancing by `delta_ms` completes the period on this tick.
    /// A finished one-shot timer never fires again.
    pub open spec fn fires(self, delta_ms: u64) -> bool {
        self.elapsed_ms < self.duration_ms && delta_ms >= self.duration_ms - self.elapsed_ms
    }

    /// The timer after one tick of `delta_ms`: on a firing tick a repeating
    /// timer starts over and a one-shot timer parks at its period; otherwise
    /// the delta simply accumulates. A zero delta makes no progress.
    pub open spec fn ticked(self, delta_ms: u64) -> Timer {
        if self.fires(delta_ms) {
            Timer {
                duration_ms: self.duration_ms,
                elapsed_ms: if self.mode is Repeating {
                    0
                } else {
                    self.duration_ms
                },
                mode: self.mode,
            }
        } else if self.elapsed_ms < self.duration_ms {
            Timer {
                duration_ms: self.duration_ms,
                elapsed_ms: (self.elapsed_ms + delta_ms) as u64,
                mode: self.mode,
            }
        } else {
            self
        }
    }

    pub fn new(duration_ms: u64, mode: TimerMode) -> (t: Timer)
        requires
            duration_ms > 0,
        ensures
            t == (Timer { duration_ms, elapsed_ms: 0, mode }),
            t.wf(),
    {
        Timer { duration_ms, elapsed_ms: 0, mode }
    }

    /// Advance the timer by `delta_ms` and report whether the period was
    /// completed on this tick.
    pub fn tick(&mut self, delta_ms: u64) -> (fired: bool)
        requires
            old(self).wf(),
        ensures
            *final(self) == old(self).ticked(delta_ms),
            fired == old(self).fires(delta_ms),
            final(self).wf(),
    {
        if self.elapsed_ms < self.duration_ms && delta_ms >= self.duration_ms - self.elapsed_ms {
            match self.mode {
                TimerMode::Repeating => {
                    self.elapsed_ms = 0;
                },
                TimerMode::Once => {
                    self.elapsed_ms = self.duration_ms;
                },
            }
            true
        } else {
            if self.elapsed_ms < self.duration_ms {
                self.elapsed_ms = self.elapsed_ms + delta_ms;
            }
            false
        }
    }

    /// Ticking preserves validity and never changes the period or the mode.
    pub proof fn lemma_ticked_wf(self, delta_ms: u64)
        requires
            self.wf(),
        ensures
            self.ticked(delta_ms).wf(),
            self.ticked(delta_ms).duration_ms == self.duration_ms,
            self.ticked(delta_ms).mode == self.mode,
    {
    }

    /// Time left until the period completes.
    pub fn remaining_ms(&self) -> (r: u64)
        requires
            self.wf(),
        ensures
            r == self.duration_ms - self.elapsed_ms,
    {
        self.duration_ms - self.elapsed_ms
    }
}

} // verus!
