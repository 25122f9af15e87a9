//! Countdowns: all waiting in the fight is elapsed time that is advanced once
//! per tick and compared with a duration.

use vstd::prelude::*;

verus! {

/// A one-shot timer in whole milliseconds.
///
/// It counts `elapsed_ms` up to `duration_ms` and then stays there until it is
/// reset.
#[derive(Clone, Copy, Debug, PartialEq, Eq, Structural)]
pub struct Countdown {
    pub elapsed_ms: u32,
    pub duration_ms: u32,
}

impl Countdown {
    /// The elapsed time has not run past the duration.
    pub open spec fn wf(self) -> bool {
        self.elapsed_ms <= self.duration_ms
    }

    /// The duration has been reached.
    pub open spec fn is_finished(self) -> bool {
        self.elapsed_ms >= self.duration_ms
    }

    /// Time left until the duration is reached.
    pub open spec fn remaining(self) -> nat {
        if self.elapsed_ms >= self.duration_ms {
            0
        } else {
            (self.duration_ms - self.elapsed_ms) as nat
        }
    }

    /// The countdown after `delta_ms` more milliseconds: a finished countdown
    /// stays as it is, a running one advances and stops at its duration.
    pub open spec fn ticked(self, delta_ms: u32) -> Countdown {
        if self.is_finished() {
            self
        } else if self.elapsed_ms + delta_ms >= self.duration_ms {
            Countdown { elapsed_ms: self.duration_ms, duration_ms: self.duration_ms }
        } else {
            Countdown {
                elapsed_ms: (self.elapsed_ms + delta_ms) as u32,
                duration_ms: self.duration_ms,
            }
        }
    }

    /// A fresh countdown of `duration_ms` milliseconds.
    pub fn from_millis(duration_ms: u32) -> (timer: Countdown)
        ensures
            timer == (Countdown { elapsed_ms: 0, duration_ms }),
            timer.wf(),
    {
        Countdown { elapsed_ms: 0, duration_ms }
    }

    /// Whether the duration has been reached.
    pub fn finished(&self) -> (done: bool)
        ensures
            done == self.is_finished(),
    {
        self.elapsed_ms >= self.duration_ms
    }

    /// Milliseconds left until the duration is reached.
    pub fn remaining_ms(&self) -> (left: u32)
        ensures
            left == self.remaining(),
    {
        if self.elapsed_ms >= self.duration_ms {
            0
        } else {
            self.duration_ms - self.elapsed_ms
        }
    }

    /// Advances the countdown by `delta_ms` and reports whether this very
    /// tick brought it to its duration.
    pub fn tick(&mut self, delta_ms: u32) -> (just_finished: bool)
        ensures
            *final(self) == old(self).ticked(delta_ms),
            just_finished == (!old(self).is_finished() && final(self).is_finished()),
            old(self).wf() ==> final(self).wf(),
    {
        if self.elapsed_ms >= self.duration_ms {
            return false;
        }
        let left: u32 = self.duration_ms - self.elapsed_ms;
        if delta_ms >= left {
            self.elapsed_ms = self.duration_ms;
            true
        } else {
            self.elapsed_ms = self.elapsed_ms + delta_ms;
            false
        }
    }

    /// Starts the countdown over with the same duration.
    pub fn reset(&mut self)
        ensures
            *final(self) == (Countdown { elapsed_ms: 0, duration_ms: old(self).duration_ms }),
            final(self).wf(),
    {
        self.elapsed_ms = 0;
    }
}

/// One tick of a countdown that is dropped once it is over: `None` stays
/// `None`, a countdown that is finished after the tick becomes `None`, and any
/// other countdown advances.
pub open spec fn tick_expiring(timer: Option<Countdown>, delta_ms: u32) -> Option<Countdown> {
    match timer {
        None => None,
        Some(t) => if t.ticked(delta_ms).is_finished() {
            None
        } else {
            Some(t.ticked(delta_ms))
        },
    }
}

/// Advances a countdown that is dropped once it is over.
pub fn tick_and_expire(timer: Option<Countdown>, delta_ms: u32) -> (next: Option<Countdown>)
    ensures
        next == tick_expiring(timer, delta_ms),
{
    match timer {
        None => None,
        Some(t) => {
            let mut t = t;
            t.tick(delta_ms);
            if t.finished() {
                None
            } else {
                Some(t)
            }
        },
    }
}

} // verus!
