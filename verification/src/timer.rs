//! The pluggable per-call timeout abstraction.

use vstd::prelude::*;

verus! {

/// A pluggable one-shot timeout supplied per call.
///
/// A [`crate::responder::Response`] polls its timer once per drive step,
/// before it looks for a delivered result; the call times out on the first
/// step whose poll observes the timer as elapsed.
pub trait Timer: Sized {
    /// Whether a poll performed in the timer's current state observes it as
    /// elapsed.
    spec fn elapsed(&self) -> bool;

    /// Poll the timer once: report whether it has elapsed. Polling may
    /// advance the timer's internal state.
    fn poll_elapsed(&mut self) -> (fired: bool)
        ensures
            fired == old(self).elapsed(),
    ;
}

/// Whether a drive step taken now observes `timeout` as an elapsed timer: it
/// holds one, and a poll in its current state reports it elapsed.
pub open spec fn fires_now<T: Timer>(timeout: Option<T>) -> bool {
    timeout matches Some(t) && t.elapsed()
}

/// A deterministic timer that elapses after a fixed number of polls: it
/// reports "pending" for exactly `remaining` polls and "elapsed" on every
/// poll after that.
pub struct TickTimer {
    /// How many more polls report "pending" before the timer elapses.
    pub remaining: u64,
}

impl TickTimer {
    /// A timer that a response observes as pending for its first `ticks`
    /// drive steps and as elapsed from step `ticks + 1` on.
    pub fn new(ticks: u64) -> (t: TickTimer)
        ensures
            t.remaining == ticks,
    {
        TickTimer { remaining: ticks }
    }
}

impl Timer for TickTimer {
    open spec fn elapsed(&self) -> bool {
        self.remaining == 0
    }

    fn poll_elapsed(&mut self) -> (fired: bool)
        ensures
            final(self).remaining == if old(self).remaining == 0 {
                0u64
            } else {
                (old(self).remaining - 1) as u64
            },
    {
        if self.remaining == 0 {
            true
        } else {
            self.remaining = self.remaining - 1;
            false
        }
    }
}

} // verus!
