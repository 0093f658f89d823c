//! The periodic tick schedule each loop runs on.
//!
//! Both loops own a timer of their own and never share it: the workload
//! generator ticks on one cadence, the capture-and-upload loop on another.
//! A [`Ticker`] fires immediately on its first poll and then once every
//! `period` time units, mirroring a periodic interval timer.

use vstd::prelude::*;

verus! {

/// A fixed-cadence timer: fires when `now` reaches the next deadline, and
/// then arms itself `period` time units later.
pub struct Ticker {
    pub period: u64,
    pub next_deadline: u64,
}

impl Ticker {
    /// A fresh ticker that is due immediately and every `period` units after.
    pub fn new(period: u64) -> (t: Ticker)
        requires
            period > 0,
        ensures
            t.period == period,
            t.next_deadline == 0,
    {
        Ticker { period, next_deadline: 0 }
    }

    /// Polls the timer at time `now`: reports whether the deadline has been
    /// reached, and if so arms the next one, one period later. Polling one
    /// ticker reads and changes nothing but that ticker's own state.
    pub fn poll(&mut self, now: u64) -> (fired: bool)
        requires
            old(self).next_deadline <= u64::MAX - old(self).period,
        ensures
            fired == (now >= old(self).next_deadline),
            final (self).period == old(self).period,
            fired ==> final (self).next_deadline == old(self).next_deadline + old(self).period,
            !fired ==> final (self).next_deadline == old(self).next_deadline,
    {
        if now >= self.next_deadline {
            self.next_deadline = self.next_deadline + self.period;
            true
        } else {
            false
        }
    }
}

} // verus!
