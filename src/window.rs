//! The dispatch window of the segment downloads: segments start in index
//! order, no more than the concurrency limit are in flight at once, and none
//! starts after a fetch has failed.

use vstd::prelude::*;

verus! {

/// The bookkeeping of segment fetches in flight.
pub struct DispatchWindow {
    limit: usize,
    total: usize,
    next: usize,
    in_flight: usize,
    halted: bool,
}

impl DispatchWindow {
    pub closed spec fn limit_spec(&self) -> nat {
        self.limit as nat
    }

    pub closed spec fn total_spec(&self) -> nat {
        self.total as nat
    }

    /// The number of segments started so far; they are `0..started`.
    pub closed spec fn started_spec(&self) -> nat {
        self.next as nat
    }

    pub closed spec fn in_flight_spec(&self) -> nat {
        self.in_flight as nat
    }

    /// Whether some fetch has failed, so that no further one starts.
    pub closed spec fn halted_spec(&self) -> bool {
        self.halted
    }

    /// The window never holds more fetches than its limit, nor more than have
    /// been started.
    pub open spec fn wf(&self) -> bool {
        &&& self.limit_spec() >= 1
        &&& self.in_flight_spec() <= self.limit_spec()
        &&& self.in_flight_spec() <= self.started_spec() <= self.total_spec()
    }

    /// Whether the next segment may start now.
    pub open spec fn may_start(&self) -> bool {
        !self.halted_spec() && self.in_flight_spec() < self.limit_spec() && self.started_spec()
            < self.total_spec()
    }

    /// A window for `total` segments allowing `concurrency` fetches at once
    /// (at least one).
    pub fn new(total: usize, concurrency: usize) -> (r: DispatchWindow)
        ensures
            r.wf(),
            r.limit_spec() == if concurrency == 0 { 1 } else { concurrency as nat },
            r.total_spec() == total,
            r.started_spec() == 0,
            r.in_flight_spec() == 0,
            !r.halted_spec(),
    {
        let limit = if concurrency == 0 { 1 } else { concurrency };
        DispatchWindow { limit, total, next: 0, in_flight: 0, halted: false }
    }

    /// Start the next segment if the window allows it: its index.
    pub fn start_next(&mut self) -> (r: Option<usize>)
        requires
            old(self).wf(),
        ensures
            final(self).wf(),
            final(self).limit_spec() == old(self).limit_spec(),
            final(self).total_spec() == old(self).total_spec(),
            final(self).halted_spec() == old(self).halted_spec(),
            old(self).may_start() ==> {
                &&& r == Some(old(self).started_spec() as usize)
                &&& final(self).started_spec() == old(self).started_spec() + 1
                &&& final(self).in_flight_spec() == old(self).in_flight_spec() + 1
            },
            !old(self).may_start() ==> r is None && *final(self) == *old(self),
    {
        if !self.halted && self.in_flight < self.limit && self.next < self.total {
            let i = self.next;
            self.next = self.next + 1;
            self.in_flight = self.in_flight + 1;
            Some(i)
        } else {
            None
        }
    }

    /// Record that one fetch in flight has settled, and whether it succeeded.
    pub fn finish_one(&mut self, succeeded: bool)
        requires
            old(self).wf(),
            old(self).in_flight_spec() > 0,
        ensures
            final(self).wf(),
            final(self).limit_spec() == old(self).limit_spec(),
            final(self).total_spec() == old(self).total_spec(),
            final(self).started_spec() == old(self).started_spec(),
            final(self).in_flight_spec() == old(self).in_flight_spec() - 1,
            final(self).halted_spec() == (old(self).halted_spec() || !succeeded),
    {
        self.in_flight = self.in_flight - 1;
        if !succeeded {
            self.halted = true;
        }
    }

    /// The number of fetches in flight.
    pub fn in_flight(&self) -> (r: usize)
        ensures
            r == self.in_flight_spec(),
    {
        self.in_flight
    }

    /// Whether some fetch has failed.
    pub fn halted(&self) -> (r: bool)
        ensures
            r == self.halted_spec(),
    {
        self.halted
    }

    /// Whether the window has settled: nothing is in flight and nothing more
    /// will start, because every segment has started or a fetch has failed.
    /// The outcome of the downloads is reported then.
    pub fn is_settled(&self) -> (r: bool)
        ensures
            r == (self.in_flight_spec() == 0 && (self.halted_spec() || self.started_spec()
                == self.total_spec())),
    {
        self.in_flight == 0 && (self.halted || self.next == self.total)
    }
}

} // verus!
