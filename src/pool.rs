use vstd::prelude::*;

verus! {

/// The state of a run's admission of fetches, as numbers.
pub struct PoolView {
    /// Feeds in the run.
    pub total: nat,
    /// Feeds whose fetch has started, in list order.
    pub started: nat,
    /// Fetches started and not yet finished.
    pub in_flight: nat,
    /// Fetches finished, with a verdict or a reported failure.
    pub completed: nat,
    /// Most fetches that may be in flight at once.
    pub ceiling: nat,
}

impl PoolView {
    pub open spec fn wf(self) -> bool {
        &&& self.ceiling > 0
        &&& self.started <= self.total
        &&& self.in_flight <= self.ceiling
        &&& self.completed + self.in_flight == self.started
    }
}

/// Admission control for a run: starts fetches in list order while fewer than
/// the ceiling are in flight.
pub struct FetchPool {
    total: usize,
    started: usize,
    in_flight: usize,
    completed: usize,
    ceiling: usize,
}

impl View for FetchPool {
    type V = PoolView;

    closed spec fn view(&self) -> PoolView {
        PoolView {
            total: self.total as nat,
            started: self.started as nat,
            in_flight: self.in_flight as nat,
            completed: self.completed as nat,
            ceiling: self.ceiling as nat,
        }
    }
}

impl FetchPool {
    /// A pool for `total` feeds with at most `ceiling` fetches at once.
    pub fn new(total: usize, ceiling: usize) -> (r: FetchPool)
        requires
            ceiling > 0,
        ensures
            r@.wf(),
            r@ == (PoolView { total: total as nat, started: 0, in_flight: 0, completed: 0, ceiling: ceiling as nat }),
    {
        FetchPool { total, started: 0, in_flight: 0, completed: 0, ceiling }
    }

    /// Index of the next feed to start, where a slot is free and feeds remain.
    pub fn try_start(&mut self) -> (r: Option<usize>)
        requires
            old(self)@.wf(),
        ensures
            final(self)@.wf(),
            final(self)@.in_flight <= final(self)@.ceiling,
            r is Some <==> (old(self)@.in_flight < old(self)@.ceiling && old(self)@.started < old(self)@.total),
            r matches Some(i) ==> i == old(self)@.started && final(self)@ == (PoolView {
                started: old(self)@.started + 1,
                in_flight: old(self)@.in_flight + 1,
                ..old(self)@
            }),
            r is None ==> final(self)@ == old(self)@,
    {
        if self.in_flight < self.ceiling && self.started < self.total {
            let i = self.started;
            self.started = self.started + 1;
            self.in_flight = self.in_flight + 1;
            Some(i)
        } else {
            None
        }
    }

    /// Records that one fetch in flight has finished.
    pub fn finish(&mut self)
        requires
            old(self)@.wf(),
            old(self)@.in_flight > 0,
        ensures
            final(self)@.wf(),
            final(self)@ == (PoolView {
                in_flight: (old(self)@.in_flight - 1) as nat,
                completed: old(self)@.completed + 1,
                ..old(self)@
            }),
    {
        self.in_flight = self.in_flight - 1;
        self.completed = self.completed + 1;
    }

    /// Fetches in flight now.
    pub fn in_flight(&self) -> (r: usize)
        ensures
            r == self@.in_flight,
    {
        self.in_flight
    }

    /// Whether every feed has finished.
    pub fn is_done(&self) -> (r: bool)
        requires
            self@.wf(),
        ensures
            r == (self@.completed == self@.total),
            r ==> self@.in_flight == 0 && self@.started == self@.total,
    {
        self.completed == self.total
    }
}

} // verus!
