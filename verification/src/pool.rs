use vstd::prelude::*;

verus! {

/// A model of the orchestrator's admission control: a fixed number of slots,
/// one held by each unit of work from its spawn until its outcome is
/// produced. The well-formedness invariant — never more units active than
/// the pool has slots — holds after every operation: a driver that admits
/// each unit through a pool has at no point more fetches in flight than the
/// pool was configured with.
pub struct Pool {
    capacity: usize,
    active: usize,
}

impl Pool {
    /// How many units may be in flight at once.
    pub closed spec fn cap(&self) -> int {
        self.capacity as int
    }

    /// How many units hold a slot now.
    pub closed spec fn in_flight(&self) -> int {
        self.active as int
    }

    /// The concurrency bound: active units never exceed the capacity.
    pub open spec fn wf(&self) -> bool {
        0 <= self.in_flight() <= self.cap() && self.cap() >= 1
    }

    /// A pool with the configured number of worker slots, all free.
    pub fn new(workers: usize) -> (r: Pool)
        requires
            workers >= 1,
        ensures
            r.wf(),
            r.cap() == workers,
            r.in_flight() == 0,
    {
        Pool { capacity: workers, active: 0 }
    }

    /// Admit one unit if a slot is free: true exactly when a slot was free,
    /// in which case the unit now holds one; a full pool is left unchanged
    /// and the unit must wait.
    pub fn try_admit(&mut self) -> (r: bool)
        requires
            old(self).wf(),
        ensures
            final(self).wf(),
            final(self).cap() == old(self).cap(),
            r == (old(self).in_flight() < old(self).cap()),
            r ==> final(self).in_flight() == old(self).in_flight() + 1,
            !r ==> final(self).in_flight() == old(self).in_flight(),
    {
        if self.active < self.capacity {
            self.active = self.active + 1;
            true
        } else {
            false
        }
    }

    /// A unit finished: its slot is free again.
    pub fn release(&mut self)
        requires
            old(self).wf(),
            old(self).in_flight() >= 1,
        ensures
            final(self).wf(),
            final(self).cap() == old(self).cap(),
            final(self).in_flight() == old(self).in_flight() - 1,
    {
        self.active = self.active - 1;
    }

    /// How many units hold a slot.
    pub fn active_units(&self) -> (r: usize)
        ensures
            r == self.in_flight(),
    {
        self.active
    }

    /// How many slots the pool was made with.
    pub fn capacity_units(&self) -> (r: usize)
        ensures
            r == self.cap(),
    {
        self.capacity
    }
}

} // verus!
