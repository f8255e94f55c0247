use vstd::prelude::*;

verus! {

/// The bookkeeping of one batch: items are started in order, at most `limit`
/// of them in flight at once, and the batch is over when all have completed.
pub struct Batch {
    limit: usize,
    total: usize,
    started: usize,
    completed: usize,
}

impl Batch {
    pub closed spec fn spec_limit(&self) -> nat {
        self.limit as nat
    }

    pub closed spec fn spec_total(&self) -> nat {
        self.total as nat
    }

    pub closed spec fn spec_started(&self) -> nat {
        self.started as nat
    }

    pub closed spec fn spec_completed(&self) -> nat {
        self.completed as nat
    }

    /// Items started and not yet completed; each holds one permit.
    pub open spec fn in_flight(&self) -> int {
        self.spec_started() - self.spec_completed()
    }

    pub closed spec fn wf(&self) -> bool {
        &&& self.completed <= self.started <= self.total
        &&& self.started - self.completed <= self.limit
        &&& self.limit > 0
    }

    /// A batch of `total` items with at most `limit` in flight.
    pub fn new(total: usize, limit: usize) -> (r: Batch)
        requires
            limit > 0,
        ensures
            r.wf(),
            r.spec_limit() == limit,
            r.spec_total() == total,
            r.spec_started() == 0,
            r.spec_completed() == 0,
    {
        Batch { limit, total, started: 0, completed: 0 }
    }

    /// The index of the next item to start, when a permit is free and items
    /// remain.
    pub fn start_next(&mut self) -> (r: Option<usize>)
        requires
            old(self).wf(),
        ensures
            final(self).wf(),
            final(self).spec_limit() == old(self).spec_limit(),
            final(self).spec_total() == old(self).spec_total(),
            final(self).spec_completed() == old(self).spec_completed(),
            match r {
                Some(i) => {
                    &&& i == old(self).spec_started()
                    &&& old(self).in_flight() < old(self).spec_limit()
                    &&& i < old(self).spec_total()
                    &&& final(self).spec_started() == old(self).spec_started() + 1
                },
                None => {
                    &&& old(self).in_flight() == old(self).spec_limit() || old(self).spec_started()
                        == old(self).spec_total()
                    &&& final(self).spec_started() == old(self).spec_started()
                },
            },
    {
        if self.started - self.completed < self.limit && self.started < self.total {
            let i = self.started;
            self.started = i + 1;
            Some(i)
        } else {
            None
        }
    }

    /// Records that one in-flight item completed, successfully or not, and
    /// frees its permit.
    pub fn complete(&mut self) -> (ok: bool)
        requires
            old(self).wf(),
        ensures
            final(self).wf(),
            final(self).spec_limit() == old(self).spec_limit(),
            final(self).spec_total() == old(self).spec_total(),
            final(self).spec_started() == old(self).spec_started(),
            ok == (old(self).in_flight() > 0),
            final(self).spec_completed() == old(self).spec_completed() + if ok { 1nat } else { 0nat },
    {
        if self.completed < self.started {
            self.completed = self.completed + 1;
            true
        } else {
            false
        }
    }

    /// Items started and not yet completed.
    pub fn in_flight_count(&self) -> (r: usize)
        requires
            self.wf(),
        ensures
            r == self.in_flight(),
    {
        self.started - self.completed
    }

    /// Whether every item has completed.
    pub fn is_finished(&self) -> (r: bool)
        requires
            self.wf(),
        ensures
            r == (self.spec_completed() == self.spec_total()),
    {
        self.completed == self.total
    }
}

/// However a well-formed batch is driven, the items in flight never exceed the
/// limit.
pub proof fn lemma_in_flight_within_limit(b: &Batch)
    requires
        b.wf(),
    ensures
        0 <= b.in_flight() <= b.spec_limit(),
{
}

} // verus!
