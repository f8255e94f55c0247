use vstd::prelude::*;

verus! {

/// A leased or pooled automation session: its identity, the slot that owns it,
/// and the live handle.
pub struct Session<S> {
    id: u64,
    slot: usize,
    handle: S,
}

impl<S> Session<S> {
    pub closed spec fn spec_id(&self) -> u64 {
        self.id
    }

    pub closed spec fn spec_slot(&self) -> usize {
        self.slot
    }

    pub closed spec fn spec_handle(&self) -> S {
        self.handle
    }

    /// The session's identity; no two sessions of one pool share it.
    pub fn id(&self) -> (r: u64)
        ensures
            r == self.spec_id(),
    {
        self.id
    }

    /// The index of the slot this session was leased from.
    pub fn slot(&self) -> (r: usize)
        ensures
            r == self.spec_slot(),
    {
        self.slot
    }

    /// The live handle, for the one task that holds the lease.
    pub fn handle(&self) -> (r: &S)
        ensures
            *r == self.spec_handle(),
    {
        &self.handle
    }
}

/// What a slot holds, as seen from outside: the identity of its session and
/// whether that session is out on lease.
pub enum SlotState {
    Available(u64),
    Leased(u64),
}

pub open spec fn state_id(st: SlotState) -> u64 {
    match st {
        SlotState::Available(id) => id,
        SlotState::Leased(id) => id,
    }
}

/// Number of leased slots.
pub open spec fn leased_count(states: Seq<SlotState>) -> nat
    decreases states.len(),
{
    if states.len() == 0 {
        0
    } else {
        leased_count(states.drop_last()) + if states.last() is Leased { 1nat } else { 0nat }
    }
}

/// Number of available slots.
pub open spec fn available_count(states: Seq<SlotState>) -> nat
    decreases states.len(),
{
    if states.len() == 0 {
        0
    } else {
        available_count(states.drop_last()) + if states.last() is Available { 1nat } else { 0nat }
    }
}

/// Every slot is either leased or available, so the two counts add up to the
/// number of slots.
pub proof fn lemma_leased_plus_available(states: Seq<SlotState>)
    ensures
        leased_count(states) + available_count(states) == states.len(),
    decreases states.len(),
{
    if states.len() > 0 {
        lemma_leased_plus_available(states.drop_last());
    }
}

/// However the operations above change it, a well-formed pool has as many
/// leased and available slots together as it has slots.
pub proof fn lemma_pool_counts<S>(pool: &Scheduler<S>)
    ensures
        leased_count(pool.states()) + available_count(pool.states()) == pool.states().len(),
{
    lemma_leased_plus_available(pool.states());
}

/// The first available slot, if any.
pub open spec fn first_available(states: Seq<SlotState>, i: int) -> bool {
    &&& 0 <= i < states.len()
    &&& states[i] is Available
    &&& forall|j: int| 0 <= j < i ==> states[j] is Leased
}

/// The outcome of one round of waiting for a session.
pub enum Acquire<S> {
    Granted(Session<S>),
    /// Every slot is leased; try again after the polling delay.
    Wait,
    /// Every slot is leased and the attempts are used up.
    GiveUp,
}

/// Why a pool operation did not happen.
#[derive(PartialEq, Eq, Structural, Clone, Copy, Debug)]
pub enum PoolError {
    /// Every slot is leased.
    Busy,
    /// No slot holds a leased session with this identity.
    NotFound,
    /// The pool has handed out every identity it can represent.
    IdsExhausted,
}

enum Slot<S> {
    Available(Session<S>),
    Leased(u64),
}

spec fn view_slot<S>(sl: Slot<S>) -> SlotState {
    match sl {
        Slot::Available(s) => SlotState::Available(s.id),
        Slot::Leased(id) => SlotState::Leased(id),
    }
}

/// A fixed-size pool of automation sessions, each slot either available or out
/// on lease to exactly one task.
pub struct Scheduler<S> {
    slots: Vec<Slot<S>>,
    next_id: u64,
}

impl<S> Scheduler<S> {
    pub closed spec fn slot_state(&self, i: int) -> SlotState {
        view_slot(self.slots@[i])
    }

    /// The state of every slot, in slot order.
    pub closed spec fn states(&self) -> Seq<SlotState> {
        self.slots@.map_values(|sl: Slot<S>| view_slot(sl))
    }

    /// The identity that the next replacement session will get.
    pub closed spec fn spec_next_id(&self) -> u64 {
        self.next_id
    }

    /// Well-formedness: identities are distinct and below `next_id`, and a
    /// pooled session records the slot that holds it.
    pub closed spec fn wf(&self) -> bool {
        &&& forall|i: int|
            0 <= i < self.slots@.len() ==> state_id(#[trigger] self.slot_state(i)) < self.next_id
        &&& forall|i: int, j: int|
            0 <= i < self.slots@.len() && 0 <= j < self.slots@.len() && i != j ==> state_id(
                #[trigger] self.slot_state(i),
            ) != state_id(#[trigger] self.slot_state(j))
        &&& forall|i: int|
            0 <= i < self.slots@.len() ==> match #[trigger] self.slots@[i] {
                Slot::Available(s) => s.slot == i,
                Slot::Leased(_) => true,
            }
    }

    /// A pool holding `clients`, all available, with identities `0..n`.
    pub fn new(clients: Vec<S>) -> (r: Self)
        ensures
            r.wf(),
            r.states().len() == clients@.len(),
            r.spec_next_id() == clients@.len(),
            forall|i: int|
                0 <= i < clients@.len() ==> r.states()[i] == SlotState::Available(i as u64),
    {
        let mut clients = clients;
        let ghost orig = clients@;
        let n = clients.len();
        let mut tmp: Vec<S> = Vec::new();
        // move the handles out in reverse, then rebuild in slot order
        while clients.len() > 0
            invariant
                clients@.len() + tmp@.len() == n,
                n == orig.len(),
                forall|i: int| 0 <= i < clients@.len() ==> clients@[i] == orig[i],
                forall|k: int|
                    0 <= k < tmp@.len() ==> tmp@[k] == orig[n - 1 - k],
            decreases clients.len(),
        {
            let h = clients.pop().unwrap();
            tmp.push(h);
        }
        let mut slots: Vec<Slot<S>> = Vec::new();
        let mut i: usize = 0;
        while tmp.len() > 0
            invariant
                i + tmp@.len() == n,
                n == orig.len(),
                slots@.len() == i,
                forall|k: int| 0 <= k < tmp@.len() ==> tmp@[k] == orig[n - 1 - k],
                forall|k: int|
                    0 <= k < i ==> #[trigger] slots@[k] == Slot::Available(
                        Session { id: k as u64, slot: k as usize, handle: orig[k] },
                    ),
            decreases tmp.len(),
        {
            let h = tmp.pop().unwrap();
            slots.push(Slot::Available(Session { id: i as u64, slot: i, handle: h }));
            i = i + 1;
        }
        let r = Scheduler { slots, next_id: n as u64 };
        assert(forall|k: int| 0 <= k < n ==> r.slot_state(k) == SlotState::Available(k as u64));
        r
    }

    /// Leases the first available slot, or reports `Busy` when every slot is
    /// leased.
    pub fn get_client(&mut self) -> (r: Result<Session<S>, PoolError>)
        requires
            old(self).wf(),
        ensures
            final(self).wf(),
            final(self).spec_next_id() == old(self).spec_next_id(),
            final(self).states().len() == old(self).states().len(),
            match r {
                Ok(s) => {
                    &&& first_available(old(self).states(), s.spec_slot() as int)
                    &&& old(self).states()[s.spec_slot() as int] == SlotState::Available(s.spec_id())
                    &&& final(self).states() == old(self).states().update(
                        s.spec_slot() as int,
                        SlotState::Leased(s.spec_id()),
                    )
                },
                Err(e) => {
                    &&& e == PoolError::Busy
                    &&& forall|j: int| 0 <= j < old(self).states().len() ==> old(self).states()[j] is Leased
                    &&& final(self).states() == old(self).states()
                },
            },
    {
        let mut i: usize = 0;
        while i < self.slots.len()
            invariant
                self.wf(),
                old(self).wf(),
                self.slots@ == old(self).slots@,
                self.next_id == old(self).next_id,
                forall|j: int| 0 <= j < i ==> self.states()[j] is Leased,
            decreases self.slots.len() - i,
        {
            if let Slot::Available(_) = &self.slots[i] {
                let ghost before = self.states();
                let taken = self.slots.remove(i);
                match taken {
                    Slot::Available(s) => {
                        let id = s.id;
                        self.slots.insert(i, Slot::Leased(id));
                        proof {
                            assert(forall|k: int| 0 <= k < old(self).slots@.len() ==> old(self).slot_state(k) == before[k]);
                            assert(self.slots@ =~= old(self).slots@.update(i as int, Slot::Leased(id)));
                            assert(self.states() =~= before.update(i as int, SlotState::Leased(id)));
                            assert forall|k: int| 0 <= k < self.slots@.len() implies state_id(
                                #[trigger] self.slot_state(k),
                            ) == state_id(old(self).slot_state(k)) && match self.slots@[k] {
                                Slot::Available(s) => s.slot == k,
                                Slot::Leased(_) => true,
                            } by {
                                if k != i {
                                    assert(self.slots@[k] == old(self).slots@[k]);
                                }
                            }
                            assert(self.wf());
                        }
                        return Ok(s);
                    },
                    Slot::Leased(_) => {
                        proof { assert(false); }
                        return Err(PoolError::Busy);
                    },
                }
            }
            i = i + 1;
        }
        assert(self.states().len() == self.slots@.len());
        Err(PoolError::Busy)
    }

    /// The slot whose session is out on lease under identity `id`.
    fn find_leased(&self, id: u64) -> (r: Option<usize>)
        requires
            self.wf(),
        ensures
            match r {
                Some(i) => i < self.states().len() && self.states()[i as int] == SlotState::Leased(id),
                None => forall|j: int|
                    0 <= j < self.states().len() ==> self.states()[j] != SlotState::Leased(id),
            },
    {
        let mut i: usize = 0;
        while i < self.slots.len()
            invariant
                forall|j: int| 0 <= j < i ==> self.states()[j] != SlotState::Leased(id),
            decreases self.slots.len() - i,
        {
            if let Slot::Leased(held) = &self.slots[i] {
                if *held == id {
                    return Some(i);
                }
            }
            i = i + 1;
        }
        None
    }

    /// Puts `slots[i]` to `sl`, handing back what was there.
    fn swap_slot(&mut self, i: usize, sl: Slot<S>) -> (r: Slot<S>)
        requires
            i < old(self).slots@.len(),
        ensures
            final(self).slots@ == old(self).slots@.update(i as int, sl),
            final(self).next_id == old(self).next_id,
            r == old(self).slots@[i as int],
    {
        let taken = self.slots.remove(i);
        self.slots.insert(i, sl);
        proof {
            assert(self.slots@ =~= old(self).slots@.update(i as int, sl));
        }
        taken
    }

    /// Returns a leased session to its slot, which becomes available again.
    /// The slot is found by the session's identity.
    pub fn release_client(&mut self, session: Session<S>) -> (r: Result<(), PoolError>)
        requires
            old(self).wf(),
        ensures
            final(self).wf(),
            final(self).spec_next_id() == old(self).spec_next_id(),
            final(self).states().len() == old(self).states().len(),
            match r {
                Ok(()) => exists|i: int|
                    0 <= i < old(self).states().len() && old(self).states()[i] == SlotState::Leased(
                        session.spec_id(),
                    ) && final(self).states() == old(self).states().update(
                        i,
                        SlotState::Available(session.spec_id()),
                    ),
                Err(e) => {
                    &&& e == PoolError::NotFound
                    &&& forall|j: int|
                        0 <= j < old(self).states().len() ==> old(self).states()[j]
                            != SlotState::Leased(session.spec_id())
                    &&& final(self).states() == old(self).states()
                },
            },
    {
        match self.find_leased(session.id) {
            None => Err(PoolError::NotFound),
            Some(i) => {
                let id = session.id;
                let back = Session { id, slot: i, handle: session.handle };
                let ghost before = self.states();
                let _ = self.swap_slot(i, Slot::Available(back));
                proof {
                    assert(self.states() =~= before.update(i as int, SlotState::Available(id)));
                    assert forall|k: int| 0 <= k < self.slots@.len() implies state_id(
                        #[trigger] self.slot_state(k),
                    ) == state_id(old(self).slot_state(k)) && match self.slots@[k] {
                        Slot::Available(s) => s.slot == k,
                        Slot::Leased(_) => true,
                    } by {
                        assert(old(self).slot_state(k) == before[k]);
                        if k != i {
                            assert(self.slots@[k] == old(self).slots@[k]);
                        }
                    }
                }
                Ok(())
            },
        }
    }

    /// Installs `fresh` in the slot of the leased `session`, under a new
    /// identity, and makes the slot available. Hands back the old handle so
    /// that its remote resource can be closed.
    pub fn replace_client(&mut self, session: Session<S>, fresh: S) -> (r: Result<S, PoolError>)
        requires
            old(self).wf(),
        ensures
            final(self).wf(),
            final(self).states().len() == old(self).states().len(),
            match r {
                Ok(h) => {
                    &&& h == session.spec_handle()
                    &&& old(self).spec_next_id() < u64::MAX
                    &&& forall|j: int|
                        0 <= j < old(self).states().len() ==> state_id(old(self).states()[j])
                            != old(self).spec_next_id()
                    &&& final(self).spec_next_id() == old(self).spec_next_id() + 1
                    &&& exists|i: int|
                        0 <= i < old(self).states().len() && old(self).states()[i]
                            == SlotState::Leased(session.spec_id()) && final(self).states()
                            == old(self).states().update(
                            i,
                            SlotState::Available(old(self).spec_next_id()),
                        )
                },
                Err(e) => {
                    &&& e == PoolError::NotFound ==> forall|j: int|
                        0 <= j < old(self).states().len() ==> old(self).states()[j]
                            != SlotState::Leased(session.spec_id())
                    &&& e == PoolError::IdsExhausted ==> old(self).spec_next_id() == u64::MAX
                    &&& e == PoolError::NotFound || e == PoolError::IdsExhausted
                    &&& final(self).states() == old(self).states()
                    &&& final(self).spec_next_id() == old(self).spec_next_id()
                },
            },
    {
        match self.find_leased(session.id) {
            None => Err(PoolError::NotFound),
            Some(i) => {
                if self.next_id == u64::MAX {
                    return Err(PoolError::IdsExhausted);
                }
                let id = self.next_id;
                let ghost before = self.states();
                assert forall|j: int| 0 <= j < before.len() implies state_id(before[j]) != id by {
                    assert(before[j] == self.slot_state(j));
                }
                let _ = self.swap_slot(i, Slot::Available(Session { id, slot: i, handle: fresh }));
                self.next_id = id + 1;
                proof {
                    assert(self.states() =~= before.update(i as int, SlotState::Available(id)));
                    assert forall|k: int| 0 <= k < self.slots@.len() && k != i implies state_id(
                        #[trigger] self.slot_state(k),
                    ) == state_id(old(self).slot_state(k)) && state_id(self.slot_state(k)) < id
                        && match self.slots@[k] {
                        Slot::Available(s) => s.slot == k,
                        Slot::Leased(_) => true,
                    } by {
                        assert(old(self).slot_state(k) == before[k]);
                        assert(self.slots@[k] == old(self).slots@[k]);
                    }
                }
                Ok(session.handle)
            },
        }
    }

    /// One round of the bounded wait for a session: lease one if a slot is
    /// available; otherwise wait again, unless this was attempt number
    /// `max_attempts`.
    pub fn poll_client(&mut self, attempts: u32, max_attempts: u32) -> (r: Acquire<S>)
        requires
            old(self).wf(),
        ensures
            final(self).wf(),
            final(self).spec_next_id() == old(self).spec_next_id(),
            final(self).states().len() == old(self).states().len(),
            match r {
                Acquire::Granted(s) => {
                    &&& first_available(old(self).states(), s.spec_slot() as int)
                    &&& old(self).states()[s.spec_slot() as int] == SlotState::Available(s.spec_id())
                    &&& final(self).states() == old(self).states().update(
                        s.spec_slot() as int,
                        SlotState::Leased(s.spec_id()),
                    )
                },
                Acquire::Wait => {
                    &&& forall|j: int| 0 <= j < old(self).states().len() ==> old(self).states()[j] is Leased
                    &&& attempts + 1 < max_attempts
                    &&& final(self).states() == old(self).states()
                },
                Acquire::GiveUp => {
                    &&& forall|j: int| 0 <= j < old(self).states().len() ==> old(self).states()[j] is Leased
                    &&& attempts + 1 >= max_attempts
                    &&& final(self).states() == old(self).states()
                },
            },
    {
        match self.get_client() {
            Ok(s) => Acquire::Granted(s),
            Err(_) => {
                if attempts >= max_attempts || max_attempts - attempts <= 1 {
                    Acquire::GiveUp
                } else {
                    Acquire::Wait
                }
            },
        }
    }
}

} // verus!
