//! The process-wide shutdown signal as a registry of waiters: it fires at
//! most once, wakes each registered waiter exactly once, and tells a waiter
//! that registers late that it has already fired.

use vstd::prelude::*;

verus! {

/// What registering a waiter gives back.
#[derive(Debug, Clone, Copy, PartialEq, Eq, Structural)]
pub enum Registration {
    /// Registered under this id; the waiter is woken when the signal fires.
    Waiting(u64),
    /// The signal has fired already: there is nothing to wait for.
    AlreadyFired,
}

/// The shutdown signal and the waiters registered on it.
pub struct Shutdown {
    fired: bool,
    next_id: u64,
    waiters: Vec<u64>,
}

impl Shutdown {
    pub closed spec fn fired(&self) -> bool {
        self.fired
    }

    /// The ids of the registered waiters, in the order they registered.
    pub closed spec fn waiters(&self) -> Seq<u64> {
        self.waiters@
    }

    /// How many ids have been handed out.
    pub closed spec fn issued(&self) -> nat {
        self.next_id as nat
    }

    pub closed spec fn wf(&self) -> bool {
        &&& self.waiters@.no_duplicates()
        &&& forall|i: int| 0 <= i < self.waiters@.len() ==> self.waiters@[i] < self.next_id
        &&& self.fired ==> self.waiters@.len() == 0
    }

    pub fn is_fired(&self) -> (r: bool)
        ensures
            r == self.fired(),
    {
        self.fired
    }

    /// How many waiters are registered.
    pub fn waiting(&self) -> (r: usize)
        ensures
            r == self.waiters().len(),
    {
        self.waiters.len()
    }

    /// Whether another id can be handed out.
    pub fn can_register(&self) -> (r: bool)
        ensures
            r == (self.issued() < u64::MAX),
    {
        self.next_id < u64::MAX
    }

    /// Registers a waiter, or reports that the signal has fired already.
    pub fn register(&mut self) -> (r: Registration)
        requires
            old(self).wf(),
            old(self).issued() < u64::MAX,
        ensures
            final(self).wf(),
            final(self).fired() == old(self).fired(),
            old(self).fired() ==> r is AlreadyFired && final(self).waiters() == old(
                self,
            ).waiters() && final(self).issued() == old(self).issued(),
            !old(self).fired() ==> r == Registration::Waiting(old(self).issued() as u64)
                && final(self).waiters() == old(self).waiters().push(old(self).issued() as u64)
                && final(self).issued() == old(self).issued() + 1,
    {
        if self.fired {
            return Registration::AlreadyFired;
        }
        let id = self.next_id;
        self.waiters.push(id);
        self.next_id = id + 1;
        assert(self.waiters@.no_duplicates()) by {
            assert forall|a: int, b: int|
                0 <= a < self.waiters@.len() && 0 <= b < self.waiters@.len() && a != b implies
                self.waiters@[a] != self.waiters@[b] by {
                if a < self.waiters@.len() - 1 && b < self.waiters@.len() - 1 {
                    assert(old(self).waiters@[a] != old(self).waiters@[b]);
                }
            }
        }
        Registration::Waiting(id)
    }

    /// Gives back a registration; says whether it was held.
    pub fn release(&mut self, id: u64) -> (r: bool)
        requires
            old(self).wf(),
        ensures
            final(self).wf(),
            release_step(*old(self), *final(self), id),
            r == old(self).waiters().contains(id),
    {
        let mut i: usize = 0;
        while i < self.waiters.len()
            invariant
                i <= self.waiters@.len(),
                forall|j: int| 0 <= j < i ==> self.waiters@[j] != id,
                self.wf(),
                self.fired == old(self).fired,
                self.next_id == old(self).next_id,
                self.waiters@ == old(self).waiters@,
            decreases self.waiters@.len() - i,
        {
            if self.waiters[i] == id {
                let ghost before = self.waiters@;
                self.waiters.remove(i);
                assert(!self.waiters@.contains(id)) by {
                    if exists|k: int| 0 <= k < self.waiters@.len() && self.waiters@[k] == id {
                        let k = choose|k: int| 0 <= k < self.waiters@.len() && self.waiters@[k] == id;
                        if k < i {
                            assert(self.waiters@[k] == before[k]);
                        } else {
                            assert(self.waiters@[k] == before[k + 1]);
                            assert(before[k + 1] != before[i as int]);
                        }
                    }
                }
                assert(self.waiters@.no_duplicates()) by {
                    assert forall|a: int, b: int|
                        0 <= a < self.waiters@.len() && 0 <= b < self.waiters@.len() && a != b
                        implies self.waiters@[a] != self.waiters@[b] by {
                        let a2 = if a < i { a } else { a + 1 };
                        let b2 = if b < i { b } else { b + 1 };
                        assert(self.waiters@[a] == before[a2]);
                        assert(self.waiters@[b] == before[b2]);
                        assert(before[a2] != before[b2]);
                    }
                }
                assert forall|k: int| 0 <= k < self.waiters@.len() implies #[trigger] self.waiters@[k]
                    < self.next_id by {
                    if k >= i {
                        assert(self.waiters@[k] == before[k + 1]);
                    }
                }
                return true;
            }
            i = i + 1;
        }
        assert(!self.waiters@.contains(id));
        false
    }

    /// Fires the signal: every registered waiter is returned once, to be
    /// woken, and none stays registered. Firing again wakes nobody.
    pub fn fire(&mut self) -> (woken: Vec<u64>)
        requires
            old(self).wf(),
        ensures
            final(self).wf(),
            fire_step(*old(self), *final(self), woken@),
    {
        let mut woken: Vec<u64> = Vec::new();
        std::mem::swap(&mut woken, &mut self.waiters);
        self.fired = true;
        woken
    }
}

/// A fresh signal: not fired, nobody waiting.
pub fn new() -> (r: Shutdown)
    ensures
        r.wf(),
        !r.fired(),
        r.waiters() == Seq::<u64>::empty(),
        r.issued() == 0,
{
    Shutdown { fired: false, next_id: 0, waiters: Vec::new() }
}

/// `after` is `before` once registration `id` was given back.
pub open spec fn release_step(before: Shutdown, after: Shutdown, id: u64) -> bool {
    &&& after.fired() == before.fired()
    &&& after.issued() == before.issued()
    &&& !after.waiters().contains(id)
    &&& before.waiters().contains(id) ==> exists|i: int|
        0 <= i < before.waiters().len() && before.waiters()[i] == id && after.waiters()
            == before.waiters().remove(i)
    &&& !before.waiters().contains(id) ==> after.waiters() == before.waiters()
}

/// `after` is `before` once fired, and `woken` the waiters it woke.
pub open spec fn fire_step(before: Shutdown, after: Shutdown, woken: Seq<u64>) -> bool {
    &&& after.fired()
    &&& after.waiters() == Seq::<u64>::empty()
    &&& after.issued() == before.issued()
    &&& woken == before.waiters()
}

/// Firing wakes each registered waiter exactly once, and no one else.
pub proof fn lemma_fire_wakes_each_once(before: Shutdown, after: Shutdown, woken: Seq<u64>)
    requires
        before.wf(),
        fire_step(before, after, woken),
    ensures
        woken.no_duplicates(),
        forall|w: u64| #[trigger] woken.contains(w) <==> before.waiters().contains(w),
{
}

/// A waiter that gave its registration back is not woken when the signal
/// fires later.
pub proof fn lemma_released_not_woken(
    before: Shutdown,
    released: Shutdown,
    after: Shutdown,
    id: u64,
    woken: Seq<u64>,
)
    requires
        before.wf(),
        release_step(before, released, id),
        fire_step(released, after, woken),
    ensures
        !woken.contains(id),
{
}

/// Once every waiter has given its registration back, firing wakes nobody
/// and leaves the signal fired with nobody registered.
pub proof fn lemma_fire_with_nobody_waiting(before: Shutdown, after: Shutdown, woken: Seq<u64>)
    requires
        before.wf(),
        before.waiters().len() == 0,
        fire_step(before, after, woken),
    ensures
        woken.len() == 0,
        after.fired(),
        after.waiters().len() == 0,
{
}

/// Firing a second time wakes nobody and changes nothing.
pub proof fn lemma_fire_again_is_quiet(
    first: Shutdown,
    fired: Shutdown,
    again: Shutdown,
    w1: Seq<u64>,
    w2: Seq<u64>,
)
    requires
        first.wf(),
        fire_step(first, fired, w1),
        fire_step(fired, again, w2),
    ensures
        w2.len() == 0,
        again.fired(),
        again.waiters() == fired.waiters(),
        again.issued() == fired.issued(),
{
}

} // verus!
