//! The pending-operation slot: the coordination core of the asynchronous
//! wrappers.
//!
//! A device direction (receive or send) owns one slot.  The slot holds at
//! most one in-flight background operation plus the wake list of every task
//! suspended on it.  Concurrent pollers share the one operation: the first
//! poller starts it, later pollers only register for a wakeup, and whoever
//! observes the completion clears the slot and wakes the rest.  This is what
//! keeps one OS call in flight per direction and delivers each completed
//! operation exactly once.
//!
//! The event loop around the library performs the outside work (spawning the
//! blocking call, polling its task) and feeds the observations in; every
//! decision — spawn or join, whom to wake, what the caller gets — is made
//! and verified here.

use vstd::prelude::*;
use crate::waiters::{without, WaiterList};

verus! {

/// Mathematical state of a slot: whether an operation is in flight, and the
/// tokens of the suspended tasks, in registration order.
#[verifier::ext_equal]
pub struct SlotModel {
    pub in_flight: bool,
    pub waiters: Seq<u64>,
}

/// Well-formed slot state: no task is registered twice, and a slot with no
/// operation in flight has no waiters.
pub open spec fn model_wf(m: SlotModel) -> bool {
    &&& forall|i: int, j: int| 0 <= i < j < m.waiters.len() ==> m.waiters[i] != m.waiters[j]
    &&& (!m.in_flight ==> m.waiters.len() == 0)
}

/// `w` with `c` appended unless already present.
pub open spec fn spec_register(w: Seq<u64>, c: u64) -> Seq<u64> {
    if w.contains(c) {
        w
    } else {
        w.push(c)
    }
}

/// A caller arrives while nothing is ready: either it finds an operation in
/// flight and joins its wake list, or it must start one itself, becoming the
/// sole waiter.  The returned flag says whether it must start one.
pub open spec fn spec_acquire(m: SlotModel, c: u64) -> (bool, SlotModel) {
    if m.in_flight {
        (false, SlotModel { in_flight: true, waiters: spec_register(m.waiters, c) })
    } else {
        (true, SlotModel { in_flight: true, waiters: seq![c] })
    }
}

/// Everyone registered except the completing caller itself.
pub open spec fn spec_wake_set(w: Seq<u64>, c: u64) -> Seq<u64> {
    without(w, c)
}

/// Caller `c` observes the completion: the slot empties and every other
/// waiter is woken.
pub open spec fn spec_complete(m: SlotModel, c: u64) -> (Seq<u64>, SlotModel) {
    (spec_wake_set(m.waiters, c), SlotModel { in_flight: false, waiters: Seq::empty() })
}

/// A suspended caller is dropped: its token leaves the wake list; the
/// in-flight operation, if any, is not cancelled.
pub open spec fn spec_cancel(m: SlotModel, c: u64) -> SlotModel {
    SlotModel { in_flight: m.in_flight, waiters: without(m.waiters, c) }
}

/// An operation starts with nobody waiting on it (the send path, whose
/// caller is answered optimistically and never suspends on its own send).
pub open spec fn spec_launch(m: SlotModel) -> SlotModel {
    SlotModel { in_flight: true, waiters: Seq::empty() }
}

/// One direction's pending-operation slot.
pub struct OpSlot {
    in_flight: bool,
    waiters: WaiterList,
}

impl OpSlot {
    /// The mathematical state this slot is in.
    pub closed spec fn model(&self) -> SlotModel {
        SlotModel { in_flight: self.in_flight, waiters: self.waiters@ }
    }

    /// A fresh slot: nothing in flight, nobody waiting.
    pub fn new() -> (r: OpSlot)
        ensures
            r.model() == (SlotModel { in_flight: false, waiters: Seq::<u64>::empty() }),
            model_wf(r.model()),
    {
        let r = OpSlot { in_flight: false, waiters: WaiterList::new() };
        proof {
            assert(r.model() =~= SlotModel { in_flight: false, waiters: Seq::<u64>::empty() });
        }
        r
    }

    /// Whether an operation is currently in flight.
    pub fn is_in_flight(&self) -> (r: bool)
        ensures
            r == self.model().in_flight,
    {
        self.in_flight
    }

    /// A receive caller arrives while nothing is ready.  Returns true when
    /// the caller must start the one underlying operation; otherwise the
    /// caller joined the existing operation's wake list.
    pub fn acquire(&mut self, current: u64) -> (spawn: bool)
        requires
            model_wf(old(self).model()),
        ensures
            model_wf(final(self).model()),
            spawn == spec_acquire(old(self).model(), current).0,
            final(self).model() == spec_acquire(old(self).model(), current).1,
            spawn == !old(self).model().in_flight,
    {
        if self.in_flight {
            self.waiters.register(current);
            proof {
                assert(final(self).model() =~= spec_acquire(old(self).model(), current).1);
            }
            false
        } else {
            self.in_flight = true;
            self.waiters.register(current);
            proof {
                assert(final(self).model().waiters =~= seq![current]);
                assert(final(self).model() =~= spec_acquire(old(self).model(), current).1);
            }
            true
        }
    }

    /// Join the wake list of the operation in flight (send path).
    pub fn join(&mut self, current: u64)
        requires
            model_wf(old(self).model()),
            old(self).model().in_flight,
        ensures
            model_wf(final(self).model()),
            final(self).model() == (SlotModel {
                in_flight: true,
                waiters: spec_register(old(self).model().waiters, current),
            }),
    {
        self.waiters.register(current);
        proof {
            assert(final(self).model() =~= SlotModel {
                in_flight: true,
                waiters: spec_register(old(self).model().waiters, current),
            });
        }
    }

    /// Record that an operation was started with nobody waiting on it.
    pub fn launch(&mut self)
        requires
            model_wf(old(self).model()),
            !old(self).model().in_flight,
        ensures
            model_wf(final(self).model()),
            final(self).model() == spec_launch(old(self).model()),
    {
        self.in_flight = true;
        proof {
            assert(final(self).model() =~= spec_launch(old(self).model()));
        }
    }

    /// Caller `current` observed the in-flight operation complete: clear the
    /// slot and hand back the tokens to wake (everyone but `current`).
    pub fn complete(&mut self, current: u64) -> (wake: Vec<u64>)
        requires
            model_wf(old(self).model()),
            old(self).model().in_flight,
        ensures
            model_wf(final(self).model()),
            wake@ == spec_complete(old(self).model(), current).0,
            final(self).model() == spec_complete(old(self).model(), current).1,
            !wake@.contains(current),
    {
        let wake = self.waiters.drain_except(current);
        self.in_flight = false;
        proof {
            assert(final(self).model() =~= spec_complete(old(self).model(), current).1);
        }
        wake
    }

    /// A suspended caller was dropped: remove its token so a later
    /// completion does not wake it.  Other waiters are untouched, and the
    /// underlying operation keeps running.
    pub fn cancel(&mut self, current: u64)
        requires
            model_wf(old(self).model()),
        ensures
            model_wf(final(self).model()),
            final(self).model() == spec_cancel(old(self).model(), current),
            !final(self).model().waiters.contains(current),
    {
        self.waiters.remove(current);
        proof {
            assert(final(self).model() =~= spec_cancel(old(self).model(), current));
            if !old(self).model().in_flight {
                assert(without(old(self).model().waiters, current) =~= Seq::<u64>::empty());
            }
        }
    }
}

} // verus!
