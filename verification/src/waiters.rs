//! Wake lists for suspended asynchronous callers.
//!
//! Every task suspended on a pending operation registers a wake token here.
//! Tokens stand for task identities: the surrounding event loop hands the
//! same token to every poll made by one task, and distinct tasks get
//! distinct tokens.  The list is deduplicated, so a task that polls twice is
//! woken at most once, and it keeps registration order.

use vstd::prelude::*;

verus! {

/// The subsequence of `w` that keeps every token but `c`, in order.
pub open spec fn without(w: Seq<u64>, c: u64) -> Seq<u64>
    decreases w.len(),
{
    if w.len() == 0 {
        Seq::empty()
    } else {
        let rest = without(w.drop_last(), c);
        if w.last() == c {
            rest
        } else {
            rest.push(w.last())
        }
    }
}

/// The removed token does not occur in the result.
pub proof fn lemma_without_not_contains(w: Seq<u64>, c: u64)
    ensures
        !without(w, c).contains(c),
    decreases w.len(),
{
    if w.len() > 0 {
        lemma_without_not_contains(w.drop_last(), c);
        let r = without(w, c);
        if w.last() != c {
            assert forall|i: int| 0 <= i < r.len() implies r[i] != c by {
                if i < r.len() - 1 {
                    assert(r[i] == without(w.drop_last(), c)[i]);
                    assert(without(w.drop_last(), c).contains(r[i]) == false || r[i] != c);
                    if r[i] == c {
                        assert(without(w.drop_last(), c)[i] == c);
                        assert(without(w.drop_last(), c).contains(c));
                    }
                }
            }
        }
    }
}

/// Every element of the result occurs in the original list.
pub proof fn lemma_without_subset(w: Seq<u64>, c: u64)
    ensures
        forall|i: int| 0 <= i < without(w, c).len() ==> w.contains(#[trigger] without(w, c)[i]),
    decreases w.len(),
{
    if w.len() > 0 {
        lemma_without_subset(w.drop_last(), c);
        let r = without(w, c);
        let rd = without(w.drop_last(), c);
        assert forall|i: int| 0 <= i < r.len() implies w.contains(r[i]) by {
            if w.last() != c && i == r.len() - 1 {
                assert(r[i] == w.last());
                assert(w[w.len() - 1] == w.last());
            } else {
                assert(r[i] == rd[i]);
                assert(w.drop_last().contains(rd[i]));
                let k = choose|k: int| 0 <= k < w.drop_last().len() && w.drop_last()[k] == rd[i];
                assert(w[k] == rd[i]);
            }
        }
    }
}

/// Every other token is kept.
pub proof fn lemma_without_keeps(w: Seq<u64>, c: u64, t: u64)
    requires
        w.contains(t),
        t != c,
    ensures
        without(w, c).contains(t),
    decreases w.len(),
{
    if w.len() > 0 {
        let r = without(w, c);
        let rd = without(w.drop_last(), c);
        if w.last() == t {
            assert(r.last() == t);
        } else {
            let k = choose|k: int| 0 <= k < w.len() && w[k] == t;
            assert(w.drop_last()[k] == t);
            lemma_without_keeps(w.drop_last(), c, t);
            let i = choose|i: int| 0 <= i < rd.len() && rd[i] == t;
            assert(r[i] == t);
        }
    }
}

/// Removing a token from a duplicate-free list leaves a duplicate-free list.
pub proof fn lemma_without_distinct(w: Seq<u64>, c: u64)
    requires
        forall|i: int, j: int| 0 <= i < j < w.len() ==> w[i] != w[j],
    ensures
        forall|i: int, j: int|
            0 <= i < j < without(w, c).len() ==> without(w, c)[i] != without(w, c)[j],
    decreases w.len(),
{
    if w.len() > 0 {
        lemma_without_distinct(w.drop_last(), c);
        lemma_without_subset(w.drop_last(), c);
        let r = without(w, c);
        let rd = without(w.drop_last(), c);
        assert forall|i: int, j: int| 0 <= i < j < r.len() implies r[i] != r[j] by {
            if w.last() != c && j == r.len() - 1 {
                assert(r[j] == w.last());
                assert(r[i] == rd[i]);
                assert(w.drop_last().contains(rd[i]));
                let k = choose|k: int| 0 <= k < w.drop_last().len() && w.drop_last()[k] == rd[i];
                assert(w[k] == rd[i]);
                assert(w[k] != w[w.len() - 1]);
            } else {
                assert(r[i] == rd[i] && r[j] == rd[j]);
            }
        }
    }
}

/// An ordered list of wake tokens with no duplicates.
pub struct WaiterList {
    tokens: Vec<u64>,
}

impl View for WaiterList {
    type V = Seq<u64>;

    closed spec fn view(&self) -> Seq<u64> {
        self.tokens@
    }
}

impl WaiterList {
    /// No token occurs twice.
    pub open spec fn wf(&self) -> bool {
        forall|i: int, j: int| 0 <= i < j < self@.len() ==> self@[i] != self@[j]
    }

    /// An empty wake list.
    pub fn new() -> (r: WaiterList)
        ensures
            r@ =~= Seq::<u64>::empty(),
            r.wf(),
    {
        WaiterList { tokens: Vec::new() }
    }

    /// How many tasks are registered.
    pub fn len(&self) -> (r: usize)
        ensures
            r == self@.len(),
    {
        self.tokens.len()
    }

    /// Whether `token` is already registered.
    pub fn contains(&self, token: u64) -> (r: bool)
        ensures
            r == self@.contains(token),
    {
        let n = self.tokens.len();
        let mut i: usize = 0;
        while i < n
            invariant
                i <= n,
                n == self@.len(),
                forall|k: int| 0 <= k < i ==> self@[k] != token,
            decreases n - i,
        {
            if self.tokens[i] == token {
                return true;
            }
            i = i + 1;
        }
        false
    }

    /// Register `token`, unless the same task is already registered; order
    /// of the existing entries is kept.
    pub fn register(&mut self, token: u64)
        requires
            old(self).wf(),
        ensures
            final(self).wf(),
            old(self)@.contains(token) ==> final(self)@ == old(self)@,
            !old(self)@.contains(token) ==> final(self)@ == old(self)@.push(token),
            final(self)@.contains(token),
    {
        if !self.contains(token) {
            self.tokens.push(token);
            assert(self@.last() == token);
        }
    }

    /// Remove the entry of a cancelled task, if present.  Every other entry
    /// stays, in order.
    pub fn remove(&mut self, token: u64)
        requires
            old(self).wf(),
        ensures
            final(self).wf(),
            final(self)@ == without(old(self)@, token),
            !final(self)@.contains(token),
    {
        let n = self.tokens.len();
        let mut kept: Vec<u64> = Vec::new();
        let mut i: usize = 0;
        while i < n
            invariant
                i <= n,
                n == old(self)@.len(),
                self@ == old(self)@,
                kept@ == without(old(self)@.take(i as int), token),
            decreases n - i,
        {
            let t = self.tokens[i];
            proof {
                let prefix = old(self)@.take(i + 1);
                assert(prefix.drop_last() =~= old(self)@.take(i as int));
                assert(prefix.last() == t);
            }
            if t != token {
                kept.push(t);
            }
            i = i + 1;
        }
        proof {
            assert(old(self)@.take(n as int) =~= old(self)@);
            lemma_without_distinct(old(self)@, token);
            lemma_without_not_contains(old(self)@, token);
        }
        self.tokens = kept;
    }

    /// Take every registered token out, except the one of the task that is
    /// completing the operation itself: those are the tasks to wake.  The
    /// list is empty afterwards.
    pub fn drain_except(&mut self, current: u64) -> (wake: Vec<u64>)
        requires
            old(self).wf(),
        ensures
            final(self).wf(),
            final(self)@ =~= Seq::<u64>::empty(),
            wake@ == without(old(self)@, current),
            !wake@.contains(current),
            forall|i: int, j: int| 0 <= i < j < wake@.len() ==> wake@[i] != wake@[j],
    {
        self.remove(current);
        let mut wake: Vec<u64> = Vec::new();
        core::mem::swap(&mut wake, &mut self.tokens);
        proof {
            lemma_without_distinct(old(self)@, current);
        }
        wake
    }
}

} // verus!
