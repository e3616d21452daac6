//! Decision logic of the offload-thread asynchronous wrapper.
//!
//! A device whose only receive/send primitive blocks is wrapped by running
//! that primitive on a background thread pool.  The event loop around the
//! library does only the outside work — try the non-blocking fast path,
//! spawn the blocking call, poll its task, wake wakers — and feeds each
//! observation into the functions here, which decide everything else:
//! whether to start an operation or join the one in flight, what the caller
//! gets back, whom to wake, and how a completed packet lands in the
//! caller's buffer.
//!
//! The trace lemmas at the end state the coordination laws: one underlying
//! call in flight per direction, and each completion consumed exactly once.

use vstd::prelude::*;
use crate::error::{IoError, IoErrorKind};
use crate::slot::{
    spec_acquire, spec_cancel, spec_complete, spec_launch, model_wf, OpSlot, SlotModel,
};
use crate::waiters::{
    lemma_without_keeps, lemma_without_not_contains, lemma_without_subset, without,
};

verus! {

/// The retry-later signal, which asynchronous callers must never see.
pub open spec fn is_would_block(r: Result<usize, IoError>) -> bool {
    r matches Err(e) && e.kind == IoErrorKind::WouldBlock
}

/// Runtime test matching `is_would_block`.
pub fn result_is_would_block(r: &Result<usize, IoError>) -> (b: bool)
    ensures
        b == is_would_block(*r),
{
    match r {
        Result::Ok(_) => false,
        Result::Err(e) => e.kind == IoErrorKind::WouldBlock,
    }
}

/// What one poll of an asynchronous operation yields: a final result for
/// the caller, or the decision to suspend the calling task.
#[derive(Debug, PartialEq, Eq)]
pub enum PollOutcome {
    Ready(Result<usize, IoError>),
    Suspend,
}

/// What a completed background read produced: a buffer and the number of
/// valid bytes at its front.
pub struct RecvPayload {
    pub data: Vec<u8>,
    pub len: usize,
}

impl RecvPayload {
    /// The packet fits inside the buffer that carries it.
    pub open spec fn wf(&self) -> bool {
        self.len <= self.data@.len()
    }
}

/// First phase of polling a receive: either the fast path settled it, or
/// the caller now holds a place in the slot and must poll the background
/// task (starting it first when `spawn` is true).
#[derive(Debug, PartialEq, Eq)]
pub enum RecvPrepare {
    Return(Result<usize, IoError>),
    PollTask { spawn: bool },
}

/// The caller's buffer after a packet of `len` bytes is copied in: the
/// packet's bytes, then — when the packet is short — the untouched rest of
/// the buffer.  A packet longer than the buffer fills it completely.
pub open spec fn spec_delivered(data: Seq<u8>, len: int, buf: Seq<u8>) -> Seq<u8> {
    if len <= buf.len() {
        data.take(len) + buf.skip(len)
    } else {
        data.take(buf.len() as int)
    }
}

/// What the caller is told about the delivery: the packet length when it
/// fit, and a write-zero error when the buffer was too small (the buffer
/// still receives the prefix that fit).
pub open spec fn spec_deliver_result(len: int, buf_len: int) -> Result<usize, IoError> {
    if len <= buf_len {
        Result::Ok(len as usize)
    } else {
        Result::Err(IoError { kind: IoErrorKind::WriteZero, code: 0 })
    }
}

/// Round trip: a packet posted on one end of a pair carries exactly the
/// sender's bytes, so delivering it into any buffer at least as large
/// yields byte-identical content and the sender's length.
pub proof fn lemma_round_trip(sent: Seq<u8>, out: Seq<u8>)
    requires
        sent.len() <= out.len(),
        sent.len() <= usize::MAX,
    ensures
        spec_deliver_result(sent.len() as int, out.len() as int) == Ok::<usize, IoError>(
            sent.len() as usize,
        ),
        spec_delivered(sent, sent.len() as int, out).take(sent.len() as int) == sent,
        spec_delivered(sent, sent.len() as int, out).len() == out.len(),
{
    let d = spec_delivered(sent, sent.len() as int, out);
    assert(d.take(sent.len() as int) =~= sent);
}

/// Copy the first `len` bytes of `data` into the front of `buf`, which
/// keeps its length.  Exactly the semantics of `spec_delivered` and
/// `spec_deliver_result`.
pub fn copy_packet(data: &Vec<u8>, len: usize, buf: &mut Vec<u8>) -> (r: Result<usize, IoError>)
    requires
        len <= data@.len(),
    ensures
        final(buf)@.len() == old(buf)@.len(),
        final(buf)@ == spec_delivered(data@, len as int, old(buf)@),
        r == spec_deliver_result(len as int, old(buf)@.len() as int),
{
    let k: usize = if len <= buf.len() { len } else { buf.len() };
    let mut i: usize = 0;
    while i < k
        invariant
            i <= k,
            k <= len <= data@.len(),
            k <= buf@.len(),
            buf@.len() == old(buf)@.len(),
            forall|j: int| 0 <= j < i ==> buf@[j] == data@[j],
            forall|j: int| i <= j < buf@.len() ==> buf@[j] == old(buf)@[j],
        decreases k - i,
    {
        let b = data[i];
        buf.set(i, b);
        i = i + 1;
    }
    proof {
        if len <= old(buf)@.len() {
            assert(buf@ =~= data@.take(len as int) + old(buf)@.skip(len as int));
        } else {
            assert(buf@ =~= data@.take(old(buf)@.len() as int));
        }
    }
    if len <= buf.len() {
        Result::Ok(len)
    } else {
        Result::Err(IoError { kind: IoErrorKind::WriteZero, code: 0 })
    }
}

/// First phase of an asynchronous receive poll.  `fast` is what the
/// non-blocking attempt returned.  Anything but the retry-later signal is
/// final and is handed straight back; on retry-later the caller takes or
/// joins the slot.  A returned result is never the retry-later signal.
pub fn poll_recv_prepare(slot: &mut OpSlot, current: u64, fast: Result<usize, IoError>) -> (r:
    RecvPrepare)
    requires
        model_wf(old(slot).model()),
    ensures
        model_wf(final(slot).model()),
        !is_would_block(fast) ==> final(slot).model() == old(slot).model() && r
            == RecvPrepare::Return(fast),
        is_would_block(fast) ==> {
            &&& r == (RecvPrepare::PollTask { spawn: spec_acquire(old(slot).model(), current).0 })
            &&& final(slot).model() == spec_acquire(old(slot).model(), current).1
            &&& spec_acquire(old(slot).model(), current).0 == !old(slot).model().in_flight
        },
        r matches RecvPrepare::Return(res) ==> !is_would_block(res),
        final(slot).model().in_flight == (old(slot).model().in_flight || is_would_block(fast)),
{
    if result_is_would_block(&fast) {
        let spawn = slot.acquire(current);
        RecvPrepare::PollTask { spawn }
    } else {
        RecvPrepare::Return(fast)
    }
}

/// Second phase of an asynchronous receive poll, after the background task
/// was polled.  `outcome` is `None` while the task is still pending (the
/// caller suspends; the slot keeps the operation), and `Some` when it
/// completed.  On completion the slot is cleared, every other waiter is
/// handed back to be woken exactly once, and the packet — or the error —
/// goes to the current caller alone.  The result is never the retry-later
/// signal.
pub fn poll_recv_finish(
    slot: &mut OpSlot,
    current: u64,
    outcome: Option<Result<RecvPayload, IoError>>,
    buf: &mut Vec<u8>,
) -> (r: (PollOutcome, Vec<u64>))
    requires
        model_wf(old(slot).model()),
        old(slot).model().in_flight,
        outcome matches Some(res) ==> (res matches Ok(p) ==> p.wf()),
        outcome matches Some(res) ==> (res matches Err(e) ==> e.kind != IoErrorKind::WouldBlock),
    ensures
        model_wf(final(slot).model()),
        outcome is None ==> {
            &&& final(slot).model() == old(slot).model()
            &&& r.0 == PollOutcome::Suspend
            &&& r.1@.len() == 0
            &&& final(buf)@ == old(buf)@
        },
        outcome matches Some(res) ==> {
            &&& final(slot).model() == spec_complete(old(slot).model(), current).1
            &&& r.1@ == spec_complete(old(slot).model(), current).0
            &&& !r.1@.contains(current)
            &&& (res matches Err(e) ==> r.0 == PollOutcome::Ready(Result::Err(e))
                && final(buf)@ == old(buf)@)
            &&& (res matches Ok(p) ==> r.0 == PollOutcome::Ready(
                spec_deliver_result(p.len as int, old(buf)@.len() as int),
            ) && final(buf)@ == spec_delivered(p.data@, p.len as int, old(buf)@))
        },
        r.0 matches PollOutcome::Ready(res) ==> !is_would_block(res),
{
    match outcome {
        Option::None => (PollOutcome::Suspend, Vec::new()),
        Option::Some(res) => {
            let wake = slot.complete(current);
            match res {
                Result::Ok(payload) => {
                    let copied = copy_packet(&payload.data, payload.len, buf);
                    (PollOutcome::Ready(copied), wake)
                },
                Result::Err(e) => (PollOutcome::Ready(Result::Err(e)), wake),
            }
        },
    }
}

/// A suspended receive or send caller was dropped before completion: take
/// its token out of the wake list.  The operation in flight, if any, keeps
/// running for the remaining waiters.
pub fn poll_cancel(slot: &mut OpSlot, current: u64)
    requires
        model_wf(old(slot).model()),
    ensures
        model_wf(final(slot).model()),
        final(slot).model() == spec_cancel(old(slot).model(), current),
        !final(slot).model().waiters.contains(current),
        final(slot).model().in_flight == old(slot).model().in_flight,
{
    slot.cancel(current);
}

/// Send path: when a send is already in flight the caller joins its wake
/// list (returns true, caller suspends after polling the task); when the
/// slot is free the caller should start its own send instead.
pub fn poll_send_try_join(slot: &mut OpSlot, current: u64) -> (joined: bool)
    requires
        model_wf(old(slot).model()),
    ensures
        model_wf(final(slot).model()),
        joined == old(slot).model().in_flight,
        !joined ==> final(slot).model() == old(slot).model(),
        joined ==> final(slot).model() == (SlotModel {
            in_flight: true,
            waiters: crate::slot::spec_register(old(slot).model().waiters, current),
        }),
{
    if slot.is_in_flight() {
        slot.join(current);
        true
    } else {
        false
    }
}

/// Send path: the in-flight send completed under caller `current`.  The
/// slot is cleared and every other waiter is returned to be woken.  On
/// success the caller goes on to start its own send; a failure is terminal
/// and is handed to the caller.  The error is never the retry-later signal.
pub fn poll_send_finish(slot: &mut OpSlot, current: u64, result: Result<usize, IoError>) -> (r: (
    Option<IoError>,
    Vec<u64>,
))
    requires
        model_wf(old(slot).model()),
        old(slot).model().in_flight,
        result matches Err(e) ==> e.kind != IoErrorKind::WouldBlock,
    ensures
        model_wf(final(slot).model()),
        final(slot).model() == spec_complete(old(slot).model(), current).1,
        r.1@ == spec_complete(old(slot).model(), current).0,
        !r.1@.contains(current),
        result matches Err(e) ==> r.0 == Some(e) && e.kind != IoErrorKind::WouldBlock,
        result is Ok ==> r.0 is None,
{
    let wake = slot.complete(current);
    match result {
        Result::Ok(_) => (Option::None, wake),
        Result::Err(e) => (Option::Some(e), wake),
    }
}

/// Send path: the slot is free, so the caller's bytes are handed to a fresh
/// background send and the caller is answered at once with the whole
/// buffer length — the optimistic accepted-for-transmission signal the
/// offload wrapper gives; it is not a confirmation of wire delivery.
pub fn poll_send_start(slot: &mut OpSlot, len: usize) -> (r: PollOutcome)
    requires
        model_wf(old(slot).model()),
        !old(slot).model().in_flight,
    ensures
        model_wf(final(slot).model()),
        final(slot).model() == spec_launch(old(slot).model()),
        r == PollOutcome::Ready(Result::<usize, IoError>::Ok(len)),
{
    slot.launch();
    PollOutcome::Ready(Result::Ok(len))
}

// ---------------------------------------------------------------------
// Trace-level laws of the coordination protocol.
// ---------------------------------------------------------------------

/// One full receive poll as seen by the slot: which task polled, whether
/// the fast path already had a result, and whether the background task was
/// observed complete during this poll.
pub struct RecvEvent {
    pub caller: u64,
    pub fast_ready: bool,
    pub task_done: bool,
}

/// How one poll transforms the slot state.
pub open spec fn recv_pass(m: SlotModel, e: RecvEvent) -> SlotModel {
    if e.fast_ready {
        m
    } else {
        let m1 = spec_acquire(m, e.caller).1;
        if e.task_done {
            spec_complete(m1, e.caller).1
        } else {
            m1
        }
    }
}

/// Whether this poll starts a new underlying operation.
pub open spec fn pass_spawns(m: SlotModel, e: RecvEvent) -> bool {
    !e.fast_ready && !m.in_flight
}

/// Whether this poll consumes a completed underlying operation.
pub open spec fn pass_delivers(e: RecvEvent) -> bool {
    !e.fast_ready && e.task_done
}

/// The slot state after a sequence of polls.
pub open spec fn run_recv(m: SlotModel, evs: Seq<RecvEvent>) -> SlotModel
    decreases evs.len(),
{
    if evs.len() == 0 {
        m
    } else {
        run_recv(recv_pass(m, evs.first()), evs.drop_first())
    }
}

/// How many underlying operations a sequence of polls starts.
pub open spec fn count_spawns(m: SlotModel, evs: Seq<RecvEvent>) -> nat
    decreases evs.len(),
{
    if evs.len() == 0 {
        0nat
    } else {
        (if pass_spawns(m, evs.first()) {
            1nat
        } else {
            0nat
        }) + count_spawns(recv_pass(m, evs.first()), evs.drop_first())
    }
}

/// How many completed operations a sequence of polls delivers to a caller.
pub open spec fn count_deliveries(evs: Seq<RecvEvent>) -> nat
    decreases evs.len(),
{
    if evs.len() == 0 {
        0nat
    } else {
        (if pass_delivers(evs.first()) {
            1nat
        } else {
            0nat
        }) + count_deliveries(evs.drop_first())
    }
}

/// Single-in-flight law: however many callers poll concurrently, as long
/// as no underlying operation completes, at most one underlying operation
/// is started — none at all while one is already in flight.
pub proof fn lemma_single_in_flight(m: SlotModel, evs: Seq<RecvEvent>)
    requires
        forall|i: int| 0 <= i < evs.len() ==> !(#[trigger] evs[i]).task_done,
    ensures
        count_spawns(m, evs) <= (if m.in_flight {
            0nat
        } else {
            1nat
        }),
        run_recv(m, evs).in_flight == (m.in_flight || count_spawns(m, evs) > 0),
    decreases evs.len(),
{
    if evs.len() > 0 {
        let e = evs.first();
        let m1 = recv_pass(m, e);
        assert(!e.task_done);
        assert(forall|i: int|
            0 <= i < evs.drop_first().len() ==> !(#[trigger] evs.drop_first()[i]).task_done);
        lemma_single_in_flight(m1, evs.drop_first());
        if m.in_flight {
            assert(m1.in_flight);
        }
    }
}

/// No-duplicate-delivery law: a sequence of polls cannot deliver more
/// completed operations than it starts (plus the one that may already have
/// been in flight).  Every packet handed to a caller therefore comes from
/// its own underlying receive; one completion is never delivered twice.
pub proof fn lemma_no_duplicate_delivery(m: SlotModel, evs: Seq<RecvEvent>)
    ensures
        count_deliveries(evs) <= count_spawns(m, evs) + (if m.in_flight {
            1nat
        } else {
            0nat
        }),
    decreases evs.len(),
{
    if evs.len() > 0 {
        let e = evs.first();
        let m1 = recv_pass(m, e);
        lemma_no_duplicate_delivery(m1, evs.drop_first());
    }
}

/// Waiter-cleanup law: when a suspended caller is cancelled and the
/// operation later completes under some other caller, the cancelled task
/// is not woken, while every other registered task still is.
pub proof fn lemma_waiter_cleanup(m: SlotModel, cancelled: u64, current: u64)
    requires
        model_wf(m),
    ensures
        ({
            let wake = spec_complete(spec_cancel(m, cancelled), current).0;
            &&& !wake.contains(cancelled)
            &&& !wake.contains(current)
            &&& forall|t: u64|
                m.waiters.contains(t) && t != cancelled && t != current ==> wake.contains(t)
        }),
{
    let after_cancel = without(m.waiters, cancelled);
    let wake = without(after_cancel, current);
    lemma_without_not_contains(m.waiters, cancelled);
    lemma_without_not_contains(after_cancel, current);
    lemma_without_subset(after_cancel, current);
    if wake.contains(cancelled) {
        let i = choose|i: int| 0 <= i < wake.len() && wake[i] == cancelled;
        assert(after_cancel.contains(wake[i]));
    }
    assert forall|t: u64|
        m.waiters.contains(t) && t != cancelled && t != current implies wake.contains(t) by {
        lemma_without_keeps(m.waiters, cancelled, t);
        lemma_without_keeps(after_cancel, current, t);
    }
}

} // verus!
