use tun_core::async_device::{
    copy_packet, poll_cancel, poll_recv_finish, poll_recv_prepare, poll_send_finish,
    poll_send_start, poll_send_try_join, result_is_would_block, PollOutcome, RecvPayload,
    RecvPrepare,
};
use tun_core::error::{IoError, IoErrorKind};
use tun_core::slot::OpSlot;
use tun_core::waiters::WaiterList;

fn would_block() -> Result<usize, IoError> {
    Err(IoError { kind: IoErrorKind::WouldBlock, code: 0 })
}

#[test]
fn waiter_list_deduplicates_and_keeps_order() {
    let mut w = WaiterList::new();
    w.register(1);
    w.register(2);
    w.register(1);
    assert_eq!(w.len(), 2);
    assert!(w.contains(1));
    assert!(w.contains(2));
    let wake = w.drain_except(1);
    assert_eq!(wake, vec![2]);
    assert_eq!(w.len(), 0);
}

#[test]
fn waiter_list_remove_is_cancel() {
    let mut w = WaiterList::new();
    w.register(1);
    w.register(2);
    w.register(3);
    w.remove(2);
    assert!(!w.contains(2));
    assert!(w.contains(1));
    assert!(w.contains(3));
    assert_eq!(w.len(), 2);
}

#[test]
fn single_in_flight_two_concurrent_receivers() {
    // Two callers poll while nothing is ready: only the first starts the
    // one underlying receive; the second merely joins the wake list.
    let mut slot = OpSlot::new();
    let first = poll_recv_prepare(&mut slot, 1, would_block());
    assert_eq!(first, RecvPrepare::PollTask { spawn: true });
    let second = poll_recv_prepare(&mut slot, 2, would_block());
    assert_eq!(second, RecvPrepare::PollTask { spawn: false });
    let third = poll_recv_prepare(&mut slot, 2, would_block());
    assert_eq!(third, RecvPrepare::PollTask { spawn: false });
    assert!(slot.is_in_flight());
}

#[test]
fn completion_delivered_once_and_wakes_others() {
    // Caller 1 starts the operation, caller 2 joins; caller 2 happens to
    // observe the completion: it alone receives the packet, and exactly
    // the other waiter is woken.  The slot is then free for a fresh
    // operation, so the packet can never be handed out twice.
    let mut slot = OpSlot::new();
    assert_eq!(poll_recv_prepare(&mut slot, 1, would_block()), RecvPrepare::PollTask {
        spawn: true,
    });
    assert_eq!(poll_recv_prepare(&mut slot, 2, would_block()), RecvPrepare::PollTask {
        spawn: false,
    });
    let mut buf = vec![0u8; 4];
    let payload = RecvPayload { data: vec![7, 8, 9], len: 3 };
    let (outcome, wake) = poll_recv_finish(&mut slot, 2, Some(Ok(payload)), &mut buf);
    assert_eq!(outcome, PollOutcome::Ready(Ok(3)));
    assert_eq!(buf, vec![7, 8, 9, 0]);
    assert_eq!(wake, vec![1]);
    assert!(!slot.is_in_flight());
}

#[test]
fn pending_task_suspends_without_waking_anyone() {
    let mut slot = OpSlot::new();
    assert_eq!(poll_recv_prepare(&mut slot, 1, would_block()), RecvPrepare::PollTask {
        spawn: true,
    });
    let mut buf = vec![0u8; 4];
    let (outcome, wake) = poll_recv_finish(&mut slot, 1, None, &mut buf);
    assert_eq!(outcome, PollOutcome::Suspend);
    assert!(wake.is_empty());
    assert!(slot.is_in_flight());
}

#[test]
fn cancelled_waiter_is_not_woken_later() {
    // Caller 2 cancels while suspended; when caller 1 later completes the
    // operation, caller 2 is not woken, and caller 3 still is.
    let mut slot = OpSlot::new();
    poll_recv_prepare(&mut slot, 1, would_block());
    poll_recv_prepare(&mut slot, 2, would_block());
    poll_recv_prepare(&mut slot, 3, would_block());
    poll_cancel(&mut slot, 2);
    let mut buf = vec![0u8; 1];
    let payload = RecvPayload { data: vec![5], len: 1 };
    let (outcome, wake) = poll_recv_finish(&mut slot, 1, Some(Ok(payload)), &mut buf);
    assert_eq!(outcome, PollOutcome::Ready(Ok(1)));
    assert_eq!(wake, vec![3]);
}

#[test]
fn error_completion_reaches_caller_and_wakes_waiters() {
    let mut slot = OpSlot::new();
    poll_recv_prepare(&mut slot, 1, would_block());
    poll_recv_prepare(&mut slot, 2, would_block());
    let mut buf = vec![0u8; 1];
    let aborted = IoError { kind: IoErrorKind::ConnectionAborted, code: 0 };
    let (outcome, wake) = poll_recv_finish(&mut slot, 1, Some(Err(aborted)), &mut buf);
    assert_eq!(outcome, PollOutcome::Ready(Err(aborted)));
    assert_eq!(wake, vec![2]);
    assert!(!slot.is_in_flight());
}

#[test]
fn would_block_never_surfaces_from_async_poll() {
    // A ready fast path is returned as-is; the retry-later signal is
    // always turned into a suspension, never into a returned result.
    let mut slot = OpSlot::new();
    let ready = poll_recv_prepare(&mut slot, 1, Ok(42));
    assert_eq!(ready, RecvPrepare::Return(Ok(42)));
    let hard = IoError { kind: IoErrorKind::ConnectionAborted, code: 5 };
    let mut slot2 = OpSlot::new();
    assert_eq!(poll_recv_prepare(&mut slot2, 1, Err(hard)), RecvPrepare::Return(Err(hard)));
    let mut slot3 = OpSlot::new();
    match poll_recv_prepare(&mut slot3, 1, would_block()) {
        RecvPrepare::Return(_) => panic!("retry-later signal surfaced"),
        RecvPrepare::PollTask { spawn } => assert!(spawn),
    }
    assert!(result_is_would_block(&would_block()));
    assert!(!result_is_would_block(&Ok(0)));
}

#[test]
fn send_joins_or_starts_and_reports_optimistically() {
    let mut slot = OpSlot::new();
    // Nothing in flight: the caller starts its own send and is answered
    // at once with its whole buffer length.
    assert!(!poll_send_try_join(&mut slot, 1));
    let outcome = poll_send_start(&mut slot, 1500);
    assert_eq!(outcome, PollOutcome::Ready(Ok(1500)));
    assert!(slot.is_in_flight());
    // A second sender finds the send in flight and joins.
    assert!(poll_send_try_join(&mut slot, 2));
    // The send completes under caller 2: success lets it continue, the
    // other registered waiters are woken.
    let (err, wake) = poll_send_finish(&mut slot, 2, Ok(1500));
    assert!(err.is_none());
    assert!(wake.is_empty());
    assert!(!slot.is_in_flight());
}

#[test]
fn send_error_is_terminal() {
    let mut slot = OpSlot::new();
    poll_send_start(&mut slot, 100);
    poll_send_try_join(&mut slot, 7);
    poll_send_try_join(&mut slot, 8);
    let aborted = IoError { kind: IoErrorKind::ConnectionAborted, code: 0 };
    let (err, wake) = poll_send_finish(&mut slot, 7, Err(aborted));
    assert_eq!(err, Some(aborted));
    assert_eq!(wake, vec![8]);
    assert!(!slot.is_in_flight());
}

#[test]
fn copy_packet_truncation_and_fit() {
    let data = vec![1u8, 2, 3, 4, 5];
    let mut big = vec![9u8; 8];
    assert_eq!(copy_packet(&data, 5, &mut big), Ok(5));
    assert_eq!(big, vec![1, 2, 3, 4, 5, 9, 9, 9]);
    let mut small = vec![0u8; 3];
    let r = copy_packet(&data, 5, &mut small);
    assert_eq!(r, Err(IoError { kind: IoErrorKind::WriteZero, code: 0 }));
    assert_eq!(small, vec![1, 2, 3]);
    let mut exact = vec![0u8; 2];
    assert_eq!(copy_packet(&data, 2, &mut exact), Ok(2));
    assert_eq!(exact, vec![1, 2]);
}
