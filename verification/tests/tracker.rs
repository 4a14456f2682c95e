use ecat::error::Error;
use ecat::io::{classify, CompletionKind, TIMEOUT_CLEAR_MASK, TIMEOUT_MASK, WRITE_MASK};
use ecat::tracker::{IoOp, SubmitBurst, Tracker, MAX_RESUBMITS};
use ecat::txbuf::{PduResponseHandle, TxBuf, TxIndex};
use ecat::wire::PduHeader;

fn handle(pdu_idx: u8, slot: u8, command_code: u8) -> PduResponseHandle {
    PduResponseHandle { pdu_idx, index_in_frame: slot, command_code }
}

fn header(index: u8, command_code: u8) -> PduHeader {
    PduHeader { command_code, index, command_raw: 0x0110_1000 }
}

#[test]
fn correlation_id_packs_index_slot_and_command() {
    assert_eq!(handle(0x12, 0x03, 0x04).idx(), 0x04_03_12);
    assert_eq!((3usize, header(0x12, 0x04)).idx(), 0x04_03_12);
    assert_eq!(handle(0xff, 0xff, 0xff).idx(), 0xff_ffff);
}

#[test]
fn txbuf_keeps_what_it_was_made_with() {
    let mut entry = TxBuf::new(&handle(1, 0, 4), 5, Some(2), Some(9));
    assert_eq!(entry.idx(), 0x04_00_01);
    assert_eq!(entry.retries_remaining, 5);
    assert_eq!(entry.configured_addr, Some(2));
    assert_eq!(entry.identifier, Some(9));
    assert!(entry.received.is_none());
    assert_eq!(entry.update(&[1, 2, 3]), Ok(0x04_00_01 | WRITE_MASK));
    assert_eq!(entry.buf, vec![1, 2, 3]);
    let long = vec![0u8; 1025];
    assert_eq!(entry.update(&long), Err(Error::Capacity));
    assert_eq!(entry.buf, vec![1, 2, 3]);
}

#[test]
fn completions_are_told_apart() {
    let id = handle(7, 1, 5).idx();
    assert_eq!(classify(id | WRITE_MASK), CompletionKind::Write { key: id });
    assert_eq!(classify(id | TIMEOUT_MASK), CompletionKind::Timeout { key: id });
    assert_eq!(classify(id | TIMEOUT_CLEAR_MASK), CompletionKind::TimeoutClear { key: id });
    assert_eq!(classify(id), CompletionKind::Frame);
}

#[test]
fn submit_arms_the_timeout_and_writes() {
    let mut tracker = Tracker::new();
    let mut ops = Vec::new();
    let id = tracker.submit(&[0xaa; 60], &handle(1, 0, 7), 5, None, None, &mut ops).unwrap();
    assert_eq!(id, 0x07_00_01);
    assert_eq!(
        ops,
        vec![
            IoOp::Timeout { user_data: id | TIMEOUT_MASK },
            IoOp::Write { user_data: id | WRITE_MASK },
        ]
    );
    assert_eq!(tracker.len(), 1);
    assert!(tracker.contains(id));
    assert_eq!(tracker.retries_remaining(id), Some(5));
    assert_eq!(tracker.frame(id), Some(&vec![0xaa; 60]));
}

#[test]
fn submit_refuses_a_frame_that_is_too_long() {
    let mut tracker = Tracker::new();
    let mut ops = Vec::new();
    let long = vec![0u8; 1025];
    assert_eq!(
        tracker.submit(&long, &handle(1, 0, 7), 5, None, None, &mut ops),
        Err(Error::Capacity)
    );
    assert!(ops.is_empty());
    assert_eq!(tracker.len(), 0);
}

#[test]
fn an_id_is_never_held_twice() {
    let mut tracker = Tracker::new();
    let mut ops = Vec::new();
    tracker.submit(&[1], &handle(1, 0, 7), 5, None, None, &mut ops).unwrap();
    let before = ops.len();
    assert_eq!(
        tracker.submit(&[2], &handle(1, 0, 7), 5, None, None, &mut ops),
        Err(Error::Capacity)
    );
    assert_eq!(ops.len(), before);
    assert_eq!(tracker.len(), 1);
    assert_eq!(tracker.frame(0x07_00_01), Some(&vec![1]));
    tracker.submit(&[3], &handle(2, 0, 7), 5, None, None, &mut ops).unwrap();
    assert_eq!(tracker.len(), 2);
}

#[test]
fn dropped_reply_is_retransmitted_once_and_delivered_unchanged() {
    let mut tracker = Tracker::new();
    let mut ops = Vec::new();
    let sent = handle(9, 0, 4);
    let id = tracker.submit(&[0x55; 30], &sent, 5, Some(0), None, &mut ops).unwrap();
    ops.clear();
    tracker.on_timeout_fire(id, false, &mut ops);
    assert_eq!(ops, vec![IoOp::Write { user_data: id | WRITE_MASK }]);
    assert_eq!(tracker.retries_remaining(id), Some(4));
    ops.clear();
    let answer = header(9, 4);
    assert!(tracker.on_receive(0, answer, &[0x31, 0x00], 1, &mut ops));
    assert_eq!(
        ops,
        vec![IoOp::TimeoutRemove { target: id | TIMEOUT_MASK, user_data: id | TIMEOUT_CLEAR_MASK }]
    );
    let delivery = tracker.on_timeout_clear(id).unwrap().unwrap();
    assert_eq!(delivery.header, answer);
    assert_eq!(delivery.payload, vec![0x31, 0x00]);
    assert_eq!(delivery.working_counter, 1);
    assert_eq!(delivery.index, Some(0));
    assert_eq!(delivery.identifier, None);
    assert_eq!(tracker.len(), 0);
}

#[test]
fn timeout_exhaustion() {
    let mut tracker = Tracker::new();
    let mut ops = Vec::new();
    let id = tracker.submit(&[1, 2, 3], &handle(4, 0, 4), 2, None, None, &mut ops).unwrap();
    let write = IoOp::Write { user_data: id | WRITE_MASK };
    assert_eq!(ops, vec![IoOp::Timeout { user_data: id | TIMEOUT_MASK }, write]);
    ops.clear();
    tracker.on_timeout_fire(id, false, &mut ops);
    assert_eq!(ops, vec![write]);
    ops.clear();
    tracker.on_timeout_fire(id, false, &mut ops);
    assert_eq!(ops, vec![write]);
    ops.clear();
    tracker.on_timeout_fire(id, false, &mut ops);
    assert_eq!(
        ops,
        vec![IoOp::TimeoutRemove { target: id | TIMEOUT_MASK, user_data: id | TIMEOUT_CLEAR_MASK }]
    );
    ops.clear();
    tracker.on_timeout_fire(id, false, &mut ops);
    assert!(ops.is_empty());
    assert!(matches!(tracker.on_timeout_clear(id), Err(Error::Timeout)));
    assert!(!tracker.contains(id));
}

#[test]
fn cancelled_firing_is_ignored() {
    let mut tracker = Tracker::new();
    let mut ops = Vec::new();
    let id = tracker.submit(&[1], &handle(4, 0, 4), 0, None, None, &mut ops).unwrap();
    ops.clear();
    tracker.on_timeout_fire(id, true, &mut ops);
    assert!(ops.is_empty());
    assert_eq!(tracker.retries_remaining(id), Some(0));
    tracker.on_write_completion(id);
    assert!(tracker.contains(id));
}

#[test]
fn unknown_answer_is_dropped() {
    let mut tracker = Tracker::new();
    let mut ops = Vec::new();
    assert!(!tracker.on_receive(0, header(1, 4), &[1, 2], 1, &mut ops));
    assert!(ops.is_empty());
    tracker.on_timeout_fire(77, false, &mut ops);
    assert!(ops.is_empty());
    assert!(matches!(tracker.on_timeout_clear(77), Ok(None)));
}

#[test]
fn the_timeout_is_removed_once() {
    let mut tracker = Tracker::new();
    let mut ops = Vec::new();
    let id = tracker.submit(&[1], &handle(4, 0, 4), 0, None, Some(3), &mut ops).unwrap();
    ops.clear();
    tracker.on_timeout_fire(id, false, &mut ops);
    assert_eq!(ops.len(), 1);
    assert!(tracker.on_receive(0, header(4, 4), &[9], 1, &mut ops));
    assert_eq!(ops.len(), 1);
    let delivery = tracker.on_timeout_clear(id).unwrap().unwrap();
    assert_eq!(delivery.payload, vec![9]);
    assert_eq!(delivery.identifier, Some(3));
}

#[test]
fn abandon_takes_the_pdu_out_of_flight() {
    let mut tracker = Tracker::new();
    let mut ops = Vec::new();
    let id = tracker.submit(&[1], &handle(4, 0, 4), 0, None, None, &mut ops).unwrap();
    ops.clear();
    assert!(tracker.abandon(id, false, &mut ops));
    assert!(ops.is_empty());
    assert!(!tracker.abandon(id, true, &mut ops));
    assert!(ops.is_empty());
    assert_eq!(tracker.len(), 0);
}

#[test]
fn abandon_removes_a_timeout_that_was_armed() {
    let mut tracker = Tracker::new();
    let mut ops = Vec::new();
    let id = tracker.submit(&[1], &handle(4, 0, 4), 0, None, None, &mut ops).unwrap();
    ops.clear();
    assert!(tracker.abandon(id, true, &mut ops));
    assert_eq!(
        ops,
        vec![IoOp::TimeoutRemove { target: id | TIMEOUT_MASK, user_data: id | TIMEOUT_CLEAR_MASK }]
    );
    assert_eq!(tracker.len(), 0);
    // The completions that follow find no PDU and ask for nothing.
    ops.clear();
    tracker.on_timeout_fire(id, true, &mut ops);
    assert!(ops.is_empty());
    assert!(matches!(tracker.on_timeout_clear(id), Ok(None)));
}

#[test]
fn a_full_queue_is_retried_a_bounded_number_of_times() {
    let mut burst = SubmitBurst::new();
    for _ in 0..MAX_RESUBMITS {
        assert_eq!(burst.next(false), Ok(false));
    }
    assert_eq!(burst.next(false), Err(Error::IoSubmit));
    assert_eq!(burst.next(true), Ok(true));
    let mut fresh = SubmitBurst::new();
    assert_eq!(fresh.next(true), Ok(true));
    assert_eq!(fresh.refused, 0);
}
