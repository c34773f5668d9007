//! Tests of the retry-write state machine: partial acceptance, would-block
//! waits, zero-byte writes, and early exhaustion.

use log_nonblock::{LogWorker, RetryAction, RetryProgress, WriteOutcome};

#[test]
fn accepted_bytes_advance_the_cursor_exactly() {
    let mut p = RetryProgress::new(10);
    assert!(!p.done());
    assert_eq!(p.remaining(), 10);
    assert!(matches!(p.on_outcome(&WriteOutcome::Accepted(4)), RetryAction::Advanced));
    assert_eq!(p.written(), 4);
    assert_eq!(p.remaining(), 6);
    assert!(matches!(p.on_outcome(&WriteOutcome::Accepted(6)), RetryAction::Advanced));
    assert!(p.done());
}

#[test]
fn zero_acceptance_and_would_block_ask_the_loop_to_wait() {
    let mut p = RetryProgress::new(5);
    assert!(matches!(p.on_outcome(&WriteOutcome::Accepted(0)), RetryAction::AwaitWritable));
    assert_eq!(p.written(), 0);
    assert!(matches!(p.on_outcome(&WriteOutcome::WouldBlock), RetryAction::AwaitWritable));
    assert_eq!(p.written(), 0);
}

#[test]
fn a_hard_error_aborts_without_moving_the_cursor() {
    let mut p = RetryProgress::new(5);
    assert!(matches!(p.on_outcome(&WriteOutcome::Accepted(2)), RetryAction::Advanced));
    assert!(matches!(p.on_outcome(&WriteOutcome::Fatal), RetryAction::Abort));
    assert_eq!(p.written(), 2);
}

#[test]
fn over_acceptance_is_clamped_to_the_buffer_end() {
    let mut p = RetryProgress::new(3);
    assert!(matches!(p.on_outcome(&WriteOutcome::Accepted(100)), RetryAction::Advanced));
    assert!(p.done());
    assert_eq!(p.written(), 3);
}

#[test]
fn exhausted_events_leave_a_prefix_without_failing() {
    let payload = b"0123456789".to_vec();
    let events = vec![WriteOutcome::Accepted(3), WriteOutcome::WouldBlock];
    let mut sink: Vec<u8> = Vec::new();
    let r = LogWorker::write_buffer(&payload, &events, &mut sink);
    assert!(matches!(r, Ok(false)));
    assert_eq!(sink, b"012".to_vec());
}

#[test]
fn an_empty_buffer_completes_immediately() {
    let payload: Vec<u8> = Vec::new();
    let events: Vec<WriteOutcome> = Vec::new();
    let mut sink: Vec<u8> = b"kept".to_vec();
    let r = LogWorker::write_buffer(&payload, &events, &mut sink);
    assert!(matches!(r, Ok(true)));
    assert_eq!(sink, b"kept".to_vec());
}

#[test]
fn events_after_completion_are_ignored() {
    let payload = b"ab".to_vec();
    let events = vec![WriteOutcome::Accepted(2), WriteOutcome::Fatal];
    let mut sink: Vec<u8> = Vec::new();
    let r = LogWorker::write_buffer(&payload, &events, &mut sink);
    assert!(matches!(r, Ok(true)));
    assert_eq!(sink, b"ab".to_vec());
}
