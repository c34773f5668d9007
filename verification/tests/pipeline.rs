//! End-to-end tests of the hand-off pipeline: FIFO delivery, flush barriers,
//! and complete delivery of oversized payloads under throttling.

use log_nonblock::{
    FlushOutcome, Level, LogOutcome, LogWorker, LoggerRegistry, NonBlockingLoggerBuilder,
    WriteOutcome,
};

fn plain_logger(channel_size: usize) -> log_nonblock::NonBlockingLogger {
    let mut registry = LoggerRegistry::new();
    NonBlockingLoggerBuilder::new()
        .without_timestamps()
        .with_colors(false)
        .with_channel_size(channel_size)
        .init(&mut registry)
        .unwrap()
}

fn expected_line(level_label: &str, target: &str, message: &str) -> Vec<u8> {
    format!("{} [{}] {}\r\n", level_label, target, message).into_bytes()
}

#[test]
fn fifo_delivery_in_enqueue_order() {
    let mut logger = plain_logger(64);
    let mut expected: Vec<u8> = Vec::new();
    for i in 0..10 {
        let message = format!("message number {}", i);
        assert_eq!(
            logger.log(Level::Info, b"app::core", b"", message.as_bytes()),
            LogOutcome::Enqueued
        );
        expected.extend_from_slice(&expected_line("INFO ", "app::core", &message));
    }
    let mut worker = LogWorker::new();
    let mut sink: Vec<u8> = Vec::new();
    let acks = logger.drain_into(&mut worker, &mut sink);
    assert_eq!(sink, expected);
    assert!(acks.is_empty());
}

#[test]
fn flush_returns_only_after_all_earlier_lines_are_out() {
    let mut logger = plain_logger(2048);
    let mut expected: Vec<u8> = Vec::new();
    for i in 0..1000 {
        let message = format!("distinct line {:04}", i);
        assert_eq!(
            logger.log(Level::Debug, b"bench", b"", message.as_bytes()),
            LogOutcome::Enqueued
        );
        expected.extend_from_slice(&expected_line("DEBUG", "bench", &message));
    }
    let id = match logger.flush_request() {
        FlushOutcome::Requested(id) => id,
        other => panic!("flush not accepted: {:?}", other),
    };
    let mut worker = LogWorker::new();
    let mut sink: Vec<u8> = Vec::new();
    let acks = logger.drain_into(&mut worker, &mut sink);
    // The flush is answered, and by then the sink holds exactly the 1000
    // lines, in enqueue order.
    assert_eq!(acks, vec![id]);
    assert_eq!(sink, expected);
}

#[test]
fn flush_is_an_ordered_barrier_between_lines() {
    let mut logger = plain_logger(16);
    assert_eq!(logger.log(Level::Warn, b"a", b"", b"before"), LogOutcome::Enqueued);
    let first = match logger.flush_request() {
        FlushOutcome::Requested(id) => id,
        other => panic!("flush not accepted: {:?}", other),
    };
    assert_eq!(logger.log(Level::Warn, b"a", b"", b"after"), LogOutcome::Enqueued);
    let second = match logger.flush_request() {
        FlushOutcome::Requested(id) => id,
        other => panic!("flush not accepted: {:?}", other),
    };
    assert_ne!(first, second);
    let mut worker = LogWorker::new();
    let mut sink: Vec<u8> = Vec::new();
    let acks = logger.drain_into(&mut worker, &mut sink);
    assert_eq!(acks, vec![first, second]);
    let mut expected = expected_line("WARN ", "a", "before");
    expected.extend_from_slice(&expected_line("WARN ", "a", "after"));
    assert_eq!(sink, expected);
}

#[test]
fn oversized_payload_is_delivered_in_full_through_the_pipeline() {
    let mut logger = plain_logger(4);
    let message = vec![b'x'; 2 * 1024 * 1024];
    assert_eq!(logger.log(Level::Error, b"big", b"", &message), LogOutcome::Enqueued);
    let mut worker = LogWorker::new();
    let mut sink: Vec<u8> = Vec::new();
    logger.drain_into(&mut worker, &mut sink);
    let mut expected: Vec<u8> = b"ERROR [big] ".to_vec();
    expected.extend_from_slice(&message);
    expected.extend_from_slice(b"\r\n");
    assert_eq!(sink, expected);
}

#[test]
fn throttled_destination_still_receives_every_byte_exactly_once() {
    // Two megabytes of repeated characters against a destination that
    // accepts only seven bytes per call, with would-block pauses thrown in.
    let payload = vec![b'y'; 2 * 1024 * 1024];
    let mut events: Vec<WriteOutcome> = Vec::new();
    let mut offered: usize = 0;
    while offered < payload.len() {
        if offered % 70 == 0 {
            events.push(WriteOutcome::WouldBlock);
        }
        events.push(WriteOutcome::Accepted(7));
        offered += 7;
    }
    let mut sink: Vec<u8> = Vec::new();
    let r = LogWorker::write_buffer(&payload, &events, &mut sink);
    assert!(matches!(r, Ok(true)));
    assert_eq!(sink, payload);
}

#[test]
fn small_payloads_are_batched_until_quiescence() {
    let mut worker = LogWorker::new();
    let mut sink: Vec<u8> = Vec::new();
    let first = worker.process(log_nonblock::WorkerMessage::Log(b"one ".to_vec()));
    assert!(first.write_now.is_empty());
    assert!(first.ack.is_none());
    let second = worker.process(log_nonblock::WorkerMessage::Log(b"two".to_vec()));
    assert!(second.write_now.is_empty());
    let tail = worker.take_pending();
    sink.extend_from_slice(&tail);
    assert_eq!(sink, b"one two".to_vec());
}

#[test]
fn flush_message_forces_the_batch_out_before_the_ack() {
    let mut worker = LogWorker::new();
    let batched = worker.process(log_nonblock::WorkerMessage::Log(b"held back".to_vec()));
    assert!(batched.write_now.is_empty());
    let flushed = worker.process(log_nonblock::WorkerMessage::Flush(7));
    assert_eq!(flushed.write_now, b"held back".to_vec());
    assert_eq!(flushed.ack, Some(7));
    assert!(worker.take_pending().is_empty());
}

#[test]
fn oversized_payload_bypasses_batching_but_keeps_order() {
    let mut worker = LogWorker::new();
    let small = worker.process(log_nonblock::WorkerMessage::Log(b"first".to_vec()));
    assert!(small.write_now.is_empty());
    let big_payload = vec![b'z'; log_nonblock::BATCH_THRESHOLD];
    let big = worker.process(log_nonblock::WorkerMessage::Log(big_payload.clone()));
    assert!(big.ack.is_none());
    let mut expected: Vec<u8> = b"first".to_vec();
    expected.extend_from_slice(&big_payload);
    // The batch goes out before the oversized payload: order is kept.
    assert_eq!(big.write_now, expected);
    assert!(worker.take_pending().is_empty());
}
