//! Tests of construction, installation, shutdown, back-pressure, and the
//! error taxonomy.

use log_nonblock::{
    FlushOutcome, HandoffQueue, Level, LogOutcome, LogWorker, LoggerRegistry,
    NonBlockingLoggerBuilder, NonBlockingLoggerError, WriteOutcome,
};

#[test]
fn shutdown_succeeds_once_and_fails_the_second_time() {
    let mut registry = LoggerRegistry::new();
    let mut logger = NonBlockingLoggerBuilder::new().init(&mut registry).unwrap();
    assert!(logger.shutdown().is_ok());
    let second = logger.shutdown();
    assert!(matches!(second, Err(NonBlockingLoggerError::AlreadyShutdown)));
}

#[test]
fn zero_channel_size_fails_at_construction() {
    let mut registry = LoggerRegistry::new();
    let result = NonBlockingLoggerBuilder::new()
        .with_channel_size(0)
        .init(&mut registry);
    assert!(matches!(result, Err(NonBlockingLoggerError::InvalidConfiguration)));
}

#[test]
fn zero_capacity_queue_is_rejected_before_any_enqueue() {
    assert!(matches!(
        HandoffQueue::new(0),
        Err(NonBlockingLoggerError::InvalidConfiguration)
    ));
    assert!(HandoffQueue::new(1).is_ok());
}

#[test]
fn second_global_install_fails() {
    let mut registry = LoggerRegistry::new();
    let first = NonBlockingLoggerBuilder::new().init(&mut registry);
    assert!(first.is_ok());
    let second = NonBlockingLoggerBuilder::new().init(&mut registry);
    assert!(matches!(second, Err(NonBlockingLoggerError::LoggerAlreadySet)));
}

#[test]
fn logging_after_shutdown_is_refused() {
    let mut registry = LoggerRegistry::new();
    let mut logger = NonBlockingLoggerBuilder::new()
        .without_timestamps()
        .with_colors(false)
        .init(&mut registry)
        .unwrap();
    assert!(logger.shutdown().is_ok());
    assert_eq!(logger.log(Level::Error, b"app", b"", b"late"), LogOutcome::Closed);
    assert_eq!(logger.flush_request(), FlushOutcome::Closed);
}

#[test]
fn full_queue_reports_back_pressure() {
    let mut registry = LoggerRegistry::new();
    let mut logger = NonBlockingLoggerBuilder::new()
        .without_timestamps()
        .with_colors(false)
        .with_channel_size(2)
        .init(&mut registry)
        .unwrap();
    assert_eq!(logger.log(Level::Info, b"a", b"", b"1"), LogOutcome::Enqueued);
    assert_eq!(logger.log(Level::Info, b"a", b"", b"2"), LogOutcome::Enqueued);
    assert_eq!(logger.log(Level::Info, b"a", b"", b"3"), LogOutcome::QueueFull);
    assert_eq!(logger.flush_request(), FlushOutcome::QueueFull);
    // Draining frees the queue again.
    let mut worker = LogWorker::new();
    let mut sink: Vec<u8> = Vec::new();
    logger.drain_into(&mut worker, &mut sink);
    assert_eq!(logger.log(Level::Info, b"a", b"", b"4"), LogOutcome::Enqueued);
}

#[test]
fn pending_messages_survive_shutdown_until_drained() {
    let mut registry = LoggerRegistry::new();
    let mut logger = NonBlockingLoggerBuilder::new()
        .without_timestamps()
        .with_colors(false)
        .init(&mut registry)
        .unwrap();
    assert_eq!(logger.log(Level::Info, b"a", b"", b"queued"), LogOutcome::Enqueued);
    assert!(logger.shutdown().is_ok());
    let mut worker = LogWorker::new();
    let mut sink: Vec<u8> = Vec::new();
    logger.drain_into(&mut worker, &mut sink);
    assert_eq!(sink, b"INFO  [a] queued\r\n".to_vec());
}

#[test]
fn hard_write_error_surfaces_as_an_io_error_with_the_prefix_kept() {
    let payload = b"abcdefghij".to_vec();
    let events = vec![
        WriteOutcome::Accepted(4),
        WriteOutcome::WouldBlock,
        WriteOutcome::Fatal,
    ];
    let mut sink: Vec<u8> = Vec::new();
    let r = LogWorker::write_buffer(&payload, &events, &mut sink);
    assert!(matches!(r, Err(NonBlockingLoggerError::IoError { .. })));
    // The bytes accepted before the hard error stay written; none repeat.
    assert_eq!(sink, b"abcd".to_vec());
}

#[test]
fn error_messages_name_their_cause() {
    assert_eq!(
        NonBlockingLoggerError::AlreadyShutdown.message(),
        "the logger was already shut down"
    );
    assert_eq!(
        NonBlockingLoggerError::LoggerAlreadySet.message(),
        "a global logger was already set"
    );
    assert_eq!(
        NonBlockingLoggerError::InvalidConfiguration.message(),
        "the channel size must be greater than 0"
    );
    assert_eq!(
        NonBlockingLoggerError::QueueClosed.message(),
        "the hand-off queue is closed"
    );
    let io = NonBlockingLoggerError::IoError { reason: "broken pipe".to_string() };
    assert_eq!(io.message(), "broken pipe");
}
