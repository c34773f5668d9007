//! An in-process, asynchronous console-output pipeline for structured logging.
//!
//! Callers hand formatted log lines to a bounded FIFO hand-off queue; a single
//! writer drains the queue, batches small payloads, and pushes bytes to the
//! destination stream through a retry-write primitive that absorbs partial
//! writes and would-block conditions.  A flush request acts as an ordered
//! barrier: it is answered only once every byte enqueued before it has reached
//! the destination.

pub mod clock;
pub mod color;
pub mod errors;
pub mod level;
pub mod line;
pub mod logger;
pub mod queue;
pub mod worker;

pub use clock::ClockParts;
pub use errors::NonBlockingLoggerError;
pub use level::{Level, LevelFilter, ModuleLevel};
pub use logger::{
    Destination, FlushOutcome, LogOutcome, LoggerRegistry, NonBlockingLogger,
    NonBlockingLoggerBuilder, NonBlockingOptions, Timestamps, DEFAULT_CHANNEL_SIZE,
};
pub use queue::{HandoffQueue, WorkerMessage};
pub use worker::{
    LogWorker, RetryAction, RetryProgress, WriteOutcome, WriterAction, BATCH_THRESHOLD,
};
