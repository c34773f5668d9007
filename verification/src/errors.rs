//! Typed failures of the logging pipeline.
//!
//! Errors on setup and lifecycle paths (construction, installation, shutdown)
//! are returned to the caller as values of this type.  Errors on the hot
//! logging path are never surfaced to the caller; they are downgraded to a
//! best-effort diagnostic line (see `line::error_report_line`).

use vstd::prelude::*;

verus! {

/// A typed failure of the logging pipeline.
#[derive(Debug)]
pub enum NonBlockingLoggerError {
    /// A descriptor-level failure: bad descriptor, polling failure, or a hard
    /// write error.  Carries a description of the underlying OS error.
    IoError { reason: String },
    /// The producer side found the consumer gone: the hand-off queue is closed.
    QueueClosed,
    /// Shutdown was requested a second time after one already succeeded.
    AlreadyShutdown,
    /// A global logger was already installed; only one may be active.
    LoggerAlreadySet,
    /// The configuration asked for a hand-off queue of capacity zero.
    InvalidConfiguration,
}

impl NonBlockingLoggerError {
    /// The text that `message` returns for each variant.
    pub open spec fn message_spec(self) -> Seq<char> {
        match self {
            NonBlockingLoggerError::IoError { reason } => reason@,
            NonBlockingLoggerError::QueueClosed => "the hand-off queue is closed"@,
            NonBlockingLoggerError::AlreadyShutdown => "the logger was already shut down"@,
            NonBlockingLoggerError::LoggerAlreadySet => "a global logger was already set"@,
            NonBlockingLoggerError::InvalidConfiguration => "the channel size must be greater than 0"@,
        }
    }

    /// A human-readable description of the failure.
    pub fn message(&self) -> (r: String)
        ensures
            r@ == self.message_spec(),
    {
        match self {
            NonBlockingLoggerError::IoError { reason } => reason.clone(),
            NonBlockingLoggerError::QueueClosed => "the hand-off queue is closed".to_owned(),
            NonBlockingLoggerError::AlreadyShutdown => "the logger was already shut down".to_owned(),
            NonBlockingLoggerError::LoggerAlreadySet => "a global logger was already set".to_owned(),
            NonBlockingLoggerError::InvalidConfiguration => "the channel size must be greater than 0".to_owned(),
        }
    }
}

} // verus!
