//! What a role wants written to the log: the library decides the level and
//! the line, the caller owns the sink.

use vstd::prelude::*;
use vstd::string::*;
use crate::error::{RelayError, RelayErrorView};

verus! {

/// The level of a log line.
#[derive(Clone, Copy, Debug, PartialEq, Eq, Structural)]
pub enum LogLevel {
    Info,
    Error,
}

/// One line for the log.
#[derive(Clone, Debug, PartialEq, Eq)]
pub struct LogRecord {
    pub level: LogLevel,
    pub message: String,
}

/// The mathematical value of a [`LogRecord`].
pub struct LogRecordView {
    pub level: LogLevel,
    pub message: Seq<char>,
}

impl View for LogRecord {
    type V = LogRecordView;

    open spec fn view(&self) -> LogRecordView {
        LogRecordView { level: self.level, message: self.message@ }
    }
}

/// The view of an optional log line.
pub open spec fn log_view(log: Option<LogRecord>) -> Option<LogRecordView> {
    match log {
        Some(record) => Some(record@),
        None => None,
    }
}

/// The outcome of one exchange: the path that was opened, or the error that
/// stopped it.
pub open spec fn outcome_view(outcome: Result<String, RelayError>) -> Result<
    Seq<char>,
    RelayErrorView,
> {
    match outcome {
        Ok(path) => Ok(path@),
        Err(error) => Err(error@),
    }
}

/// The line that reports an opened directory.
pub open spec fn success_line(path: Seq<char>) -> Seq<char> {
    "'"@ + path + "' okay to explore!"@
}

/// The line that reports a failed exchange.
pub open spec fn failure_line(message: Seq<char>) -> Seq<char> {
    "Stream error: "@ + message
}

/// The log line of an outcome: the path at level info, or the error's
/// message at level error.
pub open spec fn outcome_line(outcome: Result<Seq<char>, RelayErrorView>) -> LogRecordView {
    match outcome {
        Ok(path) => LogRecordView { level: LogLevel::Info, message: success_line(path) },
        Err(error) => LogRecordView { level: LogLevel::Error, message: failure_line(error.message) },
    }
}

/// Builds the error-level line for a failed exchange.
pub fn failure_record(message: &str) -> (record: LogRecord)
    ensures
        record@ == (LogRecordView { level: LogLevel::Error, message: failure_line(message@) }),
{
    let mut line = String::from_str("Stream error: ");
    line.append(message);
    LogRecord { level: LogLevel::Error, message: line }
}

/// Builds the info-level line for an opened directory.
pub fn success_record(path: &str) -> (record: LogRecord)
    ensures
        record@ == (LogRecordView { level: LogLevel::Info, message: success_line(path@) }),
{
    let mut line = String::from_str("'");
    line.append(path);
    line.append("' okay to explore!");
    LogRecord { level: LogLevel::Info, message: line }
}

/// Builds the log line of an outcome.
pub fn outcome_record(outcome: &Result<String, RelayError>) -> (record: LogRecord)
    ensures
        record@ == outcome_line(outcome_view(*outcome)),
{
    match outcome {
        Ok(path) => success_record(path.as_str()),
        Err(error) => failure_record(error.message.as_str()),
    }
}

} // verus!
