//! The connector's loop, as a transition function.
//!
//! Each round dials the listener, asks the operator for a path, sends it,
//! reads the status and logs what came of it. The caller owns the stream
//! and the prompt: it performs the action that a transition names and
//! hands back what came of it as the next event. No round that fails ends
//! the loop; only a listener that cannot be reached at the very first
//! attempt does.

use vstd::prelude::*;
use vstd::string::*;
use crate::error::{RelayError, RelayErrorView};
use crate::message::{
    prompt, prompt_failed_message, prompt_failed_text, prompt_text, status_read_failed_message,
    status_read_failed_text, write_failed_message, write_failed_text, ReadStep, WriteStep,
};
use crate::record::{
    failure_line, failure_record, log_view, outcome_line, outcome_record, LogLevel, LogRecord,
    LogRecordView,
};
use crate::setup::{connect_failed_message, setup_error, Endpoint, EndpointView};
use crate::status::{decode_status, decoded};
use crate::text::{trim_whitespace, trimmed};

verus! {

/// Where the connector stands.
#[derive(Clone, Debug, PartialEq, Eq)]
pub enum ConnectorState {
    /// A connection is being opened; `first` tells whether none was ever
    /// attempted before.
    Connecting { first: bool },
    /// The operator is asked for a path.
    Prompting,
    /// The path is being sent.
    Sending { path: String },
    /// The status is being read.
    AwaitingStatus { path: String },
    /// The connector gave up: the listener could not be reached at all.
    Stopped,
}

/// The mathematical value of a [`ConnectorState`].
pub enum ConnectorStateView {
    Connecting { first: bool },
    Prompting,
    Sending { path: Seq<char> },
    AwaitingStatus { path: Seq<char> },
    Stopped,
}

impl View for ConnectorState {
    type V = ConnectorStateView;

    open spec fn view(&self) -> ConnectorStateView {
        match self {
            ConnectorState::Connecting { first } => ConnectorStateView::Connecting {
                first: *first,
            },
            ConnectorState::Prompting => ConnectorStateView::Prompting,
            ConnectorState::Sending { path } => ConnectorStateView::Sending { path: path@ },
            ConnectorState::AwaitingStatus { path } => ConnectorStateView::AwaitingStatus {
                path: path@,
            },
            ConnectorState::Stopped => ConnectorStateView::Stopped,
        }
    }
}

/// What the caller reports back to the connector.
#[derive(Clone, Debug, PartialEq, Eq)]
pub enum ConnectorEvent {
    /// The connection stands.
    Connected,
    /// The listener could not be reached; the text says why.
    ConnectFailed(String),
    /// The line that the operator entered, as it was read.
    LineRead(String),
    /// No line could be read.
    PromptFailed,
    /// The request went out and the write side is closed.
    RequestSent,
    /// The request could not be sent out.
    WriteFailed(WriteStep),
    /// The listener closed its write side; this is all it sent.
    StatusRead(String),
    /// The status could not be taken in.
    ReadFailed(ReadStep),
}

/// The mathematical value of a [`ConnectorEvent`].
pub enum ConnectorEventView {
    Connected,
    ConnectFailed(Seq<char>),
    LineRead(Seq<char>),
    PromptFailed,
    RequestSent,
    WriteFailed(WriteStep),
    StatusRead(Seq<char>),
    ReadFailed(ReadStep),
}

impl View for ConnectorEvent {
    type V = ConnectorEventView;

    open spec fn view(&self) -> ConnectorEventView {
        match self {
            ConnectorEvent::Connected => ConnectorEventView::Connected,
            ConnectorEvent::ConnectFailed(cause) => ConnectorEventView::ConnectFailed(cause@),
            ConnectorEvent::LineRead(line) => ConnectorEventView::LineRead(line@),
            ConnectorEvent::PromptFailed => ConnectorEventView::PromptFailed,
            ConnectorEvent::RequestSent => ConnectorEventView::RequestSent,
            ConnectorEvent::WriteFailed(step) => ConnectorEventView::WriteFailed(*step),
            ConnectorEvent::StatusRead(body) => ConnectorEventView::StatusRead(body@),
            ConnectorEvent::ReadFailed(step) => ConnectorEventView::ReadFailed(*step),
        }
    }
}

/// What the caller is to do next for the connector.
#[derive(Clone, Debug, PartialEq, Eq)]
pub enum ConnectorAction {
    /// Drop the stream, if there is one, and open a fresh connection.
    Connect,
    /// Show the text to the operator and read one line.
    Prompt(String),
    /// Write the path to the listener, flush, and close the write side.
    Send(String),
    /// Read until the listener closes, then close the read side.
    ReadStatus,
    /// Give up with this error.
    Abort(RelayError),
}

/// The mathematical value of a [`ConnectorAction`].
pub enum ConnectorActionView {
    Connect,
    Prompt(Seq<char>),
    Send(Seq<char>),
    ReadStatus,
    Abort(RelayErrorView),
}

impl View for ConnectorAction {
    type V = ConnectorActionView;

    open spec fn view(&self) -> ConnectorActionView {
        match self {
            ConnectorAction::Connect => ConnectorActionView::Connect,
            ConnectorAction::Prompt(text) => ConnectorActionView::Prompt(text@),
            ConnectorAction::Send(path) => ConnectorActionView::Send(path@),
            ConnectorAction::ReadStatus => ConnectorActionView::ReadStatus,
            ConnectorAction::Abort(error) => ConnectorActionView::Abort(error@),
        }
    }
}

/// One move of the connector: the state it enters, the line to log if
/// there is one, and what the caller does next.
#[derive(Clone, Debug, PartialEq, Eq)]
pub struct ConnectorTransition {
    pub next: ConnectorState,
    pub log: Option<LogRecord>,
    pub action: ConnectorAction,
}

/// The mathematical value of a [`ConnectorTransition`].
pub struct ConnectorTransitionView {
    pub next: ConnectorStateView,
    pub log: Option<LogRecordView>,
    pub action: ConnectorActionView,
}

impl View for ConnectorTransition {
    type V = ConnectorTransitionView;

    open spec fn view(&self) -> ConnectorTransitionView {
        ConnectorTransitionView {
            next: self.next@,
            log: log_view(self.log),
            action: self.action@,
        }
    }
}

/// The view of a move that may be refused.
pub open spec fn transition_view(transition: Option<ConnectorTransition>) -> Option<
    ConnectorTransitionView,
> {
    match transition {
        Some(t) => Some(t@),
        None => None,
    }
}

/// The move that begins the next round, with a line for the log.
pub open spec fn next_round(record: LogRecordView) -> ConnectorTransitionView {
    ConnectorTransitionView {
        next: ConnectorStateView::Connecting { first: false },
        log: Some(record),
        action: ConnectorActionView::Connect,
    }
}

/// The move that ends a failed round: the failure is logged and the next
/// round begins.
pub open spec fn round_failed(message: Seq<char>) -> ConnectorTransitionView {
    next_round(LogRecordView { level: LogLevel::Error, message: failure_line(message) })
}

/// The move that sends a path to the listener.
pub open spec fn submission(path: Seq<char>) -> ConnectorTransitionView {
    ConnectorTransitionView {
        next: ConnectorStateView::Sending { path },
        log: None,
        action: ConnectorActionView::Send(path),
    }
}

/// The move that ends a round whose status was read: the path is logged as
/// opened if the body is `OK`, else the body is logged as the failure; the
/// next round begins either way.
pub open spec fn conclusion(path: Seq<char>, body: Seq<char>) -> ConnectorTransitionView {
    next_round(outcome_line(decoded(path, body)))
}

/// The connector's transition function. An event that the state does not
/// wait for is refused with `None`.
///
/// - While connecting: once the connection stands the operator is asked
///   for a path; a listener that cannot be reached is fatal at the first
///   attempt and a failed round afterwards.
/// - While prompting: the line is trimmed of surrounding whitespace and
///   sent.
/// - While sending: once the request is out the status is read.
/// - While the status is awaited: the body decides what is logged.
/// - A failed step ends the round, never the loop.
pub open spec fn connector_step(
    endpoint: EndpointView,
    state: ConnectorStateView,
    event: ConnectorEventView,
) -> Option<ConnectorTransitionView> {
    match (state, event) {
        (ConnectorStateView::Connecting { first }, ConnectorEventView::Connected) => Some(
            ConnectorTransitionView {
                next: ConnectorStateView::Prompting,
                log: None,
                action: ConnectorActionView::Prompt(prompt_text()),
            },
        ),
        (ConnectorStateView::Connecting { first }, ConnectorEventView::ConnectFailed(cause)) => {
            if first {
                Some(
                    ConnectorTransitionView {
                        next: ConnectorStateView::Stopped,
                        log: None,
                        action: ConnectorActionView::Abort(
                            setup_error(connect_failed_message(endpoint), cause),
                        ),
                    },
                )
            } else {
                Some(round_failed(connect_failed_message(endpoint)))
            }
        },
        (ConnectorStateView::Prompting, ConnectorEventView::LineRead(line)) => Some(
            submission(trimmed(line)),
        ),
        (ConnectorStateView::Prompting, ConnectorEventView::PromptFailed) => Some(
            round_failed(prompt_failed_message()),
        ),
        (ConnectorStateView::Sending { path }, ConnectorEventView::RequestSent) => Some(
            ConnectorTransitionView {
                next: ConnectorStateView::AwaitingStatus { path },
                log: None,
                action: ConnectorActionView::ReadStatus,
            },
        ),
        (ConnectorStateView::Sending { path }, ConnectorEventView::WriteFailed(step)) => Some(
            round_failed(write_failed_message(step)),
        ),
        (ConnectorStateView::AwaitingStatus { path }, ConnectorEventView::StatusRead(body)) => Some(
            conclusion(path, body),
        ),
        (ConnectorStateView::AwaitingStatus { path }, ConnectorEventView::ReadFailed(step)) => Some(
            round_failed(status_read_failed_message(step)),
        ),
        _ => None,
    }
}

/// Builds the move that ends a failed round.
fn fail_round(message: String) -> (transition: ConnectorTransition)
    ensures
        transition@ == round_failed(message@),
{
    ConnectorTransition {
        next: ConnectorState::Connecting { first: false },
        log: Some(failure_record(message.as_str())),
        action: ConnectorAction::Connect,
    }
}

/// Builds the move that sends a path, taken as it is, to the listener.
pub fn submit(path: String) -> (transition: ConnectorTransition)
    ensures
        transition@ == submission(path@),
{
    let sent = path.clone();
    ConnectorTransition {
        next: ConnectorState::Sending { path },
        log: None,
        action: ConnectorAction::Send(sent),
    }
}

/// Builds the move that ends a round whose status was read.
pub fn conclude(path: String, body: String) -> (transition: ConnectorTransition)
    ensures
        transition@ == conclusion(path@, body@),
{
    let outcome = decode_status(path, body);
    ConnectorTransition {
        next: ConnectorState::Connecting { first: false },
        log: Some(outcome_record(&outcome)),
        action: ConnectorAction::Connect,
    }
}

impl ConnectorState {
    /// The state of a connector that is about to dial for the first time.
    pub fn new() -> (state: ConnectorState)
        ensures
            state@ == (ConnectorStateView::Connecting { first: true }),
    {
        ConnectorState::Connecting { first: true }
    }

    /// Moves the connector on by one event, or refuses the event with
    /// `None` where the state does not wait for it.
    pub fn step(self, endpoint: &Endpoint, event: ConnectorEvent) -> (transition: Option<
        ConnectorTransition,
    >)
        ensures
            transition_view(transition) == connector_step(endpoint@, self@, event@),
    {
        match (self, event) {
            (ConnectorState::Connecting { first }, ConnectorEvent::Connected) => Some(
                ConnectorTransition {
                    next: ConnectorState::Prompting,
                    log: None,
                    action: ConnectorAction::Prompt(prompt()),
                },
            ),
            (ConnectorState::Connecting { first }, ConnectorEvent::ConnectFailed(cause)) => {
                if first {
                    Some(
                        ConnectorTransition {
                            next: ConnectorState::Stopped,
                            log: None,
                            action: ConnectorAction::Abort(endpoint.connect_failed(cause)),
                        },
                    )
                } else {
                    Some(fail_round(endpoint.connect_failed_text()))
                }
            },
            (ConnectorState::Prompting, ConnectorEvent::LineRead(line)) => {
                let path = trim_whitespace(line.as_str()).to_owned();
                Some(submit(path))
            },
            (ConnectorState::Prompting, ConnectorEvent::PromptFailed) => Some(
                fail_round(prompt_failed_text()),
            ),
            (ConnectorState::Sending { path }, ConnectorEvent::RequestSent) => Some(
                ConnectorTransition {
                    next: ConnectorState::AwaitingStatus { path },
                    log: None,
                    action: ConnectorAction::ReadStatus,
                },
            ),
            (ConnectorState::Sending { path }, ConnectorEvent::WriteFailed(step)) => Some(
                fail_round(write_failed_text(step)),
            ),
            (ConnectorState::AwaitingStatus { path }, ConnectorEvent::StatusRead(body)) => Some(
                conclude(path, body),
            ),
            (ConnectorState::AwaitingStatus { path }, ConnectorEvent::ReadFailed(step)) => Some(
                fail_round(status_read_failed_text(step)),
            ),
            _ => None,
        }
    }
}

} // verus!
