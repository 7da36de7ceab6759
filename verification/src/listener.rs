//! The listener's side of one exchange, as a transition function.
//!
//! A session takes one request and gives one response. The caller owns the
//! stream, the filesystem and the platform call: it performs the action
//! that a transition names and hands back what came of it as the next
//! event.

use vstd::prelude::*;
use vstd::string::*;
use crate::error::{ErrorKind, RelayError, RelayErrorView};
use crate::message::{
    accept_failed_message, accept_failed_text, empty_path_message, empty_path_text, execution_failed_message, execution_failed_text,
    not_a_directory_message, not_a_directory_text, request_read_failed_message,
    request_read_failed_text, unconvertible_path_message, unconvertible_path_text,
    write_failed_message, write_failed_text, ReadStep, WriteStep,
};
use crate::record::{
    failure_line, failure_record, log_view, outcome_line, outcome_record, outcome_view, LogLevel,
    LogRecord, LogRecordView,
};
use crate::status::{ok_status, ok_text, status_of, status_text};
use crate::text::{contains_nul, debug_quoted, has_nul};

verus! {

/// The code above which the platform's answer means that the directory was
/// opened. The code itself is a failure.
pub const SUCCESS_THRESHOLD: isize = 32;

/// Whether a code returned by the platform means success: it is strictly
/// above the threshold.
pub open spec fn execution_succeeded(code: int) -> bool {
    code > SUCCESS_THRESHOLD
}

/// Where a session stands.
#[derive(Debug, PartialEq, Eq)]
pub enum SessionState {
    /// The connection was accepted; the request is being read.
    AwaitingRequest,
    /// The request was read; the filesystem is asked whether it names a
    /// directory.
    CheckingDirectory { path: String },
    /// The platform is opening the directory.
    Executing { path: String },
    /// The outcome is known and the response is being sent.
    Responding { outcome: Result<String, RelayError> },
    /// The session is over, with the outcome that was logged.
    Closed { outcome: Result<String, RelayError> },
}

/// The mathematical value of a [`SessionState`].
pub enum SessionStateView {
    AwaitingRequest,
    CheckingDirectory { path: Seq<char> },
    Executing { path: Seq<char> },
    Responding { outcome: Result<Seq<char>, RelayErrorView> },
    Closed { outcome: Result<Seq<char>, RelayErrorView> },
}

impl View for SessionState {
    type V = SessionStateView;

    open spec fn view(&self) -> SessionStateView {
        match self {
            SessionState::AwaitingRequest => SessionStateView::AwaitingRequest,
            SessionState::CheckingDirectory { path } => SessionStateView::CheckingDirectory {
                path: path@,
            },
            SessionState::Executing { path } => SessionStateView::Executing { path: path@ },
            SessionState::Responding { outcome } => SessionStateView::Responding {
                outcome: outcome_view(*outcome),
            },
            SessionState::Closed { outcome } => SessionStateView::Closed {
                outcome: outcome_view(*outcome),
            },
        }
    }
}

/// What the caller reports back to a session.
#[derive(Clone, Debug, PartialEq, Eq)]
pub enum SessionEvent {
    /// The peer closed its write side; this is all it sent.
    RequestRead(String),
    /// The request could not be taken in.
    ReadFailed(ReadStep),
    /// Whether the path names an existing directory.
    DirectoryChecked(bool),
    /// The code that the platform returned.
    ExecutionReturned(isize),
    /// The response went out and the write side is closed.
    ResponseSent,
    /// The response could not be sent out.
    WriteFailed(WriteStep),
}

/// The mathematical value of a [`SessionEvent`].
pub enum SessionEventView {
    RequestRead(Seq<char>),
    ReadFailed(ReadStep),
    DirectoryChecked(bool),
    ExecutionReturned(int),
    ResponseSent,
    WriteFailed(WriteStep),
}

impl View for SessionEvent {
    type V = SessionEventView;

    open spec fn view(&self) -> SessionEventView {
        match self {
            SessionEvent::RequestRead(body) => SessionEventView::RequestRead(body@),
            SessionEvent::ReadFailed(step) => SessionEventView::ReadFailed(*step),
            SessionEvent::DirectoryChecked(is_dir) => SessionEventView::DirectoryChecked(*is_dir),
            SessionEvent::ExecutionReturned(code) => SessionEventView::ExecutionReturned(
                *code as int,
            ),
            SessionEvent::ResponseSent => SessionEventView::ResponseSent,
            SessionEvent::WriteFailed(step) => SessionEventView::WriteFailed(*step),
        }
    }
}

/// What the caller is to do next for a session.
#[derive(Clone, Debug, PartialEq, Eq)]
pub enum SessionAction {
    /// Ask the filesystem whether the path names an existing directory.
    CheckDirectory(String),
    /// Have the platform open the directory. The path holds no NUL.
    Execute(String),
    /// Write the text to the peer, flush, and close the write side.
    Respond(String),
    /// Drop the stream.
    Close,
}

/// The mathematical value of a [`SessionAction`].
pub enum SessionActionView {
    CheckDirectory(Seq<char>),
    Execute(Seq<char>),
    Respond(Seq<char>),
    Close,
}

impl View for SessionAction {
    type V = SessionActionView;

    open spec fn view(&self) -> SessionActionView {
        match self {
            SessionAction::CheckDirectory(path) => SessionActionView::CheckDirectory(path@),
            SessionAction::Execute(path) => SessionActionView::Execute(path@),
            SessionAction::Respond(text) => SessionActionView::Respond(text@),
            SessionAction::Close => SessionActionView::Close,
        }
    }
}

/// One move of a session: the state it enters, the line to log if there is
/// one, and what the caller does next.
#[derive(Debug, PartialEq, Eq)]
pub struct SessionTransition {
    pub next: SessionState,
    pub log: Option<LogRecord>,
    pub action: SessionAction,
}

/// The mathematical value of a [`SessionTransition`].
pub struct SessionTransitionView {
    pub next: SessionStateView,
    pub log: Option<LogRecordView>,
    pub action: SessionActionView,
}

impl View for SessionTransition {
    type V = SessionTransitionView;

    open spec fn view(&self) -> SessionTransitionView {
        SessionTransitionView {
            next: self.next@,
            log: log_view(self.log),
            action: self.action@,
        }
    }
}

/// The view of a move that may be refused.
pub open spec fn transition_view(transition: Option<SessionTransition>) -> Option<
    SessionTransitionView,
> {
    match transition {
        Some(t) => Some(t@),
        None => None,
    }
}

/// What holds of every state that a session can reach: a path that is
/// being checked is not empty, and a path that is being opened, or was
/// opened, is moreover free of NUL.
pub open spec fn session_invariant(state: SessionStateView) -> bool {
    match state {
        SessionStateView::AwaitingRequest => true,
        SessionStateView::CheckingDirectory { path } => path.len() > 0,
        SessionStateView::Executing { path } => path.len() > 0 && !has_nul(path),
        SessionStateView::Responding { outcome } => outcome is Ok ==> outcome->Ok_0.len() > 0
            && !has_nul(outcome->Ok_0),
        SessionStateView::Closed { outcome } => outcome is Ok ==> outcome->Ok_0.len() > 0
            && !has_nul(outcome->Ok_0),
    }
}

/// The error that rejects an empty request.
pub open spec fn empty_path_error() -> RelayErrorView {
    RelayErrorView {
        kind: ErrorKind::Validation,
        message: empty_path_message(),
        causes: Seq::empty(),
    }
}

/// The error that rejects a path which names no existing directory.
pub open spec fn not_a_directory_error(path: Seq<char>) -> RelayErrorView {
    RelayErrorView {
        kind: ErrorKind::Validation,
        message: not_a_directory_message(debug_quoted(path)),
        causes: Seq::empty(),
    }
}

/// The error for a path that the platform cannot be handed.
pub open spec fn unconvertible_path_error(path: Seq<char>) -> RelayErrorView {
    RelayErrorView {
        kind: ErrorKind::Execution,
        message: unconvertible_path_message(path),
        causes: Seq::empty(),
    }
}

/// The error for a failure code of the platform.
pub open spec fn execution_error(path: Seq<char>, code: int) -> RelayErrorView {
    RelayErrorView {
        kind: ErrorKind::Execution,
        message: execution_failed_message(path, code),
        causes: Seq::empty(),
    }
}

/// The move that sends the response for a known outcome.
pub open spec fn respond_with(outcome: Result<Seq<char>, RelayErrorView>) -> SessionTransitionView {
    SessionTransitionView {
        next: SessionStateView::Responding { outcome },
        log: None,
        action: SessionActionView::Respond(status_of(outcome)),
    }
}

/// The error of a step on the stream that failed.
pub open spec fn stream_error(message: Seq<char>) -> RelayErrorView {
    RelayErrorView { kind: ErrorKind::SessionIo, message, causes: Seq::empty() }
}

/// The move that ends a session: the outcome is logged and the stream is
/// dropped.
pub open spec fn close_with(outcome: Result<Seq<char>, RelayErrorView>) -> SessionTransitionView {
    SessionTransitionView {
        next: SessionStateView::Closed { outcome },
        log: Some(outcome_line(outcome)),
        action: SessionActionView::Close,
    }
}

/// The move that gives a session up over a failed step on the stream.
pub open spec fn abandon_with(message: Seq<char>) -> SessionTransitionView {
    close_with(Err(stream_error(message)))
}

/// The session's transition function. An event that the state does not
/// wait for is refused with `None`.
///
/// - While the request is awaited: an empty request is rejected at once;
///   any other is sent to the directory check; a failed read ends the
///   session without a response.
/// - After the directory check: a path that names no directory is
///   rejected; one that holds a NUL cannot be handed to the platform; any
///   other is executed.
/// - After the execution: a code above the threshold is a success, the
///   threshold itself and anything below a failure that carries the code.
/// - While responding: once the response is out the session ends with its
///   outcome; a failed write ends it with that failure in the outcome's
///   place. Either way the outcome is logged.
pub open spec fn session_step(state: SessionStateView, event: SessionEventView) -> Option<
    SessionTransitionView,
> {
    match (state, event) {
        (SessionStateView::AwaitingRequest, SessionEventView::RequestRead(path)) => {
            if path.len() == 0 {
                Some(respond_with(Err(empty_path_error())))
            } else {
                Some(
                    SessionTransitionView {
                        next: SessionStateView::CheckingDirectory { path },
                        log: None,
                        action: SessionActionView::CheckDirectory(path),
                    },
                )
            }
        },
        (SessionStateView::AwaitingRequest, SessionEventView::ReadFailed(step)) => Some(
            abandon_with(request_read_failed_message(step)),
        ),
        (SessionStateView::CheckingDirectory { path }, SessionEventView::DirectoryChecked(is_dir)) => {
            if !is_dir {
                Some(respond_with(Err(not_a_directory_error(path))))
            } else if has_nul(path) {
                Some(respond_with(Err(unconvertible_path_error(path))))
            } else {
                Some(
                    SessionTransitionView {
                        next: SessionStateView::Executing { path },
                        log: None,
                        action: SessionActionView::Execute(path),
                    },
                )
            }
        },
        (SessionStateView::Executing { path }, SessionEventView::ExecutionReturned(code)) => {
            if execution_succeeded(code) {
                Some(respond_with(Ok(path)))
            } else {
                Some(respond_with(Err(execution_error(path, code))))
            }
        },
        (SessionStateView::Responding { outcome }, SessionEventView::ResponseSent) => Some(
            close_with(outcome),
        ),
        (SessionStateView::Responding { outcome }, SessionEventView::WriteFailed(step)) => Some(
            abandon_with(write_failed_message(step)),
        ),
        _ => None,
    }
}

/// The response body of a session, said directly: what the listener
/// answers to a request, given what the filesystem says of the path and
/// which code the platform returns for it.
pub open spec fn response_of(path: Seq<char>, is_dir: bool, code: int) -> Seq<char> {
    if path.len() == 0 {
        empty_path_message()
    } else if !is_dir {
        not_a_directory_message(debug_quoted(path))
    } else if has_nul(path) {
        unconvertible_path_message(path)
    } else if execution_succeeded(code) {
        ok_text()
    } else {
        execution_failed_message(path, code)
    }
}

/// The event with which a caller answers an action, where the filesystem
/// says `is_dir` and the platform returns `code`. A closed session is
/// answered by nothing.
pub open spec fn answer(action: SessionActionView, is_dir: bool, code: int) -> Option<
    SessionEventView,
> {
    match action {
        SessionActionView::CheckDirectory(_) => Some(SessionEventView::DirectoryChecked(is_dir)),
        SessionActionView::Execute(_) => Some(SessionEventView::ExecutionReturned(code)),
        SessionActionView::Respond(_) => Some(SessionEventView::ResponseSent),
        SessionActionView::Close => None,
    }
}

/// Runs a session from `state` on `event` for at most `steps` moves, the
/// caller answering each action as [`answer`] says, and gives the text of
/// the first response that the session sends.
pub open spec fn first_response(
    state: SessionStateView,
    event: SessionEventView,
    is_dir: bool,
    code: int,
    steps: nat,
) -> Option<Seq<char>>
    decreases steps,
{
    if steps == 0 {
        None
    } else {
        match session_step(state, event) {
            None => None,
            Some(t) => match t.action {
                SessionActionView::Respond(text) => Some(text),
                _ => match answer(t.action, is_dir, code) {
                    Some(reply) => first_response(t.next, reply, is_dir, code, (steps - 1) as nat),
                    None => None,
                },
            },
        }
    }
}

/// The response of a whole session to the request `path`: the machine is
/// run from its first state. Three moves reach every response.
pub open spec fn exchange(path: Seq<char>, is_dir: bool, code: int) -> Option<Seq<char>> {
    first_response(
        SessionStateView::AwaitingRequest,
        SessionEventView::RequestRead(path),
        is_dir,
        code,
        3,
    )
}

/// Builds the line that reports a connection which could not be accepted.
pub fn accept_failed() -> (record: LogRecord)
    ensures
        record@ == (LogRecordView {
            level: LogLevel::Error,
            message: failure_line(accept_failed_message()),
        }),
{
    failure_record(accept_failed_text().as_str())
}

/// Builds the move that sends the response for a known outcome.
fn respond(outcome: Result<String, RelayError>) -> (transition: SessionTransition)
    ensures
        transition@ == respond_with(outcome_view(outcome)),
{
    let text = status_text(&outcome);
    SessionTransition {
        next: SessionState::Responding { outcome },
        log: None,
        action: SessionAction::Respond(text),
    }
}

/// Builds the move that ends a session.
fn close(outcome: Result<String, RelayError>) -> (transition: SessionTransition)
    ensures
        transition@ == close_with(outcome_view(outcome)),
{
    let record = outcome_record(&outcome);
    SessionTransition {
        next: SessionState::Closed { outcome },
        log: Some(record),
        action: SessionAction::Close,
    }
}

/// Builds the move that gives a session up over a failed step on the
/// stream.
fn abandon(message: String) -> (transition: SessionTransition)
    ensures
        transition@ == abandon_with(message@),
{
    close(Err(RelayError::new(ErrorKind::SessionIo, message)))
}

impl SessionState {
    /// The state of a session whose connection was just accepted.
    pub fn new() -> (state: SessionState)
        ensures
            state@ == SessionStateView::AwaitingRequest,
    {
        SessionState::AwaitingRequest
    }

    /// Moves the session on by one event, or refuses the event with `None`
    /// where the state does not wait for it.
    pub fn step(self, event: SessionEvent) -> (transition: Option<SessionTransition>)
        ensures
            transition_view(transition) == session_step(self@, event@),
    {
        match (self, event) {
            (SessionState::AwaitingRequest, SessionEvent::RequestRead(path)) => {
                if path.as_str().is_empty() {
                    Some(respond(Err(RelayError::new(ErrorKind::Validation, empty_path_text()))))
                } else {
                    let asked = path.clone();
                    Some(
                        SessionTransition {
                            next: SessionState::CheckingDirectory { path },
                            log: None,
                            action: SessionAction::CheckDirectory(asked),
                        },
                    )
                }
            },
            (SessionState::AwaitingRequest, SessionEvent::ReadFailed(step)) => Some(
                abandon(request_read_failed_text(step)),
            ),
            (SessionState::CheckingDirectory { path }, SessionEvent::DirectoryChecked(is_dir)) => {
                if !is_dir {
                    let message = not_a_directory_text(path.as_str());
                    Some(respond(Err(RelayError::new(ErrorKind::Validation, message))))
                } else if contains_nul(path.as_str()) {
                    let message = unconvertible_path_text(path.as_str());
                    Some(respond(Err(RelayError::new(ErrorKind::Execution, message))))
                } else {
                    let opened = path.clone();
                    Some(
                        SessionTransition {
                            next: SessionState::Executing { path },
                            log: None,
                            action: SessionAction::Execute(opened),
                        },
                    )
                }
            },
            (SessionState::Executing { path }, SessionEvent::ExecutionReturned(code)) => {
                if code > SUCCESS_THRESHOLD {
                    Some(respond(Ok(path)))
                } else {
                    let message = execution_failed_text(path.as_str(), code);
                    Some(respond(Err(RelayError::new(ErrorKind::Execution, message))))
                }
            },
            (SessionState::Responding { outcome }, SessionEvent::ResponseSent) => Some(
                close(outcome),
            ),
            (SessionState::Responding { outcome }, SessionEvent::WriteFailed(step)) => Some(
                abandon(write_failed_text(step)),
            ),
            _ => None,
        }
    }
}

} // verus!
