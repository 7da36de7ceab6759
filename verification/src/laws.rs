//! What holds of every exchange, proved from the transition functions.

use vstd::prelude::*;
use vstd::string::*;
use crate::connector::{
    conclusion, connector_step, ConnectorActionView, ConnectorEventView, ConnectorStateView,
};
use crate::listener::{
    exchange, execution_succeeded, first_response, response_of, session_invariant, session_step,
    stream_error, SessionActionView, SessionEventView, SessionStateView,
};
use crate::message::{
    empty_path_message, execution_failed_message, not_a_directory_message,
    request_read_failed_message, unconvertible_path_message, ReadStep,
};
use crate::record::{failure_line, success_line, LogLevel, LogRecordView};
use crate::setup::EndpointView;
use crate::status::{is_ok_status, ok_text};
use crate::text::{debug_quoted, has_nul, lemma_occurs_between, occurs_in};

verus! {

/// No text that the listener answers a rejected or failed request with can
/// be taken for the success status.
pub proof fn lemma_rejections_are_not_ok(path: Seq<char>, quoted: Seq<char>, code: int)
    ensures
        empty_path_message() != ok_text(),
        not_a_directory_message(quoted) != ok_text(),
        unconvertible_path_message(path) != ok_text(),
        execution_failed_message(path, code) != ok_text(),
{
    reveal_strlit("Given path is an empty string");
    reveal_strlit("Given path is not a directory: ");
    reveal_strlit("Unable to convert ");
    reveal_strlit("Error shell executing the given directory '");
    assert(empty_path_message().len() == 29);
    assert(not_a_directory_message(quoted).len() >= 31);
    assert(unconvertible_path_message(path).len() >= 18);
    assert(execution_failed_message(path, code).len() >= 43);
    assert(ok_text().len() == 2);
}

/// Running the session machine gives the response that [`response_of`]
/// states directly, for every request, every answer of the filesystem and
/// every code of the platform.
pub proof fn lemma_exchange_response(path: Seq<char>, is_dir: bool, code: int)
    ensures
        exchange(path, is_dir, code) == Some(response_of(path, is_dir, code)),
{
    reveal_with_fuel(first_response, 4);
}

/// A request that is not empty and names an existing directory is answered
/// with exactly `OK`, provided that the path can be handed to the platform
/// and the platform reports success.
pub proof fn lemma_existing_directory_is_opened(path: Seq<char>, code: int)
    requires
        path.len() > 0,
        !has_nul(path),
        execution_succeeded(code),
    ensures
        exchange(path, true, code) == Some(ok_text()),
{
    lemma_exchange_response(path, true, code);
}

/// An empty request is answered with the message that says so, which
/// holds the word `empty` and is not the success status, whatever the
/// filesystem and the platform would have said.
pub proof fn lemma_empty_request_is_rejected(is_dir: bool, code: int)
    ensures
        exchange(Seq::empty(), is_dir, code) == Some(empty_path_message()),
        !is_ok_status(empty_path_message()),
        occurs_in("empty"@, empty_path_message()),
{
    lemma_exchange_response(Seq::empty(), is_dir, code);
    lemma_rejections_are_not_ok(Seq::empty(), Seq::empty(), code);
    reveal_strlit("Given path is an empty string");
    reveal_strlit("Given path is an ");
    reveal_strlit("empty");
    reveal_strlit(" string");
    lemma_occurs_between("Given path is an "@, "empty"@, " string"@);
    assert(empty_path_message() =~= "Given path is an "@ + "empty"@ + " string"@);
}

/// A request whose path does not name an existing directory is never
/// answered with the success status; where the request is not empty, the
/// answer ends with the path as the formatter quotes it.
pub proof fn lemma_non_directory_is_rejected(path: Seq<char>, code: int)
    ensures
        exchange(path, false, code) is Some,
        !is_ok_status(exchange(path, false, code)->0),
        path.len() > 0 ==> exchange(path, false, code) == Some(
            not_a_directory_message(debug_quoted(path)),
        ),
        path.len() > 0 ==> occurs_in(debug_quoted(path), exchange(path, false, code)->0),
{
    lemma_exchange_response(path, false, code);
    lemma_rejections_are_not_ok(path, debug_quoted(path), code);
    if path.len() > 0 {
        let quoted = debug_quoted(path);
        lemma_occurs_between("Given path is not a directory: "@, quoted, Seq::empty());
        assert(not_a_directory_message(quoted) =~= "Given path is not a directory: "@ + quoted
            + Seq::<char>::empty());
    }
}

/// The success status is sent if and only if the request is not empty,
/// names a directory, can be handed to the platform, and the platform
/// returns a code above the threshold.
pub proof fn lemma_ok_only_on_success(path: Seq<char>, is_dir: bool, code: int)
    ensures
        exchange(path, is_dir, code) == Some(ok_text()) <==> path.len() > 0 && is_dir && !has_nul(
            path,
        ) && code > 32,
{
    lemma_exchange_response(path, is_dir, code);
    lemma_rejections_are_not_ok(path, debug_quoted(path), code);
}

/// Two sessions that receive the same valid directory path both answer
/// `OK`: the response of a session is a function of its own request and
/// of what its own caller reports, and of nothing else.
pub proof fn lemma_sessions_are_independent(path: Seq<char>, first_code: int, second_code: int)
    requires
        path.len() > 0,
        !has_nul(path),
        execution_succeeded(first_code),
        execution_succeeded(second_code),
    ensures
        exchange(path, true, first_code) == Some(ok_text()),
        exchange(path, true, second_code) == Some(ok_text()),
{
    lemma_existing_directory_is_opened(path, first_code);
    lemma_existing_directory_is_opened(path, second_code);
}

/// A request that could not be read is never answered: the session ends at
/// once, with the failure as its outcome and for the log.
pub proof fn lemma_unread_request_gets_no_response(step: ReadStep)
    ensures
        session_step(SessionStateView::AwaitingRequest, SessionEventView::ReadFailed(step)) is Some,
        session_step(
            SessionStateView::AwaitingRequest,
            SessionEventView::ReadFailed(step),
        )->0.action == SessionActionView::Close,
        session_step(
            SessionStateView::AwaitingRequest,
            SessionEventView::ReadFailed(step),
        )->0.next == (SessionStateView::Closed {
            outcome: Err(stream_error(request_read_failed_message(step))),
        }),
{
}

/// A session gives one response at most: the move that sends a response
/// enters the responding state, every move out of that state closes the
/// session, and a closed session takes no further event.
pub proof fn lemma_one_response_per_session(state: SessionStateView, event: SessionEventView)
    ensures
        state is Closed ==> session_step(state, event) is None,
        session_step(state, event) is Some ==> {
            let t = session_step(state, event)->0;
            &&& t.action is Respond <==> t.next is Responding
            &&& t.action is Respond ==> !(state is Responding)
            &&& state is Responding ==> t.next is Closed && t.action is Close
            &&& t.next is Closed <==> t.log is Some
        },
{
}

/// The invariant of a session holds when the connection is accepted and
/// is kept by every move.
pub proof fn lemma_session_invariant(state: SessionStateView, event: SessionEventView)
    requires
        session_invariant(state),
        session_step(state, event) is Some,
    ensures
        session_invariant(SessionStateView::AwaitingRequest),
        session_invariant(session_step(state, event)->0.next),
{
}

/// The platform is asked to open a path only when the filesystem has just
/// said that it names a directory, and only a path without NUL; in a
/// session that keeps its invariant the path is not empty either.
pub proof fn lemma_only_directories_are_opened(state: SessionStateView, event: SessionEventView)
    requires
        session_step(state, event) is Some,
        session_step(state, event)->0.action is Execute,
    ensures
        event == SessionEventView::DirectoryChecked(true),
        state is CheckingDirectory,
        session_step(state, event)->0.action->Execute_0 == state->CheckingDirectory_path,
        !has_nul(state->CheckingDirectory_path),
        session_invariant(state) ==> state->CheckingDirectory_path.len() > 0,
{
}

/// A connector that sent `path` and reads the status `OK` logs the success
/// with the path in the line; one that reads anything else logs the
/// failure with the received text in the line. Either way the next round
/// begins.
pub proof fn lemma_round_trip(endpoint: EndpointView, path: Seq<char>, body: Seq<char>)
    ensures
        connector_step(
            endpoint,
            ConnectorStateView::AwaitingStatus { path },
            ConnectorEventView::StatusRead(body),
        ) == Some(conclusion(path, body)),
        conclusion(path, body).next == (ConnectorStateView::Connecting { first: false }),
        conclusion(path, body).action == ConnectorActionView::Connect,
        is_ok_status(body) ==> conclusion(path, body).log == Some(
            LogRecordView { level: LogLevel::Info, message: success_line(path) },
        ),
        !is_ok_status(body) ==> conclusion(path, body).log == Some(
            LogRecordView { level: LogLevel::Error, message: failure_line(body) },
        ),
        occurs_in(path, success_line(path)),
        occurs_in(body, failure_line(body)),
{
    lemma_occurs_between("'"@, path, "' okay to explore!"@);
    lemma_occurs_between("Stream error: "@, body, Seq::empty());
    assert(failure_line(body) =~= "Stream error: "@ + body + Seq::<char>::empty());
}

/// Once the connector has dialled for the first time, no event ends its
/// loop: every move that it makes leads to a state from which it goes on,
/// and none tells the caller to give up.
pub proof fn lemma_loop_goes_on(
    endpoint: EndpointView,
    state: ConnectorStateView,
    event: ConnectorEventView,
)
    requires
        state != (ConnectorStateView::Connecting { first: true }),
        connector_step(endpoint, state, event) is Some,
    ensures
        connector_step(endpoint, state, event)->0.next != ConnectorStateView::Stopped,
        connector_step(endpoint, state, event)->0.next != (ConnectorStateView::Connecting {
            first: true,
        }),
        !(connector_step(endpoint, state, event)->0.action is Abort),
{
}

/// The two roles end to end: the connector that sent `path` logs a success
/// exactly when the listener's session opened the directory, and logs the
/// listener's own words otherwise.
pub proof fn lemma_end_to_end(path: Seq<char>, is_dir: bool, code: int)
    ensures
        conclusion(path, response_of(path, is_dir, code)).log == Some(
            if path.len() > 0 && is_dir && !has_nul(path) && code > 32 {
                LogRecordView { level: LogLevel::Info, message: success_line(path) }
            } else {
                LogRecordView {
                    level: LogLevel::Error,
                    message: failure_line(response_of(path, is_dir, code)),
                }
            },
        ),
{
    lemma_rejections_are_not_ok(path, debug_quoted(path), code);
}

} // verus!
