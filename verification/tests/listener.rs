use explore_agent::error::{ErrorKind, RelayError};
use explore_agent::listener::{
    accept_failed, SessionAction, SessionEvent, SessionState, SessionTransition,
};
use explore_agent::message::{ReadStep, WriteStep};
use explore_agent::record::{LogLevel, LogRecord};

/// Runs a session to its response, the filesystem answering `is_dir` and
/// the platform returning `code`, and gives the response with the state in
/// which it is sent.
fn respond_to(path: &str, is_dir: bool, code: isize) -> (String, SessionState) {
    let mut event = SessionEvent::RequestRead(path.to_string());
    let mut state = SessionState::new();
    loop {
        let moved = state.step(event).expect("the session takes the event");
        assert_eq!(moved.log, None);
        match moved.action {
            SessionAction::CheckDirectory(asked) => {
                assert_eq!(asked, path);
                event = SessionEvent::DirectoryChecked(is_dir);
            }
            SessionAction::Execute(opened) => {
                assert_eq!(opened, path);
                event = SessionEvent::ExecutionReturned(code);
            }
            SessionAction::Respond(text) => return (text, moved.next),
            SessionAction::Close => panic!("closed before any response"),
        }
        state = moved.next;
    }
}

fn validation(message: &str) -> RelayError {
    RelayError { kind: ErrorKind::Validation, message: message.to_string(), causes: vec![] }
}

fn execution(message: &str) -> RelayError {
    RelayError { kind: ErrorKind::Execution, message: message.to_string(), causes: vec![] }
}

#[test]
fn existing_directory_with_code_42_is_ok() {
    let (response, state) = respond_to("C:\\Users\\test", true, 42);
    assert_eq!(response, "OK");
    assert_eq!(state, SessionState::Responding { outcome: Ok("C:\\Users\\test".to_string()) });
}

#[test]
fn failure_code_2_is_reported_with_the_code() {
    let (response, state) = respond_to("C:\\Users\\test", true, 2);
    let expected = "Error shell executing the given directory 'C:\\Users\\test', error code: 2";
    assert_eq!(response, expected);
    assert_eq!(state, SessionState::Responding { outcome: Err(execution(expected)) });
}

#[test]
fn code_32_is_a_failure() {
    let (response, _) = respond_to("/tmp", true, 32);
    assert_eq!(response, "Error shell executing the given directory '/tmp', error code: 32");
}

#[test]
fn code_33_is_a_success() {
    let (response, _) = respond_to("/tmp", true, 33);
    assert_eq!(response, "OK");
}

#[test]
fn negative_and_extreme_codes_are_failures() {
    let (response, _) = respond_to("/tmp", true, -1);
    assert_eq!(response, "Error shell executing the given directory '/tmp', error code: -1");
    let (response, _) = respond_to("/tmp", true, 0);
    assert_eq!(response, "Error shell executing the given directory '/tmp', error code: 0");
    let (response, _) = respond_to("/tmp", true, isize::MIN);
    assert_eq!(
        response,
        format!("Error shell executing the given directory '/tmp', error code: {}", isize::MIN)
    );
    let (response, _) = respond_to("/tmp", true, isize::MAX);
    assert_eq!(response, "OK");
}

#[test]
fn empty_request_is_rejected_at_once() {
    let moved = SessionState::new().step(SessionEvent::RequestRead(String::new())).unwrap();
    let message = "Given path is an empty string";
    assert_eq!(moved.action, SessionAction::Respond(message.to_string()));
    assert_eq!(moved.next, SessionState::Responding { outcome: Err(validation(message)) });
    assert_eq!(moved.log, None);
    assert!(message.contains("empty"));
    assert_ne!(message, "OK");
}

#[test]
fn whitespace_request_is_not_empty() {
    let moved = SessionState::new().step(SessionEvent::RequestRead(" ".to_string())).unwrap();
    assert_eq!(moved.action, SessionAction::CheckDirectory(" ".to_string()));
    assert_eq!(moved.next, SessionState::CheckingDirectory { path: " ".to_string() });
}

#[test]
fn path_that_is_no_directory_is_named_in_the_answer() {
    let (response, state) = respond_to("C:\\Users\\nothing", false, 42);
    let expected = "Given path is not a directory: \"C:\\\\Users\\\\nothing\"";
    assert_eq!(response, expected);
    assert_ne!(response, "OK");
    assert_eq!(state, SessionState::Responding { outcome: Err(validation(expected)) });
}

#[test]
fn plain_path_that_is_no_directory_is_quoted() {
    let (response, _) = respond_to("/no/such/place", false, 0);
    assert_eq!(response, "Given path is not a directory: \"/no/such/place\"");
    assert!(response.contains("/no/such/place"));
}

#[test]
fn path_with_nul_is_not_executed() {
    let path = "C:\\Users\0test";
    let checked = SessionState::CheckingDirectory { path: path.to_string() }
        .step(SessionEvent::DirectoryChecked(true))
        .unwrap();
    let message = "Unable to convert C:\\Users\0test into CString";
    assert_eq!(checked.action, SessionAction::Respond(message.to_string()));
    assert_eq!(checked.next, SessionState::Responding { outcome: Err(execution(message)) });
}

#[test]
fn directory_check_comes_before_the_nul_check() {
    let (response, _) = respond_to("a\0b", false, 42);
    assert_eq!(response, "Given path is not a directory: \"a\\0b\"");
}

#[test]
fn sent_response_closes_the_session_and_logs_the_path() {
    let (_, state) = respond_to("C:\\Users\\test", true, 42);
    let moved = state.step(SessionEvent::ResponseSent).unwrap();
    assert_eq!(
        moved,
        SessionTransition {
            next: SessionState::Closed { outcome: Ok("C:\\Users\\test".to_string()) },
            log: Some(LogRecord {
                level: LogLevel::Info,
                message: "'C:\\Users\\test' okay to explore!".to_string(),
            }),
            action: SessionAction::Close,
        }
    );
}

#[test]
fn sent_rejection_closes_the_session_and_logs_the_error() {
    let (response, state) = respond_to("", true, 42);
    let moved = state.step(SessionEvent::ResponseSent).unwrap();
    assert_eq!(moved.action, SessionAction::Close);
    assert_eq!(
        moved.log,
        Some(LogRecord {
            level: LogLevel::Error,
            message: "Stream error: Given path is an empty string".to_string(),
        })
    );
    assert_eq!(moved.next, SessionState::Closed { outcome: Err(validation(&response)) });
}

#[test]
fn unread_request_gets_no_response() {
    let cases = [
        (ReadStep::Read, "Unable to read string from TCP stream"),
        (ReadStep::CloseRead, "Error shutting down read side of stream"),
    ];
    for (step, message) in cases {
        let moved = SessionState::new().step(SessionEvent::ReadFailed(step)).unwrap();
        assert_eq!(moved.action, SessionAction::Close);
        assert_eq!(
            moved.log,
            Some(LogRecord { level: LogLevel::Error, message: format!("Stream error: {}", message) })
        );
        assert_eq!(
            moved.next,
            SessionState::Closed {
                outcome: Err(RelayError {
                    kind: ErrorKind::SessionIo,
                    message: message.to_string(),
                    causes: vec![],
                }),
            }
        );
    }
}

#[test]
fn failed_write_replaces_the_outcome() {
    let cases = [
        (WriteStep::Write, "Unable to write buffer string into stream"),
        (WriteStep::Flush, "Unable to flush the stream"),
        (WriteStep::CloseWrite, "Error shutting down write side of stream"),
    ];
    for (step, message) in cases {
        let (_, state) = respond_to("/tmp", true, 42);
        let moved = state.step(SessionEvent::WriteFailed(step)).unwrap();
        assert_eq!(moved.action, SessionAction::Close);
        assert_eq!(
            moved.log,
            Some(LogRecord { level: LogLevel::Error, message: format!("Stream error: {}", message) })
        );
        assert_eq!(
            moved.next,
            SessionState::Closed {
                outcome: Err(RelayError {
                    kind: ErrorKind::SessionIo,
                    message: message.to_string(),
                    causes: vec![],
                }),
            }
        );
    }
}

#[test]
fn event_out_of_turn_is_refused() {
    assert_eq!(SessionState::new().step(SessionEvent::ResponseSent), None);
    assert_eq!(SessionState::new().step(SessionEvent::DirectoryChecked(true)), None);
    assert_eq!(SessionState::new().step(SessionEvent::ExecutionReturned(42)), None);
    assert_eq!(SessionState::new().step(SessionEvent::WriteFailed(WriteStep::Flush)), None);
    let checking = || SessionState::CheckingDirectory { path: "/tmp".to_string() };
    assert_eq!(checking().step(SessionEvent::ExecutionReturned(42)), None);
    assert_eq!(checking().step(SessionEvent::RequestRead("/tmp".to_string())), None);
    let executing = || SessionState::Executing { path: "/tmp".to_string() };
    assert_eq!(executing().step(SessionEvent::DirectoryChecked(true)), None);
    assert_eq!(executing().step(SessionEvent::ReadFailed(ReadStep::Read)), None);
    let responding = || SessionState::Responding { outcome: Ok("/tmp".to_string()) };
    assert_eq!(responding().step(SessionEvent::RequestRead("/tmp".to_string())), None);
    assert_eq!(responding().step(SessionEvent::ExecutionReturned(42)), None);
}

#[test]
fn closed_session_takes_no_event() {
    let closed = || SessionState::Closed { outcome: Ok("/tmp".to_string()) };
    assert_eq!(closed().step(SessionEvent::RequestRead("/tmp".to_string())), None);
    assert_eq!(closed().step(SessionEvent::ReadFailed(ReadStep::Read)), None);
    assert_eq!(closed().step(SessionEvent::DirectoryChecked(true)), None);
    assert_eq!(closed().step(SessionEvent::ExecutionReturned(42)), None);
    assert_eq!(closed().step(SessionEvent::ResponseSent), None);
    assert_eq!(closed().step(SessionEvent::WriteFailed(WriteStep::Write)), None);
}

#[test]
fn same_path_in_two_sessions_is_ok_twice() {
    let (first, first_state) = respond_to("/srv/data", true, 42);
    let (second, second_state) = respond_to("/srv/data", true, 33);
    assert_eq!(first, "OK");
    assert_eq!(second, "OK");
    assert_eq!(first_state, second_state);
}

#[test]
fn rejected_session_leaves_nothing_behind_for_the_next() {
    let (first, _) = respond_to("/srv/data", false, 42);
    let (second, _) = respond_to("/srv/data", true, 42);
    assert_ne!(first, "OK");
    assert_eq!(second, "OK");
}

#[test]
fn connection_that_was_not_accepted_is_logged() {
    assert_eq!(
        accept_failed(),
        LogRecord {
            level: LogLevel::Error,
            message: "Stream error: Unable to get a valid stream".to_string(),
        }
    );
}
