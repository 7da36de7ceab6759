use explore_agent::connector::{
    conclude, submit, ConnectorAction, ConnectorEvent, ConnectorState, ConnectorTransition,
};
use explore_agent::error::{ErrorKind, RelayError};
use explore_agent::listener::{SessionAction, SessionEvent, SessionState};
use explore_agent::message::{ReadStep, WriteStep};
use explore_agent::record::{LogLevel, LogRecord};
use explore_agent::setup::Endpoint;

fn local() -> Endpoint {
    Endpoint { address: "127.0.0.1".to_string(), port: 22222 }
}

fn failed_round(message: &str) -> ConnectorTransition {
    ConnectorTransition {
        next: ConnectorState::Connecting { first: false },
        log: Some(LogRecord {
            level: LogLevel::Error,
            message: format!("Stream error: {}", message),
        }),
        action: ConnectorAction::Connect,
    }
}

#[test]
fn connector_starts_by_dialling_for_the_first_time() {
    assert_eq!(ConnectorState::new(), ConnectorState::Connecting { first: true });
}

#[test]
fn standing_connection_leads_to_the_prompt() {
    for first in [true, false] {
        let moved = ConnectorState::Connecting { first }
            .step(&local(), ConnectorEvent::Connected)
            .unwrap();
        assert_eq!(
            moved,
            ConnectorTransition {
                next: ConnectorState::Prompting,
                log: None,
                action: ConnectorAction::Prompt("Enter directory to explore:".to_string()),
            }
        );
    }
}

#[test]
fn first_connection_that_fails_is_fatal() {
    let moved = ConnectorState::new()
        .step(&local(), ConnectorEvent::ConnectFailed("Connection refused".to_string()))
        .unwrap();
    assert_eq!(
        moved,
        ConnectorTransition {
            next: ConnectorState::Stopped,
            log: None,
            action: ConnectorAction::Abort(RelayError {
                kind: ErrorKind::Setup,
                message: "Unable to connect TCP stream at '127.0.0.1:22222'".to_string(),
                causes: vec!["Connection refused".to_string()],
            }),
        }
    );
}

#[test]
fn later_connection_that_fails_is_logged() {
    let moved = ConnectorState::Connecting { first: false }
        .step(&local(), ConnectorEvent::ConnectFailed("Connection refused".to_string()))
        .unwrap();
    assert_eq!(moved, failed_round("Unable to connect TCP stream at '127.0.0.1:22222'"));
}

#[test]
fn line_is_trimmed_before_it_is_sent() {
    let moved = ConnectorState::Prompting
        .step(&local(), ConnectorEvent::LineRead("  C:\\Users\\test \r\n".to_string()))
        .unwrap();
    assert_eq!(
        moved,
        ConnectorTransition {
            next: ConnectorState::Sending { path: "C:\\Users\\test".to_string() },
            log: None,
            action: ConnectorAction::Send("C:\\Users\\test".to_string()),
        }
    );
}

#[test]
fn inner_whitespace_is_kept() {
    let moved = ConnectorState::Prompting
        .step(&local(), ConnectorEvent::LineRead("C:\\Program Files\n".to_string()))
        .unwrap();
    assert_eq!(moved.action, ConnectorAction::Send("C:\\Program Files".to_string()));
}

#[test]
fn blank_line_sends_an_empty_request() {
    let moved =
        ConnectorState::Prompting.step(&local(), ConnectorEvent::LineRead("\n".to_string())).unwrap();
    assert_eq!(moved.action, ConnectorAction::Send(String::new()));
    assert_eq!(moved.next, ConnectorState::Sending { path: String::new() });
}

#[test]
fn submit_takes_the_path_as_it_is() {
    assert_eq!(
        submit(" /tmp ".to_string()),
        ConnectorTransition {
            next: ConnectorState::Sending { path: " /tmp ".to_string() },
            log: None,
            action: ConnectorAction::Send(" /tmp ".to_string()),
        }
    );
}

#[test]
fn unread_line_fails_the_round() {
    let moved = ConnectorState::Prompting.step(&local(), ConnectorEvent::PromptFailed).unwrap();
    assert_eq!(moved, failed_round("Unable to read string from stdin"));
}

#[test]
fn sent_request_leads_to_reading_the_status() {
    let moved = ConnectorState::Sending { path: "/tmp".to_string() }
        .step(&local(), ConnectorEvent::RequestSent)
        .unwrap();
    assert_eq!(
        moved,
        ConnectorTransition {
            next: ConnectorState::AwaitingStatus { path: "/tmp".to_string() },
            log: None,
            action: ConnectorAction::ReadStatus,
        }
    );
}

#[test]
fn unsent_request_fails_the_round() {
    let cases = [
        (WriteStep::Write, "Unable to write buffer string into stream"),
        (WriteStep::Flush, "Unable to flush the stream"),
        (WriteStep::CloseWrite, "Error shutting down write side of stream"),
    ];
    for (step, message) in cases {
        let moved = ConnectorState::Sending { path: "/tmp".to_string() }
            .step(&local(), ConnectorEvent::WriteFailed(step))
            .unwrap();
        assert_eq!(moved, failed_round(message));
    }
}

#[test]
fn unread_status_fails_the_round() {
    let cases = [
        (ReadStep::Read, "Unable to read status from server stream"),
        (ReadStep::CloseRead, "Error shutting down read side of stream"),
    ];
    for (step, message) in cases {
        let moved = ConnectorState::AwaitingStatus { path: "/tmp".to_string() }
            .step(&local(), ConnectorEvent::ReadFailed(step))
            .unwrap();
        assert_eq!(moved, failed_round(message));
    }
}

#[test]
fn ok_status_logs_the_path_and_goes_on() {
    let moved = ConnectorState::AwaitingStatus { path: "C:\\Users\\test".to_string() }
        .step(&local(), ConnectorEvent::StatusRead("OK".to_string()))
        .unwrap();
    assert_eq!(
        moved,
        ConnectorTransition {
            next: ConnectorState::Connecting { first: false },
            log: Some(LogRecord {
                level: LogLevel::Info,
                message: "'C:\\Users\\test' okay to explore!".to_string(),
            }),
            action: ConnectorAction::Connect,
        }
    );
}

#[test]
fn other_status_logs_the_received_text_and_goes_on() {
    for body in ["", "ok", "OK\n", " OK", "OKOK", "Given path is an empty string"] {
        let moved = ConnectorState::AwaitingStatus { path: "/tmp".to_string() }
            .step(&local(), ConnectorEvent::StatusRead(body.to_string()))
            .unwrap();
        assert_eq!(moved, failed_round(body));
    }
}

#[test]
fn conclude_decides_by_the_body_alone() {
    assert_eq!(
        conclude("/tmp".to_string(), "OK".to_string()).log,
        Some(LogRecord { level: LogLevel::Info, message: "'/tmp' okay to explore!".to_string() })
    );
    assert_eq!(conclude("/tmp".to_string(), "KO".to_string()), failed_round("KO"));
}

#[test]
fn connector_event_out_of_turn_is_refused() {
    let endpoint = local();
    assert_eq!(ConnectorState::new().step(&endpoint, ConnectorEvent::RequestSent), None);
    assert_eq!(
        ConnectorState::new().step(&endpoint, ConnectorEvent::LineRead("/tmp".to_string())),
        None
    );
    assert_eq!(ConnectorState::Prompting.step(&endpoint, ConnectorEvent::Connected), None);
    assert_eq!(
        ConnectorState::Prompting.step(&endpoint, ConnectorEvent::StatusRead("OK".to_string())),
        None
    );
    let sending = || ConnectorState::Sending { path: "/tmp".to_string() };
    assert_eq!(sending().step(&endpoint, ConnectorEvent::StatusRead("OK".to_string())), None);
    assert_eq!(sending().step(&endpoint, ConnectorEvent::ReadFailed(ReadStep::Read)), None);
    let awaiting = || ConnectorState::AwaitingStatus { path: "/tmp".to_string() };
    assert_eq!(awaiting().step(&endpoint, ConnectorEvent::RequestSent), None);
    assert_eq!(awaiting().step(&endpoint, ConnectorEvent::WriteFailed(WriteStep::Write)), None);
}

#[test]
fn stopped_connector_takes_no_event() {
    let endpoint = local();
    assert_eq!(ConnectorState::Stopped.step(&endpoint, ConnectorEvent::Connected), None);
    assert_eq!(
        ConnectorState::Stopped.step(&endpoint, ConnectorEvent::ConnectFailed("x".to_string())),
        None
    );
    assert_eq!(ConnectorState::Stopped.step(&endpoint, ConnectorEvent::PromptFailed), None);
}

#[test]
fn empty_request_round_trip_fails_and_the_next_prompt_is_issued() {
    let endpoint = local();
    let connected = ConnectorState::new().step(&endpoint, ConnectorEvent::Connected).unwrap();
    let sending =
        connected.next.step(&endpoint, ConnectorEvent::LineRead("\n".to_string())).unwrap();
    let request = match sending.action {
        ConnectorAction::Send(path) => path,
        other => panic!("expected a request, got {:?}", other),
    };
    assert_eq!(request, "");

    let answered = SessionState::new().step(SessionEvent::RequestRead(request)).unwrap();
    let response = match answered.action {
        SessionAction::Respond(text) => text,
        other => panic!("expected a response, got {:?}", other),
    };
    assert!(response.contains("empty"));

    let awaiting = sending.next.step(&endpoint, ConnectorEvent::RequestSent).unwrap();
    let concluded =
        awaiting.next.step(&endpoint, ConnectorEvent::StatusRead(response.clone())).unwrap();
    assert_eq!(concluded, failed_round(&response));

    let again = concluded.next.step(&endpoint, ConnectorEvent::Connected).unwrap();
    assert_eq!(again.next, ConnectorState::Prompting);
    assert_eq!(again.action, ConnectorAction::Prompt("Enter directory to explore:".to_string()));
}

#[test]
fn accepted_directory_round_trip_logs_success_on_both_sides() {
    let endpoint = local();
    let sending = ConnectorState::Prompting
        .step(&endpoint, ConnectorEvent::LineRead("C:\\Users\\test\r\n".to_string()))
        .unwrap();
    let request = match sending.action {
        ConnectorAction::Send(path) => path,
        other => panic!("expected a request, got {:?}", other),
    };
    let checking = SessionState::new().step(SessionEvent::RequestRead(request)).unwrap();
    let executing = checking.next.step(SessionEvent::DirectoryChecked(true)).unwrap();
    let responding = executing.next.step(SessionEvent::ExecutionReturned(42)).unwrap();
    let response = match responding.action {
        SessionAction::Respond(text) => text,
        other => panic!("expected a response, got {:?}", other),
    };
    let closed = responding.next.step(SessionEvent::ResponseSent).unwrap();
    let awaiting = sending.next.step(&endpoint, ConnectorEvent::RequestSent).unwrap();
    let concluded = awaiting.next.step(&endpoint, ConnectorEvent::StatusRead(response)).unwrap();
    assert_eq!(concluded.log, closed.log);
    assert_eq!(
        concluded.log,
        Some(LogRecord {
            level: LogLevel::Info,
            message: "'C:\\Users\\test' okay to explore!".to_string(),
        })
    );
}
