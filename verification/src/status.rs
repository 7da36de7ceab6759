//! The status text that answers a request.
//!
//! The response body is the status: the two characters `OK` mean success,
//! every other body is an error description to be shown as it is.

use vstd::prelude::*;
use vstd::string::*;
use crate::error::{ErrorKind, RelayError, RelayErrorView};
use crate::record::outcome_view;

verus! {

/// The body that reports success.
pub open spec fn ok_text() -> Seq<char> {
    seq!['O', 'K']
}

/// Whether a response body reports success: it is exactly `OK`.
pub open spec fn is_ok_status(body: Seq<char>) -> bool {
    body == ok_text()
}

/// The response body for an outcome: `OK` for an opened directory, the
/// error's message otherwise.
pub open spec fn status_of(outcome: Result<Seq<char>, RelayErrorView>) -> Seq<char> {
    match outcome {
        Ok(_) => ok_text(),
        Err(error) => error.message,
    }
}

/// What a response body means to the connector that submitted `path`: the
/// path itself if the body is `OK`, else an error that carries the body
/// word for word.
pub open spec fn decoded(path: Seq<char>, body: Seq<char>) -> Result<Seq<char>, RelayErrorView> {
    if is_ok_status(body) {
        Ok(path)
    } else {
        Err(RelayErrorView { kind: ErrorKind::Protocol, message: body, causes: Seq::empty() })
    }
}

/// Builds the body that reports success.
pub fn ok_status() -> (text: String)
    ensures
        text@ == ok_text(),
{
    proof {
        reveal_strlit("OK");
    }
    let text = String::from_str("OK");
    assert(text@ =~= ok_text());
    text
}

/// Decides whether a response body reports success.
pub fn status_is_ok(body: &str) -> (ok: bool)
    ensures
        ok == is_ok_status(body@),
{
    let expected = ok_status();
    let given = String::from_str(body);
    given == expected
}

/// Encodes an outcome as the response body.
pub fn status_text(outcome: &Result<String, RelayError>) -> (text: String)
    ensures
        text@ == status_of(outcome_view(*outcome)),
{
    match outcome {
        Ok(_) => ok_status(),
        Err(error) => error.message.clone(),
    }
}

/// Decodes a response body for the connector that submitted `path`.
pub fn decode_status(path: String, body: String) -> (outcome: Result<String, RelayError>)
    ensures
        outcome_view(outcome) == decoded(path@, body@),
{
    if status_is_ok(body.as_str()) {
        Ok(path)
    } else {
        Err(RelayError::new(ErrorKind::Protocol, body))
    }
}

} // verus!
