//! The texts of the relay: what the listener answers when it rejects a
//! request, and what either role says of a failed step.

use vstd::prelude::*;
use vstd::string::*;
use crate::text::{debug_quote, debug_quoted, decimal, render_decimal};

verus! {

/// The two steps of taking a message in.
#[derive(Clone, Copy, Debug, PartialEq, Eq, Structural)]
pub enum ReadStep {
    /// Reading until the peer closes its write side.
    Read,
    /// Closing the read side afterwards.
    CloseRead,
}

/// The three steps of sending a message out.
#[derive(Clone, Copy, Debug, PartialEq, Eq, Structural)]
pub enum WriteStep {
    /// Writing the whole text.
    Write,
    /// Flushing the stream.
    Flush,
    /// Closing the write side, which ends the message.
    CloseWrite,
}

/// The answer to an empty request.
pub open spec fn empty_path_message() -> Seq<char> {
    "Given path is an empty string"@
}

/// The answer to a request that names no directory, given the quoted path.
pub open spec fn not_a_directory_message(quoted: Seq<char>) -> Seq<char> {
    "Given path is not a directory: "@ + quoted
}

/// The answer to a path that cannot be handed to the platform because it
/// holds a NUL character.
pub open spec fn unconvertible_path_message(path: Seq<char>) -> Seq<char> {
    "Unable to convert "@ + path + " into CString"@
}

/// The answer when the platform returned a failure code.
pub open spec fn execution_failed_message(path: Seq<char>, code: int) -> Seq<char> {
    "Error shell executing the given directory '"@ + path + "', error code: "@ + decimal(code)
}

/// What the listener says when a connection could not be accepted.
pub open spec fn accept_failed_message() -> Seq<char> {
    "Unable to get a valid stream"@
}

/// What the listener says when it could not take the request in.
pub open spec fn request_read_failed_message(step: ReadStep) -> Seq<char> {
    match step {
        ReadStep::Read => "Unable to read string from TCP stream"@,
        ReadStep::CloseRead => "Error shutting down read side of stream"@,
    }
}

/// What the connector says when it could not take the status in.
pub open spec fn status_read_failed_message(step: ReadStep) -> Seq<char> {
    match step {
        ReadStep::Read => "Unable to read status from server stream"@,
        ReadStep::CloseRead => "Error shutting down read side of stream"@,
    }
}

/// What either role says when it could not send its message out.
pub open spec fn write_failed_message(step: WriteStep) -> Seq<char> {
    match step {
        WriteStep::Write => "Unable to write buffer string into stream"@,
        WriteStep::Flush => "Unable to flush the stream"@,
        WriteStep::CloseWrite => "Error shutting down write side of stream"@,
    }
}

/// What the connector says when the operator's line could not be read.
pub open spec fn prompt_failed_message() -> Seq<char> {
    "Unable to read string from stdin"@
}

/// The prompt shown to the operator.
pub open spec fn prompt_text() -> Seq<char> {
    "Enter directory to explore:"@
}

/// Builds the answer to an empty request.
pub fn empty_path_text() -> (text: String)
    ensures
        text@ == empty_path_message(),
{
    String::from_str("Given path is an empty string")
}

/// Builds the answer to a request that names no directory from the path as
/// the formatter quotes it.
pub fn not_a_directory_text_from(quoted: &str) -> (text: String)
    ensures
        text@ == not_a_directory_message(quoted@),
{
    let mut text = String::from_str("Given path is not a directory: ");
    text.append(quoted);
    text
}

/// Builds the answer to a request that names no directory.
pub fn not_a_directory_text(path: &str) -> (text: String)
    ensures
        text@ == not_a_directory_message(debug_quoted(path@)),
{
    let quoted = debug_quote(path);
    not_a_directory_text_from(quoted.as_str())
}

/// Builds the answer to a path that holds a NUL character.
pub fn unconvertible_path_text(path: &str) -> (text: String)
    ensures
        text@ == unconvertible_path_message(path@),
{
    let mut text = String::from_str("Unable to convert ");
    text.append(path);
    text.append(" into CString");
    text
}

/// Builds the answer for a failure code of the platform.
pub fn execution_failed_text(path: &str, code: isize) -> (text: String)
    ensures
        text@ == execution_failed_message(path@, code as int),
{
    let mut text = String::from_str("Error shell executing the given directory '");
    text.append(path);
    text.append("', error code: ");
    let digits = render_decimal(code as i128);
    text.append(digits.as_str());
    text
}

/// Builds the listener's words for a connection that was not accepted.
pub fn accept_failed_text() -> (text: String)
    ensures
        text@ == accept_failed_message(),
{
    String::from_str("Unable to get a valid stream")
}

/// Builds the listener's words for a request that could not be taken in.
pub fn request_read_failed_text(step: ReadStep) -> (text: String)
    ensures
        text@ == request_read_failed_message(step),
{
    match step {
        ReadStep::Read => String::from_str("Unable to read string from TCP stream"),
        ReadStep::CloseRead => String::from_str("Error shutting down read side of stream"),
    }
}

/// Builds the connector's words for a status that could not be taken in.
pub fn status_read_failed_text(step: ReadStep) -> (text: String)
    ensures
        text@ == status_read_failed_message(step),
{
    match step {
        ReadStep::Read => String::from_str("Unable to read status from server stream"),
        ReadStep::CloseRead => String::from_str("Error shutting down read side of stream"),
    }
}

/// Builds the words for a message that could not be sent out.
pub fn write_failed_text(step: WriteStep) -> (text: String)
    ensures
        text@ == write_failed_message(step),
{
    match step {
        WriteStep::Write => String::from_str("Unable to write buffer string into stream"),
        WriteStep::Flush => String::from_str("Unable to flush the stream"),
        WriteStep::CloseWrite => String::from_str("Error shutting down write side of stream"),
    }
}

/// Builds the connector's words for a line that could not be read.
pub fn prompt_failed_text() -> (text: String)
    ensures
        text@ == prompt_failed_message(),
{
    String::from_str("Unable to read string from stdin")
}

/// Builds the prompt shown to the operator.
pub fn prompt() -> (text: String)
    ensures
        text@ == prompt_text(),
{
    String::from_str("Enter directory to explore:")
}

} // verus!
