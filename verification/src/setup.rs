//! The endpoint of the relay and the errors that end the process before
//! any exchange has taken place.

use vstd::prelude::*;
use vstd::string::*;
use crate::error::{ErrorKind, RelayError, RelayErrorView};
use crate::text::{decimal, render_decimal};

verus! {

/// The address and port that the listener binds and the connector dials.
#[derive(Clone, Debug, PartialEq, Eq)]
pub struct Endpoint {
    pub address: String,
    pub port: u16,
}

/// The mathematical value of an [`Endpoint`].
pub struct EndpointView {
    pub address: Seq<char>,
    pub port: int,
}

impl View for Endpoint {
    type V = EndpointView;

    open spec fn view(&self) -> EndpointView {
        EndpointView { address: self.address@, port: self.port as int }
    }
}

/// An endpoint as it is written in messages: the address, a colon, the
/// port in decimal.
pub open spec fn endpoint_text(endpoint: EndpointView) -> Seq<char> {
    endpoint.address + ":"@ + decimal(endpoint.port)
}

/// What is said when the listener cannot bind its endpoint.
pub open spec fn bind_failed_message(endpoint: EndpointView) -> Seq<char> {
    "Unable to bind TCP listener at '"@ + endpoint_text(endpoint) + "'"@
}

/// What is said when the connector cannot reach the listener.
pub open spec fn connect_failed_message(endpoint: EndpointView) -> Seq<char> {
    "Unable to connect TCP stream at '"@ + endpoint_text(endpoint) + "'"@
}

/// What is said when the log cannot be set up from its configuration file.
pub open spec fn log_setup_failed_message(config_path: Seq<char>) -> Seq<char> {
    "Unable to initialize log4rs logger with the given config file at '"@ + config_path + "'"@
}

/// A setup error with the failure behind it.
pub open spec fn setup_error(message: Seq<char>, cause: Seq<char>) -> RelayErrorView {
    RelayErrorView { kind: ErrorKind::Setup, message, causes: seq![cause] }
}

impl Endpoint {
    /// Writes the endpoint as `address:port`.
    pub fn render(&self) -> (text: String)
        ensures
            text@ == endpoint_text(self@),
    {
        let mut text = self.address.clone();
        text.append(":");
        let port = render_decimal(self.port as i128);
        text.append(port.as_str());
        text
    }

    /// Builds the words for a listener that cannot bind this endpoint.
    pub fn bind_failed_text(&self) -> (text: String)
        ensures
            text@ == bind_failed_message(self@),
    {
        let mut text = String::from_str("Unable to bind TCP listener at '");
        let place = self.render();
        text.append(place.as_str());
        text.append("'");
        text
    }

    /// Builds the words for a connector that cannot reach this endpoint.
    pub fn connect_failed_text(&self) -> (text: String)
        ensures
            text@ == connect_failed_message(self@),
    {
        let mut text = String::from_str("Unable to connect TCP stream at '");
        let place = self.render();
        text.append(place.as_str());
        text.append("'");
        text
    }

    /// The fatal error of a listener that cannot bind this endpoint.
    pub fn bind_failed(&self, cause: String) -> (error: RelayError)
        ensures
            error@ == setup_error(bind_failed_message(self@), cause@),
    {
        RelayError::with_cause(ErrorKind::Setup, self.bind_failed_text(), cause)
    }

    /// The fatal error of a connector that cannot reach this endpoint at
    /// its first attempt.
    pub fn connect_failed(&self, cause: String) -> (error: RelayError)
        ensures
            error@ == setup_error(connect_failed_message(self@), cause@),
    {
        RelayError::with_cause(ErrorKind::Setup, self.connect_failed_text(), cause)
    }
}

/// The fatal error of a process whose log cannot be set up.
pub fn log_setup_failed(config_path: &str, cause: String) -> (error: RelayError)
    ensures
        error@ == setup_error(log_setup_failed_message(config_path@), cause@),
{
    let mut text = String::from_str(
        "Unable to initialize log4rs logger with the given config file at '",
    );
    text.append(config_path);
    text.append("'");
    RelayError::with_cause(ErrorKind::Setup, text, cause)
}

} // verus!
