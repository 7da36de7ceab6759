//! Request/response protocol of a remote directory-opening relay.
//!
//! A listener receives a directory path, validates it, asks the platform to
//! open it and answers with a status text; a connector submits a path and
//! reads the status back. This library holds the decisions of both roles as
//! pure transition functions; the sockets, the prompt and the platform call
//! are the caller's business.

pub mod connector;
pub mod error;
pub mod laws;
pub mod listener;
pub mod message;
pub mod record;
pub mod setup;
pub mod status;
pub mod text;
