//! The error of every operation.

use vstd::prelude::*;

verus! {

/// What went wrong in a call.
#[derive(Clone, Copy, Debug, PartialEq, Eq, Structural)]
pub enum ErrorKind {
    /// The request could not be sent or the response could not be received.
    Transport,
    /// A response body came that matches neither the expected shape nor the
    /// error shape.
    Decode,
    /// The service answered with an error body `{"message": ...}`.
    Api,
}

/// Error of an operation: its kind and a human-readable message.
#[derive(Clone, Debug)]
pub struct Error {
    pub kind: ErrorKind,
    pub message: String,
}

/// The message of a decode error.
pub open spec fn decode_message() -> Seq<char> {
    "response body matches neither the expected shape nor the error shape"@
}

impl Error {
    /// A transport error carrying `message`.
    pub fn transport(message: String) -> (r: Error)
        ensures
            r.kind == ErrorKind::Transport,
            r.message@ == message@,
    {
        Error { kind: ErrorKind::Transport, message }
    }

    /// An error reported by the service, with its message.
    pub fn api(message: String) -> (r: Error)
        ensures
            r.kind == ErrorKind::Api,
            r.message@ == message@,
    {
        Error { kind: ErrorKind::Api, message }
    }

    /// A decode error.
    pub fn decode() -> (r: Error)
        ensures
            r.kind == ErrorKind::Decode,
            r.message@ == decode_message(),
    {
        Error {
            kind: ErrorKind::Decode,
            message: String::from_str(
                "response body matches neither the expected shape nor the error shape",
            ),
        }
    }
}

} // verus!
