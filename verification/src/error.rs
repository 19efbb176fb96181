//! Typed error values carried by every failing operation.

use vstd::prelude::*;

verus! {

/// The kind of a failure, as coarse as callers need for dispatch.
#[derive(Clone, Copy, Debug, PartialEq, Eq, Structural)]
pub enum ErrorKind {
    /// The credential source is missing or malformed.
    InvalidConfig,
    /// The identity or catalog payload is malformed, or a required header is
    /// missing.
    InvalidResponse,
    /// The identity service rejected the credentials, or no credential is
    /// available.
    AuthenticationFailed,
    /// The catalog has no endpoint matching the request.
    EndpointNotFound,
    /// The transport failed (network error or timeout).
    Transport,
    /// An application error surfaced from an HTTP error response.
    Http,
}

/// The abstract value of an [`Error`].
pub struct ErrorView {
    pub kind: ErrorKind,
    pub message: Seq<char>,
    pub status: Option<u16>,
}

/// A classified failure: an error kind, a human-readable message, and, for
/// failures raised from an HTTP response, the original status code.
#[derive(Clone, Debug)]
pub struct Error {
    kind: ErrorKind,
    message: String,
    status: Option<u16>,
}

impl View for Error {
    type V = ErrorView;

    closed spec fn view(&self) -> ErrorView {
        ErrorView { kind: self.kind, message: self.message@, status: self.status }
    }
}

/// Whether a status code counts as an error response (client or server error).
pub open spec fn is_error_status(status: u16) -> bool {
    400 <= status < 600
}

/// The error kind that an HTTP error status maps to.
pub open spec fn kind_of_status(status: u16) -> ErrorKind {
    if status == 401 {
        ErrorKind::AuthenticationFailed
    } else {
        ErrorKind::Http
    }
}

impl Error {
    /// Construct an error with no status code attached.
    pub fn new(kind: ErrorKind, message: String) -> (r: Error)
        ensures
            r@ == (ErrorView { kind, message: message@, status: None }),
    {
        Error { kind, message, status: None }
    }

    /// Attach the HTTP status code that raised this error.
    pub fn with_status(self, status: u16) -> (r: Error)
        ensures
            r@ == (ErrorView { status: Some(status), ..self@ }),
    {
        Error { status: Some(status), ..self }
    }

    /// The kind of this error.
    pub fn kind(&self) -> (r: ErrorKind)
        ensures
            r == self@.kind,
    {
        self.kind
    }

    /// The extracted human-readable message.
    pub fn message(&self) -> (r: &String)
        ensures
            r@ == self@.message,
    {
        &self.message
    }

    /// The HTTP status code, where the error came from a response.
    pub fn status(&self) -> (r: Option<u16>)
        ensures
            r == self@.status,
    {
        self.status
    }
}

/// Map an HTTP error status to the error kind it surfaces as.
pub fn kind_for_status(status: u16) -> (r: ErrorKind)
    ensures
        r == kind_of_status(status),
{
    if status == 401 {
        ErrorKind::AuthenticationFailed
    } else {
        ErrorKind::Http
    }
}

} // verus!
