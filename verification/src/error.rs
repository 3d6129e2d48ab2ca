//! Failures: what the store reports, and what a caller of the service sees.

use vstd::prelude::*;

verus! {

/// How a call to the link store failed.
#[derive(Clone, Copy, Debug, PartialEq, Eq, Structural)]
pub enum StoreErrorKind {
    /// The row would have repeated an identifier that the store already holds:
    /// a collision, which a creation expects and answers with another attempt.
    Conflict,
    /// The statement matched no row where it had to return one.
    RowNotFound,
    /// The call did not complete within its deadline.
    Timeout,
    /// Any other failure of the store or of the way to it.
    Other,
}

/// A failed call to the link store, with the cause in words for the log.
#[derive(Debug, PartialEq, Eq)]
pub struct StoreError {
    pub kind: StoreErrorKind,
    pub cause: String,
}

/// The classes of failure that a caller of the service can be told of.
#[derive(Clone, Copy, Debug, PartialEq, Eq, Structural)]
pub enum ErrorKind {
    /// The target URL is malformed.
    InvalidInput,
    /// The request did not carry the right key.
    Unauthorized,
    /// No link has the given identifier.
    NotFound,
    /// Every attempt to find a free identifier met a collision.
    ResourceExhausted,
    /// Any other failure of a call to the store, a missed deadline included.
    InternalError,
}

/// A failed request: its class, and the detail that belongs in the server's
/// log and is never sent to the client.
#[derive(Debug, PartialEq, Eq)]
pub struct ApiError {
    pub kind: ErrorKind,
    pub detail: String,
}

/// The HTTP status that stands for a class of failure.
pub open spec fn status_of(kind: ErrorKind) -> int {
    match kind {
        ErrorKind::InvalidInput => 400,
        ErrorKind::Unauthorized => 401,
        ErrorKind::NotFound => 404,
        ErrorKind::ResourceExhausted => 500,
        ErrorKind::InternalError => 500,
    }
}

/// The short text sent to the client for a class of failure. Every failure on
/// the server's side reads the same, whatever its cause.
pub open spec fn message_of(kind: ErrorKind) -> Seq<char> {
    match kind {
        ErrorKind::InvalidInput => "Malformed url"@,
        ErrorKind::Unauthorized => "Unauthorized"@,
        ErrorKind::NotFound => "Not found"@,
        ErrorKind::ResourceExhausted => "Internal server error"@,
        ErrorKind::InternalError => "Internal server error"@,
    }
}

impl ApiError {
    /// A failure of the given class with nothing to add for the log.
    pub fn new(kind: ErrorKind) -> (error: ApiError)
        ensures
            error.kind == kind,
            error.detail@ == Seq::<char>::empty(),
    {
        ApiError { kind, detail: String::new() }
    }

    /// The HTTP status to answer with.
    pub fn status(&self) -> (status: u16)
        ensures
            status == status_of(self.kind),
    {
        match self.kind {
            ErrorKind::InvalidInput => 400,
            ErrorKind::Unauthorized => 401,
            ErrorKind::NotFound => 404,
            ErrorKind::ResourceExhausted => 500,
            ErrorKind::InternalError => 500,
        }
    }

    /// The text to answer with.
    pub fn message(&self) -> (message: &'static str)
        ensures
            message@ == message_of(self.kind),
    {
        match self.kind {
            ErrorKind::InvalidInput => "Malformed url",
            ErrorKind::Unauthorized => "Unauthorized",
            ErrorKind::NotFound => "Not found",
            ErrorKind::ResourceExhausted => "Internal server error",
            ErrorKind::InternalError => "Internal server error",
        }
    }
}

} // verus!
