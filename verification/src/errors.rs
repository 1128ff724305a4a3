//! Error kinds of the link subsystem and their translation to HTTP
//! status codes at the service boundary.

use vstd::prelude::*;

verus! {

/// The three failure kinds the core can surface: a code with no matching
/// link, a requested code that is already taken, and an unreachable or
/// failing backing store.
#[derive(Clone, Copy, PartialEq, Eq, Structural, Debug)]
pub enum LinkError {
    NotFound,
    Conflict,
    StorageUnavailable,
}

impl LinkError {
    /// The HTTP status code each error kind is translated to at the
    /// boundary: 404 for a missing link, 409 for a taken code, and a
    /// generic 500 for storage failures.
    pub fn status(&self) -> (s: u16)
        ensures
            s == self.spec_status(),
    {
        match self {
            LinkError::NotFound => 404,
            LinkError::Conflict => 409,
            LinkError::StorageUnavailable => 500,
        }
    }

    pub open spec fn spec_status(self) -> u16 {
        match self {
            LinkError::NotFound => 404u16,
            LinkError::Conflict => 409u16,
            LinkError::StorageUnavailable => 500u16,
        }
    }

    /// The safe, client-facing message of each error kind. Storage
    /// failures are reduced to a generic message that leaks no internal
    /// detail.
    pub open spec fn spec_message(self) -> Seq<char> {
        match self {
            LinkError::NotFound => "Link not found."@,
            LinkError::Conflict => "Code already in use."@,
            LinkError::StorageUnavailable => "DB error"@,
        }
    }
}

/// A client-facing error body: the HTTP status code and a safe message.
#[derive(Debug)]
pub struct ErrorMessage {
    pub code: u16,
    pub msg: String,
}

impl ErrorMessage {
    pub fn new(code: u16, msg: &str) -> (r: ErrorMessage)
        ensures
            r.code == code,
            r.msg@ == msg@,
    {
        ErrorMessage { code, msg: msg.to_owned() }
    }

    /// The one mapping from the core's error kinds to a response body
    /// at the HTTP boundary.
    pub fn from_error(e: &LinkError) -> (r: ErrorMessage)
        ensures
            r.code == e.spec_status(),
            r.msg@ == e.spec_message(),
    {
        match e {
            LinkError::NotFound => ErrorMessage::new(404, "Link not found."),
            LinkError::Conflict => ErrorMessage::new(409, "Code already in use."),
            LinkError::StorageUnavailable => ErrorMessage::new(500, "DB error"),
        }
    }
}

} // verus!
