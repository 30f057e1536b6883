//! Requests and reply envelopes.
//!
//! Every call into the gateway is a [`Request`]: a command name and an
//! opaque parameter value. Every outcome leaves the gateway as a
//! [`Response`]: a tagged envelope that is exactly one of `Success` or
//! `Error`, each carrying a [`Subject`]. The enum shape itself guarantees
//! the envelope invariant: a reply never resolves to both or neither
//! variant.

use vstd::prelude::*;

verus! {

/// What an envelope's subject holds: text the gateway wrote itself
/// (protocol errors such as an unknown command), or data produced by a
/// handler and carried through opaquely.
#[derive(Debug, Clone, PartialEq)]
pub enum Subject {
    Text(String),
    Data(serde_json::Value),
}

/// The uniform reply envelope: exactly one of success or error.
#[derive(Debug, Clone, PartialEq)]
pub enum Response {
    Success(Subject),
    Error(Subject),
}

/// One call into the gateway: a command name and its opaque parameters.
#[derive(Debug, Clone)]
pub struct Request {
    pub command: String,
    pub params: serde_json::Value,
}

impl Response {
    /// An envelope is an error envelope exactly when it is the `Error`
    /// variant.
    pub open spec fn is_error(&self) -> bool {
        self matches Response::Error(_)
    }

    /// The subject carried by the envelope, whichever variant holds it.
    pub open spec fn spec_subject(&self) -> Subject {
        match *self {
            Response::Success(s) => s,
            Response::Error(s) => s,
        }
    }

    /// Returns the subject of the envelope.
    pub fn subject(&self) -> (r: &Subject)
        ensures
            *r == self.spec_subject(),
    {
        match self {
            Response::Success(s) => s,
            Response::Error(s) => s,
        }
    }
}

} // verus!
