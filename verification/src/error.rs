//! The gateway's error taxonomy.
//!
//! Failures are sorted by where they arise: a protocol error (malformed
//! body, unknown command, parameter-shape mismatch), a handler error (an
//! invoked collaborator failed), a transport error (a socket read or
//! write failed), or a watcher start error. Protocol and handler errors
//! are rendered as error envelopes and never surface as a transport
//! fault; a transport error terminates only the affected session; a
//! watcher start error surfaces as a handler error to the activation
//! caller.

use vstd::prelude::*;

verus! {

/// A gateway failure, sorted by origin, carrying its display message.
#[derive(Debug, Clone)]
pub enum Error {
    Protocol(String),
    Handler(String),
    Transport(String),
    WatcherStart(String),
}

impl Error {
    /// The display message the error carries, whichever kind it is.
    pub open spec fn spec_message(&self) -> Seq<char> {
        match *self {
            Error::Protocol(m) => m@,
            Error::Handler(m) => m@,
            Error::Transport(m) => m@,
            Error::WatcherStart(m) => m@,
        }
    }

    /// Returns the error's display message.
    pub fn message(&self) -> (r: &String)
        ensures
            r@ == self.spec_message(),
    {
        match self {
            Error::Protocol(m) => m,
            Error::Handler(m) => m,
            Error::Transport(m) => m,
            Error::WatcherStart(m) => m,
        }
    }

    /// How the error reaches a dispatch caller: a watcher start failure
    /// surfaces as a handler error with the same message; every other
    /// kind is already what the caller sees.
    pub fn surfaced(self) -> (r: Error)
        ensures
            self matches Error::WatcherStart(m) ==> r == Error::Handler(m),
            !(self matches Error::WatcherStart(_)) ==> r == self,
            r.spec_message() == self.spec_message(),
    {
        match self {
            Error::WatcherStart(m) => Error::Handler(m),
            other => other,
        }
    }
}

} // verus!
