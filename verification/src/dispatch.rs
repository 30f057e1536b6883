//! Command dispatch.
//!
//! The dispatcher maps a command name to a registered handler. The handler
//! table is populated once at startup and then only read. Dispatching a
//! request is split into the two decisions the gateway itself makes:
//!
//! * [`dispatch`] looks the command up. An unregistered name is rejected at
//!   once with an error envelope naming the command; the table is consulted
//!   for nothing beyond the lookup. A registered name yields the handler's
//!   index, and the caller runs that handler.
//! * [`finish_dispatch`] wraps the outcome of the handler stage in the
//!   uniform envelope: a decode failure or a handler failure becomes an
//!   `Error` envelope, a handler result a `Success` envelope. No outcome
//!   escapes as anything but an envelope.
//!
//! When parameter decoding fails the handler is never run: the caller
//! reaches [`finish_dispatch`] with [`CommandOutcome::BadParams`] instead
//! of invoking anything.

use vstd::prelude::*;
use vstd::string::StringExecFns;

use crate::envelope::{Request, Response, Subject};

verus! {

/// The message with which an unregistered command is rejected.
pub open spec fn unknown_command_text(command: Seq<char>) -> Seq<char> {
    "Command "@ + command + " not found!"@
}

/// The handler table: command names in registration order, each standing
/// for the handler the caller keeps at the same index.
pub struct CommandTable {
    names: Vec<String>,
}

/// What `dispatch` decides for one request: run the handler at an index,
/// or reject the request with a finished envelope.
pub enum Routing {
    Invoke(usize),
    Reject(Response),
}

/// The outcome of the handler stage for a routed request: the parameters
/// did not decode into the handler's expected shape, or the handler ran
/// and succeeded or failed.
pub enum CommandOutcome {
    BadParams(String),
    HandlerOk(serde_json::Value),
    HandlerFailed(String),
}

/// The envelope owed for each handler-stage outcome: failures become
/// `Error` envelopes, a handler result a `Success` envelope.
pub open spec fn reply_for_outcome(outcome: CommandOutcome) -> Response {
    match outcome {
        CommandOutcome::BadParams(m) => Response::Error(Subject::Text(m)),
        CommandOutcome::HandlerOk(v) => Response::Success(Subject::Data(v)),
        CommandOutcome::HandlerFailed(m) => Response::Error(Subject::Text(m)),
    }
}

impl CommandTable {
    /// The registered command names, as character sequences, in
    /// registration order.
    pub closed spec fn names_seq(&self) -> Seq<Seq<char>> {
        self.names@.map_values(|s: String| s@)
    }

    /// Whether a command name is registered.
    pub open spec fn spec_has(&self, command: Seq<char>) -> bool {
        self.names_seq().contains(command)
    }

    /// An empty table: nothing registered.
    pub fn new() -> (r: CommandTable)
        ensures
            r.names_seq() == Seq::<Seq<char>>::empty(),
    {
        let r = CommandTable { names: Vec::new() };
        proof {
            assert(r.names_seq() =~= Seq::<Seq<char>>::empty());
        }
        r
    }

    /// Registers one more command name. Names are appended in order; the
    /// caller keeps the matching handler at the same index.
    pub fn register(&mut self, name: String)
        ensures
            final(self).names_seq() == old(self).names_seq().push(name@),
    {
        let ghost before = self.names@;
        self.names.push(name);
        proof {
            assert(self.names_seq() =~= old(self).names_seq().push(name@));
        }
    }

    /// Number of registered names.
    pub fn len(&self) -> (r: usize)
        ensures
            r == self.names_seq().len(),
    {
        self.names.len()
    }

    /// Looks a command name up: the index of the matching entry, or `None`
    /// exactly when the name is not registered.
    pub fn lookup(&self, command: &String) -> (r: Option<usize>)
        ensures
            match r {
                Some(i) => i < self.names_seq().len() && self.names_seq()[i as int]
                    == command@,
                None => !self.spec_has(command@),
            },
    {
        let n = self.names.len();
        let mut i: usize = 0;
        while i < n
            invariant
                n == self.names_seq().len(),
                i <= n,
                forall|j: int| 0 <= j < i ==> self.names_seq()[j] != command@,
            decreases n - i,
        {
            if self.names[i] == *command {
                return Some(i);
            }
            i += 1;
        }
        None
    }
}

/// Builds the error message with which an unregistered command is
/// rejected, naming the offending command.
pub fn unknown_command_message(command: &String) -> (r: String)
    ensures
        r@ == unknown_command_text(command@),
{
    String::from_str("Command ").concat(command.as_str()).concat(" not found!")
}

/// Routes one request. A registered command yields the index of its
/// handler; an unregistered command is rejected with an error envelope
/// whose subject names the command. The table is consulted only for the
/// lookup.
pub fn dispatch(table: &CommandTable, request: &Request) -> (r: Routing)
    ensures
        table.spec_has(request.command@) ==> (r matches Routing::Invoke(i)
            && i < table.names_seq().len()
            && table.names_seq()[i as int] == request.command@),
        !table.spec_has(request.command@) ==> (r matches Routing::Reject(
            Response::Error(Subject::Text(m)),
        ) && m@ == unknown_command_text(request.command@)),
{
    match table.lookup(&request.command) {
        Some(i) => Routing::Invoke(i),
        None => {
            let message = unknown_command_message(&request.command);
            Routing::Reject(Response::Error(Subject::Text(message)))
        },
    }
}

/// Wraps the outcome of the handler stage in the uniform envelope. Every
/// outcome, success or failure, becomes an envelope: nothing escapes as a
/// transport-level fault.
pub fn finish_dispatch(outcome: CommandOutcome) -> (r: Response)
    ensures
        r == reply_for_outcome(outcome),
{
    match outcome {
        CommandOutcome::BadParams(m) => Response::Error(Subject::Text(m)),
        CommandOutcome::HandlerOk(v) => Response::Success(Subject::Data(v)),
        CommandOutcome::HandlerFailed(m) => Response::Error(Subject::Text(m)),
    }
}

/// A request whose parameters fail to decode is always answered with an
/// error envelope carrying the decode message; the handler is never
/// consulted for it, since the caller reaches the envelope stage with
/// `BadParams` instead of a handler outcome.
pub proof fn lemma_bad_params_rejected(m: String)
    ensures
        reply_for_outcome(CommandOutcome::BadParams(m)) == Response::Error(
            Subject::Text(m),
        ),
        reply_for_outcome(CommandOutcome::BadParams(m)).is_error(),
{
}

/// A success envelope arises from a handler result and from nothing else:
/// decode failures and handler failures always render as errors.
pub proof fn lemma_success_only_from_handler(outcome: CommandOutcome)
    ensures
        !reply_for_outcome(outcome).is_error() <==> outcome matches CommandOutcome::HandlerOk(_),
{
}

} // verus!
