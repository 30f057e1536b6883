//! The per-connection session.
//!
//! A WebSocket session registers a fresh connection id with the hub, then
//! runs two concurrently scheduled activities: a relay that dequeues
//! outbound events and writes them to the socket, and a receive loop that
//! reads inbound frames only to detect close and control signals. When
//! either activity ends, the other is cancelled, the connection id is
//! deregistered and the socket is released.
//!
//! The decisions of those loops are gathered here as a state machine:
//! [`session_step`] maps the current phase and one observed event to the
//! next phase and the action owed for it. The surrounding tasks perform
//! the actions (write a frame, shut the session down) and feed the next
//! event back in.

use vstd::prelude::*;

use crate::broadcaster::FrontendEvent;

verus! {

/// Relies on `uuid::Uuid::new_v4` and `uuid::Uuid::as_u128`: a freshly
/// generated random identifier, returned as its 128-bit value. The result
/// is random; nothing is promised of it, and in particular two calls may
/// or may not collide.
#[verifier::external_body]
pub fn fresh_connection_id() -> u128 {
    uuid::Uuid::new_v4().as_u128()
}

/// The phase of a session: open and relaying, or shutting down. Shutting
/// down is terminal: the connection id must be deregistered and the
/// socket released.
#[derive(Debug, Clone, Copy, PartialEq, Eq, Structural)]
pub enum SessionPhase {
    Open,
    ShuttingDown,
}

/// One observation made by either session activity: an event dequeued
/// from the outbound queue, the queue closing, an inbound close frame, an
/// inbound frame that carries nothing to interpret, a socket write
/// failure, or a socket read failure.
pub enum SessionEvent {
    Queued(FrontendEvent),
    QueueClosed,
    CloseFrame,
    OtherFrame,
    WriteFailed,
    ReadFailed,
}

/// The action owed for one step: write this event to the socket, do
/// nothing and keep going, or shut the session down (cancel the sibling
/// activity, deregister, release the socket).
pub enum SessionAction {
    Relay(FrontendEvent),
    Continue,
    Shutdown,
}

/// What each step decides. An open session relays queued events and
/// ignores uninterpreted inbound frames; the queue closing, an inbound
/// close frame or either socket failure ends it. A write failure on a
/// half-open socket is terminal, never retried. Once shutting down,
/// every further observation keeps the session shutting down.
pub open spec fn step_spec(phase: SessionPhase, event: SessionEvent) -> (
    SessionPhase,
    SessionAction,
) {
    match phase {
        SessionPhase::Open => match event {
            SessionEvent::Queued(e) => (SessionPhase::Open, SessionAction::Relay(e)),
            SessionEvent::OtherFrame => (SessionPhase::Open, SessionAction::Continue),
            SessionEvent::QueueClosed => (
                SessionPhase::ShuttingDown,
                SessionAction::Shutdown,
            ),
            SessionEvent::CloseFrame => (
                SessionPhase::ShuttingDown,
                SessionAction::Shutdown,
            ),
            SessionEvent::WriteFailed => (
                SessionPhase::ShuttingDown,
                SessionAction::Shutdown,
            ),
            SessionEvent::ReadFailed => (
                SessionPhase::ShuttingDown,
                SessionAction::Shutdown,
            ),
        },
        SessionPhase::ShuttingDown => (SessionPhase::ShuttingDown, SessionAction::Shutdown),
    }
}

/// Advances a session by one observed event, returning the next phase
/// and the action owed for it. The mapping is exhaustive over the
/// observation set, relays every queued event of an open session
/// unchanged, and never leaves the shutting-down phase once it is
/// entered.
pub fn session_step(phase: SessionPhase, event: SessionEvent) -> (r: (
    SessionPhase,
    SessionAction,
))
    ensures
        r == step_spec(phase, event),
        phase == SessionPhase::ShuttingDown ==> r.0 == SessionPhase::ShuttingDown,
{
    match phase {
        SessionPhase::Open => match event {
            SessionEvent::Queued(e) => (SessionPhase::Open, SessionAction::Relay(e)),
            SessionEvent::OtherFrame => (SessionPhase::Open, SessionAction::Continue),
            SessionEvent::QueueClosed => (
                SessionPhase::ShuttingDown,
                SessionAction::Shutdown,
            ),
            SessionEvent::CloseFrame => (
                SessionPhase::ShuttingDown,
                SessionAction::Shutdown,
            ),
            SessionEvent::WriteFailed => (
                SessionPhase::ShuttingDown,
                SessionAction::Shutdown,
            ),
            SessionEvent::ReadFailed => (
                SessionPhase::ShuttingDown,
                SessionAction::Shutdown,
            ),
        },
        SessionPhase::ShuttingDown => (SessionPhase::ShuttingDown, SessionAction::Shutdown),
    }
}

/// Shutdown is stable: from the shutting-down phase no sequence of
/// observations reopens the session, and the owed action is always the
/// shutdown itself.
pub proof fn lemma_shutdown_terminal(event: SessionEvent)
    ensures
        step_spec(SessionPhase::ShuttingDown, event).0 == SessionPhase::ShuttingDown,
        step_spec(SessionPhase::ShuttingDown, event).1 == SessionAction::Shutdown,
{
}

} // verus!
