use but_interface::broadcaster::EventPayload;
use but_interface::session::{
    SessionAction, SessionEvent, SessionPhase, fresh_connection_id, session_step,
};
use but_interface::watcher::{Change, event_for_change};

#[test]
fn open_session_relays_queued_events() {
    let e = event_for_change(Change::GitFetch("42".to_string()));
    let (phase, action) = session_step(SessionPhase::Open, SessionEvent::Queued(e));
    assert_eq!(phase, SessionPhase::Open);
    match action {
        SessionAction::Relay(out) => {
            assert_eq!(out.name, "project://42/git/fetch");
            assert!(matches!(out.payload, EventPayload::Empty));
        }
        _ => panic!("a queued event of an open session is relayed"),
    }
}

#[test]
fn uninterpreted_inbound_frames_are_ignored() {
    let (phase, action) = session_step(SessionPhase::Open, SessionEvent::OtherFrame);
    assert_eq!(phase, SessionPhase::Open);
    assert!(matches!(action, SessionAction::Continue));
}

#[test]
fn close_frame_ends_the_session() {
    let (phase, action) = session_step(SessionPhase::Open, SessionEvent::CloseFrame);
    assert_eq!(phase, SessionPhase::ShuttingDown);
    assert!(matches!(action, SessionAction::Shutdown));
}

#[test]
fn write_failure_is_terminal_not_retried() {
    let (phase, action) = session_step(SessionPhase::Open, SessionEvent::WriteFailed);
    assert_eq!(phase, SessionPhase::ShuttingDown);
    assert!(matches!(action, SessionAction::Shutdown));
}

#[test]
fn queue_closure_and_read_failure_end_the_session() {
    for event in [SessionEvent::QueueClosed, SessionEvent::ReadFailed] {
        let (phase, action) = session_step(SessionPhase::Open, event);
        assert_eq!(phase, SessionPhase::ShuttingDown);
        assert!(matches!(action, SessionAction::Shutdown));
    }
}

#[test]
fn shutdown_is_terminal_for_every_observation() {
    let events = [
        SessionEvent::Queued(event_for_change(Change::GitActivity("p".to_string()))),
        SessionEvent::QueueClosed,
        SessionEvent::CloseFrame,
        SessionEvent::OtherFrame,
        SessionEvent::WriteFailed,
        SessionEvent::ReadFailed,
    ];
    for event in events {
        let (phase, action) = session_step(SessionPhase::ShuttingDown, event);
        assert_eq!(phase, SessionPhase::ShuttingDown);
        assert!(matches!(action, SessionAction::Shutdown));
    }
}

#[test]
fn connection_ids_are_fresh_per_call() {
    let a = fresh_connection_id();
    let b = fresh_connection_id();
    assert_ne!(a, b);
}
