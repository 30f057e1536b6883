use but_interface::error::Error;
use but_interface::wire::{UIMoveChangesResult, UserWithSecrets, Verification};

#[test]
fn watcher_start_failure_surfaces_as_handler_error() {
    let e = Error::WatcherStart("could not watch worktree".to_string());
    match e.surfaced() {
        Error::Handler(m) => assert_eq!(m, "could not watch worktree"),
        _ => panic!("a watcher start failure surfaces as a handler error"),
    }
}

#[test]
fn other_kinds_surface_unchanged() {
    let e = Error::Protocol("unknown command".to_string());
    assert!(matches!(e.surfaced(), Error::Protocol(_)));
    let e = Error::Handler("domain failed".to_string());
    assert!(matches!(e.surfaced(), Error::Handler(_)));
    let e = Error::Transport("socket closed".to_string());
    assert!(matches!(e.surfaced(), Error::Transport(_)));
}

#[test]
fn message_is_the_carried_text() {
    let e = Error::Transport("broken pipe".to_string());
    assert_eq!(e.message(), "broken pipe");
}

#[test]
fn default_verification_is_blank() {
    let v = Verification::default();
    assert_eq!(v.user_code, "");
    assert_eq!(v.device_code, "");
}

#[test]
fn move_changes_result_keeps_its_pairs() {
    let pairs = vec![("1111".to_string(), "2222".to_string())];
    let r = UIMoveChangesResult::new(pairs.clone());
    assert_eq!(r.replaced_commits, pairs);
}

#[test]
fn user_with_secrets_holds_plain_values() {
    let u = UserWithSecrets {
        id: 9,
        name: Some("Sam".to_string()),
        login: None,
        email: Some("sam@example.com".to_string()),
        picture: "https://example.com/p.png".to_string(),
        locale: None,
        created_at: "2024-01-01".to_string(),
        updated_at: "2024-01-02".to_string(),
        access_token: "tok".to_string(),
        role: None,
        github_access_token: None,
        github_username: Some("sam".to_string()),
    };
    assert_eq!(u.id, 9);
    assert_eq!(u.access_token, "tok");
}
