use std::cell::Cell;

use but_interface::broadcaster::EventPayload;
use but_interface::watcher::{ActiveProjects, Change, ProjectInfo, event_for_change};

#[test]
fn fetch_change_maps_to_fetch_topic_with_empty_payload() {
    let e = event_for_change(Change::GitFetch("42".to_string()));
    assert_eq!(e.name, "project://42/git/fetch");
    assert!(matches!(e.payload, EventPayload::Empty));
}

#[test]
fn head_change_maps_to_head_topic_with_head_payload() {
    let e = event_for_change(Change::GitHead {
        project_id: "42".to_string(),
        head: "refs/heads/main".to_string(),
        operating_mode: "OpenWorkspace".to_string(),
    });
    assert_eq!(e.name, "project://42/git/head");
    match e.payload {
        EventPayload::Head { head, operating_mode } => {
            assert_eq!(head, "refs/heads/main");
            assert_eq!(operating_mode, "OpenWorkspace");
        }
        _ => panic!("a head move carries the head payload"),
    }
}

#[test]
fn activity_change_maps_to_activity_topic() {
    let e = event_for_change(Change::GitActivity("p1".to_string()));
    assert_eq!(e.name, "project://p1/git/activity");
    assert!(matches!(e.payload, EventPayload::Empty));
}

#[test]
fn worktree_change_carries_its_data_through() {
    let changes = serde_json::Value::String("two files touched".to_string());
    let e = event_for_change(Change::WorktreeChanges {
        project_id: "p1".to_string(),
        changes: changes.clone(),
    });
    assert_eq!(e.name, "project://p1/worktree_changes");
    match e.payload {
        EventPayload::Data(v) => assert_eq!(v, changes),
        _ => panic!("a worktree change carries its data"),
    }
}

#[test]
fn two_sequential_activations_start_exactly_one_watcher() {
    let starts = Cell::new(0u32);
    let mut registry: ActiveProjects<u32> = ActiveProjects::new();
    let id = "p1".to_string();

    let first = registry.set_active(&id, || {
        starts.set(starts.get() + 1);
        Ok(11)
    });
    let second = registry.set_active(&id, || {
        starts.set(starts.get() + 1);
        Ok(12)
    });

    assert_eq!(first, Ok(true));
    assert_eq!(second, Ok(false));
    assert_eq!(starts.get(), 1, "exactly one watcher-start side effect for p1");
    assert!(registry.is_active(&id));
}

#[test]
fn two_callers_for_the_same_resource_record_one_start() {
    let starts = Cell::new(0u32);
    let mut registry: ActiveProjects<u32> = ActiveProjects::new();
    let id = "p1".to_string();
    for _caller in 0..2 {
        let r = registry.set_active(&id, || {
            starts.set(starts.get() + 1);
            Ok(1)
        });
        assert!(r.is_ok());
    }
    assert_eq!(starts.get(), 1, "exactly one watcher-start side effect is recorded");
}

#[test]
fn distinct_resources_each_get_a_watcher() {
    let starts = Cell::new(0u32);
    let mut registry: ActiveProjects<u32> = ActiveProjects::new();
    for id in ["p1", "p2", "p3"] {
        let r = registry.set_active(&id.to_string(), || {
            starts.set(starts.get() + 1);
            Ok(0)
        });
        assert_eq!(r, Ok(true));
    }
    assert_eq!(starts.get(), 3);
    assert!(registry.is_active(&"p2".to_string()));
    assert!(!registry.is_active(&"p4".to_string()));
}

#[test]
fn failed_start_leaves_no_partial_entry() {
    let mut registry: ActiveProjects<u32> = ActiveProjects::new();
    let id = "p1".to_string();

    let failed: Result<bool, String> =
        registry.set_active(&id, || Err("inotify limit reached".to_string()));
    assert_eq!(failed, Err("inotify limit reached".to_string()));
    assert!(!registry.is_active(&id), "a failed start records nothing");

    let retried = registry.set_active(&id, || Ok(5));
    assert_eq!(retried, Ok(true), "a later activation starts the watcher after all");
    assert!(registry.is_active(&id));
}

#[test]
fn exclusive_project_info_shape() {
    let info = ProjectInfo::exclusive();
    assert!(info.is_exclusive);
    assert!(info.db_error.is_none());
    assert!(info.headsup.is_none());
}
