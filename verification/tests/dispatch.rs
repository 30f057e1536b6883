use but_interface::dispatch::{CommandOutcome, CommandTable, Routing, dispatch, finish_dispatch, unknown_command_message};
use but_interface::envelope::{Request, Response, Subject};

fn empty_object() -> serde_json::Value {
    serde_json::Value::Object(serde_json::Map::new())
}

#[test]
fn unknown_command_gets_error_envelope() {
    let mut table = CommandTable::new();
    table.register("get_user".to_string());
    table.register("git_head".to_string());
    let request = Request { command: "unknown_x".to_string(), params: empty_object() };
    match dispatch(&table, &request) {
        Routing::Reject(Response::Error(Subject::Text(m))) => {
            assert_eq!(m, "Command unknown_x not found!");
        }
        _ => panic!("an unregistered command must be rejected with an error envelope"),
    }
}

#[test]
fn unknown_command_on_empty_table() {
    let table = CommandTable::new();
    let request = Request { command: "git_head".to_string(), params: empty_object() };
    match dispatch(&table, &request) {
        Routing::Reject(Response::Error(Subject::Text(m))) => {
            assert_eq!(m, "Command git_head not found!");
        }
        _ => panic!("an empty table rejects everything"),
    }
}

#[test]
fn registered_command_is_routed_to_its_index() {
    let mut table = CommandTable::new();
    table.register("get_user".to_string());
    table.register("set_user".to_string());
    table.register("git_head".to_string());
    assert_eq!(table.len(), 3);
    let request = Request { command: "set_user".to_string(), params: empty_object() };
    match dispatch(&table, &request) {
        Routing::Invoke(i) => assert_eq!(i, 1),
        Routing::Reject(_) => panic!("a registered command must be routed"),
    }
}

#[test]
fn unknown_command_message_names_the_command() {
    let m = unknown_command_message(&"frobnicate".to_string());
    assert_eq!(m, "Command frobnicate not found!");
}

#[test]
fn bad_params_render_as_error_envelope() {
    let reply = finish_dispatch(CommandOutcome::BadParams("invalid type: string".to_string()));
    match reply {
        Response::Error(Subject::Text(m)) => assert_eq!(m, "invalid type: string"),
        _ => panic!("a decode failure must render as an error envelope"),
    }
}

#[test]
fn handler_result_renders_as_success_envelope() {
    let value = serde_json::Value::String("refs/heads/main".to_string());
    let reply = finish_dispatch(CommandOutcome::HandlerOk(value.clone()));
    match reply {
        Response::Success(Subject::Data(v)) => assert_eq!(v, value),
        _ => panic!("a handler result must render as a success envelope"),
    }
}

#[test]
fn handler_failure_renders_as_error_envelope() {
    let reply = finish_dispatch(CommandOutcome::HandlerFailed("repository is gone".to_string()));
    match reply {
        Response::Error(Subject::Text(m)) => assert_eq!(m, "repository is gone"),
        _ => panic!("a handler failure must render as an error envelope"),
    }
}

#[test]
fn lookup_misses_and_hits() {
    let mut table = CommandTable::new();
    table.register("list_branches".to_string());
    assert_eq!(table.lookup(&"list_branches".to_string()), Some(0));
    assert_eq!(table.lookup(&"list_branch".to_string()), None);
    assert_eq!(table.lookup(&"".to_string()), None);
}
