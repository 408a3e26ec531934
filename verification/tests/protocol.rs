use cmux_linux::dispatch::{
    dispatch_request, finish_delivery, Dispatch, Request, DEFAULT_SOCKET_PATH,
};
use cmux_linux::json::{Number, Value};
use cmux_linux::keys::translate_terminal_key;
use cmux_linux::model::AppModel;

fn object(pairs: Vec<(&str, Value)>) -> Value {
    Value::Object(
        pairs
            .into_iter()
            .map(|(key, value)| (key.to_string(), value))
            .collect(),
    )
}

fn none() -> Value {
    object(vec![])
}

fn request(method: &str, params: Value) -> Request {
    Request {
        id: Value::Number(Number::Unsigned(1)),
        method: method.to_string(),
        params: match params {
            Value::Object(entries) => entries,
            _ => Vec::new(),
        },
    }
}

fn send(model: &mut AppModel, method: &str, params: Value) -> Value {
    match dispatch_request(model, request(method, params)) {
        Dispatch::Answer(value) => value,
        Dispatch::Deliver { id, pending } => finish_delivery(model, id, pending, false),
    }
}

fn at<'a>(value: &'a Value, key: &str) -> &'a Value {
    value.get(key).unwrap_or_else(|| panic!("no {key} in {value:?}"))
}

fn text(value: &Value) -> String {
    value.as_str().expect("a text").to_string()
}

fn result_body(response: Value) -> Value {
    assert_eq!(at(&response, "ok").as_bool(), Some(true), "{response:?}");
    at(&response, "result").copy()
}

fn error_code(response: Value) -> String {
    assert_eq!(at(&response, "ok").as_bool(), Some(false));
    text(at(at(&response, "error"), "code"))
}

fn fresh() -> AppModel {
    AppModel::new(DEFAULT_SOCKET_PATH.to_string())
}

#[test]
fn capabilities_advertise_linux_multi_window_profile() {
    let mut model = fresh();
    let result = result_body(send(&mut model, "system.capabilities", none()));

    assert_eq!(text(at(at(&result, "platform"), "id")), "linux");
    assert_eq!(at(at(&result, "platform"), "window_multi").as_bool(), Some(true));
    assert!(at(&result, "methods")
        .as_array()
        .expect("methods")
        .iter()
        .any(|method| text(method) == "workspace.create"));
}

#[test]
fn workspace_create_does_not_steal_focus() {
    let mut model = fresh();
    let current = result_body(send(&mut model, "workspace.current", none()));
    let created = result_body(send(&mut model, "workspace.create", none()));
    let current_after = result_body(send(&mut model, "workspace.current", none()));

    assert_ne!(text(at(&created, "workspace_id")), text(at(&current, "workspace_id")));
    assert_eq!(text(at(&current_after, "workspace_id")), text(at(&current, "workspace_id")));
}

#[test]
fn surface_send_text_round_trip_reads_back_transcript() {
    let mut model = fresh();
    let current = result_body(send(&mut model, "surface.current", none()));
    let surface_id = at(&current, "surface_id");

    let _ = send(
        &mut model,
        "surface.send_text",
        object(vec![("surface_id", surface_id.copy()), ("text", Value::text("echo hi\n"))]),
    );
    let read = result_body(send(
        &mut model,
        "surface.read_text",
        object(vec![("surface_id", surface_id.copy())]),
    ));

    assert_eq!(text(at(&read, "text")), "echo hi\n");
}

#[test]
fn unsupported_browser_method_returns_not_supported() {
    let mut model = fresh();
    let response = send(&mut model, "browser.navigate", none());
    assert_eq!(error_code(response), "not_supported");
}

#[test]
fn surface_split_keeps_current_focus_context() {
    let mut model = fresh();
    let current_before = result_body(send(&mut model, "surface.current", none()));
    let created = result_body(send(
        &mut model,
        "surface.split",
        object(vec![("direction", Value::text("right"))]),
    ));
    let current_after = result_body(send(&mut model, "surface.current", none()));

    assert_ne!(text(at(&created, "surface_id")), text(at(&current_before, "surface_id")));
    assert_eq!(text(at(&current_after, "surface_id")), text(at(&current_before, "surface_id")));
}

#[test]
fn workspace_rename_updates_workspace_title() {
    let mut model = fresh();
    let created = result_body(send(&mut model, "workspace.create", none()));
    let workspace_id = text(at(&created, "workspace_id"));

    let _ = send(
        &mut model,
        "workspace.rename",
        object(vec![
            ("workspace_id", Value::text(&workspace_id)),
            ("title", Value::text("Renamed Workspace")),
        ]),
    );
    let listed = result_body(send(&mut model, "workspace.list", none()));

    let row = at(&listed, "workspaces")
        .as_array()
        .expect("workspaces")
        .iter()
        .find(|row| text(at(row, "id")) == workspace_id)
        .expect("workspace row");
    assert_eq!(text(at(row, "title")), "Renamed Workspace");
}

#[test]
fn workspace_reorder_moves_workspace_before_anchor() {
    let mut model = fresh();
    let current = result_body(send(&mut model, "workspace.current", none()));
    let first_id = text(at(&current, "workspace_id"));
    let created = result_body(send(&mut model, "workspace.create", none()));
    let second_id = text(at(&created, "workspace_id"));

    let _ = send(
        &mut model,
        "workspace.reorder",
        object(vec![
            ("workspace_id", Value::text(&second_id)),
            ("before_workspace_id", Value::text(&first_id)),
        ]),
    );
    let listed = result_body(send(&mut model, "workspace.list", none()));
    let ids = at(&listed, "workspaces")
        .as_array()
        .expect("workspaces")
        .iter()
        .map(|row| text(at(row, "id")))
        .collect::<Vec<_>>();

    assert_eq!(ids.first(), Some(&second_id));
}

#[test]
fn surface_move_and_reorder_keep_stable_surface_ids() {
    let mut model = fresh();
    let split = result_body(send(
        &mut model,
        "surface.split",
        object(vec![("direction", Value::text("right"))]),
    ));
    let split_surface_id = text(at(&split, "surface_id"));
    let created = result_body(send(&mut model, "surface.create", none()));
    let created_surface_id = text(at(&created, "surface_id"));

    let panes = result_body(send(&mut model, "pane.list", none()));
    let pane_rows = at(&panes, "panes").as_array().expect("panes");
    assert!(pane_rows.len() >= 2);
    let destination_pane_id = text(at(&pane_rows[0], "id"));

    let _ = send(
        &mut model,
        "surface.move",
        object(vec![
            ("surface_id", Value::text(&created_surface_id)),
            ("pane_id", Value::text(&destination_pane_id)),
            ("focus", Value::Bool(false)),
        ]),
    );
    let moved = result_body(send(
        &mut model,
        "pane.surfaces",
        object(vec![("pane_id", Value::text(&destination_pane_id))]),
    ));
    let ids_after_move = at(&moved, "surfaces")
        .as_array()
        .expect("surfaces")
        .iter()
        .map(|row| text(at(row, "id")))
        .collect::<Vec<_>>();
    assert!(ids_after_move.iter().any(|id| *id == created_surface_id));

    let _ = send(
        &mut model,
        "surface.reorder",
        object(vec![
            ("surface_id", Value::text(&created_surface_id)),
            ("before_surface_id", Value::text(&split_surface_id)),
        ]),
    );
    let reordered = result_body(send(
        &mut model,
        "pane.surfaces",
        object(vec![("pane_id", Value::text(&destination_pane_id))]),
    ));
    let ids_after_reorder = at(&reordered, "surfaces")
        .as_array()
        .expect("surfaces")
        .iter()
        .map(|row| text(at(row, "id")))
        .collect::<Vec<_>>();

    assert_eq!(ids_after_reorder.first(), Some(&created_surface_id));
    assert!(ids_after_reorder.iter().any(|id| *id == split_surface_id));
}

#[test]
fn translate_terminal_key_supports_common_terminal_sequences() {
    assert_eq!(translate_terminal_key("ctrl-c").unwrap(), "\u{3}");
    assert_eq!(translate_terminal_key("ctrl-d").unwrap(), "\u{4}");
    assert_eq!(translate_terminal_key("up").unwrap(), "\u{1b}[A");
    assert_eq!(translate_terminal_key("page_down").unwrap(), "\u{1b}[6~");
    assert_eq!(translate_terminal_key("f5").unwrap(), "\u{1b}[15~");
    assert_eq!(translate_terminal_key("alt-x").unwrap(), "\u{1b}x");
    assert_eq!(translate_terminal_key("shift-tab").unwrap(), "\u{1b}[Z");
}

#[test]
fn translate_terminal_key_rejects_unknown_keys() {
    assert!(translate_terminal_key("ctrl-enter").is_err());
    assert!(translate_terminal_key("alt-left").is_err());
    assert!(translate_terminal_key("hyper-k").is_err());
}
