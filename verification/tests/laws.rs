use cmux_linux::actions::AppAction;
use cmux_linux::dispatch::{
    dispatch_request, encode_response, finish_delivery, handle_request, has_room_for, respond,
    try_handle_request, Dispatch, Request, DEFAULT_SOCKET_PATH,
};
use cmux_linux::ids::NIL;
use cmux_linux::json::{Number, Value};
use cmux_linux::layout::{SplitOrientation, WorkspaceLayout};
use cmux_linux::model::AppModel;
use cmux_linux::registry::HandleKind;
use cmux_linux::reply::MethodError;
use cmux_linux::state::AppState;
use cmux_linux::terminal::{TerminalBridge, TerminalCommand};

fn entries(pairs: Vec<(&str, Value)>) -> Vec<(String, Value)> {
    pairs.into_iter().map(|(key, value)| (key.to_string(), value)).collect()
}

fn ask(model: &mut AppModel, method: &str, pairs: Vec<(&str, Value)>) -> Value {
    let request = Request {
        id: Value::Number(Number::Unsigned(7)),
        method: method.to_string(),
        params: entries(pairs),
    };
    match dispatch_request(model, request) {
        Dispatch::Answer(value) => value,
        Dispatch::Deliver { id, pending } => finish_delivery(model, id, pending, true),
    }
}

fn part<'a>(value: &'a Value, key: &str) -> &'a Value {
    value.get(key).unwrap_or_else(|| panic!("no {key} in {value:?}"))
}

fn word(value: &Value) -> String {
    value.as_str().unwrap_or_else(|| panic!("no text: {value:?}")).to_string()
}

fn answer(model: &mut AppModel, method: &str, pairs: Vec<(&str, Value)>) -> Value {
    let response = ask(model, method, pairs);
    assert_eq!(part(&response, "ok").as_bool(), Some(true), "{response:?}");
    part(&response, "result").copy()
}

fn refusal(model: &mut AppModel, method: &str, pairs: Vec<(&str, Value)>) -> (String, String) {
    let response = ask(model, method, pairs);
    assert_eq!(part(&response, "ok").as_bool(), Some(false), "{response:?}");
    let error = part(&response, "error");
    (word(part(error, "code")), word(part(error, "message")))
}

fn model() -> AppModel {
    AppModel::new(DEFAULT_SOCKET_PATH.to_string())
}

fn places(state: &AppState, surface_id: u128) -> usize {
    state
        .workspaces
        .iter()
        .flat_map(|workspace| &workspace.panes)
        .flat_map(|pane| &pane.surfaces)
        .filter(|surface| surface.id == surface_id)
        .count()
}

fn focus(state: &AppState) -> (u128, u128, Option<u128>) {
    (
        state.window_id,
        state.selected_workspace_id,
        state.selected_workspace().and_then(|workspace| workspace.selected_surface_id()),
    )
}

fn check_sound(state: &AppState) {
    assert!(!state.windows.is_empty());
    let window = state.window(state.window_id).expect("current window");
    assert_eq!(window.selected_workspace_id, state.selected_workspace_id);
    for window in &state.windows {
        let shown = state.workspace(window.selected_workspace_id).expect("shown workspace");
        assert_eq!(shown.window_id, window.id);
    }
    for workspace in &state.workspaces {
        assert!(state.window(workspace.window_id).is_some());
        let mut leaves = Vec::new();
        workspace.layout.collect_pane_ids(&mut leaves);
        assert_eq!(leaves.len(), workspace.panes.len());
        assert!(workspace.panes.iter().all(|pane| leaves.contains(&pane.id)));
        assert!(leaves.contains(&workspace.selected_pane_id));
        for pane in &workspace.panes {
            assert!(pane.surfaces.iter().any(|surface| surface.id == pane.selected_surface_id));
            for surface in &pane.surfaces {
                assert_eq!(places(state, surface.id), 1);
            }
        }
    }
}

#[test]
fn every_change_keeps_the_state_sound() {
    let mut state = AppState::new();
    check_sound(&state);
    for action in [
        AppAction::SplitRight,
        AppAction::SplitDown,
        AppAction::SurfaceNew,
        AppAction::WorkspaceNew,
        AppAction::WindowNew,
        AppAction::SurfaceNew,
        AppAction::WorkspaceNext,
        AppAction::WorkspacePrevious,
        AppAction::WorkspaceLast,
        AppAction::PaneFocusLeft,
        AppAction::PaneFocusRight,
        AppAction::PaneFocusUp,
        AppAction::PaneFocusDown,
        AppAction::PaneLast,
        AppAction::SurfaceNext,
        AppAction::SurfacePrevious,
        AppAction::SurfaceClose,
        AppAction::SurfaceClose,
        AppAction::WindowClose,
        AppAction::WorkspaceClose,
        AppAction::WorkspaceClose,
        AppAction::WorkspaceClose,
        AppAction::WindowClose,
    ] {
        state.run_action(action);
        check_sound(&state);
    }
}

#[test]
fn only_what_makes_something_needs_room() {
    let mut model = model();
    model.state.next_workspace_title_number = usize::MAX;
    assert!(!model.state.has_room());
    let pong = answer(&mut model, "system.ping", vec![]);
    assert_eq!(part(&pong, "pong").as_bool(), Some(true));
    assert!(!has_room_for(&model, "workspace.create", &vec![]));
    assert!(has_room_for(&model, "workspace.list", &vec![]));
    assert!(has_room_for(&model, "surface.create", &vec![]));
    assert!(!model.state.can_number(AppAction::WorkspaceNew));
    assert!(model.state.can_number(AppAction::SplitDown));
    let _ = answer(&mut model, "surface.create", vec![]);
    model.state.run_action(AppAction::SplitDown);
    model.state.run_action(AppAction::PaneLast);
    check_sound(&model.state);
    model.state.next_surface_title_number = usize::MAX;
    assert!(!has_room_for(&model, "surface.create", &vec![]));
    assert!(!model.state.can_number(AppAction::SplitDown));
    assert!(model.state.can_number(AppAction::PaneLast));
}

fn keys(combo: &str) -> Vec<(String, Value)> {
    entries(vec![("combo", Value::text(combo))])
}

fn press(model: &mut AppModel, combo: &str) -> Option<Value> {
    let request = Request {
        id: Value::Null,
        method: "debug.shortcut.simulate".to_string(),
        params: keys(combo),
    };
    match try_handle_request(model, Ok(request)) {
        None => None,
        Some(Dispatch::Answer(value)) => Some(value),
        Some(Dispatch::Deliver { .. }) => panic!("{combo} notified"),
    }
}

#[test]
fn only_keys_that_make_something_need_room() {
    let simulate = "debug.shortcut.simulate";
    let mut model = model();
    model.state.next_workspace_title_number = usize::MAX;
    for combo in ["cmd+b", "CMD+T", "cmd+p", "enter", "Return", "cmd+x"] {
        assert!(has_room_for(&model, simulate, &keys(combo)));
    }
    assert!(has_room_for(&model, simulate, &vec![]));
    assert!(press(&mut model, "cmd+t").is_some());
    model.state.next_surface_title_number = usize::MAX;
    assert!(!has_room_for(&model, simulate, &keys("Cmd+T")));
    assert!(press(&mut model, "command+t").is_none());
    assert!(press(&mut model, "cmd+b").is_some());
    assert!(has_room_for(&model, simulate, &keys("enter")));

    for (query, has_room) in [
        ("New Window", false),
        ("New Workspace", false),
        ("Split Right", false),
        ("Next Workspace", true),
        ("Clear Terminal", true),
    ] {
        let opened = press(&mut model, "cmd+shift+p").expect("the palette opens");
        assert_eq!(part(&opened, "ok").as_bool(), Some(true));
        let _ = answer(&mut model, "debug.type", vec![("text", Value::text(query))]);
        assert_eq!(has_room_for(&model, simulate, &keys("Enter")), has_room, "{query}");
        let windows = model.state.windows.len();
        match press(&mut model, "enter") {
            Some(response) => {
                assert!(has_room);
                assert_eq!(part(&response, "ok").as_bool(), Some(true), "{response:?}");
            }
            None => {
                assert!(!has_room);
                let closed = press(&mut model, "cmd+shift+p").expect("the palette closes");
                assert_eq!(part(&closed, "ok").as_bool(), Some(true));
            }
        }
        assert_eq!(model.state.windows.len(), windows);
    }
    let refused = try_handle_request(&mut model, Err("EOF".to_string()));
    assert!(matches!(refused, Some(Dispatch::Answer(_))));
}

fn listed_panes(model: &mut AppModel) -> Vec<(String, u64)> {
    let panes = answer(model, "pane.list", vec![]);
    part(&panes, "panes")
        .as_array()
        .expect("panes")
        .iter()
        .map(|row| match part(row, "index") {
            Value::Number(Number::Unsigned(index)) => (word(part(row, "id")), *index),
            other => panic!("{other:?}"),
        })
        .collect()
}

fn split(model: &mut AppModel, direction: &str) -> String {
    let made = answer(model, "surface.split", vec![("direction", Value::text(direction))]);
    word(part(&made, "pane_id"))
}

#[test]
fn panes_are_listed_in_the_order_of_the_layout() {
    for (direction, new_is_first) in [("left", true), ("up", true), ("down", false)] {
        let mut model = model();
        let old = listed_panes(&mut model)[0].0.clone();
        let new = split(&mut model, direction);
        let (one, other) = if new_is_first { (new, old) } else { (old, new) };
        assert_eq!(listed_panes(&mut model), vec![(one, 0), (other, 1)], "{direction}");
    }
    let mut model = model();
    let old = listed_panes(&mut model)[0].0.clone();
    let right = split(&mut model, "right");
    assert_eq!(listed_panes(&mut model), vec![(right, 1), (old, 0)]);
    let _ = split(&mut model, "right");
    let rows = listed_panes(&mut model);
    let mut leaves = Vec::new();
    let workspace = model.state.selected_workspace().expect("a workspace");
    workspace.layout.collect_pane_ids(&mut leaves);
    let named: Vec<(String, u64)> = leaves
        .iter()
        .enumerate()
        .map(|(at, id)| (Value::id(*id).as_str().expect("an identifier").to_string(), at as u64))
        .collect();
    assert_eq!(rows, named);
}

#[test]
fn requests_keep_the_state_sound() {
    let mut model = model();
    let current = answer(&mut model, "surface.current", vec![]);
    let surface = || part(&current, "surface_id").copy();
    for (method, pairs) in [
        ("window.create", vec![]),
        ("workspace.create", vec![]),
        ("surface.split", vec![("surface_id", surface()), ("direction", Value::text("right"))]),
        ("pane.create", vec![("direction", Value::text("Down"))]),
        ("surface.create", vec![]),
        ("surface.move", vec![("surface_id", surface()), ("index", Value::number(0))]),
        ("pane.break", vec![("surface_id", surface())]),
        ("workspace.next", vec![]),
        ("workspace.last", vec![]),
        ("pane.last", vec![]),
        ("surface.close", vec![("surface_id", surface())]),
        ("window.close", vec![("window_id", Value::text("window:1"))]),
    ] {
        let _ = ask(&mut model, method, pairs);
        check_sound(&model.state);
    }
}

#[test]
fn surfaces_move_and_are_not_lost() {
    let mut state = AppState::new();
    let (workspace_id, pane_id, surface_id) =
        state.split_selected_pane(SplitOrientation::Horizontal, false).expect("pane");
    let other = state.workspaces[0].panes.iter().find(|pane| pane.id != pane_id).expect("pane").id;
    state.move_surface_to_pane(surface_id, workspace_id, other, 0, true).expect("moved");
    assert_eq!(places(&state, surface_id), 1);
    assert_eq!(state.workspaces[0].panes.len(), 1);
    assert_eq!(state.workspaces[0].panes[0].surfaces[0].id, surface_id);
    let broken = state.break_surface_to_workspace(surface_id, false).expect("workspace");
    assert_eq!(places(&state, surface_id), 1);
    assert_eq!(state.locate_surface(surface_id).map(|(workspace, _)| workspace), Some(broken));
    assert!(state.close_surface(broken, surface_id).is_err());
    state.move_surface_to_pane(surface_id, workspace_id, other, 9, false).expect("moved");
    assert_eq!(state.workspace(workspace_id).expect("kept").panes[0].surfaces[1].id, surface_id);
    state.close_surface(workspace_id, surface_id).expect("closed");
    assert_eq!(places(&state, surface_id), 0);
    check_sound(&state);
}

#[test]
fn snapshot_comes_back() {
    let mut state = AppState::new();
    state.split_selected_pane(SplitOrientation::Vertical, true).expect("pane");
    state.create_window_with_focus(true);
    let surface_id = state.workspaces[0].panes[0].surfaces[0].id;
    state.replace_terminal_text(surface_id, "kept\n".to_string()).expect("text");
    state.create_notification(
        state.workspaces[0].id,
        Some(surface_id),
        "t".to_string(),
        "s".to_string(),
        "b".to_string(),
        true,
    )
    .expect("notification");
    let back = AppState::from_persistent_snapshot(state.to_persistent_snapshot()).expect("state");
    assert_eq!(back.windows.len(), 2);
    assert_eq!(back.window_id, state.window_id);
    assert_eq!(back.selected_workspace_id, state.selected_workspace_id);
    assert_eq!(back.workspaces.len(), state.workspaces.len());
    for (after, before) in back.workspaces.iter().zip(&state.workspaces) {
        assert_eq!((after.id, &after.title), (before.id, &before.title));
        assert_eq!(after.selected_pane_id, before.selected_pane_id);
    }
    assert_eq!(back.read_terminal_text(surface_id, None).expect("text").1, "kept\n");
    assert_eq!(back.notifications.len(), 1);
    assert_eq!(back.notifications[0].title, "t");
    assert_eq!(back.next_workspace_title_number, state.next_workspace_title_number);
    check_sound(&back);
}

#[test]
fn snapshot_of_another_version_is_refused() {
    let mut snapshot = AppState::new().to_persistent_snapshot();
    snapshot.version = snapshot.version + 40;
    assert!(AppState::from_persistent_snapshot(snapshot).is_err());
    let mut empty = AppState::new().to_persistent_snapshot();
    empty.workspaces = Vec::new();
    assert!(empty.countable());
    let restored = AppState::from_persistent_snapshot(empty);
    match restored {
        Ok(state) => check_sound(&state),
        Err(message) => assert!(!message.is_empty()),
    }
}

#[test]
fn positions_are_exact_up_to_a_depth() {
    let mut layout = WorkspaceLayout::Pane(0);
    for id in 1..54 {
        assert!(layout.split_leaf(id - 1, id, SplitOrientation::Horizontal, false));
        let regions = layout.pane_regions();
        let mut edge = 0.0;
        for region in &regions {
            assert_eq!(f64::from_bits(region.x), edge);
            edge += f64::from_bits(region.width);
        }
        assert_eq!(edge, 1.0);
    }
    assert!(layout.split_leaf(53, 54, SplitOrientation::Horizontal, false));
    let regions = layout.pane_regions();
    assert_eq!(f64::from_bits(regions[54].x), 1.0);
    assert_eq!(f64::from_bits(regions[54].width), 0.5f64.powi(54));
}

#[test]
fn regions_fill_the_area() {
    let mut layout = WorkspaceLayout::Pane(1);
    assert!(layout.split_leaf(1, 2, SplitOrientation::Horizontal, false));
    assert!(layout.split_leaf(2, 3, SplitOrientation::Vertical, true));
    assert!(!layout.split_leaf(9, 4, SplitOrientation::Vertical, true));
    let regions = layout.pane_regions();
    let mut leaves = Vec::new();
    layout.collect_pane_ids(&mut leaves);
    assert_eq!(leaves, vec![1, 3, 2]);
    for (x, y) in [(0.0, 0.0), (0.999, 0.0), (0.5, 0.5), (0.333, 0.999)] {
        let covering = regions
            .iter()
            .filter(|region| {
                let (left, width) = (f64::from_bits(region.x), f64::from_bits(region.width));
                let (top, height) = (f64::from_bits(region.y), f64::from_bits(region.height));
                left <= x && x < left + width && top <= y && y < top + height
            })
            .count();
        assert_eq!(covering, 1);
    }
    assert!(layout.remove_pane(3));
    let mut rest = Vec::new();
    layout.collect_pane_ids(&mut rest);
    assert_eq!(rest, vec![1, 2]);
    assert!(layout.remove_pane(3));
    assert!(layout.remove_pane(1));
    assert!(!layout.remove_pane(2));
}

#[test]
fn names_stay_and_lead_back() {
    let mut model = model();
    let first = model.state.selected_workspace_id;
    let name = model.workspace_ref(first);
    assert_eq!(name, "workspace:1");
    let second = model.state.create_workspace();
    assert_eq!(model.workspace_ref(second), "workspace:2");
    assert_eq!(model.workspace_ref(first), name);
    assert_eq!(model.resolve_workspace_id("workspace:2"), Some(second));
    assert_eq!(model.resolve_workspace_id("workspace:9"), None);
    assert_eq!(model.resolve_pane_id("workspace:1"), None);
    let surface = model.state.workspaces[0].panes[0].surfaces[0].id;
    assert_eq!(model.surface_ref(surface), "surface:1");
    assert_eq!(model.tab_ref(surface), "tab:1");
    assert_eq!(model.resolve_surface_id("tab:1"), Some(surface));
    model.state.close_workspace(first).expect("closed");
    assert_eq!(model.workspace_ref(second), "workspace:2");
    assert!(!model.contains_id(HandleKind::Workspace, first));
}

#[test]
fn identifiers_in_any_form_lead_to_the_object() {
    let mut model = model();
    let id = model.state.selected_workspace_id;
    let plain = format!("{id:032x}");
    let hyphens = format!(
        "{}-{}-{}-{}-{}",
        &plain[..8],
        &plain[8..12],
        &plain[12..16],
        &plain[16..20],
        &plain[20..]
    );
    assert_eq!(model.resolve_workspace_id(&plain), Some(id));
    assert_eq!(model.resolve_workspace_id(&hyphens), Some(id));
    assert_eq!(model.resolve_workspace_id(&hyphens.to_uppercase()), Some(id));
    assert_eq!(model.resolve_workspace_id(&format!("{{{hyphens}}}")), Some(id));
    assert_eq!(model.resolve_workspace_id(&format!("URN:uuid:{hyphens}")), Some(id));
    assert_eq!(model.resolve_workspace_id(&format!(" {hyphens}\n")), Some(id));
    assert_eq!(model.resolve_workspace_id(&hyphens[1..]), None);
    assert_eq!(model.resolve_workspace_id(&format!("{{{plain}}}")), None);
    assert_eq!(model.resolve_workspace_id(&hyphens.replace('-', "_")), None);
    let current = answer(&mut model, "workspace.current", vec![]);
    assert_eq!(word(part(&current, "workspace_id")), hyphens);
}

#[test]
fn looking_changes_nothing_but_names() {
    let mut model = model();
    model.state.create_workspace_with_focus(false);
    let revision = model.revision();
    let before = focus(&model.state);
    for method in [
        "system.ping",
        "system.capabilities",
        "system.identify",
        "window.list",
        "window.current",
        "workspace.list",
        "workspace.current",
        "pane.list",
        "pane.surfaces",
        "surface.list",
        "surface.current",
        "surface.health",
        "surface.read_text",
        "notification.list",
        "debug.layout",
        "debug.command_palette.visible",
    ] {
        let _ = answer(&mut model, method, vec![]);
    }
    assert_eq!(model.revision(), revision);
    assert_eq!(focus(&model.state), before);
}

#[test]
fn each_method_is_answered_or_refused() {
    let mut model = model();
    for method in cmux_linux::methods::answered_methods() {
        let response = ask(&mut model, method, vec![]);
        if part(&response, "ok").as_bool() == Some(false) {
            let code = word(part(part(&response, "error"), "code"));
            assert_ne!(code, "method_not_found", "{method}");
            assert_ne!(code, "not_supported", "{method}");
        }
    }
    for method in cmux_linux::methods::browser_methods() {
        assert_eq!(refusal(&mut model, method, vec![]).0, "not_supported");
    }
    assert_eq!(refusal(&mut model, "pane.vanish", vec![]).0, "method_not_found");
}

#[test]
fn the_whole_browser_family_is_refused() {
    let mut model = model();
    let revision = model.revision();
    for method in ["browser.x", "browser.", "browser.tab.pin", "browser.navigate"] {
        let response = ask(&mut model, method, vec![]);
        assert_eq!(part(&response, "ok").as_bool(), Some(false));
        let error = part(&response, "error");
        assert_eq!(word(part(error, "code")), "not_supported");
        assert_eq!(
            word(part(error, "message")),
            format!("{method} is not supported on gtk4-libadwaita")
        );
        let data = part(error, "data");
        assert_eq!(word(part(data, "method")), method);
        assert_eq!(word(part(data, "platform")), "linux");
        assert_eq!(word(part(data, "frontend")), "gtk4-libadwaita");
    }
    for method in ["browser", "browsers.x", "Browser.x", "x.browser."] {
        assert_eq!(refusal(&mut model, method, vec![]).0, "method_not_found");
    }
    assert_eq!(model.revision(), revision);
}

#[test]
fn focusing_a_surface_twice_changes_nothing_more() {
    let mut state = AppState::new();
    let (workspace_id, pane_id, surface) = state
        .split_selected_pane_with_focus(SplitOrientation::Vertical, false, false)
        .expect("pane");
    state
        .create_notification(
            workspace_id,
            Some(surface),
            "t".to_string(),
            String::new(),
            String::new(),
            false,
        )
        .expect("notification");
    assert_eq!(state.focus_surface(surface), Ok((workspace_id, pane_id)));
    assert_eq!(focus(&state), (state.windows[0].id, workspace_id, Some(surface)));
    assert!(state.notifications.iter().all(|notification| notification.is_read));
    let before = format!("{state:?}");
    assert_eq!(state.focus_surface(surface), Ok((workspace_id, pane_id)));
    assert_eq!(format!("{state:?}"), before);
}

#[test]
fn names_lead_to_their_own_kind_only() {
    let mut model = model();
    let surface = model.state.workspaces[0].panes[0].surfaces[0].id;
    let name = model.surface_ref(surface);
    let tab = model.tab_ref(surface);
    for _ in 0..3 {
        model.state.run_action(AppAction::SplitRight);
        let made = model.state.current_surface_id().expect("surface");
        assert_ne!(model.surface_ref(made), name);
    }
    assert_eq!(model.surface_ref(surface), name);
    for raw in [name.as_str(), tab.as_str(), " TAB:1 "] {
        assert_eq!(model.resolve_surface_id(raw), Some(surface));
        assert_eq!(model.resolve_pane_id(raw), None);
        assert_eq!(model.resolve_workspace_id(raw), None);
        assert_eq!(model.resolve_window_id(raw), None);
    }
}

#[test]
fn making_things_by_request_keeps_the_focus() {
    let mut model = model();
    let before = focus(&model.state);
    let surface = Value::id(before.2.expect("surface"));
    let _ = answer(&mut model, "workspace.create", vec![]);
    assert_eq!(focus(&model.state), before);
    let _ = answer(
        &mut model,
        "surface.split",
        vec![("surface_id", surface), ("direction", Value::text("left"))],
    );
    assert_eq!(focus(&model.state), before);
    let _ = answer(&mut model, "surface.create", vec![]);
    assert_eq!(focus(&model.state), before);
}

#[test]
fn notifications_are_delivered_unless_seen() {
    let mut model = model();
    let _ = answer(&mut model, "app.focus_override.set", vec![("state", Value::text("active"))]);
    let seen = answer(&mut model, "notification.create", vec![("title", Value::text("t"))]);
    assert_eq!(part(&seen, "suppressed").as_bool(), Some(true));
    assert!(model.state.notifications.is_empty());

    let _ = answer(&mut model, "app.focus_override.set", vec![("state", Value::text("inactive"))]);
    let request = Request {
        id: Value::number(1),
        method: "notification.create".to_string(),
        params: entries(vec![("title", Value::text("t")), ("subtitle", Value::text("s"))]),
    };
    match dispatch_request(&mut model, request) {
        Dispatch::Answer(value) => panic!("{value:?}"),
        Dispatch::Deliver { id, pending } => {
            assert_eq!(pending.summary(), "t - s");
            assert!(model.state.notifications.is_empty());
            let response = finish_delivery(&mut model, id, pending, false);
            let result = part(&response, "result");
            assert_eq!(part(result, "delivered").as_bool(), Some(false));
        }
    }
    assert_eq!(model.state.notifications.len(), 1);
    assert!(!model.state.notifications[0].delivered);
    assert!(model.state.workspaces[0].panes[0].surfaces[0].unread);

    let id = model.state.selected_workspace_id;
    model.state.select_workspace(id).expect("selected");
    assert!(model.state.notifications[0].is_read);
    assert!(!model.state.workspaces[0].panes[0].surfaces[0].unread);
    let _ = answer(&mut model, "notification.clear", vec![]);
    assert!(model.state.notifications.is_empty());
}

#[test]
fn text_is_read_in_base64_too() {
    let mut model = model();
    let surface = model.state.workspaces[0].panes[0].surfaces[0].id;
    for (content, encoded) in [("", ""), ("a", "YQ=="), ("ab", "YWI="), ("abc", "YWJj"), ("ä\n", "w6QK")]
    {
        model.state.replace_terminal_text(surface, content.to_string()).expect("text");
        let read = answer(&mut model, "surface.read_text", vec![]);
        assert_eq!(word(part(&read, "text")), content);
        assert_eq!(word(part(&read, "base64")), encoded);
    }
    model.state.replace_terminal_text(surface, "one\ntwo\nthree".to_string()).expect("text");
    let read = answer(&mut model, "surface.read_text", vec![("lines", Value::number(2))]);
    assert_eq!(word(part(&read, "text")), "two\nthree");
}

#[test]
fn text_waits_for_running_terminals() {
    let mut model =
        AppModel::with_bridge(DEFAULT_SOCKET_PATH.to_string(), TerminalBridge::new());
    let surface = model.state.workspaces[0].panes[0].surfaces[0].id;
    let _ = answer(&mut model, "surface.send_text", vec![("text", Value::text("ls\n"))]);
    assert_eq!(model.state.read_terminal_text(surface, None).expect("text").1, "");
    let commands = model.terminal_bridge.take_pending();
    assert_eq!(commands.len(), 1);
    let TerminalCommand::SendText { surface_id, text } = &commands[0];
    assert_eq!((*surface_id, text.as_str()), (surface, "ls\n"));
    assert!(model.terminal_bridge.take_pending().is_empty());
    assert_eq!(
        TerminalBridge::detached().send_text(surface, "x".to_string()),
        Err("terminal runtime unavailable: sending on a closed channel".to_string())
    );
}

#[test]
fn added_text_follows_and_cleared_text_is_gone() {
    let mut state = AppState::new();
    let surface = state.workspaces[0].panes[0].surfaces[0].id;
    state.append_terminal_text(surface, "a\n").expect("text");
    state.append_terminal_text(surface, "b\n").expect("text");
    assert_eq!(state.read_terminal_text(surface, None).expect("text").1, "a\nb\n");
    state.clear_surface_history(surface).expect("cleared");
    assert_eq!(state.read_terminal_text(surface, None).expect("text").1, "");
}

#[test]
fn toggling_the_sidebar_twice_restores_it() {
    let mut model = model();
    let window = model.state.window_id;
    let visible = model.sidebar_visible(window);
    assert_eq!(model.toggle_sidebar(window), !visible);
    assert_eq!(model.toggle_sidebar(window), visible);
    assert_eq!(model.sidebar_visible(window), visible);
}

#[test]
fn swapping_panes_twice_restores_them() {
    let mut state = AppState::new();
    let (workspace_id, second, _) =
        state.split_selected_pane(SplitOrientation::Horizontal, false).expect("pane");
    let first = state.workspaces[0].panes[0].id;
    let ids = |state: &AppState| {
        state.workspaces[0]
            .panes
            .iter()
            .map(|pane| (pane.id, pane.surfaces[0].id))
            .collect::<Vec<_>>()
    };
    let before = ids(&state);
    assert_eq!(state.swap_panes(first, second, false), Ok(workspace_id));
    assert_ne!(ids(&state), before);
    assert_eq!(state.swap_panes(first, second, false), Ok(workspace_id));
    assert_eq!(ids(&state), before);
}

#[test]
fn next_and_previous_workspace_cancel() {
    let mut state = AppState::new();
    state.create_workspace();
    let current = state.create_workspace();
    let next = state.select_next_workspace().expect("next");
    assert_ne!(next, current);
    assert_eq!(state.select_previous_workspace(), Ok(current));
    assert_eq!(state.select_last_workspace(), Ok(next));
}

#[test]
fn titles_are_trimmed() {
    let mut state = AppState::new();
    let workspace = state.selected_workspace_id;
    state.rename_workspace(workspace, "  Work \n".to_string()).expect("renamed");
    assert_eq!(state.workspaces[0].title, "Work");
    assert!(state.rename_workspace(workspace, "   ".to_string()).is_err());
    let surface = state.workspaces[0].panes[0].surfaces[0].id;
    state.rename_surface(surface, " log ".to_string()).expect("renamed");
    assert_eq!(state.workspaces[0].panes[0].surfaces[0].title, "log");
}

#[test]
fn workspaces_follow_the_directory_of_the_selected_surface() {
    let mut state = AppState::new();
    let id = state
        .create_workspace_with_focus_and_cwd(true, Some("/srv".to_string()));
    assert_eq!(state.workspace(id).expect("made").current_directory.as_deref(), Some("/srv"));
    let (_, _, surface) =
        state.split_selected_pane_with_focus(SplitOrientation::Vertical, false, false).expect("pane");
    state.update_surface_current_directory(surface, Some("/tmp".to_string())).expect("noted");
    assert_eq!(state.workspace(id).expect("made").current_directory.as_deref(), Some("/srv"));
    state.focus_surface(surface).expect("focused");
    state.update_surface_current_directory(surface, Some("/opt".to_string())).expect("noted");
    assert_eq!(state.workspace(id).expect("made").current_directory.as_deref(), Some("/opt"));
}

#[test]
fn marks_show_and_go() {
    let mut state = AppState::new();
    let surface = state.workspaces[0].panes[0].surfaces[0].id;
    state.mark_surface_unread(surface).expect("marked");
    assert!(state.workspaces[0].panes[0].surfaces[0].unread);
    state.mark_surface_read(surface).expect("marked");
    assert!(!state.workspaces[0].panes[0].surfaces[0].unread);
}

#[test]
fn changes_are_counted() {
    let mut state = AppState::new();
    let mut last = state.revision();
    for action in [AppAction::WindowNew, AppAction::WorkspaceNew, AppAction::SplitDown,
        AppAction::SurfaceNew, AppAction::SurfaceClose, AppAction::WindowClose]
    {
        state.run_action(action);
        assert!(state.revision() > last, "{action:?}");
        last = state.revision();
    }
}

#[test]
fn workspaces_come_to_the_place_asked_for() {
    let mut model = model();
    let first = model.state.selected_workspace_id;
    let second = model.state.create_workspace();
    let third = model.state.create_workspace();
    let order = |model: &AppModel| {
        model.state.workspace_ids_in(model.state.window_id)
    };
    assert_eq!(order(&model), vec![first, second, third]);
    let _ = answer(
        &mut model,
        "workspace.reorder",
        vec![("workspace_id", Value::id(third)), ("index", Value::number(0))],
    );
    assert_eq!(order(&model), vec![third, first, second]);
    let _ = answer(
        &mut model,
        "workspace.reorder",
        vec![("workspace_id", Value::id(third)), ("after_workspace_id", Value::id(first))],
    );
    assert_eq!(order(&model), vec![first, third, second]);
    let _ = answer(
        &mut model,
        "workspace.reorder",
        vec![("workspace_id", Value::id(first)), ("index", Value::number(99))],
    );
    assert_eq!(order(&model), vec![third, second, first]);
}

#[test]
fn collapsing_keeps_one_window_with_all_workspaces() {
    let mut state = AppState::new();
    state.create_window_with_focus(true);
    state.create_workspace();
    let first = state.windows[0].id;
    state.collapse_to_single_window();
    assert_eq!(state.windows.len(), 1);
    assert_eq!(state.window_id, first);
    assert!(state.workspaces.iter().all(|workspace| workspace.window_id == first));
    check_sound(&state);
}

#[test]
fn each_error_has_its_cause() {
    let mut model = model();
    let far = || Value::text("00000000-0000-4000-8000-000000000001");
    for (method, pairs, code) in [
        ("workspace.select", vec![], "invalid_params"),
        ("workspace.select", vec![("workspace_id", far())], "invalid_params"),
        ("workspace.reorder", vec![("workspace_id", Value::text("workspace:1")),
            ("before_workspace_id", Value::text("workspace:1"))], "not_found"),
        ("pane.create", vec![("direction", Value::text("sideways"))], "invalid_params"),
        ("pane.create", vec![("direction", Value::text("up")), ("type", Value::text("browser"))],
            "not_supported"),
        ("surface.read_text", vec![("lines", Value::number(0))], "invalid_params"),
        ("surface.read_text", vec![("lines", Value::text("many"))], "invalid_params"),
        ("surface.send_key", vec![("key", Value::text("hyper-x"))], "invalid_params"),
        ("app.focus_override.set", vec![("state", Value::text("lost"))], "invalid_params"),
        ("workspace.reorder", vec![("workspace_id", Value::text("workspace:1"))], "invalid_params"),
        ("browser.back", vec![], "not_supported"),
        ("nothing", vec![], "method_not_found"),
    ] {
        assert_eq!(refusal(&mut model, method, pairs).0, code, "{method}");
    }
    let unavailable = MethodError::unavailable("gone".to_string());
    assert_eq!((unavailable.code, unavailable.message.as_str()), ("unavailable", "gone"));
    let internal = MethodError::internal_error("odd".to_string());
    assert_eq!(internal.code, "internal_error");
}

#[test]
fn answers_carry_the_identifier_of_their_request() {
    let mut model = model();
    let response = ask(&mut model, "system.ping", vec![]);
    assert_eq!(part(&response, "id").as_u64(), Some(7));
    assert_eq!(part(part(&response, "result"), "pong").as_bool(), Some(true));
    let refused = respond(Value::text("x"), Err(MethodError::invalid("bad")));
    assert_eq!(word(part(&refused, "id")), "x");
    assert_eq!(word(part(part(&refused, "error"), "message")), "bad");
}

#[test]
fn what_is_no_request_is_refused() {
    let mut model = model();
    let revision = model.revision();
    match handle_request(&mut model, Err("EOF".to_string())) {
        Dispatch::Answer(response) => {
            assert!(matches!(part(&response, "id"), Value::Null));
            let error = part(&response, "error");
            assert_eq!(word(part(error, "code")), "invalid_request");
            assert_eq!(word(part(error, "message")), "Invalid JSON request: EOF");
        }
        Dispatch::Deliver { .. } => panic!("delivered"),
    }
    assert_eq!(model.revision(), revision);
    assert_eq!(encode_response(Some("{}".to_string())), "{}\n");
    assert_eq!(
        encode_response(None),
        "{\"id\":null,\"ok\":false,\"error\":{\"code\":\"encode_error\",\
         \"message\":\"Failed to encode JSON\"}}\n"
    );
}

#[test]
fn palette_finds_commands_in_any_case() {
    let mut model = model();
    let window = || vec![];
    let _ = answer(&mut model, "debug.command_palette.toggle", window());
    let _ = answer(&mut model, "debug.type", vec![("text", Value::text("> NEW WINDOW"))]);
    let results = answer(&mut model, "debug.command_palette.results", window());
    let rows = part(&results, "results").as_array().expect("rows");
    assert!(!rows.is_empty());
    assert!(word(part(&rows[0], "title")).to_lowercase().contains("new window"));
    assert_eq!(part(&rows[0], "selected").as_bool(), Some(true));
}

#[test]
fn missing_objects_are_named_in_errors() {
    let mut state = AppState::new();
    assert_eq!(
        state.select_workspace(5),
        Err("workspace 00000000-0000-0000-0000-000000000005 not found".to_string())
    );
    assert_eq!(
        state.focus_window(NIL),
        Err("window 00000000-0000-0000-0000-000000000000 not found".to_string())
    );
}

#[test]
fn requests_tell_which_backend_runs_terminals() {
    let mut model = model();
    for method in ["system.capabilities", "system.identify"] {
        let result = answer(&mut model, method, vec![]);
        assert_eq!(word(part(part(&result, "terminal_backend"), "active")), "vte", "{method}");
    }
}

#[test]
fn workspaces_are_made_in_a_directory() {
    let mut model = model();
    let made = answer(&mut model, "workspace.create", vec![("cwd", Value::text("/tmp"))]);
    let id = model
        .resolve_workspace_id(&word(part(&made, "workspace_id")))
        .expect("workspace");
    let workspace = model.state.workspace(id).expect("workspace");
    assert_eq!(workspace.current_directory.as_deref(), Some("/tmp"));
    let surface = workspace.panes[0].surfaces[0].id;
    assert_eq!(model.state.surface_working_directory(surface).as_deref(), Some("/tmp"));
}

#[test]
fn listed_surfaces_show_attention_and_flashes() {
    let mut model = model();
    let surface = model.state.workspaces[0].panes[0].surfaces[0].id;
    let _ = answer(&mut model, "surface.trigger_flash", vec![("surface_id", Value::id(surface))]);
    model.state.mark_surface_unread(surface).expect("marked");
    let list = answer(&mut model, "surface.list", vec![]);
    let row = &part(&list, "surfaces").as_array().expect("surfaces")[0];
    assert_eq!(part(row, "unread").as_bool(), Some(true));
    assert_eq!(part(row, "flash_count").as_u64(), Some(1));
}

#[test]
fn shortcuts_toggle_the_sidebar_and_make_surfaces() {
    let mut model = model();
    let window = model.state.window_id;
    let visible = model.sidebar_visible(window);
    let _ = answer(&mut model, "debug.shortcut.simulate", vec![("combo", Value::text("cmd+b"))]);
    assert_eq!(model.sidebar_visible(window), !visible);
    let _ = answer(&mut model, "debug.shortcut.simulate", vec![("combo", Value::text("cmd+t"))]);
    assert_eq!(model.state.workspaces[0].panes[0].surfaces.len(), 2);
}
