use cmux_linux::layout::SplitOrientation;
use cmux_linux::state::AppState;

fn expect_ok<T>(value: Result<T, String>) -> T {
    value.unwrap_or_else(|err| panic!("{err}"))
}

#[test]
fn initial_state_has_one_workspace_one_pane_and_one_surface() {
    let state = AppState::new();
    let workspace = state.selected_workspace().expect("selected workspace");

    assert_eq!(state.workspaces.len(), 1);
    assert_eq!(workspace.pane_count(), 1);
    assert_eq!(workspace.surface_count(), 1);
    assert_eq!(workspace.title, "Workspace 1");
}

#[test]
fn creating_workspace_selects_it() {
    let mut state = AppState::new();
    let first_workspace_id = state.selected_workspace_id;
    let workspace_id = state.create_workspace();

    assert_eq!(state.selected_workspace_id, workspace_id);
    assert_eq!(state.workspaces.len(), 2);
    assert_eq!(state.last_selected_workspace_id, Some(first_workspace_id));
}

#[test]
fn selecting_workspace_changes_focus() {
    let mut state = AppState::new();
    let first_workspace_id = state.selected_workspace_id;
    let second_workspace_id = state.create_workspace();

    expect_ok(state.select_workspace(first_workspace_id));

    assert_eq!(state.selected_workspace_id, first_workspace_id);
    assert_eq!(state.last_selected_workspace_id, Some(second_workspace_id));
}

#[test]
fn splitting_selected_pane_creates_new_pane_and_focuses_it() {
    let mut state = AppState::new();
    let workspace_id = state.selected_workspace_id;

    let (_, new_pane_id, new_surface_id) =
        expect_ok(state.split_selected_pane(SplitOrientation::Horizontal, false));

    let workspace = state.workspace(workspace_id).expect("workspace");
    assert_eq!(workspace.pane_count(), 2);
    assert_eq!(workspace.selected_pane_id, new_pane_id);
    assert_eq!(
        workspace
            .selected_pane()
            .map(|pane| pane.selected_surface_id),
        Some(new_surface_id)
    );
}

#[test]
fn creating_surface_adds_tab_to_selected_pane_and_selects_it() {
    let mut state = AppState::new();
    let workspace_id = state.selected_workspace_id;
    let pane_id = state.current_pane_id().expect("pane");

    let (_, _, surface_id) = expect_ok(state.create_surface_in_selected_pane());

    let workspace = state.workspace(workspace_id).expect("workspace");
    let pane = workspace.pane(pane_id).expect("pane");
    assert_eq!(pane.surfaces.len(), 2);
    assert_eq!(pane.selected_surface_id, surface_id);
}

#[test]
fn closing_last_surface_in_extra_pane_collapses_layout() {
    let mut state = AppState::new();
    let workspace_id = state.selected_workspace_id;
    let (_, pane_id, surface_id) =
        expect_ok(state.split_selected_pane(SplitOrientation::Vertical, false));

    let (_, closed_pane_id, removed_pane) =
        expect_ok(state.close_surface(workspace_id, surface_id));

    let workspace = state.workspace(workspace_id).expect("workspace");
    assert!(removed_pane);
    assert_eq!(closed_pane_id, pane_id);
    assert_eq!(workspace.pane_count(), 1);
}

#[test]
fn terminal_text_round_trip_reads_last_lines() {
    let mut state = AppState::new();
    let surface_id = state.current_surface_id().expect("surface");

    expect_ok(state.append_terminal_text(surface_id, "alpha\nbeta\ngamma\n"));
    let (_, text) = expect_ok(state.read_terminal_text(surface_id, Some(2)));

    assert_eq!(text, "beta\ngamma");
}
