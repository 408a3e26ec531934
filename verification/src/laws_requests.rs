//! Every request keeps the state sound and the names that were given out.

use crate::answer_surfaces;
use crate::answer_surfaces::RowView;
use crate::ids::{PaneId, SurfaceId, WindowId, WorkspaceId};
use crate::json;
use crate::laws_names;
use crate::model::ModelView;
use crate::params;
use crate::params::ParamsView;
use crate::registry::HandleKind;
use crate::reply;
use crate::reply::Reply;
use crate::state_focus;
use crate::state_windows;
use crate::surface::{PaneView, SurfaceKind};
use vstd::prelude::*;

verus! {

broadcast use laws_names::group_names_stay, laws_names::group_requests;

// ---------------------------------------------------------------------------
// Looking things up
// ---------------------------------------------------------------------------

/// Resolving a name changes nothing but names.
pub proof fn lemma_required(
    model: ModelView,
    params: ParamsView,
    kind: HandleKind,
    key: Seq<char>,
)
    ensures
        params::required(model, params, kind, key).0.only_names(model),
        params::optional(model, params, kind, key).0.only_names(model),
{
}

/// Finding what a request is about changes nothing but names.
pub proof fn lemma_targets(model: ModelView, params: ParamsView)
    ensures
        params::window_target(model, params).0.only_names(model),
        params::workspace_target(model, params).0.only_names(model),
        params::surface_target(model, params).0.only_names(model),
        match params::window_target(model, params).1 {
            Ok(window_id) => model.state.window_at(window_id) is Some,
            Err(_) => true,
        },
{
    lemma_required(model, params, HandleKind::Window, "window_id"@);
    lemma_required(model, params, HandleKind::Workspace, "workspace_id"@);
    lemma_required(model, params, HandleKind::Surface, "surface_id"@);
}

proof fn lemma_place_bound(list: Seq<u128>, id: u128, from: int)
    requires
        0 <= from,
    ensures
        match state_focus::place_from(list, id, from) {
            Some(at) => from <= at,
            None => true,
        },
    decreases list.len() - from,
{
    if from < list.len() && list[from] != id {
        lemma_place_bound(list, id, from + 1);
    }
}

proof fn lemma_place_beside(
    model: ModelView,
    params: ParamsView,
    list: Seq<u128>,
    kind: HandleKind,
    key: Seq<char>,
    offset: int,
    before: params::AskedPlace,
)
    requires
        offset >= 0,
        before.place >= 0,
    ensures
        params::place_beside(model, params, list, kind, key, offset, before).0.only_names(model),
        match params::place_beside(model, params, list, kind, key, offset, before).1 {
            Ok(asked) => asked.place >= 0,
            Err(_) => true,
        },
{
    lemma_required(model, params, kind, key);
    if let Ok(Some(id)) = params::optional(model, params, kind, key).1 {
        lemma_place_bound(list, id, 0);
    }
}

proof fn lemma_asked_place(
    model: ModelView,
    params: ParamsView,
    list: Seq<u128>,
    kind: HandleKind,
    before_key: Seq<char>,
    after_key: Seq<char>,
)
    ensures
        params::asked_place(model, params, list, kind, before_key, after_key).0.only_names(model),
        match params::asked_place(model, params, list, kind, before_key, after_key).1 {
            Ok(asked) => asked.place >= 0,
            Err(_) => true,
        },
{
    if let Ok(first) = params::numbered_place(params, list) {
        lemma_place_beside(model, params, list, kind, before_key, 0, first);
        let (next, result) = params::place_beside(
            model,
            params,
            list,
            kind,
            before_key,
            0,
            first,
        );
        if let Ok(second) = result {
            lemma_place_beside(next, params, list, kind, after_key, 1, second);
        }
    }
}

/// Finding the place that a request asks for changes nothing but names.
pub proof fn lemma_places(
    model: ModelView,
    params: ParamsView,
    workspace_id: WorkspaceId,
    window_id: WindowId,
    surface_id: SurfaceId,
    pane_id: PaneId,
)
    ensures
        params::workspace_place(model, workspace_id, window_id, params).0.only_names(model),
        params::surface_place(model, surface_id, pane_id, params).0.only_names(model),
        match params::workspace_place(model, workspace_id, window_id, params).1 {
            Ok(place) => place >= 0,
            Err(_) => true,
        },
        match params::surface_place(model, surface_id, pane_id, params).1 {
            Ok(place) => place >= 0,
            Err(_) => true,
        },
{
    let all = model.state.workspace_ids_in(window_id);
    lemma_asked_place(
        model,
        params,
        state_windows::others(all, workspace_id, all.len() as int),
        HandleKind::Workspace,
        "before_workspace_id"@,
        "after_workspace_id"@,
    );
    if let Some(pane) = model.state.owned_pane(pane_id) {
        let tabs = params::surface_ids(pane);
        lemma_asked_place(
            model,
            params,
            state_windows::others(tabs, surface_id, tabs.len() as int),
            HandleKind::Surface,
            "before_surface_id"@,
            "after_surface_id"@,
        );
    }
}

/// Telling where something happened changes nothing but names.
pub proof fn lemma_told(
    model: ModelView,
    workspace_id: WorkspaceId,
    pane_id: Option<PaneId>,
    surface_id: Option<SurfaceId>,
)
    ensures
        match model.told(workspace_id, pane_id, surface_id) {
            Ok(reply) => reply.model.only_names(model),
            Err(_) => true,
        },
        model.finished(model.told(workspace_id, pane_id, surface_id)).0.only_names(model),
        model.finished_terminal(model.told(workspace_id, pane_id, surface_id)).0.only_names(model),
{
}

// ---------------------------------------------------------------------------
// Requests that change nothing but names
// ---------------------------------------------------------------------------

proof fn lemma_names_of(model: ModelView, kind: HandleKind, list: Seq<u128>, count: int)
    ensures
        model.names_of(kind, list, count).0.only_names(model),
    decreases count,
{
    if count > 0 {
        lemma_names_of(model, kind, list, count - 1);
    }
}

/// Listing windows changes nothing but names.
pub proof fn lemma_window_rows(model: ModelView, count: int)
    ensures
        model.window_rows(count).0.only_names(model),
    decreases count,
{
    if count > 0 {
        lemma_window_rows(model, count - 1);
    }
}

/// Listing workspaces changes nothing but names.
pub proof fn lemma_workspace_rows(model: ModelView, window_id: WindowId, count: int)
    ensures
        model.workspace_rows(window_id, count).0.only_names(model),
    decreases count,
{
    if count > 0 {
        lemma_workspace_rows(model, window_id, count - 1);
    }
}

proof fn lemma_pane_row(model: ModelView, pane: PaneView, index: nat, focused: bool)
    ensures
        model.pane_row(pane, index, focused).model.only_names(model),
{
    let list = params::surface_ids(pane);
    let first = Reply::of(model).with("id"@, json::id_value(pane.id)).named(
        "ref"@,
        HandleKind::Pane,
        pane.id,
    );
    lemma_names_of(first.model, HandleKind::Surface, list, list.len() as int);
}

proof fn lemma_pane_rows(
    model: ModelView,
    panes: Seq<PaneView>,
    focused: Option<PaneId>,
    count: int,
)
    ensures
        model.pane_rows(panes, focused, count).0.only_names(model),
    decreases count,
{
    if count > 0 {
        lemma_pane_rows(model, panes, focused, count - 1);
        let (next, _) = model.pane_rows(panes, focused, count - 1);
        let pane = panes[count - 1];
        lemma_pane_row(next, pane, (count - 1) as nat, focused == Some(pane.id));
    }
}

proof fn lemma_tab_rows(model: ModelView, pane: PaneView, count: int)
    ensures
        model.tab_rows(pane, count).0.only_names(model),
    decreases count,
{
    if count > 0 {
        lemma_tab_rows(model, pane, count - 1);
    }
}

proof fn lemma_surface_rows(
    model: ModelView,
    rows: Seq<RowView>,
    focused: Option<SurfaceId>,
    count: int,
)
    ensures
        model.surface_row_values(rows, focused, count).0.only_names(model),
    decreases count,
{
    if count > 0 {
        lemma_surface_rows(model, rows, focused, count - 1);
    }
}

proof fn lemma_health_rows(model: ModelView, rows: Seq<RowView>, count: int)
    ensures
        model.health_rows(rows, count).0.only_names(model),
    decreases count,
{
    if count > 0 {
        lemma_health_rows(model, rows, count - 1);
    }
}

/// Telling of the application changes nothing but names.
pub proof fn lemma_system(model: ModelView, params: ParamsView)
    ensures
        model.capabilities().0.only_names(model),
        model.identify(params).0.only_names(model),
{
    assert(model.capabilities().0 == model);
    if let Some(workspace) = model.state.selected_workspace() {
        let surface_id = workspace.selected_surface_id();
        let kind = match surface_id {
            Some(id) => match workspace.surface(id) {
                Some(surface) => Some(surface.kind),
                None => None,
            },
            None => None,
        };
        lemma_focus_reply(model, workspace.id, workspace.selected_pane_id, surface_id, kind);
    }
}

proof fn lemma_focus_reply(
    model: ModelView,
    workspace_id: WorkspaceId,
    pane_id: PaneId,
    surface_id: Option<SurfaceId>,
    kind: Option<SurfaceKind>,
)
    ensures
        model.focus_reply(workspace_id, pane_id, surface_id, kind).model.only_names(model),
{
}

/// The requests that list or show windows, workspaces, panes and surfaces change nothing but names.
pub proof fn law_listing_only_names(model: ModelView, params: ParamsView)
    ensures
        model.capabilities().0.only_names(model),
        model.identify(params).0.only_names(model),
        model.window_list().0.only_names(model),
        model.window_current().0.only_names(model),
        model.workspace_list(params).0.only_names(model),
        model.workspace_current(params).0.only_names(model),
        model.pane_list(params).0.only_names(model),
        model.pane_surfaces(params).0.only_names(model),
        model.surface_list(params).0.only_names(model),
        model.surface_current(params).0.only_names(model),
        model.surface_refresh(params).0.only_names(model),
        model.surface_read_text(params).0.only_names(model),
        model.surface_health(params).0.only_names(model),
        model.notification_list().0.only_names(model),
{
    lemma_system(model, params);
    lemma_window_lists(model, params);
    lemma_pane_lists(model, params);
    lemma_surface_lists(model, params);
    lemma_surface_shows(model, params);
}

/// Listing windows and workspaces changes nothing but names.
pub proof fn lemma_window_lists(model: ModelView, params: ParamsView)
    ensures
        model.window_list().0.only_names(model),
        model.window_current().0.only_names(model),
        model.workspace_list(params).0.only_names(model),
        model.workspace_current(params).0.only_names(model),
        model.notification_list().0.only_names(model),
{
    lemma_window_rows(model, model.state.windows.len() as int);
    lemma_targets(model, params);
    let (next, result) = params::window_target(model, params);
    if let Ok(window_id) = result {
        lemma_workspace_rows(next, window_id, next.state.workspaces.len() as int);
    }
}

/// Finding the pane that a request is about changes nothing but names.
pub proof fn lemma_pane_target(model: ModelView, params: ParamsView)
    ensures
        model.pane_target(params).0.only_names(model),
{
    lemma_targets(model, params);
    lemma_required(model, params, HandleKind::Pane, "pane_id"@);
}

/// Listing panes changes nothing but names.
pub proof fn lemma_pane_lists(model: ModelView, params: ParamsView)
    ensures
        model.pane_list(params).0.only_names(model),
        model.pane_surfaces(params).0.only_names(model),
{
    lemma_targets(model, params);
    lemma_pane_target(model, params);
    let (next, result) = params::workspace_target(model, params);
    if let Ok(workspace_id) = result {
        if let Some(workspace) = next.state.workspace(workspace_id) {
            let panes = workspace.ordered_panes();
            let focused = if workspace.id == next.state.selected_workspace_id {
                Some(workspace.selected_pane_id)
            } else {
                None
            };
            lemma_pane_rows(next, panes, focused, panes.len() as int);
        }
    }
    let (next, result) = model.pane_target(params);
    if let Ok(pane_id) = result {
        if let Some(at) = next.state.owner(pane_id) {
            let workspace = next.state.workspaces[at];
            if let Some(pane) = workspace.pane(pane_id) {
                let outer = Reply::of(next).window(workspace.window_id).workspace(
                    workspace.id,
                ).pane(pane.id);
                lemma_tab_rows(outer.model, pane, pane.surfaces.len() as int);
            }
        }
    }
}

/// Listing surfaces changes nothing but names.
pub proof fn lemma_surface_lists(model: ModelView, params: ParamsView)
    ensures
        model.surface_list(params).0.only_names(model),
        model.surface_health(params).0.only_names(model),
{
    lemma_targets(model, params);
    let (next, result) = params::workspace_target(model, params);
    if let Ok(workspace_id) = result {
        if let Some(workspace) = next.state.workspace(workspace_id) {
            let rows = answer_surfaces::workspace_rows(workspace);
            let focused = if workspace.id == next.state.selected_workspace_id {
                workspace.selected_surface_id()
            } else {
                None
            };
            lemma_surface_rows(next, rows, focused, rows.len() as int);
            lemma_health_rows(next, rows, rows.len() as int);
        }
    }
}

/// Showing a surface changes nothing but names.
pub proof fn lemma_surface_shows(model: ModelView, params: ParamsView)
    ensures
        model.surface_current(params).0.only_names(model),
        model.surface_refresh(params).0.only_names(model),
        model.surface_read_text(params).0.only_names(model),
{
    lemma_targets(model, params);
    let (next, result) = params::workspace_target(model, params);
    if let Ok(workspace_id) = result {
        lemma_told(next, workspace_id, None, None);
    }
}

/// The requests for tests and tools that show something change nothing but names.
pub proof fn law_showing_only_names(model: ModelView, params: ParamsView)
    ensures
        model.debug_layout().0.only_names(model),
        model.panel_snapshot(params).0.only_names(model),
        model.sidebar_shown(params).0.only_names(model),
        model.terminal_is_focused(params).0.only_names(model),
        model.flash_counted(params).0.only_names(model),
        model.palette_visible(params).0.only_names(model),
        model.palette_results(params).0.only_names(model),
        model.palette_selection(params).0.only_names(model),
        model.input_selection(params).0.only_names(model),
{
    lemma_tools_show(model, params);
    lemma_palette_shows(model, params);
}

proof fn lemma_tools_show(model: ModelView, params: ParamsView)
    ensures
        model.debug_layout().0.only_names(model),
        model.panel_snapshot(params).0.only_names(model),
        model.sidebar_shown(params).0.only_names(model),
        model.terminal_is_focused(params).0.only_names(model),
        model.flash_counted(params).0.only_names(model),
{
    lemma_targets(model, params);
    lemma_required(model, params, HandleKind::Surface, "surface_id"@);
}

proof fn lemma_palette_shows(model: ModelView, params: ParamsView)
    ensures
        model.palette_visible(params).0.only_names(model),
        model.palette_results(params).0.only_names(model),
        model.palette_selection(params).0.only_names(model),
        model.input_selection(params).0.only_names(model),
{
    lemma_targets(model, params);
}

} // verus!
