//! Requests act on what they name.

use crate::ids::{Drawn, PaneId, SurfaceId, WindowId, WorkspaceId};
use crate::laws_names;
use crate::laws_requests;
use crate::laws_tabs::names;
use crate::model::ModelView;
use crate::params;
use crate::params::ParamsView;
use crate::registry::HandleKind;
use crate::reply::ErrorView;
use vstd::prelude::*;

verus! {

broadcast use laws_names::group_names_stay, laws_names::group_requests;

/// What is named is found, and finding it changes nothing but names.
proof fn lemma_named(
    model: ModelView,
    params: ParamsView,
    kind: HandleKind,
    key: Seq<char>,
    id: u128,
)
    requires
        names(model, params, kind, key, id),
    ensures
        params::required(model, params, kind, key).1 == Ok::<_, ErrorView>(id),
        params::required(model, params, kind, key).0.state == model.state,
        params::required(model, params, kind, key).0.only_names(model),
{
    reveal(ModelView::only_names);
    laws_requests::lemma_required(model, params, kind, key);
    assert(model.only_names(model));
}

/// A request about a window brings that window to the front, or closes it.
pub proof fn law_request_names_the_window(
    model: ModelView,
    drawn: Drawn,
    params: ParamsView,
    id: WindowId,
)
    requires
        names(model, params, HandleKind::Window, "window_id"@, id),
    ensures
        model.window_focus(params).0.state == model.state.focus_window(id).0,
        model.window_close(drawn, params).0.state == model.state.close_window(drawn, id).0,
{
    lemma_named(model, params, HandleKind::Window, "window_id"@, id);
}

/// A request about a workspace selects, renames, moves or closes that workspace: it gets the title
/// that the request gives, and goes to the window that the request names.
pub proof fn law_request_names_the_workspace(
    model: ModelView,
    drawn: Drawn,
    params: ParamsView,
    id: WorkspaceId,
    window_id: WindowId,
)
    requires
        names(model, params, HandleKind::Workspace, "workspace_id"@, id),
        model.state.workspace_window_id(id) is Some,
    ensures
        model.workspace_select(params).0.state == model.state.select_workspace(id).0,
        model.workspace_close(drawn, params).0.state == model.state.close_workspace(drawn, id).0,
        match params::raw_word(params, "title"@) {
            Some(title) => model.workspace_rename(params).0.state == model.state.rename_workspace(
                id,
                title,
            ).0,
            None => model.workspace_rename(params).0.state == model.state,
        },
        names(model, params, HandleKind::Window, "window_id"@, window_id) ==> model.workspace_move(
            drawn,
            params,
        ).0.state == model.state.move_workspace(
            drawn,
            id,
            window_id,
            params::flag(params, "focus"@, true),
        ).0,
{
    reveal(ModelView::only_names);
    lemma_named(model, params, HandleKind::Workspace, "workspace_id"@, id);
    let next = params::required(model, params, HandleKind::Workspace, "workspace_id"@).0;
    if names(model, params, HandleKind::Window, "window_id"@, window_id) {
        lemma_later(model, next, params, HandleKind::Window, "window_id"@, window_id);
        lemma_named(next, params, HandleKind::Window, "window_id"@, window_id);
    }
    laws_requests::lemma_told(
        next.with_state(next.state.select_workspace(id).0),
        id,
        None,
        None,
    );
    if let Some(title) = params::raw_word(params, "title"@) {
        laws_requests::lemma_told(
            next.with_state(next.state.rename_workspace(id, title).0),
            id,
            None,
            None,
        );
    }
}

/// What is named stays named while names are given out.
proof fn lemma_later(
    model: ModelView,
    later: ModelView,
    params: ParamsView,
    kind: HandleKind,
    key: Seq<char>,
    id: u128,
)
    requires
        names(model, params, kind, key, id),
        later.only_names(model),
    ensures
        names(later, params, kind, key, id),
{
    reveal(ModelView::only_names);
    assert forall|last: ModelView| #[trigger] last.only_names(later) implies params::required(
        last,
        params,
        kind,
        key,
    ).1 == Ok::<_, ErrorView>(id) by {
        assert(last.only_names(model));
    }
}

/// A request about a pane puts the focus on that pane, or exchanges it with the one that it is to
/// be exchanged with.
pub proof fn law_request_names_the_pane(
    model: ModelView,
    params: ParamsView,
    id: PaneId,
    target: PaneId,
)
    requires
        names(model, params, HandleKind::Pane, "pane_id"@, id),
    ensures
        model.pane_focus(params).0.state == model.state.focus_pane(id).0,
        names(model, params, HandleKind::Pane, "target_pane_id"@, target) ==> model.pane_swap(
            params,
        ).0.state == model.state.swap_panes(id, target, params::flag(params, "focus"@, true)).0,
{
    reveal(ModelView::only_names);
    lemma_named(model, params, HandleKind::Pane, "pane_id"@, id);
    let next = params::required(model, params, HandleKind::Pane, "pane_id"@).0;
    let (focused, result) = next.state.focus_pane(id);
    if let Ok(workspace_id) = result {
        laws_requests::lemma_told(next.with_state(focused), workspace_id, Some(id), None);
    }
    if names(model, params, HandleKind::Pane, "target_pane_id"@, target) {
        lemma_later(model, next, params, HandleKind::Pane, "target_pane_id"@, target);
        lemma_named(next, params, HandleKind::Pane, "target_pane_id"@, target);
        let second = params::required(next, params, HandleKind::Pane, "target_pane_id"@).0;
        let (swapped, outcome) = second.state.swap_panes(
            id,
            target,
            params::flag(params, "focus"@, true),
        );
        if let Ok(workspace_id) = outcome {
            laws_requests::lemma_told(second.with_state(swapped), workspace_id, Some(id), None);
        }
    }
}

/// A request about a surface puts the focus on that surface, gives it a workspace of its own, or
/// makes it the last one of the pane that the request names.
pub proof fn law_request_names_the_surface(
    model: ModelView,
    drawn: Drawn,
    params: ParamsView,
    id: SurfaceId,
    target: PaneId,
)
    requires
        names(model, params, HandleKind::Surface, "surface_id"@, id),
    ensures
        model.surface_focus(params).0.state == model.state.focus_surface(id).0,
        model.pane_break(drawn, params).0.state == model.state.break_surface(
            drawn,
            id,
            params::flag(params, "focus"@, true),
        ).0,
        names(model, params, HandleKind::Pane, "target_pane_id"@, target) ==> model.pane_join(
            drawn,
            params,
        ).0.state == model.joined(
            drawn,
            id,
            target,
            params::flag(params, "focus"@, true),
        ).0.state,
{
    reveal(ModelView::only_names);
    let focus = params::flag(params, "focus"@, true);
    lemma_named(model, params, HandleKind::Surface, "surface_id"@, id);
    let next = params::required(model, params, HandleKind::Surface, "surface_id"@).0;
    let (focused, result) = next.state.focus_surface(id);
    if let Ok((workspace_id, pane_id)) = result {
        laws_requests::lemma_told(
            next.with_state(focused),
            workspace_id,
            Some(pane_id),
            Some(id),
        );
    }
    let (broken, outcome) = next.state.break_surface(drawn, id, focus);
    if let Ok(workspace_id) = outcome {
        laws_requests::lemma_told(next.with_state(broken), workspace_id, None, Some(id));
    }
    if names(model, params, HandleKind::Pane, "target_pane_id"@, target) {
        lemma_named(model, params, HandleKind::Pane, "target_pane_id"@, target);
        let first = params::required(model, params, HandleKind::Pane, "target_pane_id"@).0;
        lemma_later(model, first, params, HandleKind::Surface, "surface_id"@, id);
        lemma_named(first, params, HandleKind::Surface, "surface_id"@, id);
        let last = first.chosen_surface(params).0;
        lemma_joined_state(model, drawn, id, target, focus);
        lemma_joined_state(last, drawn, id, target, focus);
    }
}

proof fn lemma_joined_state(
    model: ModelView,
    drawn: Drawn,
    id: SurfaceId,
    target: PaneId,
    focus: bool,
)
    ensures
        model.joined(drawn, id, target, focus).0.state == (match model.state.owner_id(target) {
            None => model.state,
            Some(workspace_id) => match model.pane_in(workspace_id, target) {
                None => model.state,
                Some(pane) => model.state.move_surface(
                    drawn,
                    id,
                    workspace_id,
                    target,
                    pane.surfaces.len() as int,
                    focus,
                ).0,
            },
        }),
{
    reveal(ModelView::only_names);
    if let Some(workspace_id) = model.state.owner_id(target) {
        if let Some(pane) = model.pane_in(workspace_id, target) {
            let (moved, result) = model.state.move_surface(
                drawn,
                id,
                workspace_id,
                target,
                pane.surfaces.len() as int,
                focus,
            );
            if let Ok((place, pane_id, now)) = result {
                laws_requests::lemma_told(model.with_state(moved), place, Some(pane_id), Some(now));
            }
        }
    }
}

/// A request that names nothing is about the current window and the workspace on screen: the next
/// workspace, the one before, the one that was there last, and the last pane are found from there.
pub proof fn law_request_goes_on_from_here(model: ModelView, params: ParamsView, delta: int)
    requires
        params::window_target(model, params).1 == Ok::<_, ErrorView>(model.state.window_id),
        params::workspace_target(model, params).1 == Ok::<_, ErrorView>(
            model.state.selected_workspace_id,
        ),
    ensures
        model.workspace_relative(params, delta).0.state == model.state.select_relative_workspace(
            delta,
        ).0,
        model.workspace_last(params).0.state == model.state.select_to(
            model.state.last_workspace(),
        ).0,
        model.pane_last(params).0.state == model.state.focus_last_pane().0,
{
    reveal(ModelView::only_names);
    laws_requests::lemma_targets(model, params);
    let next = params::workspace_target(model, params).0;
    let (moved, result) = next.state.focus_last_pane();
    if let Ok((workspace_id, pane_id)) = result {
        laws_requests::lemma_told(next.with_state(moved), workspace_id, Some(pane_id), None);
    }
}

} // verus!
