//! What each request does keeps the state sound and the names that were given out.

use crate::answer_notifications::PendingView;
use crate::answer_palette;
use crate::answer_surfaces;
use crate::ids::{Drawn, NotificationId, PaneId, SurfaceId, WindowId, WorkspaceId};
use crate::json::ValueView;
use crate::laws_names;
use crate::laws_requests;
use crate::layout::SplitOrientation;
use crate::model::ModelView;
use crate::palette::{CommandPaletteMode, PaletteView, RenameTarget};
use crate::palette_rows::PaletteRowView;
use crate::params;
use crate::params::ParamsView;
use crate::registry::HandleKind;
use crate::sound_changes;
use crate::sound_operations;
use crate::sound_surfaces;
use crate::state::StateView;
use crate::surface::HealthView;
use crate::text;
use vstd::prelude::*;

verus! {

broadcast use laws_names::group_names_stay, laws_names::group_requests;

// ---------------------------------------------------------------------------
// Windows and workspaces
// ---------------------------------------------------------------------------

/// `window.create` keeps the state sound, and the names that were given out.
pub proof fn lemma_window_create(model: ModelView, drawn: Drawn)
    ensures
        model.window_create(drawn).0.holds_together(model, drawn),
{
    if model.state.sound() && model.state.new_to(drawn) {
        sound_changes::law_create_window_keeps_sound(model.state, drawn, true);
    }
}

/// `window.focus` keeps the state sound, and the names that were given out.
pub proof fn lemma_window_focus(model: ModelView, drawn: Drawn, params: ParamsView)
    ensures
        model.window_focus(params).0.holds_together(model, drawn),
{
    laws_requests::lemma_required(model, params, HandleKind::Window, "window_id"@);
    let (next, result) = params::required(model, params, HandleKind::Window, "window_id"@);
    if let Ok(window_id) = result {
        if model.state.sound() {
            sound_operations::law_focus_window_keeps_sound(next.state, window_id);
        }
    }
}

/// `window.close` keeps the state sound, and the names that were given out.
pub proof fn lemma_window_close(model: ModelView, drawn: Drawn, params: ParamsView)
    ensures
        model.window_close(drawn, params).0.holds_together(model, drawn),
{
    laws_requests::lemma_required(model, params, HandleKind::Window, "window_id"@);
    let (next, result) = params::required(model, params, HandleKind::Window, "window_id"@);
    if let Ok(window_id) = result {
        if model.state.sound() && model.state.new_to(drawn) {
            sound_changes::law_close_window_keeps_sound(next.state, drawn, window_id);
        }
    }
}

/// `workspace.create` keeps the state sound, and the names that were given out.
pub proof fn lemma_workspace_create(model: ModelView, drawn: Drawn, params: ParamsView)
    ensures
        model.workspace_create(drawn, params).0.holds_together(model, drawn),
{
    laws_requests::lemma_targets(model, params);
    let (next, result) = params::window_target(model, params);
    if let Ok(window_id) = result {
        if let Ok(directory) = params::optional_word(params, "cwd"@) {
            if model.state.sound() && model.state.new_to(drawn) {
                sound_changes::law_create_workspace_keeps_sound(
                    next.state,
                    drawn,
                    window_id,
                    false,
                    directory,
                );
            }
        }
    }
}

/// `workspace.rename` keeps the state sound, and the names that were given out.
pub proof fn lemma_workspace_rename(model: ModelView, drawn: Drawn, params: ParamsView)
    ensures
        model.workspace_rename(params).0.holds_together(model, drawn),
{
    laws_requests::lemma_required(model, params, HandleKind::Workspace, "workspace_id"@);
    let (next, result) = params::required(model, params, HandleKind::Workspace, "workspace_id"@);
    if let Ok(workspace_id) = result {
        if let Some(title) = params::raw_word(params, "title"@) {
            if model.state.sound() {
                sound_changes::law_rename_workspace_keeps_sound(next.state, workspace_id, title);
            }
            laws_requests::lemma_told(
                next.with_state(next.state.rename_workspace(workspace_id, title).0),
                workspace_id,
                None,
                None,
            );
        }
    }
}

/// `workspace.reorder` keeps the state sound, and the names that were given out.
pub proof fn lemma_workspace_reorder(model: ModelView, drawn: Drawn, params: ParamsView)
    ensures
        model.workspace_reorder(params).0.holds_together(model, drawn),
{
    laws_requests::lemma_required(model, params, HandleKind::Workspace, "workspace_id"@);
    let (first, result) = params::required(model, params, HandleKind::Workspace, "workspace_id"@);
    if let Ok(workspace_id) = result {
        laws_requests::lemma_required(first, params, HandleKind::Window, "window_id"@);
        let (second, found) = first.reordered_window(params, workspace_id);
        if let Ok(window_id) = found {
            laws_requests::lemma_places(second, params, workspace_id, window_id, 0, 0);
            let (third, asked) = params::workspace_place(
                second,
                workspace_id,
                window_id,
                params,
            );
            if let Ok(place) = asked {
                if model.state.sound() {
                    sound_changes::law_reorder_workspace_keeps_sound(
                        third.state,
                        workspace_id,
                        window_id,
                        place,
                    );
                }
            }
        }
    }
}

/// `workspace.select` keeps the state sound, and the names that were given out.
pub proof fn lemma_workspace_select(model: ModelView, drawn: Drawn, params: ParamsView)
    ensures
        model.workspace_select(params).0.holds_together(model, drawn),
{
    laws_requests::lemma_required(model, params, HandleKind::Workspace, "workspace_id"@);
    let (next, result) = params::required(model, params, HandleKind::Workspace, "workspace_id"@);
    if let Ok(workspace_id) = result {
        if model.state.sound() {
            sound_operations::law_select_workspace_keeps_sound(next.state, workspace_id);
        }
        laws_requests::lemma_told(
            next.with_state(next.state.select_workspace(workspace_id).0),
            workspace_id,
            None,
            None,
        );
    }
}

proof fn lemma_turned_to(model: ModelView, drawn: Drawn, params: ParamsView)
    ensures
        model.turned_to(params).0.holds_together(model, drawn),
        model.state.sound() ==> model.turned_to(params).0.state.sound(),
{
    laws_requests::lemma_targets(model, params);
    let (next, result) = params::window_target(model, params);
    if let Ok(window_id) = result {
        if model.state.sound() {
            sound_operations::law_focus_window_keeps_sound(next.state, window_id);
        }
    }
}

/// `workspace.next` and `workspace.previous` keep the state sound, and the names that were given
/// out.
pub proof fn lemma_workspace_relative(model: ModelView, drawn: Drawn, params: ParamsView, delta: int)
    ensures
        model.workspace_relative(params, delta).0.holds_together(model, drawn),
{
    lemma_turned_to(model, drawn, params);
    let (next, result) = model.turned_to(params);
    if result is Ok && model.state.sound() {
        sound_operations::law_select_relative_workspace_keeps_sound(next.state, delta);
    }
}

/// `workspace.last` keeps the state sound, and the names that were given out.
pub proof fn lemma_workspace_last(model: ModelView, drawn: Drawn, params: ParamsView)
    ensures
        model.workspace_last(params).0.holds_together(model, drawn),
{
    lemma_turned_to(model, drawn, params);
    let (next, result) = model.turned_to(params);
    if result is Ok && model.state.sound() {
        sound_operations::law_select_last_workspace_keeps_sound(next.state);
    }
}

/// `workspace.move_to_window` keeps the state sound, and the names that were given out.
pub proof fn lemma_workspace_move(model: ModelView, drawn: Drawn, params: ParamsView)
    ensures
        model.workspace_move(drawn, params).0.holds_together(model, drawn),
{
    laws_requests::lemma_required(model, params, HandleKind::Workspace, "workspace_id"@);
    let (first, result) = params::required(model, params, HandleKind::Workspace, "workspace_id"@);
    if let Ok(workspace_id) = result {
        laws_requests::lemma_required(first, params, HandleKind::Window, "window_id"@);
        let (second, found) = params::required(first, params, HandleKind::Window, "window_id"@);
        if let Ok(window_id) = found {
            if model.state.sound() && model.state.new_to(drawn) {
                sound_changes::law_move_workspace_keeps_sound(
                    second.state,
                    drawn,
                    workspace_id,
                    window_id,
                    params::flag(params, "focus"@, true),
                );
            }
        }
    }
}

/// `workspace.close` and `workspace.action` keep the state sound, and the names that were given
/// out.
pub proof fn lemma_workspace_close(model: ModelView, drawn: Drawn, params: ParamsView)
    ensures
        model.workspace_close(drawn, params).0.holds_together(model, drawn),
        model.workspace_action(drawn, params).0.holds_together(model, drawn),
{
    laws_requests::lemma_required(model, params, HandleKind::Workspace, "workspace_id"@);
    let (next, result) = params::required(model, params, HandleKind::Workspace, "workspace_id"@);
    if let Ok(workspace_id) = result {
        if model.state.sound() && model.state.new_to(drawn) {
            sound_changes::law_close_workspace_keeps_sound(next.state, drawn, workspace_id);
        }
        if let Some(title) = params::word(params, "title"@) {
            if model.state.sound() {
                sound_changes::law_rename_workspace_keeps_sound(next.state, workspace_id, title);
            }
        }
    }
}

// ---------------------------------------------------------------------------
// Panes
// ---------------------------------------------------------------------------

/// `pane.focus` keeps the state sound, and the names that were given out.
pub proof fn lemma_pane_focus(model: ModelView, drawn: Drawn, params: ParamsView)
    ensures
        model.pane_focus(params).0.holds_together(model, drawn),
{
    laws_requests::lemma_required(model, params, HandleKind::Pane, "pane_id"@);
    let (next, result) = params::required(model, params, HandleKind::Pane, "pane_id"@);
    if let Ok(pane_id) = result {
        if model.state.sound() {
            sound_operations::law_focus_pane_keeps_sound(next.state, pane_id);
        }
        let (changed, focused) = next.state.focus_pane(pane_id);
        if let Ok(workspace_id) = focused {
            laws_requests::lemma_told(
                next.with_state(changed),
                workspace_id,
                Some(pane_id),
                None,
            );
        }
    }
}

/// `pane.swap` keeps the state sound, and the names that were given out.
pub proof fn lemma_pane_swap(model: ModelView, drawn: Drawn, params: ParamsView)
    ensures
        model.pane_swap(params).0.holds_together(model, drawn),
{
    laws_requests::lemma_required(model, params, HandleKind::Pane, "pane_id"@);
    let (first, result) = params::required(model, params, HandleKind::Pane, "pane_id"@);
    if let Ok(pane_id) = result {
        laws_requests::lemma_required(first, params, HandleKind::Pane, "target_pane_id"@);
        let (second, found) = params::required(first, params, HandleKind::Pane, "target_pane_id"@);
        if let Ok(target) = found {
            let focus = params::flag(params, "focus"@, true);
            if model.state.sound() {
                sound_surfaces::law_swap_panes_keeps_sound(second.state, pane_id, target, focus);
            }
            let (changed, swapped) = second.state.swap_panes(pane_id, target, focus);
            if let Ok(workspace_id) = swapped {
                laws_requests::lemma_told(
                    second.with_state(changed),
                    workspace_id,
                    Some(pane_id),
                    None,
                );
            }
        }
    }
}

proof fn lemma_chosen_surface(model: ModelView, params: ParamsView)
    ensures
        model.chosen_surface(params).0.only_names(model),
{
    laws_requests::lemma_required(model, params, HandleKind::Surface, "surface_id"@);
    let (next, result) = params::optional(model, params, HandleKind::Surface, "surface_id"@);
    laws_requests::lemma_required(next, params, HandleKind::Pane, "pane_id"@);
    laws_requests::lemma_targets(next, params);
}

/// `pane.break` keeps the state sound, and the names that were given out.
pub proof fn lemma_pane_break(model: ModelView, drawn: Drawn, params: ParamsView)
    ensures
        model.pane_break(drawn, params).0.holds_together(model, drawn),
{
    lemma_chosen_surface(model, params);
    let (next, result) = model.chosen_surface(params);
    if let Ok(surface_id) = result {
        let focus = params::flag(params, "focus"@, true);
        if model.state.sound() && model.state.new_to(drawn) {
            sound_surfaces::law_break_surface_keeps_sound(next.state, drawn, surface_id, focus);
        }
        let (changed, broken) = next.state.break_surface(drawn, surface_id, focus);
        if let Ok(workspace_id) = broken {
            laws_requests::lemma_told(
                next.with_state(changed),
                workspace_id,
                None,
                Some(surface_id),
            );
        }
    }
}

proof fn lemma_moved(
    model: ModelView,
    drawn: Drawn,
    surface_id: SurfaceId,
    workspace_id: WorkspaceId,
    pane_id: PaneId,
    index: int,
    focus: bool,
)
    requires
        index >= 0,
    ensures
        ({
            let (changed, result) = model.state.move_surface(
                drawn,
                surface_id,
                workspace_id,
                pane_id,
                index,
                focus,
            );
            let next = model.with_state(changed);
            &&& next.holds_together(model, drawn)
            &&& match result {
                Ok((place, pane, moved)) => next.finished(
                    next.told(place, Some(pane), Some(moved)),
                ).0.holds_together(model, drawn),
                Err(_) => true,
            }
        }),
{
    if model.state.sound() && model.state.new_to(drawn) {
        sound_surfaces::law_move_surface_keeps_sound(
            model.state,
            drawn,
            surface_id,
            workspace_id,
            pane_id,
            index,
            focus,
        );
    }
    let (changed, result) = model.state.move_surface(
        drawn,
        surface_id,
        workspace_id,
        pane_id,
        index,
        focus,
    );
    if let Ok((place, pane, moved)) = result {
        laws_requests::lemma_told(model.with_state(changed), place, Some(pane), Some(moved));
    }
}

/// `pane.join` keeps the state sound, and the names that were given out.
pub proof fn lemma_pane_join(model: ModelView, drawn: Drawn, params: ParamsView)
    ensures
        model.pane_join(drawn, params).0.holds_together(model, drawn),
{
    laws_requests::lemma_required(model, params, HandleKind::Pane, "target_pane_id"@);
    let (first, result) = params::required(model, params, HandleKind::Pane, "target_pane_id"@);
    if let Ok(target) = result {
        lemma_chosen_surface(first, params);
        let (next, found) = first.chosen_surface(params);
        if let Ok(surface_id) = found {
            if let Some(workspace_id) = next.state.owner_id(target) {
                if let Some(pane) = next.pane_in(workspace_id, target) {
                    lemma_moved(
                        next,
                        drawn,
                        surface_id,
                        workspace_id,
                        target,
                        pane.surfaces.len() as int,
                        params::flag(params, "focus"@, true),
                    );
                }
            }
        }
    }
}

/// `pane.last` keeps the state sound, and the names that were given out.
pub proof fn lemma_pane_last(model: ModelView, drawn: Drawn, params: ParamsView)
    ensures
        model.pane_last(params).0.holds_together(model, drawn),
{
    laws_requests::lemma_targets(model, params);
    let (first, found) = params::workspace_target(model, params);
    if let Ok(workspace_id) = found {
        if model.state.sound() {
            sound_operations::law_select_workspace_keeps_sound(first.state, workspace_id);
        }
    }
    let (next, result) = model.opened_workspace(params);
    assert(next.holds_together(model, drawn));
    if result is Ok {
        if model.state.sound() {
            sound_operations::law_moving_between_panes_keeps_sound(
                next.state,
                crate::layout::FocusDirection::Left,
            );
        }
        let (changed, focused) = next.state.focus_last_pane();
        if let Ok((workspace_id, pane_id)) = focused {
            laws_requests::lemma_told(
                next.with_state(changed),
                workspace_id,
                Some(pane_id),
                None,
            );
        }
    }
}

proof fn lemma_split_beside(
    model: ModelView,
    drawn: Drawn,
    surface_id: SurfaceId,
    way: (SplitOrientation, bool),
)
    ensures
        model.split_beside(drawn, surface_id, way).0.holds_together(model, drawn),
{
    if model.state.sound() && model.state.new_to(drawn) {
        sound_surfaces::law_split_surface_keeps_sound(
            model.state,
            drawn,
            surface_id,
            way.0,
            way.1,
            false,
        );
    }
    let (changed, result) = model.state.split_surface(drawn, surface_id, way.0, way.1, false);
    if let Ok((workspace_id, pane_id, made)) = result {
        laws_requests::lemma_told(
            model.with_state(changed),
            workspace_id,
            Some(pane_id),
            Some(made),
        );
    }
}

/// `pane.create` keeps the state sound, and the names that were given out.
pub proof fn lemma_pane_create(model: ModelView, drawn: Drawn, params: ParamsView)
    ensures
        model.pane_create(drawn, params).0.holds_together(model, drawn),
{
    laws_requests::lemma_targets(model, params);
    let (next, found) = params::workspace_target(model, params);
    if let Ok(way) = params::direction(params) {
        if let Ok(workspace_id) = found {
            if let Some(workspace) = next.state.workspace(workspace_id) {
                if let Some(surface_id) = workspace.selected_surface_id() {
                    lemma_split_beside(next, drawn, surface_id, way);
                }
            }
        }
    }
}

// ---------------------------------------------------------------------------
// Surfaces
// ---------------------------------------------------------------------------

/// `surface.focus` keeps the state sound, and the names that were given out.
pub proof fn lemma_surface_focus(model: ModelView, drawn: Drawn, params: ParamsView)
    ensures
        model.surface_focus(params).0.holds_together(model, drawn),
{
    laws_requests::lemma_required(model, params, HandleKind::Surface, "surface_id"@);
    let (next, result) = params::required(model, params, HandleKind::Surface, "surface_id"@);
    if let Ok(surface_id) = result {
        if model.state.sound() {
            sound_operations::law_focus_surface_keeps_sound(next.state, surface_id);
        }
        let (changed, focused) = next.state.focus_surface(surface_id);
        if let Ok((workspace_id, pane_id)) = focused {
            laws_requests::lemma_told(
                next.with_state(changed),
                workspace_id,
                Some(pane_id),
                Some(surface_id),
            );
        }
    }
}

/// `surface.split` keeps the state sound, and the names that were given out.
pub proof fn lemma_surface_split(model: ModelView, drawn: Drawn, params: ParamsView)
    ensures
        model.surface_split(drawn, params).0.holds_together(model, drawn),
{
    laws_requests::lemma_targets(model, params);
    let (next, found) = params::surface_target(model, params);
    if let Ok(way) = params::direction(params) {
        if let Ok(surface_id) = found {
            lemma_split_beside(next, drawn, surface_id, way);
        }
    }
}

proof fn lemma_pane_for(model: ModelView, params: ParamsView, workspace_id: WorkspaceId)
    ensures
        model.pane_for(params, workspace_id).0.only_names(model),
{
    laws_requests::lemma_required(model, params, HandleKind::Pane, "pane_id"@);
}

/// `surface.create` keeps the state sound, and the names that were given out.
pub proof fn lemma_surface_create(model: ModelView, drawn: Drawn, params: ParamsView)
    ensures
        model.surface_create(drawn, params).0.holds_together(model, drawn),
{
    laws_requests::lemma_targets(model, params);
    let (first, found) = params::workspace_target(model, params);
    if let Ok(workspace_id) = found {
        lemma_pane_for(first, params, workspace_id);
        let (next, result) = first.pane_for(params, workspace_id);
        if let Ok(pane_id) = result {
            if model.state.sound() {
                sound_surfaces::law_create_surface_keeps_sound(
                    next.state,
                    drawn,
                    workspace_id,
                    pane_id,
                    false,
                );
            }
            let (changed, made) = next.state.create_surface(drawn, workspace_id, pane_id, false);
            if let Ok((place, pane, surface)) = made {
                laws_requests::lemma_told(
                    next.with_state(changed),
                    place,
                    Some(pane),
                    Some(surface),
                );
            }
        }
    }
}

/// `surface.close` keeps the state sound, and the names that were given out.
pub proof fn lemma_surface_close(model: ModelView, drawn: Drawn, params: ParamsView)
    ensures
        model.surface_close(params).0.holds_together(model, drawn),
{
    laws_requests::lemma_targets(model, params);
    let (first, found) = params::workspace_target(model, params);
    if let Ok(workspace_id) = found {
        laws_requests::lemma_required(first, params, HandleKind::Surface, "surface_id"@);
        let (next, result) = first.surface_for(params, workspace_id);
        if let Ok(surface_id) = result {
            if model.state.sound() {
                sound_surfaces::law_close_surface_keeps_sound(
                    next.state,
                    workspace_id,
                    surface_id,
                );
            }
            let (changed, closed) = next.state.close_surface(workspace_id, surface_id);
            if let Ok((_, pane_id, _)) = closed {
                laws_requests::lemma_told(
                    next.with_state(changed),
                    workspace_id,
                    Some(pane_id),
                    Some(surface_id),
                );
            }
        }
    }
}

proof fn lemma_placed(
    model: ModelView,
    drawn: Drawn,
    surface_id: SurfaceId,
    workspace_id: WorkspaceId,
    pane_id: PaneId,
    params: ParamsView,
    focus: bool,
)
    ensures
        model.placed(
            drawn,
            surface_id,
            workspace_id,
            pane_id,
            params,
            focus,
        ).0.holds_together(model, drawn),
{
    laws_requests::lemma_places(model, params, workspace_id, 0, surface_id, pane_id);
    let (next, result) = params::surface_place(model, surface_id, pane_id, params);
    if let Ok(place) = result {
        lemma_moved(next, drawn, surface_id, workspace_id, pane_id, place, focus);
    }
}

proof fn lemma_destination(model: ModelView, params: ParamsView, source: WorkspaceId)
    ensures
        model.destination(params, source).0.only_names(model),
{
    laws_requests::lemma_required(model, params, HandleKind::Pane, "pane_id"@);
    laws_requests::lemma_required(model, params, HandleKind::Workspace, "workspace_id"@);
    laws_requests::lemma_required(model, params, HandleKind::Window, "window_id"@);
}

/// `surface.move` and `surface.reorder` keep the state sound, and the names that were given out.
pub proof fn lemma_surface_move(model: ModelView, drawn: Drawn, params: ParamsView)
    ensures
        model.surface_move(drawn, params).0.holds_together(model, drawn),
        model.surface_reorder(drawn, params).0.holds_together(model, drawn),
{
    laws_requests::lemma_required(model, params, HandleKind::Surface, "surface_id"@);
    let (first, result) = params::required(model, params, HandleKind::Surface, "surface_id"@);
    if let Ok(surface_id) = result {
        if let Some((source, home)) = first.state.locate_surface(surface_id) {
            lemma_placed(first, drawn, surface_id, source, home, params, false);
            lemma_destination(first, params, source);
            let (second, found) = first.destination(params, source);
            if let Ok(workspace_id) = found {
                lemma_pane_for(second, params, workspace_id);
                let (third, chosen) = second.pane_for(params, workspace_id);
                if let Ok(pane_id) = chosen {
                    lemma_placed(
                        third,
                        drawn,
                        surface_id,
                        workspace_id,
                        pane_id,
                        params,
                        params::flag(params, "focus"@, true),
                    );
                }
            }
        }
    }
}

proof fn lemma_cleared(state: StateView, list: Seq<SurfaceId>, count: int)
    requires
        state.sound(),
    ensures
        state.cleared(list, count).sound(),
    decreases count,
{
    if count > 0 {
        lemma_cleared(state, list, count - 1);
        sound_operations::law_text_keeps_sound(
            state.cleared(list, count - 1),
            list[count - 1],
            Seq::empty(),
        );
    }
}

proof fn lemma_history_cleared(model: ModelView, drawn: Drawn, surface_id: SurfaceId)
    ensures
        model.history_cleared(surface_id).0.holds_together(model, drawn),
{
    if model.state.sound() {
        sound_operations::law_text_keeps_sound(model.state, surface_id, Seq::empty());
    }
    let next = model.with_state(model.state.clear_surface_history(surface_id).0);
    if let Some((workspace_id, _)) = next.state.locate_surface(surface_id) {
        laws_requests::lemma_told(next, workspace_id, None, Some(surface_id));
    }
}

/// `surface.clear_history` keeps the state sound, and the names that were given out.
pub proof fn lemma_surface_clear_history(model: ModelView, drawn: Drawn, params: ParamsView)
    ensures
        model.surface_clear_history(params).0.holds_together(model, drawn),
{
    laws_requests::lemma_required(model, params, HandleKind::Surface, "surface_id"@);
    let (first, result) = params::optional(model, params, HandleKind::Surface, "surface_id"@);
    if let Ok(Some(surface_id)) = result {
        lemma_history_cleared(first, drawn, surface_id);
    }
    laws_requests::lemma_targets(first, params);
    let (next, found) = params::workspace_target(first, params);
    if let Ok(workspace_id) = found {
        if let Some(workspace) = next.state.workspace(workspace_id) {
            let list = answer_surfaces::ids_of(workspace.panes, workspace.panes.len() as int);
            if model.state.sound() {
                lemma_cleared(next.state, list, list.len() as int);
            }
            laws_requests::lemma_told(
                next.with_state(next.state.cleared(list, list.len() as int)),
                workspace_id,
                None,
                None,
            );
        }
    }
}

proof fn lemma_typed(
    model: ModelView,
    drawn: Drawn,
    surface_id: SurfaceId,
    content: Seq<char>,
)
    ensures
        model.typed(surface_id, content).0.holds_together(model, drawn),
        match model.typed(surface_id, content).1 {
            Ok(reply) => reply.model.holds_together(model, drawn),
            Err(_) => true,
        },
{
    if model.state.sound() {
        sound_operations::law_text_keeps_sound(model.state, surface_id, content);
    }
}

/// `surface.send_text` and `surface.send_key` keep the state sound, and the names that were given
/// out.
pub proof fn lemma_surface_send(model: ModelView, drawn: Drawn, params: ParamsView)
    ensures
        model.surface_send_text(params).0.holds_together(model, drawn),
        model.surface_send_key(params).0.holds_together(model, drawn),
{
    laws_requests::lemma_targets(model, params);
    let (next, result) = params::surface_target(model, params);
    if let Ok(surface_id) = result {
        if let Some(content) = params::raw_word(params, "text"@) {
            lemma_typed(next, drawn, surface_id, content);
        }
        if let Some(key) = params::word(params, "key"@) {
            if let Ok(content) = crate::keys::terminal_key(key) {
                lemma_typed(next, drawn, surface_id, content);
            }
        }
    }
}

/// `surface.trigger_flash` keeps the state sound, and the names that were given out.
pub proof fn lemma_surface_flash(model: ModelView, drawn: Drawn, params: ParamsView)
    ensures
        model.surface_trigger_flash(params).0.holds_together(model, drawn),
{
    laws_requests::lemma_targets(model, params);
    let (next, result) = params::surface_target(model, params);
    if let Ok(surface_id) = result {
        if model.state.sound() {
            sound_operations::law_shell_news_keeps_sound(
                next.state,
                surface_id,
                None,
                HealthView::initial(),
            );
        }
        let (changed, flashed) = next.state.trigger_flash(surface_id);
        if let Ok((workspace_id, _, _)) = flashed {
            laws_requests::lemma_told(
                next.with_state(changed),
                workspace_id,
                None,
                Some(surface_id),
            );
        }
    }
}

proof fn lemma_surface_acted(
    model: ModelView,
    drawn: Drawn,
    surface_id: SurfaceId,
    action: Seq<char>,
    params: ParamsView,
)
    ensures
        model.surface_acted(surface_id, action, params).0.holds_together(model, drawn),
{
    if model.state.sound() {
        sound_operations::law_marking_keeps_sound(model.state, surface_id);
        let title = match params::word(params, "title"@) {
            Some(inner) => inner,
            None => Seq::empty(),
        };
        sound_operations::law_rename_surface_keeps_sound(model.state, surface_id, title);
    }
}

proof fn lemma_surface_acting(model: ModelView, drawn: Drawn, params: ParamsView)
    ensures
        model.surface_acting(params).0.holds_together(model, drawn),
        match model.surface_acting(params).1 {
            Ok(reply) => reply.model.holds_together(model, drawn),
            Err(_) => true,
        },
{
    laws_requests::lemma_targets(model, params);
    let (next, result) = params::surface_target(model, params);
    if let Ok(surface_id) = result {
        if let Some(action) = params::word(params, "action"@) {
            lemma_surface_acted(next, drawn, surface_id, action, params);
            let acted = next.surface_acted(surface_id, action, params).0;
            if let Some((workspace_id, pane_id)) = next.state.locate_surface(surface_id) {
                if let Ok(window_id) = next.window_of(workspace_id) {
                    lemma_tab_reply(acted, window_id, workspace_id, pane_id, surface_id);
                }
            }
        }
    }
}

proof fn lemma_tab_reply(
    model: ModelView,
    window_id: WindowId,
    workspace_id: WorkspaceId,
    pane_id: PaneId,
    surface_id: SurfaceId,
)
    ensures
        model.tab_reply(window_id, workspace_id, pane_id, surface_id).model.only_names(model),
{
}

/// `surface.action` and `tab.action` keep the state sound, and the names that were given out.
pub proof fn lemma_tab_action(model: ModelView, drawn: Drawn, params: ParamsView)
    ensures
        model.surface_action(params).0.holds_together(model, drawn),
        model.tab_action(params).0.holds_together(model, drawn),
{
    lemma_surface_acting(model, drawn, params);
    let translated = crate::answer_actions::about_surface(params);
    lemma_surface_acting(model, drawn, translated);
    laws_requests::lemma_targets(model, translated);
    let (next, result) = params::surface_target(model, translated);
    if let Ok(surface_id) = result {
        if let Some((workspace_id, pane_id)) = next.state.locate_surface(surface_id) {
            if let Ok(window_id) = next.window_of(workspace_id) {
                lemma_tab_reply(next, window_id, workspace_id, pane_id, surface_id);
            }
        }
    }
}

// ---------------------------------------------------------------------------
// The palette
// ---------------------------------------------------------------------------

/// Telling what the palette shows changes nothing but names.
pub proof fn lemma_palette_of(model: ModelView, window_id: WindowId)
    ensures
        model.palette_of(window_id).0.only_names(model),
        model.input_selection(answer_palette::naming("window_id"@, window_id)).0.only_names(model),
        model.palette_selection(answer_palette::naming("window_id"@, window_id)).0.only_names(
            model,
        ),
        model.palette_results(answer_palette::naming("window_id"@, window_id)).0.only_names(model),
{
    laws_requests::law_showing_only_names(
        model,
        answer_palette::naming("window_id"@, window_id),
    );
}

/// Opening, closing and filling the palette changes nothing else but names.
pub proof fn lemma_palette_changes(
    model: ModelView,
    window_id: WindowId,
    mode: CommandPaletteMode,
    state: PaletteView,
)
    ensures
        model.palette_closed(window_id).only_names(model),
        model.palette_opened(window_id, mode).only_names(model),
        model.with_palette(window_id, state).only_names(model),
        model.palette_closed(window_id).palette_of(window_id).0.only_names(model),
        model.palette_opened(window_id, mode).palette_of(window_id).0.only_names(model),
        model.with_palette(window_id, state).palette_of(window_id).0.only_names(model),
{
    lemma_palette_of(model.palette_closed(window_id), window_id);
    lemma_palette_of(model.palette_opened(window_id, mode), window_id);
    lemma_palette_of(model.with_palette(window_id, state), window_id);
}

proof fn lemma_palette_renaming(
    model: ModelView,
    window_id: WindowId,
    target: RenameTarget,
    title: Seq<char>,
)
    ensures
        model.palette_renaming(window_id, target, title).palette_of(window_id).0.only_names(model),
{
    lemma_palette_of(model.palette_renaming(window_id, target, title), window_id);
}

/// Asking for a title changes nothing but the palette and names.
pub proof fn lemma_rename_open(model: ModelView, window_id: WindowId)
    ensures
        model.rename_tab_of(window_id).0.only_names(model),
        model.rename_workspace_of(window_id).0.only_names(model),
{
    if let Some(surface_id) = model.shown_surface(window_id) {
        if let Ok(title) = model.surface_title(surface_id) {
            lemma_palette_renaming(model, window_id, RenameTarget::Surface(surface_id), title);
        }
    }
    if let Some(workspace_id) = model.shown_workspace(window_id) {
        if let Some(workspace) = model.state.workspace(workspace_id) {
            lemma_palette_renaming(
                model,
                window_id,
                RenameTarget::Workspace(workspace_id),
                workspace.title,
            );
        }
    }
}

/// The requests that open, close and fill the palette change nothing but it, and names.
pub proof fn law_palette_only_names(model: ModelView, params: ParamsView)
    ensures
        model.palette_toggle(params).0.only_names(model),
        model.input_interact(params).0.only_names(model),
        model.input_delete_backward(params).0.only_names(model),
        model.rename_select_all_set(params).0.only_names(model),
        model.rename_tab_open(params).0.only_names(model),
        model.shortcut_set(params).0.only_names(model),
{
    laws_requests::lemma_targets(model, params);
    let (next, result) = params::window_target(model, params);
    if let Ok(window_id) = result {
        let palette = next.palette(window_id);
        lemma_palette_changes(
            next,
            window_id,
            CommandPaletteMode::Switcher,
            palette.all_selected(),
        );
        lemma_palette_changes(next, window_id, CommandPaletteMode::Commands, palette.erased());
        lemma_palette_of(next, window_id);
        lemma_palette_of(next.with_palette(window_id, palette.all_selected()), window_id);
        lemma_rename_open(next, window_id);
    }
}

/// Choosing a row that stands for a workspace or a surface keeps the state sound, and the names.
pub proof fn lemma_switch(model: ModelView, drawn: Drawn, window_id: WindowId, row: PaletteRowView)
    ensures
        model.switch_to_workspace(window_id, row).0.holds_together(model, drawn),
        model.switch_to_surface(window_id, row).0.holds_together(model, drawn),
{
    if let Some(workspace_id) = answer_palette::row_id(row.workspace_id) {
        if model.state.sound() {
            sound_operations::law_select_workspace_keeps_sound(model.state, workspace_id);
        }
        let next = model.with_state(model.state.select_workspace(workspace_id).0);
        laws_requests::lemma_told(next.palette_closed(window_id), workspace_id, None, None);
    }
    if let Some(surface_id) = answer_palette::row_id(row.surface_id) {
        if model.state.sound() {
            sound_operations::law_focus_surface_keeps_sound(model.state, surface_id);
        }
        let (changed, focused) = model.state.focus_surface(surface_id);
        let next = model.with_state(changed);
        if let Ok((workspace_id, pane_id)) = focused {
            laws_requests::lemma_told(
                next.palette_closed(window_id),
                workspace_id,
                Some(pane_id),
                Some(surface_id),
            );
        }
    }
}

/// Giving the title that was typed keeps the state sound, and the names that were given out.
pub proof fn lemma_renamed(model: ModelView, drawn: Drawn, window_id: WindowId)
    ensures
        model.renamed(window_id).0.holds_together(model, drawn),
{
    let palette = model.palette(window_id);
    let title = text::trimmed(palette.text);
    if model.state.sound() {
        if let Some(target) = palette.rename_target {
            match target {
                RenameTarget::Surface(surface_id) => {
                    sound_operations::law_rename_surface_keeps_sound(
                        model.state,
                        surface_id,
                        title,
                    );
                },
                RenameTarget::Workspace(workspace_id) => {
                    sound_changes::law_rename_workspace_keeps_sound(
                        model.state,
                        workspace_id,
                        title,
                    );
                },
            }
        }
    }
}

// ---------------------------------------------------------------------------
// Attention
// ---------------------------------------------------------------------------

/// Requests about attention keep the state sound, and the names that were given out.
pub proof fn lemma_attention(model: ModelView, drawn: Drawn, params: ParamsView)
    ensures
        model.notification_clear().0.holds_together(model, drawn),
        model.focus_override(params).0.holds_together(model, drawn),
        model.simulate_active().0.holds_together(model, drawn),
        model.flash_reset().0.holds_together(model, drawn),
{
    if model.state.sound() {
        sound_operations::law_forgetting_keeps_sound(model.state);
        sound_operations::law_select_workspace_keeps_sound(
            model.state,
            model.state.selected_workspace_id,
        );
    }
}

/// `debug.notification.focus` keeps the state sound, and the names that were given out.
pub proof fn lemma_notification_focus(model: ModelView, drawn: Drawn, params: ParamsView)
    ensures
        model.notification_focus(params).0.holds_together(model, drawn),
{
    laws_requests::lemma_required(model, params, HandleKind::Workspace, "workspace_id"@);
    let (first, result) = params::required(model, params, HandleKind::Workspace, "workspace_id"@);
    if let Ok(workspace_id) = result {
        laws_requests::lemma_required(first, params, HandleKind::Surface, "surface_id"@);
        let (next, found) = params::optional(first, params, HandleKind::Surface, "surface_id"@);
        if let Ok(Some(surface_id)) = found {
            if model.state.sound() {
                sound_operations::law_focus_surface_keeps_sound(next.state, surface_id);
            }
            let (changed, focused) = next.state.focus_surface(surface_id);
            if let Ok((place, pane_id)) = focused {
                laws_requests::lemma_told(
                    next.with_state(changed),
                    place,
                    Some(pane_id),
                    Some(surface_id),
                );
            }
        }
        if let Ok(None) = found {
            if model.state.sound() {
                sound_operations::law_select_workspace_keeps_sound(next.state, workspace_id);
            }
            laws_requests::lemma_told(
                next.with_state(next.state.select_workspace(workspace_id).0),
                workspace_id,
                None,
                None,
            );
        }
    }
}

/// The first step of a notification changes nothing but names.
pub proof fn lemma_notification_steps(model: ModelView, params: ParamsView)
    ensures
        model.notification_create(params).0.only_names(model),
        model.notification_create_for_surface(params).0.only_names(model),
{
    laws_requests::lemma_targets(model, params);
    laws_requests::lemma_required(model, params, HandleKind::Surface, "surface_id"@);
    let (first, found) = params::workspace_target(model, params);
    if let Ok(workspace_id) = found {
        lemma_notification_reply(
            first,
            None,
            workspace_id,
            first.selected_surface(workspace_id),
            false,
        );
    }
    let (next, result) = params::required(model, params, HandleKind::Surface, "surface_id"@);
    if let Ok(surface_id) = result {
        if let Some((workspace_id, _)) = next.state.locate_surface(surface_id) {
            lemma_notification_reply(next, None, workspace_id, Some(surface_id), false);
        }
    }
}

proof fn lemma_notification_reply(
    model: ModelView,
    notification_id: Option<NotificationId>,
    workspace_id: WorkspaceId,
    surface_id: Option<SurfaceId>,
    delivered: bool,
)
    ensures
        model.notification_reply(
            notification_id,
            workspace_id,
            surface_id,
            delivered,
        ).model.only_names(model),
{
}

/// Noting a notification that the desktop was asked to show keeps the state sound, and the names
/// that were given out.
pub proof fn law_delivery_holds_together(
    model: ModelView,
    drawn: Drawn,
    id: ValueView,
    pending: PendingView,
    delivered: bool,
)
    ensures
        model.delivered(drawn, id, pending, delivered).0.holds_together(model, drawn),
{
    if model.state.sound() {
        sound_operations::law_create_notification_keeps_sound(
            model.state,
            drawn,
            pending.workspace_id,
            pending.surface_id,
            pending.title,
            pending.subtitle,
            pending.body,
            delivered,
        );
    }
    let (changed, result) = model.state.create_notification(
        drawn,
        pending.workspace_id,
        pending.surface_id,
        pending.title,
        pending.subtitle,
        pending.body,
        delivered,
    );
    if let Ok(notification_id) = result {
        lemma_notification_reply(
            model.with_state(changed),
            Some(notification_id),
            pending.workspace_id,
            pending.surface_id,
            delivered,
        );
    }
}

} // verus!
