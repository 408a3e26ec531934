//! Every operation keeps the state sound.

use crate::ids::{Drawn, PaneId, SurfaceId, WindowId, WorkspaceId, NIL};
use crate::layout::FocusDirection;
use crate::sound_states;
use crate::sound_workspaces;
use crate::state;
use crate::state::StateView;
use crate::surface::{HealthView, SurfaceView};
use crate::workspace;
use crate::workspace::WorkspaceView;
use vstd::prelude::*;

verus! {

// ---------------------------------------------------------------------------
// The focus
// ---------------------------------------------------------------------------

/// Looking at a workspace keeps the state sound.
pub proof fn lemma_attended(
    state: StateView,
    workspace_id: WorkspaceId,
    surface_id: Option<SurfaceId>,
)
    requires
        state.sound(),
    ensures
        state.attended(workspace_id, surface_id).0.sound(),
{
    let noticed = state.noticed(workspace_id, surface_id);
    assert(noticed.sound());
    if let Some(surface) = surface_id {
        lemma_calmed(noticed, surface);
        let calm = noticed.calmed(surface).0;
        sound_states::lemma_target(calm, surface);
        if let Some((at, found)) = calm.target(surface) {
            let count = state.notices(workspace_id, surface_id);
            sound_states::lemma_with_surface(
                calm,
                at,
                surface,
                SurfaceView {
                    flash_count: crate::state_focus::raised(found.flash_count, count as u64),
                    ..found
                },
            );
        }
    }
}

proof fn lemma_calmed(state: StateView, surface_id: SurfaceId)
    requires
        state.sound(),
    ensures
        state.calmed(surface_id).0.sound(),
{
    sound_states::lemma_target(state, surface_id);
    if let Some((at, found)) = state.target(surface_id) {
        sound_states::lemma_with_surface(state, at, surface_id, found.attention(false, false));
    }
}

/// In a sound state the current window, the current workspace, its selected pane and its selected
/// surface all exist, and the current window holds the current workspace.
pub proof fn law_something_is_current(state: StateView)
    requires
        state.sound(),
    ensures
        state.window(state.window_id) is Some,
        match state.selected_workspace() {
            Some(workspace) => workspace.window_id == state.window_id && workspace.pane(
                workspace.selected_pane_id,
            ) is Some,
            None => false,
        },
        match state.current_surface_id() {
            Some(surface_id) => state.selected_workspace()->0.surface(surface_id) is Some,
            None => false,
        },
        state.current_pane_id() is Some,
        state.windows.len() > 0,
        state.workspaces.len() > 0,
{
    state::lemma_window_from(state.windows, state.window_id, 0);
    let at = state.window_at(state.window_id)->0;
    let window = state.windows[at];
    let place = choose|k: int|
        0 <= k < state.workspaces.len() && (#[trigger] state.workspaces[k]).id
            == window.selected_workspace_id && state.workspaces[k].window_id == window.id;
    sound_states::lemma_workspace_place(state.workspaces, place, 0);
    let workspace = state.workspaces[place];
    assert(workspace.sound());
    workspace::lemma_pane_from(workspace.panes, workspace.selected_pane_id, 0);
    let pane = workspace.pane(workspace.selected_pane_id)->0;
    assert(pane.sound());
    lemma_held_surface(workspace, workspace.pane_at(workspace.selected_pane_id)->0, 0);
    sound_workspaces::lemma_holder(workspace.panes, pane.selected_surface_id, 0);
}

proof fn lemma_held_surface(workspace: WorkspaceView, at: int, from: int)
    requires
        0 <= from <= at < workspace.panes.len(),
        workspace.panes[at].sound(),
    ensures
        workspace::holder_from(
            workspace.panes,
            workspace.panes[at].selected_surface_id,
            from,
        ) is Some,
    decreases at - from,
{
    if from < at && workspace.panes[from].surface_at(
        workspace.panes[at].selected_surface_id,
    ) is None {
        lemma_held_surface(workspace, at, from + 1);
    }
}

/// Focusing a window keeps the state sound, and succeeds for each window.
pub proof fn law_focus_window_keeps_sound(state: StateView, window_id: WindowId)
    requires
        state.sound(),
    ensures
        state.focus_window(window_id).0.sound(),
        state.focus_window(window_id).1 is Ok == (state.window_at(window_id) is Some),
{
    if state.window_at(window_id) is Some {
        state::lemma_window_from(state.windows, window_id, 0);
        let at = state.window_at(window_id)->0;
        let shown = state.windows[at].selected_workspace_id;
        assert(sound_states::houses(state.workspaces, window_id, shown));
        sound_states::lemma_repaired(state, window_id, shown, NIL, NIL);
        let next = state.repaired(window_id).synced_from(window_id);
        assert(next.sound());
        lemma_shown_exists(next);
        lemma_attended(next, next.selected_workspace_id, next.current_surface_id());
    }
}

proof fn lemma_shown_exists(state: StateView)
    requires
        state.sound(),
    ensures
        state.selected_workspace_id != NIL,
{
    law_something_is_current(state);
    state::lemma_workspace_from(state.workspaces, state.selected_workspace_id, 0);
}

/// Making a workspace of its window the current one gives a sound state.
proof fn lemma_shown(state: StateView, at: int)
    requires
        state.framed_but(NIL, NIL),
        0 <= at < state.workspaces.len(),
    ensures
        state.showing(state.workspaces[at].window_id, state.workspaces[at].id).synced_from(
            state.workspaces[at].window_id,
        ).sound(),
{
    let workspace = state.workspaces[at];
    assert(sound_states::houses(state.workspaces, workspace.window_id, workspace.id));
    assert(state.window_at(workspace.window_id) is Some);
    sound_states::lemma_showing(state, workspace.window_id, workspace.id);
}

/// Selecting a workspace keeps the state sound, and succeeds for each workspace.
pub proof fn law_select_workspace_keeps_sound(state: StateView, workspace_id: WorkspaceId)
    requires
        state.sound(),
    ensures
        state.select_workspace(workspace_id).0.sound(),
        state.select_workspace(workspace_id).1 is Ok == (state.workspace_at(
            workspace_id,
        ) is Some),
{
    state::lemma_workspace_from(state.workspaces, workspace_id, 0);
    if let Some(at) = state.workspace_at(workspace_id) {
        let workspace = state.workspaces[at];
        lemma_shown(state, at);
        let shown = state.showing(workspace.window_id, workspace_id).synced_from(
            workspace.window_id,
        );
        lemma_attended(shown, workspace_id, workspace.selected_surface_id());
    }
}

/// Selecting a workspace by its distance from the current one keeps the state sound, and always
/// succeeds.
pub proof fn law_select_relative_workspace_keeps_sound(state: StateView, delta: int)
    requires
        state.sound(),
    ensures
        state.select_relative_workspace(delta).0.sound(),
        state.select_relative_workspace(delta).1 is Ok,
{
    law_something_is_current(state);
    let list = state.workspace_ids_in(state.window_id);
    sound_states::lemma_housed(state, state.window_id, state.selected_workspace_id);
    state::lemma_window_from(state.windows, state.window_id, 0);
    assert(list.contains(state.selected_workspace_id));
    let next = state.relative_workspace(delta);
    assert(list.contains(next)) by {
        let current = match crate::state_focus::place_from(list, state.selected_workspace_id, 0) {
            Some(at) => at,
            None => 0,
        };
        vstd::arithmetic::div_mod::lemma_mod_bound(current + delta, list.len() as int);
    }
    sound_states::lemma_housed(state, state.window_id, next);
    let place = choose|k: int|
        0 <= k < state.workspaces.len() && (#[trigger] state.workspaces[k]).id == next
            && state.workspaces[k].window_id == state.window_id;
    sound_states::lemma_workspace_place(state.workspaces, place, 0);
    law_select_workspace_keeps_sound(state, next);
}

/// Selecting the workspace that was current before keeps the state sound, and always succeeds.
pub proof fn law_select_last_workspace_keeps_sound(state: StateView)
    requires
        state.sound(),
    ensures
        state.select_to(state.last_workspace()).0.sound(),
        state.select_to(state.last_workspace()).1 is Ok,
{
    law_something_is_current(state);
    law_select_workspace_keeps_sound(state, state.last_workspace());
}

/// Focusing a pane keeps the state sound.
pub proof fn law_focus_pane_keeps_sound(state: StateView, pane_id: PaneId)
    requires
        state.sound(),
    ensures
        state.focus_pane(pane_id).0.sound(),
{
    sound_states::lemma_owner(state.workspaces, pane_id, 0);
    if let Some(at) = state.owner(pane_id) {
        let workspace = state.workspaces[at];
        assert(workspace.sound());
        sound_workspaces::law_selecting_keeps_sound(workspace, pane_id);
        let next = state.with_workspace(at, workspace.selecting(pane_id));
        sound_states::lemma_with_workspace(
            state,
            at,
            workspace.selecting(pane_id),
            NIL,
            NIL,
        );
        lemma_shown(next, at);
    }
}

proof fn lemma_refocus(state: StateView, pane_id: PaneId)
    requires
        state.sound(),
    ensures
        state.refocus(pane_id).0.sound(),
{
    law_something_is_current(state);
    state::lemma_workspace_from(state.workspaces, state.selected_workspace_id, 0);
    let at = state.workspace_at(state.selected_workspace_id)->0;
    let workspace = state.workspaces[at];
    assert(workspace.sound());
    sound_workspaces::law_focus_pane_keeps_sound(workspace, pane_id);
    sound_states::lemma_with_workspace(state, at, workspace.focus_to(pane_id).0, NIL, NIL);
}

/// Moving the focus to the pane that had it before, or to a neighbor, keeps the state sound.
pub proof fn law_moving_between_panes_keeps_sound(state: StateView, direction: FocusDirection)
    requires
        state.sound(),
    ensures
        state.focus_last_pane().0.sound(),
        state.focus_adjacent_pane(direction).0.sound(),
{
    if let Some(workspace) = state.selected_workspace() {
        lemma_refocus(state, workspace.last_pane());
        lemma_refocus(state, workspace.adjacent_pane(direction));
    }
}

/// Focusing a surface keeps the state sound.
pub proof fn law_focus_surface_keeps_sound(state: StateView, surface_id: SurfaceId)
    requires
        state.sound(),
    ensures
        state.focus_surface(surface_id).0.sound(),
{
    sound_states::lemma_located(state.workspaces, surface_id, 0);
    if let Some(at) = state.located(surface_id) {
        let workspace = state.workspaces[at];
        assert(workspace.sound());
        sound_workspaces::law_focus_surface_keeps_sound(workspace, surface_id);
        let focused = workspace.focus_surface(surface_id).0;
        let directory = match focused.surface(surface_id) {
            Some(surface) => surface.current_directory,
            None => None,
        };
        let moved = WorkspaceView {
            current_directory: if directory is Some {
                directory
            } else {
                focused.current_directory
            },
            ..focused
        };
        sound_workspaces::lemma_repaned(focused, moved);
        sound_states::lemma_with_workspace(state, at, moved, NIL, NIL);
        let next = state.with_workspace(at, moved);
        lemma_shown(next, at);
        let shown = next.showing(workspace.window_id, workspace.id).synced_from(
            workspace.window_id,
        );
        lemma_in_directory(shown, workspace.id, directory);
        lemma_attended(
            shown.in_directory(workspace.id, directory),
            workspace.id,
            Some(surface_id),
        );
    }
}

/// A workspace can change its directory.
pub proof fn lemma_in_directory(
    state: StateView,
    workspace_id: WorkspaceId,
    directory: Option<Seq<char>>,
)
    requires
        state.sound(),
    ensures
        state.in_directory(workspace_id, directory).sound(),
{
    state::lemma_workspace_from(state.workspaces, workspace_id, 0);
    if let Some(at) = state.workspace_at(workspace_id) {
        let workspace = state.workspaces[at];
        assert(workspace.sound());
        let moved = WorkspaceView { current_directory: directory, ..workspace };
        sound_workspaces::lemma_repaned(workspace, moved);
        sound_states::lemma_with_workspace(state, at, moved, NIL, NIL);
    }
}

/// Focusing a neighbor of the selected surface keeps the state sound.
pub proof fn law_focus_relative_surface_keeps_sound(state: StateView, delta: int)
    requires
        state.sound(),
    ensures
        state.focus_relative_surface(delta).0.sound(),
{
    if state.current_surface_id() is Some {
        if let Ok(next) = state.selected_workspace()->0.neighbor(delta) {
            law_focus_surface_keeps_sound(state, next);
        }
    }
}

// ---------------------------------------------------------------------------
// Surfaces and notifications
// ---------------------------------------------------------------------------

/// The places that an operation on a tab reaches are those that an operation on a surface reaches.
pub proof fn lemma_tab(state: StateView, surface_id: SurfaceId)
    requires
        state.sound(),
    ensures
        match state.tab(surface_id) {
            Ok(at) => state.target(surface_id) == Some((at.0, state.surface_in_tab(at)))
                && forall|surface: SurfaceView| #[trigger]
                state.with_tab(at, surface) == state.with_surface(at.0, surface_id, surface),
            Err(_) => state.target(surface_id) is None,
        },
{
    sound_states::lemma_target(state, surface_id);
    if let Some(at) = state.located(surface_id) {
        let workspace = state.workspaces[at];
        assert(workspace.sound());
        sound_states::lemma_workspace_place(state.workspaces, at, 0);
        sound_workspaces::lemma_holder(workspace.panes, surface_id, 0);
        let place = workspace.holder(surface_id)->0;
        sound_workspaces::lemma_pane_place(workspace.panes, place);
    }
}

/// A surface at the place that an operation reaches can change for a sound one.
proof fn lemma_changed(state: StateView, surface_id: SurfaceId, surface: SurfaceView)
    requires
        state.sound(),
        surface.sound(),
        surface.id == surface_id,
    ensures
        match state.target(surface_id) {
            Some((at, _)) => state.with_surface(at, surface_id, surface).sound(),
            None => true,
        },
{
    sound_states::lemma_target(state, surface_id);
    if let Some((at, _)) = state.target(surface_id) {
        sound_states::lemma_with_surface(state, at, surface_id, surface);
    }
}

/// Renaming a surface keeps the state sound.
pub proof fn law_rename_surface_keeps_sound(
    state: StateView,
    surface_id: SurfaceId,
    title: Seq<char>,
)
    requires
        state.sound(),
    ensures
        state.rename_surface(surface_id, title).0.sound(),
        state.clear_surface_title(surface_id).0.sound(),
{
    lemma_renamed(state, surface_id, title);
    let numbered = state.numbered_terminal();
    assert(numbered.sound());
    lemma_renamed(numbered, surface_id, state.terminal_title());
}

proof fn lemma_renamed(state: StateView, surface_id: SurfaceId, title: Seq<char>)
    requires
        state.sound(),
    ensures
        state.rename_surface(surface_id, title).0.sound(),
{
    lemma_tab(state, surface_id);
    sound_states::lemma_target(state, surface_id);
    if let Ok(at) = state.tab(surface_id) {
        let surface = state.surface_in_tab(at);
        let name = crate::text::trimmed(title);
        let next = SurfaceView { title: name, ..surface };
        lemma_changed(state, surface_id, next);
        assert(state.with_tab(at, next).sound());
    }
}

/// Marking a surface keeps the state sound.
pub proof fn law_marking_keeps_sound(state: StateView, surface_id: SurfaceId)
    requires
        state.sound(),
    ensures
        state.mark_surface_unread(surface_id).0.sound(),
        state.mark_surface_read(surface_id).0.sound(),
{
    lemma_tab(state, surface_id);
    sound_states::lemma_target(state, surface_id);
    if let Ok(at) = state.tab(surface_id) {
        let surface = state.surface_in_tab(at);
        let marked = surface.attention(true, surface.unread_notification);
        lemma_changed(state, surface_id, marked);
        assert(state.with_tab(at, marked).sound());
        let calm = surface.attention(false, false);
        lemma_changed(state, surface_id, calm);
        assert(state.with_tab(at, calm).sound());
    }
}

/// Changing a surface's text keeps the state sound.
pub proof fn law_text_keeps_sound(state: StateView, surface_id: SurfaceId, content: Seq<char>)
    requires
        state.sound(),
    ensures
        state.retold(surface_id, content).0.sound(),
        state.append_terminal_text(surface_id, content).0.sound(),
        state.clear_surface_history(surface_id).0.sound(),
{
    lemma_retold(state, surface_id, content);
    sound_states::lemma_target(state, surface_id);
    if let Some((at, surface)) = state.target(surface_id) {
        lemma_retold(state, surface_id, surface.transcript + content);
        lemma_changed(
            state,
            surface_id,
            SurfaceView { transcript: Seq::empty(), ..surface }.attention(
                false,
                surface.unread_notification,
            ),
        );
    }
}

proof fn lemma_retold(state: StateView, surface_id: SurfaceId, content: Seq<char>)
    requires
        state.sound(),
    ensures
        state.retold(surface_id, content).0.sound(),
{
    sound_states::lemma_target(state, surface_id);
    if let Some((at, surface)) = state.target(surface_id) {
        lemma_changed(
            state,
            surface_id,
            SurfaceView { transcript: content, ..surface }.attention(
                state.unseen(surface_id),
                surface.unread_notification,
            ),
        );
    }
}

/// News of a surface's shell keeps the state sound.
pub proof fn law_shell_news_keeps_sound(
    state: StateView,
    surface_id: SurfaceId,
    directory: Option<Seq<char>>,
    health: HealthView,
)
    requires
        state.sound(),
    ensures
        state.update_directory(surface_id, directory).0.sound(),
        state.update_health(surface_id, health).0.sound(),
        state.trigger_flash(surface_id).0.sound(),
{
    sound_states::lemma_target(state, surface_id);
    if let Some((at, surface)) = state.target(surface_id) {
        let there = SurfaceView { current_directory: directory, ..surface };
        lemma_changed(state, surface_id, there);
        let workspace = state.workspaces[at];
        assert(workspace.sound());
        sound_workspaces::lemma_workspace_with_surface(workspace, surface_id, there);
        let moved = workspace.with_surface(surface_id, there);
        let followed = WorkspaceView { current_directory: directory, ..moved };
        sound_workspaces::lemma_repaned(moved, followed);
        sound_states::lemma_with_workspace(state, at, followed, NIL, NIL);
        lemma_changed(state, surface_id, SurfaceView { terminal_health: health, ..surface });
        lemma_changed(
            state,
            surface_id,
            SurfaceView {
                flash_count: crate::state_focus::raised(surface.flash_count, 1),
                ..surface
            }.attention(surface.unread_activity, true),
        );
    }
}

/// Adding a notification keeps the state sound.
pub proof fn law_create_notification_keeps_sound(
    state: StateView,
    drawn: Drawn,
    workspace_id: WorkspaceId,
    surface_id: Option<SurfaceId>,
    title: Seq<char>,
    subtitle: Seq<char>,
    body: Seq<char>,
    delivered: bool,
)
    requires
        state.sound(),
    ensures
        state.create_notification(
            drawn,
            workspace_id,
            surface_id,
            title,
            subtitle,
            body,
            delivered,
        ).0.sound(),
{
    state::lemma_workspace_from(state.workspaces, workspace_id, 0);
    if let Some(at) = state.workspace_at(workspace_id) {
        if let Some(id) = surface_id {
            if let Some(surface) = state.workspaces[at].surface(id) {
                assert(state.workspaces[at].sound());
                sound_workspaces::lemma_found_surface(state.workspaces[at], id);
                sound_states::lemma_with_surface(
                    state,
                    at,
                    id,
                    surface.attention(surface.unread_activity, true),
                );
            }
        }
    }
}

/// Forgetting the notifications or the flashes keeps the state sound.
pub proof fn law_forgetting_keeps_sound(state: StateView)
    requires
        state.sound(),
    ensures
        state.clear_notifications().sound(),
        state.reset_flash_counts().sound(),
{
    let quiet = state.clear_notifications();
    assert forall|at: int| 0 <= at < state.workspaces.len() implies {
        &&& (#[trigger] quiet.workspaces[at]).id == state.workspaces[at].id
        &&& quiet.workspaces[at].window_id == state.workspaces[at].window_id
        &&& quiet.workspaces[at].sound()
    } by {
        lemma_quieted(state.workspaces[at]);
    }
    sound_states::lemma_refilled(state, quiet, NIL, NIL);
    let calm = state.reset_flash_counts();
    assert forall|at: int| 0 <= at < state.workspaces.len() implies {
        &&& (#[trigger] calm.workspaces[at]).id == state.workspaces[at].id
        &&& calm.workspaces[at].window_id == state.workspaces[at].window_id
        &&& calm.workspaces[at].sound()
    } by {
        lemma_quieted(state.workspaces[at]);
    }
    sound_states::lemma_refilled(state, calm, NIL, NIL);
}

proof fn lemma_quieted(workspace: WorkspaceView)
    requires
        workspace.sound(),
    ensures
        workspace.quieted().sound(),
        workspace.unflashed().sound(),
{
    assert forall|at: int| 0 <= at < workspace.panes.len() implies (
    #[trigger] workspace.panes[at]).quieted().sound() && workspace.panes[at].unflashed().sound() by {
        let pane = workspace.panes[at];
        assert(pane.sound());
        sound_workspaces::lemma_surface_from(pane.surfaces, pane.selected_surface_id, 0);
        let place = pane.surface_at(pane.selected_surface_id)->0;
        assert(pane.quieted().surfaces[place].id == pane.selected_surface_id);
        assert(pane.unflashed().surfaces[place].id == pane.selected_surface_id);
        sound_workspaces::lemma_surface_found(pane.quieted().surfaces, place, 0);
        sound_workspaces::lemma_surface_found(pane.unflashed().surfaces, place, 0);
        assert forall|k: int| 0 <= k < pane.surfaces.len() implies (
        #[trigger] pane.unflashed().surfaces[k]).sound() by {
            assert(pane.surfaces[k].sound());
        }
    }
    sound_workspaces::lemma_repaned(workspace, workspace.quieted());
    sound_workspaces::lemma_repaned(workspace, workspace.unflashed());
}

} // verus!
