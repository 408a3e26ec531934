//! What holds once a surface has the focus.

use crate::ids::{SurfaceId, WorkspaceId, NIL};
use crate::laws_states;
use crate::sound_operations;
use crate::sound_states;
use crate::sound_workspaces;
use crate::state::{NotificationView, StateView};
use crate::state_focus;
use crate::surface::SurfaceView;
use crate::workspace::WorkspaceView;
use vstd::prelude::*;

verus! {

impl StateView {
    /// Whether the focus rests on a surface: its workspace is the current one, in its window, it is
    /// the selected surface of the selected pane there, the workspace is in its directory, and
    /// nothing about it is unread.
    pub open spec fn rests_on(self, surface_id: SurfaceId) -> bool {
        match self.target(surface_id) {
            None => false,
            Some((at, surface)) => {
                let workspace = self.workspaces[at];
                let place = workspace.holder(surface_id)->0;
                &&& self.window_id == workspace.window_id
                &&& self.selected_workspace_id == workspace.id
                &&& match self.window(workspace.window_id) {
                    Some(window) => window.selected_workspace_id == workspace.id
                        && window.last_selected_workspace_id == self.last_selected_workspace_id,
                    None => false,
                }
                &&& workspace.selected_pane_id == workspace.panes[place].id
                &&& workspace.panes[place].selected_surface_id == surface_id
                &&& surface.current_directory is Some ==> workspace.current_directory
                    == surface.current_directory
                &&& self.all_read(workspace.id, Some(surface_id))
                &&& !surface.unread
                &&& !surface.unread_activity
                &&& !surface.unread_notification
            },
        }
    }
}

proof fn lemma_none_seen(
    list: Seq<NotificationView>,
    workspace_id: WorkspaceId,
    surface_id: Option<SurfaceId>,
    count: int,
)
    requires
        0 <= count <= list.len(),
        forall|at: int|
            0 <= at < list.len() ==> !(#[trigger] list[at]).seen_from(workspace_id, surface_id),
    ensures
        state_focus::seen_count(list, workspace_id, surface_id, count) == 0,
    decreases count,
{
    if count > 0 {
        lemma_none_seen(list, workspace_id, surface_id, count - 1);
        assert(!list[count - 1].seen_from(workspace_id, surface_id));
    }
}

proof fn lemma_resting(state: StateView, surface_id: SurfaceId)
    requires
        state.sound(),
        state.rests_on(surface_id),
    ensures
        state.focus_surface(surface_id).0 == state,
        state.current_surface_id() == Some(surface_id),
{
    sound_states::lemma_target(state, surface_id);
    let (at, surface) = state.target(surface_id)->0;
    let workspace = state.workspaces[at];
    assert(workspace.sound());
    sound_workspaces::lemma_holder(workspace.panes, surface_id, 0);
    let place = workspace.holder(surface_id)->0;
    let pane = workspace.panes[place];
    sound_workspaces::lemma_pane_place(workspace.panes, place);
    sound_states::lemma_workspace_place(state.workspaces, at, 0);
    sound_workspaces::lemma_surface_from(pane.surfaces, surface_id, 0);
    assert(workspace.panes.update(place, pane) =~= workspace.panes);
    assert(workspace.focus_surface(surface_id).0 == workspace);
    assert(state.workspaces.update(at, workspace) =~= state.workspaces);
    assert(state.with_workspace(at, workspace) == state);
    assert(state.showing(workspace.window_id, workspace.id) == state);
    assert(state.synced_from(workspace.window_id) == state);
    assert(state.in_directory(workspace.id, surface.current_directory) == state);
    lemma_none_seen(
        state.notifications,
        workspace.id,
        Some(surface_id),
        state.notifications.len() as int,
    );
    assert(state_focus::seen(state.notifications, workspace.id, Some(surface_id))
        =~= state.notifications);
    assert(state.noticed(workspace.id, Some(surface_id)) == state);
    assert(surface.attention(false, false) == surface);
    let tab = pane.surface_at(surface_id)->0;
    assert(pane.surfaces.update(tab, surface) =~= pane.surfaces);
    assert(workspace.with_surface(surface_id, surface) == workspace);
    assert(state.calmed(surface_id) == (state, false));
    assert(state.attended(workspace.id, Some(surface_id)) == (state, false));
}

proof fn lemma_swapped_surface(
    state: StateView,
    at: int,
    surface_id: SurfaceId,
    surface: SurfaceView,
)
    requires
        state.sound(),
        match state.target(surface_id) {
            Some((place, _)) => place == at,
            None => false,
        },
        surface.id == surface_id,
    ensures
        ({
            let next = state.with_surface(at, surface_id, surface);
            let before = state.workspaces[at];
            let after = next.workspaces[at];
            let place = before.holder(surface_id)->0;
            &&& next.target(surface_id) == Some((at, surface))
            &&& after == (WorkspaceView { panes: after.panes, ..before })
            &&& after.holder(surface_id) == before.holder(surface_id)
            &&& after.panes[place].id == before.panes[place].id
            &&& after.panes[place].selected_surface_id == before.panes[place].selected_surface_id
        }),
{
    laws_states::lemma_retargeted(state, at, surface_id, surface);
    sound_states::lemma_target(state, surface_id);
    let workspace = state.workspaces[at];
    assert(workspace.sound());
    sound_workspaces::lemma_holder(workspace.panes, surface_id, 0);
    let place = workspace.holder(surface_id)->0;
    let pane = workspace.panes[place];
    sound_workspaces::lemma_surface_from(pane.surfaces, surface_id, 0);
    let tab = pane.surface_at(surface_id)->0;
    let renewed = pane.with_surface(tab, surface);
    laws_states::lemma_same_surfaces(pane.surfaces, renewed.surfaces, surface_id, 0);
    let changed = workspace.with_surface(surface_id, surface);
    assert forall|k: int| 0 <= k < workspace.panes.len() implies (
    #[trigger] changed.panes[k]).surface_at(surface_id) == workspace.panes[k].surface_at(
        surface_id,
    ) by {}
    laws_states::lemma_same_holders(workspace.panes, changed.panes, surface_id, 0);
}

/// Looking at a surface changes nothing of where the focus is.
proof fn lemma_attended_rests(state: StateView, surface_id: SurfaceId)
    requires
        state.sound(),
        state.target(surface_id) is Some,
    ensures
        ({
            let (at, surface) = state.target(surface_id)->0;
            let before = state.workspaces[at];
            let next = state.attended(before.id, Some(surface_id)).0;
            let after = next.workspaces[at];
            let place = before.holder(surface_id)->0;
            &&& next.windows == state.windows
            &&& next.window_id == state.window_id
            &&& next.selected_workspace_id == state.selected_workspace_id
            &&& next.last_selected_workspace_id == state.last_selected_workspace_id
            &&& match next.target(surface_id) {
                Some((found, looked)) => found == at && looked.current_directory
                    == surface.current_directory && !looked.unread && !looked.unread_activity
                    && !looked.unread_notification,
                None => false,
            }
            &&& after == (WorkspaceView { panes: after.panes, ..before })
            &&& after.holder(surface_id) == before.holder(surface_id)
            &&& after.panes[place].id == before.panes[place].id
            &&& after.panes[place].selected_surface_id == before.panes[place].selected_surface_id
            &&& next.all_read(before.id, Some(surface_id))
        }),
{
    sound_states::lemma_target(state, surface_id);
    let (at, surface) = state.target(surface_id)->0;
    let workspace_id = state.workspaces[at].id;
    let noticed = state.noticed(workspace_id, Some(surface_id));
    assert(noticed.sound());
    assert(noticed.target(surface_id) == state.target(surface_id));
    let quiet = surface.attention(false, false);
    let calm = noticed.with_surface(at, surface_id, quiet);
    sound_states::lemma_with_surface(noticed, at, surface_id, quiet);
    lemma_swapped_surface(noticed, at, surface_id, quiet);
    let count = state.notices(workspace_id, Some(surface_id));
    if count > 0 {
        let flashed = SurfaceView {
            flash_count: state_focus::raised(quiet.flash_count, count as u64),
            ..quiet
        };
        lemma_swapped_surface(calm, at, surface_id, flashed);
    }
}

/// Focusing a surface that is there succeeds, and the focus then rests on it.
pub proof fn law_focused_rests(state: StateView, surface_id: SurfaceId)
    requires
        state.sound(),
        state.located(surface_id) is Some,
    ensures
        state.focus_surface(surface_id).1 == Ok::<_, Seq<char>>(
            state.locate_surface(surface_id)->0,
        ),
        state.focus_surface(surface_id).0.rests_on(surface_id),
        state.focus_surface(surface_id).0.locate_surface(surface_id) == state.locate_surface(
            surface_id,
        ),
        state.focus_surface(surface_id).0.current_surface_id() == Some(surface_id),
{
    sound_states::lemma_target(state, surface_id);
    let at = state.located(surface_id)->0;
    let workspace = state.workspaces[at];
    let workspace_id = workspace.id;
    assert(workspace.sound());
    sound_workspaces::law_focus_surface_keeps_sound(workspace, surface_id);
    sound_workspaces::lemma_holder(workspace.panes, surface_id, 0);
    let place = workspace.holder(surface_id)->0;
    sound_workspaces::lemma_pane_place(workspace.panes, place);
    let focused = workspace.focus_surface(surface_id).0;
    assert forall|k: int| 0 <= k < workspace.panes.len() implies (
    #[trigger] focused.panes[k]).surface_at(surface_id) == workspace.panes[k].surface_at(
        surface_id,
    ) by {}
    laws_states::lemma_same_holders(workspace.panes, focused.panes, surface_id, 0);
    let directory = match focused.surface(surface_id) {
        Some(surface) => surface.current_directory,
        None => None,
    };
    let moved = WorkspaceView {
        current_directory: if directory is Some {
            directory
        } else {
            focused.current_directory
        },
        ..focused
    };
    sound_workspaces::lemma_repaned(focused, moved);
    sound_states::lemma_with_workspace(state, at, moved, NIL, NIL);
    let changed = state.with_workspace(at, moved);
    assert(state.window_at(workspace.window_id) is Some);
    assert(changed.window_at(workspace.window_id) is Some);
    assert(changed.workspaces[at].id == workspace_id);
    assert(sound_states::houses(changed.workspaces, workspace.window_id, workspace_id));
    sound_states::lemma_showing(changed, workspace.window_id, workspace_id);
    let synced = changed.showing(workspace.window_id, workspace_id).synced_from(
        workspace.window_id,
    );
    assert(synced.sound());
    sound_states::lemma_workspace_place(synced.workspaces, at, 0);
    let shown = synced.in_directory(workspace_id, directory);
    sound_operations::lemma_in_directory(synced, workspace_id, directory);
    assert(shown.workspaces[at] == moved);
    assert(shown.workspaces =~= changed.workspaces);
    assert forall|k: int| 0 <= k < state.workspaces.len() implies (
    #[trigger] shown.workspaces[k]).id == state.workspaces[k].id && laws_states::same_tabs(
        state.workspaces[k].panes,
        shown.workspaces[k].panes,
    ) by {}
    laws_states::lemma_same_target(state, shown, surface_id);
    lemma_attended_rests(shown, surface_id);
    let next = state.focus_surface(surface_id).0;
    let attended = shown.attended(workspace_id, Some(surface_id)).0;
    assert(next.target(surface_id) == attended.target(surface_id));
    assert(next.window(workspace.window_id) == shown.window(workspace.window_id));
    assert(next.all_read(workspace_id, Some(surface_id)));
    assert(next.rests_on(surface_id));
    sound_operations::law_focus_surface_keeps_sound(state, surface_id);
    sound_states::lemma_target(next, surface_id);
    lemma_resting(next, surface_id);
}

/// Focusing a surface once more gives the same result and changes nothing at all: not the focus,
/// not the notifications, not the flashes, and not the count of changes.
pub proof fn law_focusing_twice(state: StateView, surface_id: SurfaceId)
    requires
        state.sound(),
    ensures
        state.focus_surface(surface_id).0.focus_surface(surface_id) == state.focus_surface(
            surface_id,
        ),
{
    if state.located(surface_id) is Some {
        let next = state.focus_surface(surface_id).0;
        law_focused_rests(state, surface_id);
        sound_operations::law_focus_surface_keeps_sound(state, surface_id);
        lemma_resting(next, surface_id);
        sound_states::lemma_target(next, surface_id);
        law_focused_rests(next, surface_id);
    }
}

} // verus!
