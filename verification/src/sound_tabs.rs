//! Each surface is in one place.

use crate::ids::{Drawn, PaneId, SurfaceId, WindowId, WorkspaceId, NIL};
use crate::layout::SplitOrientation;
use crate::sound_operations;
use crate::sound_states;
use crate::sound_surfaces;
use crate::sound_workspaces;
use crate::state;
use crate::state::StateView;
use crate::state_windows;
use crate::surface::{HealthView, PaneView, SurfaceView};
use crate::workspace;
use crate::workspace::WorkspaceView;
use vstd::prelude::*;

verus! {

// ---------------------------------------------------------------------------
// Sums
// ---------------------------------------------------------------------------

/// The sum of a list.
pub open spec fn sum(list: Seq<nat>) -> nat
    decreases list.len(),
{
    if list.len() == 0 {
        0
    } else {
        sum(list.drop_last()) + list.last()
    }
}

proof fn lemma_sum_insert(list: Seq<nat>, at: int, value: nat)
    requires
        0 <= at <= list.len(),
    ensures
        sum(list.insert(at, value)) == sum(list) + value,
    decreases list.len(),
{
    let longer = list.insert(at, value);
    if at == list.len() {
        assert(longer.drop_last() =~= list);
    } else {
        assert(longer.drop_last() =~= list.drop_last().insert(at, value));
        lemma_sum_insert(list.drop_last(), at, value);
    }
}

proof fn lemma_sum_push(list: Seq<nat>, value: nat)
    ensures
        sum(list.push(value)) == sum(list) + value,
{
    assert(list.push(value).drop_last() =~= list);
}

/// Taking an item out of a list takes it out of the sum.
pub proof fn lemma_sum_remove(list: Seq<nat>, at: int)
    requires
        0 <= at < list.len(),
    ensures
        sum(list.remove(at)) + list[at] == sum(list),
{
    lemma_sum_insert(list.remove(at), at, list[at]);
    assert(list.remove(at).insert(at, list[at]) =~= list);
}

proof fn lemma_sum_update(list: Seq<nat>, at: int, value: nat)
    requires
        0 <= at < list.len(),
    ensures
        sum(list.update(at, value)) + list[at] == sum(list) + value,
{
    lemma_sum_remove(list, at);
    lemma_sum_insert(list.remove(at), at, value);
    assert(list.remove(at).insert(at, value) =~= list.update(at, value));
}

/// A sum is not below any of its items.
pub proof fn lemma_sum_holds(list: Seq<nat>, at: int)
    requires
        0 <= at < list.len(),
    ensures
        sum(list) >= list[at],
{
    lemma_sum_remove(list, at);
}

// ---------------------------------------------------------------------------
// How often a surface occurs
// ---------------------------------------------------------------------------

/// 1 for each surface with this identifier.
pub open spec fn tab_marks(surfaces: Seq<SurfaceView>, id: SurfaceId) -> Seq<nat> {
    Seq::new(
        surfaces.len(),
        |at: int|
            if surfaces[at].id == id {
                1nat
            } else {
                0nat
            },
    )
}

impl PaneView {
    /// How often a surface occurs in the pane.
    pub open spec fn tabs(self, id: SurfaceId) -> nat {
        sum(tab_marks(self.surfaces, id))
    }
}

/// How often a surface occurs in each pane.
pub open spec fn pane_tabs(panes: Seq<PaneView>, id: SurfaceId) -> Seq<nat> {
    Seq::new(panes.len(), |at: int| panes[at].tabs(id))
}

impl WorkspaceView {
    /// How often a surface occurs in the workspace.
    pub open spec fn tabs(self, id: SurfaceId) -> nat {
        sum(pane_tabs(self.panes, id))
    }
}

/// How often a surface occurs in each workspace.
pub open spec fn workspace_tabs(list: Seq<WorkspaceView>, id: SurfaceId) -> Seq<nat> {
    Seq::new(list.len(), |at: int| list[at].tabs(id))
}

/// How often a surface occurs in the workspaces.
pub open spec fn all_tabs(list: Seq<WorkspaceView>, id: SurfaceId) -> nat {
    sum(workspace_tabs(list, id))
}

impl StateView {
    /// How often a surface occurs.
    #[verifier::inline]
    pub open spec fn tabs(self, id: SurfaceId) -> nat {
        all_tabs(self.workspaces, id)
    }

    /// Whether each surface is in one place.
    pub open spec fn one_place(self) -> bool {
        forall|id: SurfaceId| #[trigger] self.tabs(id) <= 1
    }

    /// Whether the same surfaces occur as in another state, each as often.
    pub open spec fn same_surfaces(self, other: StateView) -> bool {
        forall|id: SurfaceId| #[trigger] self.tabs(id) == other.tabs(id)
    }
}

/// How often a surface occurs in a pane depends only on the identifiers.
proof fn lemma_pane_alike(before: PaneView, after: PaneView, id: SurfaceId)
    requires
        before.surfaces.len() == after.surfaces.len(),
        forall|k: int|
            0 <= k < before.surfaces.len() ==> (#[trigger] after.surfaces[k]).id
                == before.surfaces[k].id,
    ensures
        after.tabs(id) == before.tabs(id),
{
    assert(tab_marks(after.surfaces, id) =~= tab_marks(before.surfaces, id));
}

proof fn lemma_pane_with_surface(pane: PaneView, at: int, surface: SurfaceView, id: SurfaceId)
    requires
        0 <= at < pane.surfaces.len(),
        surface.id == pane.surfaces[at].id,
    ensures
        pane.with_surface(at, surface).tabs(id) == pane.tabs(id),
{
    lemma_pane_alike(pane, pane.with_surface(at, surface), id);
}

/// What a surface adds.
pub open spec fn mark(surface: SurfaceId, id: SurfaceId) -> nat {
    if surface == id {
        1
    } else {
        0
    }
}

proof fn lemma_pane_inserted(pane: PaneView, index: int, surface: SurfaceView, id: SurfaceId)
    requires
        index >= 0,
    ensures
        pane.inserted(index, surface).tabs(id) == pane.tabs(id) + mark(surface.id, id),
{
    let next = pane.inserted(index, surface);
    let place = if index < pane.surfaces.len() {
        index
    } else {
        pane.surfaces.len() as int
    };
    assert(tab_marks(next.surfaces, id) =~= tab_marks(pane.surfaces, id).insert(
        place,
        mark(surface.id, id),
    ));
    lemma_sum_insert(tab_marks(pane.surfaces, id), place, mark(surface.id, id));
}

proof fn lemma_pane_removed(pane: PaneView, at: int, id: SurfaceId)
    requires
        0 <= at < pane.surfaces.len(),
    ensures
        sum(tab_marks(pane.surfaces.remove(at), id)) + mark(pane.surfaces[at].id, id)
            == pane.tabs(id),
{
    assert(tab_marks(pane.surfaces.remove(at), id) =~= tab_marks(pane.surfaces, id).remove(at));
    lemma_sum_remove(tab_marks(pane.surfaces, id), at);
}

proof fn lemma_pane_single(pane: PaneView, id: SurfaceId)
    requires
        pane.surfaces.len() == 1,
    ensures
        pane.tabs(id) == mark(pane.surfaces[0].id, id),
{
    let none = Seq::<nat>::empty();
    assert(tab_marks(pane.surfaces, id) =~= none.push(mark(pane.surfaces[0].id, id)));
    lemma_sum_push(none, mark(pane.surfaces[0].id, id));
    assert(sum(none) == 0);
}

proof fn lemma_with_pane(workspace: WorkspaceView, at: int, pane: PaneView, id: SurfaceId)
    requires
        0 <= at < workspace.panes.len(),
    ensures
        workspace.with_pane(at, pane).tabs(id) + workspace.panes[at].tabs(id) == workspace.tabs(
            id,
        ) + pane.tabs(id),
{
    let next = workspace.with_pane(at, pane);
    assert(pane_tabs(next.panes, id) =~= pane_tabs(workspace.panes, id).update(at, pane.tabs(id)));
    lemma_sum_update(pane_tabs(workspace.panes, id), at, pane.tabs(id));
}

proof fn lemma_workspace_single(workspace: WorkspaceView, id: SurfaceId)
    requires
        workspace.panes.len() == 1,
    ensures
        workspace.tabs(id) == workspace.panes[0].tabs(id),
{
    let none = Seq::<nat>::empty();
    assert(pane_tabs(workspace.panes, id) =~= none.push(workspace.panes[0].tabs(id)));
    lemma_sum_push(none, workspace.panes[0].tabs(id));
    assert(sum(none) == 0);
}

/// How often a surface occurs in a workspace depends only on what its panes hold.
proof fn lemma_workspace_alike(before: WorkspaceView, after: WorkspaceView, id: SurfaceId)
    requires
        before.panes.len() == after.panes.len(),
        forall|k: int|
            0 <= k < before.panes.len() ==> (#[trigger] after.panes[k]).tabs(id)
                == before.panes[k].tabs(id),
    ensures
        after.tabs(id) == before.tabs(id),
{
    assert(pane_tabs(after.panes, id) =~= pane_tabs(before.panes, id));
}

proof fn lemma_with_workspace(state: StateView, at: int, workspace: WorkspaceView, id: SurfaceId)
    requires
        0 <= at < state.workspaces.len(),
    ensures
        state.with_workspace(at, workspace).tabs(id) + state.workspaces[at].tabs(id)
            == state.tabs(id) + workspace.tabs(id),
{
    let next = state.with_workspace(at, workspace);
    let marks = workspace_tabs(state.workspaces, id);
    assert(workspace_tabs(next.workspaces, id) =~= marks.update(at, workspace.tabs(id)));
    lemma_sum_update(marks, at, workspace.tabs(id));
}

/// How often a surface occurs depends only on what the workspaces hold.
proof fn lemma_state_alike(before: StateView, after: StateView, id: SurfaceId)
    requires
        before.workspaces.len() == after.workspaces.len(),
        forall|k: int|
            0 <= k < before.workspaces.len() ==> (#[trigger] after.workspaces[k]).tabs(id)
                == before.workspaces[k].tabs(id),
    ensures
        after.tabs(id) == before.tabs(id),
{
    assert(workspace_tabs(after.workspaces, id) =~= workspace_tabs(before.workspaces, id));
}

proof fn lemma_workspace_with_surface(
    workspace: WorkspaceView,
    surface_id: SurfaceId,
    surface: SurfaceView,
    id: SurfaceId,
)
    requires
        workspace.sound(),
        workspace.surface(surface_id) is Some,
        surface.id == surface_id,
    ensures
        workspace.with_surface(surface_id, surface).tabs(id) == workspace.tabs(id),
{
    sound_workspaces::lemma_holder(workspace.panes, surface_id, 0);
    let at = workspace.holder(surface_id)->0;
    let pane = workspace.panes[at];
    sound_workspaces::lemma_surface_from(pane.surfaces, surface_id, 0);
    let place = pane.surface_at(surface_id)->0;
    lemma_pane_with_surface(pane, place, surface, id);
    lemma_with_pane(workspace, at, pane.with_surface(place, surface), id);
}

/// A surface that changes and keeps its identifier is in the same place.
proof fn lemma_changed(state: StateView, surface_id: SurfaceId, surface: SurfaceView)
    requires
        state.structured(),
        surface.id == surface_id,
    ensures
        match state.target(surface_id) {
            Some((at, _)) => state.with_surface(at, surface_id, surface).same_surfaces(state),
            None => true,
        },
{
    sound_states::lemma_target(state, surface_id);
    if let Some((at, _)) = state.target(surface_id) {
        let next = state.with_surface(at, surface_id, surface);
        assert(state.workspaces[at].sound());
        assert forall|id: SurfaceId| #[trigger] next.tabs(id) == state.tabs(id) by {
            lemma_workspace_with_surface(state.workspaces[at], surface_id, surface, id);
            lemma_with_workspace(
                state,
                at,
                state.workspaces[at].with_surface(surface_id, surface),
                id,
            );
        }
    }
}

/// A surface that occurs is found, and one that is found occurs.
pub proof fn law_surface_occurs_where_found(state: StateView, surface_id: SurfaceId)
    ensures
        state.located(surface_id) is Some == (state.tabs(surface_id) > 0),
{
    let marks = workspace_tabs(state.workspaces, surface_id);
    sound_states::lemma_located(state.workspaces, surface_id, 0);
    if let Some(at) = state.located(surface_id) {
        lemma_workspace_occurs(state.workspaces[at], surface_id);
        assert(marks[at] == state.workspaces[at].tabs(surface_id));
        lemma_sum_holds(marks, at);
    } else {
        lemma_none_located(state.workspaces, surface_id, 0);
        assert forall|k: int| 0 <= k < marks.len() implies #[trigger] marks[k] == 0 by {
            lemma_workspace_occurs(state.workspaces[k], surface_id);
        }
        lemma_sum_zero(marks);
    }
}

proof fn lemma_sum_zero(list: Seq<nat>)
    requires
        forall|k: int| 0 <= k < list.len() ==> #[trigger] list[k] == 0,
    ensures
        sum(list) == 0,
    decreases list.len(),
{
    if list.len() > 0 {
        lemma_sum_zero(list.drop_last());
    }
}

proof fn lemma_none_located(list: Seq<WorkspaceView>, id: SurfaceId, from: int)
    requires
        0 <= from,
        state::located_from(list, id, from) is None,
    ensures
        forall|k: int| from <= k < list.len() ==> (#[trigger] list[k]).holder(id) is None,
    decreases list.len() - from,
{
    if from < list.len() {
        lemma_none_located(list, id, from + 1);
    }
}

proof fn lemma_none_holds(panes: Seq<PaneView>, id: SurfaceId, from: int)
    requires
        0 <= from,
        workspace::holder_from(panes, id, from) is None,
    ensures
        forall|k: int| from <= k < panes.len() ==> (#[trigger] panes[k]).surface_at(id) is None,
    decreases panes.len() - from,
{
    if from < panes.len() {
        lemma_none_holds(panes, id, from + 1);
    }
}

proof fn lemma_none_found(surfaces: Seq<SurfaceView>, id: SurfaceId, from: int)
    requires
        0 <= from,
        crate::surface::surface_from(surfaces, id, from) is None,
    ensures
        forall|k: int| from <= k < surfaces.len() ==> (#[trigger] surfaces[k]).id != id,
    decreases surfaces.len() - from,
{
    if from < surfaces.len() {
        lemma_none_found(surfaces, id, from + 1);
    }
}

proof fn lemma_workspace_occurs(workspace: WorkspaceView, id: SurfaceId)
    ensures
        workspace.holder(id) is Some == (workspace.tabs(id) > 0),
{
    let marks = pane_tabs(workspace.panes, id);
    sound_workspaces::lemma_holder(workspace.panes, id, 0);
    if let Some(at) = workspace.holder(id) {
        lemma_pane_occurs(workspace.panes[at], id);
        assert(marks[at] == workspace.panes[at].tabs(id));
        lemma_sum_holds(marks, at);
    } else {
        lemma_none_holds(workspace.panes, id, 0);
        assert forall|k: int| 0 <= k < marks.len() implies #[trigger] marks[k] == 0 by {
            lemma_pane_occurs(workspace.panes[k], id);
        }
        lemma_sum_zero(marks);
    }
}

proof fn lemma_pane_occurs(pane: PaneView, id: SurfaceId)
    ensures
        pane.surface_at(id) is Some == (pane.tabs(id) > 0),
{
    let marks = tab_marks(pane.surfaces, id);
    sound_workspaces::lemma_surface_from(pane.surfaces, id, 0);
    if let Some(at) = pane.surface_at(id) {
        assert(marks[at] == 1);
        lemma_sum_holds(marks, at);
    } else {
        lemma_none_found(pane.surfaces, id, 0);
        lemma_sum_zero(marks);
    }
}

// ---------------------------------------------------------------------------
// Operations that move no surface
// ---------------------------------------------------------------------------

proof fn lemma_attended(
    state: StateView,
    workspace_id: WorkspaceId,
    surface_id: Option<SurfaceId>,
)
    requires
        state.sound(),
    ensures
        state.attended(workspace_id, surface_id).0.same_surfaces(state),
{
    let noticed = state.noticed(workspace_id, surface_id);
    assert(noticed.same_surfaces(state));
    if let Some(surface) = surface_id {
        sound_states::lemma_target(noticed, surface);
        let calm = noticed.calmed(surface).0;
        if let Some((at, found)) = noticed.target(surface) {
            let quiet = found.attention(false, false);
            lemma_changed(noticed, surface, quiet);
            sound_states::lemma_with_surface(noticed, at, surface, quiet);
        }
        assert(calm.same_surfaces(noticed));
        sound_states::lemma_target(calm, surface);
        if let Some((at, found)) = calm.target(surface) {
            let count = state.notices(workspace_id, surface_id);
            lemma_changed(
                calm,
                surface,
                SurfaceView {
                    flash_count: crate::state_focus::raised(found.flash_count, count as u64),
                    ..found
                },
            );
        }
    }
}

/// Moving the focus moves no surface.
pub proof fn law_focus_moves_no_surface(
    state: StateView,
    window_id: WindowId,
    workspace_id: WorkspaceId,
    pane_id: PaneId,
    surface_id: SurfaceId,
)
    requires
        state.sound(),
    ensures
        state.focus_window(window_id).0.same_surfaces(state),
        state.select_workspace(workspace_id).0.same_surfaces(state),
        state.focus_pane(pane_id).0.same_surfaces(state),
        state.focus_surface(surface_id).0.same_surfaces(state),
{
    lemma_window_focused(state, window_id);
    lemma_workspace_selected(state, workspace_id);
    lemma_pane_focused(state, pane_id);
    lemma_surface_focused(state, surface_id);
}

proof fn lemma_window_focused(state: StateView, window_id: WindowId)
    requires
        state.sound(),
    ensures
        state.focus_window(window_id).0.same_surfaces(state),
{
    if state.window_at(window_id) is Some {
        state::lemma_window_from(state.windows, window_id, 0);
        let at = state.window_at(window_id)->0;
        let shown = state.windows[at].selected_workspace_id;
        assert(sound_states::houses(state.workspaces, window_id, shown));
        sound_states::lemma_repaired(state, window_id, shown, NIL, NIL);
        let next = state.repaired(window_id).synced_from(window_id);
        assert(next.sound());
        assert(next.same_surfaces(state));
        lemma_attended(next, next.selected_workspace_id, next.current_surface_id());
    }
}

proof fn lemma_workspace_selected(state: StateView, workspace_id: WorkspaceId)
    requires
        state.sound(),
    ensures
        state.select_workspace(workspace_id).0.same_surfaces(state),
{
    state::lemma_workspace_from(state.workspaces, workspace_id, 0);
    if let Some(at) = state.workspace_at(workspace_id) {
        let workspace = state.workspaces[at];
        assert(sound_states::houses(state.workspaces, workspace.window_id, workspace_id));
        assert(state.window_at(workspace.window_id) is Some);
        sound_states::lemma_showing(state, workspace.window_id, workspace_id);
        let shown = state.showing(workspace.window_id, workspace_id).synced_from(
            workspace.window_id,
        );
        assert(shown.sound());
        assert(shown.same_surfaces(state));
        lemma_attended(shown, workspace_id, workspace.selected_surface_id());
    }
}

proof fn lemma_pane_focused(state: StateView, pane_id: PaneId)
    requires
        state.sound(),
    ensures
        state.focus_pane(pane_id).0.same_surfaces(state),
{
    sound_states::lemma_owner(state.workspaces, pane_id, 0);
    if let Some(at) = state.owner(pane_id) {
        let workspace = state.workspaces[at];
        let next = state.focus_pane(pane_id).0;
        assert(next.workspaces == state.workspaces.update(at, workspace.selecting(pane_id)));
        assert forall|id: SurfaceId| #[trigger] next.tabs(id) == state.tabs(id) by {
            lemma_state_alike(state, next, id);
        }
    }
}

proof fn lemma_surface_focused(state: StateView, surface_id: SurfaceId)
    requires
        state.sound(),
    ensures
        state.focus_surface(surface_id).0.same_surfaces(state),
{
    sound_states::lemma_located(state.workspaces, surface_id, 0);
    if let Some(at) = state.located(surface_id) {
        let workspace = state.workspaces[at];
        assert(workspace.sound());
        sound_workspaces::law_focus_surface_keeps_sound(workspace, surface_id);
        let focused = workspace.focus_surface(surface_id).0;
        let directory = match focused.surface(surface_id) {
            Some(surface) => surface.current_directory,
            None => None,
        };
        let moved = WorkspaceView {
            current_directory: if directory is Some {
                directory
            } else {
                focused.current_directory
            },
            ..focused
        };
        sound_workspaces::lemma_repaned(focused, moved);
        sound_states::lemma_with_workspace(state, at, moved, NIL, NIL);
        let changed = state.with_workspace(at, moved);
        sound_workspaces::lemma_holder(workspace.panes, surface_id, 0);
        let place = workspace.holder(surface_id)->0;
        sound_workspaces::lemma_pane_place(workspace.panes, place);
        assert forall|id: SurfaceId| #[trigger] changed.tabs(id) == state.tabs(id) by {
            lemma_workspace_alike(workspace, moved, id);
            lemma_state_alike(state, changed, id);
        }
        assert(state.window_at(workspace.window_id) is Some);
        assert(changed.workspaces[at].id == workspace.id);
        assert(sound_states::houses(changed.workspaces, workspace.window_id, workspace.id));
        sound_states::lemma_showing(changed, workspace.window_id, workspace.id);
        let synced = changed.showing(workspace.window_id, workspace.id).synced_from(
            workspace.window_id,
        );
        assert(synced.sound());
        let shown = synced.in_directory(workspace.id, directory);
        sound_operations::lemma_in_directory(synced, workspace.id, directory);
        state::lemma_workspace_from(synced.workspaces, workspace.id, 0);
        assert forall|id: SurfaceId| #[trigger] shown.tabs(id) == synced.tabs(id) by {
            lemma_state_alike(synced, shown, id);
        }
        assert(synced.same_surfaces(changed));
        lemma_attended(shown, workspace.id, Some(surface_id));
    }
}

/// Renaming, marking, writing and telling news of a surface move none.
pub proof fn law_news_moves_no_surface(
    state: StateView,
    surface_id: SurfaceId,
    content: Seq<char>,
    directory: Option<Seq<char>>,
    health: HealthView,
)
    requires
        state.sound(),
    ensures
        state.rename_surface(surface_id, content).0.same_surfaces(state),
        state.mark_surface_read(surface_id).0.same_surfaces(state),
        state.mark_surface_unread(surface_id).0.same_surfaces(state),
        state.retold(surface_id, content).0.same_surfaces(state),
        state.append_terminal_text(surface_id, content).0.same_surfaces(state),
        state.clear_surface_history(surface_id).0.same_surfaces(state),
        state.update_directory(surface_id, directory).0.same_surfaces(state),
        state.update_health(surface_id, health).0.same_surfaces(state),
        state.trigger_flash(surface_id).0.same_surfaces(state),
{
    lemma_tab_news(state, surface_id, content);
    lemma_text_news(state, surface_id, content);
    lemma_shell_news(state, surface_id, directory, health);
}

proof fn lemma_tab_news(state: StateView, surface_id: SurfaceId, content: Seq<char>)
    requires
        state.sound(),
    ensures
        state.rename_surface(surface_id, content).0.same_surfaces(state),
        state.mark_surface_read(surface_id).0.same_surfaces(state),
        state.mark_surface_unread(surface_id).0.same_surfaces(state),
{
    sound_operations::lemma_tab(state, surface_id);
    sound_states::lemma_target(state, surface_id);
    if let Ok(at) = state.tab(surface_id) {
        let surface = state.surface_in_tab(at);
        let named = SurfaceView { title: crate::text::trimmed(content), ..surface };
        lemma_changed(state, surface_id, named);
        assert(state.with_tab(at, named).same_surfaces(state));
        let calm = surface.attention(false, false);
        lemma_changed(state, surface_id, calm);
        assert(state.with_tab(at, calm).same_surfaces(state));
        let loud = surface.attention(true, surface.unread_notification);
        lemma_changed(state, surface_id, loud);
        assert(state.with_tab(at, loud).same_surfaces(state));
    }
}

proof fn lemma_text_news(state: StateView, surface_id: SurfaceId, content: Seq<char>)
    requires
        state.sound(),
    ensures
        state.retold(surface_id, content).0.same_surfaces(state),
        state.append_terminal_text(surface_id, content).0.same_surfaces(state),
        state.clear_surface_history(surface_id).0.same_surfaces(state),
{
    sound_states::lemma_target(state, surface_id);
    if let Some((at, surface)) = state.target(surface_id) {
        let unseen = state.unseen(surface_id);
        let told = SurfaceView { transcript: content, ..surface }.attention(
            unseen,
            surface.unread_notification,
        );
        lemma_changed(state, surface_id, told);
        let longer = SurfaceView {
            transcript: surface.transcript + content,
            ..surface
        }.attention(unseen, surface.unread_notification);
        lemma_changed(state, surface_id, longer);
        let cleared = SurfaceView { transcript: Seq::empty(), ..surface }.attention(
            false,
            surface.unread_notification,
        );
        lemma_changed(state, surface_id, cleared);
    }
}

proof fn lemma_shell_news(
    state: StateView,
    surface_id: SurfaceId,
    directory: Option<Seq<char>>,
    health: HealthView,
)
    requires
        state.sound(),
    ensures
        state.update_directory(surface_id, directory).0.same_surfaces(state),
        state.update_health(surface_id, health).0.same_surfaces(state),
        state.trigger_flash(surface_id).0.same_surfaces(state),
{
    sound_states::lemma_target(state, surface_id);
    if let Some((at, surface)) = state.target(surface_id) {
        let there = SurfaceView { current_directory: directory, ..surface };
        lemma_changed(state, surface_id, there);
        let changed = state.with_surface(at, surface_id, there);
        let moved = state.update_directory(surface_id, directory).0;
        if surface.current_directory != directory {
            assert forall|id: SurfaceId| #[trigger] moved.tabs(id) == state.tabs(id) by {
                lemma_state_alike(changed, moved, id);
                assert(changed.tabs(id) == state.tabs(id));
            }
        }
        lemma_changed(state, surface_id, SurfaceView { terminal_health: health, ..surface });
        lemma_changed(
            state,
            surface_id,
            SurfaceView {
                flash_count: crate::state_focus::raised(surface.flash_count, 1),
                ..surface
            }.attention(surface.unread_activity, true),
        );
    }
}

// ---------------------------------------------------------------------------
// Operations that make, close or move surfaces
// ---------------------------------------------------------------------------

impl StateView {
    /// Whether no surface occurs more often than in another state, but for a new one that occurs
    /// once more.
    pub open spec fn no_more_than(self, other: StateView, added: SurfaceId) -> bool {
        forall|id: SurfaceId| #[trigger] self.tabs(id) <= other.tabs(id) + mark(added, id)
    }

    /// Whether each surface occurs at least as often as in another state.
    pub open spec fn no_fewer_than(self, other: StateView) -> bool {
        forall|id: SurfaceId| #[trigger] self.tabs(id) >= other.tabs(id)
    }

    /// Whether the surfaces are those of another state and a new one.
    pub open spec fn one_more_than(self, other: StateView, added: SurfaceId) -> bool {
        forall|id: SurfaceId| #[trigger] self.tabs(id) == other.tabs(id) + mark(added, id)
    }
}

/// Each surface stays in one place when no surface but a new one comes in.
pub proof fn law_one_place_stays(before: StateView, after: StateView, added: SurfaceId)
    requires
        before.one_place(),
        before.tabs(added) == 0,
        after.no_more_than(before, added),
    ensures
        after.one_place(),
{
    assert forall|id: SurfaceId| #[trigger] after.tabs(id) <= 1 by {
        assert(before.tabs(id) <= 1);
        assert(after.tabs(id) <= before.tabs(id) + mark(added, id));
    }
}

proof fn lemma_pushed(state: StateView, after: StateView, workspace: WorkspaceView, id: SurfaceId)
    requires
        after.workspaces == state.workspaces.push(workspace),
    ensures
        after.tabs(id) == state.tabs(id) + workspace.tabs(id),
{
    let marks = workspace_tabs(state.workspaces, id);
    assert(workspace_tabs(after.workspaces, id) =~= marks.push(workspace.tabs(id)));
    lemma_sum_push(marks, workspace.tabs(id));
}

proof fn lemma_taken_out(state: StateView, at: int, id: SurfaceId)
    requires
        0 <= at < state.workspaces.len(),
    ensures
        state.without_workspace(at).tabs(id) + state.workspaces[at].tabs(id) == state.tabs(id),
{
    let marks = workspace_tabs(state.workspaces, id);
    assert(workspace_tabs(state.without_workspace(at).workspaces, id) =~= marks.remove(at));
    lemma_sum_remove(marks, at);
}

/// A new workspace has one new surface.
pub proof fn law_new_workspace_adds_one(
    state: StateView,
    drawn: Drawn,
    window_id: WindowId,
    focus: bool,
    directory: Option<Seq<char>>,
)
    ensures
        state.create_workspace(drawn, window_id, focus, directory).one_more_than(
            state,
            drawn.surface,
        ),
{
    let next = state.create_workspace(drawn, window_id, focus, directory);
    let made = state.fresh_workspace(drawn, window_id, directory);
    assert(next.workspaces == state.workspaces.push(made));
    assert forall|id: SurfaceId| #[trigger]
        next.tabs(id) == state.tabs(id) + mark(drawn.surface, id) by {
        lemma_pushed(state, next, made, id);
        lemma_workspace_single(made, id);
        lemma_pane_single(made.panes[0], id);
    }
}

/// A new window has one new surface.
pub proof fn law_new_window_adds_one(state: StateView, drawn: Drawn, focus: bool)
    ensures
        state.create_window(drawn, focus).one_more_than(state, drawn.surface),
{
    let window = crate::state::WindowState {
        id: drawn.window,
        selected_workspace_id: NIL,
        last_selected_workspace_id: None,
    };
    let added = StateView { windows: state.windows.push(window), ..state };
    law_new_workspace_adds_one(added, drawn, drawn.window, focus, None);
}

proof fn lemma_outside(list: Seq<WorkspaceView>, window_id: WindowId, count: int, id: SurfaceId)
    requires
        0 <= count <= list.len(),
    ensures
        all_tabs(state_windows::outside(list, window_id, count), id) <= all_tabs(
            list.take(count),
            id,
        ),
    decreases count,
{
    let rest = state_windows::outside(list, window_id, count);
    if count > 0 {
        lemma_outside(list, window_id, count - 1, id);
        let shorter = state_windows::outside(list, window_id, count - 1);
        let last = list[count - 1];
        assert(list.take(count) =~= list.take(count - 1).push(last));
        let marks = workspace_tabs(list.take(count - 1), id);
        assert(workspace_tabs(list.take(count), id) =~= marks.push(last.tabs(id)));
        lemma_sum_push(marks, last.tabs(id));
        if last.window_id != window_id {
            let fewer = workspace_tabs(shorter, id);
            assert(workspace_tabs(rest, id) =~= fewer.push(last.tabs(id)));
            lemma_sum_push(fewer, last.tabs(id));
        }
    } else {
        assert(workspace_tabs(rest, id) =~= Seq::empty());
    }
}

/// Closing a window brings in at most one new surface.
pub proof fn law_closing_window_adds_little(state: StateView, drawn: Drawn, window_id: WindowId)
    requires
        state.sound(),
    ensures
        state.close_window(drawn, window_id).0.no_more_than(state, drawn.surface),
{
    state::lemma_window_from(state.windows, window_id, 0);
    if let Some(at) = state.window_at(window_id) {
        let rest = state.without_window(at);
        let next = state.close_window(drawn, window_id).0;
        let count = state.workspaces.len() as int;
        law_new_window_adds_one(rest, drawn, true);
        let made = rest.create_window(drawn, true);
        assert(next.workspaces == rest.workspaces || next.workspaces == made.workspaces);
        assert forall|id: SurfaceId| #[trigger]
            next.tabs(id) <= state.tabs(id) + mark(drawn.surface, id) by {
            lemma_outside(state.workspaces, window_id, count, id);
            assert(state.workspaces.take(count) =~= state.workspaces);
            assert(made.tabs(id) == rest.tabs(id) + mark(drawn.surface, id));
        }
    }
}

/// Closing a workspace brings in at most one new surface.
pub proof fn law_closing_workspace_adds_little(
    state: StateView,
    drawn: Drawn,
    workspace_id: WorkspaceId,
)
    requires
        state.sound(),
    ensures
        state.close_workspace(drawn, workspace_id).0.no_more_than(state, drawn.surface),
{
    state::lemma_workspace_from(state.workspaces, workspace_id, 0);
    if let Some(at) = state.workspace_at(workspace_id) {
        let window_id = state.workspaces[at].window_id;
        let rest = state.without_workspace(at);
        let next = state.close_workspace(drawn, workspace_id).0;
        law_new_workspace_adds_one(rest, drawn, window_id, true, None);
        let filled = rest.create_workspace(drawn, window_id, true, None);
        assert(next.workspaces == rest.workspaces || next.workspaces == filled.workspaces);
        assert forall|id: SurfaceId| #[trigger]
            next.tabs(id) <= state.tabs(id) + mark(drawn.surface, id) by {
            lemma_taken_out(state, at, id);
            assert(filled.tabs(id) == rest.tabs(id) + mark(drawn.surface, id));
        }
    }
}

/// What a window gets when it lost a workspace adds at most one new surface, and takes none.
proof fn lemma_bereft(
    state: StateView,
    drawn: Drawn,
    window_id: WindowId,
    workspace_id: WorkspaceId,
    rest: Seq<WorkspaceId>,
    was_shown: bool,
)
    ensures
        state.bereft(drawn, window_id, workspace_id, rest, was_shown).no_more_than(
            state,
            drawn.surface,
        ),
        state.bereft(drawn, window_id, workspace_id, rest, was_shown).no_fewer_than(state),
{
    let next = state.bereft(drawn, window_id, workspace_id, rest, was_shown);
    law_new_workspace_adds_one(state, drawn, window_id, false, None);
    let made = state.create_workspace(drawn, window_id, false, None);
    assert(next.workspaces == state.workspaces || next.workspaces == made.workspaces);
    assert forall|id: SurfaceId| state.tabs(id) <= #[trigger] next.tabs(id) <= state.tabs(id)
        + mark(drawn.surface, id) by {
        assert(made.tabs(id) == state.tabs(id) + mark(drawn.surface, id));
    }
}

/// Moving a workspace to another window keeps every surface, and brings in at most one new one.
pub proof fn law_moving_workspace_keeps_surfaces(
    state: StateView,
    drawn: Drawn,
    workspace_id: WorkspaceId,
    target: WindowId,
    focus: bool,
)
    requires
        state.sound(),
    ensures
        state.move_workspace(drawn, workspace_id, target, focus).0.no_more_than(
            state,
            drawn.surface,
        ),
        state.move_workspace(drawn, workspace_id, target, focus).0.no_fewer_than(state),
{
    state::lemma_workspace_from(state.workspaces, workspace_id, 0);
    let next = state.move_workspace(drawn, workspace_id, target, focus).0;
    if state.window_at(target) is Some && state.workspace_at(workspace_id) is Some {
        let at = state.workspace_at(workspace_id)->0;
        let source = state.workspaces[at].window_id;
        if source == target {
            if focus {
                sound_operations::law_focus_window_keeps_sound(state, target);
                lemma_window_focused(state, target);
                let focused = state.focus_window(target).0;
                lemma_workspace_selected(focused, workspace_id);
                assert forall|id: SurfaceId| #[trigger] next.tabs(id) == state.tabs(id) by {
                    assert(focused.tabs(id) == state.tabs(id));
                }
            }
        } else {
            let over = state.handed_over(at, target, focus);
            let list = state.workspace_ids_in(source);
            let rest = state_windows::others(list, workspace_id, list.len() as int);
            let was_shown = match state.window(source) {
                Some(window) => window.selected_workspace_id == workspace_id,
                None => workspace_id == NIL,
            };
            lemma_bereft(over, drawn, source, workspace_id, rest, was_shown);
            let less = over.bereft(drawn, source, workspace_id, rest, was_shown);
            let given = WorkspaceView { window_id: target, ..state.workspaces[at] };
            assert(over.workspaces == state.workspaces.update(at, given));
            assert(next.workspaces == less.workspaces);
            assert forall|id: SurfaceId| state.tabs(id) <= #[trigger] next.tabs(id)
                <= state.tabs(id) + mark(drawn.surface, id) by {
                lemma_state_alike(state, over, id);
                assert(less.tabs(id) >= over.tabs(id));
                assert(less.tabs(id) <= over.tabs(id) + mark(drawn.surface, id));
            }
        }
    }
}

/// Moving a workspace among those of its window keeps every surface.
pub proof fn law_reordering_workspace_keeps_surfaces(
    state: StateView,
    workspace_id: WorkspaceId,
    window_id: WindowId,
    index: int,
)
    requires
        state.sound(),
        index >= 0,
    ensures
        state.reorder_workspace(workspace_id, window_id, index).0.same_surfaces(state),
{
    state::lemma_workspace_from(state.workspaces, workspace_id, 0);
    if let Some(at) = state.workspace_at(workspace_id) {
        let workspace = state.workspaces[at];
        if workspace.window_id == window_id {
            let rest = state.without_workspace(at);
            let list = rest.workspaces;
            state_windows::lemma_places(list, window_id, list.len() as int);
            let place = state_windows::insertion_place(list, window_id, index);
            let next = state.reorder_workspace(workspace_id, window_id, index).0;
            assert forall|id: SurfaceId| #[trigger] next.tabs(id) == state.tabs(id) by {
                lemma_taken_out(state, at, id);
                let marks = workspace_tabs(list, id);
                assert(workspace_tabs(next.workspaces, id) =~= marks.insert(
                    place,
                    workspace.tabs(id),
                ));
                lemma_sum_insert(marks, place, workspace.tabs(id));
            }
        }
    }
}

/// A new pane has one new surface.
pub proof fn law_new_pane_adds_one(
    state: StateView,
    drawn: Drawn,
    workspace_id: WorkspaceId,
    pane_id: Option<PaneId>,
    orientation: SplitOrientation,
    insert_first: bool,
    focus: bool,
)
    requires
        state.sound(),
    ensures
        ({
            let (next, result) = state.split_workspace_pane(
                drawn,
                workspace_id,
                pane_id,
                orientation,
                insert_first,
                focus,
            );
            if result is Ok {
                next.one_more_than(state, drawn.surface)
            } else {
                next.same_surfaces(state)
            }
        }),
{
    state::lemma_workspace_from(state.workspaces, workspace_id, 0);
    if let Some(at) = state.workspace_at(workspace_id) {
        let workspace = state.workspaces[at];
        let target = match pane_id {
            Some(id) => id,
            None => workspace.selected_pane_id,
        };
        let pane = state.fresh_pane(drawn);
        let (split, result) = workspace.split_pane(
            target,
            orientation,
            insert_first,
            focus,
            pane,
        );
        let next = state.split_workspace_pane(
            drawn,
            workspace_id,
            pane_id,
            orientation,
            insert_first,
            focus,
        ).0;
        assert(next.workspaces == state.workspaces.update(at, split));
        if result is Ok {
            assert forall|id: SurfaceId| #[trigger]
                next.tabs(id) == state.tabs(id) + mark(drawn.surface, id) by {
                let marks = pane_tabs(workspace.panes, id);
                assert(pane_tabs(split.panes, id) =~= marks.push(pane.tabs(id)));
                lemma_sum_push(marks, pane.tabs(id));
                lemma_pane_single(pane, id);
                lemma_with_workspace(state, at, split, id);
            }
        } else {
            assert(split == workspace);
            assert forall|id: SurfaceId| #[trigger] next.tabs(id) == state.tabs(id) by {
                lemma_with_workspace(state, at, split, id);
            }
        }
    }
}

/// A new surface is one more.
pub proof fn law_new_surface_adds_one(
    state: StateView,
    drawn: Drawn,
    workspace_id: WorkspaceId,
    pane_id: PaneId,
    focus: bool,
)
    requires
        state.sound(),
    ensures
        ({
            let (next, result) = state.create_surface(drawn, workspace_id, pane_id, focus);
            if result is Ok {
                next.one_more_than(state, drawn.surface)
            } else {
                next.same_surfaces(state)
            }
        }),
{
    state::lemma_workspace_from(state.workspaces, workspace_id, 0);
    if let Some(at) = state.workspace_at(workspace_id) {
        let workspace = state.workspaces[at];
        let surface = state.fresh_surface(drawn);
        let (grown, result) = workspace.create_surface(pane_id, surface, focus);
        let next = state.create_surface(drawn, workspace_id, pane_id, focus).0;
        assert(next.workspaces == state.workspaces.update(at, grown));
        workspace::lemma_pane_from(workspace.panes, pane_id, 0);
        assert forall|id: SurfaceId| #[trigger]
            next.tabs(id) == state.tabs(id) + (if result is Ok {
            mark(drawn.surface, id)
        } else {
            0
        }) by {
            if let Some(place) = workspace.pane_at(pane_id) {
                lemma_inserted(
                    workspace,
                    pane_id,
                    surface,
                    workspace.panes[place].surfaces.len() as int,
                    focus,
                    id,
                );
            }
            lemma_with_workspace(state, at, grown, id);
        }
    }
}

proof fn lemma_inserted(
    workspace: WorkspaceView,
    pane_id: PaneId,
    surface: SurfaceView,
    index: int,
    select_new: bool,
    id: SurfaceId,
)
    requires
        index >= 0,
    ensures
        workspace.insert_surface(pane_id, surface, index, select_new).0.tabs(id) == workspace.tabs(
            id,
        ) + (if workspace.pane_at(pane_id) is Some {
            mark(surface.id, id)
        } else {
            0
        }),
{
    workspace::lemma_pane_from(workspace.panes, pane_id, 0);
    if let Some(at) = workspace.pane_at(pane_id) {
        let pane = workspace.panes[at];
        let longer = pane.inserted(index, surface);
        lemma_pane_inserted(pane, index, surface, id);
        lemma_with_pane(workspace, at, longer, id);
        let chosen = PaneView { selected_surface_id: surface.id, ..longer };
        lemma_pane_alike(longer, chosen, id);
        lemma_with_pane(workspace, at, chosen, id);
    }
}

/// What taking a surface out of a workspace takes.
proof fn lemma_detached(
    workspace: WorkspaceView,
    surface_id: SurfaceId,
    last: Seq<char>,
    none_left: Seq<char>,
    id: SurfaceId,
)
    requires
        workspace.sound(),
    ensures
        workspace.detached(surface_id, last, none_left).0.tabs(id) + (if workspace.detached(
            surface_id,
            last,
            none_left,
        ).1 is Ok {
            mark(surface_id, id)
        } else {
            0
        }) == workspace.tabs(id),
{
    sound_workspaces::law_detach_keeps_sound(workspace, surface_id, last, none_left);
    sound_workspaces::lemma_holder(workspace.panes, surface_id, 0);
    if let Some(at) = workspace.holder(surface_id) {
        sound_workspaces::lemma_pane_place(workspace.panes, at);
        let pane = workspace.panes[at];
        assert(pane.sound());
        sound_workspaces::lemma_pane_holds(pane);
        sound_workspaces::lemma_surface_from(pane.surfaces, surface_id, 0);
        let place = pane.surface_at(surface_id)->0;
        let next = workspace.detached(surface_id, last, none_left).0;
        if pane.surfaces.len() > 1 {
            lemma_pane_removed(pane, place, id);
            lemma_with_pane(workspace, at, pane.without_surface(place), id);
        } else if workspace.panes.len() > 1 {
            assert(next.panes == workspace.panes.remove(at));
            let marks = pane_tabs(workspace.panes, id);
            assert(pane_tabs(next.panes, id) =~= marks.remove(at));
            lemma_sum_remove(marks, at);
            lemma_pane_single(pane, id);
        }
    }
}

/// Closing a surface takes just that one.
pub proof fn law_closing_surface_takes_one(
    state: StateView,
    workspace_id: WorkspaceId,
    surface_id: SurfaceId,
)
    requires
        state.sound(),
    ensures
        ({
            let (next, result) = state.close_surface(workspace_id, surface_id);
            if result is Ok {
                state.one_more_than(next, surface_id)
            } else {
                next.same_surfaces(state)
            }
        }),
{
    state::lemma_workspace_from(state.workspaces, workspace_id, 0);
    let (next, result) = state.close_surface(workspace_id, surface_id);
    if let Some(at) = state.workspace_at(workspace_id) {
        let workspace = state.workspaces[at];
        assert(workspace.sound());
        let rest = workspace.close_surface(surface_id).0;
        assert(next.workspaces == state.workspaces.update(at, rest));
        assert forall|id: SurfaceId|
            #![trigger next.tabs(id)]
            #![trigger state.tabs(id)]
            next.tabs(id) + (if result is Ok {
                mark(surface_id, id)
            } else {
                0
            }) == state.tabs(id) by {
            lemma_detached(
                workspace,
                surface_id,
                "cannot close the last surface"@,
                "no pane remaining after close"@,
                id,
            );
            lemma_with_workspace(state, at, rest, id);
        }
    }
}

/// Exchanging two panes keeps every surface.
pub proof fn law_swapping_keeps_surfaces(
    state: StateView,
    pane_id: PaneId,
    target: PaneId,
    focus: bool,
)
    requires
        state.sound(),
    ensures
        state.swap_panes(pane_id, target, focus).0.same_surfaces(state),
{
    sound_states::lemma_owner(state.workspaces, pane_id, 0);
    sound_states::lemma_owner(state.workspaces, target, 0);
    if state.swap_panes(pane_id, target, focus).1 is Ok {
        let at = state.owner(pane_id)->0;
        sound_states::lemma_workspace_place(state.workspaces, at, 0);
        let workspace = state.workspaces[at];
        assert(workspace.sound());
        workspace::lemma_pane_from(workspace.panes, pane_id, 0);
        workspace::lemma_pane_from(workspace.panes, target, 0);
        let a = workspace.pane_at(pane_id)->0;
        let b = workspace.pane_at(target)->0;
        let swapped = workspace.swapped(a, b);
        sound_workspaces::law_swapped_keeps_sound(workspace, a, b);
        sound_workspaces::law_focus_pane_keeps_sound(swapped, target);
        let focused = swapped.focus_pane(target).0;
        sound_states::lemma_with_workspace(state, at, focused, NIL, NIL);
        lemma_workspace_selected(state.with_workspace(at, focused), workspace.id);
        let next = state.swap_panes(pane_id, target, focus).0;
        assert forall|id: SurfaceId| #[trigger] next.tabs(id) == state.tabs(id) by {
            lemma_swapped(workspace, a, b, id);
            lemma_workspace_alike(swapped, focused, id);
            lemma_with_workspace(state, at, swapped, id);
            lemma_with_workspace(state, at, focused, id);
            assert(state.with_workspace(at, focused).tabs(id) == state.tabs(id));
        }
    }
}

proof fn lemma_swapped(workspace: WorkspaceView, a: int, b: int, id: SurfaceId)
    requires
        0 <= a < workspace.panes.len(),
        0 <= b < workspace.panes.len(),
    ensures
        workspace.swapped(a, b).tabs(id) == workspace.tabs(id),
{
    let marks = pane_tabs(workspace.panes, id);
    let next = workspace.swapped(a, b);
    let once = marks.update(a, marks[b]);
    lemma_sum_update(marks, a, marks[b]);
    lemma_sum_update(once, b, marks[a]);
    assert forall|k: int| 0 <= k < marks.len() implies (#[trigger] pane_tabs(next.panes, id)[k])
        == once.update(b, marks[a])[k] by {
        if k == b {
            lemma_pane_alike(workspace.panes[a], next.panes[b], id);
        } else if k == a {
            lemma_pane_alike(workspace.panes[b], next.panes[a], id);
        }
    }
    assert(pane_tabs(next.panes, id) =~= once.update(b, marks[a]));
}

/// Moving a surface keeps every surface, that one under its identifier, and brings in at most one
/// new one. A move to a place that is not there loses the surface, and no other.
pub proof fn law_moving_surface_keeps_surfaces(
    state: StateView,
    drawn: Drawn,
    surface_id: SurfaceId,
    workspace_id: WorkspaceId,
    pane_id: PaneId,
    index: int,
    focus: bool,
)
    requires
        state.sound(),
        state.new_inside(drawn),
        index >= 0,
    ensures
        ({
            let (next, result) = state.move_surface(
                drawn,
                surface_id,
                workspace_id,
                pane_id,
                index,
                focus,
            );
            &&& next.no_more_than(state, drawn.surface)
            &&& result is Ok ==> next.no_fewer_than(state)
            &&& forall|id: SurfaceId|
                id != surface_id ==> #[trigger] next.tabs(id) >= state.tabs(id)
        }),
{
    sound_states::lemma_target(state, surface_id);
    if let Some(at) = state.located(surface_id) {
        sound_states::lemma_workspace_place(state.workspaces, at, 0);
        let (source_id, source_pane_id) = state.locate_surface(surface_id)->0;
        if source_id == workspace_id && source_pane_id == pane_id {
            lemma_reordered(state, drawn, at, surface_id, index, focus);
        } else {
            lemma_carried(state, drawn, at, surface_id, workspace_id, pane_id, index, focus);
        }
    }
}

proof fn lemma_reordered(
    state: StateView,
    drawn: Drawn,
    at: int,
    surface_id: SurfaceId,
    index: int,
    focus: bool,
)
    requires
        state.sound(),
        state.located(surface_id) == Some(at),
        0 <= at < state.workspaces.len(),
        state.workspace_at(state.workspaces[at].id) == Some(at),
        index >= 0,
    ensures
        ({
            let (source_id, pane_id) = state.locate_surface(surface_id)->0;
            state.move_surface(
                drawn,
                surface_id,
                source_id,
                pane_id,
                index,
                focus,
            ).0.same_surfaces(state)
        }),
{
    let workspace = state.workspaces[at];
    assert(workspace.sound());
    let (source_id, pane_id) = state.locate_surface(surface_id)->0;
    sound_workspaces::law_reorder_surface_keeps_sound(workspace, surface_id, index);
    let reordered = workspace.reorder_surface(surface_id, index).0;
    sound_states::lemma_with_workspace(state, at, reordered, NIL, NIL);
    let changed = state.with_workspace(at, reordered);
    lemma_surface_focused(changed, surface_id);
    sound_states::lemma_located(state.workspaces, surface_id, 0);
    sound_workspaces::lemma_holder(workspace.panes, surface_id, 0);
    let holder = workspace.holder(surface_id)->0;
    sound_workspaces::lemma_pane_place(workspace.panes, holder);
    let pane = workspace.panes[holder];
    sound_workspaces::lemma_surface_from(pane.surfaces, surface_id, 0);
    let place = pane.surface_at(surface_id)->0;
    let rest = PaneView { surfaces: pane.surfaces.remove(place), ..pane };
    let next = state.move_surface(drawn, surface_id, source_id, pane_id, index, focus).0;
    assert forall|id: SurfaceId| #[trigger] next.tabs(id) == state.tabs(id) by {
        lemma_pane_removed(pane, place, id);
        lemma_pane_inserted(rest, index, pane.surfaces[place], id);
        lemma_with_pane(workspace, holder, rest.inserted(index, pane.surfaces[place]), id);
        lemma_with_workspace(state, at, reordered, id);
        assert(changed.tabs(id) == state.tabs(id));
    }
}

proof fn lemma_carried(
    state: StateView,
    drawn: Drawn,
    at: int,
    surface_id: SurfaceId,
    workspace_id: WorkspaceId,
    pane_id: PaneId,
    index: int,
    focus: bool,
)
    requires
        state.sound(),
        state.new_inside(drawn),
        state.located(surface_id) == Some(at),
        0 <= at < state.workspaces.len(),
        state.workspace_at(state.workspaces[at].id) == Some(at),
        state.workspaces[at].surface(surface_id) is Some,
        state.locate_surface(surface_id) != Some((workspace_id, pane_id)),
        index >= 0,
    ensures
        ({
            let (next, result) = state.move_surface(
                drawn,
                surface_id,
                workspace_id,
                pane_id,
                index,
                focus,
            );
            &&& next.no_more_than(state, drawn.surface)
            &&& result is Ok ==> next.no_fewer_than(state)
            &&& forall|id: SurfaceId|
                id != surface_id ==> #[trigger] next.tabs(id) >= state.tabs(id)
        }),
{
    let (next, result) = state.move_surface(
        drawn,
        surface_id,
        workspace_id,
        pane_id,
        index,
        focus,
    );
    sound_surfaces::lemma_extracted(state, drawn, at, surface_id);
    lemma_extracted(state, drawn, at, surface_id);
    let (taken, found) = state.extracted(drawn, at, surface_id);
    let surface = found->Ok_0;
    sound_workspaces::lemma_found_surface(state.workspaces[at], surface_id);
    state::lemma_workspace_from(taken.workspaces, workspace_id, 0);
    if let Some(place) = taken.workspace_at(workspace_id) {
        let home = taken.workspaces[place];
        assert(home.sound());
        let (filled, inserted) = home.insert_surface(pane_id, surface, index, focus);
        sound_workspaces::law_insert_surface_keeps_sound(home, pane_id, surface, index, focus);
        sound_states::lemma_with_workspace(taken, place, filled, NIL, NIL);
        let changed = taken.with_workspace(place, filled);
        lemma_surface_focused(changed, surface_id);
        assert forall|id: SurfaceId| #[trigger] next.tabs(id) == taken.tabs(id) + (if inserted is Ok {
            mark(surface_id, id)
        } else {
            0
        }) by {
            lemma_inserted(home, pane_id, surface, index, focus, id);
            lemma_with_workspace(taken, place, filled, id);
            assert(changed.tabs(id) == taken.tabs(id) + (if inserted is Ok {
                mark(surface_id, id)
            } else {
                0
            }));
        }
        if inserted is Ok {
            lemma_settled(changed, workspace_id, pane_id, surface_id, focus);
        }
    }
    assert forall|id: SurfaceId| #[trigger] next.tabs(id) <= state.tabs(id) + mark(
        drawn.surface,
        id,
    ) && (id != surface_id || result is Ok ==> next.tabs(id) >= state.tabs(id)) by {
        assert(taken.tabs(id) + mark(surface_id, id) >= state.tabs(id));
    }
}

/// A move that put its surface into the pane succeeds.
proof fn lemma_settled(
    state: StateView,
    workspace_id: WorkspaceId,
    pane_id: PaneId,
    surface_id: SurfaceId,
    focus: bool,
)
    requires
        state.sound(),
    ensures
        state.settled(workspace_id, pane_id, surface_id, focus).0.same_surfaces(state),
{
    if focus {
        lemma_surface_focused(state, surface_id);
    }
}

proof fn lemma_extracted(state: StateView, drawn: Drawn, at: int, surface_id: SurfaceId)
    requires
        state.sound(),
        0 <= at < state.workspaces.len(),
        state.workspaces[at].surface(surface_id) is Some,
    ensures
        forall|id: SurfaceId|
            state.tabs(id) <= #[trigger] state.extracted(drawn, at, surface_id).0.tabs(id) + mark(
                surface_id,
                id,
            ) <= state.tabs(id) + mark(drawn.surface, id),
{
    let workspace = state.workspaces[at];
    assert(workspace.sound());
    let next = state.extracted(drawn, at, surface_id).0;
    if state.lone(at) {
        let rest = state.without_workspace(at);
        let list = rest.workspace_ids_in(workspace.window_id);
        lemma_bereft(rest, drawn, workspace.window_id, workspace.id, list, false);
        let filled = rest.bereft(drawn, workspace.window_id, workspace.id, list, false);
        assert(next.workspaces == filled.workspaces);
        sound_workspaces::lemma_found_surface(workspace, surface_id);
        sound_workspaces::lemma_holder(workspace.panes, surface_id, 0);
        sound_workspaces::lemma_surface_from(workspace.panes[0].surfaces, surface_id, 0);
        assert forall|id: SurfaceId| state.tabs(id) <= #[trigger] next.tabs(id) + mark(
            surface_id,
            id,
        ) <= state.tabs(id) + mark(drawn.surface, id) by {
            lemma_taken_out(state, at, id);
            lemma_workspace_single(workspace, id);
            lemma_pane_single(workspace.panes[0], id);
            assert(filled.tabs(id) >= rest.tabs(id));
            assert(filled.tabs(id) <= rest.tabs(id) + mark(drawn.surface, id));
        }
    } else {
        let rest = workspace.remove_surface_for_move(surface_id).0;
        sound_workspaces::law_detach_keeps_sound(
            workspace,
            surface_id,
            "cannot move the last surface"@,
            "no pane remaining after move"@,
        );
        assert forall|id: SurfaceId| state.tabs(id) <= #[trigger] next.tabs(id) + mark(
            surface_id,
            id,
        ) <= state.tabs(id) + mark(drawn.surface, id) by {
            lemma_detached(
                workspace,
                surface_id,
                "cannot move the last surface"@,
                "no pane remaining after move"@,
                id,
            );
            lemma_with_workspace(state, at, rest, id);
        }
    }
}

/// A surface that gets a workspace of its own stays the surface that it is, and so do the others.
pub proof fn law_breaking_off_keeps_surfaces(
    state: StateView,
    drawn: Drawn,
    surface_id: SurfaceId,
    focus: bool,
)
    requires
        state.sound(),
        state.new_inside(drawn),
    ensures
        state.break_surface(drawn, surface_id, focus).0.same_surfaces(state),
{
    sound_states::lemma_target(state, surface_id);
    if let Some(at) = state.located(surface_id) {
        sound_states::lemma_workspace_place(state.workspaces, at, 0);
        let source = state.workspaces[at];
        assert(source.sound());
        sound_workspaces::law_detach_keeps_sound(
            source,
            surface_id,
            "cannot move the last surface"@,
            "no pane remaining after move"@,
        );
        sound_workspaces::lemma_found_surface(source, surface_id);
        let (rest, result) = source.remove_surface_for_move(surface_id);
        let taken = state.with_workspace(at, rest);
        let next = state.break_surface(drawn, surface_id, focus).0;
        assert forall|id: SurfaceId| #[trigger] taken.tabs(id) + (if result is Ok {
            mark(surface_id, id)
        } else {
            0
        }) == state.tabs(id) by {
            lemma_detached(
                source,
                surface_id,
                "cannot move the last surface"@,
                "no pane remaining after move"@,
                id,
            );
            lemma_with_workspace(state, at, rest, id);
        }
        if result is Ok {
            sound_surfaces::lemma_detached_ids(source, surface_id);
            sound_states::lemma_with_workspace(state, at, rest, NIL, NIL);
            let (shown, made) = sound_surfaces::lemma_broken_off(
                state,
                drawn,
                at,
                surface_id,
                focus,
            );
            lemma_surface_focused(shown, surface_id);
            assert forall|id: SurfaceId| #[trigger] next.tabs(id) == state.tabs(id) by {
                lemma_pushed(taken, shown, made, id);
                lemma_workspace_single(made, id);
                lemma_pane_single(made.panes[0], id);
                assert(taken.tabs(id) + mark(surface_id, id) == state.tabs(id));
                assert(next.tabs(id) == shown.tabs(id));
            }
        }
    }
}

} // verus!
