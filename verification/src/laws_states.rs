//! What holds of the operations on the state.

use crate::ids::{Drawn, PaneId, SurfaceId, WindowId, WorkspaceId, NIL};
use crate::layout::{FocusDirection, SplitOrientation};
use crate::sound_operations;
use crate::sound_states;
use crate::sound_workspaces;
use crate::state;
use crate::state::StateView;
use crate::state_focus;
use crate::surface::{PaneView, SurfaceView};
use crate::text;
use crate::workspace;
use crate::workspace::WorkspaceView;
use vstd::prelude::*;

verus! {

// ---------------------------------------------------------------------------
// The focus stays where it is
// ---------------------------------------------------------------------------

impl StateView {
    /// Whether the focus is where it is in another state.
    pub open spec fn same_focus(self, other: StateView) -> bool {
        &&& self.window_id == other.window_id
        &&& self.selected_workspace_id == other.selected_workspace_id
        &&& self.current_pane_id() == other.current_pane_id()
        &&& self.current_surface_id() == other.current_surface_id()
    }
}

/// A workspace that is made without the focus leaves the focus where it is.
pub proof fn law_new_workspace_keeps_focus(
    state: StateView,
    drawn: Drawn,
    window_id: WindowId,
    directory: Option<Seq<char>>,
)
    requires
        state.sound(),
    ensures
        state.create_workspace(drawn, window_id, false, directory).same_focus(state),
{
    sound_operations::law_something_is_current(state);
    let next = state.create_workspace(drawn, window_id, false, directory);
    let id = state.selected_workspace_id;
    state::lemma_workspace_from(state.workspaces, id, 0);
    assert(state.workspaces[state.workspace_at(id)->0].id != NIL);
    lemma_workspace_pushed(
        state.workspaces,
        state.fresh_workspace(drawn, window_id, directory),
        id,
        0,
    );
    assert(next.workspace_at(id) == state.workspace_at(id));
}

/// A workspace that is found is found where it was when another one comes after it.
pub proof fn lemma_workspace_pushed(
    list: Seq<WorkspaceView>,
    added: WorkspaceView,
    id: WorkspaceId,
    from: int,
)
    requires
        0 <= from,
        state::workspace_from(list, id, from) is Some,
    ensures
        state::workspace_from(list.push(added), id, from) == state::workspace_from(list, id, from),
    decreases list.len() - from,
{
    if from < list.len() {
        assert(list.push(added)[from] == list[from]);
        if list[from].id != id {
            lemma_workspace_pushed(list, added, id, from + 1);
        }
    }
}

/// A workspace changes, but not what is selected in it: the focus stays where it is.
proof fn lemma_same_focus(state: StateView, next: StateView, at: int, workspace: WorkspaceView)
    requires
        state.sound(),
        0 <= at < state.workspaces.len(),
        next.workspaces == state.workspaces.update(at, workspace),
        next.window_id == state.window_id,
        next.selected_workspace_id == state.selected_workspace_id,
        workspace.id == state.workspaces[at].id,
        workspace.selected_pane_id == state.workspaces[at].selected_pane_id,
        workspace.selected_surface_id() == state.workspaces[at].selected_surface_id(),
    ensures
        next.same_focus(state),
{
    let id = state.selected_workspace_id;
    crate::sound_changes::lemma_same_workspaces(state.workspaces, next.workspaces, id, 0);
    state::lemma_workspace_from(state.workspaces, id, 0);
}

/// A pane that is made without the focus leaves the focus where it is.
pub proof fn law_new_pane_keeps_focus(
    state: StateView,
    drawn: Drawn,
    workspace_id: WorkspaceId,
    pane_id: Option<PaneId>,
    orientation: SplitOrientation,
    insert_first: bool,
)
    requires
        state.sound(),
        state.new_inside(drawn),
    ensures
        state.split_workspace_pane(
            drawn,
            workspace_id,
            pane_id,
            orientation,
            insert_first,
            false,
        ).0.same_focus(state),
{
    state::lemma_workspace_from(state.workspaces, workspace_id, 0);
    if let Some(at) = state.workspace_at(workspace_id) {
        let workspace = state.workspaces[at];
        assert(workspace.sound());
        let target = match pane_id {
            Some(id) => id,
            None => workspace.selected_pane_id,
        };
        let pane = state.fresh_pane(drawn);
        let split = workspace.split_pane(target, orientation, insert_first, false, pane).0;
        workspace::lemma_pane_from(workspace.panes, workspace.selected_pane_id, 0);
        if split.panes == workspace.panes.push(pane) {
            lemma_pane_pushed(workspace.panes, pane, workspace.selected_pane_id, 0);
        }
        let next = state.split_workspace_pane(
            drawn,
            workspace_id,
            pane_id,
            orientation,
            insert_first,
            false,
        ).0;
        lemma_same_focus(state, next, at, split);
    }
}

/// A pane that is found is found where it was when another one comes after it.
pub proof fn lemma_pane_pushed(panes: Seq<PaneView>, added: PaneView, id: PaneId, from: int)
    requires
        0 <= from,
        workspace::pane_from(panes, id, from) is Some,
    ensures
        workspace::pane_from(panes.push(added), id, from) == workspace::pane_from(panes, id, from),
    decreases panes.len() - from,
{
    if from < panes.len() {
        assert(panes.push(added)[from] == panes[from]);
        if panes[from].id != id {
            lemma_pane_pushed(panes, added, id, from + 1);
        }
    }
}

/// A pane that is made beside a surface, without the focus, leaves the focus where it is.
pub proof fn law_split_keeps_focus(
    state: StateView,
    drawn: Drawn,
    surface_id: SurfaceId,
    orientation: SplitOrientation,
    insert_first: bool,
)
    requires
        state.sound(),
        state.new_inside(drawn),
    ensures
        state.split_surface(
            drawn,
            surface_id,
            orientation,
            insert_first,
            false,
        ).0.same_focus(state),
{
    if let Some((workspace_id, pane_id)) = state.locate_surface(surface_id) {
        law_new_pane_keeps_focus(
            state,
            drawn,
            workspace_id,
            Some(pane_id),
            orientation,
            insert_first,
        );
    }
}

/// A surface that is made without the focus leaves the focus where it is.
pub proof fn law_new_surface_keeps_focus(
    state: StateView,
    drawn: Drawn,
    workspace_id: WorkspaceId,
    pane_id: PaneId,
)
    requires
        state.sound(),
    ensures
        state.create_surface(drawn, workspace_id, pane_id, false).0.same_focus(state),
{
    state::lemma_workspace_from(state.workspaces, workspace_id, 0);
    if let Some(at) = state.workspace_at(workspace_id) {
        let workspace = state.workspaces[at];
        assert(workspace.sound());
        let surface = state.fresh_surface(drawn);
        let grown = workspace.create_surface(pane_id, surface, false).0;
        workspace::lemma_pane_from(workspace.panes, pane_id, 0);
        workspace::lemma_pane_from(workspace.panes, workspace.selected_pane_id, 0);
        sound_workspaces::lemma_same_panes(
            workspace.panes,
            grown.panes,
            workspace.selected_pane_id,
            0,
        );
        let next = state.create_surface(drawn, workspace_id, pane_id, false).0;
        lemma_same_focus(state, next, at, grown);
    }
}

// ---------------------------------------------------------------------------
// Looking clears, and counts
// ---------------------------------------------------------------------------

impl StateView {
    /// Whether each notification about this workspace, or about this surface in it, is read.
    pub open spec fn all_read(self, workspace_id: WorkspaceId, surface_id: Option<SurfaceId>) -> bool {
        forall|at: int|
            0 <= at < self.notifications.len() ==> !(
            #[trigger] self.notifications[at]).seen_from(workspace_id, surface_id)
    }
}

/// Looking at a workspace with a surface selected reads the notifications about them; the surface
/// asks for no attention any more, and is flashed once for each notification that was unread.
proof fn lemma_attended_clears(
    state: StateView,
    workspace_id: WorkspaceId,
    surface_id: SurfaceId,
)
    requires
        state.sound(),
        state.target(surface_id) is Some,
    ensures
        state.attended(workspace_id, Some(surface_id)).0.all_read(workspace_id, Some(surface_id)),
        match state.attended(workspace_id, Some(surface_id)).0.target(surface_id) {
            Some((at, surface)) => at == (state.target(surface_id)->0).0 && !surface.unread
                && !surface.unread_activity && !surface.unread_notification && surface.flash_count
                == (if state.notices(workspace_id, Some(surface_id)) > 0 {
                state_focus::raised(
                    (state.target(surface_id)->0).1.flash_count,
                    state.notices(workspace_id, Some(surface_id)) as u64,
                )
            } else {
                (state.target(surface_id)->0).1.flash_count
            }),
            None => false,
        },
{
    let noticed = state.noticed(workspace_id, Some(surface_id));
    assert(noticed.sound());
    sound_states::lemma_target(noticed, surface_id);
    let (at, surface) = noticed.target(surface_id)->0;
    let quiet = surface.attention(false, false);
    let calm = noticed.with_surface(at, surface_id, quiet);
    sound_states::lemma_with_surface(noticed, at, surface_id, quiet);
    lemma_retargeted(noticed, at, surface_id, quiet);
    let count = state.notices(workspace_id, Some(surface_id));
    if count > 0 {
        let flashed = SurfaceView {
            flash_count: state_focus::raised(quiet.flash_count, count as u64),
            ..quiet
        };
        lemma_retargeted(calm, at, surface_id, flashed);
    }
}

/// A surface that changed is found where it was.
pub proof fn lemma_retargeted(
    state: StateView,
    at: int,
    surface_id: SurfaceId,
    surface: SurfaceView,
)
    requires
        state.sound(),
        match state.target(surface_id) {
            Some((place, _)) => place == at,
            None => false,
        },
        surface.id == surface_id,
    ensures
        state.with_surface(at, surface_id, surface).target(surface_id) == Some((at, surface)),
        state.with_surface(at, surface_id, surface).locate_surface(surface_id)
            == state.locate_surface(surface_id),
{
    sound_states::lemma_target(state, surface_id);
    let next = state.with_surface(at, surface_id, surface);
    let workspace = state.workspaces[at];
    let changed = workspace.with_surface(surface_id, surface);
    assert(workspace.sound());
    sound_workspaces::lemma_holder(workspace.panes, surface_id, 0);
    let place = workspace.holder(surface_id)->0;
    let pane = workspace.panes[place];
    sound_workspaces::lemma_surface_from(pane.surfaces, surface_id, 0);
    let tab = pane.surface_at(surface_id)->0;
    let renewed = pane.with_surface(tab, surface);
    lemma_same_surfaces(pane.surfaces, renewed.surfaces, surface_id, 0);
    assert forall|k: int| 0 <= k < workspace.panes.len() implies (
    #[trigger] changed.panes[k]).surface_at(surface_id) == workspace.panes[k].surface_at(
        surface_id,
    ) by {}
    lemma_same_holders(workspace.panes, changed.panes, surface_id, 0);
    assert forall|k: int| 0 <= k < state.workspaces.len() implies (
    #[trigger] next.workspaces[k]).holder(surface_id) == state.workspaces[k].holder(
        surface_id,
    ) by {}
    lemma_same_located(state.workspaces, next.workspaces, surface_id, 0);
    sound_states::lemma_workspace_place(state.workspaces, at, 0);
    crate::sound_changes::lemma_same_workspaces(
        state.workspaces,
        next.workspaces,
        workspace.id,
        0,
    );
}

/// Which surfaces are found depends only on their identifiers.
pub proof fn lemma_same_surfaces(
    before: Seq<SurfaceView>,
    after: Seq<SurfaceView>,
    id: SurfaceId,
    from: int,
)
    requires
        before.len() == after.len(),
        0 <= from,
        forall|at: int| 0 <= at < before.len() ==> before[at].id == (#[trigger] after[at]).id,
    ensures
        crate::surface::surface_from(before, id, from) == crate::surface::surface_from(
            after,
            id,
            from,
        ),
    decreases before.len() - from,
{
    if from < before.len() {
        assert(before[from].id == after[from].id);
        lemma_same_surfaces(before, after, id, from + 1);
    }
}

/// Which pane holds a surface depends only on which panes do.
pub proof fn lemma_same_holders(
    before: Seq<PaneView>,
    after: Seq<PaneView>,
    id: SurfaceId,
    from: int,
)
    requires
        before.len() == after.len(),
        0 <= from,
        forall|at: int|
            0 <= at < before.len() ==> (#[trigger] after[at]).surface_at(id)
                == before[at].surface_at(id),
    ensures
        workspace::holder_from(before, id, from) == workspace::holder_from(after, id, from),
    decreases before.len() - from,
{
    if from < before.len() {
        assert(after[from].surface_at(id) == before[from].surface_at(id));
        lemma_same_holders(before, after, id, from + 1);
    }
}

proof fn lemma_same_located(
    before: Seq<WorkspaceView>,
    after: Seq<WorkspaceView>,
    id: SurfaceId,
    from: int,
)
    requires
        before.len() == after.len(),
        0 <= from,
        forall|at: int|
            0 <= at < before.len() ==> (#[trigger] after[at]).holder(id) == before[at].holder(id),
    ensures
        state::located_from(before, id, from) == state::located_from(after, id, from),
    decreases before.len() - from,
{
    if from < before.len() {
        assert(after[from].holder(id) == before[from].holder(id));
        lemma_same_located(before, after, id, from + 1);
    }
}

/// Selecting a workspace reads the notifications about it and about its selected surface; that
/// surface asks for no attention any more, and is flashed once for each that was unread.
pub proof fn law_selecting_workspace_reads(state: StateView, workspace_id: WorkspaceId)
    requires
        state.sound(),
        state.workspace_at(workspace_id) is Some,
    ensures
        ({
            let surface_id = state.workspace(workspace_id)->0.selected_surface_id()->0;
            let next = state.select_workspace(workspace_id).0;
            let count = state.notices(workspace_id, Some(surface_id));
            let before = (state.target(surface_id)->0).1.flash_count;
            let after = (next.target(surface_id)->0).1;
            &&& state.target(surface_id) is Some
            &&& next.target(surface_id) is Some
            &&& next.all_read(workspace_id, Some(surface_id))
            &&& !after.unread && !after.unread_activity && !after.unread_notification
            &&& after.flash_count == if count > 0 {
                state_focus::raised(before, count as u64)
            } else {
                before
            }
        }),
{
    state::lemma_workspace_from(state.workspaces, workspace_id, 0);
    let at = state.workspace_at(workspace_id)->0;
    let workspace = state.workspaces[at];
    assert(workspace.sound());
    workspace::lemma_pane_from(workspace.panes, workspace.selected_pane_id, 0);
    let place = workspace.pane_at(workspace.selected_pane_id)->0;
    let surface_id = workspace.panes[place].selected_surface_id;
    assert(workspace.panes[place].sound());
    lemma_holder_found(workspace.panes, surface_id, place, 0);
    lemma_located_found(state.workspaces, surface_id, at, 0);
    let shown = state.showing(workspace.window_id, workspace_id).synced_from(
        workspace.window_id,
    );
    assert(state.window_at(workspace.window_id) is Some);
    assert(sound_states::houses(state.workspaces, workspace.window_id, workspace_id));
    sound_states::lemma_showing(state, workspace.window_id, workspace_id);
    assert(shown.sound());
    sound_states::lemma_target(state, surface_id);
    assert(shown.workspaces == state.workspaces);
    assert(shown.notifications == state.notifications);
    assert(shown.target(surface_id) == state.target(surface_id));
    lemma_attended_clears(shown, workspace_id, surface_id);
    let next = state.select_workspace(workspace_id).0;
    let attended = shown.attended(workspace_id, Some(surface_id)).0;
    assert(next.target(surface_id) == attended.target(surface_id));
    assert(next.notifications == attended.notifications);
}

/// A pane that holds a surface shows that one of the panes does.
pub proof fn lemma_holder_found(panes: Seq<PaneView>, id: SurfaceId, at: int, from: int)
    requires
        0 <= from <= at < panes.len(),
        panes[at].surface_at(id) is Some,
    ensures
        workspace::holder_from(panes, id, from) is Some,
    decreases at - from,
{
    if from < at && panes[from].surface_at(id) is None {
        lemma_holder_found(panes, id, at, from + 1);
    }
}

/// A workspace that holds a surface shows that one of the workspaces does.
pub proof fn lemma_located_found(list: Seq<WorkspaceView>, id: SurfaceId, at: int, from: int)
    requires
        0 <= from <= at < list.len(),
        list[at].holder(id) is Some,
    ensures
        state::located_from(list, id, from) is Some,
    decreases at - from,
{
    if from < at && list[from].holder(id) is None {
        lemma_located_found(list, id, at, from + 1);
    }
}

/// Focusing a surface reads the notifications about its workspace and about it; it asks for no
/// attention any more, and is flashed once for each that was unread.
pub proof fn law_focusing_surface_reads(state: StateView, surface_id: SurfaceId)
    requires
        state.sound(),
        state.target(surface_id) is Some,
    ensures
        ({
            let workspace_id = (state.locate_surface(surface_id)->0).0;
            let next = state.focus_surface(surface_id).0;
            let count = state.notices(workspace_id, Some(surface_id));
            let before = (state.target(surface_id)->0).1.flash_count;
            let after = (next.target(surface_id)->0).1;
            &&& next.target(surface_id) is Some
            &&& next.all_read(workspace_id, Some(surface_id))
            &&& !after.unread && !after.unread_activity && !after.unread_notification
            &&& after.flash_count == if count > 0 {
                state_focus::raised(before, count as u64)
            } else {
                before
            }
        }),
{
    sound_states::lemma_target(state, surface_id);
    let at = state.located(surface_id)->0;
    let workspace = state.workspaces[at];
    let workspace_id = workspace.id;
    assert(workspace.sound());
    sound_workspaces::law_focus_surface_keeps_sound(workspace, surface_id);
    let focused = workspace.focus_surface(surface_id).0;
    let directory = match focused.surface(surface_id) {
        Some(surface) => surface.current_directory,
        None => None,
    };
    let moved = WorkspaceView {
        current_directory: if directory is Some {
            directory
        } else {
            focused.current_directory
        },
        ..focused
    };
    sound_workspaces::lemma_repaned(focused, moved);
    sound_states::lemma_with_workspace(state, at, moved, NIL, NIL);
    let changed = state.with_workspace(at, moved);
    assert(state.window_at(workspace.window_id) is Some);
    assert(changed.window_at(workspace.window_id) is Some);
    assert(changed.workspaces[at].id == workspace_id);
    assert(sound_states::houses(changed.workspaces, workspace.window_id, workspace_id));
    sound_states::lemma_showing(changed, workspace.window_id, workspace_id);
    let synced = changed.showing(workspace.window_id, workspace_id).synced_from(
        workspace.window_id,
    );
    assert(synced.sound());
    sound_states::lemma_workspace_place(synced.workspaces, at, 0);
    let shown = synced.in_directory(workspace_id, directory);
    let settled = WorkspaceView { current_directory: directory, ..moved };
    sound_workspaces::lemma_repaned(moved, settled);
    sound_states::lemma_with_workspace(synced, at, settled, NIL, NIL);
    assert(shown.sound());
    sound_workspaces::lemma_holder(workspace.panes, surface_id, 0);
    sound_workspaces::lemma_pane_place(
        workspace.panes,
        workspace.holder(surface_id)->0,
    );
    assert forall|k: int| 0 <= k < state.workspaces.len() implies (
    #[trigger] shown.workspaces[k]).id == state.workspaces[k].id && same_tabs(
        state.workspaces[k].panes,
        shown.workspaces[k].panes,
    ) by {}
    lemma_same_target(state, shown, surface_id);
    lemma_attended_clears(shown, workspace_id, surface_id);
    let next = state.focus_surface(surface_id).0;
    let attended = shown.attended(workspace_id, Some(surface_id)).0;
    assert(next.target(surface_id) == attended.target(surface_id));
    assert(next.notifications == attended.notifications);
}

/// Whether panes hold the same surfaces.
pub open spec fn same_tabs(before: Seq<PaneView>, after: Seq<PaneView>) -> bool {
    before.len() == after.len() && forall|k: int|
        0 <= k < before.len() ==> (#[trigger] after[k]).surfaces == before[k].surfaces
}

/// What an operation on a surface reaches depends only on the workspaces' identifiers and on the
/// surfaces.
pub proof fn lemma_same_target(before: StateView, after: StateView, id: SurfaceId)
    requires
        before.structured(),
        before.workspaces.len() == after.workspaces.len(),
        forall|k: int|
            0 <= k < before.workspaces.len() ==> (#[trigger] after.workspaces[k]).id
                == before.workspaces[k].id && same_tabs(
                before.workspaces[k].panes,
                after.workspaces[k].panes,
            ),
    ensures
        after.target(id) == before.target(id),
{
    assert forall|k: int| 0 <= k < before.workspaces.len() implies (
    #[trigger] after.workspaces[k]).holder(id) == before.workspaces[k].holder(id) by {
        assert(same_tabs(before.workspaces[k].panes, after.workspaces[k].panes));
        lemma_same_holders(before.workspaces[k].panes, after.workspaces[k].panes, id, 0);
    }
    lemma_same_located(before.workspaces, after.workspaces, id, 0);
    sound_states::lemma_located(before.workspaces, id, 0);
    if let Some(at) = before.located(id) {
        crate::sound_changes::lemma_same_workspaces(
            before.workspaces,
            after.workspaces,
            before.workspaces[at].id,
            0,
        );
        sound_states::lemma_workspace_place(before.workspaces, at, 0);
        assert(same_tabs(before.workspaces[at].panes, after.workspaces[at].panes));
        sound_workspaces::lemma_holder(before.workspaces[at].panes, id, 0);
    }
}

/// Clearing the notifications takes from each surface the attention that a notification asked for,
/// and leaves the attention that its text asks for.
pub proof fn law_clearing_keeps_activity(state: StateView, at: int, place: int, tab: int)
    requires
        0 <= at < state.workspaces.len(),
        0 <= place < state.workspaces[at].panes.len(),
        0 <= tab < state.workspaces[at].panes[place].surfaces.len(),
    ensures
        ({
            let before = state.workspaces[at].panes[place].surfaces[tab];
            let after = state.clear_notifications().workspaces[at].panes[place].surfaces[tab];
            &&& after.unread_activity == before.unread_activity
            &&& !after.unread_notification
            &&& after.unread == before.unread_activity
        }),
        state.clear_notifications().notifications.len() == 0,
{
}

// ---------------------------------------------------------------------------
// What is written is read
// ---------------------------------------------------------------------------

/// The text that a surface gets is the text that is read from it.
pub proof fn law_text_is_read_back(state: StateView, surface_id: SurfaceId, content: Seq<char>)
    requires
        state.sound(),
        state.target(surface_id) is Some,
    ensures
        state.retold(surface_id, content).0.read_terminal_text(surface_id, None) == Ok::<
            (WorkspaceId, Seq<char>),
            Seq<char>,
        >(((state.locate_surface(surface_id)->0).0, content)),
{
    sound_states::lemma_target(state, surface_id);
    let (at, surface) = state.target(surface_id)->0;
    let next = SurfaceView { transcript: content, ..surface }.attention(
        state.unseen(surface_id),
        surface.unread_notification,
    );
    lemma_retargeted(state, at, surface_id, next);
    let changed = state.with_surface(at, surface_id, next);
    let after = state.retold(surface_id, content).0;
    assert(after.workspaces == changed.workspaces);
    assert(after.target(surface_id) == changed.target(surface_id));
    assert(after.locate_surface(surface_id) == changed.locate_surface(surface_id));
}

/// A text that is added to a surface is read after the text that was there.
pub proof fn law_added_text_is_read(state: StateView, surface_id: SurfaceId, content: Seq<char>)
    requires
        state.sound(),
        state.target(surface_id) is Some,
    ensures
        state.append_terminal_text(surface_id, content).0.read_terminal_text(
            surface_id,
            None,
        ) == Ok::<(WorkspaceId, Seq<char>), Seq<char>>(
            (
                (state.locate_surface(surface_id)->0).0,
                (state.target(surface_id)->0).1.transcript + content,
            ),
        ),
{
    law_text_is_read_back(
        state,
        surface_id,
        (state.target(surface_id)->0).1.transcript + content,
    );
}

/// After its history was cleared, nothing is read from a surface.
pub proof fn law_cleared_text_is_gone(state: StateView, surface_id: SurfaceId)
    requires
        state.sound(),
        state.target(surface_id) is Some,
    ensures
        state.clear_surface_history(surface_id).0.read_terminal_text(surface_id, None) == Ok::<
            (WorkspaceId, Seq<char>),
            Seq<char>,
        >(((state.locate_surface(surface_id)->0).0, Seq::empty())),
{
    sound_states::lemma_target(state, surface_id);
    let (at, surface) = state.target(surface_id)->0;
    if surface.transcript.len() == 0 {
        assert(surface.transcript =~= Seq::empty());
    } else {
        let next = SurfaceView { transcript: Seq::empty(), ..surface }.attention(
            false,
            surface.unread_notification,
        );
        lemma_retargeted(state, at, surface_id, next);
        let changed = state.with_surface(at, surface_id, next);
        let after = state.clear_surface_history(surface_id).0;
        assert(after.target(surface_id) == changed.target(surface_id));
        assert(after.locate_surface(surface_id) == changed.locate_surface(surface_id));
    }
}

/// A workspace has the title that it is given, without the white space around it.
pub proof fn law_renamed_workspace_has_title(
    state: StateView,
    workspace_id: WorkspaceId,
    title: Seq<char>,
)
    requires
        state.workspace_at(workspace_id) is Some,
        text::trimmed(title).len() > 0,
    ensures
        match state.rename_workspace(workspace_id, title).0.workspace(workspace_id) {
            Some(workspace) => workspace.title == text::trimmed(title),
            None => false,
        },
        state.rename_workspace(workspace_id, title).1 is Ok,
{
    state::lemma_workspace_from(state.workspaces, workspace_id, 0);
    let next = state.rename_workspace(workspace_id, title).0;
    crate::sound_changes::lemma_same_workspaces(
        state.workspaces,
        next.workspaces,
        workspace_id,
        0,
    );
}

/// A surface has the title that it is given, without the white space around it.
pub proof fn law_renamed_surface_has_title(
    state: StateView,
    surface_id: SurfaceId,
    title: Seq<char>,
)
    requires
        state.sound(),
        state.target(surface_id) is Some,
        text::trimmed(title).len() > 0,
    ensures
        match state.rename_surface(surface_id, title).0.target(surface_id) {
            Some((_, surface)) => surface.title == text::trimmed(title),
            None => false,
        },
        state.rename_surface(surface_id, title).1 is Ok,
{
    sound_operations::lemma_tab(state, surface_id);
    let at = state.tab(surface_id)->Ok_0;
    let surface = state.surface_in_tab(at);
    let named = SurfaceView { title: text::trimmed(title), ..surface };
    assert(state.with_tab(at, named) == state.with_surface(at.0, surface_id, named));
    sound_states::lemma_target(state, surface_id);
    lemma_retargeted(state, at.0, surface_id, named);
    let changed = state.with_surface(at.0, surface_id, named);
    let after = state.rename_surface(surface_id, title).0;
    if surface.title != text::trimmed(title) {
        assert(after.target(surface_id) == changed.target(surface_id));
    }
}

// ---------------------------------------------------------------------------
// Directories
// ---------------------------------------------------------------------------

/// A new workspace is in the directory that it is made for, and so is its terminal.
pub proof fn law_new_workspace_is_in_directory(
    state: StateView,
    drawn: Drawn,
    window_id: WindowId,
    focus: bool,
    directory: Option<Seq<char>>,
)
    requires
        state.sound(),
        state.new_inside(drawn),
        state.located(drawn.surface) is None,
    ensures
        match state.create_workspace(drawn, window_id, focus, directory).workspace(
            drawn.workspace,
        ) {
            Some(workspace) => workspace.current_directory == directory,
            None => false,
        },
        state.create_workspace(drawn, window_id, focus, directory).working_directory(drawn.surface)
            == directory,
{
    let next = state.create_workspace(drawn, window_id, focus, directory);
    let list = state.workspaces;
    let made = state.fresh_workspace(drawn, window_id, directory);
    assert(next.workspaces == list.push(made));
    lemma_made_last(list, made, 0);
    let pane = made.panes[0];
    sound_workspaces::lemma_surface_found(pane.surfaces, 0, 0);
    lemma_holder_found(made.panes, drawn.surface, 0, 0);
    lemma_located_last(list, made, drawn.surface, 0);
}

proof fn lemma_made_last(list: Seq<WorkspaceView>, made: WorkspaceView, from: int)
    requires
        0 <= from <= list.len(),
        forall|k: int| 0 <= k < list.len() ==> (#[trigger] list[k]).id != made.id,
    ensures
        state::workspace_from(list.push(made), made.id, from) == Some(list.len() as int),
    decreases list.len() - from,
{
    if from < list.len() {
        assert(list.push(made)[from] == list[from]);
        lemma_made_last(list, made, from + 1);
    }
}

proof fn lemma_located_last(
    list: Seq<WorkspaceView>,
    made: WorkspaceView,
    id: SurfaceId,
    from: int,
)
    requires
        0 <= from <= list.len(),
        state::located_from(list, id, from) is None,
        made.holder(id) is Some,
    ensures
        state::located_from(list.push(made), id, from) == Some(list.len() as int),
    decreases list.len() - from,
{
    if from < list.len() {
        assert(list.push(made)[from] == list[from]);
        lemma_located_last(list, made, id, from + 1);
    } else {
        assert(list.push(made)[from] == made);
    }
}

/// When the shell of a surface changes its directory, the surface does, and the workspace follows
/// just where the surface is the selected one of its selected pane.
pub proof fn law_workspace_follows_directory(
    state: StateView,
    surface_id: SurfaceId,
    directory: Option<Seq<char>>,
)
    requires
        state.sound(),
        state.target(surface_id) is Some,
    ensures
        ({
            let (at, surface) = state.target(surface_id)->0;
            let (_, pane_id) = state.locate_surface(surface_id)->0;
            let before = state.workspaces[at];
            let next = state.update_directory(surface_id, directory).0;
            &&& match next.target(surface_id) {
                Some((_, after)) => after.current_directory == directory,
                None => false,
            }
            &&& next.workspaces[at].current_directory == if surface.current_directory != directory
                && before.shows(pane_id, surface_id) {
                directory
            } else {
                before.current_directory
            }
        }),
{
    sound_states::lemma_target(state, surface_id);
    let (at, surface) = state.target(surface_id)->0;
    let there = SurfaceView { current_directory: directory, ..surface };
    if surface.current_directory != directory {
        lemma_retargeted(state, at, surface_id, there);
        let changed = state.with_surface(at, surface_id, there);
        let after = state.update_directory(surface_id, directory).0;
        sound_states::lemma_with_surface(state, at, surface_id, there);
        assert forall|k: int| 0 <= k < changed.workspaces.len() implies (
        #[trigger] after.workspaces[k]).id == changed.workspaces[k].id && same_tabs(
            changed.workspaces[k].panes,
            after.workspaces[k].panes,
        ) by {}
        lemma_same_target(changed, after, surface_id);
    }
}

// ---------------------------------------------------------------------------
// What undoes what
// ---------------------------------------------------------------------------

/// Exchanging two panes twice restores the workspaces.
pub proof fn law_swapping_twice_restores(state: StateView, pane_id: PaneId, target: PaneId)
    requires
        state.sound(),
        state.swap_panes(pane_id, target, false).1 is Ok,
    ensures
        state.swap_panes(pane_id, target, false).0.swap_panes(pane_id, target, false).0.workspaces
            == state.workspaces,
{
    let once = state.swap_panes(pane_id, target, false).0;
    let twice = once.swap_panes(pane_id, target, false).0;
    sound_states::lemma_owner(state.workspaces, pane_id, 0);
    sound_states::lemma_owner(state.workspaces, target, 0);
    let at = state.owner(pane_id)->0;
    sound_states::lemma_workspace_place(state.workspaces, at, 0);
    sound_states::lemma_workspace_place(state.workspaces, state.owner(target)->0, 0);
    let workspace = state.workspaces[at];
    assert(state.owner(target) == Some(at));
    workspace::lemma_pane_from(workspace.panes, pane_id, 0);
    workspace::lemma_pane_from(workspace.panes, target, 0);
    let a = workspace.pane_at(pane_id)->0;
    let b = workspace.pane_at(target)->0;
    let swapped = workspace.swapped(a, b);
    assert(once.workspaces == state.workspaces.update(at, swapped));
    assert forall|k: int| 0 <= k < state.workspaces.len() implies (
    #[trigger] once.workspaces[k]).id == state.workspaces[k].id && same_pane_ids(
        state.workspaces[k].panes,
        once.workspaces[k].panes,
    ) by {}
    lemma_same_owner(state.workspaces, once.workspaces, pane_id, 0);
    lemma_same_owner(state.workspaces, once.workspaces, target, 0);
    crate::sound_changes::lemma_same_workspaces(
        state.workspaces,
        once.workspaces,
        workspace.id,
        0,
    );
    sound_workspaces::lemma_same_panes(workspace.panes, swapped.panes, pane_id, 0);
    sound_workspaces::lemma_same_panes(workspace.panes, swapped.panes, target, 0);
    assert(swapped.swapped(a, b).panes =~= workspace.panes);
    assert(twice.workspaces =~= state.workspaces);
}

/// Whether panes have the same identifiers.
pub open spec fn same_pane_ids(before: Seq<PaneView>, after: Seq<PaneView>) -> bool {
    before.len() == after.len() && forall|k: int|
        0 <= k < before.len() ==> before[k].id == (#[trigger] after[k]).id
}

proof fn lemma_same_owner(
    before: Seq<WorkspaceView>,
    after: Seq<WorkspaceView>,
    id: PaneId,
    from: int,
)
    requires
        before.len() == after.len(),
        0 <= from,
        forall|k: int|
            0 <= k < before.len() ==> (#[trigger] after[k]).id == before[k].id && same_pane_ids(
                before[k].panes,
                after[k].panes,
            ),
    ensures
        state::owner_from(before, id, from) == state::owner_from(after, id, from),
    decreases before.len() - from,
{
    if from < before.len() {
        assert(same_pane_ids(before[from].panes, after[from].panes));
        sound_workspaces::lemma_same_panes(before[from].panes, after[from].panes, id, 0);
        lemma_same_owner(before, after, id, from + 1);
    }
}

/// The workspace before the next one is the current one.
pub proof fn law_next_then_previous(state: StateView)
    requires
        state.sound(),
    ensures
        state.select_relative_workspace(1).0.select_relative_workspace(-1).0.selected_workspace_id
            == state.selected_workspace_id,
{
    law_step_and_back(state, 1);
}

/// Going some workspaces on and as many back leads to the workspace that was current.
pub proof fn law_step_and_back(state: StateView, delta: int)
    requires
        state.sound(),
    ensures
        state.select_relative_workspace(delta).0.select_relative_workspace(
            -delta,
        ).0.selected_workspace_id == state.selected_workspace_id,
{
    sound_operations::law_select_relative_workspace_keeps_sound(state, delta);
    let next = state.select_relative_workspace(delta).0;
    sound_operations::law_select_relative_workspace_keeps_sound(next, -delta);
    lemma_relative(state, delta);
    lemma_relative(next, -delta);
    let list = state.workspace_ids_in(state.window_id);
    let current = lemma_current_place(state);
    lemma_distinct_ids(state, state.window_id);
    let size = list.len() as int;
    let there = (current + delta) % size;
    vstd::arithmetic::div_mod::lemma_mod_bound(current + delta, size);
    lemma_own_place(list, list[there], there);
    assert((there - delta) % size == current) by {
        vstd::arithmetic::div_mod::lemma_sub_mod_noop(current + delta, delta, size);
        vstd::arithmetic::div_mod::lemma_sub_mod_noop(there, delta, size);
        vstd::arithmetic::div_mod::lemma_mod_twice(current + delta, size);
        vstd::arithmetic::div_mod::lemma_small_mod(current as nat, size as nat);
    }
}

/// Where identifiers differ, each is found at its own place.
proof fn lemma_own_place(list: Seq<u128>, id: u128, at: int)
    requires
        list.no_duplicates(),
        0 <= at < list.len(),
        list[at] == id,
    ensures
        state_focus::place_from(list, id, 0) == Some(at),
{
    crate::registry::lemma_place_found(list, id, 0);
}

/// The place of the current workspace in its window.
pub proof fn lemma_current_place(state: StateView) -> (at: int)
    requires
        state.sound(),
    ensures
        0 <= at < state.workspace_ids_in(state.window_id).len(),
        state.workspace_ids_in(state.window_id)[at] == state.selected_workspace_id,
        state_focus::place_from(
            state.workspace_ids_in(state.window_id),
            state.selected_workspace_id,
            0,
        ) == Some(at),
{
    let list = state.workspace_ids_in(state.window_id);
    state::lemma_window_from(state.windows, state.window_id, 0);
    sound_states::lemma_housed(state, state.window_id, state.selected_workspace_id);
    let k = choose|k: int| 0 <= k < list.len() && list[k] == state.selected_workspace_id;
    assert(list[k] == state.selected_workspace_id);
    crate::registry::lemma_place_found(list, state.selected_workspace_id, 0);
    state_focus::place_from(list, state.selected_workspace_id, 0)->0
}

/// The identifiers in a window differ.
pub proof fn lemma_distinct_ids(state: StateView, window_id: WindowId)
    requires
        state.structured(),
    ensures
        state.workspace_ids_in(window_id).no_duplicates(),
{
    lemma_distinct_ids_in(state.workspaces, window_id, state.workspaces.len() as int);
}

proof fn lemma_distinct_ids_in(list: Seq<WorkspaceView>, window_id: WindowId, count: int)
    requires
        sound_states::distinct_workspaces(list),
        0 <= count <= list.len(),
    ensures
        state::ids_in(list, window_id, count).no_duplicates(),
    decreases count,
{
    if count > 0 {
        lemma_distinct_ids_in(list, window_id, count - 1);
        let shorter = state::ids_in(list, window_id, count - 1);
        sound_states::lemma_ids_in(list, window_id, count - 1, list[count - 1].id);
        assert(!shorter.contains(list[count - 1].id));
        let ids = state::ids_in(list, window_id, count);
        assert forall|i: int, j: int|
            0 <= i < ids.len() && 0 <= j < ids.len() && i != j implies ids[i] != ids[j] by {
            if i < shorter.len() {
                assert(shorter.contains(shorter[i]));
            }
            if j < shorter.len() {
                assert(shorter.contains(shorter[j]));
            }
        }
    }
}

/// Selecting a workspace by its distance keeps the current window and its workspaces.
pub proof fn lemma_relative(state: StateView, delta: int)
    requires
        state.sound(),
    ensures
        state.select_relative_workspace(delta).0.window_id == state.window_id,
        state.select_relative_workspace(delta).0.selected_workspace_id
            == state.relative_workspace(delta),
        state.select_relative_workspace(delta).1 == Ok::<_, Seq<char>>(
            state.relative_workspace(delta),
        ),
        state.select_relative_workspace(delta).0.workspace_ids_in(state.window_id)
            == state.workspace_ids_in(state.window_id),
{
    let list = state.workspace_ids_in(state.window_id);
    let current = lemma_current_place(state);
    let id = state.relative_workspace(delta);
    vstd::arithmetic::div_mod::lemma_mod_bound(current + delta, list.len() as int);
    assert(list.contains(id));
    sound_states::lemma_housed(state, state.window_id, id);
    let at = choose|k: int|
        0 <= k < state.workspaces.len() && (#[trigger] state.workspaces[k]).id == id
            && state.workspaces[k].window_id == state.window_id;
    sound_states::lemma_workspace_place(state.workspaces, at, 0);
    let workspace = state.workspaces[at];
    sound_states::lemma_showing(state, state.window_id, id);
    let shown = state.showing(state.window_id, id).synced_from(state.window_id);
    assert(shown.sound());
    lemma_attended_ids(shown, id, workspace.selected_surface_id(), state.window_id);
}

/// Looking at a workspace changes no list of workspaces.
proof fn lemma_attended_ids(
    state: StateView,
    workspace_id: WorkspaceId,
    surface_id: Option<SurfaceId>,
    window_id: WindowId,
)
    requires
        state.sound(),
    ensures
        state.attended(workspace_id, surface_id).0.workspace_ids_in(window_id)
            == state.workspace_ids_in(window_id),
        state.attended(workspace_id, surface_id).0.window_id == state.window_id,
        state.attended(workspace_id, surface_id).0.selected_workspace_id
            == state.selected_workspace_id,
{
    let noticed = state.noticed(workspace_id, surface_id);
    if let Some(surface) = surface_id {
        let calm = noticed.calmed(surface).0;
        let count = state.workspaces.len() as int;
        sound_states::lemma_target(noticed, surface);
        crate::sound_snapshots::lemma_same_ids(
            noticed.workspaces,
            calm.workspaces,
            window_id,
            count,
        );
        if let Some((at, found)) = noticed.target(surface) {
            sound_states::lemma_with_surface(noticed, at, surface, found.attention(false, false));
        }
        let amount = state.notices(workspace_id, surface_id);
        let flashed = calm.flashed(surface, amount as u64);
        sound_states::lemma_target(calm, surface);
        crate::sound_snapshots::lemma_same_ids(
            calm.workspaces,
            flashed.workspaces,
            window_id,
            count,
        );
    }
}

/// A surface that was marked read asks for no attention, and one that was marked unread does.
pub proof fn law_marks_show(state: StateView, surface_id: SurfaceId)
    requires
        state.sound(),
        state.target(surface_id) is Some,
    ensures
        match state.mark_surface_read(surface_id).0.target(surface_id) {
            Some((_, surface)) => !surface.unread,
            None => false,
        },
        match state.mark_surface_unread(surface_id).0.target(surface_id) {
            Some((_, surface)) => surface.unread,
            None => false,
        },
{
    sound_operations::lemma_tab(state, surface_id);
    let at = state.tab(surface_id)->Ok_0;
    let surface = state.surface_in_tab(at);
    sound_states::lemma_target(state, surface_id);
    let calm = surface.attention(false, false);
    let loud = surface.attention(true, surface.unread_notification);
    lemma_retargeted(state, at.0, surface_id, calm);
    lemma_retargeted(state, at.0, surface_id, loud);
    assert(state.with_tab(at, calm) == state.with_surface(at.0, surface_id, calm));
    assert(state.with_tab(at, loud) == state.with_surface(at.0, surface_id, loud));
    assert(state.mark_surface_read(surface_id).0.target(surface_id) == state.with_surface(
        at.0,
        surface_id,
        calm,
    ).target(surface_id));
    assert(state.mark_surface_unread(surface_id).0.target(surface_id) == state.with_surface(
        at.0,
        surface_id,
        loud,
    ).target(surface_id));
}

// ---------------------------------------------------------------------------
// Changes are counted
// ---------------------------------------------------------------------------

/// The count of changes never falls when the focus moves.
pub proof fn law_focus_counts(
    state: StateView,
    window_id: WindowId,
    workspace_id: WorkspaceId,
    pane_id: PaneId,
    surface_id: SurfaceId,
    delta: int,
)
    ensures
        state.focus_window(window_id).0.revision >= state.revision,
        state.select_workspace(workspace_id).0.revision >= state.revision,
        state.select_relative_workspace(delta).0.revision >= state.revision,
        state.focus_pane(pane_id).0.revision >= state.revision,
        state.focus_surface(surface_id).0.revision >= state.revision,
{
}

/// Going elsewhere counts as a change: to another window, workspace, pane or tab than the one on
/// screen. Going to the pane on screen does not.
pub proof fn law_going_elsewhere_counts(
    state: StateView,
    window_id: WindowId,
    workspace_id: WorkspaceId,
    pane_id: PaneId,
    surface_id: SurfaceId,
    direction: FocusDirection,
)
    requires
        state.sound(),
        state.revision < u64::MAX,
    ensures
        state.focus_window(window_id).1 is Ok && state.window_id != window_id
            ==> state.focus_window(window_id).0.revision > state.revision,
        state.select_workspace(workspace_id).1 is Ok && state.selected_workspace_id != workspace_id
            ==> state.select_workspace(workspace_id).0.revision > state.revision,
        state.focus_pane(pane_id).1 is Ok && state.current_pane_id() != Some(pane_id)
            ==> state.focus_pane(pane_id).0.revision > state.revision,
        state.focus_surface(surface_id).1 is Ok && state.current_surface_id() != Some(surface_id)
            ==> state.focus_surface(surface_id).0.revision > state.revision,
        state.current_pane_id() == Some(pane_id) && state.owner(pane_id) == state.workspace_at(
            state.selected_workspace_id,
        ) ==> state.focus_pane(pane_id).0.revision == state.revision,
        ({
            let (after, result) = state.focus_adjacent_pane(direction);
            result is Ok && (result->Ok_0).1 != state.current_pane_id()->0 ==> after.revision
                > state.revision
        }),
{
    sound_operations::law_something_is_current(state);
    state::lemma_workspace_from(state.workspaces, state.selected_workspace_id, 0);
}

/// The count of changes never falls when windows and workspaces are made, closed or moved, and it
/// grows, up to its limit, where that succeeds.
pub proof fn law_windows_count(
    state: StateView,
    drawn: Drawn,
    window_id: WindowId,
    workspace_id: WorkspaceId,
    focus: bool,
    directory: Option<Seq<char>>,
    index: int,
)
    requires
        state.revision < u64::MAX,
    ensures
        state.create_workspace(drawn, window_id, focus, directory).revision > state.revision,
        state.create_window(drawn, focus).revision > state.revision,
        state.close_window(drawn, window_id).1 is Ok ==> state.close_window(
            drawn,
            window_id,
        ).0.revision > state.revision,
        state.close_workspace(drawn, workspace_id).1 is Ok ==> state.close_workspace(
            drawn,
            workspace_id,
        ).0.revision > state.revision,
        state.reorder_workspace(workspace_id, window_id, index).1 is Ok
            ==> state.reorder_workspace(workspace_id, window_id, index).0.revision
            > state.revision,
{
}

/// The count of changes grows, up to its limit, when panes and surfaces are made or closed.
pub proof fn law_panes_count(
    state: StateView,
    drawn: Drawn,
    workspace_id: WorkspaceId,
    pane_id: PaneId,
    surface_id: SurfaceId,
    orientation: SplitOrientation,
    insert_first: bool,
    focus: bool,
)
    requires
        state.revision < u64::MAX,
    ensures
        ({
            let (next, result) = state.split_workspace_pane(
                drawn,
                workspace_id,
                Some(pane_id),
                orientation,
                insert_first,
                focus,
            );
            result is Ok ==> next.revision > state.revision
        }),
        state.create_surface(drawn, workspace_id, pane_id, focus).1 is Ok ==> state.create_surface(
            drawn,
            workspace_id,
            pane_id,
            focus,
        ).0.revision > state.revision,
        state.close_surface(workspace_id, surface_id).1 is Ok ==> state.close_surface(
            workspace_id,
            surface_id,
        ).0.revision > state.revision,
        state.clear_notifications().revision > state.revision,
{
}

} // verus!
