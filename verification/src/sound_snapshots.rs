//! What comes back of a state that was kept.

use crate::ids::{WindowId, WorkspaceId, NIL};
use crate::snapshot;
use crate::sound_changes;
use crate::sound_operations;
use crate::sound_states;
use crate::sound_workspaces;
use crate::state;
use crate::state::{StateView, WindowState};
use crate::surface::{PaneView, SurfaceView};
use crate::workspace;
use crate::workspace::WorkspaceView;
use vstd::prelude::*;

verus! {

impl WorkspaceView {
    /// The workspace, where the pane that was selected before is forgotten if it is gone.
    pub open spec fn remembered(self) -> WorkspaceView {
        WorkspaceView {
            last_selected_pane_id: match self.last_selected_pane_id {
                Some(last) => if self.pane_at(last) is Some {
                    Some(last)
                } else {
                    None
                },
                None => None,
            },
            ..self
        }
    }
}

/// The workspaces as they are remembered.
pub open spec fn remembered_workspaces(list: Seq<WorkspaceView>) -> Seq<WorkspaceView> {
    Seq::new(list.len(), |at: int| list[at].remembered())
}

impl StateView {
    /// The window, where the workspace that it showed before is forgotten if it is not in the
    /// window any more.
    pub open spec fn remembered_window(self, window: WindowState) -> WindowState {
        WindowState {
            last_selected_workspace_id: match window.last_selected_workspace_id {
                Some(last) => if self.workspace_ids_in(window.id).contains(last) {
                    Some(last)
                } else {
                    None
                },
                None => None,
            },
            ..window
        }
    }

    /// What comes back of the state: all of it, but for the count of its changes, what was
    /// selected before and is gone, and the notifications about what is gone.
    pub open spec fn remembered(self) -> StateView {
        let workspaces = remembered_workspaces(self.workspaces);
        StateView {
            windows: Seq::new(
                self.windows.len(),
                |at: int| self.remembered_window(self.windows[at]),
            ),
            workspaces,
            last_selected_workspace_id: self.remembered_window(
                self.window(self.window_id)->0,
            ).last_selected_workspace_id,
            notifications: snapshot::relevant(
                self.notifications,
                workspaces,
                self.notifications.len() as int,
            ),
            revision: 0,
            ..self
        }
    }
}

proof fn lemma_mended_surface(surface: SurfaceView)
    requires
        surface.sound(),
    ensures
        surface.mended() == surface,
{
}

proof fn lemma_mended_pane(pane: PaneView)
    requires
        pane.sound(),
    ensures
        pane.mended() == pane,
{
    assert forall|at: int| 0 <= at < pane.surfaces.len() implies (
    #[trigger] pane.surfaces[at]).mended() == pane.surfaces[at] by {
        lemma_mended_surface(pane.surfaces[at]);
    }
    assert(pane.mended().surfaces =~= pane.surfaces);
}

proof fn lemma_mended_panes(panes: Seq<PaneView>, count: int)
    requires
        0 <= count <= panes.len(),
        forall|at: int| 0 <= at < panes.len() ==> (#[trigger] panes[at]).sound(),
    ensures
        snapshot::mended_panes(panes, count) == Ok::<Seq<PaneView>, Seq<char>>(panes.take(count)),
    decreases count,
{
    if count > 0 {
        lemma_mended_panes(panes, count - 1);
        lemma_mended_pane(panes[count - 1]);
        sound_workspaces::lemma_pane_holds(panes[count - 1]);
        assert(panes.take(count - 1).push(panes[count - 1]) =~= panes.take(count));
    } else {
        assert(panes.take(0) =~= Seq::empty());
    }
}

proof fn lemma_mended_workspace(workspace: WorkspaceView, window_id: WindowId)
    requires
        workspace.sound(),
        workspace.window_id != NIL,
    ensures
        workspace.mended(window_id) == Ok::<WorkspaceView, Seq<char>>(workspace.remembered()),
{
    sound_workspaces::lemma_workspace_holds(workspace);
    lemma_mended_panes(workspace.panes, workspace.panes.len() as int);
    assert(workspace.panes.take(workspace.panes.len() as int) =~= workspace.panes);
}

proof fn lemma_mended_workspaces(state: StateView, window_id: WindowId, count: int)
    requires
        state.structured(),
        0 <= count <= state.workspaces.len(),
    ensures
        snapshot::mended_workspaces(state.workspaces, window_id, count) == Ok::<
            Seq<WorkspaceView>,
            Seq<char>,
        >(remembered_workspaces(state.workspaces).take(count)),
    decreases count,
{
    let list = state.workspaces;
    let kept = remembered_workspaces(list);
    if count > 0 {
        lemma_mended_workspaces(state, window_id, count - 1);
        let workspace = list[count - 1];
        assert(workspace.sound());
        assert(state.window_at(workspace.window_id) is Some);
        state::lemma_window_from(state.windows, workspace.window_id, 0);
        lemma_mended_workspace(workspace, window_id);
        assert(kept.take(count - 1).push(workspace.remembered()) =~= kept.take(count));
    } else {
        assert(kept.take(0) =~= Seq::empty());
    }
}

/// The identifiers in a window depend only on the identifiers and the windows of the workspaces.
pub proof fn lemma_same_ids(
    before: Seq<WorkspaceView>,
    after: Seq<WorkspaceView>,
    window_id: WindowId,
    count: int,
)
    requires
        before.len() == after.len(),
        count <= before.len(),
        forall|at: int|
            0 <= at < before.len() ==> before[at].id == (#[trigger] after[at]).id
                && before[at].window_id == after[at].window_id,
    ensures
        state::ids_in(before, window_id, count) == state::ids_in(after, window_id, count),
    decreases count,
{
    if count > 0 {
        lemma_same_ids(before, after, window_id, count - 1);
        assert(before[count - 1].id == after[count - 1].id);
    }
}

proof fn lemma_inhabited(state: StateView, count: int)
    requires
        state.framed_but(NIL, NIL),
        0 <= count <= state.windows.len(),
    ensures
        snapshot::inhabited(state.windows, state.workspaces, count) == state.windows.take(count),
    decreases count,
{
    if count > 0 {
        lemma_inhabited(state, count - 1);
        let window = state.windows[count - 1];
        assert(sound_states::houses(
            state.workspaces,
            window.id,
            window.selected_workspace_id,
        ));
        sound_states::lemma_housed(state, window.id, window.selected_workspace_id);
        assert(state.windows.take(count - 1).push(window) =~= state.windows.take(count));
    } else {
        assert(state.windows.take(0) =~= Seq::empty());
    }
}

/// What the mending of the windows, for the first `count` workspaces, gives.
proof fn lemma_housed_windows(state: StateView, count: int)
    requires
        state.framed_but(NIL, NIL),
        0 <= count <= state.workspaces.len(),
    ensures
        state.housed(count) == (StateView { windows: state.housed(count).windows, ..state }),
        state.housed(count).windows.len() == state.windows.len(),
        forall|k: int|
            0 <= k < state.windows.len() ==> (#[trigger] state.housed(count).windows[k])
                == state.windows[k] || state.housed(count).windows[k]
                == state.remembered_window(state.windows[k]),
        forall|k: int, m: int|
            0 <= k < state.windows.len() && 0 <= m < count && (
            #[trigger] state.workspaces[m]).window_id == state.windows[k].id ==> (
            #[trigger] state.housed(count).windows[k]) == state.remembered_window(
                state.windows[k],
            ),
    decreases count,
{
    if count > 0 {
        lemma_housed_windows(state, count - 1);
        let before = state.housed(count - 1);
        let after = state.housed(count);
        let home = state.workspaces[count - 1].window_id;
        assert(state.window_at(home) is Some);
        state::lemma_window_from(state.windows, home, 0);
        assert forall|k: int| 0 <= k < state.windows.len() implies (
        #[trigger] before.windows[k]).id == state.windows[k].id by {
            assert(before.windows[k] == state.windows[k] || before.windows[k]
                == state.remembered_window(state.windows[k]));
        }
        sound_states::lemma_same_windows(state.windows, before.windows, home, 0);
        let at = state.window_at(home)->0;
        let window = state.windows[at];
        assert(sound_states::houses(state.workspaces, window.id, window.selected_workspace_id));
        sound_states::lemma_housed(state, window.id, window.selected_workspace_id);
        assert(before.windows[at] == window || before.windows[at] == state.remembered_window(
            window,
        ));
        assert(before.workspaces == state.workspaces);
        assert(after == before.repaired(home));
        assert(after.windows[at] == state.remembered_window(window));
        assert forall|k: int, m: int|
            0 <= k < state.windows.len() && 0 <= m < count && (
            #[trigger] state.workspaces[m]).window_id == state.windows[k].id implies (
        #[trigger] after.windows[k]) == state.remembered_window(state.windows[k]) by {
            if k != at {
                assert(after.windows[k] == before.windows[k]);
                if m == count - 1 {
                    sound_states::lemma_window_place(state.windows, k, 0);
                }
            }
        }
        assert forall|k: int| 0 <= k < state.windows.len() implies (
        #[trigger] after.windows[k]) == state.windows[k] || after.windows[k]
            == state.remembered_window(state.windows[k]) by {
            if k != at {
                assert(after.windows[k] == before.windows[k]);
            }
        }
    }
}

/// The state with remembered workspaces is framed as the state is.
proof fn lemma_remembered_framed(state: StateView, after: StateView)
    requires
        state.framed_but(NIL, NIL),
        after.windows == state.windows,
        after.workspaces == remembered_workspaces(state.workspaces),
    ensures
        after.framed_but(NIL, NIL),
        forall|id: WindowId| #[trigger]
            after.workspace_ids_in(id) == state.workspace_ids_in(id),
        forall|id: WorkspaceId| #[trigger] after.workspace_at(id) == state.workspace_at(id),
{
    assert forall|at: int| 0 <= at < state.workspaces.len() implies {
        &&& (#[trigger] after.workspaces[at]).id == state.workspaces[at].id
        &&& after.workspaces[at].window_id == state.workspaces[at].window_id
        &&& after.workspaces[at].sound()
    } by {
        let workspace = state.workspaces[at];
        assert(workspace.sound());
        sound_workspaces::lemma_repaned(workspace, workspace.remembered());
    }
    sound_states::lemma_refilled(state, after, NIL, NIL);
    assert forall|id: WindowId| #[trigger]
        after.workspace_ids_in(id) == state.workspace_ids_in(id) by {
        lemma_same_ids(
            state.workspaces,
            after.workspaces,
            id,
            state.workspaces.len() as int,
        );
    }
    assert forall|id: WorkspaceId| #[trigger] after.workspace_at(id) == state.workspace_at(id) by {
        sound_changes::lemma_same_workspaces(state.workspaces, after.workspaces, id, 0);
    }
}

/// What was kept of a sound state comes back as it was, but for the count of its changes, what was
/// selected before and is gone, and the notifications about what is gone.
pub proof fn law_snapshot_comes_back(state: StateView, current: WindowId, fallback: WindowId)
    requires
        state.sound(),
        state.next_workspace_title_number > 0,
        state.next_surface_title_number > 0,
    ensures
        state.snapshot().restored(current, fallback) == Ok::<StateView, Seq<char>>(
            state.remembered(),
        ),
{
    sound_operations::law_something_is_current(state);
    state::lemma_window_from(state.windows, state.window_id, 0);
    let windowed = state.snapshot().windowed(current, fallback);
    assert(windowed == (StateView { revision: 0, ..state }));
    let count = state.workspaces.len() as int;
    lemma_mended_workspaces(state, windowed.window_id, count);
    let kept = remembered_workspaces(state.workspaces);
    assert(kept.take(count) =~= kept);
    let filled = StateView { workspaces: kept, ..windowed };
    lemma_remembered_framed(state, filled);
    let anchored = filled.anchored();
    assert(filled.workspace_at(filled.selected_workspace_id) == state.workspace_at(
        state.selected_workspace_id,
    ));
    assert(anchored.framed_but(NIL, NIL));
    lemma_inhabited(anchored, anchored.windows.len() as int);
    assert(anchored.windows.take(anchored.windows.len() as int) =~= anchored.windows);
    lemma_housed_windows(anchored, count);
    let settled = anchored.settled_windows();
    assert(settled == anchored.housed(count));
    assert forall|k: int| 0 <= k < state.windows.len() implies (
    #[trigger] settled.windows[k]) == state.remembered_window(state.windows[k]) by {
        let window = state.windows[k];
        assert(sound_states::houses(state.workspaces, window.id, window.selected_workspace_id));
        let m = choose|m: int|
            0 <= m < state.workspaces.len() && (#[trigger] state.workspaces[m]).id
                == window.selected_workspace_id && state.workspaces[m].window_id == window.id;
        assert(anchored.workspaces[m].window_id == window.id);
        assert(anchored.windows[k] == window);
        assert(settled.windows[k] == anchored.remembered_window(window));
        assert(filled.workspace_ids_in(window.id) == state.workspace_ids_in(window.id));
    }
    let target = state.remembered();
    assert(settled.windows =~= target.windows);
    sound_states::lemma_same_windows(state.windows, settled.windows, state.window_id, 0);
    let at = state.window_at(state.window_id)->0;
    assert(settled.windows[at] == state.remembered_window(state.windows[at]));
    let next = settled.centered();
    assert(next.window_id == state.window_id);
    assert(next.selected_workspace_id == state.selected_workspace_id);
    assert(state.snapshot().restored(current, fallback)->Ok_0 =~= target);
}

/// What comes back of a sound state is sound.
pub proof fn law_remembered_is_sound(state: StateView)
    requires
        state.sound(),
    ensures
        state.remembered().sound(),
{
    let next = state.remembered();
    let filled = StateView { workspaces: remembered_workspaces(state.workspaces), ..state };
    lemma_remembered_framed(state, filled);
    assert forall|id: WindowId| #[trigger] next.window_at(id) == state.window_at(id) by {
        sound_states::lemma_same_windows(state.windows, next.windows, id, 0);
    }
    assert forall|p: int, q: int| 0 <= p < q < next.windows.len() implies (
    #[trigger] next.windows[p]).id != (#[trigger] next.windows[q]).id by {
        assert(state.windows[p].id != state.windows[q].id);
    }
    assert forall|k: int| 0 <= k < next.windows.len() implies (
    #[trigger] next.windows[k]).id != NIL && sound_states::houses(
        next.workspaces,
        next.windows[k].id,
        next.windows[k].selected_workspace_id,
    ) by {
        let window = filled.windows[k];
        assert(sound_states::houses(filled.workspaces, window.id, window.selected_workspace_id));
    }
    assert forall|k: int| 0 <= k < next.workspaces.len() implies {
        &&& (#[trigger] next.workspaces[k]).sound()
        &&& next.workspaces[k].id != NIL
        &&& next.window_at(next.workspaces[k].window_id) is Some
    } by {
        let workspace = filled.workspaces[k];
        assert(workspace.sound());
        assert(filled.window_at(workspace.window_id) is Some);
        assert(next.window_at(workspace.window_id) == state.window_at(workspace.window_id));
    }
    state::lemma_window_from(state.windows, state.window_id, 0);
    assert(next.window_at(state.window_id) == state.window_at(state.window_id));
}

} // verus!
