//! What holds of every state that the operations reach.

use crate::ids::{Drawn, PaneId, SurfaceId, WindowId, WorkspaceId, NIL};
use crate::sound_workspaces;
use crate::state;
use crate::state::{StateView, WindowState};
use crate::surface::SurfaceView;
use crate::workspace::WorkspaceView;
use vstd::prelude::*;

verus! {

// ---------------------------------------------------------------------------
// What is sound
// ---------------------------------------------------------------------------

/// Whether one of the workspaces has this identifier and is in this window.
pub open spec fn houses(
    list: Seq<WorkspaceView>,
    window_id: WindowId,
    workspace_id: WorkspaceId,
) -> bool {
    exists|at: int|
        0 <= at < list.len() && (#[trigger] list[at]).id == workspace_id && list[at].window_id
            == window_id
}

/// Whether no two workspaces have the same identifier.
pub open spec fn distinct_workspaces(list: Seq<WorkspaceView>) -> bool {
    forall|a: int, b: int|
        0 <= a < b < list.len() ==> (#[trigger] list[a]).id != (#[trigger] list[b]).id
}

/// Whether no two windows have the same identifier.
pub open spec fn distinct_windows(list: Seq<WindowState>) -> bool {
    forall|a: int, b: int|
        0 <= a < b < list.len() ==> (#[trigger] list[a]).id != (#[trigger] list[b]).id
}

impl StateView {
    /// Whether each object has an identifier of its own, each workspace is sound, and each
    /// workspace is in one of the windows.
    pub open spec fn structured(self) -> bool {
        &&& distinct_windows(self.windows)
        &&& forall|at: int| 0 <= at < self.windows.len() ==> (#[trigger] self.windows[at]).id != NIL
        &&& distinct_workspaces(self.workspaces)
        &&& forall|at: int|
            0 <= at < self.workspaces.len() ==> {
                &&& (#[trigger] self.workspaces[at]).sound()
                &&& self.workspaces[at].id != NIL
                &&& self.window_at(self.workspaces[at].window_id) is Some
            }
    }

    /// Whether each window, but for these two, shows one of its own workspaces.
    pub open spec fn framed_but(self, a: WindowId, b: WindowId) -> bool {
        &&& self.structured()
        &&& forall|at: int|
            0 <= at < self.windows.len() && (#[trigger] self.windows[at]).id != a
                && self.windows[at].id != b ==> houses(
                self.workspaces,
                self.windows[at].id,
                self.windows[at].selected_workspace_id,
            )
    }

    /// Whether the state holds together: each object has an identifier of its own, each workspace
    /// is sound and is in one of the windows, each window shows one of its own workspaces, and the
    /// current workspace is the one that the current window shows.
    pub open spec fn sound(self) -> bool {
        &&& self.framed_but(NIL, NIL)
        &&& match self.window(self.window_id) {
            Some(window) => window.selected_workspace_id == self.selected_workspace_id,
            None => false,
        }
    }

    /// Whether the identifiers are new for a workspace: none is nil, and no workspace or pane has
    /// one of them.
    pub open spec fn new_inside(self, drawn: Drawn) -> bool {
        &&& drawn.usable()
        &&& forall|at: int|
            0 <= at < self.workspaces.len() ==> (#[trigger] self.workspaces[at]).id
                != drawn.workspace && self.workspaces[at].pane_at(drawn.pane) is None
    }

    /// Whether the identifiers are new: none is nil, and no window, workspace or pane has one of
    /// them.
    pub open spec fn new_to(self, drawn: Drawn) -> bool {
        &&& self.new_inside(drawn)
        &&& forall|at: int|
            0 <= at < self.windows.len() ==> (#[trigger] self.windows[at]).id != drawn.window
    }
}

// ---------------------------------------------------------------------------
// Looking things up
// ---------------------------------------------------------------------------

/// Where no two windows have the same identifier, a window is found at its own place.
pub proof fn lemma_window_place(windows: Seq<WindowState>, at: int, from: int)
    requires
        0 <= from <= at < windows.len(),
        distinct_windows(windows),
    ensures
        state::window_from(windows, windows[at].id, from) == Some(at),
    decreases at - from,
{
    if from < at {
        assert(windows[from].id != windows[at].id);
        lemma_window_place(windows, at, from + 1);
    }
}

/// Where no two workspaces have the same identifier, a workspace is found at its own place.
pub proof fn lemma_workspace_place(list: Seq<WorkspaceView>, at: int, from: int)
    requires
        0 <= from <= at < list.len(),
        distinct_workspaces(list),
    ensures
        state::workspace_from(list, list[at].id, from) == Some(at),
    decreases at - from,
{
    if from < at {
        assert(list[from].id != list[at].id);
        lemma_workspace_place(list, at, from + 1);
    }
}

/// The workspace that holds a surface is one of the workspaces, and holds it.
pub proof fn lemma_located(list: Seq<WorkspaceView>, id: SurfaceId, from: int)
    requires
        0 <= from,
    ensures
        match state::located_from(list, id, from) {
            Some(at) => from <= at < list.len() && list[at].holder(id) is Some,
            None => true,
        },
    decreases list.len() - from,
{
    if from < list.len() && list[from].holder(id) is None {
        lemma_located(list, id, from + 1);
    }
}

/// The workspace that holds a pane is one of the workspaces, and holds it.
pub proof fn lemma_owner(list: Seq<WorkspaceView>, id: PaneId, from: int)
    requires
        0 <= from,
    ensures
        match state::owner_from(list, id, from) {
            Some(at) => from <= at < list.len() && list[at].pane_at(id) is Some,
            None => true,
        },
    decreases list.len() - from,
{
    if from < list.len() && list[from].pane_at(id) is None {
        lemma_owner(list, id, from + 1);
    }
}

/// Which windows are found depends only on their identifiers.
pub proof fn lemma_same_windows(
    before: Seq<WindowState>,
    after: Seq<WindowState>,
    id: WindowId,
    from: int,
)
    requires
        before.len() == after.len(),
        0 <= from,
        forall|at: int| 0 <= at < before.len() ==> before[at].id == (#[trigger] after[at]).id,
    ensures
        state::window_from(before, id, from) == state::window_from(after, id, from),
    decreases before.len() - from,
{
    if from < before.len() {
        assert(before[from].id == after[from].id);
        lemma_same_windows(before, after, id, from + 1);
    }
}

/// The identifiers of the workspaces in a window are those that it houses.
pub proof fn lemma_ids_in(
    list: Seq<WorkspaceView>,
    window_id: WindowId,
    count: int,
    workspace_id: WorkspaceId,
)
    requires
        0 <= count <= list.len(),
    ensures
        state::ids_in(list, window_id, count).contains(workspace_id) == (exists|at: int|
            0 <= at < count && (#[trigger] list[at]).id == workspace_id && list[at].window_id
                == window_id),
    decreases count,
{
    let ids = state::ids_in(list, window_id, count);
    if count > 0 {
        lemma_ids_in(list, window_id, count - 1, workspace_id);
        let shorter = state::ids_in(list, window_id, count - 1);
        if ids.contains(workspace_id) {
            let k = choose|k: int| 0 <= k < ids.len() && ids[k] == workspace_id;
            if k < shorter.len() {
                assert(shorter[k] == workspace_id);
                assert(shorter.contains(workspace_id));
            } else {
                assert(list[count - 1].id == workspace_id);
            }
        }
        if exists|at: int|
            0 <= at < count && (#[trigger] list[at]).id == workspace_id && list[at].window_id
                == window_id {
            let at = choose|at: int|
                0 <= at < count && (#[trigger] list[at]).id == workspace_id && list[at].window_id
                    == window_id;
            if at < count - 1 {
                assert(shorter.contains(workspace_id));
                let k = choose|k: int| 0 <= k < shorter.len() && shorter[k] == workspace_id;
                assert(ids[k] == workspace_id);
            } else {
                assert(ids[shorter.len() as int] == workspace_id);
            }
        }
    }
}

/// A window houses the workspaces whose identifiers it lists.
pub proof fn lemma_housed(state: StateView, window_id: WindowId, workspace_id: WorkspaceId)
    ensures
        state.workspace_ids_in(window_id).contains(workspace_id) == houses(
            state.workspaces,
            window_id,
            workspace_id,
        ),
{
    lemma_ids_in(state.workspaces, window_id, state.workspaces.len() as int, workspace_id);
}

/// What an operation on a surface reaches in a state that holds together.
pub proof fn lemma_target(state: StateView, surface_id: SurfaceId)
    requires
        state.structured(),
    ensures
        match state.target(surface_id) {
            Some((at, surface)) => 0 <= at < state.workspaces.len()
                && state.workspaces[at].surface(surface_id) == Some(surface) && surface.id
                == surface_id && surface.sound() && state.located(surface_id) == Some(at),
            None => state.located(surface_id) is None,
        },
{
    lemma_located(state.workspaces, surface_id, 0);
    if let Some(found) = state.located(surface_id) {
        lemma_workspace_place(state.workspaces, found, 0);
        assert(state.workspaces[found].sound());
        sound_workspaces::lemma_holder(state.workspaces[found].panes, surface_id, 0);
        sound_workspaces::lemma_found_surface(state.workspaces[found], surface_id);
    }
}

// ---------------------------------------------------------------------------
// Small changes
// ---------------------------------------------------------------------------

/// Where the windows stay and each workspace changes for a sound one with the same identifier in
/// the same window, the state stays as it is framed.
pub proof fn lemma_refilled(before: StateView, after: StateView, a: WindowId, b: WindowId)
    requires
        before.framed_but(a, b),
        after.windows == before.windows,
        after.workspaces.len() == before.workspaces.len(),
        forall|at: int|
            0 <= at < before.workspaces.len() ==> {
                &&& (#[trigger] after.workspaces[at]).id == before.workspaces[at].id
                &&& after.workspaces[at].window_id == before.workspaces[at].window_id
                &&& after.workspaces[at].sound()
            },
    ensures
        after.framed_but(a, b),
        forall|w: WindowId, x: WorkspaceId|
            houses(before.workspaces, w, x) ==> #[trigger] houses(after.workspaces, w, x),
{
    assert forall|w: WindowId, x: WorkspaceId| houses(before.workspaces, w, x) implies
        #[trigger] houses(after.workspaces, w, x) by {
        let at = choose|at: int|
            0 <= at < before.workspaces.len() && (#[trigger] before.workspaces[at]).id == x
                && before.workspaces[at].window_id == w;
        assert(after.workspaces[at].id == x);
    }
    assert forall|p: int, q: int| 0 <= p < q < after.workspaces.len() implies (
    #[trigger] after.workspaces[p]).id != (#[trigger] after.workspaces[q]).id by {
        assert(before.workspaces[p].id != before.workspaces[q].id);
    }
    assert forall|at: int| 0 <= at < after.workspaces.len() implies {
        &&& (#[trigger] after.workspaces[at]).sound()
        &&& after.workspaces[at].id != NIL
        &&& after.window_at(after.workspaces[at].window_id) is Some
    } by {
        assert(before.window_at(before.workspaces[at].window_id) is Some);
    }
}

/// A workspace can change for a sound one with the same identifier in the same window.
pub proof fn lemma_with_workspace(
    before: StateView,
    at: int,
    workspace: WorkspaceView,
    a: WindowId,
    b: WindowId,
)
    requires
        before.framed_but(a, b),
        0 <= at < before.workspaces.len(),
        workspace.sound(),
        workspace.id == before.workspaces[at].id,
        workspace.window_id == before.workspaces[at].window_id,
    ensures
        before.with_workspace(at, workspace).framed_but(a, b),
        before.sound() ==> before.with_workspace(at, workspace).sound(),
        forall|w: WindowId, x: WorkspaceId|
            houses(before.workspaces, w, x) ==> #[trigger] houses(
                before.with_workspace(at, workspace).workspaces,
                w,
                x,
            ),
{
    lemma_refilled(before, before.with_workspace(at, workspace), a, b);
    if before.sound() {
        lemma_refilled(before, before.with_workspace(at, workspace), NIL, NIL);
    }
}

/// A surface can change for a sound one with the same identifier.
pub proof fn lemma_with_surface(
    before: StateView,
    at: int,
    surface_id: SurfaceId,
    surface: SurfaceView,
)
    requires
        before.sound(),
        0 <= at < before.workspaces.len(),
        before.workspaces[at].surface(surface_id) is Some,
        surface.sound(),
        surface.id == surface_id,
    ensures
        before.with_surface(at, surface_id, surface).sound(),
{
    sound_workspaces::lemma_workspace_with_surface(before.workspaces[at], surface_id, surface);
    lemma_with_workspace(
        before,
        at,
        before.workspaces[at].with_surface(surface_id, surface),
        NIL,
        NIL,
    );
}

/// A window can come to show one of its own workspaces.
pub proof fn lemma_with_window(
    before: StateView,
    at: int,
    window: WindowState,
    a: WindowId,
    b: WindowId,
)
    requires
        before.framed_but(a, b),
        0 <= at < before.windows.len(),
        window.id == before.windows[at].id,
        houses(before.workspaces, window.id, window.selected_workspace_id),
    ensures
        before.with_window(at, window).framed_but(a, b),
        window.id == a ==> before.with_window(at, window).framed_but(b, b),
        window.id == b ==> before.with_window(at, window).framed_but(a, a),
        before.with_window(at, window).window(window.id) == Some(window),
        forall|id: WindowId|
            id != window.id ==> #[trigger] before.with_window(at, window).window(id)
                == before.window(id),
{
    let after = before.with_window(at, window);
    assert forall|id: WindowId| #[trigger] after.window_at(id) == before.window_at(id) by {
        lemma_same_windows(before.windows, after.windows, id, 0);
    }
    assert forall|p: int, q: int| 0 <= p < q < after.windows.len() implies (
    #[trigger] after.windows[p]).id != (#[trigger] after.windows[q]).id by {
        assert(before.windows[p].id != before.windows[q].id);
    }
    assert forall|k: int| 0 <= k < after.windows.len() implies (
    #[trigger] after.windows[k]).id != NIL by {
        assert(before.windows[k].id != NIL);
    }
    assert forall|k: int| 0 <= k < after.workspaces.len() implies {
        &&& (#[trigger] after.workspaces[k]).sound()
        &&& after.workspaces[k].id != NIL
        &&& after.window_at(after.workspaces[k].window_id) is Some
    } by {
        assert(before.workspaces[k].sound());
        assert(after.window_at(after.workspaces[k].window_id) == before.window_at(
            before.workspaces[k].window_id,
        ));
    }
    lemma_window_place(before.windows, at, 0);
    assert(after.window_at(window.id) == before.window_at(window.id));
    assert forall|id: WindowId| id != window.id implies #[trigger] after.window(id)
        == before.window(id) by {
        assert(after.window_at(id) == before.window_at(id));
        state::lemma_window_from(before.windows, id, 0);
    }
    assert forall|k: int|
        0 <= k < after.windows.len() && (k == at || (after.windows[k].id != a
            && after.windows[k].id != b)) implies houses(
        after.workspaces,
        (#[trigger] after.windows[k]).id,
        after.windows[k].selected_workspace_id,
    ) by {
        if k != at {
            assert(before.windows[k] == after.windows[k]);
        }
    }
    assert forall|k: int| 0 <= k < after.windows.len() && k != at implies (
    #[trigger] after.windows[k]).id != window.id by {
        assert(before.windows[k] == after.windows[k]);
        lemma_window_place(before.windows, k, 0);
    }
}

/// Making a window show one of its own workspaces.
pub proof fn lemma_pointing(
    before: StateView,
    window_id: WindowId,
    selected: WorkspaceId,
    last: Option<WorkspaceId>,
    a: WindowId,
    b: WindowId,
)
    requires
        before.framed_but(a, b),
        before.window_at(window_id) is Some,
        houses(before.workspaces, window_id, selected),
    ensures
        before.pointing(window_id, selected, last).framed_but(a, b),
        window_id == a ==> before.pointing(window_id, selected, last).framed_but(b, b),
        window_id == b ==> before.pointing(window_id, selected, last).framed_but(a, a),
        match before.pointing(window_id, selected, last).window(window_id) {
            Some(window) => window.selected_workspace_id == selected,
            None => false,
        },
        forall|id: WindowId|
            id != window_id ==> #[trigger] before.pointing(window_id, selected, last).window(id)
                == before.window(id),
{
    state::lemma_window_from(before.windows, window_id, 0);
    let at = before.window_at(window_id)->0;
    lemma_with_window(
        before,
        at,
        WindowState {
            selected_workspace_id: selected,
            last_selected_workspace_id: last,
            ..before.windows[at]
        },
        a,
        b,
    );
}

/// Showing a workspace in its window.
pub proof fn lemma_showing(
    before: StateView,
    window_id: WindowId,
    workspace_id: WorkspaceId,
)
    requires
        before.framed_but(NIL, NIL),
        before.window_at(window_id) is Some,
        houses(before.workspaces, window_id, workspace_id),
    ensures
        before.showing(window_id, workspace_id).framed_but(NIL, NIL),
        match before.showing(window_id, workspace_id).window(window_id) {
            Some(window) => window.selected_workspace_id == workspace_id,
            None => false,
        },
        before.showing(window_id, workspace_id).workspaces == before.workspaces,
{
    state::lemma_window_from(before.windows, window_id, 0);
    let at = before.window_at(window_id)->0;
    if before.windows[at].selected_workspace_id != workspace_id {
        lemma_with_window(
            before,
            at,
            WindowState {
                selected_workspace_id: workspace_id,
                last_selected_workspace_id: crate::ids::non_nil(
                    before.windows[at].selected_workspace_id,
                ),
                ..before.windows[at]
            },
            NIL,
            NIL,
        );
    }
}

/// A window that houses a workspace shows one of its own after it was repaired.
pub proof fn lemma_repaired(
    before: StateView,
    window_id: WindowId,
    some: WorkspaceId,
    a: WindowId,
    b: WindowId,
)
    requires
        before.framed_but(a, b),
        before.window_at(window_id) is Some,
        houses(before.workspaces, window_id, some),
    ensures
        before.repaired(window_id).framed_but(a, b),
        window_id == a ==> before.repaired(window_id).framed_but(b, b),
        window_id == b ==> before.repaired(window_id).framed_but(a, a),
        before.repaired(window_id).window(window_id) is Some,
        before.repaired(window_id).workspaces == before.workspaces,
        forall|id: WindowId|
            id != window_id ==> #[trigger] before.repaired(window_id).window(id)
                == before.window(id),
{
    state::lemma_window_from(before.windows, window_id, 0);
    let at = before.window_at(window_id)->0;
    let list = before.workspace_ids_in(window_id);
    let window = before.windows[at];
    lemma_housed(before, window_id, some);
    assert(list.contains(some));
    lemma_housed(before, window_id, list[0]);
    assert(list.contains(list[0]));
    lemma_housed(before, window_id, window.selected_workspace_id);
    let next = WindowState {
        selected_workspace_id: if list.contains(window.selected_workspace_id) {
            window.selected_workspace_id
        } else if list.len() > 0 {
            list[0]
        } else {
            NIL
        },
        last_selected_workspace_id: match window.last_selected_workspace_id {
            Some(last) => if list.contains(last) {
                Some(last)
            } else {
                None
            },
            None => None,
        },
        ..window
    };
    lemma_with_window(before, at, next, a, b);
}

} // verus!
