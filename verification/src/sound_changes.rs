//! Making, closing and moving windows and workspaces keeps the state sound.

use crate::ids::{Drawn, SurfaceId, WindowId, WorkspaceId, NIL};
use crate::sound_operations;
use crate::sound_states;
use crate::sound_workspaces;
use crate::state;
use crate::state::{StateView, WindowState};
use crate::state_windows;
use crate::workspace;
use crate::workspace::WorkspaceView;
use vstd::prelude::*;

verus! {

// ---------------------------------------------------------------------------
// Lists of workspaces
// ---------------------------------------------------------------------------

/// A state with one more workspace.
pub proof fn lemma_pushed(
    before: StateView,
    after: StateView,
    workspace: WorkspaceView,
    a: WindowId,
    b: WindowId,
)
    requires
        before.framed_but(a, b),
        after.windows == before.windows,
        after.workspaces == before.workspaces.push(workspace),
        workspace.sound(),
        workspace.id != NIL,
        before.window_at(workspace.window_id) is Some,
        forall|at: int|
            0 <= at < before.workspaces.len() ==> (#[trigger] before.workspaces[at]).id
                != workspace.id,
    ensures
        after.framed_but(a, b),
        sound_states::houses(after.workspaces, workspace.window_id, workspace.id),
        forall|w: WindowId, x: WorkspaceId|
            sound_states::houses(before.workspaces, w, x) ==> #[trigger] sound_states::houses(
                after.workspaces,
                w,
                x,
            ),
{
    let list = before.workspaces;
    let longer = list.push(workspace);
    assert(longer[list.len() as int] == workspace);
    assert forall|w: WindowId, x: WorkspaceId| sound_states::houses(list, w, x) implies
        #[trigger] sound_states::houses(longer, w, x) by {
        let at = choose|at: int|
            0 <= at < list.len() && (#[trigger] list[at]).id == x && list[at].window_id == w;
        assert(longer[at] == list[at]);
    }
    assert forall|p: int, q: int| 0 <= p < q < longer.len() implies (#[trigger] longer[p]).id != (
    #[trigger] longer[q]).id by {
        assert(longer[p] == list[p]);
        if q < list.len() {
            assert(longer[q] == list[q]);
        }
    }
    assert forall|at: int| 0 <= at < longer.len() implies {
        &&& (#[trigger] after.workspaces[at]).sound()
        &&& after.workspaces[at].id != NIL
        &&& after.window_at(after.workspaces[at].window_id) is Some
    } by {
        if at < list.len() {
            assert(longer[at] == list[at]);
            assert(before.window_at(list[at].window_id) is Some);
        }
    }
}

/// Taking a workspace out leaves each window that did not show it as it is.
pub proof fn lemma_taken_out(before: StateView, at: int, a: WindowId, b: WindowId)
    requires
        before.framed_but(a, b),
        0 <= at < before.workspaces.len(),
    ensures
        before.without_workspace(at).framed_but(a, before.workspaces[at].window_id) || b != a,
        before.without_workspace(at).structured(),
        forall|w: WindowId, x: WorkspaceId|
            sound_states::houses(before.workspaces, w, x) && x != before.workspaces[at].id ==>
                #[trigger] sound_states::houses(before.without_workspace(at).workspaces, w, x),
        forall|k: int|
            0 <= k < before.without_workspace(at).workspaces.len() ==> (
            #[trigger] before.without_workspace(at).workspaces[k]) == before.workspaces[if k < at {
                k
            } else {
                k + 1
            }],
{
    let list = before.workspaces;
    let rest = list.remove(at);
    let after = before.without_workspace(at);
    assert forall|w: WindowId, x: WorkspaceId|
        sound_states::houses(list, w, x) && x != list[at].id implies
        #[trigger] sound_states::houses(rest, w, x) by {
        let k = choose|k: int|
            0 <= k < list.len() && (#[trigger] list[k]).id == x && list[k].window_id == w;
        if k < at {
            assert(rest[k] == list[k]);
        } else {
            assert(rest[k - 1] == list[k]);
        }
    }
    assert forall|p: int, q: int| 0 <= p < q < rest.len() implies (#[trigger] rest[p]).id != (
    #[trigger] rest[q]).id by {
        let c = if p < at {
            p
        } else {
            p + 1
        };
        let d = if q < at {
            q
        } else {
            q + 1
        };
        assert(rest[p] == list[c] && rest[q] == list[d]);
    }
    assert forall|k: int| 0 <= k < rest.len() implies {
        &&& (#[trigger] after.workspaces[k]).sound()
        &&& after.workspaces[k].id != NIL
        &&& after.window_at(after.workspaces[k].window_id) is Some
    } by {
        let c = if k < at {
            k
        } else {
            k + 1
        };
        assert(rest[k] == list[c]);
        assert(before.window_at(list[c].window_id) is Some);
    }
    let lost = list[at].window_id;
    if a == b {
        assert forall|k: int|
            0 <= k < after.windows.len() && (#[trigger] after.windows[k]).id != a
                && after.windows[k].id != lost implies sound_states::houses(
            after.workspaces,
            after.windows[k].id,
            after.windows[k].selected_workspace_id,
        ) by {
            let window = before.windows[k];
            assert(sound_states::houses(list, window.id, window.selected_workspace_id));
            let m = choose|m: int|
                0 <= m < list.len() && (#[trigger] list[m]).id == window.selected_workspace_id
                    && list[m].window_id == window.id;
            assert(m != at);
            assert(list[m].id != list[at].id);
        }
    }
}

/// A new workspace is sound.
proof fn lemma_fresh_workspace(
    state: StateView,
    drawn: Drawn,
    window_id: WindowId,
    directory: Option<Seq<char>>,
)
    ensures
        state.fresh_workspace(drawn, window_id, directory).sound(),
{
    let workspace = state.fresh_workspace(drawn, window_id, directory);
    sound_workspaces::lemma_single(drawn.pane, state.fresh_surface(drawn));
    sound_workspaces::lemma_lone_pane(workspace);
}

/// Making a workspace in a window: the window may have shown none before.
pub proof fn lemma_made(
    before: StateView,
    drawn: Drawn,
    window_id: WindowId,
    focus: bool,
    directory: Option<Seq<char>>,
    other: WindowId,
)
    requires
        before.framed_but(window_id, other),
        before.new_inside(drawn),
        before.window_at(window_id) is Some,
    ensures
        before.create_workspace(drawn, window_id, focus, directory).framed_but(
            window_id,
            other,
        ),
        sound_states::houses(
            before.create_workspace(drawn, window_id, focus, directory).workspaces,
            window_id,
            drawn.workspace,
        ),
        forall|w: WindowId, x: WorkspaceId|
            sound_states::houses(before.workspaces, w, x) ==> #[trigger] sound_states::houses(
                before.create_workspace(drawn, window_id, focus, directory).workspaces,
                w,
                x,
            ),
        focus || before.window(window_id)->0.selected_workspace_id == NIL ==> {
            &&& before.create_workspace(drawn, window_id, focus, directory).framed_but(
                other,
                other,
            )
            &&& other == window_id ==> before.create_workspace(
                drawn,
                window_id,
                focus,
                directory,
            ).framed_but(NIL, NIL)
            &&& match before.create_workspace(drawn, window_id, focus, directory).window(
                window_id,
            ) {
                Some(window) => window.selected_workspace_id == drawn.workspace,
                None => false,
            }
        },
        !focus && before.window(window_id)->0.selected_workspace_id != NIL
            ==> before.create_workspace(drawn, window_id, focus, directory).windows
            == before.windows,
        forall|id: WindowId|
            id != window_id ==> #[trigger] before.create_workspace(
                drawn,
                window_id,
                focus,
                directory,
            ).window(id) == before.window(id),
        before.create_workspace(drawn, window_id, focus, directory).window_at(window_id) is Some,
        before.create_workspace(drawn, window_id, focus, directory).window_id == before.window_id,
        window_id != before.window_id || (!focus && before.selected_workspace_id != NIL)
            ==> before.create_workspace(
            drawn,
            window_id,
            focus,
            directory,
        ).selected_workspace_id == before.selected_workspace_id,
        window_id == before.window_id && (focus || before.selected_workspace_id == NIL)
            ==> before.create_workspace(
            drawn,
            window_id,
            focus,
            directory,
        ).selected_workspace_id == drawn.workspace,
{
    let workspace = before.fresh_workspace(drawn, window_id, directory);
    lemma_fresh_workspace(before, drawn, window_id, directory);
    let added = StateView {
        workspaces: before.workspaces.push(workspace),
        ..before.numbered_terminal().numbered_workspace()
    };
    lemma_pushed(before, added, workspace, window_id, other);
    state::lemma_window_from(added.windows, window_id, 0);
    let window = added.window(window_id)->0;
    if focus || window.selected_workspace_id == NIL {
        sound_states::lemma_pointing(
            added,
            window_id,
            drawn.workspace,
            crate::ids::non_nil(window.selected_workspace_id),
            window_id,
            other,
        );
        let shown = added.offered(window_id, drawn.workspace, focus);
        assert forall|at: int|
            0 <= at < shown.windows.len() && other == window_id implies sound_states::houses(
            shown.workspaces,
            (#[trigger] shown.windows[at]).id,
            shown.windows[at].selected_workspace_id,
        ) by {
            if shown.windows[at].id == window_id {
                sound_states::lemma_window_place(shown.windows, at, 0);
            }
        }
        let next = before.create_workspace(drawn, window_id, focus, directory);
        let pointed = added.pointing(
            window_id,
            drawn.workspace,
            crate::ids::non_nil(window.selected_workspace_id),
        );
        assert forall|id: WindowId| id != window_id implies #[trigger] next.window(id)
            == before.window(id) by {
            assert(pointed.window(id) == added.window(id));
        }
    }
}

/// Making a workspace keeps the state sound.
pub proof fn law_create_workspace_keeps_sound(
    state: StateView,
    drawn: Drawn,
    window_id: WindowId,
    focus: bool,
    directory: Option<Seq<char>>,
)
    requires
        state.sound(),
        state.new_to(drawn),
        state.window_at(window_id) is Some,
    ensures
        state.create_workspace(drawn, window_id, focus, directory).sound(),
{
    lemma_made(state, drawn, window_id, focus, directory, window_id);
    lemma_no_nil(state, window_id);
    lemma_no_nil(state, state.window_id);
    let next = state.create_workspace(drawn, window_id, focus, directory);
    if !focus {
        assert(next.framed_but(NIL, NIL)) by {
            assert forall|at: int| 0 <= at < next.windows.len() implies sound_states::houses(
                next.workspaces,
                (#[trigger] next.windows[at]).id,
                next.windows[at].selected_workspace_id,
            ) by {
                let window = state.windows[at];
                assert(sound_states::houses(
                    state.workspaces,
                    window.id,
                    window.selected_workspace_id,
                ));
            }
        }
    }
}

/// No window of a sound state shows nothing.
pub proof fn lemma_no_nil(state: StateView, window_id: WindowId)
    requires
        state.sound(),
    ensures
        match state.window(window_id) {
            Some(window) => window.selected_workspace_id != NIL,
            None => true,
        },
{
    state::lemma_window_from(state.windows, window_id, 0);
    if let Some(at) = state.window_at(window_id) {
        let window = state.windows[at];
        let k = choose|k: int|
            0 <= k < state.workspaces.len() && (#[trigger] state.workspaces[k]).id
                == window.selected_workspace_id && state.workspaces[k].window_id == window.id;
        assert(state.workspaces[k].id != NIL);
    }
}

/// A state with one more window, which shows nothing yet.
proof fn lemma_window_added(before: StateView, after: StateView, window: WindowState)
    requires
        before.framed_but(NIL, NIL),
        after.windows == before.windows.push(window),
        after.workspaces == before.workspaces,
        window.id != NIL,
        forall|at: int|
            0 <= at < before.windows.len() ==> (#[trigger] before.windows[at]).id != window.id,
    ensures
        after.framed_but(window.id, window.id),
        after.window(window.id) == Some(window),
        forall|id: WindowId|
            id != window.id ==> #[trigger] after.window(id) == before.window(id),
{
    let list = before.windows;
    let longer = list.push(window);
    assert forall|p: int, q: int| 0 <= p < q < longer.len() implies (#[trigger] longer[p]).id != (
    #[trigger] longer[q]).id by {
        assert(longer[p] == list[p]);
        if q < list.len() {
            assert(longer[q] == list[q]);
        }
    }
    assert forall|k: int| 0 <= k < longer.len() implies (#[trigger] longer[k]).id != NIL by {
        if k < list.len() {
            assert(longer[k] == list[k]);
        }
    }
    assert(longer[list.len() as int] == window);
    sound_states::lemma_window_place(longer, list.len() as int, 0);
    assert forall|id: WindowId| id != window.id implies #[trigger] after.window_at(id)
        == before.window_at(id) by {
        lemma_window_pushed(list, window, id, 0);
    }
    assert forall|id: WindowId| id != window.id implies #[trigger] after.window(id)
        == before.window(id) by {
        assert(after.window_at(id) == before.window_at(id));
        state::lemma_window_from(list, id, 0);
    }
    assert forall|k: int| 0 <= k < after.workspaces.len() implies {
        &&& (#[trigger] after.workspaces[k]).sound()
        &&& after.workspaces[k].id != NIL
        &&& after.window_at(after.workspaces[k].window_id) is Some
    } by {
        let id = before.workspaces[k].window_id;
        assert(before.window_at(id) is Some);
        if id != window.id {
            assert(after.window_at(id) == before.window_at(id));
        }
    }
    assert forall|k: int|
        0 <= k < longer.len() && (#[trigger] after.windows[k]).id != window.id implies sound_states::houses(
        after.workspaces,
        after.windows[k].id,
        after.windows[k].selected_workspace_id,
    ) by {
        assert(longer[k] == list[k]);
    }
}

proof fn lemma_window_pushed(list: Seq<WindowState>, window: WindowState, id: WindowId, from: int)
    requires
        0 <= from <= list.len(),
        id != window.id,
    ensures
        state::window_from(list.push(window), id, from) == state::window_from(list, id, from),
    decreases list.len() - from,
{
    if from < list.len() {
        assert(list.push(window)[from] == list[from]);
        lemma_window_pushed(list, window, id, from + 1);
    } else {
        assert(list.push(window)[from] == window);
        assert(state::window_from(list.push(window), id, from + 1) is None);
    }
}

/// Making a window with one workspace, whatever the current one is.
proof fn lemma_window_made(before: StateView, drawn: Drawn, focus: bool)
    requires
        before.framed_but(NIL, NIL),
        before.new_to(drawn),
        before.window_id != drawn.window,
    ensures
        before.create_window(drawn, focus).framed_but(NIL, NIL),
        focus ==> before.create_window(drawn, focus).sound(),
        before.sound() ==> before.create_window(drawn, focus).sound(),
        match before.create_window(drawn, focus).window(drawn.window) {
            Some(window) => window.selected_workspace_id == drawn.workspace,
            None => false,
        },
        focus ==> before.create_window(drawn, focus).window_id == drawn.window,
{
    let window = WindowState {
        id: drawn.window,
        selected_workspace_id: NIL,
        last_selected_workspace_id: None,
    };
    let added = StateView { windows: before.windows.push(window), ..before };
    lemma_window_added(before, added, window);
    lemma_made(added, drawn, drawn.window, focus, None, drawn.window);
    let filled = added.create_workspace(drawn, drawn.window, focus, None);
    if before.sound() {
        assert(before.window(before.window_id) is Some);
        assert(added.window(before.window_id) == before.window(before.window_id));
        assert(filled.window(before.window_id) == added.window(before.window_id));
        state::lemma_window_from(before.windows, before.window_id, 0);
    }
}

/// The state at the start is sound.
pub proof fn law_initial_is_sound(drawn: Drawn)
    requires
        drawn.usable(),
    ensures
        StateView::initial(drawn).sound(),
{
    let blank = StateView::blank();
    assert(blank.framed_but(NIL, NIL));
    lemma_window_made(blank, drawn, true);
}

/// Making a window keeps the state sound.
pub proof fn law_create_window_keeps_sound(state: StateView, drawn: Drawn, focus: bool)
    requires
        state.sound(),
        state.new_to(drawn),
    ensures
        state.create_window(drawn, focus).sound(),
{
    state::lemma_window_from(state.windows, state.window_id, 0);
    lemma_window_made(state, drawn, focus);
}

// ---------------------------------------------------------------------------
// Closing
// ---------------------------------------------------------------------------

/// Where a workspace outside a window comes from.
proof fn lemma_outside_source(
    list: Seq<WorkspaceView>,
    window_id: WindowId,
    count: int,
    k: int,
) -> (m: int)
    requires
        0 <= count <= list.len(),
        0 <= k < state_windows::outside(list, window_id, count).len(),
    ensures
        0 <= m < count,
        list[m].window_id != window_id,
        list[m] == state_windows::outside(list, window_id, count)[k],
    decreases count,
{
    let shorter = state_windows::outside(list, window_id, count - 1);
    if count > 0 && k < shorter.len() {
        lemma_outside_source(list, window_id, count - 1, k)
    } else {
        count - 1
    }
}

/// Where a workspace goes that is outside a window.
proof fn lemma_outside_place(
    list: Seq<WorkspaceView>,
    window_id: WindowId,
    count: int,
    m: int,
) -> (k: int)
    requires
        0 <= m < count <= list.len(),
        list[m].window_id != window_id,
    ensures
        0 <= k < state_windows::outside(list, window_id, count).len(),
        state_windows::outside(list, window_id, count)[k] == list[m],
    decreases count,
{
    let shorter = state_windows::outside(list, window_id, count - 1);
    if m < count - 1 {
        lemma_outside_place(list, window_id, count - 1, m)
    } else {
        shorter.len() as int
    }
}

/// The workspaces outside a window have identifiers of their own.
proof fn lemma_outside_distinct(list: Seq<WorkspaceView>, window_id: WindowId, count: int)
    requires
        0 <= count <= list.len(),
        sound_states::distinct_workspaces(list),
    ensures
        sound_states::distinct_workspaces(state_windows::outside(list, window_id, count)),
    decreases count,
{
    if count > 0 {
        lemma_outside_distinct(list, window_id, count - 1);
        let shorter = state_windows::outside(list, window_id, count - 1);
        let rest = state_windows::outside(list, window_id, count);
        assert forall|p: int, q: int| 0 <= p < q < rest.len() implies (#[trigger] rest[p]).id != (
        #[trigger] rest[q]).id by {
            assert(rest[p] == shorter[p]);
            if q < shorter.len() {
                assert(rest[q] == shorter[q]);
            } else {
                let m = lemma_outside_source(list, window_id, count - 1, p);
                assert(list[m].id != list[count - 1].id);
            }
        }
    }
}

/// The state without a window still holds together.
proof fn lemma_without_window(state: StateView, at: int)
    requires
        state.framed_but(NIL, NIL),
        0 <= at < state.windows.len(),
    ensures
        state.without_window(at).framed_but(NIL, NIL),
{
    let gone = state.windows[at].id;
    let list = state.workspaces;
    let rest = state_windows::outside(list, gone, list.len() as int);
    let next = state.without_window(at);
    lemma_outside_distinct(list, gone, list.len() as int);
    let windows = state.windows;
    let fewer = windows.remove(at);
    assert forall|p: int, q: int| 0 <= p < q < fewer.len() implies (#[trigger] fewer[p]).id != (
    #[trigger] fewer[q]).id by {
        let c = if p < at {
            p
        } else {
            p + 1
        };
        let d = if q < at {
            q
        } else {
            q + 1
        };
        assert(fewer[p] == windows[c] && fewer[q] == windows[d]);
    }
    assert forall|k: int| 0 <= k < fewer.len() implies (#[trigger] fewer[k]).id != NIL && fewer[k].id
        != gone by {
        let c = if k < at {
            k
        } else {
            k + 1
        };
        assert(fewer[k] == windows[c]);
        assert(windows[c].id != windows[at].id) by {
            if c < at {
                assert(windows[c].id != windows[at].id);
            } else {
                assert(windows[at].id != windows[c].id);
            }
        }
    }
    assert forall|k: int| 0 <= k < rest.len() implies {
        &&& (#[trigger] next.workspaces[k]).sound()
        &&& next.workspaces[k].id != NIL
        &&& next.window_at(next.workspaces[k].window_id) is Some
    } by {
        let m = lemma_outside_source(list, gone, list.len() as int, k);
        assert(list[m].sound());
        let home = list[m].window_id;
        assert(state.window_at(home) is Some);
        state::lemma_window_from(windows, home, 0);
        let w = state.window_at(home)->0;
        let place = if w < at {
            w
        } else {
            w - 1
        };
        assert(fewer[place] == windows[w]);
        sound_states::lemma_window_place(fewer, place, 0);
    }
    assert forall|k: int| 0 <= k < fewer.len() implies sound_states::houses(
        next.workspaces,
        (#[trigger] next.windows[k]).id,
        next.windows[k].selected_workspace_id,
    ) by {
        let c = if k < at {
            k
        } else {
            k + 1
        };
        let window = windows[c];
        assert(fewer[k] == window);
        assert(window.id != gone);
        assert(sound_states::houses(list, window.id, window.selected_workspace_id));
        let m = choose|m: int|
            0 <= m < list.len() && (#[trigger] list[m]).id == window.selected_workspace_id
                && list[m].window_id == window.id;
        let n = lemma_outside_place(list, gone, list.len() as int, m);
        assert(next.workspaces[n].id == window.selected_workspace_id);
    }
}

/// Closing a window keeps the state sound, and succeeds for each window.
pub proof fn law_close_window_keeps_sound(state: StateView, drawn: Drawn, window_id: WindowId)
    requires
        state.sound(),
        state.new_to(drawn),
    ensures
        state.close_window(drawn, window_id).0.sound(),
        state.close_window(drawn, window_id).1 is Ok == (state.window_at(window_id) is Some),
{
    state::lemma_window_from(state.windows, window_id, 0);
    if let Some(at) = state.window_at(window_id) {
        lemma_without_window(state, at);
        let rest = state.without_window(at);
        if rest.windows.len() == 0 {
            state::lemma_window_from(state.windows, state.window_id, 0);
            assert(rest.workspaces.len() == 0) by {
                if rest.workspaces.len() > 0 {
                    assert(rest.window_at(rest.workspaces[0].window_id) is Some);
                    state::lemma_window_from(
                        rest.windows,
                        rest.workspaces[0].window_id,
                        0,
                    );
                }
            }
            assert(rest.new_to(drawn));
            lemma_window_made(rest, drawn, true);
        } else {
            let before: int = if at > 0 {
                at - 1
            } else {
                0
            };
            sound_states::lemma_window_place(rest.windows, before, 0);
        }
    }
}

/// Closing a workspace keeps the state sound, and succeeds for each workspace.
pub proof fn law_close_workspace_keeps_sound(
    state: StateView,
    drawn: Drawn,
    workspace_id: WorkspaceId,
)
    requires
        state.sound(),
        state.new_to(drawn),
    ensures
        state.close_workspace(drawn, workspace_id).0.sound(),
        state.close_workspace(drawn, workspace_id).1 is Ok == (state.workspace_at(
            workspace_id,
        ) is Some),
{
    state::lemma_workspace_from(state.workspaces, workspace_id, 0);
    if let Some(at) = state.workspace_at(workspace_id) {
        let window_id = state.workspaces[at].window_id;
        let rest = state.without_workspace(at);
        assert(state.window_at(window_id) is Some);
        lemma_taken_out(state, at, NIL, NIL);
        lemma_not_nil_framed(rest, window_id);
        if state.workspace_ids_in(window_id).len() == 1 {
            assert(rest.new_inside(drawn)) by {
                assert forall|k: int| 0 <= k < rest.workspaces.len() implies (
                #[trigger] rest.workspaces[k]).id != drawn.workspace
                    && rest.workspaces[k].pane_at(drawn.pane) is None by {
                    let c = if k < at {
                        k
                    } else {
                        k + 1
                    };
                    assert(rest.workspaces[k] == state.workspaces[c]);
                }
            }
            lemma_made(rest, drawn, window_id, true, None, window_id);
            let filled = rest.create_workspace(drawn, window_id, true, None);
            if window_id == state.window_id {
                let chosen = StateView {
                    selected_workspace_id: drawn.workspace,
                    last_selected_workspace_id: None,
                    ..filled
                };
                state::lemma_window_from(chosen.windows, window_id, 0);
                let place = chosen.window_at(window_id)->0;
                sound_states::lemma_with_window(
                    chosen,
                    place,
                    WindowState {
                        selected_workspace_id: drawn.workspace,
                        last_selected_workspace_id: None,
                        ..chosen.windows[place]
                    },
                    NIL,
                    NIL,
                );
            } else {
                assert(filled.window(state.window_id) == rest.window(state.window_id));
            }
        } else {
            let last = state.window(window_id)->0.last_selected_workspace_id;
            let list = rest.workspace_ids_in(window_id);
            state_windows::lemma_ids_without(
                state.workspaces,
                window_id,
                at,
                state.workspaces.len() as int,
            );
            lemma_lists_itself(state, at);
            assert(list.len() > 0);
            let shown = state_windows::kept_or_first(last, list);
            assert(list.contains(list[0]));
            assert(list.contains(shown));
            sound_states::lemma_housed(rest, window_id, shown);
            sound_states::lemma_pointing(rest, window_id, shown, None, window_id, window_id);
            let pointed = rest.pointing(window_id, shown, None);
            lemma_framed(pointed, window_id);
            if window_id != state.window_id {
                assert(pointed.window(state.window_id) == rest.window(state.window_id));
            }
        }
    }
}

/// Where just one window may show none of its own workspaces, and it shows one, the state is
/// framed.
pub proof fn lemma_framed(state: StateView, window_id: WindowId)
    requires
        state.framed_but(window_id, window_id),
        match state.window(window_id) {
            Some(window) => sound_states::houses(
                state.workspaces,
                window_id,
                window.selected_workspace_id,
            ),
            None => true,
        },
    ensures
        state.framed_but(NIL, NIL),
{
    assert forall|at: int| 0 <= at < state.windows.len() implies sound_states::houses(
        state.workspaces,
        (#[trigger] state.windows[at]).id,
        state.windows[at].selected_workspace_id,
    ) by {
        if state.windows[at].id == window_id {
            sound_states::lemma_window_place(state.windows, at, 0);
        }
    }
}

/// No window has the nil identifier, so leaving it out makes no difference.
pub proof fn lemma_not_nil_framed(state: StateView, window_id: WindowId)
    requires
        state.framed_but(NIL, window_id),
    ensures
        state.framed_but(window_id, window_id),
{
    assert forall|at: int|
        0 <= at < state.windows.len() && (#[trigger] state.windows[at]).id != window_id implies sound_states::houses(
        state.workspaces,
        state.windows[at].id,
        state.windows[at].selected_workspace_id,
    ) by {
        assert(state.windows[at].id != NIL);
    }
}

/// A workspace is listed in its window.
pub proof fn lemma_lists_itself(state: StateView, at: int)
    requires
        0 <= at < state.workspaces.len(),
    ensures
        state.workspace_ids_in(state.workspaces[at].window_id).len() > 0,
{
    let window_id = state.workspaces[at].window_id;
    assert(sound_states::houses(state.workspaces, window_id, state.workspaces[at].id));
    sound_states::lemma_housed(state, window_id, state.workspaces[at].id);
}

/// Renaming a workspace keeps the state sound.
pub proof fn law_rename_workspace_keeps_sound(
    state: StateView,
    workspace_id: WorkspaceId,
    title: Seq<char>,
)
    requires
        state.sound(),
    ensures
        state.rename_workspace(workspace_id, title).0.sound(),
{
    state::lemma_workspace_from(state.workspaces, workspace_id, 0);
    if let Some(at) = state.workspace_at(workspace_id) {
        let workspace = state.workspaces[at];
        assert(workspace.sound());
        let named = WorkspaceView { title: crate::text::trimmed(title), ..workspace };
        sound_workspaces::lemma_repaned(workspace, named);
        sound_states::lemma_with_workspace(state, at, named, NIL, NIL);
    }
}

// ---------------------------------------------------------------------------
// Moving workspaces
// ---------------------------------------------------------------------------

/// A state with one more workspace, at any place.
proof fn lemma_put_in(
    before: StateView,
    after: StateView,
    place: int,
    workspace: WorkspaceView,
    a: WindowId,
    b: WindowId,
)
    requires
        before.framed_but(a, b),
        0 <= place <= before.workspaces.len(),
        after.windows == before.windows,
        after.workspaces == before.workspaces.insert(place, workspace),
        workspace.sound(),
        workspace.id != NIL,
        before.window_at(workspace.window_id) is Some,
        forall|at: int|
            0 <= at < before.workspaces.len() ==> (#[trigger] before.workspaces[at]).id
                != workspace.id,
    ensures
        after.framed_but(a, b),
        sound_states::houses(after.workspaces, workspace.window_id, workspace.id),
        forall|w: WindowId, x: WorkspaceId|
            sound_states::houses(before.workspaces, w, x) ==> #[trigger] sound_states::houses(
                after.workspaces,
                w,
                x,
            ),
{
    let list = before.workspaces;
    let longer = after.workspaces;
    assert(longer[place] == workspace);
    assert forall|w: WindowId, x: WorkspaceId| sound_states::houses(list, w, x) implies
        #[trigger] sound_states::houses(longer, w, x) by {
        let at = choose|at: int|
            0 <= at < list.len() && (#[trigger] list[at]).id == x && list[at].window_id == w;
        if at < place {
            assert(longer[at] == list[at]);
        } else {
            assert(longer[at + 1] == list[at]);
        }
    }
    assert forall|k: int| 0 <= k < longer.len() && k != place implies (#[trigger] longer[k])
        == list[if k < place {
        k
    } else {
        k - 1
    }] by {}
    assert forall|p: int, q: int| 0 <= p < q < longer.len() implies (#[trigger] longer[p]).id != (
    #[trigger] longer[q]).id by {
        let c = if p < place {
            p
        } else {
            p - 1
        };
        let d = if q < place {
            q
        } else {
            q - 1
        };
        if p != place {
            assert(longer[p] == list[c]);
        }
        if q != place {
            assert(longer[q] == list[d]);
        }
    }
    assert forall|at: int| 0 <= at < longer.len() implies {
        &&& (#[trigger] after.workspaces[at]).sound()
        &&& after.workspaces[at].id != NIL
        &&& after.window_at(after.workspaces[at].window_id) is Some
    } by {
        if at != place {
            let c = if at < place {
                at
            } else {
                at - 1
            };
            assert(longer[at] == list[c]);
            assert(before.window_at(list[c].window_id) is Some);
        }
    }
}

/// Moving a workspace among those of its window keeps the state sound.
pub proof fn law_reorder_workspace_keeps_sound(
    state: StateView,
    workspace_id: WorkspaceId,
    window_id: WindowId,
    index: int,
)
    requires
        state.sound(),
        index >= 0,
    ensures
        state.reorder_workspace(workspace_id, window_id, index).0.sound(),
{
    state::lemma_workspace_from(state.workspaces, workspace_id, 0);
    if let Some(at) = state.workspace_at(workspace_id) {
        let workspace = state.workspaces[at];
        if workspace.window_id == window_id {
            let rest = state.without_workspace(at);
            lemma_taken_out(state, at, NIL, NIL);
            lemma_not_nil_framed(rest, window_id);
            let list = rest.workspaces;
            state_windows::lemma_places(list, window_id, list.len() as int);
            let place = state_windows::insertion_place(list, window_id, index);
            let next = state.reorder_workspace(workspace_id, window_id, index).0;
            assert forall|k: int| 0 <= k < list.len() implies (#[trigger] list[k]).id
                != workspace_id by {
                let c = if k < at {
                    k
                } else {
                    k + 1
                };
                assert(list[k] == state.workspaces[c]);
                sound_states::lemma_workspace_place(state.workspaces, c, 0);
            }
            assert(workspace.sound());
            assert(state.window_at(window_id) is Some);
            lemma_put_in(rest, next, place, workspace, window_id, window_id);
            state::lemma_window_from(state.windows, window_id, 0);
            let w = state.window_at(window_id)->0;
            let window = state.windows[w];
            assert(sound_states::houses(
                state.workspaces,
                window_id,
                window.selected_workspace_id,
            ));
            if window.selected_workspace_id != workspace_id {
                assert(sound_states::houses(list, window_id, window.selected_workspace_id));
            }
            assert(sound_states::houses(
                next.workspaces,
                window_id,
                window.selected_workspace_id,
            ));
            lemma_framed(next, window_id);
        }
    }
}

/// The others are those that are not this one.
pub proof fn lemma_others(list: Seq<u128>, id: u128, count: int, other: u128)
    requires
        0 <= count <= list.len(),
    ensures
        state_windows::others(list, id, count).contains(other) == (other != id && exists|k: int|
            0 <= k < count && list[k] == other),
    decreases count,
{
    let rest = state_windows::others(list, id, count);
    if count > 0 {
        lemma_others(list, id, count - 1, other);
        let shorter = state_windows::others(list, id, count - 1);
        if rest.contains(other) {
            let k = choose|k: int| 0 <= k < rest.len() && rest[k] == other;
            if k < shorter.len() {
                assert(shorter[k] == other);
                assert(shorter.contains(other));
                let m = choose|m: int| 0 <= m < count - 1 && list[m] == other;
                assert(list[m] == other);
            } else {
                assert(list[count - 1] == other);
            }
        }
        if other != id && exists|k: int| 0 <= k < count && list[k] == other {
            let m = choose|m: int| 0 <= m < count && list[m] == other;
            if m < count - 1 {
                assert(shorter.contains(other));
                let k = choose|k: int| 0 <= k < shorter.len() && shorter[k] == other;
                assert(rest[k] == other);
            } else {
                assert(rest[shorter.len() as int] == other);
            }
        }
    }
}

/// A workspace that changes its window leaves every window but the two as it is.
proof fn lemma_handed_over(state: StateView, at: int, target: WindowId, focus: bool)
    requires
        state.framed_but(NIL, NIL),
        0 <= at < state.workspaces.len(),
        state.window_at(target) is Some,
        state.workspaces[at].window_id != target,
    ensures
        state.handed_over(at, target, focus).framed_but(state.workspaces[at].window_id, target),
        sound_states::houses(
            state.handed_over(at, target, focus).workspaces,
            target,
            state.workspaces[at].id,
        ),
        forall|w: WindowId, x: WorkspaceId|
            sound_states::houses(state.workspaces, w, x) && x != state.workspaces[at].id ==>
                #[trigger] sound_states::houses(
                state.handed_over(at, target, focus).workspaces,
                w,
                x,
            ),
        forall|id: WindowId|
            id != target ==> #[trigger] state.handed_over(at, target, focus).window(id)
                == state.window(id),
        state.handed_over(at, target, focus).window_at(target) is Some,
        state.handed_over(at, target, focus).workspaces == state.workspaces.update(
            at,
            (WorkspaceView { window_id: target, ..state.workspaces[at] }),
        ),
{
    let workspace = state.workspaces[at];
    let source = workspace.window_id;
    let given = WorkspaceView { window_id: target, ..workspace };
    let next = state.with_workspace(at, given);
    assert(workspace.sound());
    sound_workspaces::lemma_repaned(workspace, given);
    let list = state.workspaces;
    let after = next.workspaces;
    assert forall|w: WindowId, x: WorkspaceId|
        sound_states::houses(list, w, x) && x != workspace.id implies
        #[trigger] sound_states::houses(after, w, x) by {
        let k = choose|k: int|
            0 <= k < list.len() && (#[trigger] list[k]).id == x && list[k].window_id == w;
        assert(after[k] == list[k]);
    }
    assert(after[at] == given);
    assert forall|p: int, q: int| 0 <= p < q < after.len() implies (#[trigger] after[p]).id != (
    #[trigger] after[q]).id by {
        assert(list[p].id != list[q].id);
    }
    assert forall|k: int| 0 <= k < after.len() implies {
        &&& (#[trigger] next.workspaces[k]).sound()
        &&& next.workspaces[k].id != NIL
        &&& next.window_at(next.workspaces[k].window_id) is Some
    } by {
        assert(list[k].sound());
        assert(state.window_at(list[k].window_id) is Some);
    }
    assert(next.framed_but(source, target)) by {
        assert forall|k: int|
            0 <= k < next.windows.len() && (#[trigger] next.windows[k]).id != source
                && next.windows[k].id != target implies sound_states::houses(
            next.workspaces,
            next.windows[k].id,
            next.windows[k].selected_workspace_id,
        ) by {
            let window = state.windows[k];
            assert(sound_states::houses(list, window.id, window.selected_workspace_id));
            let m = choose|m: int|
                0 <= m < list.len() && (#[trigger] list[m]).id == window.selected_workspace_id
                    && list[m].window_id == window.id;
            assert(m != at);
            assert(list[m].id != list[at].id);
        }
    }
    state::lemma_window_from(next.windows, target, 0);
    let window = next.window(target)->0;
    if focus || window.selected_workspace_id == NIL {
        sound_states::lemma_pointing(
            next,
            target,
            workspace.id,
            crate::ids::non_nil(window.selected_workspace_id),
            source,
            target,
        );
        let pointed = next.pointing(
            target,
            workspace.id,
            crate::ids::non_nil(window.selected_workspace_id),
        );
        assert forall|id: WindowId| id != target implies #[trigger] state.handed_over(
            at,
            target,
            focus,
        ).window(id) == state.window(id) by {
            assert(pointed.window(id) == next.window(id));
        }
    }
}

/// The identifiers stay new when windows or workspaces that had others change.
proof fn lemma_still_new(before: StateView, after: StateView, drawn: Drawn)
    requires
        before.new_inside(drawn),
        after.workspaces.len() == before.workspaces.len(),
        forall|k: int|
            0 <= k < before.workspaces.len() ==> (#[trigger] after.workspaces[k]).id
                == before.workspaces[k].id && after.workspaces[k].panes
                == before.workspaces[k].panes,
    ensures
        after.new_inside(drawn),
{
    assert forall|k: int| 0 <= k < after.workspaces.len() implies (
    #[trigger] after.workspaces[k]).id != drawn.workspace && after.workspaces[k].pane_at(
        drawn.pane,
    ) is None by {
        assert(before.workspaces[k].pane_at(drawn.pane) is None);
    }
}

/// Which workspaces are found depends only on their identifiers.
pub proof fn lemma_same_workspaces(
    before: Seq<WorkspaceView>,
    after: Seq<WorkspaceView>,
    id: WorkspaceId,
    from: int,
)
    requires
        before.len() == after.len(),
        0 <= from,
        forall|at: int| 0 <= at < before.len() ==> before[at].id == (#[trigger] after[at]).id,
    ensures
        state::workspace_from(before, id, from) == state::workspace_from(after, id, from),
    decreases before.len() - from,
{
    if from < before.len() {
        assert(before[from].id == after[from].id);
        lemma_same_workspaces(before, after, id, from + 1);
    }
}

/// Looking at a workspace makes and closes none.
pub proof fn lemma_attended_keeps(
    state: StateView,
    workspace_id: WorkspaceId,
    surface_id: Option<SurfaceId>,
    id: WorkspaceId,
)
    requires
        state.sound(),
    ensures
        state.attended(workspace_id, surface_id).0.workspace_at(id) == state.workspace_at(id),
{
    let noticed = state.noticed(workspace_id, surface_id);
    if let Some(surface) = surface_id {
        let calm = noticed.calmed(surface).0;
        sound_states::lemma_target(noticed, surface);
        lemma_same_workspaces(noticed.workspaces, calm.workspaces, id, 0);
        if let Some((at, found)) = noticed.target(surface) {
            sound_states::lemma_with_surface(
                noticed,
                at,
                surface,
                found.attention(false, false),
            );
        }
        let count = state.notices(workspace_id, surface_id);
        let flashed = calm.flashed(surface, count as u64);
        sound_states::lemma_target(calm, surface);
        lemma_same_workspaces(calm.workspaces, flashed.workspaces, id, 0);
    }
}

/// Focusing a window makes and closes no workspace.
proof fn lemma_focused_keeps(state: StateView, window_id: WindowId, id: WorkspaceId)
    requires
        state.sound(),
        state.window_at(window_id) is Some,
    ensures
        state.focus_window(window_id).0.workspace_at(id) == state.workspace_at(id),
{
    state::lemma_window_from(state.windows, window_id, 0);
    let at = state.window_at(window_id)->0;
    let shown = state.windows[at].selected_workspace_id;
    assert(sound_states::houses(state.workspaces, window_id, shown));
    sound_states::lemma_repaired(state, window_id, shown, NIL, NIL);
    let next = state.repaired(window_id).synced_from(window_id);
    assert(next.sound());
    if next.selected_workspace_id != NIL {
        lemma_attended_keeps(
            next,
            next.selected_workspace_id,
            next.current_surface_id(),
            id,
        );
    }
}

/// Moving a workspace to another window keeps the state sound.
proof fn lemma_moved(state: StateView, drawn: Drawn, at: int, target: WindowId, focus: bool)
    requires
        state.sound(),
        state.new_to(drawn),
        0 <= at < state.workspaces.len(),
        state.window_at(target) is Some,
        state.workspaces[at].window_id != target,
    ensures
        state.move_workspace(drawn, state.workspaces[at].id, target, focus).0.sound(),
{
    let workspace = state.workspaces[at];
    let workspace_id = workspace.id;
    let source = workspace.window_id;
    sound_states::lemma_workspace_place(state.workspaces, at, 0);
    assert(state.window_at(source) is Some);
    lemma_handed_over(state, at, target, focus);
    lemma_no_nil(state, source);
    lemma_no_nil(state, state.window_id);
    let over = state.handed_over(at, target, focus);
    let list = state.workspace_ids_in(source);
    let rest = state_windows::others(list, workspace_id, list.len() as int);
    let was_shown = match state.window(source) {
        Some(window) => window.selected_workspace_id == workspace_id,
        None => workspace_id == NIL,
    };
    assert(over.window(source) == state.window(source));
    let less = over.bereft(drawn, source, workspace_id, rest, was_shown);
    let some = if rest.len() == 0 {
        drawn.workspace
    } else {
        rest[0]
    };
    if rest.len() == 0 {
        lemma_still_new(state, over, drawn);
        lemma_made(over, drawn, source, false, None, target);
        let filled = over.create_workspace(drawn, source, false, None);
        sound_states::lemma_pointing(filled, source, drawn.workspace, None, source, target);
        assert forall|id: WindowId| id != source && id != target implies #[trigger] less.window(id)
            == state.window(id) by {
            assert(filled.window(id) == over.window(id));
            assert(over.window(id) == state.window(id));
        }
        assert(sound_states::houses(less.workspaces, source, some));
        assert(sound_states::houses(less.workspaces, target, workspace_id));
    } else {
        let last = over.window(source)->0.last_selected_workspace_id;
        let kept = state_windows::kept_or_first(last, rest);
        assert(rest.contains(rest[0]));
        assert(rest.contains(kept));
        lemma_other_housed(state, source, workspace_id, kept);
        lemma_other_housed(state, source, workspace_id, rest[0]);
        assert(sound_states::houses(over.workspaces, source, kept));
        assert(sound_states::houses(over.workspaces, source, rest[0]));
        let window = over.window(source)->0;
        if was_shown || window.selected_workspace_id == workspace_id {
            sound_states::lemma_pointing(over, source, kept, None, source, target);
            let pointed = over.pointing(source, kept, None);
            assert forall|id: WindowId| id != source && id != target implies #[trigger] less.window(
                id,
            ) == state.window(id) by {
                assert(pointed.window(id) == over.window(id));
                assert(over.window(id) == state.window(id));
            }
        }
        assert(sound_states::houses(less.workspaces, source, some));
        assert(sound_states::houses(less.workspaces, target, workspace_id));
    }
    assert(less.framed_but(source, target));
    lemma_settled(state, less, source, target, some, workspace_id);
}

/// After both windows were repaired, the state is framed, and the other windows are as they were.
proof fn lemma_settled(
    state: StateView,
    less: StateView,
    source: WindowId,
    target: WindowId,
    some: WorkspaceId,
    other: WorkspaceId,
)
    requires
        less.framed_but(source, target),
        source != target,
        less.window_at(source) is Some,
        less.window_at(target) is Some,
        sound_states::houses(less.workspaces, source, some),
        sound_states::houses(less.workspaces, target, other),
        forall|id: WindowId|
            id != source && id != target ==> #[trigger] less.window(id) == state.window(id),
    ensures
        less.repaired(source).repaired(target).framed_but(NIL, NIL),
        less.repaired(source).repaired(target).window(source) is Some,
        less.repaired(source).repaired(target).window(target) is Some,
        forall|id: WindowId|
            id != source && id != target ==> #[trigger] less.repaired(source).repaired(
                target,
            ).window(id) == state.window(id),
{
    sound_states::lemma_repaired(less, source, some, source, target);
    let mended = less.repaired(source);
    assert(less.window(target) is Some);
    assert(mended.window(target) == less.window(target));
    assert(mended.framed_but(target, NIL));
    sound_states::lemma_repaired(mended, target, other, target, NIL);
    let next = mended.repaired(target);
    assert(next.window(source) == mended.window(source));
    assert forall|id: WindowId| id != source && id != target implies #[trigger] next.window(id)
        == state.window(id) by {
        assert(next.window(id) == mended.window(id));
        assert(mended.window(id) == less.window(id));
    }
}

/// The others of a window are in it.
proof fn lemma_other_housed(
    state: StateView,
    window_id: WindowId,
    workspace_id: WorkspaceId,
    other: WorkspaceId,
)
    requires
        state_windows::others(
            state.workspace_ids_in(window_id),
            workspace_id,
            state.workspace_ids_in(window_id).len() as int,
        ).contains(other),
    ensures
        other != workspace_id,
        sound_states::houses(state.workspaces, window_id, other),
{
    let list = state.workspace_ids_in(window_id);
    lemma_others(list, workspace_id, list.len() as int, other);
    assert(list.contains(other));
    sound_states::lemma_housed(state, window_id, other);
}

/// Moving a workspace to another window keeps the state sound, and succeeds where both exist.
pub proof fn law_move_workspace_keeps_sound(
    state: StateView,
    drawn: Drawn,
    workspace_id: WorkspaceId,
    target: WindowId,
    focus: bool,
)
    requires
        state.sound(),
        state.new_to(drawn),
    ensures
        state.move_workspace(drawn, workspace_id, target, focus).0.sound(),
        state.move_workspace(drawn, workspace_id, target, focus).1 is Ok == (state.window_at(
            target,
        ) is Some && state.workspace_at(workspace_id) is Some),
{
    state::lemma_workspace_from(state.workspaces, workspace_id, 0);
    state::lemma_window_from(state.windows, target, 0);
    if state.window_at(target) is Some && state.workspace_at(workspace_id) is Some {
        let at = state.workspace_at(workspace_id)->0;
        let source = state.workspaces[at].window_id;
        if source == target {
            if focus {
                sound_operations::law_focus_window_keeps_sound(state, target);
                lemma_focused_keeps(state, target, workspace_id);
                sound_operations::law_select_workspace_keeps_sound(
                    state.focus_window(target).0,
                    workspace_id,
                );
            }
        } else {
            lemma_moved(state, drawn, at, target, focus);
        }
    }
}

/// Gathering all workspaces in one window keeps the state sound.
pub proof fn law_collapse_keeps_sound(state: StateView)
    requires
        state.sound(),
    ensures
        state.collapsed().sound(),
{
    if state.windows.len() > 1 {
        sound_operations::law_something_is_current(state);
        let next = state.collapsed();
        let home = state.windows[0].id;
        state::lemma_workspace_from(state.workspaces, state.selected_workspace_id, 0);
        let at = state.workspace_at(state.selected_workspace_id)->0;
        assert(next.workspaces[at].id == state.selected_workspace_id);
        assert(next.workspaces[at].window_id == home);
        assert(sound_states::houses(next.workspaces, home, state.selected_workspace_id));
        sound_states::lemma_window_place(next.windows, 0, 0);
        assert forall|p: int, q: int| 0 <= p < q < next.workspaces.len() implies (
        #[trigger] next.workspaces[p]).id != (#[trigger] next.workspaces[q]).id by {
            assert(state.workspaces[p].id != state.workspaces[q].id);
        }
        assert forall|k: int| 0 <= k < next.workspaces.len() implies {
            &&& (#[trigger] next.workspaces[k]).sound()
            &&& next.workspaces[k].id != NIL
            &&& next.window_at(next.workspaces[k].window_id) is Some
        } by {
            assert(state.workspaces[k].sound());
            sound_workspaces::lemma_repaned(state.workspaces[k], next.workspaces[k]);
        }
    }
}

} // verus!
