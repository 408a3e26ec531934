//! Where a workspace goes that is moved among those of its window.

use crate::ids::{WindowId, WorkspaceId};
use crate::sound_states;
use crate::state;
use crate::state::StateView;
use crate::state_windows;
use crate::workspace::WorkspaceView;
use vstd::prelude::*;

verus! {

/// The smaller of two numbers.
pub open spec fn least(a: int, b: int) -> int {
    if a < b {
        a
    } else {
        b
    }
}

proof fn lemma_ids_before(
    list: Seq<WorkspaceView>,
    place: int,
    workspace: WorkspaceView,
    window_id: WindowId,
    count: int,
)
    requires
        0 <= count <= place <= list.len(),
    ensures
        state::ids_in(list.insert(place, workspace), window_id, count) == state::ids_in(
            list,
            window_id,
            count,
        ),
    decreases count,
{
    if count > 0 {
        lemma_ids_before(list, place, workspace, window_id, count - 1);
        assert(list.insert(place, workspace)[count - 1] == list[count - 1]);
    }
}

/// A workspace that is put into a list is listed in its window after those that come before it.
proof fn lemma_ids_inserted(
    list: Seq<WorkspaceView>,
    place: int,
    workspace: WorkspaceView,
    count: int,
)
    requires
        0 <= place <= count <= list.len(),
    ensures
        state::ids_in(list, workspace.window_id, place).len() <= state::ids_in(
            list,
            workspace.window_id,
            count,
        ).len(),
        state::ids_in(list.insert(place, workspace), workspace.window_id, count + 1)
            == state::ids_in(list, workspace.window_id, count).insert(
            state::ids_in(list, workspace.window_id, place).len() as int,
            workspace.id,
        ),
    decreases count,
{
    let window_id = workspace.window_id;
    let longer = list.insert(place, workspace);
    let at = state::ids_in(list, window_id, place).len() as int;
    if count == place {
        lemma_ids_before(list, place, workspace, window_id, place);
        assert(longer[place] == workspace);
        let ids = state::ids_in(list, window_id, place);
        assert(ids.push(workspace.id) =~= ids.insert(at, workspace.id));
    } else {
        lemma_ids_inserted(list, place, workspace, count - 1);
        assert(longer[count] == list[count - 1]);
        let shorter = state::ids_in(list, window_id, count - 1);
        let last = list[count - 1].id;
        assert(shorter.insert(at, workspace.id).push(last) =~= shorter.push(last).insert(
            at,
            workspace.id,
        ));
    }
}

/// The place with a number is after as many workspaces of the window.
proof fn lemma_counted(list: Seq<WorkspaceView>, window_id: WindowId, count: int)
    requires
        0 <= count <= list.len(),
    ensures
        state::ids_in(list, window_id, count).len() == state_windows::places_in(
            list,
            window_id,
            count,
        ).len(),
        forall|k: int|
            0 <= k < state_windows::places_in(list, window_id, count).len() ==> {
                let place = #[trigger] state_windows::places_in(list, window_id, count)[k];
                &&& 0 <= place < count
                &&& state::ids_in(list, window_id, place).len() == k
                &&& list[place].window_id == window_id
            },
    decreases count,
{
    if count > 0 {
        lemma_counted(list, window_id, count - 1);
        let shorter = state_windows::places_in(list, window_id, count - 1);
        let places = state_windows::places_in(list, window_id, count);
        assert forall|k: int| 0 <= k < places.len() implies {
            let place = #[trigger] places[k];
            &&& 0 <= place < count
            &&& state::ids_in(list, window_id, place).len() == k
            &&& list[place].window_id == window_id
        } by {
            if k < shorter.len() {
                assert(places[k] == shorter[k]);
            }
        }
    }
}

/// The place where a workspace is put in is after as many workspaces of the window as was asked
/// for, or after all of them.
proof fn lemma_insertion_place(list: Seq<WorkspaceView>, window_id: WindowId, index: int)
    requires
        index >= 0,
    ensures
        ({
            let place = state_windows::insertion_place(list, window_id, index);
            let all = state::ids_in(list, window_id, list.len() as int);
            &&& 0 <= place <= list.len()
            &&& state::ids_in(list, window_id, place).len() == least(index, all.len() as int)
        }),
{
    let count = list.len() as int;
    lemma_counted(list, window_id, count);
    let places = state_windows::places_in(list, window_id, count);
    if places.len() > 0 {
        let last = places[places.len() - 1];
        assert(0 <= last < count);
        if index < places.len() {
            assert(0 <= places[index] < count);
        }
    }
}

proof fn lemma_others_prefix(list: Seq<u128>, more: u128, id: u128, count: int)
    requires
        0 <= count <= list.len(),
    ensures
        state_windows::others(list.push(more), id, count) == state_windows::others(
            list,
            id,
            count,
        ),
    decreases count,
{
    if count > 0 {
        lemma_others_prefix(list, more, id, count - 1);
        assert(list.push(more)[count - 1] == list[count - 1]);
    }
}

/// Without one workspace, a window lists the others.
pub proof fn lemma_ids_of_rest(
    list: Seq<WorkspaceView>,
    at: int,
    window_id: WindowId,
    count: int,
)
    requires
        0 <= at < list.len(),
        0 <= count <= list.len(),
        sound_states::distinct_workspaces(list),
    ensures
        ({
            let ids = state::ids_in(list, window_id, count);
            let rest = list.remove(at);
            state_windows::others(ids, list[at].id, ids.len() as int) == state::ids_in(
                rest,
                window_id,
                if count <= at {
                    count
                } else {
                    count - 1
                },
            )
        }),
    decreases count,
{
    if count > 0 {
        lemma_ids_of_rest(list, at, window_id, count - 1);
        let rest = list.remove(at);
        let shorter = state::ids_in(list, window_id, count - 1);
        let last = list[count - 1];
        if last.window_id == window_id {
            lemma_others_prefix(shorter, last.id, list[at].id, shorter.len() as int);
            assert(shorter.push(last.id)[shorter.len() as int] == last.id);
        }
        if count <= at {
            assert(rest[count - 1] == last);
            assert(last.id != list[at].id);
        } else if count - 1 > at {
            assert(rest[count - 2] == last);
            assert(list[at].id != last.id);
        }
    }
}

/// A workspace that is moved among those of its window comes to the place that was asked for, or
/// to the end, and the others keep their order.
pub proof fn law_reordered_workspace_is_in_place(
    state: StateView,
    workspace_id: WorkspaceId,
    window_id: WindowId,
    index: int,
)
    requires
        state.sound(),
        index >= 0,
        state.reorder_workspace(workspace_id, window_id, index).1 is Ok,
    ensures
        ({
            let before = state.workspace_ids_in(window_id);
            let rest = state_windows::others(before, workspace_id, before.len() as int);
            state.reorder_workspace(workspace_id, window_id, index).0.workspace_ids_in(window_id)
                == rest.insert(least(index, rest.len() as int), workspace_id)
        }),
{
    state::lemma_workspace_from(state.workspaces, workspace_id, 0);
    let at = state.workspace_at(workspace_id)->0;
    let workspace = state.workspaces[at];
    let list = state.workspaces.remove(at);
    let place = state_windows::insertion_place(list, window_id, index);
    lemma_insertion_place(list, window_id, index);
    lemma_ids_of_rest(state.workspaces, at, window_id, state.workspaces.len() as int);
    lemma_ids_inserted(list, place, workspace, list.len() as int);
}

} // verus!
