//! Where workspaces go: what making, closing, moving and selecting them does to the others.

use crate::actions::AppAction;
use crate::ids::{Drawn, WindowId, WorkspaceId, NIL};
use crate::laws_names;
use crate::laws_order;
use crate::laws_requests;
use crate::laws_states;
use crate::laws_tabs;
use crate::layout::WorkspaceLayout;
use crate::model::ModelView;
use crate::params;
use crate::params::ParamsView;
use crate::registry::HandleKind;
use crate::sound_changes;
use crate::sound_operations;
use crate::sound_states;
use crate::state;
use crate::state::{StateView, WindowState};
use crate::state_windows;
use crate::text;
use crate::workspace::WorkspaceView;
use vstd::prelude::*;

verus! {

// ---------------------------------------------------------------------------
// The workspaces of a window
// ---------------------------------------------------------------------------

/// The workspaces of a window are those that say they are in it, in their order.
pub proof fn law_window_has_its_workspaces(state: StateView, window_id: WindowId)
    ensures
        state.workspaces_in_window(window_id) == state.workspaces.filter(
            |workspace: WorkspaceView| workspace.window_id == window_id,
        ),
        state.workspace_ids_in(window_id) == state.workspaces_in_window(window_id).map_values(
            |workspace: WorkspaceView| workspace.id,
        ),
{
    let list = state.workspaces;
    let count = list.len() as int;
    lemma_held(list, window_id, count);
    assert(list.take(count) =~= list);
    assert(state.workspace_ids_in(window_id) =~= state.workspaces_in_window(window_id).map_values(
        |workspace: WorkspaceView| workspace.id,
    ));
}

proof fn lemma_held(list: Seq<WorkspaceView>, window_id: WindowId, count: int)
    requires
        0 <= count <= list.len(),
    ensures
        state::held_by(list, window_id, count) == list.take(count).filter(
            |workspace: WorkspaceView| workspace.window_id == window_id,
        ),
        state_windows::outside(list, window_id, count) == list.take(count).filter(
            |workspace: WorkspaceView| workspace.window_id != window_id,
        ),
        state::ids_in(list, window_id, count).len() == state::held_by(
            list,
            window_id,
            count,
        ).len(),
        forall|k: int|
            0 <= k < state::held_by(list, window_id, count).len() ==> state::ids_in(
                list,
                window_id,
                count,
            )[k] == (#[trigger] state::held_by(list, window_id, count)[k]).id,
    decreases count,
{
    reveal(Seq::filter);
    if count > 0 {
        lemma_held(list, window_id, count - 1);
        assert(list.take(count).drop_last() =~= list.take(count - 1));
        assert(list.take(count).last() == list[count - 1]);
    } else {
        assert(list.take(0) =~= Seq::empty());
    }
}

// ---------------------------------------------------------------------------
// Going from one to another
// ---------------------------------------------------------------------------

/// The next workspace is the one that follows in the window, and behind the last one the first;
/// the previous one is the one before, and before the first one the last.
pub proof fn law_next_workspace_follows(state: StateView, drawn: Drawn, at: int)
    requires
        state.sound(),
        0 <= at < state.workspace_ids_in(state.window_id).len(),
        state.workspace_ids_in(state.window_id)[at] == state.selected_workspace_id,
    ensures
        ({
            let list = state.workspace_ids_in(state.window_id);
            let next = state.acted(drawn, AppAction::WorkspaceNext);
            let before = state.acted(drawn, AppAction::WorkspacePrevious);
            &&& next.selected_workspace_id == (if at + 1 < list.len() {
                list[at + 1]
            } else {
                list[0]
            })
            &&& before.selected_workspace_id == (if at > 0 {
                list[at - 1]
            } else {
                list.last()
            })
            &&& next.window_id == state.window_id
            &&& before.window_id == state.window_id
            &&& state.select_relative_workspace(1) == (
                next,
                Ok::<_, Seq<char>>(next.selected_workspace_id),
            )
            &&& state.select_relative_workspace(-1) == (
                before,
                Ok::<_, Seq<char>>(before.selected_workspace_id),
            )
        }),
{
    let list = state.workspace_ids_in(state.window_id);
    let current = laws_states::lemma_current_place(state);
    laws_states::lemma_distinct_ids(state, state.window_id);
    assert(current == at);
    laws_states::lemma_relative(state, 1);
    laws_states::lemma_relative(state, -1);
    let count = list.len() as int;
    assert((at + 1) % count == if at + 1 < count {
        at + 1
    } else {
        0
    }) by {
        if at + 1 == count {
            vstd::arithmetic::div_mod::lemma_mod_self_0(count);
        } else {
            vstd::arithmetic::div_mod::lemma_small_mod((at + 1) as nat, count as nat);
        }
    }
    assert((at - 1) % count == if at > 0 {
        at - 1
    } else {
        count - 1
    }) by {
        if at > 0 {
            vstd::arithmetic::div_mod::lemma_small_mod((at - 1) as nat, count as nat);
        } else {
            vstd::arithmetic::div_mod::lemma_fundamental_div_mod_converse(-1, count, -1, count - 1);
        }
    }
}

/// The workspace that was current before becomes the current one again, where it is still there.
pub proof fn law_last_workspace_comes_back(state: StateView, drawn: Drawn, at: int)
    requires
        state.sound(),
        0 <= at < state.workspaces.len(),
        state.last_selected_workspace_id == Some(state.workspaces[at].id),
    ensures
        state.acted(drawn, AppAction::WorkspaceLast).selected_workspace_id
            == state.workspaces[at].id,
        state.acted(drawn, AppAction::WorkspaceLast).window_id == state.workspaces[at].window_id,
{
    sound_states::lemma_workspace_place(state.workspaces, at, 0);
    lemma_selected(state, at);
}

/// Selecting a workspace makes it the current one, in its window, and that window the current one.
/// The one that the window showed before is remembered.
pub proof fn law_selected_workspace_is_current(state: StateView, at: int, window: int)
    requires
        state.sound(),
        0 <= at < state.workspaces.len(),
        0 <= window < state.windows.len(),
        state.windows[window].id == state.workspaces[at].window_id,
    ensures
        ({
            let (after, result) = state.select_workspace(state.workspaces[at].id);
            &&& result is Ok
            &&& after.selected_workspace_id == state.workspaces[at].id
            &&& after.window_id == state.workspaces[at].window_id
            &&& after.windows.len() == state.windows.len()
            &&& forall|k: int|
                0 <= k < state.windows.len() && k != window ==> after.windows[k]
                    == #[trigger] state.windows[k]
            &&& after.windows[window].selected_workspace_id == state.workspaces[at].id
            &&& state.windows[window].selected_workspace_id != state.workspaces[at].id
                ==> after.last_selected_workspace_id == Some(
                state.windows[window].selected_workspace_id,
            )
            &&& laws_tabs::same_tabs(state, after)
        }),
{
    sound_states::lemma_workspace_place(state.workspaces, at, 0);
    sound_states::lemma_window_place(state.windows, window, 0);
    lemma_selected(state, at);
    let workspace = state.workspaces[at];
    let shown = state.showing(workspace.window_id, workspace.id).synced_from(workspace.window_id);
    assert(laws_tabs::same_tabs(state, shown));
    laws_tabs::lemma_attended_same(shown, workspace.id, workspace.selected_surface_id());
    laws_tabs::lemma_same_twice(
        state,
        shown,
        shown.attended(workspace.id, workspace.selected_surface_id()).0,
    );
    let turned = state.showing(workspace.window_id, workspace.id);
    lemma_same_place(state.windows, turned.windows, window);
    let after = state.select_workspace(workspace.id).0;
    let attended = shown.attended(workspace.id, workspace.selected_surface_id()).0;
    assert(after.workspaces == attended.workspaces);
    assert(laws_tabs::same_tabs(state, after)) by {
        assert forall|k: int| 0 <= k < state.workspaces.len() implies laws_tabs::same_tabs_in(
            state.workspaces[k],
            #[trigger] after.workspaces[k],
        ) by {
            assert(after.workspaces[k] == attended.workspaces[k]);
        }
    }
    let before = state.windows[window].selected_workspace_id;
    assert(sound_states::houses(state.workspaces, state.windows[window].id, before));
    let k = choose|k: int|
        0 <= k < state.workspaces.len() && (#[trigger] state.workspaces[k]).id == before
            && state.workspaces[k].window_id == state.windows[window].id;
    assert(state.workspaces[k].id != NIL);
}

/// Selecting a workspace makes it and its window the current ones.
pub proof fn lemma_selected(state: StateView, at: int)
    requires
        state.sound(),
        0 <= at < state.workspaces.len(),
    ensures
        ({
            let workspace = state.workspaces[at];
            let (after, result) = state.select_workspace(workspace.id);
            let shown = state.showing(workspace.window_id, workspace.id);
            &&& result is Ok
            &&& after.selected_workspace_id == workspace.id
            &&& after.window_id == workspace.window_id
            &&& after.windows == shown.windows
        }),
{
    let workspace = state.workspaces[at];
    sound_states::lemma_workspace_place(state.workspaces, at, 0);
    assert(state.window_at(workspace.window_id) is Some);
    assert(sound_states::houses(state.workspaces, workspace.window_id, workspace.id));
    sound_states::lemma_showing(state, workspace.window_id, workspace.id);
}

// ---------------------------------------------------------------------------
// Putting them in order
// ---------------------------------------------------------------------------

/// A request that reorders a workspace puts it at the place that it asks for among the others of
/// its window: at a number, directly before another one or directly after it. The others keep their
/// order. It succeeds where the request asks for a place in just one way.
pub proof fn law_request_reorders_the_workspace(
    model: ModelView,
    params: ParamsView,
    at: int,
    spot: int,
    beside: WorkspaceId,
)
    requires
        model.state.sound(),
        0 <= at < model.state.workspaces.len(),
        params::word(params, "window_id"@) is None,
        laws_tabs::names(
            model,
            params,
            HandleKind::Workspace,
            "workspace_id"@,
            model.state.workspaces[at].id,
        ),
        0 <= spot < model.state.workspace_ids_in(model.state.workspaces[at].window_id).len(),
        model.state.workspace_ids_in(model.state.workspaces[at].window_id)[spot]
            == model.state.workspaces[at].id,
    ensures
        ({
            let id = model.state.workspaces[at].id;
            let window_id = model.state.workspaces[at].window_id;
            let rest = model.state.workspace_ids_in(window_id).remove(spot);
            let (after, result) = model.workspace_reorder(params);
            &&& result is Ok ==> exists|place: int|
                laws_tabs::asked_for(
                    model,
                    params,
                    HandleKind::Workspace,
                    "before_workspace_id"@,
                    "after_workspace_id"@,
                    rest,
                    beside,
                    place,
                ) && after.state.workspace_ids_in(window_id) == #[trigger] rest.insert(place, id)
            &&& laws_tabs::asks_once(
                model,
                params,
                HandleKind::Workspace,
                "before_workspace_id"@,
                "after_workspace_id"@,
                rest,
                beside,
            ) ==> result is Ok
        }),
{
    reveal(ModelView::only_names);
    laws_names::lemma_keeps_itself(model.handles);
    assert(model.only_names(model));
    let state = model.state;
    let id = state.workspaces[at].id;
    let window_id = state.workspaces[at].window_id;
    laws_requests::lemma_required(model, params, HandleKind::Workspace, "workspace_id"@);
    let (now, _) = params::required(model, params, HandleKind::Workspace, "workspace_id"@);
    sound_states::lemma_workspace_place(state.workspaces, at, 0);
    let all = state.workspace_ids_in(window_id);
    laws_states::lemma_distinct_ids(state, window_id);
    assert(all.take(all.len() as int) =~= all);
    laws_tabs::lemma_others_removed(all, spot, all.len() as int);
    let rest = all.remove(spot);
    laws_tabs::lemma_asked(
        model,
        now,
        params,
        rest,
        HandleKind::Workspace,
        "before_workspace_id"@,
        "after_workspace_id"@,
        beside,
    );
    laws_requests::lemma_places(now, params, id, window_id, 0, 0);
    let (third, found) = params::workspace_place(now, id, window_id, params);
    if let Ok(place) = found {
        laws_order::law_reordered_workspace_is_in_place(state, id, window_id, place);
        assert(rest.insert(place, id) == rest.insert(place, id));
    }
}

// ---------------------------------------------------------------------------
// Making
// ---------------------------------------------------------------------------

/// Whether a workspace is a new one: one pane with one new terminal, both selected.
pub open spec fn is_new(
    workspace: WorkspaceView,
    drawn: Drawn,
    window_id: WindowId,
    directory: Option<Seq<char>>,
) -> bool {
    &&& workspace.id == drawn.workspace
    &&& workspace.window_id == window_id
    &&& workspace.current_directory == directory
    &&& workspace.layout == WorkspaceLayout::Pane(drawn.pane)
    &&& workspace.selected_pane_id == drawn.pane
    &&& workspace.panes.len() == 1
    &&& workspace.panes[0].id == drawn.pane
    &&& workspace.panes[0].selected_surface_id == drawn.surface
    &&& workspace.panes[0].surfaces.len() == 1
    &&& workspace.panes[0].surfaces[0].id == drawn.surface
    &&& workspace.panes[0].surfaces[0].transcript.len() == 0
    &&& !workspace.panes[0].surfaces[0].unread
}

/// A new workspace is the last one, is titled with the next number, and leaves the others as they
/// are. With the focus, its window shows it.
pub proof fn law_new_workspace_comes_last(
    state: StateView,
    drawn: Drawn,
    window: int,
    focus: bool,
    directory: Option<Seq<char>>,
)
    requires
        state.sound(),
        0 <= window < state.windows.len(),
        state.has_room(),
    ensures
        ({
            let window_id = state.windows[window].id;
            let after = state.create_workspace(drawn, window_id, focus, directory);
            let added = after.workspaces.last();
            &&& after.workspaces == state.workspaces.push(added)
            &&& is_new(added, drawn, window_id, directory)
            &&& added.title == "Workspace "@ + text::decimal(
                state.next_workspace_title_number as nat,
            )
            &&& added.panes[0].surfaces[0].title == "Terminal "@ + text::decimal(
                state.next_surface_title_number as nat,
            )
            &&& after.next_workspace_title_number == state.next_workspace_title_number + 1
            &&& after.next_surface_title_number == state.next_surface_title_number + 1
            &&& after.notifications == state.notifications
            &&& after.window_id == state.window_id
            &&& after.windows.len() == state.windows.len()
            &&& forall|k: int|
                0 <= k < state.windows.len() && k != window ==> after.windows[k]
                    == #[trigger] state.windows[k]
            &&& after.windows[window].selected_workspace_id == (if focus {
                drawn.workspace
            } else {
                state.windows[window].selected_workspace_id
            })
            &&& after.selected_workspace_id == (if focus && window_id == state.window_id {
                drawn.workspace
            } else {
                state.selected_workspace_id
            })
        }),
{
    sound_operations::law_something_is_current(state);
    sound_states::lemma_window_place(state.windows, window, 0);
    let window_id = state.windows[window].id;
    let after = state.create_workspace(drawn, window_id, focus, directory);
    assert(sound_states::houses(
        state.workspaces,
        window_id,
        state.windows[window].selected_workspace_id,
    ));
    let shown = state.windows[window].selected_workspace_id;
    let k = choose|k: int|
        0 <= k < state.workspaces.len() && (#[trigger] state.workspaces[k]).id == shown
            && state.workspaces[k].window_id == window_id;
    assert(state.workspaces[k].id != NIL);
    state::lemma_workspace_from(state.workspaces, state.selected_workspace_id, 0);
    let current = state.workspace_at(state.selected_workspace_id)->0;
    assert(state.workspaces[current].id != NIL);
    assert(after.workspaces =~= state.workspaces.push(after.workspaces.last()));
}

/// A new window is the last one, holds one new workspace, and becomes the current one where it is
/// to have the focus. The others stay as they are.
pub proof fn law_new_window_comes_last(state: StateView, drawn: Drawn)
    requires
        state.sound(),
        state.new_to(drawn),
        state.has_room(),
    ensures
        ({
            let after = state.acted(drawn, AppAction::WindowNew);
            &&& after.windows.len() == state.windows.len() + 1
            &&& after.windows.drop_last() == state.windows
            &&& after.windows.last().id == drawn.window
            &&& after.windows.last().selected_workspace_id == drawn.workspace
            &&& after.workspaces == state.workspaces.push(after.workspaces.last())
            &&& is_new(after.workspaces.last(), drawn, drawn.window, None)
            &&& after.window_id == drawn.window
            &&& after.selected_workspace_id == drawn.workspace
        }),
{
    let window = WindowState {
        id: drawn.window,
        selected_workspace_id: NIL,
        last_selected_workspace_id: None,
    };
    let grown = StateView { windows: state.windows.push(window), ..state };
    let place = state.windows.len() as int;
    assert(sound_states::distinct_windows(grown.windows)) by {
        assert forall|a: int, b: int| 0 <= a < b < grown.windows.len() implies (
        #[trigger] grown.windows[a]).id != (#[trigger] grown.windows[b]).id by {}
    }
    sound_states::lemma_window_place(grown.windows, place, 0);
    let filled = grown.create_workspace(drawn, drawn.window, true, None);
    assert(filled.windows.len() == grown.windows.len());
    assert(filled.windows[place].selected_workspace_id == drawn.workspace);
    assert(sound_states::distinct_windows(filled.windows)) by {
        assert forall|a: int, b: int| 0 <= a < b < filled.windows.len() implies (
        #[trigger] filled.windows[a]).id != (#[trigger] filled.windows[b]).id by {
            assert(filled.windows[a].id == grown.windows[a].id);
            assert(filled.windows[b].id == grown.windows[b].id);
        }
    }
    sound_states::lemma_window_place(filled.windows, place, 0);
    let after = state.create_window(drawn, true);
    assert(after.windows.drop_last() =~= state.windows);
    assert(after.workspaces =~= state.workspaces.push(after.workspaces.last()));
}

// ---------------------------------------------------------------------------
// Closing
// ---------------------------------------------------------------------------

/// Closing a workspace takes out that workspace and no other. Where its window has another one, the
/// window shows the one it showed before, if it still has it, or else its first one; where not, a
/// new one takes its place. What the other windows show stays, and so does the current window.
pub proof fn law_closed_workspace_is_gone(state: StateView, drawn: Drawn, at: int, window: int)
    requires
        state.sound(),
        state.new_to(drawn),
        state.has_room(),
        0 <= at < state.workspaces.len(),
        0 <= window < state.windows.len(),
        state.windows[window].id == state.workspaces[at].window_id,
    ensures
        ({
            let workspace = state.workspaces[at];
            let (after, result) = state.close_workspace(drawn, workspace.id);
            let rest = StateView {
                workspaces: state.workspaces.remove(at),
                ..state
            }.workspace_ids_in(workspace.window_id);
            let last = state.windows[window].last_selected_workspace_id;
            let shown = after.windows[window].selected_workspace_id;
            &&& result is Ok
            &&& rest.len() > 0 ==> after.workspaces == state.workspaces.remove(at)
            &&& rest.len() == 0 ==> after.workspaces == state.workspaces.remove(at).push(
                after.workspaces.last(),
            ) && is_new(after.workspaces.last(), drawn, workspace.window_id, None)
            &&& rest.len() == 0 ==> shown == drawn.workspace
            &&& rest.len() > 0 && last is Some && rest.contains(last->0) ==> shown == last->0
            &&& rest.len() > 0 && (last is None || !rest.contains(last->0)) ==> shown == rest[0]
            &&& after.windows.len() == state.windows.len()
            &&& forall|k: int|
                0 <= k < state.windows.len() && k != window ==> after.windows[k]
                    == #[trigger] state.windows[k]
            &&& after.windows[window].id == workspace.window_id
            &&& after.window_id == state.window_id
            &&& after.selected_workspace_id == (if workspace.window_id == state.window_id {
                shown
            } else {
                state.selected_workspace_id
            })
        }),
{
    let workspace = state.workspaces[at];
    let window_id = workspace.window_id;
    sound_states::lemma_workspace_place(state.workspaces, at, 0);
    sound_states::lemma_window_place(state.windows, window, 0);
    let all = state.workspace_ids_in(window_id);
    laws_states::lemma_distinct_ids(state, window_id);
    laws_order::lemma_ids_of_rest(state.workspaces, at, window_id, state.workspaces.len() as int);
    let gone = state.without_workspace(at);
    let rest = gone.workspace_ids_in(window_id);
    assert(all.contains(workspace.id)) by {
        assert(sound_states::houses(state.workspaces, window_id, workspace.id));
        sound_states::lemma_housed(state, window_id, workspace.id);
    }
    let spot = choose|k: int| 0 <= k < all.len() && all[k] == workspace.id;
    assert(all.take(all.len() as int) =~= all);
    laws_tabs::lemma_others_removed(all, spot, all.len() as int);
    assert(rest == all.remove(spot));
    let after = state.close_workspace(drawn, workspace.id).0;
    sound_operations::law_something_is_current(state);
    if rest.len() == 0 {
        let made = gone.create_workspace(drawn, window_id, true, None);
        assert(made.workspaces =~= gone.workspaces.push(made.workspaces.last()));
        assert(after.workspaces == made.workspaces);
        assert(made.windows.len() == state.windows.len());
        if window_id == state.window_id {
            assert(sound_states::distinct_windows(made.windows)) by {
                assert forall|a: int, b: int| 0 <= a < b < made.windows.len() implies (
                #[trigger] made.windows[a]).id != (#[trigger] made.windows[b]).id by {
                    assert(made.windows[a].id == state.windows[a].id);
                    assert(made.windows[b].id == state.windows[b].id);
                }
            }
            assert(made.windows[window].id == window_id);
            sound_states::lemma_window_place(made.windows, window, 0);
        }
    }
}

/// Closing a window takes out that window and the workspaces in it, and nothing else. The window
/// before it becomes the current one, or the first; where it was the only one, a new window with a
/// new workspace takes its place.
pub proof fn law_closed_window_is_gone(state: StateView, drawn: Drawn, at: int)
    requires
        state.sound(),
        state.new_to(drawn),
        state.has_room(),
        0 <= at < state.windows.len(),
    ensures
        ({
            let window_id = state.windows[at].id;
            let (after, result) = state.close_window(drawn, window_id);
            let kept = state.workspaces.filter(
                |workspace: WorkspaceView| workspace.window_id != window_id,
            );
            let before = if at > 0 {
                state.windows[at - 1]
            } else {
                state.windows[1]
            };
            &&& result is Ok
            &&& state.windows.len() > 1 ==> {
                &&& after.windows == state.windows.remove(at)
                &&& after.workspaces == kept
                &&& after.window_id == before.id
                &&& after.selected_workspace_id == before.selected_workspace_id
            }
            &&& state.windows.len() == 1 ==> {
                &&& after.windows.len() == 1
                &&& after.windows[0].id == drawn.window
                &&& after.windows[0].selected_workspace_id == drawn.workspace
                &&& after.workspaces == kept.push(after.workspaces.last())
                &&& is_new(after.workspaces.last(), drawn, drawn.window, None)
                &&& after.window_id == drawn.window
                &&& after.selected_workspace_id == drawn.workspace
            }
        }),
{
    let window_id = state.windows[at].id;
    sound_states::lemma_window_place(state.windows, at, 0);
    let list = state.workspaces;
    lemma_held(list, window_id, list.len() as int);
    assert(list.take(list.len() as int) =~= list);
    let rest = state.without_window(at);
    if rest.windows.len() > 0 {
        let place = if at > 0 {
            at - 1
        } else {
            0
        };
        assert(sound_states::distinct_windows(rest.windows)) by {
            assert forall|a: int, b: int| 0 <= a < b < rest.windows.len() implies (
            #[trigger] rest.windows[a]).id != (#[trigger] rest.windows[b]).id by {
                let c = if a < at {
                    a
                } else {
                    a + 1
                };
                let d = if b < at {
                    b
                } else {
                    b + 1
                };
                assert(rest.windows[a] == state.windows[c] && rest.windows[b] == state.windows[d]);
            }
        }
        sound_states::lemma_window_place(rest.windows, place, 0);
    } else {
        let window = WindowState {
            id: drawn.window,
            selected_workspace_id: NIL,
            last_selected_workspace_id: None,
        };
        let grown = StateView { windows: rest.windows.push(window), ..rest };
        assert(grown.windows =~= seq![window]);
        sound_states::lemma_window_place(grown.windows, 0, 0);
        let made = grown.create_workspace(drawn, drawn.window, true, None);
        assert(made.workspaces =~= rest.workspaces.push(made.workspaces.last()));
        let after = state.close_window(drawn, window_id).0;
        assert(after.workspaces == made.workspaces);
        assert(after.windows =~= seq![after.windows[0]]);
    }
}

// ---------------------------------------------------------------------------
// Moving
// ---------------------------------------------------------------------------

/// Moving a workspace to another window changes the window of that workspace, and nothing in it;
/// the other workspaces stay as they are, and where the old window has none left, it gets a new
/// one. With the focus, the new window is the current one and shows the workspace.
pub proof fn law_moved_workspace_is_in_the_window(
    state: StateView,
    drawn: Drawn,
    at: int,
    target: int,
    focus: bool,
)
    requires
        state.sound(),
        state.new_to(drawn),
        0 <= at < state.workspaces.len(),
        0 <= target < state.windows.len(),
        state.windows[target].id != state.workspaces[at].window_id,
    ensures
        ({
            let workspace = state.workspaces[at];
            let window_id = state.windows[target].id;
            let (after, result) = state.move_workspace(drawn, workspace.id, window_id, focus);
            let moved = state.workspaces.update(at, WorkspaceView { window_id, ..workspace });
            let alone = state.workspace_ids_in(workspace.window_id).len() == 1;
            &&& result is Ok
            &&& !alone ==> after.workspaces == moved
            &&& alone ==> after.workspaces == moved.push(after.workspaces.last()) && is_new(
                after.workspaces.last(),
                drawn,
                workspace.window_id,
                None,
            )
            &&& focus ==> after.window_id == window_id && after.selected_workspace_id
                == workspace.id
            &&& !focus ==> after.window_id == state.window_id
            &&& after.windows.len() == state.windows.len()
            &&& after.windows[target].selected_workspace_id == (if focus {
                workspace.id
            } else {
                state.windows[target].selected_workspace_id
            })
            &&& forall|k: int|
                0 <= k < state.windows.len() && k != target && state.windows[k].id
                    != workspace.window_id ==> after.windows[k] == #[trigger] state.windows[k]
        }),
{
    let workspace = state.workspaces[at];
    let source = workspace.window_id;
    let window_id = state.windows[target].id;
    sound_changes::law_move_workspace_keeps_sound(state, drawn, workspace.id, window_id, focus);
    sound_states::lemma_workspace_place(state.workspaces, at, 0);
    sound_states::lemma_window_place(state.windows, target, 0);
    assert(state.window_at(source) is Some);
    let all = state.workspace_ids_in(source);
    laws_states::lemma_distinct_ids(state, source);
    assert(sound_states::houses(state.workspaces, source, workspace.id));
    sound_states::lemma_housed(state, source, workspace.id);
    let spot = choose|k: int| 0 <= k < all.len() && all[k] == workspace.id;
    assert(all.take(all.len() as int) =~= all);
    laws_tabs::lemma_others_removed(all, spot, all.len() as int);
    let (after, _) = state.move_workspace(drawn, workspace.id, window_id, focus);
    let moved = state.workspaces.update(at, WorkspaceView { window_id, ..workspace });
    let handed = state.handed_over(at, window_id, focus);
    assert(handed.workspaces == moved);
    assert(after.workspaces =~= if all.len() == 1 {
        moved.push(after.workspaces.last())
    } else {
        moved
    });
    lemma_moved_shown(state, drawn, at, target, focus, all.remove(spot));
}

/// Whether two lists have the same windows, whatever those show.
pub open spec fn same_windows(before: Seq<WindowState>, after: Seq<WindowState>) -> bool {
    &&& after.len() == before.len()
    &&& forall|k: int| 0 <= k < before.len() ==> (#[trigger] after[k]).id == before[k].id
}

/// A window is found at its place among windows of the same identity.
pub proof fn lemma_same_place(before: Seq<WindowState>, after: Seq<WindowState>, at: int)
    requires
        sound_states::distinct_windows(before),
        same_windows(before, after),
        0 <= at < before.len(),
    ensures
        state::window_from(after, before[at].id, 0) == Some(at),
{
    assert forall|a: int, b: int| 0 <= a < b < after.len() implies (#[trigger] after[a]).id != (
    #[trigger] after[b]).id by {
        assert(before[a].id != before[b].id);
    }
    assert(after[at].id == before[at].id);
    sound_states::lemma_window_place(after, at, 0);
}

proof fn lemma_moved_shown(
    state: StateView,
    drawn: Drawn,
    at: int,
    target: int,
    focus: bool,
    rest: Seq<WorkspaceId>,
)
    requires
        state.sound(),
        state.new_to(drawn),
        0 <= at < state.workspaces.len(),
        0 <= target < state.windows.len(),
        state.windows[target].id != state.workspaces[at].window_id,
        ({
            let list = state.workspace_ids_in(state.workspaces[at].window_id);
            rest == state_windows::others(list, state.workspaces[at].id, list.len() as int)
        }),
    ensures
        ({
            let workspace = state.workspaces[at];
            let window_id = state.windows[target].id;
            let (after, result) = state.move_workspace(drawn, workspace.id, window_id, focus);
            &&& focus ==> after.window_id == window_id && after.selected_workspace_id
                == workspace.id
            &&& !focus ==> after.window_id == state.window_id
            &&& after.windows.len() == state.windows.len()
            &&& after.windows[target].selected_workspace_id == (if focus {
                workspace.id
            } else {
                state.windows[target].selected_workspace_id
            })
            &&& forall|k: int|
                0 <= k < state.windows.len() && k != target && state.windows[k].id
                    != workspace.window_id ==> after.windows[k] == #[trigger] state.windows[k]
        }),
{
    let workspace = state.workspaces[at];
    let window_id = state.windows[target].id;
    let first = state.windows;
    sound_states::lemma_workspace_place(state.workspaces, at, 0);
    assert(state.window_at(workspace.window_id) is Some);
    state::lemma_window_from(first, workspace.window_id, 0);
    let source = state.window_at(workspace.window_id)->0;
    lemma_same_place(first, first, target);
    lemma_same_place(first, first, source);
    let handed = state.handed_over(at, window_id, focus);
    assert(same_windows(first, handed.windows));
    lemma_same_place(first, handed.windows, target);
    lemma_same_place(first, handed.windows, source);
    let was_shown = state.windows[source].selected_workspace_id == workspace.id;
    let less = handed.bereft(drawn, workspace.window_id, workspace.id, rest, was_shown);
    assert(same_windows(first, less.windows)) by {
        if rest.len() == 0 {
            let made = handed.create_workspace(drawn, workspace.window_id, false, None);
            assert(same_windows(first, made.windows));
            lemma_same_place(first, made.windows, source);
        }
    }
    assert(forall|k: int| 0 <= k < first.len() && k != source ==> less.windows[k]
        == handed.windows[k]) by {
        if rest.len() == 0 {
            let made = handed.create_workspace(drawn, workspace.window_id, false, None);
            lemma_same_place(first, made.windows, source);
        }
    }
    lemma_same_place(first, less.windows, source);
    let mended = less.repaired(workspace.window_id);
    assert(same_windows(first, mended.windows));
    lemma_same_place(first, mended.windows, target);
    let last = mended.repaired(window_id);
    assert(same_windows(first, last.windows));
    lemma_same_place(first, last.windows, target);
    assert(mended.windows[target] == handed.windows[target]);
    let shown = handed.windows[target].selected_workspace_id;
    assert(sound_states::houses(state.workspaces, window_id, first[target].selected_workspace_id));
    let k = choose|k: int|
        0 <= k < state.workspaces.len() && (#[trigger] state.workspaces[k]).id
            == first[target].selected_workspace_id && state.workspaces[k].window_id == window_id;
    assert(state.workspaces[k].id != NIL);
    assert(k != at);
    assert(sound_states::houses(mended.workspaces, window_id, shown)) by {
        if focus {
            assert(mended.workspaces[at].id == workspace.id);
        } else {
            assert(mended.workspaces[k] == state.workspaces[k]);
        }
    }
    sound_states::lemma_ids_in(
        mended.workspaces,
        window_id,
        mended.workspaces.len() as int,
        shown,
    );
    state::lemma_window_from(state.windows, state.window_id, 0);
    let current = state.window_at(state.window_id)->0;
    lemma_same_place(first, last.windows, current);
}

/// Where there is to be one window, it is the first one. It has all workspaces, in their order and
/// with what is in them, and shows the current one.
pub proof fn law_one_window_has_all(state: StateView)
    requires
        state.sound(),
    ensures
        ({
            let after = state.collapsed();
            &&& after.windows.len() == 1
            &&& after.windows[0].id == state.windows[0].id
            &&& after.window_id == state.windows[0].id
            &&& after.selected_workspace_id == state.selected_workspace_id
            &&& after.windows[0].selected_workspace_id == state.selected_workspace_id
            &&& after.workspaces.len() == state.workspaces.len()
            &&& forall|k: int|
                0 <= k < state.workspaces.len() ==> {
                    &&& (#[trigger] after.workspaces[k]).id == state.workspaces[k].id
                    &&& after.workspaces[k].window_id == state.windows[0].id
                    &&& after.workspaces[k].title == state.workspaces[k].title
                    &&& after.workspaces[k].panes == state.workspaces[k].panes
                    &&& after.workspaces[k].layout == state.workspaces[k].layout
                }
        }),
{
    sound_operations::law_something_is_current(state);
    state::lemma_window_from(state.windows, state.window_id, 0);
    assert forall|k: int| 0 <= k < state.workspaces.len() && state.windows.len() == 1 implies (
    #[trigger] state.workspaces[k]).window_id == state.windows[0].id by {
        state::lemma_window_from(state.windows, state.workspaces[k].window_id, 0);
    }
}

/// The workspace that stands at a place in a window is shown by its number; a number that none has
/// changes nothing.
pub proof fn law_numbered_workspace_is_shown(state: StateView, window: int, index: int)
    requires
        state.sound(),
        0 <= window < state.windows.len(),
        0 <= index,
    ensures
        ({
            let window_id = state.windows[window].id;
            let list = state.workspaces_in_window(window_id);
            let after = state.selected_at(window_id, index);
            &&& index < list.len() ==> after.selected_workspace_id == list[index].id
                && after.window_id == window_id
            &&& index >= list.len() ==> after == state
        }),
{
    let window_id = state.windows[window].id;
    law_window_has_its_workspaces(state, window_id);
    let list = state.workspaces_in_window(window_id);
    if index < list.len() {
        let shown = list[index];
        let held = |workspace: WorkspaceView| workspace.window_id == window_id;
        let kept = state.workspaces.filter(held);
        assert(kept == list);
        state.workspaces.lemma_filter_pred(held, index);
        assert(kept.contains(shown));
        state.workspaces.lemma_filter_contains_rev(held, shown);
        let at = choose|k: int|
            0 <= k < state.workspaces.len() && #[trigger] state.workspaces[k] == shown;
        law_selected_workspace_is_current(state, at, window);
    }
}

/// A window that comes to the front is the current one, with the workspace that it shows; what the
/// windows show stays.
pub proof fn law_focused_window_is_current(state: StateView, window: int)
    requires
        state.sound(),
        0 <= window < state.windows.len(),
    ensures
        ({
            let shown = state.windows[window];
            let (after, result) = state.focus_window(shown.id);
            &&& result == Ok::<_, Seq<char>>(shown.selected_workspace_id)
            &&& after.window_id == shown.id
            &&& after.selected_workspace_id == shown.selected_workspace_id
            &&& after.windows.len() == state.windows.len()
            &&& forall|k: int|
                0 <= k < state.windows.len() ==> (#[trigger] after.windows[k]).id
                    == state.windows[k].id && after.windows[k].selected_workspace_id
                    == state.windows[k].selected_workspace_id
            &&& laws_tabs::same_tabs(state, after)
        }),
{
    let shown = state.windows[window];
    sound_states::lemma_window_place(state.windows, window, 0);
    sound_operations::law_focus_window_keeps_sound(state, shown.id);
    assert(sound_states::houses(state.workspaces, shown.id, shown.selected_workspace_id));
    sound_states::lemma_repaired(state, shown.id, shown.selected_workspace_id, NIL, NIL);
    sound_states::lemma_housed(state, shown.id, shown.selected_workspace_id);
    let mended = state.repaired(shown.id);
    lemma_same_place(state.windows, mended.windows, window);
    let next = mended.synced_from(shown.id);
    assert(laws_tabs::same_tabs(state, next));
    laws_tabs::lemma_attended_same(next, next.selected_workspace_id, next.current_surface_id());
    let attended = next.attended(next.selected_workspace_id, next.current_surface_id()).0;
    laws_tabs::lemma_same_twice(state, next, attended);
    let after = state.focus_window(shown.id).0;
    assert(after.workspaces == attended.workspaces);
    assert(laws_tabs::same_tabs(state, after)) by {
        assert forall|k: int| 0 <= k < state.workspaces.len() implies laws_tabs::same_tabs_in(
            state.workspaces[k],
            #[trigger] after.workspaces[k],
        ) by {
            assert(after.workspaces[k] == attended.workspaces[k]);
        }
    }
}

} // verus!
