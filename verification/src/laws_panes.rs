//! What is done with panes and their tabs: going from one to another, making tabs, exchanging
//! panes, and giving a tab a workspace of its own.

use crate::actions::AppAction;
use crate::ids::{Drawn, SurfaceId, NIL};
use crate::laws_requests;
use crate::laws_tabs;
use crate::laws_workspaces;
use crate::layout::WorkspaceLayout;
use crate::model::ModelView;
use crate::params;
use crate::params::ParamsView;
use crate::registry::HandleKind;
use crate::reply::ErrorView;
use crate::sound_operations;
use crate::sound_states;
use crate::sound_surfaces;
use crate::sound_tabs;
use crate::sound_workspaces;
use crate::state;
use crate::state::StateView;
use crate::surface::PaneView;
use crate::text;
use vstd::prelude::*;

verus! {

// ---------------------------------------------------------------------------
// Going from one to another
// ---------------------------------------------------------------------------

/// The next tab is the one that follows in the pane, and behind the last one the first; the
/// previous one is the one before, and before the first one the last. The focus stays in the pane,
/// and no tab moves.
pub proof fn law_next_tab_follows(state: StateView, drawn: Drawn, at: int, place: int, tab: int)
    requires
        state.sound(),
        state.one_place(),
        0 <= at < state.workspaces.len(),
        state.workspaces[at].id == state.selected_workspace_id,
        0 <= place < state.workspaces[at].panes.len(),
        state.workspaces[at].panes[place].id == state.workspaces[at].selected_pane_id,
        0 <= tab < state.workspaces[at].panes[place].surfaces.len(),
        state.workspaces[at].panes[place].surfaces[tab].id
            == state.workspaces[at].panes[place].selected_surface_id,
    ensures
        ({
            let pane = state.workspaces[at].panes[place];
            let next = state.acted(drawn, AppAction::SurfaceNext);
            let before = state.acted(drawn, AppAction::SurfacePrevious);
            &&& laws_tabs::same_tabs(state, next)
            &&& laws_tabs::same_tabs(state, before)
            &&& next.workspaces[at].selected_pane_id == pane.id
            &&& before.workspaces[at].selected_pane_id == pane.id
            &&& next.selected_workspace_id == state.selected_workspace_id
            &&& before.selected_workspace_id == state.selected_workspace_id
            &&& next.workspaces[at].panes[place].selected_surface_id == (if tab + 1
                < pane.surfaces.len() {
                pane.surfaces[tab + 1].id
            } else {
                pane.surfaces[0].id
            })
            &&& before.workspaces[at].panes[place].selected_surface_id == (if tab > 0 {
                pane.surfaces[tab - 1].id
            } else {
                pane.surfaces.last().id
            })
        }),
{
    let count = state.workspaces[at].panes[place].surfaces.len() as int;
    assert((tab + 1) % count == if tab + 1 < count {
        tab + 1
    } else {
        0
    }) by {
        if tab + 1 == count {
            vstd::arithmetic::div_mod::lemma_mod_self_0(count);
        } else {
            vstd::arithmetic::div_mod::lemma_small_mod((tab + 1) as nat, count as nat);
        }
    }
    assert((tab - 1) % count == if tab > 0 {
        tab - 1
    } else {
        count - 1
    }) by {
        if tab > 0 {
            vstd::arithmetic::div_mod::lemma_small_mod((tab - 1) as nat, count as nat);
        } else {
            vstd::arithmetic::div_mod::lemma_fundamental_div_mod_converse(-1, count, -1, count - 1);
        }
    }
    lemma_stepped(state, at, place, tab, 1);
    lemma_stepped(state, at, place, tab, -1);
}

proof fn lemma_stepped(state: StateView, at: int, place: int, tab: int, delta: int)
    requires
        state.sound(),
        state.one_place(),
        0 <= at < state.workspaces.len(),
        state.workspaces[at].id == state.selected_workspace_id,
        0 <= place < state.workspaces[at].panes.len(),
        state.workspaces[at].panes[place].id == state.workspaces[at].selected_pane_id,
        0 <= tab < state.workspaces[at].panes[place].surfaces.len(),
        state.workspaces[at].panes[place].surfaces[tab].id
            == state.workspaces[at].panes[place].selected_surface_id,
    ensures
        ({
            let pane = state.workspaces[at].panes[place];
            let after = state.focus_relative_surface(delta).0;
            &&& laws_tabs::same_tabs(state, after)
            &&& after.workspaces[at].selected_pane_id == pane.id
            &&& after.selected_workspace_id == state.selected_workspace_id
            &&& after.workspaces[at].panes[place].selected_surface_id == pane.surfaces[(tab + delta)
                % (pane.surfaces.len() as int)].id
        }),
{
    let workspace = state.workspaces[at];
    assert(workspace.sound());
    let pane = workspace.panes[place];
    let id = pane.surfaces[tab].id;
    laws_tabs::lemma_found(state, id, at, place, tab);
    let there = (tab + delta) % (pane.surfaces.len() as int);
    vstd::arithmetic::div_mod::lemma_mod_bound(tab + delta, pane.surfaces.len() as int);
    laws_tabs::law_focused_tab_is_selected(state, at, place, there);
    assert(laws_tabs::same_tabs(state, state));
}

/// Focusing a pane selects it in its workspace, and makes the workspace the current one. The pane
/// that was selected is remembered, and going back selects it again.
pub proof fn law_last_pane_comes_back(state: StateView, drawn: Drawn, at: int, place: int)
    requires
        state.sound(),
        0 <= at < state.workspaces.len(),
        0 <= place < state.workspaces[at].panes.len(),
        laws_tabs::only_here(state, at, place),
    ensures
        ({
            let workspace = state.workspaces[at];
            let pane = workspace.panes[place];
            let (after, result) = state.focus_pane(pane.id);
            let back = after.acted(drawn, AppAction::PaneLast);
            &&& result == Ok::<_, Seq<char>>(workspace.id)
            &&& after.selected_workspace_id == workspace.id
            &&& after.window_id == workspace.window_id
            &&& after.workspaces == state.workspaces.update(at, after.workspaces[at])
            &&& after.workspaces[at].selected_pane_id == pane.id
            &&& after.workspaces[at].panes == workspace.panes
            &&& after.workspaces[at].layout == workspace.layout
            &&& workspace.selected_pane_id != pane.id ==> {
                &&& back.workspaces[at].selected_pane_id == workspace.selected_pane_id
                &&& back.workspaces[at].panes == workspace.panes
                &&& back.workspaces == state.workspaces.update(at, back.workspaces[at])
                &&& back.selected_workspace_id == workspace.id
            }
        }),
{
    let workspace = state.workspaces[at];
    assert(workspace.sound());
    let pane = workspace.panes[place];
    laws_tabs::lemma_owned(state, at, place);
    sound_workspaces::lemma_pane_place(workspace.panes, place);
    sound_operations::law_focus_pane_keeps_sound(state, pane.id);
    let moved = workspace.selecting(pane.id);
    sound_workspaces::law_selecting_keeps_sound(workspace, pane.id);
    let first = state.with_workspace(at, moved);
    sound_states::lemma_with_workspace(state, at, moved, NIL, NIL);
    assert(state.window_at(workspace.window_id) is Some);
    assert(sound_states::houses(first.workspaces, workspace.window_id, workspace.id)) by {
        assert(first.workspaces[at].id == workspace.id);
    }
    sound_states::lemma_showing(first, workspace.window_id, workspace.id);
    let after = state.focus_pane(pane.id).0;
    assert(after.workspaces == first.workspaces);
    assert(after.workspaces =~= state.workspaces.update(at, after.workspaces[at]));
    if workspace.selected_pane_id != pane.id {
        sound_states::lemma_workspace_place(after.workspaces, at, 0);
        let back = after.acted(drawn, AppAction::PaneLast);
        assert(after.workspaces[at].pane_at(workspace.selected_pane_id) == workspace.pane_at(
            workspace.selected_pane_id,
        ));
        assert(back.workspaces =~= state.workspaces.update(at, back.workspaces[at]));
    }
}

// ---------------------------------------------------------------------------
// Making tabs
// ---------------------------------------------------------------------------

/// Whether a pane got a new terminal behind its other tabs.
pub open spec fn has_new_tab(before: PaneView, after: PaneView, drawn: Drawn, focus: bool) -> bool {
    &&& after.id == before.id
    &&& after.surfaces.len() == before.surfaces.len() + 1
    &&& after.surfaces.drop_last() == before.surfaces
    &&& after.surfaces.last().id == drawn.surface
    &&& after.surfaces.last().transcript.len() == 0
    &&& !after.surfaces.last().unread
    &&& after.selected_surface_id == (if focus {
        drawn.surface
    } else {
        before.selected_surface_id
    })
}

/// A new tab is the last one of its pane, is titled with the next number, and is selected where it
/// is to have the focus. All other panes and workspaces stay as they are.
pub proof fn law_new_tab_comes_last(
    state: StateView,
    drawn: Drawn,
    at: int,
    place: int,
    focus: bool,
)
    requires
        state.sound(),
        state.next_surface_title_number < usize::MAX,
        0 <= at < state.workspaces.len(),
        0 <= place < state.workspaces[at].panes.len(),
    ensures
        ({
            let workspace = state.workspaces[at];
            let pane = workspace.panes[place];
            let (after, result) = state.create_surface(drawn, workspace.id, pane.id, focus);
            let next = after.workspaces[at];
            &&& result == Ok::<_, Seq<char>>((workspace.id, pane.id, drawn.surface))
            &&& after.workspaces == state.workspaces.update(at, next)
            &&& next.panes == workspace.panes.update(place, next.panes[place])
            &&& has_new_tab(pane, next.panes[place], drawn, focus)
            &&& next.panes[place].surfaces.last().title == "Terminal "@ + text::decimal(
                state.next_surface_title_number as nat,
            )
            &&& next.layout == workspace.layout
            &&& next.selected_pane_id == (if focus {
                pane.id
            } else {
                workspace.selected_pane_id
            })
            &&& focus ==> after.selected_workspace_id == workspace.id && after.window_id
                == workspace.window_id
        }),
{
    let workspace = state.workspaces[at];
    assert(workspace.sound());
    let pane = workspace.panes[place];
    sound_states::lemma_workspace_place(state.workspaces, at, 0);
    sound_workspaces::lemma_pane_place(workspace.panes, place);
    let grown = workspace.create_surface(pane.id, state.fresh_surface(drawn), focus).0;
    assert(grown.panes[place].surfaces.drop_last() =~= pane.surfaces);
    assert(grown.panes =~= workspace.panes.update(place, grown.panes[place]));
    let next = state.numbered_terminal().with_workspace(at, grown);
    let after = next.followed(workspace.window_id, workspace.id, focus);
    assert(after.workspaces =~= state.workspaces.update(at, after.workspaces[at]));
    if focus {
        sound_surfaces::law_create_surface_keeps_sound(state, drawn, workspace.id, pane.id, true);
        assert(state.window_at(workspace.window_id) is Some);
        state::lemma_window_from(state.windows, workspace.window_id, 0);
        let window = state.window_at(workspace.window_id)->0;
        let shown = next.showing(workspace.window_id, workspace.id);
        laws_workspaces::lemma_same_place(state.windows, shown.windows, window);
    }
}

/// The action that makes a tab makes it in the selected pane of the current workspace, and selects
/// it.
pub proof fn law_action_makes_a_tab(state: StateView, drawn: Drawn, at: int, place: int)
    requires
        state.sound(),
        state.next_surface_title_number < usize::MAX,
        0 <= at < state.workspaces.len(),
        state.workspaces[at].id == state.selected_workspace_id,
        0 <= place < state.workspaces[at].panes.len(),
        state.workspaces[at].panes[place].id == state.workspaces[at].selected_pane_id,
    ensures
        ({
            let after = state.acted(drawn, AppAction::SurfaceNew);
            &&& after.workspaces == state.workspaces.update(at, after.workspaces[at])
            &&& has_new_tab(
                state.workspaces[at].panes[place],
                after.workspaces[at].panes[place],
                drawn,
                true,
            )
            &&& after.selected_workspace_id == state.selected_workspace_id
        }),
{
    sound_states::lemma_workspace_place(state.workspaces, at, 0);
    law_new_tab_comes_last(state, drawn, at, place, true);
}

/// A request for a new tab gets it in the pane that it names, without the focus.
pub proof fn law_request_makes_a_tab(
    model: ModelView,
    drawn: Drawn,
    params: ParamsView,
    at: int,
    place: int,
)
    requires
        model.state.sound(),
        model.state.next_surface_title_number < usize::MAX,
        params::terminal_type(params) is Ok,
        0 <= at < model.state.workspaces.len(),
        params::workspace_target(model, params).1 == Ok::<_, ErrorView>(
            model.state.workspaces[at].id,
        ),
        0 <= place < model.state.workspaces[at].panes.len(),
        laws_tabs::names(
            model,
            params,
            HandleKind::Pane,
            "pane_id"@,
            model.state.workspaces[at].panes[place].id,
        ) || (params::word(params, "pane_id"@) is None
            && model.state.workspaces[at].panes[place].id
            == model.state.workspaces[at].selected_pane_id),
    ensures
        ({
            let (after, result) = model.surface_create(drawn, params);
            let next = after.state.workspaces[at];
            &&& result is Ok
            &&& after.state.workspaces == model.state.workspaces.update(at, next)
            &&& next.panes == model.state.workspaces[at].panes.update(place, next.panes[place])
            &&& has_new_tab(
                model.state.workspaces[at].panes[place],
                next.panes[place],
                drawn,
                false,
            )
        }),
{
    reveal(ModelView::only_names);
    let state = model.state;
    let workspace = state.workspaces[at];
    let pane = workspace.panes[place];
    laws_requests::lemma_targets(model, params);
    sound_states::lemma_workspace_place(state.workspaces, at, 0);
    let (first, _) = params::workspace_target(model, params);
    laws_requests::lemma_required(first, params, HandleKind::Pane, "pane_id"@);
    let (next, found) = first.pane_for(params, workspace.id);
    if laws_tabs::names(model, params, HandleKind::Pane, "pane_id"@, pane.id) {
        laws_tabs::lemma_names_here(model, params, HandleKind::Pane, "pane_id"@, pane.id);
        assert(first.only_names(model));
    }
    assert(found == Ok::<_, ErrorView>(pane.id));
    law_new_tab_comes_last(state, drawn, at, place, false);
    let (changed, made) = next.state.create_surface(drawn, workspace.id, pane.id, false);
    laws_requests::lemma_told(
        next.with_state(changed),
        workspace.id,
        Some(pane.id),
        Some(drawn.surface),
    );
    assert(changed.workspaces[at].id == workspace.id);
    state::lemma_workspace_found(changed.workspaces, at, 0);
}

// ---------------------------------------------------------------------------
// Exchanging panes
// ---------------------------------------------------------------------------

/// Two panes that are swapped have each other's tabs, and the same tabs are selected in them; each
/// stays where it is in the layout. All other panes and workspaces keep their tabs. With the focus,
/// the pane that now has the tabs of the first one is selected.
pub proof fn law_swapped_panes_exchange_tabs(
    state: StateView,
    at: int,
    a: int,
    b: int,
    focus: bool,
)
    requires
        state.sound(),
        0 <= at < state.workspaces.len(),
        0 <= a < state.workspaces[at].panes.len(),
        0 <= b < state.workspaces[at].panes.len(),
        laws_tabs::only_here(state, at, a),
        laws_tabs::only_here(state, at, b),
    ensures
        ({
            let before = state.workspaces[at];
            let (after, result) = state.swap_panes(before.panes[a].id, before.panes[b].id, focus);
            let next = after.workspaces[at];
            &&& result == Ok::<_, Seq<char>>(before.id)
            &&& after.workspaces.len() == state.workspaces.len()
            &&& next.layout == before.layout
            &&& next.panes.len() == before.panes.len()
            &&& next.panes[a].id == before.panes[a].id
            &&& next.panes[b].id == before.panes[b].id
            &&& laws_tabs::tab_ids(next.panes[a]) == laws_tabs::tab_ids(before.panes[b])
            &&& laws_tabs::tab_ids(next.panes[b]) == laws_tabs::tab_ids(before.panes[a])
            &&& next.panes[a].selected_surface_id == before.panes[b].selected_surface_id
            &&& next.panes[b].selected_surface_id == before.panes[a].selected_surface_id
            &&& forall|k: int|
                0 <= k < before.panes.len() && k != a && k != b ==> laws_tabs::tab_ids(
                    #[trigger] next.panes[k],
                ) == laws_tabs::tab_ids(before.panes[k]) && next.panes[k].id == before.panes[k].id
            &&& forall|k: int|
                0 <= k < state.workspaces.len() && k != at ==> laws_tabs::same_shape_in(
                    state.workspaces[k],
                    #[trigger] after.workspaces[k],
                )
            &&& next.selected_pane_id == (if focus {
                before.panes[b].id
            } else {
                before.selected_pane_id
            })
            &&& focus ==> after.selected_workspace_id == before.id
        }),
{
    let before = state.workspaces[at];
    assert(before.sound());
    laws_tabs::lemma_owned(state, at, a);
    laws_tabs::lemma_owned(state, at, b);
    sound_states::lemma_workspace_place(state.workspaces, at, 0);
    sound_workspaces::lemma_pane_place(before.panes, a);
    sound_workspaces::lemma_pane_place(before.panes, b);
    let swapped = before.swapped(a, b);
    assert(laws_tabs::tab_ids(swapped.panes[a]) =~= laws_tabs::tab_ids(before.panes[b]));
    assert(laws_tabs::tab_ids(swapped.panes[b]) =~= laws_tabs::tab_ids(before.panes[a]));
    if focus {
        sound_workspaces::law_swapped_keeps_sound(before, a, b);
        let target = before.panes[b].id;
        sound_workspaces::lemma_same_panes(before.panes, swapped.panes, target, 0);
        let chosen = swapped.focus_pane(target).0;
        sound_workspaces::law_focus_pane_keeps_sound(swapped, target);
        let first = state.with_workspace(at, chosen);
        sound_states::lemma_with_workspace(state, at, chosen, NIL, NIL);
        assert(first.workspaces[at].id == before.id);
        lemma_select_keeps_shape(first, at);
        let after = first.select_workspace(before.id).0;
        assert(laws_tabs::same_shape_in(first.workspaces[at], after.workspaces[at]));
        assert forall|k: int| 0 <= k < state.workspaces.len() && k != at implies
            laws_tabs::same_shape_in(state.workspaces[k], #[trigger] after.workspaces[k]) by {
            assert(first.workspaces[k] == state.workspaces[k]);
            assert(laws_tabs::same_shape_in(first.workspaces[k], after.workspaces[k]));
        }
    }
}

/// Selecting a workspace moves no tab and selects no other pane or tab.
pub proof fn lemma_select_keeps_shape(state: StateView, at: int)
    requires
        state.sound(),
        0 <= at < state.workspaces.len(),
    ensures
        laws_tabs::same_shape(state, state.select_workspace(state.workspaces[at].id).0),
        state.select_workspace(state.workspaces[at].id).0.selected_workspace_id
            == state.workspaces[at].id,
{
    let workspace = state.workspaces[at];
    sound_states::lemma_workspace_place(state.workspaces, at, 0);
    laws_workspaces::lemma_selected(state, at);
    let shown = state.showing(workspace.window_id, workspace.id).synced_from(workspace.window_id);
    laws_tabs::lemma_attended_same(shown, workspace.id, workspace.selected_surface_id());
    let attended = shown.attended(workspace.id, workspace.selected_surface_id()).0;
    let after = state.select_workspace(workspace.id).0;
    assert(after.workspaces == attended.workspaces);
    assert forall|k: int| 0 <= k < state.workspaces.len() implies laws_tabs::same_shape_in(
        state.workspaces[k],
        #[trigger] after.workspaces[k],
    ) by {
        assert(shown.workspaces[k] == state.workspaces[k]);
        assert(laws_tabs::same_shape_in(shown.workspaces[k], attended.workspaces[k]));
    }
}

// ---------------------------------------------------------------------------
// Breaking off and joining
// ---------------------------------------------------------------------------

/// A tab that is broken off gets a new workspace of its own, the last one, in the same window; the
/// tab is taken out of its pane, and all other workspaces stay as they are. It is so without the
/// focus; with the focus the tabs are the same, and the new workspace is the current one.
pub proof fn law_broken_off_tab_is_alone(
    state: StateView,
    drawn: Drawn,
    at: int,
    place: int,
    tab: int,
)
    requires
        state.sound(),
        state.one_place(),
        state.new_to(drawn),
        0 <= at < state.workspaces.len(),
        0 <= place < state.workspaces[at].panes.len(),
        0 <= tab < state.workspaces[at].panes[place].surfaces.len(),
        state.workspaces[at].panes.len() > 1 || state.workspaces[at].panes[place].surfaces.len()
            > 1,
    ensures
        ({
            let before = state.workspaces[at];
            let surface = before.panes[place].surfaces[tab];
            let (after, result) = state.break_surface(drawn, surface.id, false);
            let (shown, focused) = state.break_surface(drawn, surface.id, true);
            let added = after.workspaces.last();
            &&& result == Ok::<_, Seq<char>>(drawn.workspace)
            &&& focused == Ok::<_, Seq<char>>(drawn.workspace)
            &&& after.workspaces.len() == state.workspaces.len() + 1
            &&& laws_tabs::tab_taken(before, after.workspaces[at], place, tab)
            &&& forall|k: int|
                0 <= k < state.workspaces.len() && k != at ==> after.workspaces[k]
                    == #[trigger] state.workspaces[k]
            &&& added.id == drawn.workspace
            &&& added.window_id == before.window_id
            &&& added.layout == WorkspaceLayout::Pane(drawn.pane)
            &&& added.panes.len() == 1
            &&& added.panes[0].id == drawn.pane
            &&& added.panes[0].surfaces == seq![surface]
            &&& added.panes[0].selected_surface_id == surface.id
            &&& added.selected_pane_id == drawn.pane
            &&& after.window_id == state.window_id
            &&& after.selected_workspace_id == state.selected_workspace_id
            &&& laws_tabs::same_tabs(after, shown)
            &&& shown.selected_workspace_id == drawn.workspace
            &&& shown.window_id == before.window_id
        }),
{
    let before = state.workspaces[at];
    assert(before.sound());
    let surface = before.panes[place].surfaces[tab];
    laws_tabs::lemma_found(state, surface.id, at, place, tab);
    laws_tabs::lemma_taken(
        before,
        place,
        tab,
        "cannot move the last surface"@,
        "no pane remaining after move"@,
    );
    let after = state.break_surface(drawn, surface.id, false).0;
    lemma_focus_after_break(state, drawn, at, place, tab);
}

proof fn lemma_focus_after_break(state: StateView, drawn: Drawn, at: int, place: int, tab: int)
    requires
        state.sound(),
        state.one_place(),
        state.new_to(drawn),
        0 <= at < state.workspaces.len(),
        0 <= place < state.workspaces[at].panes.len(),
        0 <= tab < state.workspaces[at].panes[place].surfaces.len(),
        state.workspaces[at].panes.len() > 1 || state.workspaces[at].panes[place].surfaces.len()
            > 1,
    ensures
        ({
            let id = state.workspaces[at].panes[place].surfaces[tab].id;
            let after = state.break_surface(drawn, id, false).0;
            let (shown, focused) = state.break_surface(drawn, id, true);
            &&& focused == Ok::<_, Seq<char>>(drawn.workspace)
            &&& laws_tabs::same_tabs(after, shown)
            &&& shown.selected_workspace_id == drawn.workspace
            &&& shown.window_id == state.workspaces[at].window_id
        }),
{
    let before = state.workspaces[at];
    assert(before.sound());
    let surface = before.panes[place].surfaces[tab];
    laws_tabs::lemma_found(state, surface.id, at, place, tab);
    laws_tabs::lemma_taken(
        before,
        place,
        tab,
        "cannot move the last surface"@,
        "no pane remaining after move"@,
    );
    sound_surfaces::lemma_detached_ids(before, surface.id);
    let after = state.break_surface(drawn, surface.id, false).0;
    sound_workspaces::law_detach_keeps_sound(
        before,
        surface.id,
        "cannot move the last surface"@,
        "no pane remaining after move"@,
    );
    assert(before.panes[place].sound());
    sound_states::lemma_with_workspace(
        state,
        at,
        before.remove_surface_for_move(surface.id).0,
        NIL,
        NIL,
    );
    let (ready, made) = sound_surfaces::lemma_broken_off(state, drawn, at, surface.id, true);
    sound_tabs::law_breaking_off_keeps_surfaces(state, drawn, surface.id, false);
    let last = ready.workspaces.len() - 1;
    assert(after.workspaces == ready.workspaces);
    assert(ready.one_place()) by {
        assert forall|id: SurfaceId| #[trigger] ready.tabs(id) <= 1 by {
            assert(ready.tabs(id) == after.tabs(id));
            assert(after.tabs(id) == state.tabs(id));
            assert(state.tabs(id) <= 1);
        }
    }
    assert(ready.workspaces[last] == made);
    laws_tabs::law_focused_tab_is_selected(ready, last, 0, 0);
}

/// A tab that is joined to a pane becomes its last tab, whichever pane it comes from.
pub proof fn law_joined_tab_comes_last(
    model: ModelView,
    drawn: Drawn,
    here: (int, int, int),
    at: int,
    place: int,
    focus: bool,
)
    requires
        model.state.sound(),
        model.state.one_place(),
        model.state.new_inside(drawn),
        laws_tabs::has_tab(model.state, here),
        laws_tabs::has_pane(model.state, at, place),
        laws_tabs::only_here(model.state, at, place),
    ensures
        ({
            let id = model.state.workspaces[here.0].panes[here.1].surfaces[here.2].id;
            let workspace_id = model.state.workspaces[at].id;
            let pane_id = model.state.workspaces[at].panes[place].id;
            let rest = laws_tabs::other_tabs(model.state, here, at, place);
            let (after, result) = model.joined(drawn, id, pane_id, focus);
            &&& result is Ok
            &&& laws_tabs::holds_tabs(after.state, workspace_id, pane_id, rest.push(id))
        }),
{
    reveal(ModelView::only_names);
    let state = model.state;
    let id = state.workspaces[here.0].panes[here.1].surfaces[here.2].id;
    let workspace_id = state.workspaces[at].id;
    let pane = state.workspaces[at].panes[place];
    assert(state.workspaces[at].sound());
    laws_tabs::lemma_owned(state, at, place);
    sound_states::lemma_workspace_place(state.workspaces, at, 0);
    sound_workspaces::lemma_pane_place(state.workspaces[at].panes, place);
    let index = pane.surfaces.len() as int;
    laws_tabs::law_moved_tab_is_in_place(state, drawn, here, at, place, index, focus);
    let rest = laws_tabs::other_tabs(state, here, at, place);
    assert(rest.insert(rest.len() as int, id) =~= rest.push(id));
    let changed = state.move_surface(drawn, id, workspace_id, pane.id, index, focus).0;
    laws_requests::lemma_told(model.with_state(changed), workspace_id, Some(pane.id), Some(id));
    let (a, p) = choose|a: int, p: int|
        #![trigger changed.workspaces[a].panes[p]]
        0 <= a < changed.workspaces.len() && changed.workspaces[a].id == workspace_id && 0 <= p
            < changed.workspaces[a].panes.len() && changed.workspaces[a].panes[p].id == pane.id;
    state::lemma_workspace_found(changed.workspaces, a, 0);
}

/// A pane that gets the focus is the selected one of its workspace, and that workspace and its
/// window are the current ones; no tab moves, and in no pane another one is selected.
pub proof fn law_focused_pane_is_selected(state: StateView, at: int, place: int)
    requires
        state.sound(),
        laws_tabs::has_pane(state, at, place),
        laws_tabs::only_here(state, at, place),
    ensures
        ({
            let workspace = state.workspaces[at];
            let pane_id = workspace.panes[place].id;
            let (after, result) = state.focus_pane(pane_id);
            &&& result == Ok::<_, Seq<char>>(workspace.id)
            &&& after.window_id == workspace.window_id
            &&& after.selected_workspace_id == workspace.id
            &&& after.workspaces.len() == state.workspaces.len()
            &&& forall|k: int|
                0 <= k < state.workspaces.len() ==> {
                    &&& (#[trigger] after.workspaces[k]).panes == state.workspaces[k].panes
                    &&& after.workspaces[k].layout == state.workspaces[k].layout
                    &&& after.workspaces[k].selected_pane_id == (if k == at {
                        pane_id
                    } else {
                        state.workspaces[k].selected_pane_id
                    })
                }
        }),
{
    laws_tabs::lemma_owned(state, at, place);
    let workspace = state.workspaces[at];
    assert(state.window_at(workspace.window_id) is Some);
    state::lemma_window_from(state.windows, workspace.window_id, 0);
    let window = state.window_at(workspace.window_id)->0;
    let chosen = state.with_workspace(at, workspace.selecting(workspace.panes[place].id));
    let turned = chosen.showing(workspace.window_id, workspace.id);
    laws_workspaces::lemma_same_place(state.windows, turned.windows, window);
}

} // verus!
