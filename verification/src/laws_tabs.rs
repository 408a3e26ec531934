//! Where tabs go: what opening, closing, moving and selecting them does to the others.

use crate::actions::AppAction;
use crate::ids;
use crate::ids::{Drawn, PaneId, SurfaceId, WorkspaceId, NIL};
use crate::laws_focus;
use crate::laws_names;
use crate::laws_requests;
use crate::model::ModelView;
use crate::params;
use crate::params::ParamsView;
use crate::registry::HandleKind;
use crate::reply::ErrorView;
use crate::sound_states;
use crate::sound_surfaces;
use crate::sound_tabs;
use crate::sound_workspaces;
use crate::state;
use crate::state::StateView;
use crate::state_focus;
use crate::state_windows;
use crate::surface::{PaneView, SurfaceView};
use crate::workspace;
use crate::workspace::WorkspaceView;
use vstd::prelude::*;

verus! {

/// Whether a parameter names an object, whatever names were given out meanwhile.
pub open spec fn names(
    model: ModelView,
    params: ParamsView,
    kind: HandleKind,
    key: Seq<char>,
    id: u128,
) -> bool {
    forall|later: ModelView| #[trigger]
        later.only_names(model) ==> params::required(later, params, kind, key).1 == Ok::<
            _,
            ErrorView,
        >(id)
}

/// A parameter that holds the text of an identifier names the object with that identifier.
pub proof fn law_identifiers_name(
    model: ModelView,
    params: ParamsView,
    kind: HandleKind,
    key: Seq<char>,
    id: u128,
)
    requires
        params::word(params, key) == Some(ids::id_text(id)),
        model.contains(kind, id),
    ensures
        names(model, params, kind, key, id),
{
    reveal(ModelView::only_names);
    assert forall|later: ModelView| #[trigger] later.only_names(model) implies params::required(
        later,
        params,
        kind,
        key,
    ).1 == Ok::<_, ErrorView>(id) by {
        laws_names::law_id_resolves(later, kind, id);
    }
}

/// A surface that stands at some place occurs in its pane, in its workspace and in the state.
proof fn lemma_occurs(state: StateView, at: int, place: int, tab: int)
    requires
        0 <= at < state.workspaces.len(),
        0 <= place < state.workspaces[at].panes.len(),
        0 <= tab < state.workspaces[at].panes[place].surfaces.len(),
    ensures
        ({
            let workspace = state.workspaces[at];
            let pane = workspace.panes[place];
            let id = pane.surfaces[tab].id;
            &&& sound_tabs::tab_marks(pane.surfaces, id)[tab] == 1
            &&& sound_tabs::pane_tabs(workspace.panes, id)[place] >= 1
            &&& sound_tabs::workspace_tabs(state.workspaces, id)[at] >= 1
        }),
{
    let workspace = state.workspaces[at];
    let pane = workspace.panes[place];
    let id = pane.surfaces[tab].id;
    sound_tabs::lemma_sum_holds(sound_tabs::tab_marks(pane.surfaces, id), tab);
    sound_tabs::lemma_sum_holds(sound_tabs::pane_tabs(workspace.panes, id), place);
}

proof fn lemma_two(list: Seq<nat>, a: int, b: int)
    requires
        0 <= a < list.len(),
        0 <= b < list.len(),
        a != b,
        list[a] >= 1,
        list[b] >= 1,
    ensures
        sound_tabs::sum(list) >= 2,
{
    sound_tabs::lemma_sum_remove(list, a);
    let rest = list.remove(a);
    let other = if b < a {
        b
    } else {
        b - 1
    };
    assert(rest[other] == list[b]);
    sound_tabs::lemma_sum_holds(rest, other);
}

/// Where each surface is in one place, two places with one surface are the same place.
pub proof fn law_one_place_is_one(
    state: StateView,
    here: (int, int, int),
    there: (int, int, int),
)
    requires
        state.one_place(),
        0 <= here.0 < state.workspaces.len(),
        0 <= here.1 < state.workspaces[here.0].panes.len(),
        0 <= here.2 < state.workspaces[here.0].panes[here.1].surfaces.len(),
        0 <= there.0 < state.workspaces.len(),
        0 <= there.1 < state.workspaces[there.0].panes.len(),
        0 <= there.2 < state.workspaces[there.0].panes[there.1].surfaces.len(),
        state.workspaces[here.0].panes[here.1].surfaces[here.2].id
            == state.workspaces[there.0].panes[there.1].surfaces[there.2].id,
    ensures
        here == there,
{
    lemma_occurs(state, here.0, here.1, here.2);
    lemma_occurs(state, there.0, there.1, there.2);
    let id = state.workspaces[here.0].panes[here.1].surfaces[here.2].id;
    let all = sound_tabs::workspace_tabs(state.workspaces, id);
    assert(state.tabs(id) <= 1);
    if here.0 != there.0 {
        lemma_two(all, here.0, there.0);
    } else {
        sound_tabs::lemma_sum_holds(all, here.0);
        let workspace = state.workspaces[here.0];
        let inner = sound_tabs::pane_tabs(workspace.panes, id);
        assert(all[here.0] == sound_tabs::sum(inner));
        if here.1 != there.1 {
            lemma_two(inner, here.1, there.1);
        } else {
            sound_tabs::lemma_sum_holds(inner, here.1);
            let pane = workspace.panes[here.1];
            let marks = sound_tabs::tab_marks(pane.surfaces, id);
            assert(inner[here.1] == sound_tabs::sum(marks));
            if here.2 != there.2 {
                lemma_two(marks, here.2, there.2);
            }
        }
    }
}

proof fn lemma_holds(panes: Seq<PaneView>, id: SurfaceId, at: int, from: int)
    requires
        0 <= from <= at < panes.len(),
        panes[at].surface_at(id) is Some,
    ensures
        workspace::holder_from(panes, id, from) is Some,
    decreases at - from,
{
    if panes[from].surface_at(id) is None {
        lemma_holds(panes, id, at, from + 1);
    }
}

proof fn lemma_locates(list: Seq<WorkspaceView>, id: SurfaceId, at: int, from: int)
    requires
        0 <= from <= at < list.len(),
        list[at].holder(id) is Some,
    ensures
        state::located_from(list, id, from) is Some,
    decreases at - from,
{
    if list[from].holder(id) is None {
        lemma_locates(list, id, at, from + 1);
    }
}

/// A surface that is in one place is found there.
pub proof fn lemma_found(state: StateView, surface_id: SurfaceId, at: int, place: int, tab: int)
    requires
        state.structured(),
        state.one_place(),
        0 <= at < state.workspaces.len(),
        0 <= place < state.workspaces[at].panes.len(),
        0 <= tab < state.workspaces[at].panes[place].surfaces.len(),
        state.workspaces[at].panes[place].surfaces[tab].id == surface_id,
    ensures
        state.located(surface_id) == Some(at),
        state.workspaces[at].holder(surface_id) == Some(place),
        state.workspaces[at].panes[place].surface_at(surface_id) == Some(tab),
        state.workspaces[at].pane_at(state.workspaces[at].panes[place].id) == Some(place),
        state.workspace_at(state.workspaces[at].id) == Some(at),
        state.locate_surface(surface_id) == Some(
            (state.workspaces[at].id, state.workspaces[at].panes[place].id),
        ),
        state.tab(surface_id) == Ok::<_, Seq<char>>((at, place, tab)),
{
    let list = state.workspaces;
    assert(list[at].sound());
    sound_workspaces::lemma_surface_found(list[at].panes[place].surfaces, tab, 0);
    lemma_holds(list[at].panes, surface_id, place, 0);
    lemma_locates(list, surface_id, at, 0);
    sound_states::lemma_located(list, surface_id, 0);
    let found = state.located(surface_id)->0;
    sound_workspaces::lemma_holder(list[found].panes, surface_id, 0);
    let holder = list[found].holder(surface_id)->0;
    sound_workspaces::lemma_surface_from(list[found].panes[holder].surfaces, surface_id, 0);
    let spot = list[found].panes[holder].surface_at(surface_id)->0;
    law_one_place_is_one(state, (at, place, tab), (found, holder, spot));
    sound_workspaces::lemma_pane_place(list[at].panes, place);
    sound_states::lemma_workspace_place(list, at, 0);
}

// ---------------------------------------------------------------------------
// Closing
// ---------------------------------------------------------------------------

/// Whether a tab was taken out of a workspace: out of its pane, whose other tabs stay as they are,
/// or with its pane where that held no other tab. What was selected stays selected; in place of a
/// selected tab the one before it is selected, or the first, and in place of a selected pane the
/// first one of the layout.
pub open spec fn tab_taken(
    before: WorkspaceView,
    after: WorkspaceView,
    place: int,
    tab: int,
) -> bool {
    let pane = before.panes[place];
    &&& after.id == before.id
    &&& after.window_id == before.window_id
    &&& after.title == before.title
    &&& after.current_directory == before.current_directory
    &&& if pane.surfaces.len() > 1 {
        &&& after.layout == before.layout
        &&& after.selected_pane_id == before.selected_pane_id
        &&& after.last_selected_pane_id == before.last_selected_pane_id
        &&& after.panes.len() == before.panes.len()
        &&& forall|other: int|
            0 <= other < before.panes.len() && other != place ==> after.panes[other]
                == #[trigger] before.panes[other]
        &&& after.panes[place].id == pane.id
        &&& after.panes[place].surfaces == pane.surfaces.remove(tab)
        &&& after.panes[place].selected_surface_id == (if pane.selected_surface_id
            != pane.surfaces[tab].id {
            pane.selected_surface_id
        } else if tab > 0 {
            pane.surfaces[tab - 1].id
        } else {
            pane.surfaces[1].id
        })
    } else {
        &&& after.panes == before.panes.remove(place)
        &&& exists|leaf: int|
            0 <= leaf < before.layout.leaves().len() && #[trigger] before.layout.leaves()[leaf]
                == pane.id && after.layout.leaves() == before.layout.leaves().remove(leaf)
        &&& after.selected_pane_id == (if before.selected_pane_id != pane.id {
            before.selected_pane_id
        } else {
            after.layout.leaves()[0]
        })
    }
}

/// Taking a tab out of a workspace that holds another one.
pub proof fn lemma_taken(
    workspace: WorkspaceView,
    place: int,
    tab: int,
    last: Seq<char>,
    none_left: Seq<char>,
)
    requires
        workspace.sound(),
        0 <= place < workspace.panes.len(),
        0 <= tab < workspace.panes[place].surfaces.len(),
        workspace.holder(workspace.panes[place].surfaces[tab].id) == Some(place),
        workspace.panes[place].surface_at(workspace.panes[place].surfaces[tab].id) == Some(tab),
        workspace.panes[place].surfaces.len() > 1 || workspace.panes.len() > 1,
    ensures
        ({
            let pane = workspace.panes[place];
            let (after, result) = workspace.detached(pane.surfaces[tab].id, last, none_left);
            &&& tab_taken(workspace, after, place, tab)
            &&& match result {
                Ok(done) => done.pane_id == pane.id && done.surface == Some(pane.surfaces[tab])
                    && done.removed_pane == (pane.surfaces.len() == 1),
                Err(_) => false,
            }
        }),
{
    let pane = workspace.panes[place];
    let id = pane.surfaces[tab].id;
    sound_workspaces::lemma_pane_place(workspace.panes, place);
    let (after, result) = workspace.detached(id, last, none_left);
    if pane.surfaces.len() > 1 {
        let rest = pane.surfaces.remove(tab);
        if tab > 0 {
            assert(rest[tab - 1] == pane.surfaces[tab - 1]);
        } else {
            assert(rest[0] == pane.surfaces[1]);
        }
    } else {
        sound_workspaces::lemma_drop_pane(workspace, place);
    }
}

/// Whether a tab was closed: it was taken out, and all other workspaces, the windows and what is
/// shown stay as they are. The last tab of a workspace stays.
pub open spec fn tab_closed(
    before: StateView,
    after: StateView,
    at: int,
    place: int,
    tab: int,
) -> bool {
    let workspace = before.workspaces[at];
    if workspace.panes.len() == 1 && workspace.panes[place].surfaces.len() == 1 {
        after == before
    } else {
        &&& after.workspaces.len() == before.workspaces.len()
        &&& forall|other: int|
            0 <= other < before.workspaces.len() && other != at ==> after.workspaces[other]
                == #[trigger] before.workspaces[other]
        &&& tab_taken(workspace, after.workspaces[at], place, tab)
        &&& after.windows == before.windows
        &&& after.window_id == before.window_id
        &&& after.selected_workspace_id == before.selected_workspace_id
        &&& after.last_selected_workspace_id == before.last_selected_workspace_id
        &&& after.notifications == before.notifications
    }
}

proof fn lemma_closed(state: StateView, at: int, place: int, tab: int)
    requires
        state.sound(),
        state.one_place(),
        0 <= at < state.workspaces.len(),
        0 <= place < state.workspaces[at].panes.len(),
        0 <= tab < state.workspaces[at].panes[place].surfaces.len(),
    ensures
        ({
            let workspace = state.workspaces[at];
            let (after, result) = state.close_surface(
                workspace.id,
                workspace.panes[place].surfaces[tab].id,
            );
            &&& tab_closed(state, after, at, place, tab)
            &&& result is Ok == !(workspace.panes.len() == 1
                && workspace.panes[place].surfaces.len() == 1)
            &&& result is Ok ==> result->Ok_0.1 == workspace.panes[place].id
        }),
{
    let workspace = state.workspaces[at];
    assert(workspace.sound());
    let id = workspace.panes[place].surfaces[tab].id;
    lemma_found(state, id, at, place, tab);
    let after = state.close_surface(workspace.id, id).0;
    if workspace.panes.len() == 1 && workspace.panes[place].surfaces.len() == 1 {
        assert(after.workspaces =~= state.workspaces);
    } else {
        lemma_taken(
            workspace,
            place,
            tab,
            "cannot close the last surface"@,
            "no pane remaining after close"@,
        );
    }
}

/// A request that closes a tab takes that tab out and leaves everything else as it is. A tab in the
/// background closes without a change of what is selected.
pub proof fn law_request_closes_the_tab(
    model: ModelView,
    params: ParamsView,
    at: int,
    place: int,
    tab: int,
)
    requires
        model.state.sound(),
        model.state.one_place(),
        0 <= at < model.state.workspaces.len(),
        0 <= place < model.state.workspaces[at].panes.len(),
        0 <= tab < model.state.workspaces[at].panes[place].surfaces.len(),
        params::workspace_target(model, params).1 == Ok::<_, ErrorView>(
            model.state.workspaces[at].id,
        ),
        names(
            model,
            params,
            HandleKind::Surface,
            "surface_id"@,
            model.state.workspaces[at].panes[place].surfaces[tab].id,
        ),
    ensures
        tab_closed(model.state, model.surface_close(params).0.state, at, place, tab),
        model.surface_close(params).1 is Ok == !(model.state.workspaces[at].panes.len() == 1
            && model.state.workspaces[at].panes[place].surfaces.len() == 1),
{
    reveal(ModelView::only_names);
    laws_requests::lemma_targets(model, params);
    let (first, _) = params::workspace_target(model, params);
    laws_requests::lemma_required(first, params, HandleKind::Surface, "surface_id"@);
    let (next, found) = first.surface_for(params, model.state.workspaces[at].id);
    lemma_closed(next.state, at, place, tab);
    lemma_close_told(next, at, place, tab);
}

proof fn lemma_close_told(model: ModelView, at: int, place: int, tab: int)
    requires
        model.state.sound(),
        model.state.one_place(),
        0 <= at < model.state.workspaces.len(),
        0 <= place < model.state.workspaces[at].panes.len(),
        0 <= tab < model.state.workspaces[at].panes[place].surfaces.len(),
    ensures
        ({
            let workspace = model.state.workspaces[at];
            let id = workspace.panes[place].surfaces[tab].id;
            let (after, result) = model.state.close_surface(workspace.id, id);
            let told = model.with_state(after).told(
                workspace.id,
                Some(workspace.panes[place].id),
                Some(id),
            );
            &&& model.with_state(after).finished(told).0.state == after
            &&& told is Ok
        }),
{
    reveal(ModelView::only_names);
    lemma_closed(model.state, at, place, tab);
    let workspace = model.state.workspaces[at];
    let id = workspace.panes[place].surfaces[tab].id;
    let (after, result) = model.state.close_surface(workspace.id, id);
    laws_requests::lemma_told(
        model.with_state(after),
        workspace.id,
        Some(workspace.panes[place].id),
        Some(id),
    );
    assert(after.workspaces[at].id == workspace.id);
    state::lemma_workspace_found(after.workspaces, at, 0);
}

/// A request that closes a tab and names none closes the selected one of the workspace.
pub proof fn law_request_closes_the_selected_tab(
    model: ModelView,
    params: ParamsView,
    at: int,
    place: int,
    tab: int,
)
    requires
        model.state.sound(),
        model.state.one_place(),
        0 <= at < model.state.workspaces.len(),
        0 <= place < model.state.workspaces[at].panes.len(),
        0 <= tab < model.state.workspaces[at].panes[place].surfaces.len(),
        params::workspace_target(model, params).1 == Ok::<_, ErrorView>(
            model.state.workspaces[at].id,
        ),
        params::word(params, "surface_id"@) is None,
        model.state.workspaces[at].selected_pane_id == model.state.workspaces[at].panes[place].id,
        model.state.workspaces[at].panes[place].selected_surface_id
            == model.state.workspaces[at].panes[place].surfaces[tab].id,
    ensures
        tab_closed(model.state, model.surface_close(params).0.state, at, place, tab),
{
    reveal(ModelView::only_names);
    laws_requests::lemma_targets(model, params);
    let (first, _) = params::workspace_target(model, params);
    let workspace = model.state.workspaces[at];
    assert(workspace.sound());
    sound_states::lemma_workspace_place(model.state.workspaces, at, 0);
    sound_workspaces::lemma_pane_place(workspace.panes, place);
    lemma_closed(first.state, at, place, tab);
    lemma_close_told(first, at, place, tab);
}

/// The action that closes a tab closes the selected one of the selected pane of the current
/// workspace.
pub proof fn law_action_closes_the_selected_tab(
    state: StateView,
    drawn: Drawn,
    at: int,
    place: int,
    tab: int,
)
    requires
        state.sound(),
        state.one_place(),
        0 <= at < state.workspaces.len(),
        state.workspaces[at].id == state.selected_workspace_id,
        0 <= place < state.workspaces[at].panes.len(),
        state.workspaces[at].selected_pane_id == state.workspaces[at].panes[place].id,
        0 <= tab < state.workspaces[at].panes[place].surfaces.len(),
        state.workspaces[at].panes[place].selected_surface_id
            == state.workspaces[at].panes[place].surfaces[tab].id,
    ensures
        tab_closed(state, state.acted(drawn, AppAction::SurfaceClose), at, place, tab),
{
    let workspace = state.workspaces[at];
    assert(workspace.sound());
    sound_states::lemma_workspace_place(state.workspaces, at, 0);
    sound_workspaces::lemma_pane_place(workspace.panes, place);
    lemma_closed(state, at, place, tab);
}

// ---------------------------------------------------------------------------
// Moving
// ---------------------------------------------------------------------------

/// The identifiers of the tabs of a pane.
pub open spec fn tab_ids(pane: PaneView) -> Seq<SurfaceId> {
    Seq::new(pane.surfaces.len(), |tab: int| pane.surfaces[tab].id)
}

/// Whether two workspaces have the same panes with the same tabs.
pub open spec fn same_tabs_in(before: WorkspaceView, after: WorkspaceView) -> bool {
    &&& after.id == before.id
    &&& after.window_id == before.window_id
    &&& after.title == before.title
    &&& after.layout == before.layout
    &&& after.panes.len() == before.panes.len()
    &&& forall|place: int|
        0 <= place < before.panes.len() ==> (#[trigger] after.panes[place]).id
            == before.panes[place].id && tab_ids(after.panes[place]) == tab_ids(
            before.panes[place],
        )
}

/// Whether two states have the same workspaces with the same panes and the same tabs.
pub open spec fn same_tabs(before: StateView, after: StateView) -> bool {
    &&& after.workspaces.len() == before.workspaces.len()
    &&& forall|at: int|
        0 <= at < before.workspaces.len() ==> same_tabs_in(
            before.workspaces[at],
            #[trigger] after.workspaces[at],
        )
}

/// Whether two workspaces have the same panes with the same tabs, and the same ones are selected.
pub open spec fn same_shape_in(before: WorkspaceView, after: WorkspaceView) -> bool {
    &&& same_tabs_in(before, after)
    &&& after.selected_pane_id == before.selected_pane_id
    &&& after.last_selected_pane_id == before.last_selected_pane_id
    &&& forall|place: int|
        0 <= place < before.panes.len() ==> (#[trigger] after.panes[place]).selected_surface_id
            == before.panes[place].selected_surface_id
}

/// Whether two states have the same workspaces, panes and tabs, and the same ones are selected in
/// each.
pub open spec fn same_shape(before: StateView, after: StateView) -> bool {
    &&& after.workspaces.len() == before.workspaces.len()
    &&& forall|at: int|
        0 <= at < before.workspaces.len() ==> same_shape_in(
            before.workspaces[at],
            #[trigger] after.workspaces[at],
        )
}

/// Two steps that keep the shape keep it.
pub proof fn lemma_shape_twice(first: StateView, second: StateView, third: StateView)
    requires
        same_shape(first, second),
        same_shape(second, third),
    ensures
        same_shape(first, third),
{
    assert forall|at: int| 0 <= at < first.workspaces.len() implies same_shape_in(
        first.workspaces[at],
        #[trigger] third.workspaces[at],
    ) by {
        let a = first.workspaces[at];
        let b = second.workspaces[at];
        let c = third.workspaces[at];
        assert(same_shape_in(a, b) && same_shape_in(b, c));
        assert forall|place: int| 0 <= place < a.panes.len() implies (#[trigger] c.panes[place]).id
            == a.panes[place].id && tab_ids(c.panes[place]) == tab_ids(a.panes[place])
            && c.panes[place].selected_surface_id == a.panes[place].selected_surface_id by {
            assert(b.panes[place].id == a.panes[place].id);
        }
    }
}

/// What keeps the shape moves no tab.
pub proof fn lemma_shape_keeps_tabs(before: StateView, after: StateView)
    requires
        same_shape(before, after),
    ensures
        same_tabs(before, after),
{
    assert forall|at: int| 0 <= at < before.workspaces.len() implies same_tabs_in(
        before.workspaces[at],
        #[trigger] after.workspaces[at],
    ) by {
        assert(same_shape_in(before.workspaces[at], after.workspaces[at]));
    }
}

/// Two steps that move no tab move none.
pub proof fn lemma_same_twice(first: StateView, second: StateView, third: StateView)
    requires
        same_tabs(first, second),
        same_tabs(second, third),
    ensures
        same_tabs(first, third),
{
    assert forall|at: int| 0 <= at < first.workspaces.len() implies same_tabs_in(
        first.workspaces[at],
        #[trigger] third.workspaces[at],
    ) by {
        let a = first.workspaces[at];
        let b = second.workspaces[at];
        let c = third.workspaces[at];
        assert(same_tabs_in(a, b) && same_tabs_in(b, c));
        assert forall|place: int| 0 <= place < a.panes.len() implies (#[trigger] c.panes[place]).id
            == a.panes[place].id && tab_ids(c.panes[place]) == tab_ids(a.panes[place]) by {
            assert(b.panes[place].id == a.panes[place].id);
        }
    }
}

proof fn lemma_same_but_one(before: StateView, at: int, workspace: WorkspaceView)
    requires
        0 <= at < before.workspaces.len(),
        same_tabs_in(before.workspaces[at], workspace),
    ensures
        same_tabs(before, before.with_workspace(at, workspace)),
        same_shape_in(before.workspaces[at], workspace) ==> same_shape(
            before,
            before.with_workspace(at, workspace),
        ),
{
}

proof fn lemma_same_surface(state: StateView, surface_id: SurfaceId, surface: SurfaceView)
    requires
        state.target(surface_id) is Some,
        surface.id == (state.target(surface_id)->0).1.id,
    ensures
        same_shape(
            state,
            state.with_surface((state.target(surface_id)->0).0, surface_id, surface),
        ),
{
    sound_states::lemma_located(state.workspaces, surface_id, 0);
    let found = state.located(surface_id)->0;
    state::lemma_workspace_from(state.workspaces, state.workspaces[found].id, 0);
    state::lemma_workspace_found(state.workspaces, found, 0);
    let (at, old) = state.target(surface_id)->0;
    let workspace = state.workspaces[at];
    sound_workspaces::lemma_holder(workspace.panes, surface_id, 0);
    let place = workspace.holder(surface_id)->0;
    let pane = workspace.panes[place];
    sound_workspaces::lemma_surface_from(pane.surfaces, surface_id, 0);
    let tab = pane.surface_at(surface_id)->0;
    assert(old == pane.surfaces[tab]);
    let next = workspace.with_surface(surface_id, surface);
    assert(tab_ids(next.panes[place]) =~= tab_ids(pane));
    lemma_same_but_one(state, at, next);
}

/// Attending to a workspace moves no tab and selects nothing.
pub proof fn lemma_attended_same(
    state: StateView,
    workspace_id: WorkspaceId,
    surface_id: Option<SurfaceId>,
)
    ensures
        same_shape(state, state.attended(workspace_id, surface_id).0),
        same_tabs(state, state.attended(workspace_id, surface_id).0),
{
    let noticed = state.noticed(workspace_id, surface_id);
    assert(same_shape(state, noticed));
    if let Some(id) = surface_id {
        if let Some((at, surface)) = noticed.target(id) {
            lemma_same_surface(noticed, id, surface.attention(false, false));
        }
        let calm = noticed.calmed(id).0;
        assert(same_shape(noticed, calm));
        lemma_shape_twice(state, noticed, calm);
        let count = state.notices(workspace_id, surface_id);
        if let Some((at, surface)) = calm.target(id) {
            lemma_same_surface(
                calm,
                id,
                SurfaceView {
                    flash_count: state_focus::raised(surface.flash_count, count as u64),
                    ..surface
                },
            );
        }
        let flashed = calm.flashed(id, count as u64);
        assert(same_shape(calm, flashed));
        lemma_shape_twice(state, calm, flashed);
    }
    lemma_shape_keeps_tabs(state, state.attended(workspace_id, surface_id).0);
}

/// Putting the focus on a surface moves no tab.
pub proof fn law_focus_moves_no_tab(state: StateView, surface_id: SurfaceId)
    ensures
        same_tabs(state, state.focus_surface(surface_id).0),
{
    sound_states::lemma_located(state.workspaces, surface_id, 0);
    if let Some(at) = state.located(surface_id) {
        let workspace = state.workspaces[at];
        sound_workspaces::lemma_holder(workspace.panes, surface_id, 0);
        let holder = workspace.holder(surface_id)->0;
        workspace::lemma_pane_found(workspace.panes, holder, 0);
        workspace::lemma_pane_from(workspace.panes, workspace.panes[holder].id, 0);
        let focused = workspace.focus_surface(surface_id).0;
        let directory = match focused.surface(surface_id) {
            Some(surface) => surface.current_directory,
            None => None,
        };
        let moved = WorkspaceView {
            current_directory: if directory is Some {
                directory
            } else {
                focused.current_directory
            },
            ..focused
        };
        assert forall|place: int| 0 <= place < workspace.panes.len() implies (
        #[trigger] moved.panes[place]).id == workspace.panes[place].id && tab_ids(
            moved.panes[place],
        ) == tab_ids(workspace.panes[place]) by {
            assert(tab_ids(moved.panes[place]) =~= tab_ids(workspace.panes[place]));
        }
        assert(same_tabs_in(workspace, moved));
        let first = state.with_workspace(at, moved);
        lemma_same_but_one(state, at, moved);
        let shown = first.showing(workspace.window_id, workspace.id).synced_from(
            workspace.window_id,
        );
        assert(shown.workspaces == first.workspaces);
        let placed = shown.in_directory(workspace.id, directory);
        state::lemma_workspace_from(shown.workspaces, workspace.id, 0);
        assert(same_tabs(shown, placed)) by {
            if let (Some(_), Some(there)) = (directory, shown.workspace_at(workspace.id)) {
                lemma_same_but_one(
                    shown,
                    there,
                    WorkspaceView { current_directory: directory, ..shown.workspaces[there] },
                );
            }
        }
        lemma_same_twice(state, shown, placed);
        lemma_attended_same(placed, workspace.id, Some(surface_id));
        let next = placed.attended(workspace.id, Some(surface_id)).0;
        lemma_same_twice(state, placed, next);
    }
}

/// Putting the focus on a surface selects it in its pane, that pane in its workspace, and makes the
/// workspace and its window the current ones. In the other panes and workspaces the same ones stay
/// selected.
pub proof fn law_focused_tab_is_selected(state: StateView, at: int, place: int, tab: int)
    requires
        state.sound(),
        state.one_place(),
        0 <= at < state.workspaces.len(),
        0 <= place < state.workspaces[at].panes.len(),
        0 <= tab < state.workspaces[at].panes[place].surfaces.len(),
    ensures
        ({
            let workspace = state.workspaces[at];
            let pane = workspace.panes[place];
            let (after, result) = state.focus_surface(pane.surfaces[tab].id);
            &&& result == Ok::<_, Seq<char>>((workspace.id, pane.id))
            &&& same_tabs(state, after)
            &&& after.window_id == workspace.window_id
            &&& after.selected_workspace_id == workspace.id
            &&& after.workspaces[at].selected_pane_id == pane.id
            &&& after.workspaces[at].panes[place].selected_surface_id == pane.surfaces[tab].id
            &&& workspace.selected_pane_id != pane.id
                ==> after.workspaces[at].last_selected_pane_id == Some(workspace.selected_pane_id)
            &&& forall|other: int|
                0 <= other < workspace.panes.len() && other != place ==> (
                #[trigger] after.workspaces[at].panes[other]).selected_surface_id
                    == workspace.panes[other].selected_surface_id
            &&& forall|other: int|
                0 <= other < state.workspaces.len() && other != at ==> same_shape_in(
                    state.workspaces[other],
                    #[trigger] after.workspaces[other],
                )
        }),
{
    let workspace = state.workspaces[at];
    assert(workspace.sound());
    let pane = workspace.panes[place];
    let id = pane.surfaces[tab].id;
    lemma_found(state, id, at, place, tab);
    law_focus_moves_no_tab(state, id);
    let focused = workspace.focus_surface(id).0;
    let directory = match focused.surface(id) {
        Some(surface) => surface.current_directory,
        None => None,
    };
    let moved = WorkspaceView {
        current_directory: if directory is Some {
            directory
        } else {
            focused.current_directory
        },
        ..focused
    };
    let first = state.with_workspace(at, moved);
    let shown = first.showing(workspace.window_id, workspace.id).synced_from(workspace.window_id);
    assert(state.window_at(workspace.window_id) is Some);
    assert(sound_states::houses(first.workspaces, workspace.window_id, workspace.id)) by {
        assert(first.workspaces[at].id == workspace.id);
    }
    assert(shown.workspaces == first.workspaces);
    let placed = shown.in_directory(workspace.id, directory);
    state::lemma_workspace_from(shown.workspaces, workspace.id, 0);
    assert(same_shape(shown, placed)) by {
        if let (Some(_), Some(there)) = (directory, shown.workspace_at(workspace.id)) {
            let next = WorkspaceView {
                current_directory: directory,
                ..shown.workspaces[there]
            };
            assert(same_shape_in(shown.workspaces[there], next));
            lemma_same_but_one(shown, there, next);
        }
    }
    lemma_attended_same(placed, workspace.id, Some(id));
    let next = placed.attended(workspace.id, Some(id)).0;
    lemma_shape_twice(shown, placed, next);
    let after = state.focus_surface(id).0;
    assert(after.workspaces == next.workspaces);
    assert(same_shape_in(shown.workspaces[at], next.workspaces[at]));
    sound_workspaces::law_focus_surface_keeps_sound(workspace, id);
    sound_states::lemma_with_workspace(state, at, moved, ids::NIL, ids::NIL);
    sound_states::lemma_showing(first, workspace.window_id, workspace.id);
    assert forall|other: int| 0 <= other < state.workspaces.len() && other != at implies
        same_shape_in(state.workspaces[other], #[trigger] after.workspaces[other]) by {
        assert(shown.workspaces[other] == state.workspaces[other]);
        assert(same_shape_in(shown.workspaces[other], next.workspaces[other]));
    }
}

/// The tabs of a pane other than the one at `here`, in their order.
pub open spec fn other_tabs(
    state: StateView,
    here: (int, int, int),
    at: int,
    place: int,
) -> Seq<SurfaceId> {
    let all = tab_ids(state.workspaces[at].panes[place]);
    if here.0 == at && here.1 == place {
        all.remove(here.2)
    } else {
        all
    }
}

/// Whether a workspace and a pane of this identity hold just these tabs, and there are such.
pub open spec fn holds_tabs(
    state: StateView,
    workspace_id: WorkspaceId,
    pane_id: PaneId,
    tabs: Seq<SurfaceId>,
) -> bool {
    &&& exists|at: int, place: int|
        #![trigger state.workspaces[at].panes[place]]
        0 <= at < state.workspaces.len() && state.workspaces[at].id == workspace_id && 0 <= place
            < state.workspaces[at].panes.len() && state.workspaces[at].panes[place].id == pane_id
    &&& forall|at: int, place: int|
        #![trigger state.workspaces[at].panes[place]]
        0 <= at < state.workspaces.len() && state.workspaces[at].id == workspace_id && 0 <= place
            < state.workspaces[at].panes.len() && state.workspaces[at].panes[place].id == pane_id
            ==> tab_ids(state.workspaces[at].panes[place]) == tabs
}

proof fn lemma_holds_still(
    before: StateView,
    after: StateView,
    workspace_id: WorkspaceId,
    pane_id: PaneId,
    tabs: Seq<SurfaceId>,
)
    requires
        same_tabs(before, after),
        holds_tabs(before, workspace_id, pane_id, tabs),
    ensures
        holds_tabs(after, workspace_id, pane_id, tabs),
{
    let (a, p) = choose|at: int, place: int|
        #![trigger before.workspaces[at].panes[place]]
        0 <= at < before.workspaces.len() && before.workspaces[at].id == workspace_id && 0 <= place
            < before.workspaces[at].panes.len() && before.workspaces[at].panes[place].id == pane_id;
    assert(same_tabs_in(before.workspaces[a], after.workspaces[a]));
    assert(after.workspaces[a].panes[p].id == pane_id);
    assert forall|at: int, place: int|
        #![trigger after.workspaces[at].panes[place]]
        0 <= at < after.workspaces.len() && after.workspaces[at].id == workspace_id && 0 <= place
            < after.workspaces[at].panes.len() && after.workspaces[at].panes[place].id
            == pane_id implies tab_ids(after.workspaces[at].panes[place]) == tabs by {
        assert(same_tabs_in(before.workspaces[at], after.workspaces[at]));
        assert(before.workspaces[at].panes[place].id == pane_id);
    }
}

/// In a sound state, a pane at some place is the only one of its identity.
proof fn lemma_holds_here(
    state: StateView,
    at: int,
    place: int,
    tabs: Seq<SurfaceId>,
)
    requires
        0 <= at < state.workspaces.len(),
        sound_states::distinct_workspaces(state.workspaces),
        sound_workspaces::distinct_panes(state.workspaces[at].panes),
        0 <= place < state.workspaces[at].panes.len(),
        tab_ids(state.workspaces[at].panes[place]) == tabs,
    ensures
        holds_tabs(state, state.workspaces[at].id, state.workspaces[at].panes[place].id, tabs),
{
    let workspace_id = state.workspaces[at].id;
    let pane_id = state.workspaces[at].panes[place].id;
    assert forall|a: int, p: int|
        #![trigger state.workspaces[a].panes[p]]
        0 <= a < state.workspaces.len() && state.workspaces[a].id == workspace_id && 0 <= p
            < state.workspaces[a].panes.len() && state.workspaces[a].panes[p].id
            == pane_id implies tab_ids(state.workspaces[a].panes[p]) == tabs by {
        assert(a == at);
        assert(p == place);
    }
}

/// Whether there is a tab at this place.
pub open spec fn has_tab(state: StateView, here: (int, int, int)) -> bool {
    &&& 0 <= here.0 < state.workspaces.len()
    &&& 0 <= here.1 < state.workspaces[here.0].panes.len()
    &&& 0 <= here.2 < state.workspaces[here.0].panes[here.1].surfaces.len()
}

/// Whether there is a pane at this place.
pub open spec fn has_pane(state: StateView, at: int, place: int) -> bool {
    &&& 0 <= at < state.workspaces.len()
    &&& 0 <= place < state.workspaces[at].panes.len()
}

/// A pane stays as it is when a tab of another pane is taken out.
proof fn lemma_pane_stays(
    state: StateView,
    drawn: Drawn,
    here: (int, int, int),
    at: int,
    place: int,
) -> (found: (int, int))
    requires
        state.sound(),
        state.one_place(),
        state.new_inside(drawn),
        has_tab(state, here),
        has_pane(state, at, place),
        here.0 != at || here.1 != place,
    ensures
        ({
            let id = state.workspaces[here.0].panes[here.1].surfaces[here.2].id;
            let (taken, result) = state.extracted(drawn, here.0, id);
            &&& has_pane(taken, found.0, found.1)
            &&& taken.workspaces[found.0].id == state.workspaces[at].id
            &&& taken.workspaces[found.0].panes[found.1] == state.workspaces[at].panes[place]
            &&& taken.sound()
            &&& result == Ok::<_, Seq<char>>(
                state.workspaces[here.0].panes[here.1].surfaces[here.2],
            )
        }),
{
    let source = state.workspaces[here.0];
    assert(source.sound());
    let id = source.panes[here.1].surfaces[here.2].id;
    lemma_found(state, id, here.0, here.1, here.2);
    sound_surfaces::lemma_extracted(state, drawn, here.0, id);
    let taken = state.extracted(drawn, here.0, id).0;
    if state.lone(here.0) {
        let rest = state.without_workspace(here.0);
        let spot = if at < here.0 {
            at
        } else {
            at - 1
        };
        assert(rest.workspaces[spot] == state.workspaces[at]);
        let filled = rest.bereft(
            drawn,
            source.window_id,
            source.id,
            rest.workspace_ids_in(source.window_id),
            false,
        );
        assert(filled.workspaces[spot] == rest.workspaces[spot]);
        (spot, place)
    } else {
        lemma_taken(
            source,
            here.1,
            here.2,
            "cannot move the last surface"@,
            "no pane remaining after move"@,
        );
        let next = source.remove_surface_for_move(id).0;
        assert(taken.workspaces == state.workspaces.update(here.0, next));
        if at != here.0 {
            (at, place)
        } else if source.panes[here.1].surfaces.len() > 1 {
            assert(next.panes[place] == source.panes[place]);
            (at, place)
        } else {
            let spot = if place < here.1 {
                place
            } else {
                place - 1
            };
            assert(next.panes[spot] == source.panes[place]);
            (at, spot)
        }
    }
}

proof fn lemma_settled_holds(
    state: StateView,
    at: int,
    place: int,
    tab: int,
    tabs: Seq<SurfaceId>,
    focus: bool,
)
    requires
        has_tab(state, (at, place, tab)),
        sound_states::distinct_workspaces(state.workspaces),
        sound_workspaces::distinct_panes(state.workspaces[at].panes),
        tab_ids(state.workspaces[at].panes[place]) == tabs,
    ensures
        ({
            let workspace_id = state.workspaces[at].id;
            let pane_id = state.workspaces[at].panes[place].id;
            let id = state.workspaces[at].panes[place].surfaces[tab].id;
            let (after, result) = state.settled(workspace_id, pane_id, id, focus);
            &&& result is Ok
            &&& result->Ok_0 == (workspace_id, pane_id, id)
            &&& holds_tabs(after, workspace_id, pane_id, tabs)
        }),
{
    let workspace_id = state.workspaces[at].id;
    let pane_id = state.workspaces[at].panes[place].id;
    let id = state.workspaces[at].panes[place].surfaces[tab].id;
    lemma_holds_here(state, at, place, tabs);
    sound_workspaces::lemma_surface_found(state.workspaces[at].panes[place].surfaces, tab, 0);
    lemma_holds(state.workspaces[at].panes, id, place, 0);
    lemma_locates(state.workspaces, id, at, 0);
    law_focus_moves_no_tab(state, id);
    let after = state.settled(workspace_id, pane_id, id, focus).0;
    assert(same_tabs(state, state));
    assert(same_tabs(state, after));
    lemma_holds_still(state, after, workspace_id, pane_id, tabs);
}

/// A tab that is moved to a place in a pane stands at that place among the other tabs of the pane,
/// or behind them where there are fewer; the others keep their order.
pub proof fn law_moved_tab_is_in_place(
    state: StateView,
    drawn: Drawn,
    here: (int, int, int),
    at: int,
    place: int,
    index: int,
    focus: bool,
)
    requires
        state.sound(),
        state.one_place(),
        state.new_inside(drawn),
        has_tab(state, here),
        has_pane(state, at, place),
        index >= 0,
    ensures
        ({
            let id = state.workspaces[here.0].panes[here.1].surfaces[here.2].id;
            let workspace_id = state.workspaces[at].id;
            let pane_id = state.workspaces[at].panes[place].id;
            let rest = other_tabs(state, here, at, place);
            let spot = if index < rest.len() {
                index
            } else {
                rest.len() as int
            };
            let (after, result) = state.move_surface(
                drawn,
                id,
                workspace_id,
                pane_id,
                index,
                focus,
            );
            &&& result == Ok::<_, Seq<char>>((workspace_id, pane_id, id))
            &&& holds_tabs(after, workspace_id, pane_id, rest.insert(spot, id))
        }),
{
    let source = state.workspaces[here.0];
    let moved = source.panes[here.1].surfaces[here.2];
    let id = moved.id;
    let home = state.workspaces[at];
    assert(source.sound() && home.sound());
    lemma_found(state, id, here.0, here.1, here.2);
    sound_states::lemma_workspace_place(state.workspaces, at, 0);
    sound_workspaces::lemma_pane_place(home.panes, place);
    let rest = other_tabs(state, here, at, place);
    let spot = if index < rest.len() {
        index
    } else {
        rest.len() as int
    };
    let tabs = rest.insert(spot, id);
    if here.0 == at && here.1 == place {
        let pane = home.panes[place];
        let next = home.reorder_surface(id, index).0;
        let left = pane.surfaces.remove(here.2);
        assert(next.panes[place].surfaces == left.insert(spot, moved));
        assert(tab_ids(next.panes[place]) =~= tabs);
        let changed = state.with_workspace(at, next);
        assert(changed.workspaces[at].panes[place].surfaces[spot].id == id);
        lemma_settled_holds(changed, at, place, spot, tabs, focus);
    } else {
        if source.id == home.id {
            assert(here.0 == at);
            if source.panes[here.1].id == home.panes[place].id {
                assert(here.1 == place);
            }
        }
        let (a, p) = lemma_pane_stays(state, drawn, here, at, place);
        let taken = state.extracted(drawn, here.0, id).0;
        assert(taken.workspaces[a].sound());
        sound_states::lemma_workspace_place(taken.workspaces, a, 0);
        sound_workspaces::lemma_pane_place(taken.workspaces[a].panes, p);
        let pane = home.panes[place];
        let next = taken.workspaces[a].insert_surface(pane.id, moved, index, focus).0;
        assert(next.panes[p].surfaces == pane.surfaces.insert(spot, moved));
        assert(tab_ids(next.panes[p]) =~= tabs);
        let changed = taken.with_workspace(a, next);
        assert(changed.workspaces[a].panes[p].surfaces[spot].id == id);
        assert(next.panes[p].id == pane.id);
        lemma_settled_holds(changed, a, p, spot, tabs, focus);
    }
}

/// A tab that is moved and gets the focus is the one on screen. One that only changes its place
/// leaves its pane, its workspace and the focus as they were.
pub proof fn law_moved_tab_has_the_focus(
    state: StateView,
    drawn: Drawn,
    here: (int, int, int),
    at: int,
    place: int,
    index: int,
)
    requires
        state.sound(),
        state.one_place(),
        state.new_inside(drawn),
        has_tab(state, here),
        has_pane(state, at, place),
        index >= 0,
    ensures
        ({
            let id = state.workspaces[here.0].panes[here.1].surfaces[here.2].id;
            let home = state.workspaces[at];
            let pane_id = home.panes[place].id;
            let seen = state.move_surface(drawn, id, home.id, pane_id, index, true).0;
            let kept = state.move_surface(drawn, id, home.id, pane_id, index, false).0;
            &&& seen.current_surface_id() == Some(id)
            &&& here.0 == at && here.1 == place ==> {
                &&& kept.windows == state.windows
                &&& kept.window_id == state.window_id
                &&& kept.selected_workspace_id == state.selected_workspace_id
                &&& kept.workspaces.len() == state.workspaces.len()
                &&& forall|k: int|
                    0 <= k < state.workspaces.len() && k != at ==> #[trigger] kept.workspaces[k]
                        == state.workspaces[k]
                &&& kept.workspaces[at].selected_pane_id == home.selected_pane_id
                &&& kept.workspaces[at].layout == home.layout
                &&& kept.workspaces[at].panes[place].selected_surface_id
                    == home.panes[place].selected_surface_id
            }
        }),
{
    let source = state.workspaces[here.0];
    let moved = source.panes[here.1].surfaces[here.2];
    let id = moved.id;
    let home = state.workspaces[at];
    let pane = home.panes[place];
    assert(source.sound() && home.sound());
    lemma_found(state, id, here.0, here.1, here.2);
    sound_states::lemma_workspace_place(state.workspaces, at, 0);
    sound_workspaces::lemma_pane_place(home.panes, place);
    if here.0 == at && here.1 == place {
        sound_workspaces::law_reorder_surface_keeps_sound(home, id, index);
        let next = home.reorder_surface(id, index).0;
        let spot = if index < pane.surfaces.len() - 1 {
            index
        } else {
            pane.surfaces.len() - 1
        };
        assert(next.panes[place].surfaces == pane.surfaces.remove(here.2).insert(spot, moved));
        let changed = state.with_workspace(at, next);
        sound_states::lemma_with_workspace(state, at, next, NIL, NIL);
        lemma_focus_rests(changed, at, place, spot);
    } else {
        if source.id == home.id {
            assert(here.0 == at);
            if source.panes[here.1].id == pane.id {
                assert(here.1 == place);
            }
        }
        let (a, p) = lemma_pane_stays(state, drawn, here, at, place);
        sound_surfaces::lemma_extracted(state, drawn, here.0, id);
        let taken = state.extracted(drawn, here.0, id).0;
        let refuge = taken.workspaces[a];
        assert(refuge.sound());
        sound_states::lemma_workspace_place(taken.workspaces, a, 0);
        sound_workspaces::lemma_pane_place(refuge.panes, p);
        sound_workspaces::law_insert_surface_keeps_sound(refuge, pane.id, moved, index, true);
        let next = refuge.insert_surface(pane.id, moved, index, true).0;
        let spot = if index < pane.surfaces.len() {
            index
        } else {
            pane.surfaces.len() as int
        };
        assert(next.panes[p].surfaces == pane.surfaces.insert(spot, moved));
        let changed = taken.with_workspace(a, next);
        sound_states::lemma_with_workspace(taken, a, next, NIL, NIL);
        lemma_focus_rests(changed, a, p, spot);
    }
}

proof fn lemma_focus_rests(state: StateView, at: int, place: int, tab: int)
    requires
        state.sound(),
        has_tab(state, (at, place, tab)),
    ensures
        ({
            let id = state.workspaces[at].panes[place].surfaces[tab].id;
            state.focus_surface(id).0.current_surface_id() == Some(id)
        }),
{
    let id = state.workspaces[at].panes[place].surfaces[tab].id;
    sound_workspaces::lemma_surface_found(state.workspaces[at].panes[place].surfaces, tab, 0);
    lemma_holds(state.workspaces[at].panes, id, place, 0);
    lemma_locates(state.workspaces, id, at, 0);
    laws_focus::law_focused_rests(state, id);
}

// ---------------------------------------------------------------------------
// Asking for a place
// ---------------------------------------------------------------------------

/// Whether a place among others is the one that a request asks for: by its number, or at the end
/// where there are fewer; directly before or directly after `beside`, where that is what the
/// request names; and at the end where it asks for none.
pub open spec fn asked_for(
    model: ModelView,
    params: ParamsView,
    kind: HandleKind,
    before_key: Seq<char>,
    after_key: Seq<char>,
    rest: Seq<u128>,
    beside: u128,
    spot: int,
) -> bool {
    &&& 0 <= spot <= rest.len()
    &&& match params::number(params, "index"@) {
        Ok(Some(index)) => spot == (if index < rest.len() {
            index as int
        } else {
            rest.len() as int
        }),
        _ => true,
    }
    &&& names(model, params, kind, before_key, beside) ==> spot < rest.len() && rest[spot] == beside
    &&& names(model, params, kind, after_key, beside) ==> spot > 0 && rest[spot - 1] == beside
    &&& params::number(params, "index"@) == Ok::<Option<usize>, ErrorView>(None)
        && params::word(params, before_key) is None && params::word(params, after_key) is None
        ==> spot == rest.len()
}

/// Whether a request asks for a place in just one way, and the place can be found.
pub open spec fn asks_once(
    model: ModelView,
    params: ParamsView,
    kind: HandleKind,
    before_key: Seq<char>,
    after_key: Seq<char>,
    rest: Seq<u128>,
    beside: u128,
) -> bool {
    let number = params::number(params, "index"@);
    let before = params::word(params, before_key);
    let after = params::word(params, after_key);
    ||| number is Ok && number->Ok_0 is Some && before is None && after is None
    ||| number == Ok::<Option<usize>, ErrorView>(None) && names(
        model,
        params,
        kind,
        before_key,
        beside,
    ) && after is None && rest.contains(beside)
    ||| number == Ok::<Option<usize>, ErrorView>(None) && before is None && names(
        model,
        params,
        kind,
        after_key,
        beside,
    ) && rest.contains(beside)
}

proof fn lemma_place_found(list: Seq<u128>, id: u128, from: int)
    requires
        0 <= from,
    ensures
        match state_focus::place_from(list, id, from) {
            Some(at) => from <= at < list.len() && list[at] == id,
            None => forall|k: int| from <= k < list.len() ==> #[trigger] list[k] != id,
        },
    decreases list.len() - from,
{
    if from < list.len() && list[from] != id {
        lemma_place_found(list, id, from + 1);
    }
}

/// A parameter that names an object is there.
pub proof fn lemma_names_here(
    model: ModelView,
    params: ParamsView,
    kind: HandleKind,
    key: Seq<char>,
    id: u128,
)
    requires
        names(model, params, kind, key, id),
    ensures
        params::word(params, key) is Some,
{
    reveal(ModelView::only_names);
    laws_names::lemma_keeps_itself(model.handles);
    assert(model.only_names(model));
}

proof fn lemma_later(first: ModelView, second: ModelView, third: ModelView)
    requires
        second.only_names(first),
        third.only_names(second),
    ensures
        third.only_names(first),
{
    reveal(ModelView::only_names);
    laws_names::lemma_keeps_twice(first.handles, second.handles, third.handles);
}

/// The place that is found is the one that is asked for.
pub proof fn lemma_asked(
    model: ModelView,
    now: ModelView,
    params: ParamsView,
    list: Seq<u128>,
    kind: HandleKind,
    before_key: Seq<char>,
    after_key: Seq<char>,
    beside: u128,
)
    requires
        now.only_names(model),
    ensures
        match params::asked_place(now, params, list, kind, before_key, after_key).1 {
            Ok(asked) => {
                &&& 0 <= asked.place <= list.len()
                &&& 0 <= asked.ways
                &&& asked.ways <= 1 ==> asked_for(
                    model,
                    params,
                    kind,
                    before_key,
                    after_key,
                    list,
                    beside,
                    asked.place,
                )
                &&& asked.ways == 0 ==> asked.place == list.len()
                &&& asks_once(model, params, kind, before_key, after_key, list, beside)
                    ==> asked.ways == 1
            },
            Err(_) => !asks_once(model, params, kind, before_key, after_key, list, beside),
        },
{
    if names(model, params, kind, before_key, beside) {
        lemma_names_here(model, params, kind, before_key, beside);
    }
    if names(model, params, kind, after_key, beside) {
        lemma_names_here(model, params, kind, after_key, beside);
    }
    lemma_place_found(list, beside, 0);
    if let Ok(first) = params::numbered_place(params, list) {
        laws_requests::lemma_required(now, params, kind, before_key);
        let (second_model, found) = params::optional(now, params, kind, before_key);
        if let Ok(Some(id)) = found {
            lemma_place_found(list, id, 0);
        }
        lemma_later(model, now, second_model);
        let (next, result) = params::place_beside(
            now,
            params,
            list,
            kind,
            before_key,
            0,
            first,
        );
        assert(next == second_model);
        if let Ok(second) = result {
            let (_, last) = params::optional(next, params, kind, after_key);
            if let Ok(Some(id)) = last {
                lemma_place_found(list, id, 0);
            }
        }
    }
}

proof fn lemma_others_absent(list: Seq<u128>, id: u128, count: int)
    requires
        0 <= count <= list.len(),
        forall|k: int| 0 <= k < count ==> #[trigger] list[k] != id,
    ensures
        state_windows::others(list, id, count) == list.take(count),
    decreases count,
{
    if count > 0 {
        lemma_others_absent(list, id, count - 1);
        assert(list.take(count - 1).push(list[count - 1]) =~= list.take(count));
    } else {
        assert(list.take(0) =~= Seq::empty());
    }
}

/// Where an identifier occurs once, the others are the rest.
pub proof fn lemma_others_removed(list: Seq<u128>, at: int, count: int)
    requires
        0 <= at < count <= list.len(),
        forall|k: int| 0 <= k < list.len() && k != at ==> #[trigger] list[k] != list[at],
    ensures
        state_windows::others(list, list[at], count) == list.take(count).remove(at),
    decreases count,
{
    if count == at + 1 {
        lemma_others_absent(list, list[at], at);
        assert(list.take(count).remove(at) =~= list.take(at));
    } else {
        lemma_others_removed(list, at, count - 1);
        assert(list[count - 1] != list[at]);
        assert(list.take(count - 1).remove(at).push(list[count - 1]) =~= list.take(count).remove(
            at,
        ));
    }
}

/// Whether a pane is in no other workspace.
pub open spec fn only_here(state: StateView, at: int, place: int) -> bool {
    forall|a: int, p: int|
        #![trigger state.workspaces[a].panes[p]]
        has_pane(state, a, p) && state.workspaces[a].panes[p].id
            == state.workspaces[at].panes[place].id ==> a == at
}

/// A pane that is in no other workspace is found in its own.
pub proof fn lemma_owned(state: StateView, at: int, place: int)
    requires
        state.structured(),
        has_pane(state, at, place),
        only_here(state, at, place),
    ensures
        state.owner(state.workspaces[at].panes[place].id) == Some(at),
        state.owned_pane(state.workspaces[at].panes[place].id) == Some(
            state.workspaces[at].panes[place],
        ),
        state.owner_id(state.workspaces[at].panes[place].id) == Some(state.workspaces[at].id),
{
    let pane_id = state.workspaces[at].panes[place].id;
    assert(state.workspaces[at].sound());
    sound_workspaces::lemma_pane_place(state.workspaces[at].panes, place);
    lemma_owner_found(state.workspaces, pane_id, at, 0);
    sound_states::lemma_owner(state.workspaces, pane_id, 0);
    let found = state.owner(pane_id)->0;
    workspace::lemma_pane_from(state.workspaces[found].panes, pane_id, 0);
    let p = state.workspaces[found].pane_at(pane_id)->0;
    assert(state.workspaces[found].panes[p].id == pane_id);
}

proof fn lemma_owner_found(list: Seq<WorkspaceView>, id: PaneId, at: int, from: int)
    requires
        0 <= from <= at < list.len(),
        list[at].pane_at(id) is Some,
    ensures
        state::owner_from(list, id, from) is Some,
    decreases at - from,
{
    if list[from].pane_at(id) is None {
        lemma_owner_found(list, id, at, from + 1);
    }
}

proof fn lemma_placed(
    model: ModelView,
    now: ModelView,
    drawn: Drawn,
    params: ParamsView,
    here: (int, int, int),
    at: int,
    place: int,
    beside: SurfaceId,
    focus: bool,
)
    requires
        now.only_names(model),
        model.state.sound(),
        model.state.one_place(),
        model.state.new_inside(drawn),
        has_tab(model.state, here),
        has_pane(model.state, at, place),
        only_here(model.state, at, place),
    ensures
        ({
            let id = model.state.workspaces[here.0].panes[here.1].surfaces[here.2].id;
            let workspace_id = model.state.workspaces[at].id;
            let pane_id = model.state.workspaces[at].panes[place].id;
            let rest = other_tabs(model.state, here, at, place);
            let (after, result) = now.placed(drawn, id, workspace_id, pane_id, params, focus);
            &&& result is Ok ==> exists|spot: int|
                asked_for(
                    model,
                    params,
                    HandleKind::Surface,
                    "before_surface_id"@,
                    "after_surface_id"@,
                    rest,
                    beside,
                    spot,
                ) && holds_tabs(
                    after.state,
                    workspace_id,
                    pane_id,
                    #[trigger] rest.insert(spot, id),
                )
            &&& asks_once(
                model,
                params,
                HandleKind::Surface,
                "before_surface_id"@,
                "after_surface_id"@,
                rest,
                beside,
            ) ==> result is Ok
        }),
{
    reveal(ModelView::only_names);
    let state = model.state;
    assert(now.state == state);
    let id = state.workspaces[here.0].panes[here.1].surfaces[here.2].id;
    let workspace_id = state.workspaces[at].id;
    let pane = state.workspaces[at].panes[place];
    let rest = other_tabs(state, here, at, place);
    lemma_owned(state, at, place);
    let all = params::surface_ids(pane);
    assert(all =~= tab_ids(pane));
    assert(state_windows::others(all, id, all.len() as int) == rest) by {
        assert forall|k: int|
            0 <= k < all.len() && !(here == (at, place, k)) implies #[trigger] all[k] != id by {
            if all[k] == id {
                law_one_place_is_one(state, here, (at, place, k));
            }
        }
        assert(all.take(all.len() as int) =~= all);
        if here.0 == at && here.1 == place {
            assert(all[here.2] == id);
            lemma_others_removed(all, here.2, all.len() as int);
        } else {
            lemma_others_absent(all, id, all.len() as int);
        }
    }
    lemma_asked(
        model,
        now,
        params,
        rest,
        HandleKind::Surface,
        "before_surface_id"@,
        "after_surface_id"@,
        beside,
    );
    let (next, found) = params::surface_place(now, id, pane.id, params);
    laws_requests::lemma_places(now, params, workspace_id, 0, id, pane.id);
    if let Ok(index) = found {
        law_moved_tab_is_in_place(state, drawn, here, at, place, index, focus);
        let (changed, result) = next.state.move_surface(
            drawn,
            id,
            workspace_id,
            pane.id,
            index,
            focus,
        );
        laws_requests::lemma_told(
            next.with_state(changed),
            workspace_id,
            Some(pane.id),
            Some(id),
        );
        assert(rest.insert(index, id) == rest.insert(index, id));
        let (a, p) = choose|a: int, p: int|
            #![trigger changed.workspaces[a].panes[p]]
            0 <= a < changed.workspaces.len() && changed.workspaces[a].id == workspace_id && 0 <= p
                < changed.workspaces[a].panes.len() && changed.workspaces[a].panes[p].id == pane.id;
        state::lemma_workspace_found(changed.workspaces, a, 0);
    }
}

/// A request that reorders a tab puts it at the place that it asks for among the other tabs of its
/// pane: at a number, directly before another tab or directly after it. The others keep their
/// order. It succeeds where the request asks for a place in just one way.
pub proof fn law_request_reorders_the_tab(
    model: ModelView,
    drawn: Drawn,
    params: ParamsView,
    here: (int, int, int),
    beside: SurfaceId,
)
    requires
        model.state.sound(),
        model.state.one_place(),
        model.state.new_inside(drawn),
        has_tab(model.state, here),
        only_here(model.state, here.0, here.1),
        names(
            model,
            params,
            HandleKind::Surface,
            "surface_id"@,
            model.state.workspaces[here.0].panes[here.1].surfaces[here.2].id,
        ),
    ensures
        ({
            let workspace = model.state.workspaces[here.0];
            let pane = workspace.panes[here.1];
            let rest = tab_ids(pane).remove(here.2);
            let (after, result) = model.surface_reorder(drawn, params);
            &&& result is Ok ==> exists|spot: int|
                asked_for(
                    model,
                    params,
                    HandleKind::Surface,
                    "before_surface_id"@,
                    "after_surface_id"@,
                    rest,
                    beside,
                    spot,
                ) && holds_tabs(
                    after.state,
                    workspace.id,
                    pane.id,
                    #[trigger] rest.insert(spot, pane.surfaces[here.2].id),
                )
            &&& asks_once(
                model,
                params,
                HandleKind::Surface,
                "before_surface_id"@,
                "after_surface_id"@,
                rest,
                beside,
            ) ==> result is Ok
        }),
{
    reveal(ModelView::only_names);
    laws_names::lemma_keeps_itself(model.handles);
    assert(model.only_names(model));
    let id = model.state.workspaces[here.0].panes[here.1].surfaces[here.2].id;
    laws_requests::lemma_required(model, params, HandleKind::Surface, "surface_id"@);
    let (now, _) = params::required(model, params, HandleKind::Surface, "surface_id"@);
    lemma_found(model.state, id, here.0, here.1, here.2);
    lemma_placed(model, now, drawn, params, here, here.0, here.1, beside, false);
}

/// A request that moves a tab to a pane puts it at the place that it asks for among the other tabs
/// of that pane, whichever pane, workspace or window it comes from.
pub proof fn law_request_moves_the_tab(
    model: ModelView,
    drawn: Drawn,
    params: ParamsView,
    here: (int, int, int),
    at: int,
    place: int,
    beside: SurfaceId,
)
    requires
        model.state.sound(),
        model.state.one_place(),
        model.state.new_inside(drawn),
        has_tab(model.state, here),
        has_pane(model.state, at, place),
        only_here(model.state, at, place),
        names(
            model,
            params,
            HandleKind::Surface,
            "surface_id"@,
            model.state.workspaces[here.0].panes[here.1].surfaces[here.2].id,
        ),
        names(
            model,
            params,
            HandleKind::Pane,
            "pane_id"@,
            model.state.workspaces[at].panes[place].id,
        ),
    ensures
        ({
            let id = model.state.workspaces[here.0].panes[here.1].surfaces[here.2].id;
            let workspace_id = model.state.workspaces[at].id;
            let pane_id = model.state.workspaces[at].panes[place].id;
            let rest = other_tabs(model.state, here, at, place);
            let (after, result) = model.surface_move(drawn, params);
            &&& result is Ok ==> exists|spot: int|
                asked_for(
                    model,
                    params,
                    HandleKind::Surface,
                    "before_surface_id"@,
                    "after_surface_id"@,
                    rest,
                    beside,
                    spot,
                ) && holds_tabs(
                    after.state,
                    workspace_id,
                    pane_id,
                    #[trigger] rest.insert(spot, id),
                )
            &&& asks_once(
                model,
                params,
                HandleKind::Surface,
                "before_surface_id"@,
                "after_surface_id"@,
                rest,
                beside,
            ) ==> result is Ok
        }),
{
    reveal(ModelView::only_names);
    laws_names::lemma_keeps_itself(model.handles);
    assert(model.only_names(model));
    let id = model.state.workspaces[here.0].panes[here.1].surfaces[here.2].id;
    laws_requests::lemma_required(model, params, HandleKind::Surface, "surface_id"@);
    let (first, _) = params::required(model, params, HandleKind::Surface, "surface_id"@);
    lemma_found(model.state, id, here.0, here.1, here.2);
    lemma_owned(model.state, at, place);
    lemma_names_here(
        model,
        params,
        HandleKind::Pane,
        "pane_id"@,
        model.state.workspaces[at].panes[place].id,
    );
    laws_requests::lemma_required(first, params, HandleKind::Pane, "pane_id"@);
    let (second, _) = params::required(first, params, HandleKind::Pane, "pane_id"@);
    lemma_later(model, first, second);
    laws_requests::lemma_required(second, params, HandleKind::Pane, "pane_id"@);
    let (third, _) = params::required(second, params, HandleKind::Pane, "pane_id"@);
    lemma_later(model, second, third);
    lemma_placed(
        model,
        third,
        drawn,
        params,
        here,
        at,
        place,
        beside,
        params::flag(params, "focus"@, true),
    );
}

} // verus!
