//! What a request is about, and how its numbers are read.

use crate::ids;
use crate::json;
use crate::json::{Number, ValueView};
use crate::laws_names;
use crate::laws_requests;
use crate::laws_tabs;
use crate::model::ModelView;
use crate::params;
use crate::params::ParamsView;
use crate::registry::HandleKind;
use crate::reply::ErrorView;
use crate::sound_states;
use crate::sound_workspaces;
use crate::state;
use crate::text;
use vstd::prelude::*;

verus! {

/// A request is about the window that it names, or else about the current one.
pub proof fn law_window_is_found(model: ModelView, params: ParamsView, window: int)
    requires
        model.state.sound(),
        0 <= window < model.state.windows.len(),
    ensures
        laws_tabs::names(
            model,
            params,
            HandleKind::Window,
            "window_id"@,
            model.state.windows[window].id,
        ) ==> params::window_target(model, params).1 == Ok::<_, ErrorView>(
            model.state.windows[window].id,
        ),
        params::word(params, "window_id"@) is None && model.state.windows[window].id
            == model.state.window_id ==> params::window_target(model, params).1 == Ok::<
            _,
            ErrorView,
        >(model.state.window_id),
        params::window_target(model, params).0.state == model.state,
{
    reveal(ModelView::only_names);
    laws_names::lemma_keeps_itself(model.handles);
    assert(model.only_names(model));
    laws_requests::lemma_targets(model, params);
    sound_states::lemma_window_place(model.state.windows, window, 0);
    assert(model.state.windows[window].id != ids::NIL);
    let id = model.state.windows[window].id;
    if laws_tabs::names(model, params, HandleKind::Window, "window_id"@, id) {
        laws_tabs::lemma_names_here(model, params, HandleKind::Window, "window_id"@, id);
        laws_requests::lemma_required(model, params, HandleKind::Window, "window_id"@);
    }
}

/// A request is about the workspace that it names, or else about the one that its window shows.
pub proof fn law_workspace_is_found(model: ModelView, params: ParamsView, window: int, at: int)
    requires
        model.state.sound(),
        0 <= window < model.state.windows.len(),
        0 <= at < model.state.workspaces.len(),
    ensures
        laws_tabs::names(
            model,
            params,
            HandleKind::Workspace,
            "workspace_id"@,
            model.state.workspaces[at].id,
        ) ==> params::workspace_target(model, params).1 == Ok::<_, ErrorView>(
            model.state.workspaces[at].id,
        ),
        params::word(params, "workspace_id"@) is None && laws_tabs::names(
            model,
            params,
            HandleKind::Window,
            "window_id"@,
            model.state.windows[window].id,
        ) && model.state.windows[window].selected_workspace_id == model.state.workspaces[at].id
            ==> params::workspace_target(model, params).1 == Ok::<_, ErrorView>(
            model.state.workspaces[at].id,
        ),
        params::word(params, "workspace_id"@) is None && params::word(params, "window_id"@) is None
            && model.state.selected_workspace_id == model.state.workspaces[at].id
            ==> params::workspace_target(model, params).1 == Ok::<_, ErrorView>(
            model.state.workspaces[at].id,
        ),
        params::workspace_target(model, params).0.state == model.state,
{
    reveal(ModelView::only_names);
    laws_names::lemma_keeps_itself(model.handles);
    assert(model.only_names(model));
    laws_requests::lemma_targets(model, params);
    law_window_is_found(model, params, window);
    sound_states::lemma_window_place(model.state.windows, window, 0);
    sound_states::lemma_workspace_place(model.state.workspaces, at, 0);
    assert(model.state.workspaces[at].id != ids::NIL);
    let id = model.state.workspaces[at].id;
    if laws_tabs::names(model, params, HandleKind::Workspace, "workspace_id"@, id) {
        laws_tabs::lemma_names_here(model, params, HandleKind::Workspace, "workspace_id"@, id);
        laws_requests::lemma_required(model, params, HandleKind::Workspace, "workspace_id"@);
    }
    state::lemma_window_from(model.state.windows, model.state.window_id, 0);
    let current = model.state.window_at(model.state.window_id)->0;
    law_window_is_found(model, params, current);
}

/// A request is about the surface that it names, or else about the selected tab of the selected
/// pane of its workspace.
pub proof fn law_surface_is_found(
    model: ModelView,
    params: ParamsView,
    at: int,
    place: int,
    tab: int,
)
    requires
        model.state.sound(),
        laws_tabs::has_tab(model.state, (at, place, tab)),
    ensures
        ({
            let workspace = model.state.workspaces[at];
            let pane = workspace.panes[place];
            let id = pane.surfaces[tab].id;
            let found = params::surface_target(model, params).1;
            &&& laws_tabs::names(model, params, HandleKind::Surface, "surface_id"@, id) ==> found
                == Ok::<_, ErrorView>(id)
            &&& params::word(params, "surface_id"@) is None && params::workspace_target(
                model,
                params,
            ).1 == Ok::<_, ErrorView>(workspace.id) && workspace.selected_pane_id == pane.id
                && pane.selected_surface_id == id ==> found == Ok::<_, ErrorView>(id)
            &&& params::surface_target(model, params).0.state == model.state
        }),
{
    reveal(ModelView::only_names);
    laws_names::lemma_keeps_itself(model.handles);
    assert(model.only_names(model));
    laws_requests::lemma_targets(model, params);
    let workspace = model.state.workspaces[at];
    assert(workspace.sound());
    let pane = workspace.panes[place];
    let id = pane.surfaces[tab].id;
    sound_states::lemma_workspace_place(model.state.workspaces, at, 0);
    sound_workspaces::lemma_pane_place(workspace.panes, place);
    if laws_tabs::names(model, params, HandleKind::Surface, "surface_id"@, id) {
        laws_tabs::lemma_names_here(model, params, HandleKind::Surface, "surface_id"@, id);
        laws_requests::lemma_required(model, params, HandleKind::Surface, "surface_id"@);
    }
}

// ---------------------------------------------------------------------------
// Numbers
// ---------------------------------------------------------------------------

/// A number that is written in decimal is read as that number, also with a plus sign before it; and
/// so is one that is given as a number.
pub proof fn law_written_number_is_read(params: ParamsView, key: Seq<char>, number: usize)
    ensures
        json::entry(params, key) == Some(ValueView::Text(text::decimal(number as nat)))
            ==> params::number(params, key) == Ok::<_, ErrorView>(Some(number)),
        json::entry(params, key) == Some(ValueView::Number(Number::Unsigned(number as u64)))
            ==> params::number(params, key) == Ok::<_, ErrorView>(Some(number)),
        params::parsed_number(text::decimal(number as nat)) == Some(number),
        params::parsed_number(seq!['+'] + text::decimal(number as nat)) == Some(number),
{
    let written = text::decimal(number as nat);
    lemma_digits(number as nat);
    lemma_some_digit(number as nat);
    assert(text::trimmed(written) =~= written);
    let signed = seq!['+'] + written;
    assert(signed.skip(1) =~= written);
}

proof fn lemma_some_digit(number: nat)
    ensures
        text::decimal(number).len() > 0,
        forall|k: int|
            0 <= k < text::decimal(number).len() ==> '0' <= #[trigger] text::decimal(number)[k]
                <= '9',
    decreases number,
{
    if number >= 10 {
        lemma_some_digit(number / 10);
    }
}

proof fn lemma_digits(number: nat)
    ensures
        params::digits_value(text::decimal(number), text::decimal(number).len() as int) == Some(
            number,
        ),
    decreases number,
{
    let written = text::decimal(number);
    lemma_some_digit(number);
    reveal_with_fuel(params::digits_value, 2);
    if number >= 10 {
        let shorter = text::decimal(number / 10);
        lemma_digits(number / 10);
        assert(written.drop_last() =~= shorter);
        lemma_same_digits(written, shorter, shorter.len() as int);
    }
}

proof fn lemma_same_digits(longer: Seq<char>, shorter: Seq<char>, count: int)
    requires
        0 <= count <= shorter.len() <= longer.len(),
        longer.take(shorter.len() as int) == shorter,
    ensures
        params::digits_value(longer, count) == params::digits_value(shorter, count),
    decreases count,
{
    if count > 0 {
        lemma_same_digits(longer, shorter, count - 1);
        assert(longer.take(shorter.len() as int)[count - 1] == longer[count - 1]);
    }
}

} // verus!
