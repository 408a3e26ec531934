//! What the rows of the palette do.

use crate::actions::AppAction;
use crate::answer_palette;
use crate::ids;
use crate::ids::{Drawn, WindowId};
use crate::json;
use crate::json::ValueView;
use crate::laws_directions;
use crate::laws_names;
use crate::laws_panes;
use crate::laws_requests;
use crate::laws_tabs;
use crate::laws_workspaces;
use crate::layout::FocusDirection;
use crate::model::ModelView;
use crate::palette_rows;
use crate::palette_rows::PaletteRowView;
use crate::params;
use crate::registry::HandleKind;
use crate::sound_states;
use crate::sound_workspaces;
use crate::text;
use vstd::prelude::*;

verus! {

// ---------------------------------------------------------------------------
// Words
// ---------------------------------------------------------------------------

/// The commands differ.
proof fn lemma_commands()
    ensures
        "palette.newWindow"@.len() == 17,
        "palette.newWindow"@[8] == 'n',
        "palette.closeWindow"@.len() == 19,
        "palette.closeWindow"@[8] == 'c',
        "palette.renameTab"@.len() == 17,
        "palette.renameTab"@[8] == 'r',
        "palette.renameWorkspace"@.len() == 23,
        "palette.renameWorkspace"@[8] == 'r',
        "palette.terminalOpenDirectory"@.len() == 29,
        "palette.terminalOpenDirectory"@[8] == 't',
        "palette.newWorkspace"@.len() == 20,
        "palette.newWorkspace"@[8] == 'n',
        "palette.nextWorkspace"@.len() == 21,
        "palette.nextWorkspace"@[8] == 'n',
        "palette.previousWorkspace"@.len() == 25,
        "palette.previousWorkspace"@[8] == 'p',
        "palette.splitRight"@.len() == 18,
        "palette.splitRight"@[8] == 's',
        "palette.splitDown"@.len() == 17,
        "palette.splitDown"@[8] == 's',
        "palette.newTerminal"@.len() == 19,
        "palette.newTerminal"@[8] == 'n',
        "palette.closeTab"@.len() == 16,
        "palette.closeTab"@[8] == 'c',
        "palette.clearTerminalHistory"@.len() == 28,
        "palette.clearTerminalHistory"@[8] == 'c',
        "palette.focusLastPane"@.len() == 21,
        "palette.focusLastPane"@[8] == 'f',
        "palette.newWindow"@[0] == 'p',
        "palette.closeWindow"@[0] == 'p',
        "palette.renameTab"@[0] == 'p',
        "palette.renameWorkspace"@[0] == 'p',
        "palette.terminalOpenDirectory"@[0] == 'p',
        "palette.newWorkspace"@[0] == 'p',
        "palette.nextWorkspace"@[0] == 'p',
        "palette.previousWorkspace"@[0] == 'p',
        "palette.splitRight"@[0] == 'p',
        "palette.splitDown"@[0] == 'p',
        "palette.newTerminal"@[0] == 'p',
        "palette.closeTab"@[0] == 'p',
        "palette.clearTerminalHistory"@[0] == 'p',
        "palette.focusLastPane"@[0] == 'p',
{
    reveal_strlit("palette.newWindow");
    reveal_strlit("palette.closeWindow");
    reveal_strlit("palette.renameTab");
    reveal_strlit("palette.renameWorkspace");
    reveal_strlit("palette.terminalOpenDirectory");
    reveal_strlit("palette.newWorkspace");
    reveal_strlit("palette.nextWorkspace");
    reveal_strlit("palette.previousWorkspace");
    reveal_strlit("palette.splitRight");
    reveal_strlit("palette.splitDown");
    reveal_strlit("palette.newTerminal");
    reveal_strlit("palette.closeTab");
    reveal_strlit("palette.clearTerminalHistory");
    reveal_strlit("palette.focusLastPane");
}

/// The keys of parameters differ.
proof fn lemma_keys()
    ensures
        "surface_id"@.len() == 10,
        "direction"@.len() == 9,
        "workspace_id"@.len() == 12,
        "window_id"@.len() == 9,
        "pane_id"@.len() == 7,
        "type"@.len() == 4,
        "cwd"@.len() == 3,
{
    reveal_strlit("surface_id");
    reveal_strlit("direction");
    reveal_strlit("workspace_id");
    reveal_strlit("window_id");
    reveal_strlit("pane_id");
    reveal_strlit("type");
    reveal_strlit("cwd");
}

/// A request that names one object by its identifier.
proof fn lemma_naming(model: ModelView, kind: HandleKind, key: Seq<char>, id: u128)
    ensures
        params::word(answer_palette::naming(key, id), key) == Some(ids::id_text(id)),
        forall|other: Seq<char>|
            other != key ==> #[trigger] json::entry(answer_palette::naming(key, id), other) is None,
        forall|value: ValueView, other: Seq<char>|
            #![trigger answer_palette::naming(key, id).push((other, value))]
            other != key ==> {
                let more = answer_palette::naming(key, id).push((other, value));
                &&& json::entry(more, other) == Some(value)
                &&& params::word(more, key) == Some(ids::id_text(id))
            },
        forall|value: ValueView, other: Seq<char>, third: Seq<char>|
            third != key && third != other ==> #[trigger] json::entry(
                answer_palette::naming(key, id).push((other, value)),
                third,
            ) is None,
        model.contains(kind, id) ==> laws_tabs::names(
            model,
            answer_palette::naming(key, id),
            kind,
            key,
            id,
        ),
{
    laws_names::lemma_id_is_trimmed(id);
    reveal_with_fuel(json::entry_from, 3);
    let params = answer_palette::naming(key, id);
    assert(params.len() == 1 && params[0].0 == key);
    if model.contains(kind, id) {
        laws_tabs::law_identifiers_name(model, params, kind, key, id);
    }
}

/// What a window shows: the selected tab of the selected pane of its workspace.
pub open spec fn shows(
    model: ModelView,
    window: int,
    at: int,
    place: int,
    tab: int,
) -> bool {
    let state = model.state;
    &&& 0 <= window < state.windows.len()
    &&& laws_tabs::has_tab(state, (at, place, tab))
    &&& state.windows[window].selected_workspace_id == state.workspaces[at].id
    &&& state.workspaces[at].window_id == state.windows[window].id
    &&& state.workspaces[at].selected_pane_id == state.workspaces[at].panes[place].id
    &&& state.workspaces[at].panes[place].selected_surface_id
        == state.workspaces[at].panes[place].surfaces[tab].id
}

proof fn lemma_shown(model: ModelView, window: int, at: int, place: int, tab: int)
    requires
        model.state.sound(),
        model.state.one_place(),
        shows(model, window, at, place, tab),
    ensures
        ({
            let window_id = model.state.windows[window].id;
            let workspace = model.state.workspaces[at];
            let id = workspace.panes[place].surfaces[tab].id;
            &&& model.state.window_at(window_id) == Some(window)
            &&& model.shown_workspace(window_id) == Some(workspace.id)
            &&& model.shown_surface(window_id) == Some(id)
            &&& model.state.workspace_at(workspace.id) == Some(at)
            &&& model.contains(HandleKind::Window, window_id)
            &&& model.contains(HandleKind::Workspace, workspace.id)
            &&& model.contains(HandleKind::Surface, id)
        }),
{
    let state = model.state;
    let workspace = state.workspaces[at];
    assert(workspace.sound());
    assert(workspace.id != ids::NIL);
    let id = workspace.panes[place].surfaces[tab].id;
    laws_tabs::lemma_found(state, id, at, place, tab);
    sound_states::lemma_window_place(state.windows, window, 0);
    sound_workspaces::lemma_pane_place(workspace.panes, place);
}

// ---------------------------------------------------------------------------
// Commands
// ---------------------------------------------------------------------------

/// The commands that split put a new pane on the right of the pane that the window shows, or below
/// it.
pub proof fn law_split_commands_split_towards(
    model: ModelView,
    drawn: Drawn,
    row: PaletteRowView,
    window: int,
    at: int,
    place: int,
    tab: int,
)
    requires
        model.state.sound(),
        model.state.one_place(),
        shows(model, window, at, place, tab),
        row.command_id == "palette.splitRight"@ || row.command_id == "palette.splitDown"@,
    ensures
        ({
            let (after, result) = model.execute_row(drawn, model.state.windows[window].id, row);
            let before = model.state.workspaces;
            &&& result is Ok
            &&& after.state.workspaces == before.update(at, after.state.workspaces[at])
            &&& laws_directions::has_new_pane(
                before[at],
                after.state.workspaces[at],
                before[at].panes[place].id,
                drawn,
                if row.command_id == "palette.splitRight"@ {
                    FocusDirection::Right
                } else {
                    FocusDirection::Down
                },
            )
        }),
{
    lemma_commands();
    lemma_keys();
    lemma_shown(model, window, at, place, tab);
    let window_id = model.state.windows[window].id;
    let closed = model.palette_closed(window_id);
    lemma_shown(closed, window, at, place, tab);
    let id = model.state.workspaces[at].panes[place].surfaces[tab].id;
    lemma_naming(closed, HandleKind::Surface, "surface_id"@, id);
    let (content, direction) = if row.command_id == "palette.splitRight"@ {
        ("right"@, FocusDirection::Right)
    } else {
        ("down"@, FocusDirection::Down)
    };
    let params = answer_palette::naming("surface_id"@, id).push(
        ("direction"@, ValueView::Text(content)),
    );
    reveal_strlit("right");
    reveal_strlit("down");
    assert(text::trimmed(content) =~= content);
    assert(text::lowered(content) =~= content);
    laws_names::law_id_resolves(closed, HandleKind::Surface, id);
    laws_directions::law_request_splits_towards(
        closed,
        drawn,
        params,
        content,
        direction,
        id,
        at,
        place,
        tab,
    );
}

/// The command that closes a tab closes the one that the window shows.
pub proof fn law_close_command_closes_the_tab(
    model: ModelView,
    drawn: Drawn,
    row: PaletteRowView,
    window: int,
    at: int,
    place: int,
    tab: int,
)
    requires
        model.state.sound(),
        model.state.one_place(),
        shows(model, window, at, place, tab),
        model.state.window_id == model.state.windows[window].id,
        row.command_id == "palette.closeTab"@,
    ensures
        laws_tabs::tab_closed(
            model.state,
            model.execute_row(drawn, model.state.windows[window].id, row).0.state,
            at,
            place,
            tab,
        ),
{
    lemma_commands();
    lemma_keys();
    lemma_shown(model, window, at, place, tab);
    let window_id = model.state.windows[window].id;
    let closed = model.palette_closed(window_id);
    lemma_shown(closed, window, at, place, tab);
    let id = model.state.workspaces[at].panes[place].surfaces[tab].id;
    lemma_naming(closed, HandleKind::Surface, "surface_id"@, id);
    let params = answer_palette::naming("surface_id"@, id);
    assert(json::entry(params, "workspace_id"@) is None);
    assert(json::entry(params, "window_id"@) is None);
    laws_tabs::law_request_closes_the_tab(closed, params, at, place, tab);
}

/// The command for a new tab makes it behind the others of the pane that the window shows.
pub proof fn law_new_terminal_command_makes_a_tab(
    model: ModelView,
    drawn: Drawn,
    row: PaletteRowView,
    window: int,
    at: int,
    place: int,
    tab: int,
)
    requires
        model.state.sound(),
        model.state.one_place(),
        model.state.next_surface_title_number < usize::MAX,
        shows(model, window, at, place, tab),
        row.command_id == "palette.newTerminal"@,
    ensures
        ({
            let (after, result) = model.execute_row(drawn, model.state.windows[window].id, row);
            &&& result is Ok
            &&& after.state.workspaces == model.state.workspaces.update(
                at,
                after.state.workspaces[at],
            )
            &&& laws_panes::has_new_tab(
                model.state.workspaces[at].panes[place],
                after.state.workspaces[at].panes[place],
                drawn,
                false,
            )
        }),
{
    lemma_commands();
    lemma_keys();
    lemma_shown(model, window, at, place, tab);
    let window_id = model.state.windows[window].id;
    let closed = model.palette_closed(window_id);
    lemma_shown(closed, window, at, place, tab);
    let workspace_id = model.state.workspaces[at].id;
    lemma_naming(closed, HandleKind::Workspace, "workspace_id"@, workspace_id);
    let params = answer_palette::naming("workspace_id"@, workspace_id);
    assert(json::entry(params, "type"@) is None);
    assert(json::entry(params, "pane_id"@) is None);
    laws_names::law_id_resolves(closed, HandleKind::Workspace, workspace_id);
    laws_panes::law_request_makes_a_tab(closed, drawn, params, at, place);
}

/// The command for a new window makes one, as the action does. The command for a new workspace
/// makes one in the window, and the one that opens a directory makes one in the directory of the
/// workspace that the window shows. The command that closes the window closes it.
pub proof fn law_commands_make_and_close(
    model: ModelView,
    drawn: Drawn,
    row: PaletteRowView,
    window: int,
    at: int,
    place: int,
    tab: int,
)
    requires
        model.state.sound(),
        model.state.one_place(),
        shows(model, window, at, place, tab),
        ({
            let directory = model.state.workspaces[at].current_directory;
            directory is Some ==> directory->0.len() > 0 && text::trimmed(directory->0)
                == directory->0
        }),
    ensures
        ({
            let window_id = model.state.windows[window].id;
            let after = model.execute_row(drawn, window_id, row).0.state;
            let state = model.state;
            &&& row.command_id == "palette.newWindow"@ ==> after == state.acted(
                drawn,
                AppAction::WindowNew,
            )
            &&& row.command_id == "palette.newWorkspace"@ ==> after == state.create_workspace(
                drawn,
                window_id,
                false,
                None,
            )
            &&& row.command_id == "palette.terminalOpenDirectory"@
                && state.workspaces[at].current_directory is Some ==> after
                == state.create_workspace(
                drawn,
                window_id,
                false,
                state.workspaces[at].current_directory,
            )
            &&& row.command_id == "palette.closeWindow"@ ==> after == state.close_window(
                drawn,
                window_id,
            ).0
        }),
{
    lemma_commands();
    lemma_keys();
    lemma_shown(model, window, at, place, tab);
    let window_id = model.state.windows[window].id;
    let closed = model.palette_closed(window_id);
    lemma_shown(closed, window, at, place, tab);
    lemma_naming(closed, HandleKind::Window, "window_id"@, window_id);
    let params = answer_palette::naming("window_id"@, window_id);
    assert(json::entry(params, "cwd"@) is None);
    laws_names::law_id_resolves(closed, HandleKind::Window, window_id);
    if let Some(directory) = model.state.workspaces[at].current_directory {
        let more = params.push(("cwd"@, ValueView::Text(directory)));
        assert(json::entry(more, "cwd"@) == Some(ValueView::Text(directory)));
    }
}

/// The commands for the next and the previous workspace of the current window go there, as the
/// actions do.
pub proof fn law_commands_go_on(
    model: ModelView,
    drawn: Drawn,
    row: PaletteRowView,
    window: int,
    at: int,
    place: int,
    tab: int,
)
    requires
        model.state.sound(),
        model.state.one_place(),
        shows(model, window, at, place, tab),
        model.state.window_id == model.state.windows[window].id,
    ensures
        ({
            let after = model.execute_row(drawn, model.state.window_id, row).0.state;
            let state = model.state;
            &&& row.command_id == "palette.nextWorkspace"@ ==> after == state.acted(
                drawn,
                AppAction::WorkspaceNext,
            )
            &&& row.command_id == "palette.previousWorkspace"@ ==> after == state.acted(
                drawn,
                AppAction::WorkspacePrevious,
            )
        }),
{
    lemma_commands();
    lemma_keys();
    lemma_shown(model, window, at, place, tab);
    let window_id = model.state.window_id;
    let closed = model.palette_closed(window_id);
    lemma_shown(closed, window, at, place, tab);
    lemma_naming(closed, HandleKind::Window, "window_id"@, window_id);
    laws_names::law_id_resolves(closed, HandleKind::Window, window_id);
}

// ---------------------------------------------------------------------------
// Going to workspaces and surfaces
// ---------------------------------------------------------------------------

/// The row of a workspace goes to that workspace, and the row of a tab to that tab.
pub proof fn law_rows_go_where_they_say(
    model: ModelView,
    drawn: Drawn,
    window_id: WindowId,
    order: nat,
    at: int,
    place: int,
    tab: int,
)
    requires
        model.state.sound(),
        model.state.one_place(),
        laws_tabs::has_tab(model.state, (at, place, tab)),
    ensures
        ({
            let workspace = model.state.workspaces[at];
            let surface = workspace.panes[place].surfaces[tab];
            let there = palette_rows::workspace_entry(workspace, order);
            let here = palette_rows::surface_entry(workspace, surface, order);
            &&& there.title == workspace.title
            &&& here.title == surface.title
            &&& model.execute_row(drawn, window_id, there).0.state.selected_workspace_id
                == workspace.id
            &&& model.execute_row(drawn, window_id, here).0.state.selected_workspace_id
                == workspace.id
            &&& model.execute_row(
                drawn,
                window_id,
                here,
            ).0.state.workspaces[at].panes[place].selected_surface_id == surface.id
            &&& model.execute_row(drawn, window_id, here).0.state.workspaces[at].selected_pane_id
                == workspace.panes[place].id
        }),
{
    reveal(ModelView::only_names);
    lemma_commands();
    reveal_strlit("switcher.workspace.");
    reveal_strlit("switcher.surface.");
    let workspace = model.state.workspaces[at];
    let surface = workspace.panes[place].surfaces[tab];
    let there = palette_rows::workspace_entry(workspace, order);
    let here = palette_rows::surface_entry(workspace, surface, order);
    assert(there.command_id[0] == 's');
    assert(here.command_id[0] == 's');
    assert(there.command_id.take(19) =~= "switcher.workspace."@);
    assert(here.command_id.take(17) =~= "switcher.surface."@);
    assert(!text::begins(here.command_id, "switcher.workspace."@)) by {
        if text::begins(here.command_id, "switcher.workspace."@) {
            assert(here.command_id.take(19)[9] == here.command_id[9]);
            assert("switcher.workspace."@[9] == 'w');
            assert(here.command_id[9] == "switcher.surface."@[9]);
        }
    }
    laws_names::law_id_is_read_back(workspace.id);
    laws_names::law_id_is_read_back(surface.id);
    laws_workspaces::lemma_selected(model.state, at);
    laws_tabs::law_focused_tab_is_selected(model.state, at, place, tab);
    let selected = model.state.select_workspace(workspace.id).0;
    let focused = model.state.focus_surface(surface.id).0;
    let first = model.with_state(selected).palette_closed(window_id);
    let second = model.with_state(focused).palette_closed(window_id);
    laws_requests::lemma_told(first, workspace.id, None, None);
    laws_requests::lemma_told(
        second,
        workspace.id,
        Some(workspace.panes[place].id),
        Some(surface.id),
    );
}

} // verus!
