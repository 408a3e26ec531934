//! Every request keeps the state sound and the names that were given out.

use crate::answer_palette;
use crate::dispatch::RequestView;
use crate::ids::{Drawn, WindowId};
use crate::json;
use crate::json::ValueView;
use crate::laws_changes;
use crate::laws_names;
use crate::laws_requests;
use crate::model::ModelView;
use crate::palette::CommandPaletteMode;
use crate::palette_rows::PaletteRowView;
use crate::params;
use crate::params::ParamsView;
use crate::registry::HandleKind;
use crate::reply::Reply;
use vstd::prelude::*;

verus! {

/// A request that changes nothing but names holds together.
proof fn lemma_named(first: ModelView, second: ModelView, drawn: Drawn)
    requires
        second.only_names(first),
    ensures
        second.holds_together(first, drawn),
{
    reveal(ModelView::only_names);
    reveal(ModelView::holds_together);
}

/// A request that changes nothing holds together.
proof fn lemma_unchanged(model: ModelView, drawn: Drawn)
    ensures
        model.holds_together(model, drawn),
        model.only_names(model),
{
    reveal(ModelView::only_names);
    reveal(ModelView::holds_together);
    laws_names::lemma_keeps_itself(model.handles);
}

/// A request after a step that changes nothing but names.
proof fn lemma_after(first: ModelView, second: ModelView, third: ModelView, drawn: Drawn)
    requires
        second.only_names(first),
        third.holds_together(second, drawn),
    ensures
        third.holds_together(first, drawn),
{
    reveal(ModelView::only_names);
    reveal(ModelView::holds_together);
    laws_names::lemma_keeps_twice(first.handles, second.handles, third.handles);
}

/// A request before a step that changes nothing but names.
proof fn lemma_before(first: ModelView, second: ModelView, third: ModelView, drawn: Drawn)
    requires
        second.holds_together(first, drawn),
        third.only_names(second),
    ensures
        third.holds_together(first, drawn),
{
    reveal(ModelView::only_names);
    reveal(ModelView::holds_together);
    laws_names::lemma_keeps_twice(first.handles, second.handles, third.handles);
}

/// Closing the palette, and telling of the window, changes nothing else but names.
proof fn lemma_closed(model: ModelView, window_id: WindowId)
    ensures
        model.palette_closed(window_id).only_names(model),
        Reply::of(model.palette_closed(window_id)).window(window_id).model.only_names(model),
        model.palette_closed(window_id).palette_of(window_id).0.only_names(model),
{
    reveal(ModelView::only_names);
    let closed = model.palette_closed(window_id);
    laws_names::lemma_keeps_itself(model.handles);
    laws_names::law_refresh_keeps_names(closed.handles, closed.state);
    let fresh = closed.handles.refreshed(closed.state);
    laws_names::law_new_name_keeps_names(fresh, HandleKind::Window, window_id);
    laws_names::lemma_keeps_twice(
        closed.handles,
        fresh,
        fresh.ensured(HandleKind::Window, window_id),
    );
    laws_changes::lemma_palette_of(closed, window_id);
    laws_names::lemma_keeps_twice(
        model.handles,
        closed.handles,
        closed.palette_of(window_id).0.handles,
    );
}

proof fn lemma_mode_toggled(model: ModelView, window_id: WindowId, mode: CommandPaletteMode)
    ensures
        model.palette_mode_toggled(window_id, mode).0.only_names(model),
{
    laws_changes::lemma_palette_changes(model, window_id, mode, model.palette(window_id));
}

proof fn lemma_keys_in_palette(model: ModelView, window_id: WindowId)
    ensures
        ({
            let about = answer_palette::naming("window_id"@, window_id);
            let chosen = model.with_palette(window_id, model.palette(window_id).all_selected());
            &&& Reply::of(model.toggle_sidebar(window_id)).window(window_id).model.only_names(model)
            &&& chosen.input_selection(about).0.only_names(model)
            &&& model.reselected(window_id, 1).palette_selection(about).0.only_names(model)
            &&& model.reselected(window_id, -1).palette_selection(about).0.only_names(model)
        }),
{
    reveal(ModelView::only_names);
    let about = answer_palette::naming("window_id"@, window_id);
    let chosen = model.with_palette(window_id, model.palette(window_id).all_selected());
    laws_changes::lemma_palette_of(chosen, window_id);
    laws_changes::lemma_palette_of(model.reselected(window_id, 1), window_id);
    laws_changes::lemma_palette_of(model.reselected(window_id, -1), window_id);
    let toggled = model.toggle_sidebar(window_id);
    laws_names::law_refresh_keeps_names(toggled.handles, toggled.state);
    let fresh = toggled.handles.refreshed(toggled.state);
    laws_names::law_new_name_keeps_names(fresh, HandleKind::Window, window_id);
    laws_names::lemma_keeps_twice(
        toggled.handles,
        fresh,
        fresh.ensured(HandleKind::Window, window_id),
    );
}

proof fn lemma_outer_command(
    model: ModelView,
    drawn: Drawn,
    window_id: WindowId,
    command: Seq<char>,
)
    ensures
        match model.outer_command(drawn, window_id, command) {
            Some(outcome) => outcome.0.holds_together(model, drawn),
            None => true,
        },
{
    let closed = model.palette_closed(window_id);
    let about = answer_palette::naming("window_id"@, window_id);
    let there = about.push(
        ("cwd"@, json::opt_text_value(closed.shown_directory(window_id))),
    );
    lemma_closed(model, window_id);
    if command == "palette.newWindow"@ {
        laws_changes::lemma_window_create(closed, drawn);
        lemma_after(model, closed, closed.window_create(drawn).0, drawn);
    } else if command == "palette.closeWindow"@ {
        laws_changes::lemma_window_close(closed, drawn, about);
        lemma_after(model, closed, closed.window_close(drawn, about).0, drawn);
    } else if command == "palette.renameTab"@ {
        laws_changes::lemma_rename_open(model, window_id);
        lemma_named(model, model.rename_tab_of(window_id).0, drawn);
    } else if command == "palette.renameWorkspace"@ {
        laws_changes::lemma_rename_open(model, window_id);
        lemma_named(model, model.rename_workspace_of(window_id).0, drawn);
    } else if command == "palette.terminalOpenDirectory"@ {
        laws_changes::lemma_workspace_create(closed, drawn, there);
        lemma_after(model, closed, closed.workspace_create(drawn, there).0, drawn);
    } else if command == "palette.newWorkspace"@ {
        laws_changes::lemma_workspace_create(closed, drawn, about);
        lemma_after(model, closed, closed.workspace_create(drawn, about).0, drawn);
    } else if command == "palette.nextWorkspace"@ {
        laws_changes::lemma_workspace_relative(closed, drawn, about, 1);
        lemma_after(model, closed, closed.workspace_relative(about, 1).0, drawn);
    } else if command == "palette.previousWorkspace"@ {
        laws_changes::lemma_workspace_relative(closed, drawn, about, -1);
        lemma_after(model, closed, closed.workspace_relative(about, -1).0, drawn);
    }
}

proof fn lemma_split_shown(
    model: ModelView,
    drawn: Drawn,
    window_id: WindowId,
    direction: Seq<char>,
)
    ensures
        model.split_shown(drawn, window_id, direction).0.holds_together(model, drawn),
{
    lemma_unchanged(model, drawn);
    if let Some(surface_id) = model.shown_surface(window_id) {
        laws_changes::lemma_surface_split(
            model,
            drawn,
            answer_palette::naming("surface_id"@, surface_id).push(
                ("direction"@, ValueView::Text(direction)),
            ),
        );
    }
}

proof fn lemma_create_in_shown(model: ModelView, drawn: Drawn, window_id: WindowId)
    ensures
        model.create_in_shown(drawn, window_id).0.holds_together(model, drawn),
{
    lemma_unchanged(model, drawn);
    if let Some(workspace_id) = model.shown_workspace(window_id) {
        laws_changes::lemma_surface_create(
            model,
            drawn,
            answer_palette::naming("workspace_id"@, workspace_id),
        );
    }
}

proof fn lemma_inner_command(
    model: ModelView,
    drawn: Drawn,
    window_id: WindowId,
    command: Seq<char>,
)
    ensures
        match model.inner_command(drawn, window_id, command) {
            Some(outcome) => outcome.0.holds_together(model, drawn),
            None => true,
        },
{
    let closed = model.palette_closed(window_id);
    lemma_closed(model, window_id);
    lemma_named(model, closed, drawn);
    if command == "palette.splitRight"@ {
        lemma_split_shown(closed, drawn, window_id, "right"@);
        lemma_after(model, closed, closed.split_shown(drawn, window_id, "right"@).0, drawn);
    } else if command == "palette.splitDown"@ {
        lemma_split_shown(closed, drawn, window_id, "down"@);
        lemma_after(model, closed, closed.split_shown(drawn, window_id, "down"@).0, drawn);
    } else if command == "palette.newTerminal"@ {
        lemma_create_in_shown(closed, drawn, window_id);
        lemma_after(model, closed, closed.create_in_shown(drawn, window_id).0, drawn);
    } else if command == "palette.closeTab"@ || command == "palette.clearTerminalHistory"@ {
        if let Some(surface_id) = closed.shown_surface(window_id) {
            let about = answer_palette::naming("surface_id"@, surface_id);
            laws_changes::lemma_surface_close(closed, drawn, about);
            lemma_after(model, closed, closed.surface_close(about).0, drawn);
            laws_changes::lemma_surface_clear_history(closed, drawn, about);
            lemma_after(model, closed, closed.surface_clear_history(about).0, drawn);
        }
    } else if command == "palette.focusLastPane"@ {
        if let Some(workspace_id) = closed.shown_workspace(window_id) {
            let about = answer_palette::naming("workspace_id"@, workspace_id);
            laws_changes::lemma_pane_last(closed, drawn, about);
            lemma_after(model, closed, closed.pane_last(about).0, drawn);
        }
    }
}

proof fn lemma_execute_row(
    model: ModelView,
    drawn: Drawn,
    window_id: WindowId,
    row: PaletteRowView,
)
    ensures
        model.execute_row(drawn, window_id, row).0.holds_together(model, drawn),
{
    lemma_outer_command(model, drawn, window_id, row.command_id);
    lemma_inner_command(model, drawn, window_id, row.command_id);
    laws_changes::lemma_switch(model, drawn, window_id, row);
    lemma_closed(model, window_id);
    lemma_named(
        model,
        Reply::of(model.palette_closed(window_id)).window(window_id).model,
        drawn,
    );
}

proof fn lemma_execute_selection(model: ModelView, drawn: Drawn, window_id: WindowId)
    ensures
        model.execute_selection(drawn, window_id).0.holds_together(model, drawn),
{
    lemma_unchanged(model, drawn);
    laws_changes::lemma_renamed(model, drawn, window_id);
    let next = model.renamed(window_id).0;
    lemma_closed(next, window_id);
    lemma_before(
        model,
        next,
        next.palette_closed(window_id).palette_of(window_id).0,
        drawn,
    );
    lemma_closed(model, window_id);
    lemma_named(model, model.palette_closed(window_id), drawn);
    if let Some(row) = model.selected_row(window_id) {
        lemma_execute_row(model, drawn, window_id, row);
    }
}

proof fn lemma_shortcut(model: ModelView, drawn: Drawn, params: ParamsView)
    ensures
        model.shortcut_simulate(drawn, params).0.holds_together(model, drawn),
{
    let window_id = model.state.window_id;
    let about = answer_palette::naming("window_id"@, window_id);
    lemma_unchanged(model, drawn);
    lemma_create_in_shown(model, drawn, window_id);
    lemma_execute_selection(model, drawn, window_id);
    lemma_mode_toggled(model, window_id, CommandPaletteMode::Switcher);
    lemma_named(
        model,
        model.palette_mode_toggled(window_id, CommandPaletteMode::Switcher).0,
        drawn,
    );
    lemma_mode_toggled(model, window_id, CommandPaletteMode::Commands);
    lemma_named(
        model,
        model.palette_mode_toggled(window_id, CommandPaletteMode::Commands).0,
        drawn,
    );
    lemma_keys_in_palette(model, window_id);
    let toggled = Reply::of(model.toggle_sidebar(window_id)).window(window_id).model;
    lemma_named(model, toggled, drawn);
    let chosen = model.with_palette(window_id, model.palette(window_id).all_selected());
    lemma_named(model, chosen.input_selection(about).0, drawn);
    lemma_named(model, model.reselected(window_id, 1).palette_selection(about).0, drawn);
    lemma_named(model, model.reselected(window_id, -1).palette_selection(about).0, drawn);
}

proof fn lemma_typed_in_palette(model: ModelView, window_id: WindowId, content: Seq<char>)
    ensures
        model.with_palette(window_id, model.palette(window_id).typed(content)).palette_results(
            answer_palette::naming("window_id"@, window_id),
        ).0.only_names(model),
{
    reveal(ModelView::only_names);
    laws_changes::lemma_palette_of(
        model.with_palette(window_id, model.palette(window_id).typed(content)),
        window_id,
    );
}

proof fn lemma_type_anywhere(model: ModelView, drawn: Drawn, params: ParamsView)
    ensures
        model.type_anywhere(params).0.holds_together(model, drawn),
{
    lemma_unchanged(model, drawn);
    laws_changes::lemma_surface_send(model, drawn, params);
    let window_id = model.state.window_id;
    if let Some(content) = params::raw_word(params, "text"@) {
        lemma_typed_in_palette(model, window_id, content);
        lemma_named(
            model,
            model.with_palette(
                window_id,
                model.palette(window_id).typed(content),
            ).palette_results(answer_palette::naming("window_id"@, window_id)).0,
            drawn,
        );
    }
}

proof fn lemma_outer_route(
    model: ModelView,
    drawn: Drawn,
    method: Seq<char>,
    params: ParamsView,
)
    ensures
        match model.outer_route(drawn, method, params) {
            Some(outcome) => outcome.0.holds_together(model, drawn),
            None => true,
        },
{
    lemma_system(model, drawn, method, params);
    lemma_windows(model, drawn, method, params);
    lemma_workspaces(model, drawn, method, params);
    lemma_panes(model, drawn, method, params);
    lemma_surfaces(model, drawn, method, params);
}

proof fn lemma_system(model: ModelView, drawn: Drawn, method: Seq<char>, params: ParamsView)
    ensures
        match model.system_method(method, params) {
            Some(outcome) => outcome.0.holds_together(model, drawn),
            None => true,
        },
{
    lemma_unchanged(model, drawn);
    if method == "system.capabilities"@ {
        laws_requests::lemma_system(model, params);
        lemma_named(model, model.capabilities().0, drawn);
    } else if method == "system.identify"@ {
        laws_requests::lemma_system(model, params);
        lemma_named(model, model.identify(params).0, drawn);
    }
}

proof fn lemma_windows(model: ModelView, drawn: Drawn, method: Seq<char>, params: ParamsView)
    ensures
        match model.window_method(drawn, method, params) {
            Some(outcome) => outcome.0.holds_together(model, drawn),
            None => true,
        },
{
    if method == "window.list"@ {
        laws_requests::lemma_window_lists(model, params);
        lemma_named(model, model.window_list().0, drawn);
    } else if method == "window.current"@ {
        laws_requests::lemma_window_lists(model, params);
        lemma_named(model, model.window_current().0, drawn);
    } else if method == "window.create"@ {
        laws_changes::lemma_window_create(model, drawn);
    } else if method == "window.focus"@ {
        laws_changes::lemma_window_focus(model, drawn, params);
    } else if method == "window.close"@ {
        laws_changes::lemma_window_close(model, drawn, params);
    }
}

proof fn lemma_workspaces(
    model: ModelView,
    drawn: Drawn,
    method: Seq<char>,
    params: ParamsView,
)
    ensures
        match model.workspace_method(drawn, method, params) {
            Some(outcome) => outcome.0.holds_together(model, drawn),
            None => true,
        },
{
    if method == "workspace.list"@ {
        laws_requests::lemma_window_lists(model, params);
        lemma_named(model, model.workspace_list(params).0, drawn);
    } else if method == "workspace.create"@ {
        laws_changes::lemma_workspace_create(model, drawn, params);
    } else if method == "workspace.rename"@ {
        laws_changes::lemma_workspace_rename(model, drawn, params);
    } else if method == "workspace.reorder"@ {
        laws_changes::lemma_workspace_reorder(model, drawn, params);
    } else if method == "workspace.select"@ {
        laws_changes::lemma_workspace_select(model, drawn, params);
    } else if method == "workspace.current"@ {
        laws_requests::lemma_window_lists(model, params);
        lemma_named(model, model.workspace_current(params).0, drawn);
    } else if method == "workspace.next"@ {
        laws_changes::lemma_workspace_relative(model, drawn, params, 1);
    } else if method == "workspace.previous"@ {
        laws_changes::lemma_workspace_relative(model, drawn, params, -1);
    } else if method == "workspace.last"@ {
        laws_changes::lemma_workspace_last(model, drawn, params);
    } else if method == "workspace.move_to_window"@ {
        laws_changes::lemma_workspace_move(model, drawn, params);
    } else if method == "workspace.close"@ || method == "workspace.action"@ {
        laws_changes::lemma_workspace_close(model, drawn, params);
    }
}

proof fn lemma_panes(model: ModelView, drawn: Drawn, method: Seq<char>, params: ParamsView)
    ensures
        match model.pane_method(drawn, method, params) {
            Some(outcome) => outcome.0.holds_together(model, drawn),
            None => true,
        },
{
    if method == "pane.list"@ {
        laws_requests::lemma_pane_lists(model, params);
        lemma_named(model, model.pane_list(params).0, drawn);
    } else if method == "pane.surfaces"@ {
        laws_requests::lemma_pane_lists(model, params);
        lemma_named(model, model.pane_surfaces(params).0, drawn);
    } else if method == "pane.focus"@ {
        laws_changes::lemma_pane_focus(model, drawn, params);
    } else if method == "pane.swap"@ {
        laws_changes::lemma_pane_swap(model, drawn, params);
    } else if method == "pane.break"@ {
        laws_changes::lemma_pane_break(model, drawn, params);
    } else if method == "pane.join"@ {
        laws_changes::lemma_pane_join(model, drawn, params);
    } else if method == "pane.last"@ {
        laws_changes::lemma_pane_last(model, drawn, params);
    } else if method == "pane.create"@ {
        laws_changes::lemma_pane_create(model, drawn, params);
    }
}

proof fn lemma_surfaces(model: ModelView, drawn: Drawn, method: Seq<char>, params: ParamsView)
    ensures
        match model.surface_method(drawn, method, params) {
            Some(outcome) => outcome.0.holds_together(model, drawn),
            None => true,
        },
{
    if method == "surface.list"@ {
        laws_requests::lemma_surface_lists(model, params);
        lemma_named(model, model.surface_list(params).0, drawn);
    } else if method == "surface.action"@ {
        laws_changes::lemma_tab_action(model, drawn, params);
    } else if method == "surface.current"@ {
        laws_requests::lemma_surface_shows(model, params);
        lemma_named(model, model.surface_current(params).0, drawn);
    } else if method == "surface.focus"@ {
        laws_changes::lemma_surface_focus(model, drawn, params);
    } else if method == "surface.split"@ {
        laws_changes::lemma_surface_split(model, drawn, params);
    } else if method == "surface.create"@ {
        laws_changes::lemma_surface_create(model, drawn, params);
    } else if method == "surface.close"@ {
        laws_changes::lemma_surface_close(model, drawn, params);
    } else if method == "surface.move"@ || method == "surface.reorder"@ {
        laws_changes::lemma_surface_move(model, drawn, params);
    } else if method == "surface.drag_to_split"@ {
        laws_changes::lemma_surface_split(model, drawn, params);
    }
}

proof fn lemma_inner_route(
    model: ModelView,
    drawn: Drawn,
    method: Seq<char>,
    params: ParamsView,
)
    ensures
        match model.inner_route(drawn, method, params) {
            Some(outcome) => outcome.0.holds_together(model, drawn),
            None => true,
        },
{
    lemma_terminals(model, drawn, method, params);
    lemma_attentions(model, drawn, method, params);
    lemma_palettes(model, drawn, method, params);
    lemma_tools(model, drawn, method, params);
}

proof fn lemma_terminals(model: ModelView, drawn: Drawn, method: Seq<char>, params: ParamsView)
    ensures
        match model.terminal_method(method, params) {
            Some(outcome) => outcome.0.holds_together(model, drawn),
            None => true,
        },
{
    if method == "surface.refresh"@ {
        laws_requests::lemma_surface_shows(model, params);
        lemma_named(model, model.surface_refresh(params).0, drawn);
    } else if method == "surface.clear_history"@ {
        laws_changes::lemma_surface_clear_history(model, drawn, params);
    } else if method == "surface.send_text"@ || method == "surface.send_key"@ {
        laws_changes::lemma_surface_send(model, drawn, params);
    } else if method == "surface.read_text"@ {
        laws_requests::lemma_surface_shows(model, params);
        lemma_named(model, model.surface_read_text(params).0, drawn);
    } else if method == "surface.health"@ {
        laws_requests::lemma_surface_lists(model, params);
        lemma_named(model, model.surface_health(params).0, drawn);
    } else if method == "surface.trigger_flash"@ {
        laws_changes::lemma_surface_flash(model, drawn, params);
    } else if method == "tab.action"@ {
        laws_changes::lemma_tab_action(model, drawn, params);
    }
}

proof fn lemma_attentions(model: ModelView, drawn: Drawn, method: Seq<char>, params: ParamsView)
    ensures
        match model.attention_method(method, params) {
            Some(outcome) => outcome.0.holds_together(model, drawn),
            None => true,
        },
{
    if method == "notification.list"@ {
        laws_requests::lemma_window_lists(model, params);
        lemma_named(model, model.notification_list().0, drawn);
    } else {
        laws_changes::lemma_attention(model, drawn, params);
    }
}

proof fn lemma_palettes(model: ModelView, drawn: Drawn, method: Seq<char>, params: ParamsView)
    ensures
        match model.palette_method(drawn, method, params) {
            Some(outcome) => outcome.0.holds_together(model, drawn),
            None => true,
        },
{
    if method == "debug.command_palette.rename_input.select_all"@ {
        laws_changes::law_palette_only_names(model, params);
        lemma_named(model, model.rename_select_all_set(params).0, drawn);
    } else if method == "debug.command_palette.rename_input.selection"@ {
        laws_requests::law_showing_only_names(model, params);
        lemma_named(model, model.input_selection(params).0, drawn);
    } else if method == "debug.command_palette.rename_input.interact"@ {
        laws_changes::law_palette_only_names(model, params);
        lemma_named(model, model.input_interact(params).0, drawn);
    } else if method == "debug.command_palette.rename_input.delete_backward"@ {
        laws_changes::law_palette_only_names(model, params);
        lemma_named(model, model.input_delete_backward(params).0, drawn);
    } else if method == "debug.command_palette.rename_tab.open"@ {
        laws_changes::law_palette_only_names(model, params);
        lemma_named(model, model.rename_tab_open(params).0, drawn);
    } else if method == "debug.command_palette.results"@ {
        laws_requests::law_showing_only_names(model, params);
        lemma_named(model, model.palette_results(params).0, drawn);
    } else if method == "debug.command_palette.selection"@ {
        laws_requests::law_showing_only_names(model, params);
        lemma_named(model, model.palette_selection(params).0, drawn);
    } else if method == "debug.command_palette.toggle"@ {
        laws_changes::law_palette_only_names(model, params);
        lemma_named(model, model.palette_toggle(params).0, drawn);
    } else if method == "debug.command_palette.visible"@ {
        laws_requests::law_showing_only_names(model, params);
        lemma_named(model, model.palette_visible(params).0, drawn);
    } else if method == "debug.shortcut.set"@ {
        laws_changes::law_palette_only_names(model, params);
        lemma_named(model, model.shortcut_set(params).0, drawn);
    } else if method == "debug.shortcut.simulate"@ {
        lemma_shortcut(model, drawn, params);
    } else if method == "debug.type"@ {
        lemma_type_anywhere(model, drawn, params);
    }
}

proof fn lemma_tools(model: ModelView, drawn: Drawn, method: Seq<char>, params: ParamsView)
    ensures
        match model.debug_method(method, params) {
            Some(outcome) => outcome.0.holds_together(model, drawn),
            None => true,
        },
        match model.constant_method(method, params) {
            Some(outcome) => outcome.0.holds_together(model, drawn),
            None => true,
        },
{
    lemma_unchanged(model, drawn);
    if method == "debug.layout"@ {
        laws_requests::law_showing_only_names(model, params);
        lemma_named(model, model.debug_layout().0, drawn);
    } else if method == "debug.notification.focus"@ {
        laws_changes::lemma_notification_focus(model, drawn, params);
    } else if method == "debug.panel_snapshot"@ {
        laws_requests::law_showing_only_names(model, params);
        lemma_named(model, model.panel_snapshot(params).0, drawn);
    } else if method == "debug.sidebar.visible"@ {
        laws_requests::law_showing_only_names(model, params);
        lemma_named(model, model.sidebar_shown(params).0, drawn);
    } else if method == "debug.terminal.is_focused"@ {
        laws_requests::law_showing_only_names(model, params);
        lemma_named(model, model.terminal_is_focused(params).0, drawn);
    } else if method == "debug.terminal.read_text"@ {
        laws_requests::lemma_surface_shows(model, params);
        lemma_named(model, model.surface_read_text(params).0, drawn);
    } else if method == "debug.flash.count"@ {
        laws_requests::law_showing_only_names(model, params);
        lemma_named(model, model.flash_counted(params).0, drawn);
    } else if method == "debug.flash.reset"@ {
        laws_changes::lemma_attention(model, drawn, params);
    }
}

/// Every request keeps a sound state sound, if the identifiers that were drawn for it are new, and
/// keeps the short names that were given out.
pub proof fn law_request_holds_together(model: ModelView, drawn: Drawn, request: RequestView)
    ensures
        model.dispatch(drawn, request).0.holds_together(model, drawn),
{
    lemma_unchanged(model, drawn);
    laws_changes::lemma_notification_steps(model, request.params);
    lemma_named(model, model.notification_create(request.params).0, drawn);
    lemma_named(model, model.notification_create_for_surface(request.params).0, drawn);
    lemma_outer_route(model, drawn, request.method, request.params);
    lemma_inner_route(model, drawn, request.method, request.params);
}

/// What is no request changes nothing.
pub proof fn law_no_request_changes_nothing(model: ModelView, drawn: Drawn, reason: Seq<char>)
    ensures
        model.handled(drawn, Err::<RequestView, Seq<char>>(reason)).0 == model,
{
}

} // verus!
