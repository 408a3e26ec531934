//! Which answer each method gets.

use crate::ids::Drawn;
use crate::model::ModelView;
use crate::params::ParamsView;
use vstd::prelude::*;

verus! {

proof fn lemma_surface_names()
    ensures
        "surface.list"@.len() == 12,
        "surface.list"@[8] == 'l',
        "surface.list"@[9] == 'i',
        "surface.list"@[10] == 's',
        "surface.action"@.len() == 14,
        "surface.action"@[8] == 'a',
        "surface.action"@[9] == 'c',
        "surface.action"@[10] == 't',
        "surface.current"@.len() == 15,
        "surface.current"@[8] == 'c',
        "surface.current"@[9] == 'u',
        "surface.current"@[10] == 'r',
        "surface.focus"@.len() == 13,
        "surface.focus"@[8] == 'f',
        "surface.focus"@[9] == 'o',
        "surface.focus"@[10] == 'c',
        "surface.split"@.len() == 13,
        "surface.split"@[8] == 's',
        "surface.split"@[9] == 'p',
        "surface.split"@[10] == 'l',
        "surface.create"@.len() == 14,
        "surface.create"@[8] == 'c',
        "surface.create"@[9] == 'r',
        "surface.create"@[10] == 'e',
        "surface.close"@.len() == 13,
        "surface.close"@[8] == 'c',
        "surface.close"@[9] == 'l',
        "surface.close"@[10] == 'o',
        "surface.move"@.len() == 12,
        "surface.move"@[8] == 'm',
        "surface.move"@[9] == 'o',
        "surface.move"@[10] == 'v',
        "surface.reorder"@.len() == 15,
        "surface.reorder"@[8] == 'r',
        "surface.reorder"@[9] == 'e',
        "surface.reorder"@[10] == 'o',
        "surface.drag_to_split"@.len() == 21,
        "surface.drag_to_split"@[8] == 'd',
        "surface.drag_to_split"@[9] == 'r',
        "surface.drag_to_split"@[10] == 'a',
{
    reveal_strlit("surface.list");
    reveal_strlit("surface.action");
    reveal_strlit("surface.current");
    reveal_strlit("surface.focus");
    reveal_strlit("surface.split");
    reveal_strlit("surface.create");
    reveal_strlit("surface.close");
    reveal_strlit("surface.move");
    reveal_strlit("surface.reorder");
    reveal_strlit("surface.drag_to_split");
}

proof fn lemma_terminal_names()
    ensures
        "surface.refresh"@.len() == 15,
        "surface.refresh"@[8] == 'r',
        "surface.refresh"@[9] == 'e',
        "surface.refresh"@[10] == 'f',
        "surface.clear_history"@.len() == 21,
        "surface.clear_history"@[8] == 'c',
        "surface.clear_history"@[9] == 'l',
        "surface.clear_history"@[10] == 'e',
        "surface.send_text"@.len() == 17,
        "surface.send_text"@[8] == 's',
        "surface.send_text"@[9] == 'e',
        "surface.send_text"@[10] == 'n',
        "surface.send_key"@.len() == 16,
        "surface.send_key"@[8] == 's',
        "surface.send_key"@[9] == 'e',
        "surface.send_key"@[10] == 'n',
        "surface.read_text"@.len() == 17,
        "surface.read_text"@[8] == 'r',
        "surface.read_text"@[9] == 'e',
        "surface.read_text"@[10] == 'a',
        "surface.health"@.len() == 14,
        "surface.health"@[8] == 'h',
        "surface.health"@[9] == 'e',
        "surface.health"@[10] == 'a',
        "surface.trigger_flash"@.len() == 21,
        "surface.trigger_flash"@[8] == 't',
        "surface.trigger_flash"@[9] == 'r',
        "surface.trigger_flash"@[10] == 'i',
        "tab.action"@.len() == 10,
        "tab.action"@[4] == 'a',
        "tab.action"@[5] == 'c',
        "tab.action"@[6] == 't',
{
    reveal_strlit("surface.refresh");
    reveal_strlit("surface.clear_history");
    reveal_strlit("surface.send_text");
    reveal_strlit("surface.send_key");
    reveal_strlit("surface.read_text");
    reveal_strlit("surface.health");
    reveal_strlit("surface.trigger_flash");
    reveal_strlit("tab.action");
}

proof fn lemma_window_names()
    ensures
        "window.list"@.len() == 11,
        "window.list"@[7] == 'l',
        "window.list"@[8] == 'i',
        "window.list"@[9] == 's',
        "window.current"@.len() == 14,
        "window.current"@[7] == 'c',
        "window.current"@[8] == 'u',
        "window.current"@[9] == 'r',
        "window.create"@.len() == 13,
        "window.create"@[7] == 'c',
        "window.create"@[8] == 'r',
        "window.create"@[9] == 'e',
        "window.focus"@.len() == 12,
        "window.focus"@[7] == 'f',
        "window.focus"@[8] == 'o',
        "window.focus"@[9] == 'c',
        "window.close"@.len() == 12,
        "window.close"@[7] == 'c',
        "window.close"@[8] == 'l',
        "window.close"@[9] == 'o',
{
    reveal_strlit("window.list");
    reveal_strlit("window.current");
    reveal_strlit("window.create");
    reveal_strlit("window.focus");
    reveal_strlit("window.close");
}

/// A method about windows does with a window what its name says.
pub proof fn law_window_methods(model: ModelView, drawn: Drawn, params: ParamsView)
    ensures
        model.window_method(drawn, "window.list"@, params) == Some(model.window_list()),
        model.window_method(drawn, "window.current"@, params) == Some(model.window_current()),
        model.window_method(drawn, "window.create"@, params) == Some(model.window_create(drawn)),
        model.window_method(drawn, "window.focus"@, params) == Some(model.window_focus(params)),
        model.window_method(drawn, "window.close"@, params) == Some(
            model.window_close(drawn, params),
        ),
{
    lemma_window_names();
}

proof fn lemma_workspace_names()
    ensures
        "workspace.list"@.len() == 14,
        "workspace.list"@[10] == 'l',
        "workspace.list"@[11] == 'i',
        "workspace.list"@[12] == 's',
        "workspace.create"@.len() == 16,
        "workspace.create"@[10] == 'c',
        "workspace.create"@[11] == 'r',
        "workspace.create"@[12] == 'e',
        "workspace.rename"@.len() == 16,
        "workspace.rename"@[10] == 'r',
        "workspace.rename"@[11] == 'e',
        "workspace.rename"@[12] == 'n',
        "workspace.reorder"@.len() == 17,
        "workspace.reorder"@[10] == 'r',
        "workspace.reorder"@[11] == 'e',
        "workspace.reorder"@[12] == 'o',
        "workspace.select"@.len() == 16,
        "workspace.select"@[10] == 's',
        "workspace.select"@[11] == 'e',
        "workspace.select"@[12] == 'l',
        "workspace.current"@.len() == 17,
        "workspace.current"@[10] == 'c',
        "workspace.current"@[11] == 'u',
        "workspace.current"@[12] == 'r',
        "workspace.next"@.len() == 14,
        "workspace.next"@[10] == 'n',
        "workspace.next"@[11] == 'e',
        "workspace.next"@[12] == 'x',
        "workspace.previous"@.len() == 18,
        "workspace.previous"@[10] == 'p',
        "workspace.previous"@[11] == 'r',
        "workspace.previous"@[12] == 'e',
        "workspace.last"@.len() == 14,
        "workspace.last"@[10] == 'l',
        "workspace.last"@[11] == 'a',
        "workspace.last"@[12] == 's',
        "workspace.move_to_window"@.len() == 24,
        "workspace.move_to_window"@[10] == 'm',
        "workspace.move_to_window"@[11] == 'o',
        "workspace.move_to_window"@[12] == 'v',
        "workspace.close"@.len() == 15,
        "workspace.close"@[10] == 'c',
        "workspace.close"@[11] == 'l',
        "workspace.close"@[12] == 'o',
        "workspace.action"@.len() == 16,
        "workspace.action"@[10] == 'a',
        "workspace.action"@[11] == 'c',
        "workspace.action"@[12] == 't',
{
    reveal_strlit("workspace.list");
    reveal_strlit("workspace.create");
    reveal_strlit("workspace.rename");
    reveal_strlit("workspace.reorder");
    reveal_strlit("workspace.select");
    reveal_strlit("workspace.current");
    reveal_strlit("workspace.next");
    reveal_strlit("workspace.previous");
    reveal_strlit("workspace.last");
    reveal_strlit("workspace.move_to_window");
    reveal_strlit("workspace.close");
    reveal_strlit("workspace.action");
}

/// A method about workspaces does with a workspace what its name says.
pub proof fn law_workspace_methods(model: ModelView, drawn: Drawn, params: ParamsView)
    ensures
        model.workspace_method(drawn, "workspace.list"@, params) == Some(
            model.workspace_list(params),
        ),
        model.workspace_method(drawn, "workspace.create"@, params) == Some(
            model.workspace_create(drawn, params),
        ),
        model.workspace_method(drawn, "workspace.rename"@, params) == Some(
            model.workspace_rename(params),
        ),
        model.workspace_method(drawn, "workspace.reorder"@, params) == Some(
            model.workspace_reorder(params),
        ),
        model.workspace_method(drawn, "workspace.select"@, params) == Some(
            model.workspace_select(params),
        ),
        model.workspace_method(drawn, "workspace.current"@, params) == Some(
            model.workspace_current(params),
        ),
        model.workspace_method(drawn, "workspace.next"@, params) == Some(
            model.workspace_relative(params, 1),
        ),
        model.workspace_method(drawn, "workspace.previous"@, params) == Some(
            model.workspace_relative(params, -1),
        ),
        model.workspace_method(drawn, "workspace.last"@, params) == Some(
            model.workspace_last(params),
        ),
        model.workspace_method(drawn, "workspace.move_to_window"@, params) == Some(
            model.workspace_move(drawn, params),
        ),
        model.workspace_method(drawn, "workspace.close"@, params) == Some(
            model.workspace_close(drawn, params),
        ),
        model.workspace_method(drawn, "workspace.action"@, params) == Some(
            model.workspace_action(drawn, params),
        ),
{
    lemma_workspace_names();
}

proof fn lemma_pane_names()
    ensures
        "pane.list"@.len() == 9,
        "pane.list"@[5] == 'l',
        "pane.list"@[6] == 'i',
        "pane.list"@[7] == 's',
        "pane.surfaces"@.len() == 13,
        "pane.surfaces"@[5] == 's',
        "pane.surfaces"@[6] == 'u',
        "pane.surfaces"@[7] == 'r',
        "pane.focus"@.len() == 10,
        "pane.focus"@[5] == 'f',
        "pane.focus"@[6] == 'o',
        "pane.focus"@[7] == 'c',
        "pane.swap"@.len() == 9,
        "pane.swap"@[5] == 's',
        "pane.swap"@[6] == 'w',
        "pane.swap"@[7] == 'a',
        "pane.break"@.len() == 10,
        "pane.break"@[5] == 'b',
        "pane.break"@[6] == 'r',
        "pane.break"@[7] == 'e',
        "pane.join"@.len() == 9,
        "pane.join"@[5] == 'j',
        "pane.join"@[6] == 'o',
        "pane.join"@[7] == 'i',
        "pane.last"@.len() == 9,
        "pane.last"@[5] == 'l',
        "pane.last"@[6] == 'a',
        "pane.last"@[7] == 's',
        "pane.create"@.len() == 11,
        "pane.create"@[5] == 'c',
        "pane.create"@[6] == 'r',
        "pane.create"@[7] == 'e',
{
    reveal_strlit("pane.list");
    reveal_strlit("pane.surfaces");
    reveal_strlit("pane.focus");
    reveal_strlit("pane.swap");
    reveal_strlit("pane.break");
    reveal_strlit("pane.join");
    reveal_strlit("pane.last");
    reveal_strlit("pane.create");
}

/// A method about panes does with a pane what its name says.
pub proof fn law_pane_methods(model: ModelView, drawn: Drawn, params: ParamsView)
    ensures
        model.pane_method(drawn, "pane.list"@, params) == Some(model.pane_list(params)),
        model.pane_method(drawn, "pane.surfaces"@, params) == Some(model.pane_surfaces(params)),
        model.pane_method(drawn, "pane.focus"@, params) == Some(model.pane_focus(params)),
        model.pane_method(drawn, "pane.swap"@, params) == Some(model.pane_swap(params)),
        model.pane_method(drawn, "pane.break"@, params) == Some(model.pane_break(drawn, params)),
        model.pane_method(drawn, "pane.join"@, params) == Some(model.pane_join(drawn, params)),
        model.pane_method(drawn, "pane.last"@, params) == Some(model.pane_last(params)),
        model.pane_method(drawn, "pane.create"@, params) == Some(model.pane_create(drawn, params)),
{
    lemma_pane_names();
}

/// A method about surfaces does with a surface what its name says.
pub proof fn law_surface_methods(model: ModelView, drawn: Drawn, params: ParamsView)
    ensures
        model.surface_method(drawn, "surface.list"@, params) == Some(model.surface_list(params)),
        model.surface_method(drawn, "surface.action"@, params) == Some(
            model.surface_action(params),
        ),
        model.surface_method(drawn, "surface.current"@, params) == Some(
            model.surface_current(params),
        ),
        model.surface_method(drawn, "surface.focus"@, params) == Some(model.surface_focus(params)),
        model.surface_method(drawn, "surface.split"@, params) == Some(
            model.surface_split(drawn, params),
        ),
        model.surface_method(drawn, "surface.create"@, params) == Some(
            model.surface_create(drawn, params),
        ),
        model.surface_method(drawn, "surface.close"@, params) == Some(model.surface_close(params)),
        model.surface_method(drawn, "surface.move"@, params) == Some(
            model.surface_move(drawn, params),
        ),
        model.surface_method(drawn, "surface.reorder"@, params) == Some(
            model.surface_reorder(drawn, params),
        ),
        model.surface_method(drawn, "surface.drag_to_split"@, params) == Some(
            model.surface_split(drawn, params),
        ),
{
    lemma_surface_names();
}

/// A method about what a terminal shows does with the terminal what its name says.
pub proof fn law_terminal_methods(model: ModelView, params: ParamsView)
    ensures
        model.terminal_method("surface.refresh"@, params) == Some(model.surface_refresh(params)),
        model.terminal_method("surface.clear_history"@, params) == Some(
            model.surface_clear_history(params),
        ),
        model.terminal_method("surface.send_text"@, params) == Some(
            model.surface_send_text(params),
        ),
        model.terminal_method("surface.send_key"@, params) == Some(model.surface_send_key(params)),
        model.terminal_method("surface.read_text"@, params) == Some(
            model.surface_read_text(params),
        ),
        model.terminal_method("surface.health"@, params) == Some(model.surface_health(params)),
        model.terminal_method("surface.trigger_flash"@, params) == Some(
            model.surface_trigger_flash(params),
        ),
        model.terminal_method("tab.action"@, params) == Some(model.tab_action(params)),
{
    lemma_terminal_names();
}

proof fn lemma_attention_names()
    ensures
        "notification.list"@.len() == 17,
        "notification.list"@[0] == 'n',
        "notification.list"@[13] == 'l',
        "notification.list"@[14] == 'i',
        "notification.list"@[15] == 's',
        "notification.clear"@.len() == 18,
        "notification.clear"@[0] == 'n',
        "notification.clear"@[13] == 'c',
        "notification.clear"@[14] == 'l',
        "notification.clear"@[15] == 'e',
        "app.focus_override.set"@.len() == 22,
        "app.focus_override.set"@[0] == 'a',
        "app.focus_override.set"@[4] == 'f',
        "app.focus_override.set"@[5] == 'o',
        "app.focus_override.set"@[6] == 'c',
        "app.simulate_active"@.len() == 19,
        "app.simulate_active"@[0] == 'a',
        "app.simulate_active"@[4] == 's',
        "app.simulate_active"@[5] == 'i',
        "app.simulate_active"@[6] == 'm',
        "debug.app.activate"@.len() == 18,
        "debug.app.activate"@[0] == 'd',
        "debug.app.activate"@[6] == 'a',
        "debug.app.activate"@[7] == 'p',
        "debug.app.activate"@[8] == 'p',
{
    reveal_strlit("notification.list");
    reveal_strlit("notification.clear");
    reveal_strlit("app.focus_override.set");
    reveal_strlit("app.simulate_active");
    reveal_strlit("debug.app.activate");
}

/// A method about notifications or the attention of the user does what its name says.
pub proof fn law_attention_methods(model: ModelView, params: ParamsView)
    ensures
        model.attention_method("notification.list"@, params) == Some(model.notification_list()),
        model.attention_method("notification.clear"@, params) == Some(model.notification_clear()),
        model.attention_method("app.focus_override.set"@, params) == Some(
            model.focus_override(params),
        ),
        model.attention_method("app.simulate_active"@, params) == Some(model.simulate_active()),
        model.attention_method("debug.app.activate"@, params) == Some(model.simulate_active()),
{
    lemma_attention_names();
}

} // verus!
