//! Answers to requests about the palette, and what its rows do.

use crate::answer_panes::pane_last_payload;
use crate::answer_surfaces::{
    surface_clear_history_payload, surface_close_payload, surface_create_payload,
    surface_send_text_payload, surface_split_payload,
};
use crate::answer_windows::{window_close_payload, window_create_payload};
use crate::answer_workspaces::{
    workspace_create_payload, workspace_next_payload, workspace_previous_payload,
};
use crate::ids;
use crate::ids::{parse_id, Drawn, SurfaceId, WindowId};
use crate::json;
use crate::json::{Value, ValueView};
use crate::model::{AppModel, ModelView};
use crate::palette::{CommandPaletteMode, RenameTarget};
use crate::palette_rows;
use crate::palette_rows::{
    command_palette_rows, palette_current_row, palette_effective_mode, palette_move_selection,
    palette_selected_place, PaletteRow, PaletteRowView,
};
use crate::params;
use crate::params::{
    current_window_surface_id, current_window_workspace_id, param_string, param_usize,
    raw_string_param, window_target_id, Params, ParamsView,
};
use crate::reply;
use crate::reply::{
    array, or_internal, or_invalid, tell, ErrorView, Fields, MethodError, MethodResult, Outcome,
    Reply,
};
use crate::state::{AppState, StateView};
use crate::text;
use crate::text::{begins_with, byte_count, copy_opt, joined, same_text, to_lower, trim};
use vstd::prelude::*;

verus! {

/// The parameters of a request that names one object.
pub open spec fn naming(key: Seq<char>, id: u128) -> ParamsView {
    reply::no_fields().push((key, json::id_value(id)))
}

/// The parameters of a request that names one object.
pub fn naming_params(key: &str, id: u128) -> (params: Params)
    ensures
        params::asked(&params) == naming(key@, id),
{
    let mut fields = Fields::new();
    fields.put(key, Value::id(id));
    fields.entries
}

/// One row as it is told.
pub open spec fn row_value(row: PaletteRowView, selected: bool) -> ValueView {
    ValueView::Object(
        reply::no_fields().push(("command_id"@, ValueView::Text(row.command_id))).push(
            ("title"@, ValueView::Text(row.title)),
        ).push(("trailing_label"@, json::opt_text_value(row.trailing_label))).push(
            ("shortcut_hint"@, json::opt_text_value(row.shortcut_hint)),
        ).push(("surface_id"@, json::opt_text_value(row.surface_id))).push(
            ("workspace_id"@, json::opt_text_value(row.workspace_id)),
        ).push(("selected"@, ValueView::Bool(selected))),
    )
}

/// The first rows as they are told, at most `limit`.
pub open spec fn row_values(rows: Seq<PaletteRowView>, limit: usize, selected: int) -> Seq<
    ValueView,
> {
    let count = if limit < rows.len() {
        limit as nat
    } else {
        rows.len()
    };
    Seq::new(count, |at: int| row_value(rows[at], at == selected))
}

impl ModelView {
    /// The model in which the palette of a window is closed.
    pub open spec fn palette_closed(self, window_id: WindowId) -> ModelView {
        self.with_palette(window_id, self.palette(window_id).closed())
    }

    /// The model in which the palette of a window is open in a mode.
    pub open spec fn palette_opened(
        self,
        window_id: WindowId,
        mode: CommandPaletteMode,
    ) -> ModelView {
        self.with_palette(window_id, self.palette(window_id).opened(mode))
    }

    /// The model in which the palette of a window asks for a title.
    pub open spec fn palette_renaming(
        self,
        window_id: WindowId,
        target: RenameTarget,
        title: Seq<char>,
    ) -> ModelView {
        self.with_palette(
            window_id,
            self.palette(window_id).renaming(target, title, self.rename_select_all),
        )
    }

    /// Whether the palette of a window is on screen, and what it offers.
    pub open spec fn palette_visible(self, params: ParamsView) -> Outcome {
        match params::window_target(self, params) {
            (model, Err(error)) => (model, Err(error)),
            (model, Ok(window_id)) => {
                let palette = model.palette(window_id);
                Reply::of(model).with("id"@, json::id_value(window_id)).window(window_id).with(
                    "visible"@,
                    ValueView::Bool(palette.visible),
                ).with("mode"@, ValueView::Text(palette.effective_mode().word())).done()
            },
        }
    }

    /// Whether the palette of this window is on screen, and what it offers.
    pub open spec fn palette_of(self, window_id: WindowId) -> Outcome {
        self.palette_visible(naming("window_id"@, window_id))
    }

    /// The palette of a window is opened or closed.
    pub open spec fn palette_toggle(self, params: ParamsView) -> Outcome {
        match params::window_target(self, params) {
            (model, Err(error)) => (model, Err(error)),
            (model, Ok(window_id)) => if model.palette(window_id).visible {
                model.palette_closed(window_id).palette_of(window_id)
            } else {
                model.palette_opened(window_id, CommandPaletteMode::Switcher).palette_of(window_id)
            },
        }
    }

    /// What the palette of a window shows.
    pub open spec fn palette_results(self, params: ParamsView) -> Outcome {
        match params::window_target(self, params) {
            (model, Err(error)) => (model, Err(error)),
            (model, Ok(window_id)) => match params::number(params, "limit"@) {
                Err(error) => (model, Err(error)),
                Ok(number) => {
                    let limit = match number {
                        Some(inner) => inner,
                        None => 20usize,
                    };
                    let palette = model.palette(window_id);
                    let rows = model.palette_rows(window_id, palette);
                    Reply::of(model).with("id"@, json::id_value(window_id)).window(window_id).with(
                        "visible"@,
                        ValueView::Bool(palette.visible),
                    ).with("mode"@, ValueView::Text(palette.effective_mode().word())).with(
                        "query"@,
                        ValueView::Text(palette.text),
                    ).with(
                        "results"@,
                        ValueView::Array(
                            row_values(rows, limit, model.selected_place(window_id)),
                        ),
                    ).done()
                },
            },
        }
    }

    /// Which row of the palette of a window is selected.
    pub open spec fn palette_selection(self, params: ParamsView) -> Outcome {
        match params::window_target(self, params) {
            (model, Err(error)) => (model, Err(error)),
            (model, Ok(window_id)) => {
                let palette = model.palette(window_id);
                Reply::of(model).with("id"@, json::id_value(window_id)).window(window_id).with(
                    "selected_index"@,
                    json::count_value(model.selected_place(window_id) as nat),
                ).with("visible"@, ValueView::Bool(palette.visible)).with(
                    "mode"@,
                    ValueView::Text(palette.effective_mode().word()),
                ).done()
            },
        }
    }

    /// Which part of the text in the palette of a window is selected.
    pub open spec fn input_selection(self, params: ParamsView) -> Outcome {
        match params::window_target(self, params) {
            (model, Err(error)) => (model, Err(error)),
            (model, Ok(window_id)) => {
                let palette = model.palette(window_id);
                Reply::of(model).with("id"@, json::id_value(window_id)).window(window_id).with(
                    "focused"@,
                    ValueView::Bool(palette.visible),
                ).with("text_length"@, json::count_value(text::byte_len(palette.text))).with(
                    "selection_location"@,
                    json::count_value(palette.selection_location as nat),
                ).with(
                    "selection_length"@,
                    json::count_value(palette.selection_length as nat),
                ).done()
            },
        }
    }

    /// The line for a title is clicked.
    pub open spec fn input_interact(self, params: ParamsView) -> Outcome {
        match params::window_target(self, params) {
            (model, Err(error)) => (model, Err(error)),
            (model, Ok(window_id)) => {
                let palette = model.palette(window_id);
                let next = if palette.mode == CommandPaletteMode::RenameInput
                    && model.rename_select_all && palette.text.len() > 0 {
                    model.with_palette(window_id, palette.all_selected())
                } else {
                    model
                };
                next.input_selection(naming("window_id"@, window_id))
            },
        }
    }

    /// The key for deletion is pressed in the line for a title; where nothing is left, the palette
    /// goes back to commands.
    pub open spec fn input_delete_backward(self, params: ParamsView) -> Outcome {
        match params::window_target(self, params) {
            (model, Err(error)) => (model, Err(error)),
            (model, Ok(window_id)) => {
                let palette = model.palette(window_id);
                let next = if palette.mode != CommandPaletteMode::RenameInput {
                    model
                } else if palette.text.len() == 0 {
                    model.palette_opened(window_id, CommandPaletteMode::Commands)
                } else {
                    model.with_palette(window_id, palette.erased())
                };
                next.palette_of(window_id)
            },
        }
    }

    /// Whether a title to be changed is selected as a whole.
    pub open spec fn rename_select_all_set(self, params: ParamsView) -> Outcome {
        let next = match json::entry(params, "enabled"@) {
            Some(ValueView::Bool(enabled)) => ModelView { rename_select_all: enabled, ..self },
            _ => self,
        };
        Reply::of(next).with("enabled"@, ValueView::Bool(next.rename_select_all)).done()
    }

    /// The title of a surface.
    pub open spec fn surface_title(self, surface_id: SurfaceId) -> Result<Seq<char>, ErrorView> {
        match self.state.locate_surface(surface_id) {
            None => Err(ErrorView::not_found("Surface not found"@)),
            Some((workspace_id, _)) => match self.state.workspace(workspace_id) {
                None => Err(ErrorView::not_found("Surface not found"@)),
                Some(workspace) => match workspace.surface(surface_id) {
                    None => Err(ErrorView::not_found("Surface not found"@)),
                    Some(surface) => Ok(surface.title),
                },
            },
        }
    }

    /// The palette of a window asks for a title for its selected surface.
    pub open spec fn rename_tab_of(self, window_id: WindowId) -> Outcome {
        match self.shown_surface(window_id) {
            None => (self, Err(ErrorView::not_found("No focused surface"@))),
            Some(surface_id) => match self.surface_title(surface_id) {
                Err(error) => (self, Err(error)),
                Ok(title) => self.palette_renaming(
                    window_id,
                    RenameTarget::Surface(surface_id),
                    title,
                ).palette_of(window_id),
            },
        }
    }

    /// The palette of a window asks for a title for the workspace that the window shows.
    pub open spec fn rename_workspace_of(self, window_id: WindowId) -> Outcome {
        match self.shown_workspace(window_id) {
            None => (self, Err(ErrorView::not_found("No workspace selected"@))),
            Some(workspace_id) => match self.state.workspace(workspace_id) {
                None => (self, Err(ErrorView::not_found("Workspace not found"@))),
                Some(workspace) => self.palette_renaming(
                    window_id,
                    RenameTarget::Workspace(workspace_id),
                    workspace.title,
                ).palette_of(window_id),
            },
        }
    }

    /// The palette of a window asks for a title for its selected surface.
    pub open spec fn rename_tab_open(self, params: ParamsView) -> Outcome {
        match params::window_target(self, params) {
            (model, Err(error)) => (model, Err(error)),
            (model, Ok(window_id)) => model.rename_tab_of(window_id),
        }
    }

    /// The directory of the workspace that a window shows.
    pub open spec fn shown_directory(self, window_id: WindowId) -> Option<Seq<char>> {
        match self.shown_workspace(window_id) {
            None => None,
            Some(workspace_id) => match self.state.workspace(workspace_id) {
                None => None,
                Some(workspace) => workspace.current_directory,
            },
        }
    }

    /// A command of the palette about windows and workspaces is run.
    pub open spec fn outer_command(
        self,
        drawn: Drawn,
        window_id: WindowId,
        command: Seq<char>,
    ) -> Option<Outcome> {
        let closed = self.palette_closed(window_id);
        let about = naming("window_id"@, window_id);
        if command == "palette.newWindow"@ {
            Some(closed.window_create(drawn))
        } else if command == "palette.closeWindow"@ {
            Some(closed.window_close(drawn, about))
        } else if command == "palette.renameTab"@ {
            Some(self.rename_tab_of(window_id))
        } else if command == "palette.renameWorkspace"@ {
            Some(self.rename_workspace_of(window_id))
        } else if command == "palette.terminalOpenDirectory"@ {
            Some(
                closed.workspace_create(
                    drawn,
                    about.push(("cwd"@, json::opt_text_value(closed.shown_directory(window_id)))),
                ),
            )
        } else if command == "palette.newWorkspace"@ {
            Some(closed.workspace_create(drawn, about))
        } else if command == "palette.nextWorkspace"@ {
            Some(closed.workspace_relative(about, 1))
        } else if command == "palette.previousWorkspace"@ {
            Some(closed.workspace_relative(about, -1))
        } else {
            None
        }
    }

    /// A new pane beside the selected surface of a window.
    pub open spec fn split_shown(
        self,
        drawn: Drawn,
        window_id: WindowId,
        direction: Seq<char>,
    ) -> Outcome {
        match self.shown_surface(window_id) {
            None => (self, Err(ErrorView::not_found("No focused surface"@))),
            Some(surface_id) => self.surface_split(
                drawn,
                naming("surface_id"@, surface_id).push(("direction"@, ValueView::Text(direction))),
            ),
        }
    }

    /// A new surface in the workspace that a window shows.
    pub open spec fn create_in_shown(self, drawn: Drawn, window_id: WindowId) -> Outcome {
        match self.shown_workspace(window_id) {
            None => (self, Err(ErrorView::not_found("No workspace selected"@))),
            Some(workspace_id) => self.surface_create(
                drawn,
                naming("workspace_id"@, workspace_id),
            ),
        }
    }

    /// A command of the palette about panes and surfaces is run.
    pub open spec fn inner_command(
        self,
        drawn: Drawn,
        window_id: WindowId,
        command: Seq<char>,
    ) -> Option<Outcome> {
        let closed = self.palette_closed(window_id);
        if command == "palette.splitRight"@ {
            Some(closed.split_shown(drawn, window_id, "right"@))
        } else if command == "palette.splitDown"@ {
            Some(closed.split_shown(drawn, window_id, "down"@))
        } else if command == "palette.newTerminal"@ {
            Some(closed.create_in_shown(drawn, window_id))
        } else if command == "palette.closeTab"@ {
            Some(
                match closed.shown_surface(window_id) {
                    None => (closed, Err(ErrorView::not_found("No focused surface"@))),
                    Some(surface_id) => closed.surface_close(naming("surface_id"@, surface_id)),
                },
            )
        } else if command == "palette.clearTerminalHistory"@ {
            Some(
                match closed.shown_surface(window_id) {
                    None => (closed, Err(ErrorView::not_found("No focused surface"@))),
                    Some(surface_id) => closed.surface_clear_history(
                        naming("surface_id"@, surface_id),
                    ),
                },
            )
        } else if command == "palette.focusLastPane"@ {
            Some(
                match closed.shown_workspace(window_id) {
                    None => (closed, Err(ErrorView::not_found("No workspace selected"@))),
                    Some(workspace_id) => closed.pane_last(naming("workspace_id"@, workspace_id)),
                },
            )
        } else {
            None
        }
    }

    /// The workspace of a row is shown.
    pub open spec fn switch_to_workspace(
        self,
        window_id: WindowId,
        row: PaletteRowView,
    ) -> Outcome {
        match row_id(row.workspace_id) {
            None => (self, Err(ErrorView::not_found("Workspace not found"@))),
            Some(workspace_id) => match self.internal(self.state.select_workspace(workspace_id)) {
                (next, Err(error)) => (next, Err(error)),
                (next, Ok(_)) => {
                    let closed = next.palette_closed(window_id);
                    closed.finished(closed.told(workspace_id, None, None))
                },
            },
        }
    }

    /// The surface of a row has the focus.
    pub open spec fn switch_to_surface(self, window_id: WindowId, row: PaletteRowView) -> Outcome {
        match row_id(row.surface_id) {
            None => (self, Err(ErrorView::not_found("Surface not found"@))),
            Some(surface_id) => match self.internal(self.state.focus_surface(surface_id)) {
                (next, Err(error)) => (next, Err(error)),
                (next, Ok((workspace_id, pane_id))) => {
                    let closed = next.palette_closed(window_id);
                    closed.finished(closed.told(workspace_id, Some(pane_id), Some(surface_id)))
                },
            },
        }
    }

    /// What a row of the palette does.
    pub open spec fn execute_row(
        self,
        drawn: Drawn,
        window_id: WindowId,
        row: PaletteRowView,
    ) -> Outcome {
        match self.outer_command(drawn, window_id, row.command_id) {
            Some(outcome) => outcome,
            None => match self.inner_command(drawn, window_id, row.command_id) {
                Some(outcome) => outcome,
                None => if text::begins(row.command_id, "switcher.workspace."@) {
                    self.switch_to_workspace(window_id, row)
                } else if text::begins(row.command_id, "switcher.surface."@) {
                    self.switch_to_surface(window_id, row)
                } else {
                    Reply::of(self.palette_closed(window_id)).window(window_id).with(
                        "command_id"@,
                        ValueView::Text(row.command_id),
                    ).done()
                },
            },
        }
    }

    /// The title that was typed is given to what it is for.
    pub open spec fn renamed(self, window_id: WindowId) -> params::Search<()> {
        let palette = self.palette(window_id);
        let title = text::trimmed(palette.text);
        match palette.rename_target {
            None => (self, Ok(())),
            Some(RenameTarget::Surface(surface_id)) => match self.invalid(
                self.state.rename_surface(surface_id, title),
            ) {
                (next, Err(error)) => (next, Err(error)),
                (next, Ok(_)) => (next, Ok(())),
            },
            Some(RenameTarget::Workspace(workspace_id)) => self.invalid(
                self.state.rename_workspace(workspace_id, title),
            ),
        }
    }

    /// What the selected row of the palette does; in the line for a title, the title is given.
    pub open spec fn execute_selection(self, drawn: Drawn, window_id: WindowId) -> Outcome {
        let palette = self.palette(window_id);
        if !palette.visible {
            Reply::of(self).done()
        } else if palette.mode == CommandPaletteMode::RenameInput {
            match self.renamed(window_id) {
                (next, Err(error)) => (next, Err(error)),
                (next, Ok(_)) => next.palette_closed(window_id).palette_of(window_id),
            }
        } else {
            match self.selected_row(window_id) {
                None => Reply::of(self.palette_closed(window_id)).done(),
                Some(row) => self.execute_row(drawn, window_id, row),
            }
        }
    }

    /// The palette of a window is opened in a mode, or closed if it offers the same already.
    pub open spec fn palette_mode_toggled(
        self,
        window_id: WindowId,
        mode: CommandPaletteMode,
    ) -> Outcome {
        let palette = self.palette(window_id);
        if palette.visible && palette.effective_mode() == mode {
            self.palette_closed(window_id).palette_of(window_id)
        } else {
            self.palette_opened(window_id, mode).palette_of(window_id)
        }
    }

    /// Keys are pressed in the current window.
    pub open spec fn shortcut_pressed(self, drawn: Drawn, combo: Seq<char>) -> Outcome {
        let window_id = self.state.window_id;
        let about = naming("window_id"@, window_id);
        let open = self.palette(window_id).visible;
        if combo == "cmd+b"@ || combo == "command+b"@ {
            Reply::of(self.toggle_sidebar(window_id)).window(window_id).with(
                "visible"@,
                ValueView::Bool(!self.sidebar_visible(window_id)),
            ).done()
        } else if combo == "cmd+t"@ || combo == "command+t"@ {
            self.create_in_shown(drawn, window_id)
        } else if combo == "cmd+p"@ || combo == "command+p"@ {
            self.palette_mode_toggled(window_id, CommandPaletteMode::Switcher)
        } else if combo == "cmd+shift+p"@ || combo == "command+shift+p"@ {
            self.palette_mode_toggled(window_id, CommandPaletteMode::Commands)
        } else if open && (combo == "cmd+a"@ || combo == "command+a"@) {
            self.with_palette(window_id, self.palette(window_id).all_selected()).input_selection(
                about,
            )
        } else if open && is_down(combo) {
            self.reselected(window_id, 1).palette_selection(about)
        } else if open && is_up(combo) {
            self.reselected(window_id, -1).palette_selection(about)
        } else if open && (combo == "enter"@ || combo == "return"@) {
            self.execute_selection(drawn, window_id)
        } else {
            (self, Err(ErrorView::invalid_params("unsupported shortcut "@ + combo)))
        }
    }

    /// Keys are pressed.
    pub open spec fn shortcut_simulate(self, drawn: Drawn, params: ParamsView) -> Outcome {
        match params::word(params, "combo"@) {
            None => (self, Err(ErrorView::invalid_params("Missing or invalid combo"@))),
            Some(combo) => self.shortcut_pressed(drawn, text::lowered(combo)),
        }
    }

    /// A shortcut gets other keys.
    pub open spec fn shortcut_set(self, params: ParamsView) -> Outcome {
        match params::word(params, "name"@) {
            None => (self, Err(ErrorView::invalid_params("Missing or invalid name"@))),
            Some(name) => match params::word(params, "combo"@) {
                None => (self, Err(ErrorView::invalid_params("Missing or invalid combo"@))),
                Some(combo) => {
                    let next = self.with_shortcut(name, combo);
                    Reply::of(next).with("name"@, ValueView::Text(name)).with(
                        "combo"@,
                        ValueView::Text(combo),
                    ).with("shortcut_hint"@, ValueView::Text(next.shortcut_hint(name))).done()
                },
            },
        }
    }

    /// A text is typed: into the palette of the current window where it is open, else into a
    /// surface.
    pub open spec fn type_anywhere(self, params: ParamsView) -> Outcome {
        let window_id = self.state.window_id;
        let palette = self.palette(window_id);
        if palette.visible {
            match params::raw_word(params, "text"@) {
                None => (self, Err(ErrorView::invalid_params("Missing text"@))),
                Some(content) => self.with_palette(
                    window_id,
                    palette.typed(content),
                ).palette_results(naming("window_id"@, window_id)),
            }
        } else {
            self.surface_send_text(params)
        }
    }
}

/// Whether a command of the palette may number a new workspace.
pub open spec fn command_numbers_workspaces(command: Seq<char>) -> bool {
    ||| command == "palette.newWindow"@
    ||| command == "palette.closeWindow"@
    ||| command == "palette.terminalOpenDirectory"@
    ||| command == "palette.newWorkspace"@
}

/// Whether a command of the palette may number a new terminal, and no workspace.
pub open spec fn command_numbers_terminals(command: Seq<char>) -> bool {
    ||| command == "palette.splitRight"@
    ||| command == "palette.splitDown"@
    ||| command == "palette.newTerminal"@
}

impl StateView {
    /// Whether what a command of the palette may make can be numbered.
    pub open spec fn has_room_for_command(self, command: Seq<char>) -> bool {
        &&& command_numbers_workspaces(command) ==> self.has_room()
        &&& command_numbers_terminals(command) ==> self.next_surface_title_number < usize::MAX
    }
}

impl ModelView {
    /// Whether what the selected row of the palette of a window may make can be numbered.
    pub open spec fn has_room_for_selection(self, window_id: WindowId) -> bool {
        let palette = self.palette(window_id);
        if palette.visible && palette.mode != CommandPaletteMode::RenameInput {
            match self.selected_row(window_id) {
                None => true,
                Some(row) => self.state.has_room_for_command(row.command_id),
            }
        } else {
            true
        }
    }

    /// Whether what keys may make can be numbered.
    pub open spec fn has_room_for_combo(self, combo: Seq<char>) -> bool {
        if combo == "cmd+t"@ || combo == "command+t"@ {
            self.state.next_surface_title_number < usize::MAX
        } else if combo == "enter"@ || combo == "return"@ {
            self.has_room_for_selection(self.state.window_id)
        } else {
            true
        }
    }

    /// Whether what the keys that a request names may make can be numbered.
    pub open spec fn has_room_for_keys(self, params: ParamsView) -> bool {
        match params::word(params, "combo"@) {
            None => true,
            Some(combo) => self.has_room_for_combo(text::lowered(combo)),
        }
    }
}

/// The identifier that a row has.
pub open spec fn row_id(content: Option<Seq<char>>) -> Option<u128> {
    match content {
        Some(inner) => ids::parsed_id(inner),
        None => None,
    }
}

/// The keys that select the next row.
pub open spec fn is_down(combo: Seq<char>) -> bool {
    combo == "down"@ || combo == "ctrl+n"@ || combo == "control+n"@ || combo == "ctrl+j"@ || combo
        == "control+j"@
}

/// The keys that select the previous row.
pub open spec fn is_up(combo: Seq<char>) -> bool {
    combo == "up"@ || combo == "ctrl+p"@ || combo == "control+p"@ || combo == "ctrl+k"@ || combo
        == "control+k"@
}

fn selects_next(combo: &str) -> (result: bool)
    ensures
        result == is_down(combo@),
{
    same_text(combo, "down") || same_text(combo, "ctrl+n") || same_text(combo, "control+n")
        || same_text(combo, "ctrl+j") || same_text(combo, "control+j")
}

fn selects_previous(combo: &str) -> (result: bool)
    ensures
        result == is_up(combo@),
{
    same_text(combo, "up") || same_text(combo, "ctrl+p") || same_text(combo, "control+p")
        || same_text(combo, "ctrl+k") || same_text(combo, "control+k")
}

fn either(combo: &str, first: &str, second: &str) -> (result: bool)
    ensures
        result == (combo@ == first@ || combo@ == second@),
{
    same_text(combo, first) || same_text(combo, second)
}

/// Answers whether the palette of a window is on screen.
pub fn debug_command_palette_visible_payload(model: &mut AppModel, params: &Params) -> (result:
    MethodResult)
    ensures
        reply::answers(result, final(model)@, old(model)@.palette_visible(params::asked(params))),
        final(model)@.palettes == old(model)@.palettes,
{
    let window_id = window_target_id(model, params)?;
    let palette = model.palette_state(window_id);
    let mode = palette_effective_mode(&palette);
    let mut fields = Fields::new();
    fields.put("id", Value::id(window_id));
    fields.put_window(model, window_id);
    fields.put_flag("visible", palette.visible);
    fields.put_text("mode", mode.as_str());
    Ok(fields.finish())
}

fn palette_of_window(model: &mut AppModel, window_id: WindowId) -> (result: MethodResult)
    ensures
        reply::answers(result, final(model)@, old(model)@.palette_of(window_id)),
        final(model)@.palettes == old(model)@.palettes,
{
    debug_command_palette_visible_payload(model, &naming_params("window_id", window_id))
}

/// Opens or closes the palette of a window.
pub fn debug_command_palette_toggle_payload(model: &mut AppModel, params: &Params) -> (result:
    MethodResult)
    ensures
        reply::answers(result, final(model)@, old(model)@.palette_toggle(params::asked(params))),
        old(model)@.well_formed() ==> final(model)@.well_formed(),
{
    let window_id = window_target_id(model, params)?;
    if model.palette_state(window_id).visible {
        model.close_palette(window_id);
    } else {
        model.open_palette_mode(window_id, CommandPaletteMode::Switcher);
    }
    palette_of_window(model, window_id)
}

fn row_object(row: &PaletteRow, selected: bool) -> (value: Value)
    ensures
        value@ == row_value(row@, selected),
{
    let mut fields = Fields::new();
    fields.put_text("command_id", row.command_id.as_str());
    fields.put_text("title", row.title.as_str());
    fields.put("trailing_label", Value::opt_text(&row.trailing_label));
    fields.put("shortcut_hint", Value::opt_text(&row.shortcut_hint));
    fields.put("surface_id", Value::opt_text(&row.surface_id));
    fields.put("workspace_id", Value::opt_text(&row.workspace_id));
    fields.put_flag("selected", selected);
    fields.finish()
}

fn row_objects(rows: &Vec<PaletteRow>, limit: usize, selected: usize) -> (value: Value)
    ensures
        value@ == ValueView::Array(
            row_values(palette_rows::palette_row_views(rows@), limit, selected as int),
        ),
{
    let count = if limit < rows.len() {
        limit
    } else {
        rows.len()
    };
    let ghost views = palette_rows::palette_row_views(rows@);
    let mut values: Vec<Value> = Vec::new();
    let mut at: usize = 0;
    while at < count
        invariant
            at <= count <= rows@.len(),
            values@.len() == at,
            views == palette_rows::palette_row_views(rows@),
            forall|k: int|
                0 <= k < at ==> (#[trigger] values@[k])@ == row_value(views[k], k == selected),
        decreases count - at,
    {
        values.push(row_object(&rows[at], at == selected));
        at = at + 1;
    }
    proof {
        assert(json::value_views(values@) =~= row_values(views, limit, selected as int));
    }
    array(values)
}

/// Answers what the palette of a window shows.
pub fn debug_command_palette_results_payload(model: &mut AppModel, params: &Params) -> (result:
    MethodResult)
    ensures
        reply::answers(result, final(model)@, old(model)@.palette_results(params::asked(params))),
        final(model)@.palettes == old(model)@.palettes,
{
    let window_id = window_target_id(model, params)?;
    let limit: usize = match param_usize(params, "limit")? {
        Some(limit) => limit,
        None => 20,
    };
    let palette = model.palette_state(window_id);
    let mode = palette_effective_mode(&palette);
    let rows = command_palette_rows(model, window_id, &palette);
    let selected = palette_selected_place(model, window_id);
    let results = row_objects(&rows, limit, selected);
    let mut fields = Fields::new();
    fields.put("id", Value::id(window_id));
    fields.put_window(model, window_id);
    fields.put_flag("visible", palette.visible);
    fields.put_text("mode", mode.as_str());
    fields.put_text("query", palette.text.as_str());
    fields.put("results", results);
    Ok(fields.finish())
}

/// Answers which row of the palette of a window is selected.
pub fn debug_command_palette_selection_payload(model: &mut AppModel, params: &Params) -> (result:
    MethodResult)
    ensures
        reply::answers(result, final(model)@, old(model)@.palette_selection(params::asked(params))),
        final(model)@.palettes == old(model)@.palettes,
{
    let window_id = window_target_id(model, params)?;
    let palette = model.palette_state(window_id);
    let mode = palette_effective_mode(&palette);
    let selected = palette_selected_place(model, window_id);
    let mut fields = Fields::new();
    fields.put("id", Value::id(window_id));
    fields.put_window(model, window_id);
    fields.put_count("selected_index", selected);
    fields.put_flag("visible", palette.visible);
    fields.put_text("mode", mode.as_str());
    Ok(fields.finish())
}

/// Answers which part of the text in the palette of a window is selected.
pub fn debug_command_palette_rename_input_selection_payload(
    model: &mut AppModel,
    params: &Params,
) -> (result: MethodResult)
    ensures
        reply::answers(result, final(model)@, old(model)@.input_selection(params::asked(params))),
        final(model)@.palettes == old(model)@.palettes,
{
    let window_id = window_target_id(model, params)?;
    let palette = model.palette_state(window_id);
    let mut fields = Fields::new();
    fields.put("id", Value::id(window_id));
    fields.put_window(model, window_id);
    fields.put_flag("focused", palette.visible);
    fields.put_count("text_length", byte_count(palette.text.as_str()));
    fields.put_count("selection_location", palette.selection_location);
    fields.put_count("selection_length", palette.selection_length);
    Ok(fields.finish())
}

/// Clicks the line for a title.
pub fn debug_command_palette_rename_input_interact_payload(
    model: &mut AppModel,
    params: &Params,
) -> (result: MethodResult)
    ensures
        reply::answers(result, final(model)@, old(model)@.input_interact(params::asked(params))),
        old(model)@.well_formed() ==> final(model)@.well_formed(),
{
    let window_id = window_target_id(model, params)?;
    let palette = model.palette_state(window_id);
    if palette.mode == CommandPaletteMode::RenameInput && model.rename_select_all
        && !palette.text.as_str().is_empty() {
        model.select_all_palette_text(window_id);
    }
    debug_command_palette_rename_input_selection_payload(
        model,
        &naming_params("window_id", window_id),
    )
}

/// Presses the key for deletion in the line for a title.
pub fn debug_command_palette_rename_input_delete_backward_payload(
    model: &mut AppModel,
    params: &Params,
) -> (result: MethodResult)
    requires
        old(model)@.well_formed(),
    ensures
        reply::answers(
            result,
            final(model)@,
            old(model)@.input_delete_backward(params::asked(params)),
        ),
        final(model)@.well_formed(),
{
    let window_id = window_target_id(model, params)?;
    let palette = model.palette_state(window_id);
    if palette.mode == CommandPaletteMode::RenameInput {
        if palette.text.as_str().is_empty() {
            model.open_palette_mode(window_id, CommandPaletteMode::Commands);
        } else {
            model.delete_backward_palette_text(window_id);
        }
    }
    palette_of_window(model, window_id)
}

/// Sets whether a title to be changed is selected as a whole.
pub fn debug_command_palette_rename_select_all_payload(model: &mut AppModel, params: &Params) -> (result:
    MethodResult)
    ensures
        reply::answers(
            result,
            final(model)@,
            old(model)@.rename_select_all_set(params::asked(params)),
        ),
        final(model)@.palettes == old(model)@.palettes,
{
    if let Some(value) = json::entry_of(params, "enabled") {
        if let Some(enabled) = value.as_bool() {
            model.rename_select_all = enabled;
        }
    }
    let mut fields = Fields::new();
    fields.put_flag("enabled", model.rename_select_all);
    Ok(fields.finish())
}

fn title_of_surface(model: &AppModel, surface_id: SurfaceId) -> (title: Result<String, MethodError>)
    ensures
        match title {
            Ok(content) => model@.surface_title(surface_id) == Ok::<Seq<char>, ErrorView>(content@),
            Err(error) => model@.surface_title(surface_id) == Err::<Seq<char>, ErrorView>(error@),
        },
{
    match model.state.locate_surface(surface_id) {
        None => Err(MethodError::not_found("Surface not found")),
        Some((workspace_id, _)) => match model.state.workspace(workspace_id) {
            None => Err(MethodError::not_found("Surface not found")),
            Some(workspace) => match workspace.surface(surface_id) {
                None => Err(MethodError::not_found("Surface not found")),
                Some(surface) => Ok(surface.title.clone()),
            },
        },
    }
}

fn open_rename_tab(model: &mut AppModel, window_id: WindowId) -> (result: MethodResult)
    ensures
        reply::answers(result, final(model)@, old(model)@.rename_tab_of(window_id)),
        old(model)@.well_formed() ==> final(model)@.well_formed(),
{
    match current_window_surface_id(model, window_id) {
        None => Err(MethodError::not_found("No focused surface")),
        Some(surface_id) => {
            let title = title_of_surface(model, surface_id)?;
            model.open_palette_rename_input(window_id, RenameTarget::Surface(surface_id), title);
            palette_of_window(model, window_id)
        },
    }
}

fn open_rename_workspace(model: &mut AppModel, window_id: WindowId) -> (result: MethodResult)
    ensures
        reply::answers(result, final(model)@, old(model)@.rename_workspace_of(window_id)),
        old(model)@.well_formed() ==> final(model)@.well_formed(),
{
    match current_window_workspace_id(model, window_id) {
        None => Err(MethodError::not_found("No workspace selected")),
        Some(workspace_id) => {
            let title: String = match model.state.workspace(workspace_id) {
                Some(workspace) => workspace.title.clone(),
                None => {
                    return Err(MethodError::not_found("Workspace not found"));
                },
            };
            model.open_palette_rename_input(
                window_id,
                RenameTarget::Workspace(workspace_id),
                title,
            );
            palette_of_window(model, window_id)
        },
    }
}

/// Lets the palette of a window ask for a title for its selected surface.
pub fn debug_command_palette_rename_tab_open_payload(model: &mut AppModel, params: &Params) -> (result:
    MethodResult)
    ensures
        reply::answers(result, final(model)@, old(model)@.rename_tab_open(params::asked(params))),
        old(model)@.well_formed() ==> final(model)@.well_formed(),
{
    let window_id = window_target_id(model, params)?;
    open_rename_tab(model, window_id)
}

fn directory_of_shown(model: &AppModel, window_id: WindowId) -> (directory: Option<String>)
    ensures
        text::opt_text(directory) == model@.shown_directory(window_id),
{
    match current_window_workspace_id(model, window_id) {
        None => None,
        Some(workspace_id) => match model.state.workspace(workspace_id) {
            None => None,
            Some(workspace) => copy_opt(&workspace.current_directory),
        },
    }
}

fn open_directory_params(window_id: WindowId, directory: &Option<String>) -> (params: Params)
    ensures
        params::asked(&params) == naming("window_id"@, window_id).push(
            ("cwd"@, json::opt_text_value(text::opt_text(*directory))),
        ),
{
    let mut fields = Fields::new();
    fields.put("window_id", Value::id(window_id));
    fields.put("cwd", Value::opt_text(directory));
    fields.entries
}

/// Whether what a command of the palette may make can be numbered.
pub fn has_room_for_command(state: &AppState, command: &str) -> (room: bool)
    ensures
        room == state@.has_room_for_command(command@),
{
    let workspaces = same_text(command, "palette.newWindow")
        || same_text(command, "palette.closeWindow")
        || same_text(command, "palette.terminalOpenDirectory")
        || same_text(command, "palette.newWorkspace");
    let terminals = same_text(command, "palette.splitRight")
        || same_text(command, "palette.splitDown")
        || same_text(command, "palette.newTerminal");
    (!workspaces || state.has_room()) && (!terminals || state.next_surface_title_number
        < usize::MAX)
}

/// Whether what the selected row of the palette of a window may make can be numbered.
pub fn has_room_for_selection(model: &AppModel, window_id: WindowId) -> (room: bool)
    ensures
        room == model@.has_room_for_selection(window_id),
{
    let palette = model.palette_state(window_id);
    if !palette.visible || palette.mode == CommandPaletteMode::RenameInput {
        return true;
    }
    match palette_current_row(model, window_id) {
        None => true,
        Some(row) => has_room_for_command(&model.state, row.command_id.as_str()),
    }
}

/// Whether what the keys that a request names may make can be numbered.
pub fn has_room_for_keys(model: &AppModel, params: &Params) -> (room: bool)
    ensures
        room == model@.has_room_for_keys(params::asked(params)),
{
    match param_string(params, "combo") {
        None => true,
        Some(content) => {
            let combo = to_lower(content.as_str());
            if either(combo.as_str(), "cmd+t", "command+t") {
                model.state.next_surface_title_number < usize::MAX
            } else if either(combo.as_str(), "enter", "return") {
                has_room_for_selection(model, model.state.window_id)
            } else {
                true
            }
        },
    }
}

fn run_outer_command(model: &mut AppModel, drawn: Drawn, window_id: WindowId, command: &str) -> (result:
    Option<MethodResult>)
    requires
        old(model)@.state.has_room_for_command(command@),
    ensures
        match result {
            Some(inner) => match old(model)@.outer_command(drawn, window_id, command@) {
                Some(expected) => reply::answers(inner, final(model)@, expected),
                None => false,
            },
            None => old(model)@.outer_command(drawn, window_id, command@) is None && final(model)@
                == old(model)@,
        },
        old(model)@.well_formed() ==> final(model)@.well_formed(),
{
    if same_text(command, "palette.newWindow") {
        model.close_palette(window_id);
        Some(window_create_payload(model, drawn))
    } else if same_text(command, "palette.closeWindow") {
        model.close_palette(window_id);
        Some(window_close_payload(model, drawn, &naming_params("window_id", window_id)))
    } else if same_text(command, "palette.renameTab") {
        Some(open_rename_tab(model, window_id))
    } else if same_text(command, "palette.renameWorkspace") {
        Some(open_rename_workspace(model, window_id))
    } else if same_text(command, "palette.terminalOpenDirectory") {
        model.close_palette(window_id);
        let directory = directory_of_shown(model, window_id);
        let params = open_directory_params(window_id, &directory);
        Some(workspace_create_payload(model, drawn, &params))
    } else if same_text(command, "palette.newWorkspace") {
        model.close_palette(window_id);
        Some(workspace_create_payload(model, drawn, &naming_params("window_id", window_id)))
    } else if same_text(command, "palette.nextWorkspace") {
        model.close_palette(window_id);
        Some(workspace_next_payload(model, &naming_params("window_id", window_id)))
    } else if same_text(command, "palette.previousWorkspace") {
        model.close_palette(window_id);
        Some(workspace_previous_payload(model, &naming_params("window_id", window_id)))
    } else {
        None
    }
}

fn split_shown_surface(model: &mut AppModel, drawn: Drawn, window_id: WindowId, direction: &str) -> (result:
    MethodResult)
    requires
        old(model)@.state.next_surface_title_number < usize::MAX,
    ensures
        reply::answers(
            result,
            final(model)@,
            old(model)@.split_shown(drawn, window_id, direction@),
        ),
        final(model)@.palettes == old(model)@.palettes,
{
    match current_window_surface_id(model, window_id) {
        None => Err(MethodError::not_found("No focused surface")),
        Some(surface_id) => {
            let mut fields = Fields::new();
            fields.put("surface_id", Value::id(surface_id));
            fields.put_text("direction", direction);
            surface_split_payload(model, drawn, &fields.entries)
        },
    }
}

fn create_in_shown_workspace(model: &mut AppModel, drawn: Drawn, window_id: WindowId) -> (result:
    MethodResult)
    requires
        old(model)@.state.next_surface_title_number < usize::MAX,
    ensures
        reply::answers(result, final(model)@, old(model)@.create_in_shown(drawn, window_id)),
        final(model)@.palettes == old(model)@.palettes,
{
    match current_window_workspace_id(model, window_id) {
        None => Err(MethodError::not_found("No workspace selected")),
        Some(workspace_id) => surface_create_payload(
            model,
            drawn,
            &naming_params("workspace_id", workspace_id),
        ),
    }
}

fn run_inner_command(model: &mut AppModel, drawn: Drawn, window_id: WindowId, command: &str) -> (result:
    Option<MethodResult>)
    requires
        old(model)@.state.has_room_for_command(command@),
    ensures
        match result {
            Some(inner) => match old(model)@.inner_command(drawn, window_id, command@) {
                Some(expected) => reply::answers(inner, final(model)@, expected),
                None => false,
            },
            None => old(model)@.inner_command(drawn, window_id, command@) is None && final(model)@
                == old(model)@,
        },
        old(model)@.well_formed() ==> final(model)@.well_formed(),
{
    if same_text(command, "palette.splitRight") {
        model.close_palette(window_id);
        Some(split_shown_surface(model, drawn, window_id, "right"))
    } else if same_text(command, "palette.splitDown") {
        model.close_palette(window_id);
        Some(split_shown_surface(model, drawn, window_id, "down"))
    } else if same_text(command, "palette.newTerminal") {
        model.close_palette(window_id);
        Some(create_in_shown_workspace(model, drawn, window_id))
    } else if same_text(command, "palette.closeTab") {
        model.close_palette(window_id);
        Some(
            match current_window_surface_id(model, window_id) {
                None => Err(MethodError::not_found("No focused surface")),
                Some(surface_id) => surface_close_payload(
                    model,
                    &naming_params("surface_id", surface_id),
                ),
            },
        )
    } else if same_text(command, "palette.clearTerminalHistory") {
        model.close_palette(window_id);
        Some(
            match current_window_surface_id(model, window_id) {
                None => Err(MethodError::not_found("No focused surface")),
                Some(surface_id) => surface_clear_history_payload(
                    model,
                    &naming_params("surface_id", surface_id),
                ),
            },
        )
    } else if same_text(command, "palette.focusLastPane") {
        model.close_palette(window_id);
        Some(
            match current_window_workspace_id(model, window_id) {
                None => Err(MethodError::not_found("No workspace selected")),
                Some(workspace_id) => pane_last_payload(
                    model,
                    &naming_params("workspace_id", workspace_id),
                ),
            },
        )
    } else {
        None
    }
}

fn read_row_id(content: &Option<String>) -> (id: Option<u128>)
    ensures
        id == row_id(text::opt_text(*content)),
{
    match content {
        Some(inner) => parse_id(inner.as_str()),
        None => None,
    }
}

fn switch_workspace(model: &mut AppModel, window_id: WindowId, row: &PaletteRow) -> (result:
    MethodResult)
    ensures
        reply::answers(result, final(model)@, old(model)@.switch_to_workspace(window_id, row@)),
        old(model)@.well_formed() ==> final(model)@.well_formed(),
{
    match read_row_id(&row.workspace_id) {
        None => Err(MethodError::not_found("Workspace not found")),
        Some(workspace_id) => {
            or_internal(model.state.select_workspace(workspace_id))?;
            model.close_palette(window_id);
            let fields = tell(model, workspace_id, None, None)?;
            Ok(fields.finish())
        },
    }
}

fn switch_surface(model: &mut AppModel, window_id: WindowId, row: &PaletteRow) -> (result:
    MethodResult)
    ensures
        reply::answers(result, final(model)@, old(model)@.switch_to_surface(window_id, row@)),
        old(model)@.well_formed() ==> final(model)@.well_formed(),
{
    match read_row_id(&row.surface_id) {
        None => Err(MethodError::not_found("Surface not found")),
        Some(surface_id) => {
            let (workspace_id, pane_id) = or_internal(model.state.focus_surface(surface_id))?;
            model.close_palette(window_id);
            let fields = tell(model, workspace_id, Some(pane_id), Some(surface_id))?;
            Ok(fields.finish())
        },
    }
}

/// Does what a row of the palette does.
pub fn execute_command_palette_row(
    model: &mut AppModel,
    drawn: Drawn,
    window_id: WindowId,
    row: &PaletteRow,
) -> (result: MethodResult)
    requires
        old(model)@.state.has_room_for_command(row@.command_id),
    ensures
        reply::answers(result, final(model)@, old(model)@.execute_row(drawn, window_id, row@)),
        old(model)@.well_formed() ==> final(model)@.well_formed(),
{
    if let Some(result) = run_outer_command(model, drawn, window_id, row.command_id.as_str()) {
        return result;
    }
    if let Some(result) = run_inner_command(model, drawn, window_id, row.command_id.as_str()) {
        return result;
    }
    if begins_with(row.command_id.as_str(), "switcher.workspace.") {
        return switch_workspace(model, window_id, row);
    }
    if begins_with(row.command_id.as_str(), "switcher.surface.") {
        return switch_surface(model, window_id, row);
    }
    model.close_palette(window_id);
    let mut fields = Fields::new();
    fields.put_window(model, window_id);
    fields.put_text("command_id", row.command_id.as_str());
    Ok(fields.finish())
}

fn give_title(model: &mut AppModel, window_id: WindowId) -> (result: Result<(), MethodError>)
    ensures
        final(model)@ == old(model)@.renamed(window_id).0,
        reply::found(result) == old(model)@.renamed(window_id).1,
        final(model)@.palettes == old(model)@.palettes,
{
    let palette = model.palette_state(window_id);
    let title = trim(palette.text.as_str());
    match palette.rename_target {
        None => Ok(()),
        Some(RenameTarget::Surface(surface_id)) => {
            or_invalid(model.state.rename_surface(surface_id, title))?;
            Ok(())
        },
        Some(RenameTarget::Workspace(workspace_id)) => or_invalid(
            model.state.rename_workspace(workspace_id, title),
        ),
    }
}

/// Does what the selected row of the palette of a window does.
pub fn execute_command_palette_selection(model: &mut AppModel, drawn: Drawn, window_id: WindowId) -> (result:
    MethodResult)
    requires
        old(model)@.has_room_for_selection(window_id),
    ensures
        reply::answers(result, final(model)@, old(model)@.execute_selection(drawn, window_id)),
        old(model)@.well_formed() ==> final(model)@.well_formed(),
{
    let palette = model.palette_state(window_id);
    if !palette.visible {
        return Ok(Fields::new().finish());
    }
    if palette.mode == CommandPaletteMode::RenameInput {
        give_title(model, window_id)?;
        model.close_palette(window_id);
        return palette_of_window(model, window_id);
    }
    match palette_current_row(model, window_id) {
        None => {
            model.close_palette(window_id);
            Ok(Fields::new().finish())
        },
        Some(row) => execute_command_palette_row(model, drawn, window_id, &row),
    }
}

fn toggle_palette_mode(model: &mut AppModel, window_id: WindowId, mode: CommandPaletteMode) -> (result:
    MethodResult)
    ensures
        reply::answers(result, final(model)@, old(model)@.palette_mode_toggled(window_id, mode)),
        old(model)@.well_formed() ==> final(model)@.well_formed(),
{
    let palette = model.palette_state(window_id);
    if palette.visible && palette_effective_mode(&palette) == mode {
        model.close_palette(window_id);
    } else {
        model.open_palette_mode(window_id, mode);
    }
    palette_of_window(model, window_id)
}

fn toggle_sidebar_payload(model: &mut AppModel, window_id: WindowId) -> (result: MethodResult)
    ensures
        reply::answers(
            result,
            final(model)@,
            Reply::of(old(model)@.toggle_sidebar(window_id)).window(window_id).with(
                "visible"@,
                ValueView::Bool(!old(model)@.sidebar_visible(window_id)),
            ).done(),
        ),
        final(model)@.palettes == old(model)@.palettes,
{
    let visible = model.toggle_sidebar(window_id);
    let mut fields = Fields::new();
    fields.put_window(model, window_id);
    fields.put_flag("visible", visible);
    Ok(fields.finish())
}

fn press_shortcut(model: &mut AppModel, drawn: Drawn, combo: &str) -> (result: MethodResult)
    requires
        old(model)@.has_room_for_combo(combo@),
    ensures
        reply::answers(result, final(model)@, old(model)@.shortcut_pressed(drawn, combo@)),
        old(model)@.well_formed() ==> final(model)@.well_formed(),
{
    let window_id = model.state.window_id;
    let open = model.palette_state(window_id).visible;
    if either(combo, "cmd+b", "command+b") {
        toggle_sidebar_payload(model, window_id)
    } else if either(combo, "cmd+t", "command+t") {
        create_in_shown_workspace(model, drawn, window_id)
    } else if either(combo, "cmd+p", "command+p") {
        toggle_palette_mode(model, window_id, CommandPaletteMode::Switcher)
    } else if either(combo, "cmd+shift+p", "command+shift+p") {
        toggle_palette_mode(model, window_id, CommandPaletteMode::Commands)
    } else if open && either(combo, "cmd+a", "command+a") {
        model.select_all_palette_text(window_id);
        debug_command_palette_rename_input_selection_payload(
            model,
            &naming_params("window_id", window_id),
        )
    } else if open && selects_next(combo) {
        palette_move_selection(model, window_id, 1);
        debug_command_palette_selection_payload(model, &naming_params("window_id", window_id))
    } else if open && selects_previous(combo) {
        palette_move_selection(model, window_id, -1);
        debug_command_palette_selection_payload(model, &naming_params("window_id", window_id))
    } else if open && either(combo, "enter", "return") {
        execute_command_palette_selection(model, drawn, window_id)
    } else {
        Err(MethodError::invalid_params(joined("unsupported shortcut ", combo)))
    }
}

/// Presses keys in the current window.
pub fn debug_shortcut_simulate_payload(model: &mut AppModel, drawn: Drawn, params: &Params) -> (result:
    MethodResult)
    requires
        old(model)@.has_room_for_keys(params::asked(params)),
    ensures
        reply::answers(
            result,
            final(model)@,
            old(model)@.shortcut_simulate(drawn, params::asked(params)),
        ),
        old(model)@.well_formed() ==> final(model)@.well_formed(),
{
    match param_string(params, "combo") {
        None => Err(MethodError::invalid("Missing or invalid combo")),
        Some(combo) => press_shortcut(model, drawn, to_lower(combo.as_str()).as_str()),
    }
}

/// Gives a shortcut other keys.
pub fn debug_shortcut_set_payload(model: &mut AppModel, params: &Params) -> (result: MethodResult)
    ensures
        reply::answers(result, final(model)@, old(model)@.shortcut_set(params::asked(params))),
        final(model)@.palettes == old(model)@.palettes,
{
    let name: String = match param_string(params, "name") {
        Some(name) => name,
        None => {
            return Err(MethodError::invalid("Missing or invalid name"));
        },
    };
    let combo: String = match param_string(params, "combo") {
        Some(combo) => combo,
        None => {
            return Err(MethodError::invalid("Missing or invalid combo"));
        },
    };
    model.set_shortcut_override(name.as_str(), combo.as_str());
    let mut fields = Fields::new();
    fields.put_text("name", name.as_str());
    fields.put_text("combo", combo.as_str());
    fields.put("shortcut_hint", Value::Text(model.shortcut_hint(name.as_str())));
    Ok(fields.finish())
}

/// Types a text into the palette of the current window or into a surface.
pub fn debug_type_payload(model: &mut AppModel, params: &Params) -> (result: MethodResult)
    requires
        old(model)@.well_formed(),
    ensures
        reply::answers(result, final(model)@, old(model)@.type_anywhere(params::asked(params))),
        final(model)@.well_formed(),
{
    let window_id = model.state.window_id;
    if model.palette_state(window_id).visible {
        return match raw_string_param(params, "text") {
            None => Err(MethodError::invalid("Missing text")),
            Some(content) => {
                model.replace_palette_text(window_id, content.as_str());
                debug_command_palette_results_payload(
                    model,
                    &naming_params("window_id", window_id),
                )
            },
        };
    }
    surface_send_text_payload(model, params)
}

} // verus!
