//! Answers to requests about workspaces.

use crate::ids::{Drawn, WindowId, WorkspaceId};
use crate::json;
use crate::json::{Value, ValueView};
use crate::model::{AppModel, ModelView};
use crate::params;
use crate::params::{
    current_window_workspace_id, optional_string_param, param_flag, param_string, raw_string_param,
    require_window_id, require_workspace_id, window_of, window_target_id, workspace_target_index,
    Params, ParamsView,
};
use crate::registry::HandleKind;
use crate::reply;
use crate::reply::{
    array, or_internal, or_invalid, or_missing, tell, ErrorView, Fields, MethodError, MethodResult,
    Outcome, Reply,
};
use crate::text::copy_opt;
use vstd::prelude::*;

verus! {

impl ModelView {
    /// Whether a window shows a workspace.
    pub open spec fn shown_in(self, window_id: WindowId, workspace_id: WorkspaceId) -> bool {
        match self.state.window(window_id) {
            Some(window) => workspace_id == window.selected_workspace_id,
            None => false,
        }
    }

    /// What is told of one workspace.
    pub open spec fn workspace_row(self, at: int, window_id: WindowId, index: nat) -> Reply {
        let workspace = self.state.workspaces[at];
        Reply::of(self).with("id"@, json::id_value(workspace.id)).named(
            "ref"@,
            HandleKind::Workspace,
            workspace.id,
        ).with("index"@, json::count_value(index)).with(
            "title"@,
            ValueView::Text(workspace.title),
        ).with("selected"@, ValueView::Bool(self.shown_in(window_id, workspace.id))).with(
            "pinned"@,
            ValueView::Bool(false),
        ).with("current_directory"@, json::opt_text_value(workspace.current_directory)).with(
            "custom_color"@,
            ValueView::Null,
        )
    }

    /// What is told of the workspaces of a window among the first `count`.
    pub open spec fn workspace_rows(self, window_id: WindowId, count: int) -> (
        ModelView,
        Seq<ValueView>,
    )
        decreases count,
    {
        if count <= 0 {
            (self, Seq::empty())
        } else {
            let (model, rows) = self.workspace_rows(window_id, count - 1);
            if self.state.workspaces[count - 1].window_id == window_id {
                let row = model.workspace_row(count - 1, window_id, rows.len());
                (row.model, rows.push(ValueView::Object(row.fields)))
            } else {
                (model, rows)
            }
        }
    }

    /// The workspaces of a window.
    pub open spec fn workspace_list(self, params: ParamsView) -> Outcome {
        match params::window_target(self, params) {
            (model, Err(error)) => (model, Err(error)),
            (model, Ok(window_id)) => {
                let (next, rows) = model.workspace_rows(
                    window_id,
                    model.state.workspaces.len() as int,
                );
                Reply::of(next).window(window_id).with("workspaces"@, ValueView::Array(rows)).done()
            },
        }
    }

    /// A new workspace, which is not shown if the window shows another one.
    pub open spec fn workspace_create(self, drawn: Drawn, params: ParamsView) -> Outcome {
        match params::window_target(self, params) {
            (model, Err(error)) => (model, Err(error)),
            (model, Ok(window_id)) => match params::optional_word(params, "cwd"@) {
                Err(error) => (model, Err(error)),
                Ok(directory) => Reply::of(
                    model.with_state(
                        model.state.create_workspace(drawn, window_id, false, directory),
                    ),
                ).window(window_id).workspace(drawn.workspace).done(),
            },
        }
    }

    /// A workspace has another title.
    pub open spec fn workspace_rename(self, params: ParamsView) -> Outcome {
        match params::required(self, params, HandleKind::Workspace, "workspace_id"@) {
            (model, Err(error)) => (model, Err(error)),
            (model, Ok(workspace_id)) => match params::raw_word(params, "title"@) {
                None => (model, Err(ErrorView::invalid_params("Missing or invalid title"@))),
                Some(title) => match model.invalid(
                    model.state.rename_workspace(workspace_id, title),
                ) {
                    (next, Err(error)) => (next, Err(error)),
                    (next, Ok(_)) => next.finished(next.told(workspace_id, None, None)),
                },
            },
        }
    }

    /// The window whose workspaces are to be put in another order.
    pub open spec fn reordered_window(
        self,
        params: ParamsView,
        workspace_id: WorkspaceId,
    ) -> params::Search<WindowId> {
        if params::word(params, "window_id"@) is Some {
            params::required(self, params, HandleKind::Window, "window_id"@)
        } else {
            (self, self.window_of(workspace_id))
        }
    }

    /// A workspace has another place among those of its window.
    pub open spec fn workspace_reorder(self, params: ParamsView) -> Outcome {
        match params::required(self, params, HandleKind::Workspace, "workspace_id"@) {
            (first, Err(error)) => (first, Err(error)),
            (first, Ok(workspace_id)) => match first.reordered_window(params, workspace_id) {
                (second, Err(error)) => (second, Err(error)),
                (second, Ok(window_id)) => match params::workspace_place(
                    second,
                    workspace_id,
                    window_id,
                    params,
                ) {
                    (third, Err(error)) => (third, Err(error)),
                    (third, Ok(place)) => match third.invalid(
                        third.state.reorder_workspace(workspace_id, window_id, place),
                    ) {
                        (next, Err(error)) => (next, Err(error)),
                        (next, Ok(_)) => Reply::of(next).window(window_id).workspace(
                            workspace_id,
                        ).done(),
                    },
                },
            },
        }
    }

    /// A workspace is shown.
    pub open spec fn workspace_select(self, params: ParamsView) -> Outcome {
        match params::required(self, params, HandleKind::Workspace, "workspace_id"@) {
            (model, Err(error)) => (model, Err(error)),
            (model, Ok(workspace_id)) => match model.invalid(
                model.state.select_workspace(workspace_id),
            ) {
                (next, Err(error)) => (next, Err(error)),
                (next, Ok(_)) => next.finished(next.told(workspace_id, None, None)),
            },
        }
    }

    /// The workspace that a window shows.
    pub open spec fn workspace_current(self, params: ParamsView) -> Outcome {
        match params::window_target(self, params) {
            (model, Err(error)) => (model, Err(error)),
            (model, Ok(window_id)) => match model.shown_workspace(window_id) {
                None => (model, Err(ErrorView::not_found("No workspace selected"@))),
                Some(workspace_id) => Reply::of(model).window(window_id).workspace(
                    workspace_id,
                ).with(
                    "current_directory"@,
                    match model.state.workspace(workspace_id) {
                        Some(workspace) => json::opt_text_value(workspace.current_directory),
                        None => ValueView::Null,
                    },
                ).done(),
            },
        }
    }

    /// The window that a request is about, made the current one.
    pub open spec fn turned_to(self, params: ParamsView) -> params::Search<WindowId> {
        match params::window_target(self, params) {
            (model, Err(error)) => (model, Err(error)),
            (model, Ok(window_id)) => if model.state.window_id == window_id {
                (model, Ok(window_id))
            } else {
                match model.internal(model.state.focus_window(window_id)) {
                    (next, Err(error)) => (next, Err(error)),
                    (next, Ok(_)) => (next, Ok(window_id)),
                }
            },
        }
    }

    /// The workspace `delta` places further in its window is shown.
    pub open spec fn workspace_relative(self, params: ParamsView, delta: int) -> Outcome {
        match self.turned_to(params) {
            (model, Err(error)) => (model, Err(error)),
            (model, Ok(window_id)) => match model.internal(
                model.state.select_relative_workspace(delta),
            ) {
                (next, Err(error)) => (next, Err(error)),
                (next, Ok(workspace_id)) => Reply::of(next).window(window_id).workspace(
                    workspace_id,
                ).done(),
            },
        }
    }

    /// The workspace that was shown before is shown.
    pub open spec fn workspace_last(self, params: ParamsView) -> Outcome {
        match self.turned_to(params) {
            (model, Err(error)) => (model, Err(error)),
            (model, Ok(window_id)) => match model.internal(
                model.state.select_to(model.state.last_workspace()),
            ) {
                (next, Err(error)) => (next, Err(error)),
                (next, Ok(workspace_id)) => Reply::of(next).window(window_id).workspace(
                    workspace_id,
                ).done(),
            },
        }
    }

    /// A workspace goes to another window.
    pub open spec fn workspace_move(self, drawn: Drawn, params: ParamsView) -> Outcome {
        match params::required(self, params, HandleKind::Workspace, "workspace_id"@) {
            (first, Err(error)) => (first, Err(error)),
            (first, Ok(workspace_id)) => match params::required(
                first,
                params,
                HandleKind::Window,
                "window_id"@,
            ) {
                (second, Err(error)) => (second, Err(error)),
                (second, Ok(window_id)) => {
                    let focus = params::flag(params, "focus"@, true);
                    match second.internal(
                        second.state.move_workspace(drawn, workspace_id, window_id, focus),
                    ) {
                        (next, Err(error)) => (next, Err(error)),
                        (next, Ok(_)) => Reply::of(next).window(window_id).workspace(
                            workspace_id,
                        ).with("focused"@, ValueView::Bool(focus)).done(),
                    }
                },
            },
        }
    }

    /// A workspace is closed.
    pub open spec fn workspace_close(self, drawn: Drawn, params: ParamsView) -> Outcome {
        match params::required(self, params, HandleKind::Workspace, "workspace_id"@) {
            (model, Err(error)) => (model, Err(error)),
            (model, Ok(workspace_id)) => match model.state.workspace_window_id(workspace_id) {
                None => (
                    model,
                    Err(
                        ErrorView::not_found_id(
                            "Workspace not found"@,
                            "workspace_id"@,
                            workspace_id,
                        ),
                    ),
                ),
                Some(window_id) => match model.missing(
                    model.state.close_workspace(drawn, workspace_id),
                    "workspace_id"@,
                    workspace_id,
                ) {
                    (next, Err(error)) => (next, Err(error)),
                    (next, Ok(_)) => Reply::of(next).window(window_id).workspace(
                        workspace_id,
                    ).done(),
                },
            },
        }
    }
}

fn workspace_row_object(model: &mut AppModel, at: usize, window_id: WindowId, index: usize) -> (value:
    Value)
    requires
        at < old(model)@.state.workspaces.len(),
    ensures
        final(model)@ == old(model)@.workspace_row(at as int, window_id, index as nat).model,
        value@ == ValueView::Object(
            old(model)@.workspace_row(at as int, window_id, index as nat).fields,
        ),
{
    let workspace_id = model.state.workspaces[at].id;
    let title = model.state.workspaces[at].title.clone();
    let directory = copy_opt(&model.state.workspaces[at].current_directory);
    let shown = match model.state.window(window_id) {
        Some(window) => workspace_id == window.selected_workspace_id,
        None => false,
    };
    let mut fields = Fields::new();
    fields.put("id", Value::id(workspace_id));
    fields.put_name(model, "ref", HandleKind::Workspace, workspace_id);
    fields.put_count("index", index);
    fields.put_text("title", title.as_str());
    fields.put_flag("selected", shown);
    fields.put_flag("pinned", false);
    fields.put("current_directory", Value::opt_text(&directory));
    fields.put("custom_color", Value::Null);
    fields.finish()
}

/// Answers which workspaces a window has.
pub fn workspace_list_payload(model: &mut AppModel, params: &Params) -> (result: MethodResult)
    ensures
        reply::answers(result, final(model)@, old(model)@.workspace_list(params::asked(params))),
        final(model)@.palettes == old(model)@.palettes,
{
    let window_id = window_target_id(model, params)?;
    let ghost start = model@;
    let mut rows: Vec<Value> = Vec::new();
    let mut at: usize = 0;
    proof {
        assert(json::value_views(rows@) =~= Seq::empty());
    }
    while at < model.state.workspaces.len()
        invariant
            at <= start.state.workspaces.len(),
            (model@, json::value_views(rows@)) == start.workspace_rows(window_id, at as int),
            model@.state == start.state,
            model@.palettes == start.palettes,
        decreases start.state.workspaces.len() - at,
    {
        if model.state.workspaces[at].window_id == window_id {
            let ghost before = json::value_views(rows@);
            let index = rows.len();
            let row = workspace_row_object(model, at, window_id, index);
            let ghost content = row@;
            rows.push(row);
            proof {
                assert(json::value_views(rows@) =~= before.push(content));
            }
        }
        at = at + 1;
    }
    let mut fields = Fields::new();
    fields.put_window(model, window_id);
    fields.put("workspaces", array(rows));
    Ok(fields.finish())
}

/// Makes a workspace.
pub fn workspace_create_payload(model: &mut AppModel, drawn: Drawn, params: &Params) -> (result:
    MethodResult)
    requires
        old(model)@.state.has_room(),
    ensures
        reply::answers(
            result,
            final(model)@,
            old(model)@.workspace_create(drawn, params::asked(params)),
        ),
        final(model)@.palettes == old(model)@.palettes,
{
    let window_id = window_target_id(model, params)?;
    let directory = optional_string_param(params, "cwd")?;
    let workspace_id = model.state.create_workspace_with_ids(drawn, window_id, false, directory);
    let mut fields = Fields::new();
    fields.put_window(model, window_id);
    fields.put_workspace(model, workspace_id);
    Ok(fields.finish())
}

/// Gives a workspace another title.
pub fn workspace_rename_payload(model: &mut AppModel, params: &Params) -> (result: MethodResult)
    ensures
        reply::answers(result, final(model)@, old(model)@.workspace_rename(params::asked(params))),
        final(model)@.palettes == old(model)@.palettes,
{
    let workspace_id = require_workspace_id(model, params, "workspace_id")?;
    let title: String = match raw_string_param(params, "title") {
        Some(title) => title,
        None => {
            return Err(MethodError::invalid("Missing or invalid title"));
        },
    };
    or_invalid(model.state.rename_workspace(workspace_id, title))?;
    let fields = tell(model, workspace_id, None, None)?;
    Ok(fields.finish())
}

/// Gives a workspace another place among those of its window.
pub fn workspace_reorder_payload(model: &mut AppModel, params: &Params) -> (result: MethodResult)
    ensures
        reply::answers(result, final(model)@, old(model)@.workspace_reorder(params::asked(params))),
        final(model)@.palettes == old(model)@.palettes,
{
    let workspace_id = require_workspace_id(model, params, "workspace_id")?;
    let window_id: WindowId = if param_string(params, "window_id").is_some() {
        require_window_id(model, params, "window_id")?
    } else {
        window_of(model, workspace_id)?
    };
    let place = workspace_target_index(model, workspace_id, window_id, params)?;
    or_invalid(model.state.reorder_workspace_in_window(workspace_id, window_id, place))?;
    let mut fields = Fields::new();
    fields.put_window(model, window_id);
    fields.put_workspace(model, workspace_id);
    Ok(fields.finish())
}

/// Shows a workspace.
pub fn workspace_select_payload(model: &mut AppModel, params: &Params) -> (result: MethodResult)
    ensures
        reply::answers(result, final(model)@, old(model)@.workspace_select(params::asked(params))),
        final(model)@.palettes == old(model)@.palettes,
{
    let workspace_id = require_workspace_id(model, params, "workspace_id")?;
    or_invalid(model.state.select_workspace(workspace_id))?;
    let fields = tell(model, workspace_id, None, None)?;
    Ok(fields.finish())
}

/// Answers which workspace a window shows.
pub fn workspace_current_payload(model: &mut AppModel, params: &Params) -> (result: MethodResult)
    ensures
        reply::answers(result, final(model)@, old(model)@.workspace_current(params::asked(params))),
        final(model)@.palettes == old(model)@.palettes,
{
    let window_id = window_target_id(model, params)?;
    match current_window_workspace_id(model, window_id) {
        None => Err(MethodError::not_found("No workspace selected")),
        Some(workspace_id) => {
            let directory: Value = match model.state.workspace(workspace_id) {
                Some(workspace) => Value::opt_text(&workspace.current_directory),
                None => Value::Null,
            };
            let mut fields = Fields::new();
            fields.put_window(model, window_id);
            fields.put_workspace(model, workspace_id);
            fields.put("current_directory", directory);
            Ok(fields.finish())
        },
    }
}

fn turn_to_window(model: &mut AppModel, params: &Params) -> (result: Result<WindowId, MethodError>)
    ensures
        final(model)@ == old(model)@.turned_to(params::asked(params)).0,
        reply::found(result) == old(model)@.turned_to(params::asked(params)).1,
        final(model)@.palettes == old(model)@.palettes,
{
    let window_id = window_target_id(model, params)?;
    if model.state.window_id != window_id {
        or_internal(model.state.focus_window(window_id))?;
    }
    Ok(window_id)
}

/// Shows the next workspace of a window.
pub fn workspace_next_payload(model: &mut AppModel, params: &Params) -> (result: MethodResult)
    ensures
        reply::answers(
            result,
            final(model)@,
            old(model)@.workspace_relative(params::asked(params), 1),
        ),
        final(model)@.palettes == old(model)@.palettes,
{
    let window_id = turn_to_window(model, params)?;
    let workspace_id = or_internal(model.state.select_next_workspace())?;
    let mut fields = Fields::new();
    fields.put_window(model, window_id);
    fields.put_workspace(model, workspace_id);
    Ok(fields.finish())
}

/// Shows the previous workspace of a window.
pub fn workspace_previous_payload(model: &mut AppModel, params: &Params) -> (result: MethodResult)
    ensures
        reply::answers(
            result,
            final(model)@,
            old(model)@.workspace_relative(params::asked(params), -1),
        ),
        final(model)@.palettes == old(model)@.palettes,
{
    let window_id = turn_to_window(model, params)?;
    let workspace_id = or_internal(model.state.select_previous_workspace())?;
    let mut fields = Fields::new();
    fields.put_window(model, window_id);
    fields.put_workspace(model, workspace_id);
    Ok(fields.finish())
}

/// Shows the workspace that a window showed before.
pub fn workspace_last_payload(model: &mut AppModel, params: &Params) -> (result: MethodResult)
    ensures
        reply::answers(result, final(model)@, old(model)@.workspace_last(params::asked(params))),
        final(model)@.palettes == old(model)@.palettes,
{
    let window_id = turn_to_window(model, params)?;
    let workspace_id = or_internal(model.state.select_last_workspace())?;
    let mut fields = Fields::new();
    fields.put_window(model, window_id);
    fields.put_workspace(model, workspace_id);
    Ok(fields.finish())
}

/// Moves a workspace to another window.
pub fn workspace_move_to_window_payload(model: &mut AppModel, drawn: Drawn, params: &Params) -> (result:
    MethodResult)
    requires
        old(model)@.state.has_room(),
    ensures
        reply::answers(
            result,
            final(model)@,
            old(model)@.workspace_move(drawn, params::asked(params)),
        ),
        final(model)@.palettes == old(model)@.palettes,
{
    let workspace_id = require_workspace_id(model, params, "workspace_id")?;
    let window_id = require_window_id(model, params, "window_id")?;
    let focus = param_flag(params, "focus", true);
    or_internal(model.state.move_workspace_with_ids(drawn, workspace_id, window_id, focus))?;
    let mut fields = Fields::new();
    fields.put_window(model, window_id);
    fields.put_workspace(model, workspace_id);
    fields.put_flag("focused", focus);
    Ok(fields.finish())
}

/// Closes a workspace.
pub fn workspace_close_payload(model: &mut AppModel, drawn: Drawn, params: &Params) -> (result:
    MethodResult)
    requires
        old(model)@.state.has_room(),
    ensures
        reply::answers(
            result,
            final(model)@,
            old(model)@.workspace_close(drawn, params::asked(params)),
        ),
        final(model)@.palettes == old(model)@.palettes,
{
    let workspace_id = require_workspace_id(model, params, "workspace_id")?;
    let window_id: WindowId = match model.state.workspace_window_id(workspace_id) {
        Some(window_id) => window_id,
        None => {
            return Err(
                MethodError::not_found_id(
                    "Workspace not found".to_owned(),
                    "workspace_id",
                    workspace_id,
                ),
            );
        },
    };
    or_missing(
        model.state.close_workspace_with_ids(drawn, workspace_id),
        "workspace_id",
        workspace_id,
    )?;
    let mut fields = Fields::new();
    fields.put_window(model, window_id);
    fields.put_workspace(model, workspace_id);
    Ok(fields.finish())
}

} // verus!
