//! Answers to requests about windows.

use crate::ids;
use crate::ids::Drawn;
use crate::json;
use crate::json::{Value, ValueView};
use crate::model::{AppModel, ModelView};
use crate::params;
use crate::params::{require_window_id, Params, ParamsView};
use crate::registry::HandleKind;
use crate::reply;
use crate::reply::{array, or_internal, Fields, MethodResult, Outcome, Reply};
use crate::state;
use vstd::prelude::*;

verus! {

impl ModelView {
    /// What is told of one window.
    pub open spec fn window_row(self, at: int) -> Reply {
        let window = self.state.windows[at];
        Reply::of(self).with("id"@, json::id_value(window.id)).named(
            "ref"@,
            HandleKind::Window,
            window.id,
        ).with("index"@, json::count_value(at as nat)).with(
            "key"@,
            ValueView::Bool(window.id == self.state.window_id),
        ).with("visible"@, ValueView::Bool(true)).with(
            "workspace_count"@,
            json::count_value(self.state.workspace_ids_in(window.id).len()),
        ).with(
            "selected_workspace_id"@,
            json::id_value(window.selected_workspace_id),
        ).opt_named(
            "selected_workspace_ref"@,
            HandleKind::Workspace,
            ids::non_nil(window.selected_workspace_id),
        )
    }

    /// What is told of the first `count` windows.
    pub open spec fn window_rows(self, count: int) -> (ModelView, Seq<ValueView>)
        decreases count,
    {
        if count <= 0 {
            (self, Seq::empty())
        } else {
            let (model, rows) = self.window_rows(count - 1);
            let row = model.window_row(count - 1);
            (row.model, rows.push(ValueView::Object(row.fields)))
        }
    }

    /// The windows.
    pub open spec fn window_list(self) -> Outcome {
        let (model, rows) = self.window_rows(self.state.windows.len() as int);
        Reply::of(model).with("windows"@, ValueView::Array(rows)).done()
    }

    /// The current window.
    pub open spec fn window_current(self) -> Outcome {
        Reply::of(self).window(self.state.window_id).done()
    }

    /// A new window, which is then the current one.
    pub open spec fn window_create(self, drawn: Drawn) -> Outcome {
        Reply::of(self.with_state(self.state.create_window(drawn, true))).window(
            drawn.window,
        ).workspace(drawn.workspace).done()
    }

    /// Another window is the current one.
    pub open spec fn window_focus(self, params: ParamsView) -> Outcome {
        match params::required(self, params, HandleKind::Window, "window_id"@) {
            (model, Err(error)) => (model, Err(error)),
            (model, Ok(window_id)) => match model.internal(model.state.focus_window(window_id)) {
                (next, Err(error)) => (next, Err(error)),
                (next, Ok(workspace_id)) => Reply::of(next).window(window_id).workspace(
                    workspace_id,
                ).done(),
            },
        }
    }

    /// A window is closed.
    pub open spec fn window_close(self, drawn: Drawn, params: ParamsView) -> Outcome {
        match params::required(self, params, HandleKind::Window, "window_id"@) {
            (model, Err(error)) => (model, Err(error)),
            (model, Ok(window_id)) => match model.internal(
                model.state.close_window(drawn, window_id),
            ) {
                (next, Err(error)) => (next, Err(error)),
                (next, Ok(_)) => Reply::of(next).window(window_id).with(
                    "current_window_id"@,
                    json::id_value(next.state.window_id),
                ).named("current_window_ref"@, HandleKind::Window, next.state.window_id).done(),
            },
        }
    }
}

fn window_row_object(model: &mut AppModel, at: usize) -> (value: Value)
    requires
        at < old(model)@.state.windows.len(),
    ensures
        final(model)@ == old(model)@.window_row(at as int).model,
        value@ == ValueView::Object(old(model)@.window_row(at as int).fields),
{
    let window = model.state.windows[at];
    let current = window.id == model.state.window_id;
    let count = model.state.workspace_ids_in(window.id).len();
    let mut fields = Fields::new();
    fields.put("id", Value::id(window.id));
    fields.put_name(model, "ref", HandleKind::Window, window.id);
    fields.put_count("index", at);
    fields.put_flag("key", current);
    fields.put_flag("visible", true);
    fields.put_count("workspace_count", count);
    fields.put("selected_workspace_id", Value::id(window.selected_workspace_id));
    fields.put_opt_name(
        model,
        "selected_workspace_ref",
        HandleKind::Workspace,
        ids::unless_nil(window.selected_workspace_id),
    );
    fields.finish()
}

/// Answers which windows there are.
pub fn window_list_payload(model: &mut AppModel) -> (result: MethodResult)
    ensures
        reply::answers(result, final(model)@, old(model)@.window_list()),
        final(model)@.palettes == old(model)@.palettes,
{
    let ghost start = model@;
    let mut rows: Vec<Value> = Vec::new();
    let mut at: usize = 0;
    proof {
        assert(json::value_views(rows@) =~= Seq::empty());
    }
    while at < model.state.windows.len()
        invariant
            at <= start.state.windows.len(),
            (model@, json::value_views(rows@)) == start.window_rows(at as int),
            model@.state == start.state,
            model@.palettes == start.palettes,
        decreases start.state.windows.len() - at,
    {
        let ghost before = json::value_views(rows@);
        let row = window_row_object(model, at);
        let ghost content = row@;
        rows.push(row);
        proof {
            assert(json::value_views(rows@) =~= before.push(content));
        }
        at = at + 1;
    }
    let mut fields = Fields::new();
    fields.put("windows", array(rows));
    Ok(fields.finish())
}

/// Answers which window is the current one.
pub fn window_current_payload(model: &mut AppModel) -> (result: MethodResult)
    ensures
        reply::answers(result, final(model)@, old(model)@.window_current()),
        final(model)@.palettes == old(model)@.palettes,
{
    let window_id = model.state.window_id;
    let mut fields = Fields::new();
    fields.put_window(model, window_id);
    Ok(fields.finish())
}

/// Makes a window and focuses it.
pub fn window_create_payload(model: &mut AppModel, drawn: Drawn) -> (result: MethodResult)
    requires
        old(model)@.state.has_room(),
    ensures
        reply::answers(result, final(model)@, old(model)@.window_create(drawn)),
        final(model)@.palettes == old(model)@.palettes,
{
    let (window_id, workspace_id) = model.state.create_window_with_ids(drawn, true);
    let mut fields = Fields::new();
    fields.put_window(model, window_id);
    fields.put_workspace(model, workspace_id);
    Ok(fields.finish())
}

/// Focuses a window.
pub fn window_focus_payload(model: &mut AppModel, params: &Params) -> (result: MethodResult)
    ensures
        reply::answers(result, final(model)@, old(model)@.window_focus(params::asked(params))),
        final(model)@.palettes == old(model)@.palettes,
{
    let window_id = require_window_id(model, params, "window_id")?;
    let workspace_id = or_internal(model.state.focus_window(window_id))?;
    let mut fields = Fields::new();
    fields.put_window(model, window_id);
    fields.put_workspace(model, workspace_id);
    Ok(fields.finish())
}

/// Closes a window.
pub fn window_close_payload(model: &mut AppModel, drawn: Drawn, params: &Params) -> (result:
    MethodResult)
    requires
        old(model)@.state.has_room(),
    ensures
        reply::answers(
            result,
            final(model)@,
            old(model)@.window_close(drawn, params::asked(params)),
        ),
        final(model)@.palettes == old(model)@.palettes,
{
    let window_id = require_window_id(model, params, "window_id")?;
    or_internal(model.state.close_window_with_ids(drawn, window_id))?;
    let current = model.state.window_id;
    let mut fields = Fields::new();
    fields.put_window(model, window_id);
    fields.put("current_window_id", Value::id(current));
    fields.put_name(model, "current_window_ref", HandleKind::Window, current);
    Ok(fields.finish())
}

} // verus!
