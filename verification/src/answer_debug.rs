//! Answers to requests that tests and tools make.

use crate::ids::{PaneId, WorkspaceId};
use crate::json;
use crate::json::{Value, ValueView};
use crate::layout::PaneRegion;
use crate::model::{AppModel, ModelView};
use crate::params;
use crate::params::{
    optional_surface_id, param_value, require_surface_id, require_workspace_id, window_target_id,
    Params, ParamsView,
};
use crate::registry::HandleKind;
use crate::reply;
use crate::reply::{
    array, or_internal, tell, ErrorView, Fields, MethodError, MethodResult, Outcome, Reply,
};
use crate::state_focus::same_id;
use crate::text;
use crate::text::byte_count;
use vstd::prelude::*;

verus! {

/// One pane and its rectangle as they are told.
pub open spec fn region_value(region: PaneRegion) -> ValueView {
    ValueView::Object(
        reply::no_fields().push(("paneId"@, json::id_value(region.pane_id))).push(
            ("pane_id"@, json::id_value(region.pane_id)),
        ).push(
            (
                "frame"@,
                ValueView::Object(
                    reply::no_fields().push(("x"@, json::float_value(region.x))).push(
                        ("y"@, json::float_value(region.y)),
                    ).push(("width"@, json::float_value(region.width))).push(
                        ("height"@, json::float_value(region.height)),
                    ),
                ),
            ),
        ),
    )
}

/// A count of nothing.
pub open spec fn no_count() -> ValueView {
    ValueView::Object(reply::no_fields().push(("count"@, json::number_value(0))))
}

/// Statistics about nothing.
pub open spec fn no_stats() -> ValueView {
    ValueView::Object(
        reply::no_fields().push(("stats"@, ValueView::Object(reply::no_fields()))),
    )
}

/// Statistics about views that do not exist here.
pub open spec fn portal_stats() -> ValueView {
    ValueView::Object(
        reply::no_fields().push(
            (
                "totals"@,
                ValueView::Object(
                    reply::no_fields().push(
                        ("orphan_terminal_subview_count"@, json::number_value(0)),
                    ).push(
                        ("visible_orphan_terminal_subview_count"@, json::number_value(0)),
                    ).push(("stale_entry_count"@, json::number_value(0))),
                ),
            ),
        ),
    )
}

/// No picture of a window.
pub open spec fn no_screenshot(params: ParamsView) -> ValueView {
    ValueView::Object(
        reply::no_fields().push(("path"@, ValueView::Null)).push(
            ("label"@, params::value_or_null(params, "label"@)),
        ),
    )
}

impl ModelView {
    /// The rectangles of the panes of the current workspace.
    pub open spec fn debug_layout(self) -> Outcome {
        match self.state.selected_workspace() {
            None => (self, Err(ErrorView::not_found("No workspace selected"@))),
            Some(workspace) => {
                let regions = workspace.layout.all_regions();
                let panes = ValueView::Array(
                    Seq::new(regions.len(), |at: int| region_value(regions[at])),
                );
                let inner = ValueView::Object(
                    reply::no_fields().push(("workspace_id"@, json::id_value(workspace.id))).push(
                        ("window_id"@, json::id_value(workspace.window_id)),
                    ).push(("panes"@, panes)),
                );
                let outer = ValueView::Object(reply::no_fields().push(("layout"@, inner)));
                Reply::of(self).with("layout"@, outer).done()
            },
        }
    }

    /// The user clicks a notification.
    pub open spec fn notification_focus(self, params: ParamsView) -> Outcome {
        match params::required(self, params, HandleKind::Workspace, "workspace_id"@) {
            (first, Err(error)) => (first, Err(error)),
            (first, Ok(workspace_id)) => match params::optional(
                first,
                params,
                HandleKind::Surface,
                "surface_id"@,
            ) {
                (model, Err(error)) => (model, Err(error)),
                (model, Ok(Some(surface_id))) => match model.internal(
                    model.state.focus_surface(surface_id),
                ) {
                    (next, Err(error)) => (next, Err(error)),
                    (next, Ok((focused, pane_id))) => next.finished(
                        next.told(focused, Some(pane_id), Some(surface_id)),
                    ),
                },
                (model, Ok(None)) => match model.internal(
                    model.state.select_workspace(workspace_id),
                ) {
                    (next, Err(error)) => (next, Err(error)),
                    (next, Ok(_)) => next.finished(next.told(workspace_id, None, None)),
                },
            },
        }
    }

    /// What is told of one surface.
    pub open spec fn panel_snapshot(self, params: ParamsView) -> Outcome {
        match params::required(self, params, HandleKind::Surface, "surface_id"@) {
            (model, Err(error)) => (model, Err(error)),
            (model, Ok(surface_id)) => match model.state.locate_surface(surface_id) {
                None => (model, Err(ErrorView::not_found("Surface not found"@))),
                Some((workspace_id, pane_id)) => match model.state.workspace(workspace_id) {
                    None => (model, Err(ErrorView::not_found("Workspace not found"@))),
                    Some(workspace) => match workspace.surface(surface_id) {
                        None => (model, Err(ErrorView::not_found("Surface not found"@))),
                        Some(surface) => Reply::of(model).window(workspace.window_id).workspace(
                            workspace_id,
                        ).pane(pane_id).surface(surface_id).with(
                            "panel_id"@,
                            json::id_value(surface_id),
                        ).with("title"@, ValueView::Text(surface.title)).with(
                            "transcript_bytes"@,
                            json::count_value(text::byte_len(surface.transcript)),
                        ).with("unread"@, ValueView::Bool(surface.unread)).with(
                            "flash_count"@,
                            json::number_value(surface.flash_count),
                        ).done(),
                    },
                },
            },
        }
    }

    /// Whether the sidebar of a window is on screen.
    pub open spec fn sidebar_shown(self, params: ParamsView) -> Outcome {
        match params::window_target(self, params) {
            (model, Err(error)) => (model, Err(error)),
            (model, Ok(window_id)) => Reply::of(model).window(window_id).with(
                "visible"@,
                ValueView::Bool(model.sidebar_visible(window_id)),
            ).done(),
        }
    }

    /// Whether what is typed goes to a surface: it is the current one and the palette is closed.
    pub open spec fn terminal_is_focused(self, params: ParamsView) -> Outcome {
        match params::required(self, params, HandleKind::Surface, "surface_id"@) {
            (model, Err(error)) => (model, Err(error)),
            (model, Ok(surface_id)) => Reply::of(model).surface(surface_id).with(
                "focused"@,
                ValueView::Bool(
                    model.state.current_surface_id() == Some(surface_id) && !model.palette(
                        model.state.window_id,
                    ).visible,
                ),
            ).done(),
        }
    }

    /// How often a surface has flashed.
    pub open spec fn flash_counted(self, params: ParamsView) -> Outcome {
        match params::required(self, params, HandleKind::Surface, "surface_id"@) {
            (model, Err(error)) => (model, Err(error)),
            (model, Ok(surface_id)) => match model.state.flash_count(surface_id) {
                Err(message) => (model, Err(ErrorView::internal_error(message))),
                Ok(count) => Reply::of(model).surface(surface_id).with(
                    "count"@,
                    json::number_value(count),
                ).done(),
            },
        }
    }

    /// No surface has flashed.
    pub open spec fn flash_reset(self) -> Outcome {
        Reply::of(self.with_state(self.state.reset_flash_counts())).done()
    }
}

fn region_object(region: &PaneRegion) -> (value: Value)
    ensures
        value@ == region_value(*region),
{
    let mut frame = Fields::new();
    frame.put("x", Value::float(region.x));
    frame.put("y", Value::float(region.y));
    frame.put("width", Value::float(region.width));
    frame.put("height", Value::float(region.height));
    let mut fields = Fields::new();
    fields.put("paneId", Value::id(region.pane_id));
    fields.put("pane_id", Value::id(region.pane_id));
    fields.put("frame", frame.finish());
    fields.finish()
}

fn region_objects(regions: &Vec<PaneRegion>) -> (value: Value)
    ensures
        value@ == ValueView::Array(
            Seq::new(regions@.len(), |at: int| region_value(regions@[at])),
        ),
{
    let mut values: Vec<Value> = Vec::new();
    let mut at: usize = 0;
    while at < regions.len()
        invariant
            at <= regions@.len(),
            values@.len() == at,
            forall|k: int| 0 <= k < at ==> (#[trigger] values@[k])@ == region_value(regions@[k]),
        decreases regions@.len() - at,
    {
        values.push(region_object(&regions[at]));
        at = at + 1;
    }
    proof {
        assert(json::value_views(values@) =~= Seq::new(
            regions@.len(),
            |k: int| region_value(regions@[k]),
        ));
    }
    array(values)
}

/// Answers where the panes of the current workspace are.
pub fn debug_layout_payload(model: &AppModel) -> (result: MethodResult)
    ensures
        reply::answers(result, model@, model@.debug_layout()),
{
    match model.state.selected_workspace() {
        None => Err(MethodError::not_found("No workspace selected")),
        Some(workspace) => {
            let regions = workspace.debug_pane_regions();
            let mut inner = Fields::new();
            inner.put("workspace_id", Value::id(workspace.id));
            inner.put("window_id", Value::id(workspace.window_id));
            inner.put("panes", region_objects(&regions));
            let mut outer = Fields::new();
            outer.put("layout", inner.finish());
            let mut fields = Fields::new();
            fields.put("layout", outer.finish());
            Ok(fields.finish())
        },
    }
}

/// Goes to what a notification is about.
pub fn debug_notification_focus_payload(model: &mut AppModel, params: &Params) -> (result:
    MethodResult)
    ensures
        reply::answers(
            result,
            final(model)@,
            old(model)@.notification_focus(params::asked(params)),
        ),
        final(model)@.palettes == old(model)@.palettes,
{
    let workspace_id = require_workspace_id(model, params, "workspace_id")?;
    if let Some(surface_id) = optional_surface_id(model, params, "surface_id")? {
        let (focused, pane_id) = or_internal(model.state.focus_surface(surface_id))?;
        let fields = tell(model, focused, Some(pane_id), Some(surface_id))?;
        return Ok(fields.finish());
    }
    or_internal(model.state.select_workspace(workspace_id))?;
    let fields = tell(model, workspace_id, None, None)?;
    Ok(fields.finish())
}

/// Answers what is known of one surface.
pub fn debug_panel_snapshot_payload(model: &mut AppModel, params: &Params) -> (result: MethodResult)
    ensures
        reply::answers(result, final(model)@, old(model)@.panel_snapshot(params::asked(params))),
        final(model)@.palettes == old(model)@.palettes,
{
    let surface_id = require_surface_id(model, params, "surface_id")?;
    let (workspace_id, pane_id): (WorkspaceId, PaneId) = match model.state.locate_surface(
        surface_id,
    ) {
        Some(place) => place,
        None => {
            return Err(MethodError::not_found("Surface not found"));
        },
    };
    let snapshot = model.snapshot_state();
    match snapshot.workspace(workspace_id) {
        None => Err(MethodError::not_found("Workspace not found")),
        Some(workspace) => match workspace.surface(surface_id) {
            None => Err(MethodError::not_found("Surface not found")),
            Some(surface) => {
                let mut fields = Fields::new();
                fields.put_window(model, workspace.window_id);
                fields.put_workspace(model, workspace_id);
                fields.put_pane(model, pane_id);
                fields.put_surface(model, surface_id);
                fields.put("panel_id", Value::id(surface_id));
                fields.put_text("title", surface.title.as_str());
                fields.put_count("transcript_bytes", byte_count(surface.transcript.as_str()));
                fields.put_flag("unread", surface.unread);
                fields.put("flash_count", Value::number(surface.flash_count));
                Ok(fields.finish())
            },
        },
    }
}

/// Answers whether the sidebar of a window is on screen.
pub fn debug_sidebar_visible_payload(model: &mut AppModel, params: &Params) -> (result: MethodResult)
    ensures
        reply::answers(result, final(model)@, old(model)@.sidebar_shown(params::asked(params))),
        final(model)@.palettes == old(model)@.palettes,
{
    let window_id = window_target_id(model, params)?;
    let visible = model.sidebar_visible(window_id);
    let mut fields = Fields::new();
    fields.put_window(model, window_id);
    fields.put_flag("visible", visible);
    Ok(fields.finish())
}

/// Answers whether what is typed goes to a surface.
pub fn debug_terminal_is_focused_payload(model: &mut AppModel, params: &Params) -> (result:
    MethodResult)
    ensures
        reply::answers(
            result,
            final(model)@,
            old(model)@.terminal_is_focused(params::asked(params)),
        ),
        final(model)@.palettes == old(model)@.palettes,
{
    let surface_id = require_surface_id(model, params, "surface_id")?;
    let current = same_id(model.state.current_surface_id(), Some(surface_id));
    let open = model.palette_state(model.state.window_id).visible;
    let mut fields = Fields::new();
    fields.put_surface(model, surface_id);
    fields.put_flag("focused", current && !open);
    Ok(fields.finish())
}

/// Answers how often a surface has flashed.
pub fn debug_flash_count_payload(model: &mut AppModel, params: &Params) -> (result: MethodResult)
    ensures
        reply::answers(result, final(model)@, old(model)@.flash_counted(params::asked(params))),
        final(model)@.palettes == old(model)@.palettes,
{
    let surface_id = require_surface_id(model, params, "surface_id")?;
    let count = or_internal(model.state.flash_count(surface_id))?;
    let mut fields = Fields::new();
    fields.put_surface(model, surface_id);
    fields.put("count", Value::number(count));
    Ok(fields.finish())
}

/// Forgets how often surfaces have flashed.
pub fn debug_flash_reset_payload(model: &mut AppModel) -> (result: MethodResult)
    ensures
        reply::answers(result, final(model)@, old(model)@.flash_reset()),
        final(model)@.palettes == old(model)@.palettes,
{
    model.state.reset_flash_counts();
    Ok(Fields::new().finish())
}

/// Answers with a count of nothing.
pub fn no_count_object() -> (value: Value)
    ensures
        value@ == no_count(),
{
    let mut fields = Fields::new();
    fields.put("count", Value::number(0));
    fields.finish()
}

/// Answers with statistics about nothing.
pub fn no_stats_object() -> (value: Value)
    ensures
        value@ == no_stats(),
{
    let mut fields = Fields::new();
    fields.put("stats", Fields::new().finish());
    fields.finish()
}

/// Answers with statistics about views that do not exist here.
pub fn debug_portal_stats_payload() -> (value: Value)
    ensures
        value@ == portal_stats(),
{
    let mut totals = Fields::new();
    totals.put("orphan_terminal_subview_count", Value::number(0));
    totals.put("visible_orphan_terminal_subview_count", Value::number(0));
    totals.put("stale_entry_count", Value::number(0));
    let mut fields = Fields::new();
    fields.put("totals", totals.finish());
    fields.finish()
}

/// Answers with no picture of a window.
pub fn debug_window_screenshot_payload(params: &Params) -> (value: Value)
    ensures
        value@ == no_screenshot(params::asked(params)),
{
    let mut fields = Fields::new();
    fields.put("path", Value::Null);
    fields.put("label", param_value(params, "label"));
    fields.finish()
}

} // verus!
