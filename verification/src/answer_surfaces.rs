//! Answers to requests about surfaces.

use crate::answer_panes::split_beside_surface;
use crate::answer_system;
use crate::answer_system::surface_type_name;
use crate::encoding;
use crate::encoding::base64_text;
use crate::ids::{Drawn, PaneId, SurfaceId, WorkspaceId};
use crate::json;
use crate::json::{Value, ValueView};
use crate::keys;
use crate::keys::translate_terminal_key;
use crate::model::{AppModel, ModelView};
use crate::params;
use crate::params::{
    current_window_workspace_id, ensure_terminal_type_supported, optional_surface_id, owner_id,
    pane_surface_ids, param_flag, param_string, param_usize, parse_direction, raw_string_param,
    require_pane_id,
    require_surface_id, require_window_id, require_workspace_id, surface_target_id,
    surface_target_index, window_of, workspace_surface_id, workspace_target_id, Params, ParamsView,
};
use crate::registry::HandleKind;
use crate::reply;
use crate::reply::{
    array, or_internal, or_invalid, or_missing, tell, ErrorView, Fields, MethodError, MethodResult,
    Outcome, Reply,
};
use crate::state::{AppState, StateView};
use crate::surface::{HealthView, Pane, PaneView, Surface, SurfaceView, TerminalHealth};
use crate::workspace;
use crate::workspace::{Workspace, WorkspaceView};
use vstd::prelude::*;

verus! {

/// A surface and where it is shown.
pub struct SurfaceRow<'a> {
    /// The pane.
    pub pane: &'a Pane,
    /// The surface.
    pub surface: &'a Surface,
    /// The place in the pane.
    pub index_in_pane: usize,
}

/// The contents of a [`SurfaceRow`].
#[verifier::ext_equal]
pub struct RowView {
    /// The pane.
    pub pane: PaneView,
    /// The surface.
    pub surface: SurfaceView,
    /// The place in the pane.
    pub index_in_pane: nat,
}

impl View for SurfaceRow<'_> {
    type V = RowView;

    open spec fn view(&self) -> RowView {
        RowView {
            pane: self.pane@,
            surface: self.surface@,
            index_in_pane: self.index_in_pane as nat,
        }
    }
}

/// The contents of each row.
pub open spec fn row_views(rows: Seq<SurfaceRow<'_>>) -> Seq<RowView> {
    Seq::new(rows.len(), |at: int| rows[at]@)
}

/// The surfaces of a pane.
pub open spec fn rows_of(pane: PaneView) -> Seq<RowView> {
    Seq::new(
        pane.surfaces.len(),
        |at: int|
            RowView {
                pane,
                surface: pane.surfaces[at],
                index_in_pane: at as nat,
            },
    )
}

/// The surfaces of the first `count` panes.
pub open spec fn surface_rows(panes: Seq<PaneView>, count: int) -> Seq<RowView>
    decreases count,
{
    if count <= 0 {
        Seq::empty()
    } else {
        surface_rows(panes, count - 1) + rows_of(panes[count - 1])
    }
}

/// The surfaces of a workspace, in the order of its layout.
pub open spec fn workspace_rows(workspace: WorkspaceView) -> Seq<RowView> {
    surface_rows(workspace.ordered_panes(), workspace.ordered_panes().len() as int)
}

/// The identifiers of the surfaces of the first `count` panes.
pub open spec fn ids_of(panes: Seq<PaneView>, count: int) -> Seq<SurfaceId>
    decreases count,
{
    if count <= 0 {
        Seq::empty()
    } else {
        ids_of(panes, count - 1) + params::surface_ids(panes[count - 1])
    }
}

/// A number, or null.
pub open spec fn opt_count(number: Option<u64>) -> ValueView {
    match number {
        Some(inner) => json::number_value(inner),
        None => ValueView::Null,
    }
}

/// What is known of the process behind a terminal.
pub open spec fn health_value(health: HealthView) -> ValueView {
    ValueView::Object(
        reply::no_fields().push(("realized"@, ValueView::Bool(health.realized))).push(
            ("startup_error"@, json::opt_text_value(health.startup_error)),
        ).push(
            ("io_thread_main_started"@, ValueView::Bool(health.io_thread_main_started)),
        ).push(("io_thread_entered"@, ValueView::Bool(health.io_thread_entered))).push(
            (
                "subprocess_start_attempted"@,
                ValueView::Bool(health.subprocess_start_attempted),
            ),
        ).push(
            (
                "child_pid"@,
                match health.child_pid {
                    Some(pid) => json::signed_value(pid as i64),
                    None => ValueView::Null,
                },
            ),
        ).push(("child_exited"@, ValueView::Bool(health.child_exited))).push(
            (
                "child_exit_code"@,
                match health.child_exit_code {
                    Some(code) => json::number_value(code as u64),
                    None => ValueView::Null,
                },
            ),
        ).push(("child_runtime_ms"@, opt_count(health.child_runtime_ms))),
    )
}

impl StateView {
    /// The state without the history of the first `count` surfaces of a list.
    pub open spec fn cleared(self, list: Seq<SurfaceId>, count: int) -> StateView
        decreases count,
    {
        if count <= 0 {
            self
        } else {
            self.cleared(list, count - 1).clear_surface_history(list[count - 1]).0
        }
    }
}

impl ModelView {
    /// What is told of one surface.
    pub open spec fn surface_row(self, row: RowView, index: nat, focused: bool) -> Reply {
        Reply::of(self).with("id"@, json::id_value(row.surface.id)).named(
            "ref"@,
            HandleKind::Surface,
            row.surface.id,
        ).with("index"@, json::count_value(index)).with(
            "type"@,
            ValueView::Text(answer_system::kind_name(row.surface.kind)),
        ).with("title"@, ValueView::Text(row.surface.title)).with(
            "unread"@,
            ValueView::Bool(row.surface.unread),
        ).with("flash_count"@, json::number_value(row.surface.flash_count)).with(
            "focused"@,
            ValueView::Bool(focused),
        ).with("pane_id"@, json::id_value(row.pane.id)).named(
            "pane_ref"@,
            HandleKind::Pane,
            row.pane.id,
        ).with("index_in_pane"@, json::count_value(row.index_in_pane)).with(
            "selected_in_pane"@,
            ValueView::Bool(row.pane.selected_surface_id == row.surface.id),
        )
    }

    /// What is told of the first `count` surfaces of a list, of which one may have the focus.
    pub open spec fn surface_row_values(
        self,
        rows: Seq<RowView>,
        focused: Option<SurfaceId>,
        count: int,
    ) -> (ModelView, Seq<ValueView>)
        decreases count,
    {
        if count <= 0 {
            (self, Seq::empty())
        } else {
            let (model, values) = self.surface_row_values(rows, focused, count - 1);
            let row = rows[count - 1];
            let value = model.surface_row(
                row,
                (count - 1) as nat,
                focused == Some(row.surface.id),
            );
            (value.model, values.push(ValueView::Object(value.fields)))
        }
    }

    /// The surfaces of a workspace.
    pub open spec fn surface_list(self, params: ParamsView) -> Outcome {
        match params::workspace_target(self, params) {
            (model, Err(error)) => (model, Err(error)),
            (model, Ok(workspace_id)) => match model.state.workspace(workspace_id) {
                None => (model, Err(ErrorView::not_found("Workspace not found"@))),
                Some(workspace) => {
                    let rows = workspace_rows(workspace);
                    let focused = if workspace.id == model.state.selected_workspace_id {
                        workspace.selected_surface_id()
                    } else {
                        None
                    };
                    let (next, values) = model.surface_row_values(
                        rows,
                        focused,
                        rows.len() as int,
                    );
                    Reply::of(next).window(workspace.window_id).workspace(workspace.id).with(
                        "surfaces"@,
                        ValueView::Array(values),
                    ).done()
                },
            },
        }
    }

    /// The selected surface of a workspace.
    pub open spec fn surface_current(self, params: ParamsView) -> Outcome {
        match params::workspace_target(self, params) {
            (model, Err(error)) => (model, Err(error)),
            (model, Ok(workspace_id)) => match model.state.workspace(workspace_id) {
                None => (model, Err(ErrorView::not_found("Workspace not found"@))),
                Some(workspace) => match workspace.selected_surface_id() {
                    None => (model, Err(ErrorView::not_found("No surface selected"@))),
                    Some(surface_id) => match workspace.pane_id_for_surface(surface_id) {
                        None => (model, Err(ErrorView::not_found("Pane not found"@))),
                        Some(pane_id) => Reply::of(model).window(workspace.window_id).workspace(
                            workspace.id,
                        ).pane(pane_id).surface(surface_id).with(
                            "surface_type"@,
                            ValueView::Text("terminal"@),
                        ).done(),
                    },
                },
            },
        }
    }

    /// A surface has the focus.
    pub open spec fn surface_focus(self, params: ParamsView) -> Outcome {
        match params::required(self, params, HandleKind::Surface, "surface_id"@) {
            (model, Err(error)) => (model, Err(error)),
            (model, Ok(surface_id)) => match model.missing(
                model.state.focus_surface(surface_id),
                "surface_id"@,
                surface_id,
            ) {
                (next, Err(error)) => (next, Err(error)),
                (next, Ok((workspace_id, pane_id))) => next.finished(
                    next.told(workspace_id, Some(pane_id), Some(surface_id)),
                ),
            },
        }
    }

    /// A new pane beside a surface.
    pub open spec fn surface_split(self, drawn: Drawn, params: ParamsView) -> Outcome {
        match params::direction(params) {
            Err(error) => (self, Err(error)),
            Ok(way) => match params::surface_target(self, params) {
                (model, Err(error)) => (model, Err(error)),
                (model, Ok(surface_id)) => model.split_beside(drawn, surface_id, way),
            },
        }
    }

    /// The pane of a workspace in which a surface is to be made.
    pub open spec fn pane_for(self, params: ParamsView, workspace_id: WorkspaceId) -> params::Search<
        PaneId,
    > {
        if params::word(params, "pane_id"@) is Some {
            params::required(self, params, HandleKind::Pane, "pane_id"@)
        } else {
            (
                self,
                match self.state.workspace(workspace_id) {
                    Some(workspace) => Ok(workspace.selected_pane_id),
                    None => Err(ErrorView::not_found("Workspace not found"@)),
                },
            )
        }
    }

    /// A new surface in a pane, without the focus.
    pub open spec fn surface_create(self, drawn: Drawn, params: ParamsView) -> Outcome {
        match params::terminal_type(params) {
            Err(error) => (self, Err(error)),
            Ok(_) => match params::workspace_target(self, params) {
                (first, Err(error)) => (first, Err(error)),
                (first, Ok(workspace_id)) => match first.pane_for(params, workspace_id) {
                    (model, Err(error)) => (model, Err(error)),
                    (model, Ok(pane_id)) => match model.internal(
                        model.state.create_surface(drawn, workspace_id, pane_id, false),
                    ) {
                        (next, Err(error)) => (next, Err(error)),
                        (next, Ok((place, pane, made))) => next.finished_terminal(
                            next.told(place, Some(pane), Some(made)),
                        ),
                    },
                },
            },
        }
    }

    /// The surface of a workspace that is to be closed.
    pub open spec fn surface_for(
        self,
        params: ParamsView,
        workspace_id: WorkspaceId,
    ) -> params::Search<SurfaceId> {
        if params::word(params, "surface_id"@) is Some {
            params::required(self, params, HandleKind::Surface, "surface_id"@)
        } else {
            (
                self,
                match self.selected_surface(workspace_id) {
                    Some(surface_id) => Ok(surface_id),
                    None => Err(ErrorView::not_found("No focused surface"@)),
                },
            )
        }
    }

    /// A surface is closed.
    pub open spec fn surface_close(self, params: ParamsView) -> Outcome {
        match params::workspace_target(self, params) {
            (first, Err(error)) => (first, Err(error)),
            (first, Ok(workspace_id)) => match first.surface_for(params, workspace_id) {
                (model, Err(error)) => (model, Err(error)),
                (model, Ok(surface_id)) => match model.internal(
                    model.state.close_surface(workspace_id, surface_id),
                ) {
                    (next, Err(error)) => (next, Err(error)),
                    (next, Ok((_, pane_id, _))) => next.finished(
                        next.told(workspace_id, Some(pane_id), Some(surface_id)),
                    ),
                },
            },
        }
    }

    /// The workspace that a surface is to go to: the one with the pane that is named, the one that
    /// is named, the one that the named window shows, or the one that has the surface.
    pub open spec fn destination(
        self,
        params: ParamsView,
        source: WorkspaceId,
    ) -> params::Search<WorkspaceId> {
        if params::word(params, "pane_id"@) is Some {
            match params::required(self, params, HandleKind::Pane, "pane_id"@) {
                (model, Err(error)) => (model, Err(error)),
                (model, Ok(pane_id)) => (
                    model,
                    match model.state.owner_id(pane_id) {
                        Some(workspace_id) => Ok(workspace_id),
                        None => Err(ErrorView::not_found("Pane not found"@)),
                    },
                ),
            }
        } else if params::word(params, "workspace_id"@) is Some {
            params::required(self, params, HandleKind::Workspace, "workspace_id"@)
        } else if params::word(params, "window_id"@) is Some {
            match params::required(self, params, HandleKind::Window, "window_id"@) {
                (model, Err(error)) => (model, Err(error)),
                (model, Ok(window_id)) => (
                    model,
                    match model.shown_workspace(window_id) {
                        Some(workspace_id) => Ok(workspace_id),
                        None => Err(ErrorView::not_found("Window has no selected workspace"@)),
                    },
                ),
            }
        } else {
            (self, Ok(source))
        }
    }

    /// A surface goes to a place in a pane.
    pub open spec fn placed(
        self,
        drawn: Drawn,
        surface_id: SurfaceId,
        workspace_id: WorkspaceId,
        pane_id: PaneId,
        params: ParamsView,
        focus: bool,
    ) -> Outcome {
        match params::surface_place(self, surface_id, pane_id, params) {
            (model, Err(error)) => (model, Err(error)),
            (model, Ok(place)) => match model.invalid(
                model.state.move_surface(drawn, surface_id, workspace_id, pane_id, place, focus),
            ) {
                (next, Err(error)) => (next, Err(error)),
                (next, Ok((reached, pane, moved))) => next.finished(
                    next.told(reached, Some(pane), Some(moved)),
                ),
            },
        }
    }

    /// A surface goes to another pane.
    pub open spec fn surface_move(self, drawn: Drawn, params: ParamsView) -> Outcome {
        match params::required(self, params, HandleKind::Surface, "surface_id"@) {
            (first, Err(error)) => (first, Err(error)),
            (first, Ok(surface_id)) => match first.state.locate_surface(surface_id) {
                None => (first, Err(ErrorView::not_found("Surface not found"@))),
                Some((source, _)) => match first.destination(params, source) {
                    (second, Err(error)) => (second, Err(error)),
                    (second, Ok(workspace_id)) => match second.pane_for(params, workspace_id) {
                        (third, Err(error)) => (third, Err(error)),
                        (third, Ok(pane_id)) => third.placed(
                            drawn,
                            surface_id,
                            workspace_id,
                            pane_id,
                            params,
                            params::flag(params, "focus"@, true),
                        ),
                    },
                },
            },
        }
    }

    /// A surface goes to another place in its pane.
    pub open spec fn surface_reorder(self, drawn: Drawn, params: ParamsView) -> Outcome {
        match params::required(self, params, HandleKind::Surface, "surface_id"@) {
            (model, Err(error)) => (model, Err(error)),
            (model, Ok(surface_id)) => match model.state.locate_surface(surface_id) {
                None => (model, Err(ErrorView::not_found("Surface not found"@))),
                Some((workspace_id, pane_id)) => model.placed(
                    drawn,
                    surface_id,
                    workspace_id,
                    pane_id,
                    params,
                    false,
                ),
            },
        }
    }

    /// A workspace is drawn anew, which changes nothing here.
    pub open spec fn surface_refresh(self, params: ParamsView) -> Outcome {
        match params::workspace_target(self, params) {
            (model, Err(error)) => (model, Err(error)),
            (model, Ok(workspace_id)) => model.finished(model.told(workspace_id, None, None)),
        }
    }

    /// One surface loses its history.
    pub open spec fn history_cleared(self, surface_id: SurfaceId) -> Outcome {
        match self.invalid(self.state.clear_surface_history(surface_id)) {
            (next, Err(error)) => (next, Err(error)),
            (next, Ok(_)) => match next.state.locate_surface(surface_id) {
                None => (next, Err(ErrorView::not_found("Surface not found"@))),
                Some((workspace_id, _)) => next.finished(
                    next.told(workspace_id, None, Some(surface_id)),
                ),
            },
        }
    }

    /// The surface that is named, or all surfaces of a workspace, lose their history.
    pub open spec fn surface_clear_history(self, params: ParamsView) -> Outcome {
        match params::optional(self, params, HandleKind::Surface, "surface_id"@) {
            (model, Err(error)) => (model, Err(error)),
            (model, Ok(Some(surface_id))) => model.history_cleared(surface_id),
            (first, Ok(None)) => match params::workspace_target(first, params) {
                (model, Err(error)) => (model, Err(error)),
                (model, Ok(workspace_id)) => match model.state.workspace(workspace_id) {
                    None => (model, Err(ErrorView::not_found("Workspace not found"@))),
                    Some(workspace) => {
                        let list = ids_of(workspace.panes, workspace.panes.len() as int);
                        let next = model.with_state(
                            model.state.cleared(list, list.len() as int),
                        );
                        next.finished(next.told(workspace_id, None, None))
                    },
                },
            },
        }
    }

    /// A text goes to the running terminal, or to the transcript where terminals do not run.
    pub open spec fn sent(self, surface_id: SurfaceId, content: Seq<char>) -> params::Search<()> {
        if self.bridge.connected {
            (ModelView { bridge: self.bridge.sent(surface_id, content), ..self }, Ok(()))
        } else {
            match self.internal(self.state.append_terminal_text(surface_id, content)) {
                (next, Err(error)) => (next, Err(error)),
                (next, Ok(_)) => (next, Ok(())),
            }
        }
    }

    /// A text goes to a surface; where it went.
    pub open spec fn typed(self, surface_id: SurfaceId, content: Seq<char>) -> params::Search<Reply> {
        match self.state.locate_surface(surface_id) {
            None => (self, Err(ErrorView::not_found("Surface not found"@))),
            Some((workspace_id, _)) => match self.window_of(workspace_id) {
                Err(error) => (self, Err(error)),
                Ok(window_id) => match self.sent(surface_id, content) {
                    (next, Err(error)) => (next, Err(error)),
                    (next, Ok(_)) => {
                        let reply = Reply::of(next).window(window_id).workspace(
                            workspace_id,
                        ).surface(surface_id);
                        (reply.model, Ok(reply))
                    },
                },
            },
        }
    }

    /// A text goes to a surface.
    pub open spec fn surface_send_text(self, params: ParamsView) -> Outcome {
        match params::raw_word(params, "text"@) {
            None => (self, Err(ErrorView::invalid_params("Missing text"@))),
            Some(content) => match params::surface_target(self, params) {
                (model, Err(error)) => (model, Err(error)),
                (model, Ok(surface_id)) => match model.typed(surface_id, content) {
                    (next, Err(error)) => (next, Err(error)),
                    (_, Ok(reply)) => reply.with("queued"@, ValueView::Bool(true)).done(),
                },
            },
        }
    }

    /// A key goes to a surface.
    pub open spec fn surface_send_key(self, params: ParamsView) -> Outcome {
        match params::word(params, "key"@) {
            None => (self, Err(ErrorView::invalid_params("Missing key"@))),
            Some(key) => match params::surface_target(self, params) {
                (model, Err(error)) => (model, Err(error)),
                (model, Ok(surface_id)) => match keys::terminal_key(key) {
                    Err(error) => (model, Err(error)),
                    Ok(content) => match model.typed(surface_id, content) {
                        (next, Err(error)) => (next, Err(error)),
                        (_, Ok(reply)) => reply.done(),
                    },
                },
            },
        }
    }

    /// What a surface has on screen, or its last lines.
    pub open spec fn surface_read_text(self, params: ParamsView) -> Outcome {
        match params::number(params, "lines"@) {
            Err(error) => (self, Err(error)),
            Ok(limit) => if limit == Some(0usize) {
                (self, Err(ErrorView::invalid_params("lines must be greater than 0"@)))
            } else {
                match params::surface_target(self, params) {
                    (model, Err(error)) => (model, Err(error)),
                    (model, Ok(surface_id)) => match model.state.read_terminal_text(
                        surface_id,
                        limit,
                    ) {
                        Err(message) => (model, Err(ErrorView::internal_error(message))),
                        Ok((workspace_id, content)) => match model.window_of(workspace_id) {
                            Err(error) => (model, Err(error)),
                            Ok(window_id) => Reply::of(model).with(
                                "text"@,
                                ValueView::Text(content),
                            ).with(
                                "base64"@,
                                ValueView::Text(
                                    encoding::encoded(vstd::utf8::encode_utf8(content)),
                                ),
                            ).window(window_id).workspace(workspace_id).surface(surface_id).done(),
                        },
                    },
                }
            },
        }
    }

    /// What is told of the process behind one surface.
    pub open spec fn health_row(self, row: RowView, index: nat) -> Reply {
        Reply::of(self).with("index"@, json::count_value(index)).with(
            "id"@,
            json::id_value(row.surface.id),
        ).named("ref"@, HandleKind::Surface, row.surface.id).with(
            "type"@,
            ValueView::Text(answer_system::kind_name(row.surface.kind)),
        ).with("in_window"@, ValueView::Bool(true)).with(
            "terminal_health"@,
            health_value(row.surface.terminal_health),
        )
    }

    /// What is told of the processes behind the first `count` surfaces of a list.
    pub open spec fn health_rows(self, rows: Seq<RowView>, count: int) -> (
        ModelView,
        Seq<ValueView>,
    )
        decreases count,
    {
        if count <= 0 {
            (self, Seq::empty())
        } else {
            let (model, values) = self.health_rows(rows, count - 1);
            let value = model.health_row(rows[count - 1], (count - 1) as nat);
            (value.model, values.push(ValueView::Object(value.fields)))
        }
    }

    /// What is known of the processes behind the surfaces of a workspace.
    pub open spec fn surface_health(self, params: ParamsView) -> Outcome {
        match params::workspace_target(self, params) {
            (model, Err(error)) => (model, Err(error)),
            (model, Ok(workspace_id)) => match model.state.workspace(workspace_id) {
                None => (model, Err(ErrorView::not_found("Workspace not found"@))),
                Some(workspace) => {
                    let rows = workspace_rows(workspace);
                    let (next, values) = model.health_rows(rows, rows.len() as int);
                    Reply::of(next).window(workspace.window_id).workspace(workspace_id).with(
                        "surfaces"@,
                        ValueView::Array(values),
                    ).done()
                },
            },
        }
    }

    /// A surface flashes.
    pub open spec fn surface_trigger_flash(self, params: ParamsView) -> Outcome {
        match params::surface_target(self, params) {
            (model, Err(error)) => (model, Err(error)),
            (model, Ok(surface_id)) => match model.internal(
                model.state.trigger_flash(surface_id),
            ) {
                (next, Err(error)) => (next, Err(error)),
                (next, Ok((workspace_id, _, count))) => match next.told(
                    workspace_id,
                    None,
                    Some(surface_id),
                ) {
                    Err(error) => (next, Err(error)),
                    Ok(reply) => reply.with("flash_count"@, json::number_value(count)).done(),
                },
            },
        }
    }
}

/// The surfaces of a workspace, in the order of its layout.
pub fn workspace_surface_rows<'a>(workspace: &'a Workspace) -> (rows: Vec<SurfaceRow<'a>>)
    ensures
        row_views(rows@) == workspace_rows(workspace@),
{
    let panes = workspace.ordered_panes();
    let ghost views = workspace::pane_ref_views(panes@);
    let mut rows: Vec<SurfaceRow<'a>> = Vec::new();
    let mut at: usize = 0;
    proof {
        assert(row_views(rows@) =~= Seq::empty());
    }
    while at < panes.len()
        invariant
            at <= panes@.len(),
            views == workspace::pane_ref_views(panes@),
            row_views(rows@) == surface_rows(views, at as int),
        decreases panes@.len() - at,
    {
        let pane: &'a Pane = panes[at];
        let ghost before = row_views(rows@);
        let mut place: usize = 0;
        proof {
            assert(before + rows_of(pane@).take(0) =~= before);
        }
        while place < pane.surfaces.len()
            invariant
                place <= pane.surfaces@.len(),
                row_views(rows@) == before + rows_of(pane@).take(place as int),
            decreases pane.surfaces@.len() - place,
        {
            let ghost shorter = row_views(rows@);
            let row = SurfaceRow { pane, surface: &pane.surfaces[place], index_in_pane: place };
            let ghost content = row@;
            rows.push(row);
            proof {
                assert(row_views(rows@) =~= shorter.push(content));
                assert(content == rows_of(pane@)[place as int]);
                assert(rows_of(pane@).take(place + 1) =~= rows_of(pane@).take(place as int).push(
                    content,
                ));
                assert(shorter.push(content) =~= before + rows_of(pane@).take(place + 1));
            }
            place = place + 1;
        }
        proof {
            assert(rows_of(pane@).take(place as int) =~= rows_of(pane@));
            assert(views[at as int] == pane@);
        }
        at = at + 1;
    }
    rows
}

fn surface_row_object(model: &mut AppModel, row: &SurfaceRow<'_>, index: usize, focused: bool) -> (value:
    Value)
    ensures
        final(model)@ == old(model)@.surface_row(row@, index as nat, focused).model,
        value@ == ValueView::Object(old(model)@.surface_row(row@, index as nat, focused).fields),
        final(model)@.palettes == old(model)@.palettes,
{
    let mut fields = Fields::new();
    fields.put("id", Value::id(row.surface.id));
    fields.put_name(model, "ref", HandleKind::Surface, row.surface.id);
    fields.put_count("index", index);
    fields.put_text("type", surface_type_name(row.surface.kind));
    fields.put_text("title", row.surface.title.as_str());
    fields.put_flag("unread", row.surface.unread);
    fields.put("flash_count", Value::number(row.surface.flash_count));
    fields.put_flag("focused", focused);
    fields.put("pane_id", Value::id(row.pane.id));
    fields.put_name(model, "pane_ref", HandleKind::Pane, row.pane.id);
    fields.put_count("index_in_pane", row.index_in_pane);
    fields.put_flag("selected_in_pane", row.pane.selected_surface_id == row.surface.id);
    fields.finish()
}

fn surface_row_objects(model: &mut AppModel, rows: &Vec<SurfaceRow<'_>>, focused: Option<SurfaceId>) -> (value:
    Value)
    ensures
        final(model)@ == old(model)@.surface_row_values(
            row_views(rows@),
            focused,
            rows@.len() as int,
        ).0,
        value@ == ValueView::Array(
            old(model)@.surface_row_values(row_views(rows@), focused, rows@.len() as int).1,
        ),
        final(model)@.palettes == old(model)@.palettes,
{
    let ghost start = model@;
    let mut values: Vec<Value> = Vec::new();
    let mut at: usize = 0;
    proof {
        assert(json::value_views(values@) =~= Seq::empty());
    }
    while at < rows.len()
        invariant
            at <= rows@.len(),
            (model@, json::value_views(values@)) == start.surface_row_values(
                row_views(rows@),
                focused,
                at as int,
            ),
            model@.palettes == start.palettes,
        decreases rows@.len() - at,
    {
        let ghost before = json::value_views(values@);
        let has_focus = match focused {
            Some(id) => id == rows[at].surface.id,
            None => false,
        };
        proof {
            assert(row_views(rows@)[at as int] == rows@[at as int]@);
        }
        let value = surface_row_object(model, &rows[at], at, has_focus);
        let ghost content = value@;
        values.push(value);
        proof {
            assert(json::value_views(values@) =~= before.push(content));
        }
        at = at + 1;
    }
    array(values)
}

/// Answers which surfaces a workspace has.
pub fn surface_list_payload(model: &mut AppModel, params: &Params) -> (result: MethodResult)
    ensures
        reply::answers(result, final(model)@, old(model)@.surface_list(params::asked(params))),
        final(model)@.palettes == old(model)@.palettes,
{
    let workspace_id = workspace_target_id(model, params)?;
    let snapshot = model.snapshot_state();
    match snapshot.workspace(workspace_id) {
        None => Err(MethodError::not_found("Workspace not found")),
        Some(workspace) => {
            let focused: Option<SurfaceId> = if workspace.id == snapshot.selected_workspace_id {
                workspace.selected_surface_id()
            } else {
                None
            };
            let rows = workspace_surface_rows(workspace);
            proof {
                assert(row_views(rows@).len() == rows@.len());
            }
            let values = surface_row_objects(model, &rows, focused);
            let mut fields = Fields::new();
            fields.put_window(model, workspace.window_id);
            fields.put_workspace(model, workspace.id);
            fields.put("surfaces", values);
            Ok(fields.finish())
        },
    }
}

/// Answers which surface of a workspace is selected.
pub fn surface_current_payload(model: &mut AppModel, params: &Params) -> (result: MethodResult)
    ensures
        reply::answers(result, final(model)@, old(model)@.surface_current(params::asked(params))),
        final(model)@.palettes == old(model)@.palettes,
{
    let workspace_id = workspace_target_id(model, params)?;
    let snapshot = model.snapshot_state();
    match snapshot.workspace(workspace_id) {
        None => Err(MethodError::not_found("Workspace not found")),
        Some(workspace) => match workspace.selected_surface_id() {
            None => Err(MethodError::not_found("No surface selected")),
            Some(surface_id) => match workspace.pane_id_for_surface(surface_id) {
                None => Err(MethodError::not_found("Pane not found")),
                Some(pane_id) => {
                    let mut fields = Fields::new();
                    fields.put_window(model, workspace.window_id);
                    fields.put_workspace(model, workspace.id);
                    fields.put_pane(model, pane_id);
                    fields.put_surface(model, surface_id);
                    fields.put_text("surface_type", "terminal");
                    Ok(fields.finish())
                },
            },
        },
    }
}

/// Focuses a surface.
pub fn surface_focus_payload(model: &mut AppModel, params: &Params) -> (result: MethodResult)
    ensures
        reply::answers(result, final(model)@, old(model)@.surface_focus(params::asked(params))),
        final(model)@.palettes == old(model)@.palettes,
{
    let surface_id = require_surface_id(model, params, "surface_id")?;
    let (workspace_id, pane_id) = or_missing(
        model.state.focus_surface(surface_id),
        "surface_id",
        surface_id,
    )?;
    let fields = tell(model, workspace_id, Some(pane_id), Some(surface_id))?;
    Ok(fields.finish())
}

/// Makes a pane beside a surface.
pub fn surface_split_payload(model: &mut AppModel, drawn: Drawn, params: &Params) -> (result:
    MethodResult)
    requires
        old(model)@.state.next_surface_title_number < usize::MAX,
    ensures
        reply::answers(
            result,
            final(model)@,
            old(model)@.surface_split(drawn, params::asked(params)),
        ),
        final(model)@.palettes == old(model)@.palettes,
{
    let way = parse_direction(params)?;
    let surface_id = surface_target_id(model, params)?;
    split_beside_surface(model, drawn, surface_id, way)
}

/// Makes a pane beside a surface, as a drag to the edge of a pane does.
pub fn surface_drag_to_split_payload(model: &mut AppModel, drawn: Drawn, params: &Params) -> (result:
    MethodResult)
    requires
        old(model)@.state.next_surface_title_number < usize::MAX,
    ensures
        reply::answers(
            result,
            final(model)@,
            old(model)@.surface_split(drawn, params::asked(params)),
        ),
        final(model)@.palettes == old(model)@.palettes,
{
    surface_split_payload(model, drawn, params)
}

fn choose_pane(model: &mut AppModel, params: &Params, workspace_id: WorkspaceId) -> (result: Result<
    PaneId,
    MethodError,
>)
    ensures
        final(model)@ == old(model)@.pane_for(params::asked(params), workspace_id).0,
        reply::found(result) == old(model)@.pane_for(params::asked(params), workspace_id).1,
        final(model)@.palettes == old(model)@.palettes,
        final(model)@.state == old(model)@.state,
{
    if param_string(params, "pane_id").is_some() {
        return require_pane_id(model, params, "pane_id");
    }
    match model.state.workspace(workspace_id) {
        Some(workspace) => Ok(workspace.selected_pane_id),
        None => Err(MethodError::not_found("Workspace not found")),
    }
}

/// Makes a surface in a pane.
pub fn surface_create_payload(model: &mut AppModel, drawn: Drawn, params: &Params) -> (result:
    MethodResult)
    requires
        old(model)@.state.next_surface_title_number < usize::MAX,
    ensures
        reply::answers(
            result,
            final(model)@,
            old(model)@.surface_create(drawn, params::asked(params)),
        ),
        final(model)@.palettes == old(model)@.palettes,
{
    ensure_terminal_type_supported(params)?;
    let chosen = workspace_target_id(model, params)?;
    let chosen_pane = choose_pane(model, params, chosen)?;
    let (workspace_id, pane_id, made) = or_internal(
        model.state.create_surface_with_ids(drawn, chosen, chosen_pane, false),
    )?;
    let mut fields = tell(model, workspace_id, Some(pane_id), Some(made))?;
    fields.put_text("type", "terminal");
    Ok(fields.finish())
}

/// Closes a surface.
pub fn surface_close_payload(model: &mut AppModel, params: &Params) -> (result: MethodResult)
    ensures
        reply::answers(result, final(model)@, old(model)@.surface_close(params::asked(params))),
        final(model)@.palettes == old(model)@.palettes,
{
    let workspace_id = workspace_target_id(model, params)?;
    let surface_id: SurfaceId = if param_string(params, "surface_id").is_some() {
        require_surface_id(model, params, "surface_id")?
    } else {
        match workspace_surface_id(model, workspace_id) {
            Some(surface_id) => surface_id,
            None => {
                return Err(MethodError::not_found("No focused surface"));
            },
        }
    };
    let (_, pane_id, _) = or_internal(model.state.close_surface(workspace_id, surface_id))?;
    let fields = tell(model, workspace_id, Some(pane_id), Some(surface_id))?;
    Ok(fields.finish())
}

fn choose_destination(model: &mut AppModel, params: &Params, source: WorkspaceId) -> (result: Result<
    WorkspaceId,
    MethodError,
>)
    ensures
        final(model)@ == old(model)@.destination(params::asked(params), source).0,
        reply::found(result) == old(model)@.destination(params::asked(params), source).1,
        final(model)@.palettes == old(model)@.palettes,
        final(model)@.state == old(model)@.state,
{
    if param_string(params, "pane_id").is_some() {
        let pane_id = require_pane_id(model, params, "pane_id")?;
        return match owner_id(&model.state, pane_id) {
            Some(workspace_id) => Ok(workspace_id),
            None => Err(MethodError::not_found("Pane not found")),
        };
    }
    if param_string(params, "workspace_id").is_some() {
        return require_workspace_id(model, params, "workspace_id");
    }
    if param_string(params, "window_id").is_some() {
        let window_id = require_window_id(model, params, "window_id")?;
        return match current_window_workspace_id(model, window_id) {
            Some(workspace_id) => Ok(workspace_id),
            None => Err(MethodError::not_found("Window has no selected workspace")),
        };
    }
    Ok(source)
}

fn place_surface(
    model: &mut AppModel,
    drawn: Drawn,
    surface_id: SurfaceId,
    destination: WorkspaceId,
    pane: PaneId,
    params: &Params,
    focus: bool,
) -> (result: MethodResult)
    requires
        old(model)@.state.has_room(),
    ensures
        reply::answers(
            result,
            final(model)@,
            old(model)@.placed(
                drawn,
                surface_id,
                destination,
                pane,
                params::asked(params),
                focus,
            ),
        ),
        final(model)@.palettes == old(model)@.palettes,
{
    let place = surface_target_index(model, surface_id, pane, params)?;
    let (workspace_id, pane_id, moved) = or_invalid(
        model.state.move_surface_with_ids(drawn, surface_id, destination, pane, place, focus),
    )?;
    let fields = tell(model, workspace_id, Some(pane_id), Some(moved))?;
    Ok(fields.finish())
}

/// Moves a surface to another pane.
pub fn surface_move_payload(model: &mut AppModel, drawn: Drawn, params: &Params) -> (result:
    MethodResult)
    requires
        old(model)@.state.has_room(),
    ensures
        reply::answers(
            result,
            final(model)@,
            old(model)@.surface_move(drawn, params::asked(params)),
        ),
        final(model)@.palettes == old(model)@.palettes,
{
    let surface_id = require_surface_id(model, params, "surface_id")?;
    let source: WorkspaceId = match model.state.locate_surface(surface_id) {
        Some((workspace_id, _)) => workspace_id,
        None => {
            return Err(MethodError::not_found("Surface not found"));
        },
    };
    let workspace_id = choose_destination(model, params, source)?;
    let pane_id = choose_pane(model, params, workspace_id)?;
    let focus = param_flag(params, "focus", true);
    place_surface(model, drawn, surface_id, workspace_id, pane_id, params, focus)
}

/// Moves a surface to another place in its pane.
pub fn surface_reorder_payload(model: &mut AppModel, drawn: Drawn, params: &Params) -> (result:
    MethodResult)
    requires
        old(model)@.state.has_room(),
    ensures
        reply::answers(
            result,
            final(model)@,
            old(model)@.surface_reorder(drawn, params::asked(params)),
        ),
        final(model)@.palettes == old(model)@.palettes,
{
    let surface_id = require_surface_id(model, params, "surface_id")?;
    match model.state.locate_surface(surface_id) {
        None => Err(MethodError::not_found("Surface not found")),
        Some((workspace_id, pane_id)) => place_surface(
            model,
            drawn,
            surface_id,
            workspace_id,
            pane_id,
            params,
            false,
        ),
    }
}

/// Answers a request to draw a workspace anew.
pub fn surface_refresh_payload(model: &mut AppModel, params: &Params) -> (result: MethodResult)
    ensures
        reply::answers(result, final(model)@, old(model)@.surface_refresh(params::asked(params))),
        final(model)@.palettes == old(model)@.palettes,
{
    let workspace_id = workspace_target_id(model, params)?;
    let fields = tell(model, workspace_id, None, None)?;
    Ok(fields.finish())
}

/// The identifiers of the surfaces of a workspace.
pub fn workspace_surface_ids(workspace: &Workspace) -> (list: Vec<SurfaceId>)
    ensures
        list@ == ids_of(workspace@.panes, workspace@.panes.len() as int),
{
    let mut list: Vec<SurfaceId> = Vec::new();
    let mut at: usize = 0;
    while at < workspace.panes.len()
        invariant
            at <= workspace.panes@.len(),
            list@ == ids_of(workspace@.panes, at as int),
        decreases workspace.panes@.len() - at,
    {
        let mut more = pane_surface_ids(&workspace.panes[at]);
        list.append(&mut more);
        at = at + 1;
    }
    list
}

fn clear_histories(state: &mut AppState, list: &Vec<SurfaceId>)
    ensures
        final(state)@ == old(state)@.cleared(list@, list@.len() as int),
{
    let ghost start = state@;
    let mut at: usize = 0;
    while at < list.len()
        invariant
            at <= list@.len(),
            state@ == start.cleared(list@, at as int),
        decreases list@.len() - at,
    {
        let _ = state.clear_surface_history(list[at]);
        at = at + 1;
    }
}

/// Clears the history of a surface, or of all surfaces of a workspace.
pub fn surface_clear_history_payload(model: &mut AppModel, params: &Params) -> (result:
    MethodResult)
    ensures
        reply::answers(
            result,
            final(model)@,
            old(model)@.surface_clear_history(params::asked(params)),
        ),
        final(model)@.palettes == old(model)@.palettes,
{
    if let Some(surface_id) = optional_surface_id(model, params, "surface_id")? {
        or_invalid(model.state.clear_surface_history(surface_id))?;
        return match model.state.locate_surface(surface_id) {
            None => Err(MethodError::not_found("Surface not found")),
            Some((workspace_id, _)) => {
                let fields = tell(model, workspace_id, None, Some(surface_id))?;
                Ok(fields.finish())
            },
        };
    }
    let workspace_id = workspace_target_id(model, params)?;
    let list: Vec<SurfaceId> = match model.state.workspace(workspace_id) {
        Some(workspace) => workspace_surface_ids(workspace),
        None => {
            return Err(MethodError::not_found("Workspace not found"));
        },
    };
    clear_histories(&mut model.state, &list);
    let fields = tell(model, workspace_id, None, None)?;
    Ok(fields.finish())
}

fn send(model: &mut AppModel, surface_id: SurfaceId, content: String) -> (result: Result<
    (),
    MethodError,
>)
    ensures
        final(model)@ == old(model)@.sent(surface_id, content@).0,
        reply::found(result) == old(model)@.sent(surface_id, content@).1,
        final(model)@.palettes == old(model)@.palettes,
{
    if model.terminal_bridge.connected {
        or_internal(model.terminal_bridge.send_text(surface_id, content))
    } else {
        or_internal(model.state.append_terminal_text(surface_id, content.as_str()))?;
        Ok(())
    }
}

/// Sends a text to a surface and tells where it went.
pub fn type_into_surface(model: &mut AppModel, surface_id: SurfaceId, content: String) -> (result:
    Result<Fields, MethodError>)
    ensures
        final(model)@ == old(model)@.typed(surface_id, content@).0,
        match result {
            Ok(fields) => old(model)@.typed(surface_id, content@).1 == Ok::<Reply, ErrorView>(
                Reply { model: final(model)@, fields: fields@ },
            ),
            Err(error) => old(model)@.typed(surface_id, content@).1 == Err::<Reply, ErrorView>(
                error@,
            ),
        },
        final(model)@.palettes == old(model)@.palettes,
{
    let workspace_id: WorkspaceId = match model.state.locate_surface(surface_id) {
        Some((workspace_id, _)) => workspace_id,
        None => {
            return Err(MethodError::not_found("Surface not found"));
        },
    };
    let window_id = window_of(model, workspace_id)?;
    send(model, surface_id, content)?;
    let mut fields = Fields::new();
    fields.put_window(model, window_id);
    fields.put_workspace(model, workspace_id);
    fields.put_surface(model, surface_id);
    Ok(fields)
}

/// Sends a text to a surface.
pub fn surface_send_text_payload(model: &mut AppModel, params: &Params) -> (result: MethodResult)
    ensures
        reply::answers(
            result,
            final(model)@,
            old(model)@.surface_send_text(params::asked(params)),
        ),
        final(model)@.palettes == old(model)@.palettes,
{
    let content: String = match raw_string_param(params, "text") {
        Some(content) => content,
        None => {
            return Err(MethodError::invalid("Missing text"));
        },
    };
    let surface_id = surface_target_id(model, params)?;
    let mut fields = type_into_surface(model, surface_id, content)?;
    fields.put_flag("queued", true);
    Ok(fields.finish())
}

/// Sends a key to a surface.
pub fn surface_send_key_payload(model: &mut AppModel, params: &Params) -> (result: MethodResult)
    ensures
        reply::answers(result, final(model)@, old(model)@.surface_send_key(params::asked(params))),
        final(model)@.palettes == old(model)@.palettes,
{
    let key: String = match param_string(params, "key") {
        Some(key) => key,
        None => {
            return Err(MethodError::invalid("Missing key"));
        },
    };
    let surface_id = surface_target_id(model, params)?;
    let content = translate_terminal_key(key.as_str())?;
    let fields = type_into_surface(model, surface_id, content)?;
    Ok(fields.finish())
}

/// Answers what a surface has on screen.
pub fn surface_read_text_payload(model: &mut AppModel, params: &Params) -> (result: MethodResult)
    ensures
        reply::answers(
            result,
            final(model)@,
            old(model)@.surface_read_text(params::asked(params)),
        ),
        final(model)@.palettes == old(model)@.palettes,
{
    let limit = param_usize(params, "lines")?;
    if let Some(lines) = limit {
        if lines == 0 {
            return Err(MethodError::invalid("lines must be greater than 0"));
        }
    }
    let surface_id = surface_target_id(model, params)?;
    match model.state.read_terminal_text(surface_id, limit) {
        Err(message) => Err(MethodError::internal_error(message)),
        Ok((workspace_id, content)) => {
            let window_id = window_of(model, workspace_id)?;
            let mut fields = Fields::new();
            fields.put_text("text", content.as_str());
            fields.put("base64", Value::Text(base64_text(content.as_str())));
            fields.put_window(model, window_id);
            fields.put_workspace(model, workspace_id);
            fields.put_surface(model, surface_id);
            Ok(fields.finish())
        },
    }
}

/// What is known of the process behind a terminal.
pub fn health_object(health: &TerminalHealth) -> (value: Value)
    ensures
        value@ == health_value(health@),
{
    let mut fields = Fields::new();
    fields.put_flag("realized", health.realized);
    fields.put("startup_error", Value::opt_text(&health.startup_error));
    fields.put_flag("io_thread_main_started", health.io_thread_main_started);
    fields.put_flag("io_thread_entered", health.io_thread_entered);
    fields.put_flag("subprocess_start_attempted", health.subprocess_start_attempted);
    fields.put(
        "child_pid",
        match health.child_pid {
            Some(pid) => Value::signed(pid as i64),
            None => Value::Null,
        },
    );
    fields.put_flag("child_exited", health.child_exited);
    fields.put(
        "child_exit_code",
        match health.child_exit_code {
            Some(code) => Value::number(code as u64),
            None => Value::Null,
        },
    );
    fields.put(
        "child_runtime_ms",
        match health.child_runtime_ms {
            Some(runtime) => Value::number(runtime),
            None => Value::Null,
        },
    );
    fields.finish()
}

fn health_row_objects(model: &mut AppModel, rows: &Vec<SurfaceRow<'_>>) -> (value: Value)
    ensures
        final(model)@ == old(model)@.health_rows(row_views(rows@), rows@.len() as int).0,
        value@ == ValueView::Array(
            old(model)@.health_rows(row_views(rows@), rows@.len() as int).1,
        ),
        final(model)@.palettes == old(model)@.palettes,
{
    let ghost start = model@;
    let mut values: Vec<Value> = Vec::new();
    let mut at: usize = 0;
    proof {
        assert(json::value_views(values@) =~= Seq::empty());
    }
    while at < rows.len()
        invariant
            at <= rows@.len(),
            (model@, json::value_views(values@)) == start.health_rows(row_views(rows@), at as int),
            model@.palettes == start.palettes,
        decreases rows@.len() - at,
    {
        let ghost before = json::value_views(values@);
        let surface: &Surface = rows[at].surface;
        proof {
            assert(row_views(rows@)[at as int] == rows@[at as int]@);
        }
        let mut fields = Fields::new();
        fields.put_count("index", at);
        fields.put("id", Value::id(surface.id));
        fields.put_name(model, "ref", HandleKind::Surface, surface.id);
        fields.put_text("type", surface_type_name(surface.kind));
        fields.put_flag("in_window", true);
        fields.put("terminal_health", health_object(&surface.terminal_health));
        let value = fields.finish();
        let ghost content = value@;
        values.push(value);
        proof {
            assert(json::value_views(values@) =~= before.push(content));
        }
        at = at + 1;
    }
    array(values)
}

/// Answers what is known of the processes behind the surfaces of a workspace.
pub fn surface_health_payload(model: &mut AppModel, params: &Params) -> (result: MethodResult)
    ensures
        reply::answers(result, final(model)@, old(model)@.surface_health(params::asked(params))),
        final(model)@.palettes == old(model)@.palettes,
{
    let workspace_id = workspace_target_id(model, params)?;
    let snapshot = model.snapshot_state();
    match snapshot.workspace(workspace_id) {
        None => Err(MethodError::not_found("Workspace not found")),
        Some(workspace) => {
            let rows = workspace_surface_rows(workspace);
            proof {
                assert(row_views(rows@).len() == rows@.len());
            }
            let values = health_row_objects(model, &rows);
            let mut fields = Fields::new();
            fields.put_window(model, workspace.window_id);
            fields.put_workspace(model, workspace_id);
            fields.put("surfaces", values);
            Ok(fields.finish())
        },
    }
}

/// Lets a surface flash.
pub fn surface_trigger_flash_payload(model: &mut AppModel, params: &Params) -> (result: MethodResult)
    ensures
        reply::answers(
            result,
            final(model)@,
            old(model)@.surface_trigger_flash(params::asked(params)),
        ),
        final(model)@.palettes == old(model)@.palettes,
{
    let surface_id = surface_target_id(model, params)?;
    let (workspace_id, _, count) = or_internal(model.state.trigger_flash(surface_id))?;
    let mut fields = tell(model, workspace_id, None, Some(surface_id))?;
    fields.put("flash_count", Value::number(count));
    Ok(fields.finish())
}

} // verus!
