//! Answers to requests about panes.

use crate::ids::{Drawn, PaneId, SurfaceId, WorkspaceId};
use crate::json;
use crate::json::{Value, ValueView};
use crate::layout::{SplitOrientation, WorkspaceLayout};
use crate::model::{AppModel, ModelView};
use crate::params;
use crate::params::{
    ensure_terminal_type_supported, optional_surface_id, owned_pane, owner_id, pane_surface_ids,
    param_flag, param_string, parse_direction, require_pane_id, surface_target_id,
    workspace_target_id, Params, ParamsView,
};
use crate::registry::HandleKind;
use crate::reply;
use crate::reply::{
    array, ids_array, or_internal, or_invalid, or_missing, tell, ErrorView, Fields, MethodError,
    MethodResult, Outcome, Reply,
};
use crate::surface::{Pane, PaneView};
use crate::workspace;
use crate::workspace::{Workspace, WorkspaceView};
use vstd::prelude::*;

verus! {

/// Whether a workspace has just two panes, side by side, and the one on the right was made last.
pub open spec fn newer_on_the_right(workspace: WorkspaceView) -> bool {
    &&& workspace.panes.len() == 2
    &&& workspace.layout == WorkspaceLayout::Split {
        orientation: SplitOrientation::Horizontal,
        first: Box::new(WorkspaceLayout::Pane(workspace.panes[0].id)),
        second: Box::new(WorkspaceLayout::Pane(workspace.panes[1].id)),
    }
}

/// The rows with the last one moved to the front.
pub open spec fn last_first(rows: Seq<ValueView>) -> Seq<ValueView> {
    if rows.len() == 0 {
        rows
    } else {
        rows.drop_last().insert(0, rows.last())
    }
}

impl ModelView {
    /// The short names of the first `count` objects of a list.
    pub open spec fn names_of(self, kind: HandleKind, list: Seq<u128>, count: int) -> (
        ModelView,
        Seq<ValueView>,
    )
        decreases count,
    {
        if count <= 0 {
            (self, Seq::empty())
        } else {
            let (model, rows) = self.names_of(kind, list, count - 1);
            (
                model.naming(kind, list[count - 1]),
                rows.push(ValueView::Text(model.name(kind, list[count - 1]))),
            )
        }
    }

    /// What is told of one pane.
    pub open spec fn pane_row(self, pane: PaneView, index: nat, focused: bool) -> Reply {
        let list = params::surface_ids(pane);
        let first = Reply::of(self).with("id"@, json::id_value(pane.id)).named(
            "ref"@,
            HandleKind::Pane,
            pane.id,
        ).with("index"@, json::count_value(index)).with("focused"@, ValueView::Bool(focused)).with(
            "surface_ids"@,
            json::ids_value(list),
        );
        let (model, names) = first.model.names_of(HandleKind::Surface, list, list.len() as int);
        (Reply { model, ..first }).with("surface_refs"@, ValueView::Array(names)).with(
            "selected_surface_id"@,
            json::id_value(pane.selected_surface_id),
        ).named("selected_surface_ref"@, HandleKind::Surface, pane.selected_surface_id).with(
            "surface_count"@,
            json::count_value(pane.surfaces.len()),
        )
    }

    /// What is told of the first `count` panes of a list, of which one may have the focus.
    pub open spec fn pane_rows(
        self,
        panes: Seq<PaneView>,
        focused: Option<PaneId>,
        count: int,
    ) -> (ModelView, Seq<ValueView>)
        decreases count,
    {
        if count <= 0 {
            (self, Seq::empty())
        } else {
            let (model, rows) = self.pane_rows(panes, focused, count - 1);
            let pane = panes[count - 1];
            let row = model.pane_row(pane, (count - 1) as nat, focused == Some(pane.id));
            (row.model, rows.push(ValueView::Object(row.fields)))
        }
    }

    /// The panes of a workspace in the order of its layout. Of just two panes side by side, the one
    /// on the right comes first if it was made last.
    pub open spec fn pane_list(self, params: ParamsView) -> Outcome {
        match params::workspace_target(self, params) {
            (model, Err(error)) => (model, Err(error)),
            (model, Ok(workspace_id)) => match model.state.workspace(workspace_id) {
                None => (model, Err(ErrorView::not_found("Workspace not found"@))),
                Some(workspace) => {
                    let panes = workspace.ordered_panes();
                    let focused = if workspace.id == model.state.selected_workspace_id {
                        Some(workspace.selected_pane_id)
                    } else {
                        None
                    };
                    let (next, rows) = model.pane_rows(panes, focused, panes.len() as int);
                    Reply::of(next).window(workspace.window_id).workspace(workspace.id).with(
                        "panes"@,
                        ValueView::Array(
                            if newer_on_the_right(workspace) {
                                last_first(rows)
                            } else {
                                rows
                            },
                        ),
                    ).done()
                },
            },
        }
    }

    /// What is told of one surface of a pane.
    pub open spec fn tab_row(self, pane: PaneView, at: int) -> Reply {
        let surface = pane.surfaces[at];
        Reply::of(self).with("index"@, json::count_value(at as nat)).with(
            "id"@,
            json::id_value(surface.id),
        ).named("ref"@, HandleKind::Surface, surface.id).with(
            "title"@,
            ValueView::Text(surface.title),
        ).with("selected"@, ValueView::Bool(pane.selected_surface_id == surface.id))
    }

    /// What is told of the first `count` surfaces of a pane.
    pub open spec fn tab_rows(self, pane: PaneView, count: int) -> (ModelView, Seq<ValueView>)
        decreases count,
    {
        if count <= 0 {
            (self, Seq::empty())
        } else {
            let (model, rows) = self.tab_rows(pane, count - 1);
            let row = model.tab_row(pane, count - 1);
            (row.model, rows.push(ValueView::Object(row.fields)))
        }
    }

    /// The pane that a request is about: the one that it names, or the selected one of its
    /// workspace.
    pub open spec fn pane_target(self, params: ParamsView) -> params::Search<PaneId> {
        if params::word(params, "pane_id"@) is Some {
            params::required(self, params, HandleKind::Pane, "pane_id"@)
        } else {
            match params::workspace_target(self, params) {
                (model, Err(error)) => (model, Err(error)),
                (model, Ok(workspace_id)) => (
                    model,
                    match model.state.workspace(workspace_id) {
                        Some(workspace) => Ok(workspace.selected_pane_id),
                        None => Err(ErrorView::not_found("Workspace not found"@)),
                    },
                ),
            }
        }
    }

    /// The surfaces of a pane.
    pub open spec fn pane_surfaces(self, params: ParamsView) -> Outcome {
        match self.pane_target(params) {
            (model, Err(error)) => (model, Err(error)),
            (model, Ok(pane_id)) => match model.state.owner(pane_id) {
                None => (model, Err(ErrorView::not_found("Pane not found"@))),
                Some(at) => {
                    let workspace = model.state.workspaces[at];
                    match workspace.pane(pane_id) {
                        None => (model, Err(ErrorView::not_found("Pane not found"@))),
                        Some(pane) => {
                            let outer = Reply::of(model).window(workspace.window_id).workspace(
                                workspace.id,
                            ).pane(pane.id);
                            let (next, rows) = outer.model.tab_rows(
                                pane,
                                pane.surfaces.len() as int,
                            );
                            (Reply { model: next, ..outer }).with(
                                "surfaces"@,
                                ValueView::Array(rows),
                            ).done()
                        },
                    }
                },
            },
        }
    }

    /// Two panes change places.
    pub open spec fn pane_swap(self, params: ParamsView) -> Outcome {
        match params::required(self, params, HandleKind::Pane, "pane_id"@) {
            (first, Err(error)) => (first, Err(error)),
            (first, Ok(pane_id)) => match params::required(
                first,
                params,
                HandleKind::Pane,
                "target_pane_id"@,
            ) {
                (second, Err(error)) => (second, Err(error)),
                (second, Ok(target)) => match second.invalid(
                    second.state.swap_panes(
                        pane_id,
                        target,
                        params::flag(params, "focus"@, true),
                    ),
                ) {
                    (next, Err(error)) => (next, Err(error)),
                    (next, Ok(workspace_id)) => match next.told(
                        workspace_id,
                        Some(pane_id),
                        None,
                    ) {
                        Err(error) => (next, Err(error)),
                        Ok(reply) => reply.with("target_pane_id"@, json::id_value(target)).named(
                            "target_pane_ref"@,
                            HandleKind::Pane,
                            target,
                        ).done(),
                    },
                },
            },
        }
    }

    /// The surface that a request names, or the selected one of the pane that it names, or the one
    /// that it is about.
    pub open spec fn chosen_surface(self, params: ParamsView) -> params::Search<SurfaceId> {
        match params::optional(self, params, HandleKind::Surface, "surface_id"@) {
            (model, Err(error)) => (model, Err(error)),
            (model, Ok(Some(surface_id))) => (model, Ok(surface_id)),
            (model, Ok(None)) => if params::word(params, "pane_id"@) is Some {
                match params::required(model, params, HandleKind::Pane, "pane_id"@) {
                    (next, Err(error)) => (next, Err(error)),
                    (next, Ok(pane_id)) => (
                        next,
                        match next.state.owned_pane(pane_id) {
                            Some(pane) => Ok(pane.selected_surface_id),
                            None => Err(ErrorView::not_found("Pane not found"@)),
                        },
                    ),
                }
            } else {
                params::surface_target(model, params)
            },
        }
    }

    /// A surface gets a workspace of its own.
    pub open spec fn pane_break(self, drawn: Drawn, params: ParamsView) -> Outcome {
        match self.chosen_surface(params) {
            (model, Err(error)) => (model, Err(error)),
            (model, Ok(surface_id)) => match model.invalid(
                model.state.break_surface(
                    drawn,
                    surface_id,
                    params::flag(params, "focus"@, true),
                ),
            ) {
                (next, Err(error)) => (next, Err(error)),
                (next, Ok(workspace_id)) => next.finished(
                    next.told(workspace_id, None, Some(surface_id)),
                ),
            },
        }
    }

    /// A surface becomes the last one of a pane.
    pub open spec fn joined(
        self,
        drawn: Drawn,
        surface_id: SurfaceId,
        target: PaneId,
        focus: bool,
    ) -> Outcome {
        match self.state.owner_id(target) {
            None => (self, Err(ErrorView::not_found("Pane not found"@))),
            Some(workspace_id) => match self.pane_in(workspace_id, target) {
                None => (self, Err(ErrorView::not_found("Pane not found"@))),
                Some(pane) => match self.invalid(
                    self.state.move_surface(
                        drawn,
                        surface_id,
                        workspace_id,
                        target,
                        pane.surfaces.len() as int,
                        focus,
                    ),
                ) {
                    (next, Err(error)) => (next, Err(error)),
                    (next, Ok((place, pane_id, moved))) => next.finished(
                        next.told(place, Some(pane_id), Some(moved)),
                    ),
                },
            },
        }
    }

    /// The pane of a workspace.
    pub open spec fn pane_in(self, workspace_id: WorkspaceId, pane_id: PaneId) -> Option<PaneView> {
        match self.state.workspace(workspace_id) {
            Some(workspace) => workspace.pane(pane_id),
            None => None,
        }
    }

    /// A surface becomes the last one of the pane that the request names.
    pub open spec fn pane_join(self, drawn: Drawn, params: ParamsView) -> Outcome {
        match params::required(self, params, HandleKind::Pane, "target_pane_id"@) {
            (first, Err(error)) => (first, Err(error)),
            (first, Ok(target)) => match first.chosen_surface(params) {
                (model, Err(error)) => (model, Err(error)),
                (model, Ok(surface_id)) => model.joined(
                    drawn,
                    surface_id,
                    target,
                    params::flag(params, "focus"@, true),
                ),
            },
        }
    }

    /// A pane has the focus.
    pub open spec fn pane_focus(self, params: ParamsView) -> Outcome {
        match params::required(self, params, HandleKind::Pane, "pane_id"@) {
            (model, Err(error)) => (model, Err(error)),
            (model, Ok(pane_id)) => match model.missing(
                model.state.focus_pane(pane_id),
                "pane_id"@,
                pane_id,
            ) {
                (next, Err(error)) => (next, Err(error)),
                (next, Ok(workspace_id)) => next.finished(
                    next.told(workspace_id, Some(pane_id), None),
                ),
            },
        }
    }

    /// The workspace that a request is about, shown.
    pub open spec fn opened_workspace(self, params: ParamsView) -> params::Search<()> {
        match params::workspace_target(self, params) {
            (model, Err(error)) => (model, Err(error)),
            (model, Ok(workspace_id)) => if workspace_id == model.state.selected_workspace_id {
                (model, Ok(()))
            } else {
                model.internal(model.state.select_workspace(workspace_id))
            },
        }
    }

    /// The pane that had the focus before has it.
    pub open spec fn pane_last(self, params: ParamsView) -> Outcome {
        match self.opened_workspace(params) {
            (model, Err(error)) => (model, Err(error)),
            (model, Ok(_)) => match model.internal(model.state.focus_last_pane()) {
                (next, Err(error)) => (next, Err(error)),
                (next, Ok((workspace_id, pane_id))) => next.finished(
                    next.told(workspace_id, Some(pane_id), None),
                ),
            },
        }
    }

    /// A new pane beside a surface, without the focus.
    pub open spec fn split_beside(
        self,
        drawn: Drawn,
        surface_id: SurfaceId,
        way: (SplitOrientation, bool),
    ) -> Outcome {
        match self.internal(
            self.state.split_surface(drawn, surface_id, way.0, way.1, false),
        ) {
            (next, Err(error)) => (next, Err(error)),
            (next, Ok((workspace_id, pane_id, made))) => next.finished_terminal(
                next.told(workspace_id, Some(pane_id), Some(made)),
            ),
        }
    }

    /// The finished answer for a new terminal, or the error.
    pub open spec fn finished_terminal(self, reply: Result<Reply, ErrorView>) -> Outcome {
        match reply {
            Ok(inner) => inner.with("type"@, ValueView::Text("terminal"@)).done(),
            Err(error) => (self, Err(error)),
        }
    }

    /// A new pane beside the selected surface of a workspace.
    pub open spec fn pane_create(self, drawn: Drawn, params: ParamsView) -> Outcome {
        match params::direction(params) {
            Err(error) => (self, Err(error)),
            Ok(way) => match params::terminal_type(params) {
                Err(error) => (self, Err(error)),
                Ok(_) => match params::workspace_target(self, params) {
                    (model, Err(error)) => (model, Err(error)),
                    (model, Ok(workspace_id)) => match model.state.workspace(workspace_id) {
                        None => (model, Err(ErrorView::not_found("Workspace not found"@))),
                        Some(workspace) => match workspace.selected_surface_id() {
                            None => (
                                model,
                                Err(ErrorView::not_found("No focused surface to split"@)),
                            ),
                            Some(surface_id) => model.split_beside(drawn, surface_id, way),
                        },
                    },
                },
            },
        }
    }
}

/// Adds the short names of surfaces.
pub fn put_names(model: &mut AppModel, kind: HandleKind, list: &Vec<u128>) -> (value: Value)
    ensures
        final(model)@ == old(model)@.names_of(kind, list@, list@.len() as int).0,
        value@ == ValueView::Array(old(model)@.names_of(kind, list@, list@.len() as int).1),
        final(model)@.state == old(model)@.state,
        final(model)@.palettes == old(model)@.palettes,
{
    let ghost start = model@;
    let mut rows: Vec<Value> = Vec::new();
    let mut at: usize = 0;
    proof {
        assert(json::value_views(rows@) =~= Seq::empty());
    }
    while at < list.len()
        invariant
            at <= list@.len(),
            (model@, json::value_views(rows@)) == start.names_of(kind, list@, at as int),
            model@.state == start.state,
            model@.palettes == start.palettes,
        decreases list@.len() - at,
    {
        let ghost before = json::value_views(rows@);
        let name = Value::Text(model.name_of(kind, list[at]));
        let ghost content = name@;
        rows.push(name);
        proof {
            assert(json::value_views(rows@) =~= before.push(content));
        }
        at = at + 1;
    }
    array(rows)
}

fn pane_row_object(model: &mut AppModel, pane: &Pane, index: usize, focused: bool) -> (value: Value)
    ensures
        final(model)@ == old(model)@.pane_row(pane@, index as nat, focused).model,
        value@ == ValueView::Object(old(model)@.pane_row(pane@, index as nat, focused).fields),
        final(model)@.state == old(model)@.state,
        final(model)@.palettes == old(model)@.palettes,
{
    let list = pane_surface_ids(pane);
    let mut fields = Fields::new();
    fields.put("id", Value::id(pane.id));
    fields.put_name(model, "ref", HandleKind::Pane, pane.id);
    fields.put_count("index", index);
    fields.put_flag("focused", focused);
    fields.put("surface_ids", ids_array(&list));
    let names = put_names(model, HandleKind::Surface, &list);
    fields.put("surface_refs", names);
    fields.put("selected_surface_id", Value::id(pane.selected_surface_id));
    fields.put_name(model, "selected_surface_ref", HandleKind::Surface, pane.selected_surface_id);
    fields.put_count("surface_count", pane.surfaces.len());
    fields.finish()
}

fn right_pane_is_newer(workspace: &Workspace) -> (newer: bool)
    ensures
        newer == newer_on_the_right(workspace@),
{
    if workspace.panes.len() != 2 {
        return false;
    }
    proof {
        assert(workspace@.panes[0] == workspace.panes@[0]@);
        assert(workspace@.panes[1] == workspace.panes@[1]@);
    }
    match &workspace.layout {
        WorkspaceLayout::Pane(_) => false,
        WorkspaceLayout::Split { orientation, first, second } => match (&**first, &**second) {
            (WorkspaceLayout::Pane(left), WorkspaceLayout::Pane(right)) => *orientation
                == SplitOrientation::Horizontal && *left == workspace.panes[0].id && *right
                == workspace.panes[1].id,
            _ => false,
        },
    }
}

fn put_last_first(rows: &mut Vec<Value>)
    ensures
        json::value_views(final(rows)@) == last_first(json::value_views(old(rows)@)),
{
    let ghost before = json::value_views(rows@);
    if let Some(row) = rows.pop() {
        let ghost last = row@;
        rows.insert(0, row);
        proof {
            assert(json::value_views(rows@) =~= before.drop_last().insert(0, last));
        }
    } else {
        proof {
            assert(json::value_views(rows@) =~= before);
        }
    }
}

fn pane_row_objects(model: &mut AppModel, panes: &Vec<&Pane>, focused: Option<PaneId>) -> (rows:
    Vec<Value>)
    ensures
        (final(model)@, json::value_views(rows@)) == old(model)@.pane_rows(
            workspace::pane_ref_views(panes@),
            focused,
            panes@.len() as int,
        ),
        final(model)@.palettes == old(model)@.palettes,
{
    let ghost start = model@;
    let ghost listed = workspace::pane_ref_views(panes@);
    let mut rows: Vec<Value> = Vec::new();
    let mut at: usize = 0;
    proof {
        assert(json::value_views(rows@) =~= Seq::empty());
    }
    while at < panes.len()
        invariant
            at <= panes@.len(),
            listed == workspace::pane_ref_views(panes@),
            (model@, json::value_views(rows@)) == start.pane_rows(listed, focused, at as int),
            model@.palettes == start.palettes,
        decreases panes@.len() - at,
    {
        let ghost before = json::value_views(rows@);
        let pane = panes[at];
        let has_focus = match focused {
            Some(id) => id == pane.id,
            None => false,
        };
        proof {
            assert(listed[at as int] == pane@);
        }
        let row = pane_row_object(model, pane, at, has_focus);
        let ghost content = row@;
        rows.push(row);
        proof {
            assert(json::value_views(rows@) =~= before.push(content));
        }
        at = at + 1;
    }
    rows
}

/// Answers which panes a workspace has.
pub fn pane_list_payload(model: &mut AppModel, params: &Params) -> (result: MethodResult)
    ensures
        reply::answers(result, final(model)@, old(model)@.pane_list(params::asked(params))),
        final(model)@.palettes == old(model)@.palettes,
{
    let workspace_id = workspace_target_id(model, params)?;
    let snapshot = model.snapshot_state();
    match snapshot.workspace(workspace_id) {
        None => Err(MethodError::not_found("Workspace not found")),
        Some(workspace) => {
            let focused: Option<PaneId> = if workspace.id == snapshot.selected_workspace_id {
                Some(workspace.selected_pane_id)
            } else {
                None
            };
            let panes = workspace.ordered_panes();
            let mut rows = pane_row_objects(model, &panes, focused);
            if right_pane_is_newer(workspace) {
                put_last_first(&mut rows);
            }
            let mut fields = Fields::new();
            fields.put_window(model, workspace.window_id);
            fields.put_workspace(model, workspace.id);
            fields.put("panes", array(rows));
            Ok(fields.finish())
        },
    }
}

fn tab_row_objects(model: &mut AppModel, pane: &Pane) -> (value: Value)
    ensures
        final(model)@ == old(model)@.tab_rows(pane@, pane@.surfaces.len() as int).0,
        value@ == ValueView::Array(old(model)@.tab_rows(pane@, pane@.surfaces.len() as int).1),
        final(model)@.palettes == old(model)@.palettes,
{
    let ghost start = model@;
    let mut rows: Vec<Value> = Vec::new();
    let mut at: usize = 0;
    proof {
        assert(json::value_views(rows@) =~= Seq::empty());
    }
    while at < pane.surfaces.len()
        invariant
            at <= pane.surfaces@.len(),
            (model@, json::value_views(rows@)) == start.tab_rows(pane@, at as int),
            model@.palettes == start.palettes,
        decreases pane.surfaces@.len() - at,
    {
        let ghost before = json::value_views(rows@);
        let surface = &pane.surfaces[at];
        proof {
            assert(pane@.surfaces[at as int] == surface@);
        }
        let mut fields = Fields::new();
        fields.put_count("index", at);
        fields.put("id", Value::id(surface.id));
        fields.put_name(model, "ref", HandleKind::Surface, surface.id);
        fields.put_text("title", surface.title.as_str());
        fields.put_flag("selected", pane.selected_surface_id == surface.id);
        let row = fields.finish();
        let ghost content = row@;
        rows.push(row);
        proof {
            assert(json::value_views(rows@) =~= before.push(content));
        }
        at = at + 1;
    }
    array(rows)
}

/// The pane that a request is about.
pub fn pane_target_id(model: &mut AppModel, params: &Params) -> (result: Result<
    PaneId,
    MethodError,
>)
    ensures
        final(model)@ == old(model)@.pane_target(params::asked(params)).0,
        reply::found(result) == old(model)@.pane_target(params::asked(params)).1,
        final(model)@.palettes == old(model)@.palettes,
{
    if param_string(params, "pane_id").is_some() {
        return require_pane_id(model, params, "pane_id");
    }
    let workspace_id = workspace_target_id(model, params)?;
    match model.state.workspace(workspace_id) {
        Some(workspace) => Ok(workspace.selected_pane_id),
        None => Err(MethodError::not_found("Workspace not found")),
    }
}

/// Answers which surfaces a pane has.
pub fn pane_surfaces_payload(model: &mut AppModel, params: &Params) -> (result: MethodResult)
    ensures
        reply::answers(result, final(model)@, old(model)@.pane_surfaces(params::asked(params))),
        final(model)@.palettes == old(model)@.palettes,
{
    let pane_id = pane_target_id(model, params)?;
    let snapshot = model.snapshot_state();
    let at: usize = match snapshot.owner_index(pane_id) {
        Some(at) => at,
        None => {
            return Err(MethodError::not_found("Pane not found"));
        },
    };
    let workspace = &snapshot.workspaces[at];
    match workspace.pane(pane_id) {
        None => Err(MethodError::not_found("Pane not found")),
        Some(pane) => {
            let mut fields = Fields::new();
            fields.put_window(model, workspace.window_id);
            fields.put_workspace(model, workspace.id);
            fields.put_pane(model, pane.id);
            let rows = tab_row_objects(model, pane);
            fields.put("surfaces", rows);
            Ok(fields.finish())
        },
    }
}

/// Lets two panes change places.
pub fn pane_swap_payload(model: &mut AppModel, params: &Params) -> (result: MethodResult)
    ensures
        reply::answers(result, final(model)@, old(model)@.pane_swap(params::asked(params))),
        final(model)@.palettes == old(model)@.palettes,
{
    let pane_id = require_pane_id(model, params, "pane_id")?;
    let target = require_pane_id(model, params, "target_pane_id")?;
    let focus = param_flag(params, "focus", true);
    let workspace_id = or_invalid(model.state.swap_panes(pane_id, target, focus))?;
    let mut fields = tell(model, workspace_id, Some(pane_id), None)?;
    fields.put("target_pane_id", Value::id(target));
    fields.put_name(model, "target_pane_ref", HandleKind::Pane, target);
    Ok(fields.finish())
}

fn choose_surface(model: &mut AppModel, params: &Params) -> (result: Result<SurfaceId, MethodError>)
    ensures
        final(model)@ == old(model)@.chosen_surface(params::asked(params)).0,
        reply::found(result) == old(model)@.chosen_surface(params::asked(params)).1,
        final(model)@.palettes == old(model)@.palettes,
        final(model)@.state == old(model)@.state,
{
    if let Some(surface_id) = optional_surface_id(model, params, "surface_id")? {
        return Ok(surface_id);
    }
    if param_string(params, "pane_id").is_some() {
        let pane_id = require_pane_id(model, params, "pane_id")?;
        return match owned_pane(&model.state, pane_id) {
            Some(pane) => Ok(pane.selected_surface_id),
            None => Err(MethodError::not_found("Pane not found")),
        };
    }
    surface_target_id(model, params)
}

/// Gives a surface a workspace of its own.
pub fn pane_break_payload(model: &mut AppModel, drawn: Drawn, params: &Params) -> (result:
    MethodResult)
    requires
        old(model)@.state.has_room(),
    ensures
        reply::answers(result, final(model)@, old(model)@.pane_break(drawn, params::asked(params))),
        final(model)@.palettes == old(model)@.palettes,
{
    let surface_id = choose_surface(model, params)?;
    let focus = param_flag(params, "focus", true);
    let workspace_id = or_invalid(model.state.break_surface_with_ids(drawn, surface_id, focus))?;
    let fields = tell(model, workspace_id, None, Some(surface_id))?;
    Ok(fields.finish())
}

/// Moves a surface to the end of a pane.
pub fn pane_join_payload(model: &mut AppModel, drawn: Drawn, params: &Params) -> (result:
    MethodResult)
    requires
        old(model)@.state.has_room(),
    ensures
        reply::answers(result, final(model)@, old(model)@.pane_join(drawn, params::asked(params))),
        final(model)@.palettes == old(model)@.palettes,
{
    let target = require_pane_id(model, params, "target_pane_id")?;
    let surface_id = choose_surface(model, params)?;
    let destination: WorkspaceId = match owner_id(&model.state, target) {
        Some(workspace_id) => workspace_id,
        None => {
            return Err(MethodError::not_found("Pane not found"));
        },
    };
    let focus = param_flag(params, "focus", true);
    let place: usize = match model.state.workspace(destination) {
        Some(workspace) => match workspace.pane(target) {
            Some(pane) => pane.surfaces.len(),
            None => {
                return Err(MethodError::not_found("Pane not found"));
            },
        },
        None => {
            return Err(MethodError::not_found("Pane not found"));
        },
    };
    let (workspace_id, pane_id, moved) = or_invalid(
        model.state.move_surface_with_ids(drawn, surface_id, destination, target, place, focus),
    )?;
    let fields = tell(model, workspace_id, Some(pane_id), Some(moved))?;
    Ok(fields.finish())
}

/// Focuses a pane.
pub fn pane_focus_payload(model: &mut AppModel, params: &Params) -> (result: MethodResult)
    ensures
        reply::answers(result, final(model)@, old(model)@.pane_focus(params::asked(params))),
        final(model)@.palettes == old(model)@.palettes,
{
    let pane_id = require_pane_id(model, params, "pane_id")?;
    let workspace_id = or_missing(model.state.focus_pane(pane_id), "pane_id", pane_id)?;
    let fields = tell(model, workspace_id, Some(pane_id), None)?;
    Ok(fields.finish())
}

/// Focuses the pane that had the focus before.
pub fn pane_last_payload(model: &mut AppModel, params: &Params) -> (result: MethodResult)
    ensures
        reply::answers(result, final(model)@, old(model)@.pane_last(params::asked(params))),
        final(model)@.palettes == old(model)@.palettes,
{
    let shown = workspace_target_id(model, params)?;
    if shown != model.state.selected_workspace_id {
        or_internal(model.state.select_workspace(shown))?;
    }
    let (workspace_id, pane_id) = or_internal(model.state.focus_last_pane())?;
    let fields = tell(model, workspace_id, Some(pane_id), None)?;
    Ok(fields.finish())
}

/// Makes a pane beside a surface.
pub fn split_beside_surface(
    model: &mut AppModel,
    drawn: Drawn,
    surface_id: SurfaceId,
    way: (SplitOrientation, bool),
) -> (result: MethodResult)
    requires
        old(model)@.state.next_surface_title_number < usize::MAX,
    ensures
        reply::answers(result, final(model)@, old(model)@.split_beside(drawn, surface_id, way)),
        final(model)@.palettes == old(model)@.palettes,
{
    let (workspace_id, pane_id, made) = or_internal(
        model.state.split_surface_with_ids(drawn, surface_id, way.0, way.1, false),
    )?;
    let mut fields = tell(model, workspace_id, Some(pane_id), Some(made))?;
    fields.put_text("type", "terminal");
    Ok(fields.finish())
}

/// Makes a pane beside the selected surface of a workspace.
pub fn pane_create_payload(model: &mut AppModel, drawn: Drawn, params: &Params) -> (result:
    MethodResult)
    requires
        old(model)@.state.next_surface_title_number < usize::MAX,
    ensures
        reply::answers(
            result,
            final(model)@,
            old(model)@.pane_create(drawn, params::asked(params)),
        ),
        final(model)@.palettes == old(model)@.palettes,
{
    let way = parse_direction(params)?;
    ensure_terminal_type_supported(params)?;
    let workspace_id = workspace_target_id(model, params)?;
    let surface_id: SurfaceId = match model.state.workspace(workspace_id) {
        None => {
            return Err(MethodError::not_found("Workspace not found"));
        },
        Some(workspace) => match workspace.selected_surface_id() {
            Some(surface_id) => surface_id,
            None => {
                return Err(MethodError::not_found("No focused surface to split"));
            },
        },
    };
    split_beside_surface(model, drawn, surface_id, way)
}

} // verus!
