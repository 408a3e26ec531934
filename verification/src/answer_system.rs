//! Answers to questions about the application as a whole.

use crate::capabilities::{merged_capability_profile, terminal_backend_status};
use crate::ids::{PaneId, SurfaceId, WorkspaceId};
use crate::json;
use crate::json::{Value, ValueView};
use crate::methods;
use crate::methods::advertised_methods;
use crate::model::{AppModel, ModelView};
use crate::params;
use crate::params::{param_value, Params, ParamsView};
use crate::registry::HandleKind;
use crate::reply;
use crate::reply::{names_array, Fields, MethodResult, Outcome, Reply};
use crate::surface::SurfaceKind;
use vstd::prelude::*;

verus! {

/// The name of a kind of surface.
pub open spec fn kind_name(kind: SurfaceKind) -> Seq<char> {
    match kind {
        SurfaceKind::Terminal => "terminal"@,
    }
}

/// The name of a kind of surface.
pub fn surface_type_name(kind: SurfaceKind) -> (name: &'static str)
    ensures
        name@ == kind_name(kind),
{
    match kind {
        SurfaceKind::Terminal => "terminal",
    }
}

/// How terminals are run.
pub open spec fn backend_value() -> ValueView {
    ValueView::Object(
        reply::no_fields().push(("active"@, ValueView::Text("vte"@))).push(
            ("requested"@, ValueView::Null),
        ).push(
            ("supported"@, json::texts_value(Seq::<Seq<char>>::empty().push("vte"@))),
        ).push(("note"@, ValueView::Null)),
    )
}

/// The platform.
pub open spec fn platform_value() -> ValueView {
    ValueView::Object(
        reply::no_fields().push(("id"@, ValueView::Text("linux"@))).push(
            ("frontend"@, ValueView::Text("gtk4-libadwaita"@)),
        ).push(("variant"@, ValueView::Text("wayland-v1"@))).push(
            ("window_multi"@, ValueView::Bool(true)),
        ),
    )
}

/// What is offered.
pub open spec fn features_value() -> ValueView {
    ValueView::Object(
        reply::no_fields().push(("terminal"@, ValueView::Bool(true))).push(
            ("workspace"@, ValueView::Bool(true)),
        ).push(("pane"@, ValueView::Bool(true))).push(("surface"@, ValueView::Bool(true))).push(
            ("notification"@, ValueView::Bool(true)),
        ).push(("session_restore"@, ValueView::Bool(true))).push(
            ("window_multi"@, ValueView::Bool(true)),
        ).push(("browser"@, ValueView::Bool(false))).push(("debug"@, ValueView::Bool(true))),
    )
}

impl ModelView {
    /// What the application can do.
    pub open spec fn capabilities(self) -> Outcome {
        Reply::of(self).with("protocol"@, ValueView::Text("cmux-socket"@)).with(
            "version"@,
            json::number_value(2),
        ).with("socket_path"@, ValueView::Text(self.socket_path)).with(
            "access_mode"@,
            ValueView::Text("cmuxOnly"@),
        ).with("platform"@, platform_value()).with("features"@, features_value()).with(
            "terminal_backend"@,
            backend_value(),
        ).with(
            "unsupported_methods"@,
            json::texts_value(methods::in_order(methods::browser(), Seq::empty())),
        ).with(
            "methods"@,
            json::texts_value(methods::in_order(methods::answered(), methods::browser())),
        ).done()
    }

    /// What has the focus: the window, its workspace, the pane and the surface.
    pub open spec fn focus_reply(
        self,
        workspace_id: WorkspaceId,
        pane_id: PaneId,
        surface_id: Option<SurfaceId>,
        kind: Option<SurfaceKind>,
    ) -> Reply {
        let named = Reply::of(self).window(self.state.window_id).workspace(workspace_id).pane(
            pane_id,
        ).with("surface_id"@, json::opt_id_value(surface_id)).opt_named(
            "surface_ref"@,
            HandleKind::Surface,
            surface_id,
        ).with("tab_id"@, json::opt_id_value(surface_id));
        let tabbed = match surface_id {
            Some(id) => named.tab_named("tab_ref"@, id),
            None => named.with("tab_ref"@, ValueView::Null),
        };
        tabbed.with(
            "surface_type"@,
            match kind {
                Some(inner) => ValueView::Text(kind_name(inner)),
                None => ValueView::Null,
            },
        ).with("is_browser_surface"@, ValueView::Bool(false))
    }

    /// What has the focus.
    pub open spec fn identify(self, params: ParamsView) -> Outcome {
        let caller = params::value_or_null(params, "caller"@);
        match self.state.selected_workspace() {
            None => Reply::of(self).with("socket_path"@, ValueView::Text(self.socket_path)).with(
                "terminal_backend"@,
                backend_value(),
            ).with("focused"@, ValueView::Null).with("caller"@, caller).done(),
            Some(workspace) => {
                let surface_id = workspace.selected_surface_id();
                let kind = match surface_id {
                    Some(id) => match workspace.surface(id) {
                        Some(surface) => Some(surface.kind),
                        None => None,
                    },
                    None => None,
                };
                let focus = self.focus_reply(
                    workspace.id,
                    workspace.selected_pane_id,
                    surface_id,
                    kind,
                );
                Reply::of(focus.model).with("socket_path"@, ValueView::Text(self.socket_path)).with(
                    "terminal_backend"@,
                    backend_value(),
                ).with("focused"@, ValueView::Object(focus.fields)).with("caller"@, caller).done()
            },
        }
    }
}

/// How terminals are run.
pub fn backend_object() -> (value: Value)
    ensures
        value@ == backend_value(),
{
    let status = terminal_backend_status();
    let mut fields = Fields::new();
    fields.put_text("active", status.active);
    fields.put("requested", Value::opt_text(&status.requested));
    fields.put("supported", names_array(&status.supported));
    fields.put("note", Value::opt_text(&status.note));
    fields.finish()
}

/// Answers that the application is there.
pub fn ping_payload() -> (result: MethodResult)
    ensures
        reply::outcome(result) == Ok::<ValueView, reply::ErrorView>(
            ValueView::Object(reply::no_fields().push(("pong"@, ValueView::Bool(true)))),
        ),
{
    let mut fields = Fields::new();
    fields.put_flag("pong", true);
    Ok(fields.finish())
}

/// Answers what the application can do.
pub fn capabilities_payload(model: &AppModel) -> (result: MethodResult)
    ensures
        reply::answers(result, model@, model@.capabilities()),
{
    let profile = merged_capability_profile();
    let mut platform = Fields::new();
    platform.put_text("id", profile.platform.id);
    platform.put_text("frontend", profile.platform.frontend);
    platform.put_text("variant", "wayland-v1");
    platform.put_flag("window_multi", profile.platform.window_multi);
    let mut features = Fields::new();
    features.put_flag("terminal", profile.features.terminal);
    features.put_flag("workspace", profile.features.workspace);
    features.put_flag("pane", profile.features.pane);
    features.put_flag("surface", profile.features.surface);
    features.put_flag("notification", profile.features.notification);
    features.put_flag("session_restore", profile.features.session_restore);
    features.put_flag("window_multi", profile.features.window_multi);
    features.put_flag("browser", profile.features.browser);
    features.put_flag("debug", profile.features.debug);
    let mut fields = Fields::new();
    fields.put_text("protocol", "cmux-socket");
    fields.put("version", Value::number(2));
    fields.put_text("socket_path", model.socket_path.as_str());
    fields.put_text("access_mode", "cmuxOnly");
    fields.put("platform", platform.finish());
    fields.put("features", features.finish());
    fields.put("terminal_backend", backend_object());
    fields.put("unsupported_methods", names_array(&profile.unsupported_methods));
    fields.put("methods", names_array(&advertised_methods()));
    Ok(fields.finish())
}

fn focus_object(
    model: &mut AppModel,
    workspace_id: WorkspaceId,
    pane_id: PaneId,
    surface_id: Option<SurfaceId>,
    kind: Option<SurfaceKind>,
) -> (value: Value)
    ensures
        final(model)@ == old(model)@.focus_reply(workspace_id, pane_id, surface_id, kind).model,
        value@ == ValueView::Object(
            old(model)@.focus_reply(workspace_id, pane_id, surface_id, kind).fields,
        ),
{
    let window_id = model.state.window_id;
    let mut fields = Fields::new();
    fields.put_window(model, window_id);
    fields.put_workspace(model, workspace_id);
    fields.put_pane(model, pane_id);
    fields.put("surface_id", Value::opt_id(surface_id));
    fields.put_opt_name(model, "surface_ref", HandleKind::Surface, surface_id);
    fields.put("tab_id", Value::opt_id(surface_id));
    match surface_id {
        Some(id) => fields.put_tab_name(model, "tab_ref", id),
        None => fields.put("tab_ref", Value::Null),
    }
    fields.put(
        "surface_type",
        match kind {
            Some(inner) => Value::text(surface_type_name(inner)),
            None => Value::Null,
        },
    );
    fields.put_flag("is_browser_surface", false);
    fields.finish()
}

/// Answers what has the focus.
pub fn identify_payload(model: &mut AppModel, params: &Params) -> (result: MethodResult)
    ensures
        reply::answers(result, final(model)@, old(model)@.identify(params::asked(params))),
        final(model)@.palettes == old(model)@.palettes,
{
    let caller = param_value(params, "caller");
    let place: Option<(WorkspaceId, PaneId, Option<SurfaceId>, Option<SurfaceKind>)> =
        match model.state.selected_workspace() {
        None => None,
        Some(workspace) => {
            let surface_id = workspace.selected_surface_id();
            let kind: Option<SurfaceKind> = match surface_id {
                Some(id) => match workspace.surface(id) {
                    Some(surface) => Some(surface.kind),
                    None => None,
                },
                None => None,
            };
            Some((workspace.id, workspace.selected_pane_id, surface_id, kind))
        },
    };
    let focused: Value = match place {
        None => Value::Null,
        Some((workspace_id, pane_id, surface_id, kind)) => focus_object(
            model,
            workspace_id,
            pane_id,
            surface_id,
            kind,
        ),
    };
    let mut fields = Fields::new();
    fields.put_text("socket_path", model.socket_path.as_str());
    fields.put("terminal_backend", backend_object());
    fields.put("focused", focused);
    fields.put("caller", caller);
    Ok(fields.finish())
}

} // verus!
