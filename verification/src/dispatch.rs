//! Which request is answered how.

use crate::answer_actions::{surface_action_payload, tab_action_payload, workspace_action_payload};
use crate::answer_debug;
use crate::answer_debug::{
    debug_flash_count_payload, debug_flash_reset_payload, debug_layout_payload,
    debug_notification_focus_payload, debug_panel_snapshot_payload, debug_portal_stats_payload,
    debug_sidebar_visible_payload, debug_terminal_is_focused_payload,
    debug_window_screenshot_payload, no_count_object, no_stats_object,
};
use crate::answer_notifications::{
    app_focus_override_set_payload, app_simulate_active_payload,
    notification_clear_payload, notification_create_for_surface_payload,
    notification_create_payload, notification_list_payload, notification_noted_payload,
    NotificationStep, PendingNotification, PendingView, StepView,
};
use crate::answer_palette::{
    debug_command_palette_rename_input_delete_backward_payload,
    debug_command_palette_rename_input_interact_payload,
    debug_command_palette_rename_input_selection_payload,
    debug_command_palette_rename_select_all_payload,
    debug_command_palette_rename_tab_open_payload, debug_command_palette_results_payload,
    debug_command_palette_selection_payload, debug_command_palette_toggle_payload,
    debug_command_palette_visible_payload, debug_shortcut_set_payload,
    debug_shortcut_simulate_payload, debug_type_payload, has_room_for_keys,
};
use crate::answer_panes::{
    pane_break_payload, pane_create_payload, pane_focus_payload, pane_join_payload,
    pane_last_payload, pane_list_payload, pane_surfaces_payload, pane_swap_payload,
};
use crate::answer_surfaces::{
    surface_clear_history_payload, surface_close_payload, surface_create_payload,
    surface_current_payload, surface_drag_to_split_payload, surface_focus_payload,
    surface_health_payload, surface_list_payload, surface_move_payload, surface_read_text_payload,
    surface_refresh_payload, surface_reorder_payload, surface_send_key_payload,
    surface_send_text_payload, surface_split_payload, surface_trigger_flash_payload,
};
use crate::answer_system::{capabilities_payload, identify_payload, ping_payload};
use crate::answer_windows::{
    window_close_payload, window_create_payload, window_current_payload, window_focus_payload,
    window_list_payload,
};
use crate::answer_workspaces::{
    workspace_close_payload, workspace_create_payload, workspace_current_payload,
    workspace_last_payload, workspace_list_payload, workspace_move_to_window_payload,
    workspace_next_payload, workspace_previous_payload, workspace_rename_payload,
    workspace_reorder_payload, workspace_select_payload,
};
use crate::ids::Drawn;
use crate::json::{Value, ValueView};
use crate::methods;
use crate::methods::{answered_methods, has_name};
use crate::model::{AppModel, ModelView};
use crate::params;
use crate::params::{Params, ParamsView};
use crate::reply;
use crate::reply::{
    error_response, ok_response, ErrorView, Fields, MethodError, MethodResult, Outcome,
};
use crate::state::{AppState, StateView};
use crate::text;
use crate::text::{begins_with, joined, same_text};
use vstd::prelude::*;

verus! {

/// Where the control protocol is served unless it is said otherwise.
pub const DEFAULT_SOCKET_PATH: &'static str = "/tmp/cmux-linux.sock";

/// Where the control protocol is served.
#[derive(Debug)]
pub struct SocketServerRuntime {
    /// The path of the socket.
    pub socket_path: String,
}

/// A request.
#[derive(Debug)]
pub struct Request {
    /// What the answer is marked with.
    pub id: Value,
    /// What is asked for.
    pub method: String,
    /// What it is asked for.
    pub params: Params,
}

/// The contents of a [`Request`].
pub struct RequestView {
    /// See [`Request::id`].
    pub id: ValueView,
    /// See [`Request::method`].
    pub method: Seq<char>,
    /// See [`Request::params`].
    pub params: ParamsView,
}

impl View for Request {
    type V = RequestView;

    open spec fn view(&self) -> RequestView {
        RequestView { id: self.id@, method: self.method@, params: params::asked(&self.params) }
    }
}

/// What comes of a request.
#[derive(Debug)]
pub enum Dispatch {
    /// The answer.
    Answer(Value),
    /// The desktop is to show a notification; then the request is answered.
    Deliver {
        /// What the answer is marked with.
        id: Value,
        /// The notification.
        pending: PendingNotification,
    },
}

/// The contents of a [`Dispatch`].
pub enum DispatchView {
    /// See [`Dispatch::Answer`].
    Answer(ValueView),
    /// See [`Dispatch::Deliver`].
    Deliver {
        /// What the answer is marked with.
        id: ValueView,
        /// The notification.
        pending: PendingView,
    },
}

impl View for Dispatch {
    type V = DispatchView;

    open spec fn view(&self) -> DispatchView {
        match self {
            Dispatch::Answer(value) => DispatchView::Answer(value@),
            Dispatch::Deliver { id, pending } => DispatchView::Deliver {
                id: id@,
                pending: pending@,
            },
        }
    }
}

/// A method was answered as expected, or there is no such method and nothing has changed.
pub open spec fn routed(
    result: Option<MethodResult>,
    before: ModelView,
    after: ModelView,
    expected: Option<Outcome>,
) -> bool {
    match result {
        Some(inner) => match expected {
            Some(outcome) => reply::answers(inner, after, outcome),
            None => false,
        },
        None => expected is None && after == before,
    }
}

/// The answer that the application is there.
pub open spec fn ping_value() -> ValueView {
    ValueView::Object(reply::no_fields().push(("pong"@, ValueView::Bool(true))))
}

/// Why a method of the embedded browser is not answered.
pub open spec fn not_supported(method: Seq<char>) -> ErrorView {
    ErrorView {
        code: "not_supported"@,
        message: method + " is not supported on gtk4-libadwaita"@,
        data: Some(
            ValueView::Object(
                reply::no_fields().push(("method"@, ValueView::Text(method))).push(
                    ("platform"@, ValueView::Text("linux"@)),
                ).push(("frontend"@, ValueView::Text("gtk4-libadwaita"@))),
            ),
        ),
    }
}

/// Why a method that does not exist is not answered.
pub open spec fn no_method() -> ErrorView {
    ErrorView { code: "method_not_found"@, message: "Unknown method"@, data: None }
}

/// Why something that is no request is not answered.
pub open spec fn no_request(reason: Seq<char>) -> ErrorView {
    ErrorView {
        code: "invalid_request"@,
        message: "Invalid JSON request: "@ + reason,
        data: None,
    }
}

/// The first step of a notification as what comes of a request.
pub open spec fn notified(
    id: ValueView,
    search: params::Search<StepView>,
) -> (ModelView, DispatchView) {
    match search {
        (model, Err(error)) => (model, DispatchView::Answer(reply::error_answer(id, error))),
        (model, Ok(StepView::Suppressed(value))) => (
            model,
            DispatchView::Answer(reply::ok_answer(id, value)),
        ),
        (model, Ok(StepView::Deliver(pending))) => (model, DispatchView::Deliver { id, pending }),
    }
}

impl ModelView {
    /// The answer to a method about the application.
    pub open spec fn system_method(self, method: Seq<char>, params: ParamsView) -> Option<Outcome> {
        if method == "system.ping"@ {
            Some((self, Ok(ping_value())))
        } else if method == "system.capabilities"@ {
            Some(self.capabilities())
        } else if method == "system.identify"@ {
            Some(self.identify(params))
        } else {
            None
        }
    }

    /// The answer to a method about windows.
    pub open spec fn window_method(self, drawn: Drawn, method: Seq<char>, params: ParamsView) -> Option<Outcome> {
        if method == "window.list"@ {
            Some(self.window_list())
        } else if method == "window.current"@ {
            Some(self.window_current())
        } else if method == "window.create"@ {
            Some(self.window_create(drawn))
        } else if method == "window.focus"@ {
            Some(self.window_focus(params))
        } else if method == "window.close"@ {
            Some(self.window_close(drawn, params))
        } else {
            None
        }
    }

    /// The answer to a method about workspaces.
    pub open spec fn workspace_method(self, drawn: Drawn, method: Seq<char>, params: ParamsView) -> Option<Outcome> {
        if method == "workspace.list"@ {
            Some(self.workspace_list(params))
        } else if method == "workspace.create"@ {
            Some(self.workspace_create(drawn, params))
        } else if method == "workspace.rename"@ {
            Some(self.workspace_rename(params))
        } else if method == "workspace.reorder"@ {
            Some(self.workspace_reorder(params))
        } else if method == "workspace.select"@ {
            Some(self.workspace_select(params))
        } else if method == "workspace.current"@ {
            Some(self.workspace_current(params))
        } else if method == "workspace.next"@ {
            Some(self.workspace_relative(params, 1))
        } else if method == "workspace.previous"@ {
            Some(self.workspace_relative(params, -1))
        } else if method == "workspace.last"@ {
            Some(self.workspace_last(params))
        } else if method == "workspace.move_to_window"@ {
            Some(self.workspace_move(drawn, params))
        } else if method == "workspace.close"@ {
            Some(self.workspace_close(drawn, params))
        } else if method == "workspace.action"@ {
            Some(self.workspace_action(drawn, params))
        } else {
            None
        }
    }

    /// The answer to a method about panes.
    pub open spec fn pane_method(self, drawn: Drawn, method: Seq<char>, params: ParamsView) -> Option<Outcome> {
        if method == "pane.list"@ {
            Some(self.pane_list(params))
        } else if method == "pane.surfaces"@ {
            Some(self.pane_surfaces(params))
        } else if method == "pane.focus"@ {
            Some(self.pane_focus(params))
        } else if method == "pane.swap"@ {
            Some(self.pane_swap(params))
        } else if method == "pane.break"@ {
            Some(self.pane_break(drawn, params))
        } else if method == "pane.join"@ {
            Some(self.pane_join(drawn, params))
        } else if method == "pane.last"@ {
            Some(self.pane_last(params))
        } else if method == "pane.create"@ {
            Some(self.pane_create(drawn, params))
        } else {
            None
        }
    }

    /// The answer to a method about surfaces.
    pub open spec fn surface_method(self, drawn: Drawn, method: Seq<char>, params: ParamsView) -> Option<Outcome> {
        if method == "surface.list"@ {
            Some(self.surface_list(params))
        } else if method == "surface.action"@ {
            Some(self.surface_action(params))
        } else if method == "surface.current"@ {
            Some(self.surface_current(params))
        } else if method == "surface.focus"@ {
            Some(self.surface_focus(params))
        } else if method == "surface.split"@ {
            Some(self.surface_split(drawn, params))
        } else if method == "surface.create"@ {
            Some(self.surface_create(drawn, params))
        } else if method == "surface.close"@ {
            Some(self.surface_close(params))
        } else if method == "surface.move"@ {
            Some(self.surface_move(drawn, params))
        } else if method == "surface.reorder"@ {
            Some(self.surface_reorder(drawn, params))
        } else if method == "surface.drag_to_split"@ {
            Some(self.surface_split(drawn, params))
        } else {
            None
        }
    }

    /// The answer to a method about what surfaces show.
    pub open spec fn terminal_method(self, method: Seq<char>, params: ParamsView) -> Option<Outcome> {
        if method == "surface.refresh"@ {
            Some(self.surface_refresh(params))
        } else if method == "surface.clear_history"@ {
            Some(self.surface_clear_history(params))
        } else if method == "surface.send_text"@ {
            Some(self.surface_send_text(params))
        } else if method == "surface.send_key"@ {
            Some(self.surface_send_key(params))
        } else if method == "surface.read_text"@ {
            Some(self.surface_read_text(params))
        } else if method == "surface.health"@ {
            Some(self.surface_health(params))
        } else if method == "surface.trigger_flash"@ {
            Some(self.surface_trigger_flash(params))
        } else if method == "tab.action"@ {
            Some(self.tab_action(params))
        } else {
            None
        }
    }

    /// The answer to a method about notifications and attention.
    pub open spec fn attention_method(self, method: Seq<char>, params: ParamsView) -> Option<Outcome> {
        if method == "notification.list"@ {
            Some(self.notification_list())
        } else if method == "notification.clear"@ {
            Some(self.notification_clear())
        } else if method == "app.focus_override.set"@ {
            Some(self.focus_override(params))
        } else if method == "app.simulate_active"@ {
            Some(self.simulate_active())
        } else if method == "debug.app.activate"@ {
            Some(self.simulate_active())
        } else {
            None
        }
    }

    /// The answer to a method about the palette.
    pub open spec fn palette_method(self, drawn: Drawn, method: Seq<char>, params: ParamsView) -> Option<Outcome> {
        if method == "debug.command_palette.rename_input.select_all"@ {
            Some(self.rename_select_all_set(params))
        } else if method == "debug.command_palette.rename_input.selection"@ {
            Some(self.input_selection(params))
        } else if method == "debug.command_palette.rename_input.interact"@ {
            Some(self.input_interact(params))
        } else if method == "debug.command_palette.rename_input.delete_backward"@ {
            Some(self.input_delete_backward(params))
        } else if method == "debug.command_palette.rename_tab.open"@ {
            Some(self.rename_tab_open(params))
        } else if method == "debug.command_palette.results"@ {
            Some(self.palette_results(params))
        } else if method == "debug.command_palette.selection"@ {
            Some(self.palette_selection(params))
        } else if method == "debug.command_palette.toggle"@ {
            Some(self.palette_toggle(params))
        } else if method == "debug.command_palette.visible"@ {
            Some(self.palette_visible(params))
        } else if method == "debug.shortcut.set"@ {
            Some(self.shortcut_set(params))
        } else if method == "debug.shortcut.simulate"@ {
            Some(self.shortcut_simulate(drawn, params))
        } else if method == "debug.type"@ {
            Some(self.type_anywhere(params))
        } else {
            None
        }
    }

    /// The answer to a method of tests and tools.
    pub open spec fn debug_method(self, method: Seq<char>, params: ParamsView) -> Option<Outcome> {
        if method == "debug.layout"@ {
            Some(self.debug_layout())
        } else if method == "debug.notification.focus"@ {
            Some(self.notification_focus(params))
        } else if method == "debug.panel_snapshot"@ {
            Some(self.panel_snapshot(params))
        } else if method == "debug.sidebar.visible"@ {
            Some(self.sidebar_shown(params))
        } else if method == "debug.terminal.is_focused"@ {
            Some(self.terminal_is_focused(params))
        } else if method == "debug.terminal.read_text"@ {
            Some(self.surface_read_text(params))
        } else if method == "debug.flash.count"@ {
            Some(self.flash_counted(params))
        } else if method == "debug.flash.reset"@ {
            Some(self.flash_reset())
        } else {
            None
        }
    }

    /// The answer to a method whose answer is always the same.
    pub open spec fn constant_method(self, method: Seq<char>, params: ParamsView) -> Option<Outcome> {
        if method == "debug.bonsplit_underflow.count"@ {
            Some((self, Ok(answer_debug::no_count())))
        } else if method == "debug.bonsplit_underflow.reset"@ {
            Some((self, Ok(ValueView::Object(reply::no_fields()))))
        } else if method == "debug.empty_panel.count"@ {
            Some((self, Ok(answer_debug::no_count())))
        } else if method == "debug.empty_panel.reset"@ {
            Some((self, Ok(ValueView::Object(reply::no_fields()))))
        } else if method == "debug.panel_snapshot.reset"@ {
            Some((self, Ok(ValueView::Object(reply::no_fields()))))
        } else if method == "debug.portal.stats"@ {
            Some((self, Ok(answer_debug::portal_stats())))
        } else if method == "debug.terminal.render_stats"@ {
            Some((self, Ok(answer_debug::no_stats())))
        } else if method == "debug.window.screenshot"@ {
            Some((self, Ok(answer_debug::no_screenshot(params))))
        } else {
            None
        }
    }

    /// The answer to a method about windows, workspaces, panes and surfaces.
    pub open spec fn outer_route(
        self,
        drawn: Drawn,
        method: Seq<char>,
        params: ParamsView,
    ) -> Option<Outcome> {
        if self.system_method(method, params) is Some {
            self.system_method(method, params)
        } else if self.window_method(drawn, method, params) is Some {
            self.window_method(drawn, method, params)
        } else if self.workspace_method(drawn, method, params) is Some {
            self.workspace_method(drawn, method, params)
        } else if self.pane_method(drawn, method, params) is Some {
            self.pane_method(drawn, method, params)
        } else {
            self.surface_method(drawn, method, params)
        }
    }

    /// The answer to any other method.
    pub open spec fn inner_route(
        self,
        drawn: Drawn,
        method: Seq<char>,
        params: ParamsView,
    ) -> Option<Outcome> {
        if self.terminal_method(method, params) is Some {
            self.terminal_method(method, params)
        } else if self.attention_method(method, params) is Some {
            self.attention_method(method, params)
        } else if self.palette_method(drawn, method, params) is Some {
            self.palette_method(drawn, method, params)
        } else if self.debug_method(method, params) is Some {
            self.debug_method(method, params)
        } else {
            self.constant_method(method, params)
        }
    }

    /// The answer to a method, if there is such a method.
    pub open spec fn route(self, drawn: Drawn, method: Seq<char>, params: ParamsView) -> Option<
        Outcome,
    > {
        if self.outer_route(drawn, method, params) is Some {
            self.outer_route(drawn, method, params)
        } else {
            self.inner_route(drawn, method, params)
        }
    }

    /// What comes of a request.
    pub open spec fn dispatch(self, drawn: Drawn, request: RequestView) -> (
        ModelView,
        DispatchView,
    ) {
        let id = request.id;
        let method = request.method;
        if text::begins(method, "browser."@) {
            (self, DispatchView::Answer(reply::error_answer(id, not_supported(method))))
        } else if method == "notification.create"@ {
            notified(id, self.notification_create(request.params))
        } else if method == "notification.create_for_surface"@ {
            notified(id, self.notification_create_for_surface(request.params))
        } else {
            match self.route(drawn, method, request.params) {
                Some((next, result)) => (next, DispatchView::Answer(reply::answer(id, result))),
                None => if methods::answered().contains(method) {
                    (
                        self,
                        DispatchView::Answer(
                            reply::error_answer(
                                id,
                                ErrorView::unavailable(
                                    method + " is advertised but not implemented yet"@,
                                ),
                            ),
                        ),
                    )
                } else {
                    (self, DispatchView::Answer(reply::error_answer(id, no_method())))
                },
            }
        }
    }

    /// What comes of what may be a request.
    pub open spec fn handled(self, drawn: Drawn, parsed: Result<RequestView, Seq<char>>) -> (
        ModelView,
        DispatchView,
    ) {
        match parsed {
            Ok(request) => self.dispatch(drawn, request),
            Err(reason) => (
                self,
                DispatchView::Answer(reply::error_answer(ValueView::Null, no_request(reason))),
            ),
        }
    }

    /// The answer to a request for a notification, once the desktop was asked to show it.
    pub open spec fn delivered(
        self,
        drawn: Drawn,
        id: ValueView,
        pending: PendingView,
        delivered: bool,
    ) -> (ModelView, ValueView) {
        let (next, result) = self.notification_noted(drawn, pending, delivered);
        (next, reply::answer(id, result))
    }
}

/// Whether a method may number a new workspace.
pub open spec fn numbers_workspaces(method: Seq<char>) -> bool {
    ||| method == "window.create"@
    ||| method == "window.close"@
    ||| method == "workspace.create"@
    ||| method == "workspace.close"@
    ||| method == "workspace.move_to_window"@
    ||| method == "workspace.action"@
    ||| method == "pane.break"@
    ||| method == "pane.join"@
    ||| method == "surface.move"@
    ||| method == "surface.reorder"@
}

/// Whether a method may number a new terminal, and no workspace.
pub open spec fn numbers_terminals(method: Seq<char>) -> bool {
    ||| method == "pane.create"@
    ||| method == "surface.create"@
    ||| method == "surface.split"@
    ||| method == "surface.drag_to_split"@
    ||| method == "surface.action"@
    ||| method == "tab.action"@
}

impl StateView {
    /// Whether what a method may make can be numbered.
    pub open spec fn has_room_for(self, method: Seq<char>) -> bool {
        &&& numbers_workspaces(method) ==> self.has_room()
        &&& numbers_terminals(method) ==> self.next_surface_title_number < usize::MAX
    }
}

impl ModelView {
    /// Whether what a request may make can be numbered.
    pub open spec fn has_room_for(self, method: Seq<char>, params: ParamsView) -> bool {
        &&& self.state.has_room_for(method)
        &&& method == "debug.shortcut.simulate"@ ==> self.has_room_for_keys(params)
    }

    /// Whether what may be a request is none, or what it may make can be numbered.
    pub open spec fn has_room_for_parsed(self, parsed: Result<RequestView, Seq<char>>) -> bool {
        match parsed {
            Ok(request) => self.has_room_for(request.method, request.params),
            Err(_) => true,
        }
    }
}

/// Whether what a request may make can be numbered.
pub fn has_room_for(model: &AppModel, method: &str, params: &Params) -> (room: bool)
    ensures
        room == model@.has_room_for(method@, params::asked(params)),
{
    if same_text(method, "debug.shortcut.simulate") {
        method_has_room(&model.state, method) && has_room_for_keys(model, params)
    } else {
        method_has_room(&model.state, method)
    }
}

fn method_has_room(state: &AppState, method: &str) -> (room: bool)
    ensures
        room == state@.has_room_for(method@),
{
    let workspaces = same_text(method, "window.create")
        || same_text(method, "window.close")
        || same_text(method, "workspace.create")
        || same_text(method, "workspace.close")
        || same_text(method, "workspace.move_to_window")
        || same_text(method, "workspace.action")
        || same_text(method, "pane.break")
        || same_text(method, "pane.join")
        || same_text(method, "surface.move")
        || same_text(method, "surface.reorder");
    let terminals = same_text(method, "pane.create")
        || same_text(method, "surface.create")
        || same_text(method, "surface.split")
        || same_text(method, "surface.drag_to_split")
        || same_text(method, "surface.action")
        || same_text(method, "tab.action");
    (!workspaces || state.has_room()) && (!terminals || state.next_surface_title_number
        < usize::MAX)
}

fn answer_system_method(
    model: &mut AppModel,
    method: &str,
    params: &Params,
) -> (result: Option<MethodResult>)
    ensures
        routed(
            result,
            old(model)@,
            final(model)@,
            old(model)@.system_method(method@, params::asked(params)),
        ),
        old(model)@.palettes == final(model)@.palettes,
{
    if same_text(method, "system.ping") {
        Some(ping_payload())
    } else if same_text(method, "system.capabilities") {
        Some(capabilities_payload(model))
    } else if same_text(method, "system.identify") {
        Some(identify_payload(model, params))
    } else {
        None
    }
}

fn answer_window_method(
    model: &mut AppModel,
    drawn: Drawn,
    method: &str,
    params: &Params,
) -> (result: Option<MethodResult>)
    requires
        old(model)@.state.has_room_for(method@),
    ensures
        routed(
            result,
            old(model)@,
            final(model)@,
            old(model)@.window_method(drawn, method@, params::asked(params)),
        ),
        old(model)@.palettes == final(model)@.palettes,
{
    if same_text(method, "window.list") {
        Some(window_list_payload(model))
    } else if same_text(method, "window.current") {
        Some(window_current_payload(model))
    } else if same_text(method, "window.create") {
        Some(window_create_payload(model, drawn))
    } else if same_text(method, "window.focus") {
        Some(window_focus_payload(model, params))
    } else if same_text(method, "window.close") {
        Some(window_close_payload(model, drawn, params))
    } else {
        None
    }
}

fn answer_workspace_method(
    model: &mut AppModel,
    drawn: Drawn,
    method: &str,
    params: &Params,
) -> (result: Option<MethodResult>)
    requires
        old(model)@.state.has_room_for(method@),
    ensures
        routed(
            result,
            old(model)@,
            final(model)@,
            old(model)@.workspace_method(drawn, method@, params::asked(params)),
        ),
        old(model)@.palettes == final(model)@.palettes,
{
    if same_text(method, "workspace.list") {
        Some(workspace_list_payload(model, params))
    } else if same_text(method, "workspace.create") {
        Some(workspace_create_payload(model, drawn, params))
    } else if same_text(method, "workspace.rename") {
        Some(workspace_rename_payload(model, params))
    } else if same_text(method, "workspace.reorder") {
        Some(workspace_reorder_payload(model, params))
    } else if same_text(method, "workspace.select") {
        Some(workspace_select_payload(model, params))
    } else if same_text(method, "workspace.current") {
        Some(workspace_current_payload(model, params))
    } else if same_text(method, "workspace.next") {
        Some(workspace_next_payload(model, params))
    } else if same_text(method, "workspace.previous") {
        Some(workspace_previous_payload(model, params))
    } else if same_text(method, "workspace.last") {
        Some(workspace_last_payload(model, params))
    } else if same_text(method, "workspace.move_to_window") {
        Some(workspace_move_to_window_payload(model, drawn, params))
    } else if same_text(method, "workspace.close") {
        Some(workspace_close_payload(model, drawn, params))
    } else if same_text(method, "workspace.action") {
        Some(workspace_action_payload(model, drawn, params))
    } else {
        None
    }
}

fn answer_pane_method(
    model: &mut AppModel,
    drawn: Drawn,
    method: &str,
    params: &Params,
) -> (result: Option<MethodResult>)
    requires
        old(model)@.state.has_room_for(method@),
    ensures
        routed(
            result,
            old(model)@,
            final(model)@,
            old(model)@.pane_method(drawn, method@, params::asked(params)),
        ),
        old(model)@.palettes == final(model)@.palettes,
{
    if same_text(method, "pane.list") {
        Some(pane_list_payload(model, params))
    } else if same_text(method, "pane.surfaces") {
        Some(pane_surfaces_payload(model, params))
    } else if same_text(method, "pane.focus") {
        Some(pane_focus_payload(model, params))
    } else if same_text(method, "pane.swap") {
        Some(pane_swap_payload(model, params))
    } else if same_text(method, "pane.break") {
        Some(pane_break_payload(model, drawn, params))
    } else if same_text(method, "pane.join") {
        Some(pane_join_payload(model, drawn, params))
    } else if same_text(method, "pane.last") {
        Some(pane_last_payload(model, params))
    } else if same_text(method, "pane.create") {
        Some(pane_create_payload(model, drawn, params))
    } else {
        None
    }
}

fn answer_surface_method(
    model: &mut AppModel,
    drawn: Drawn,
    method: &str,
    params: &Params,
) -> (result: Option<MethodResult>)
    requires
        old(model)@.state.has_room_for(method@),
    ensures
        routed(
            result,
            old(model)@,
            final(model)@,
            old(model)@.surface_method(drawn, method@, params::asked(params)),
        ),
        old(model)@.palettes == final(model)@.palettes,
{
    if same_text(method, "surface.list") {
        Some(surface_list_payload(model, params))
    } else if same_text(method, "surface.action") {
        Some(surface_action_payload(model, params))
    } else if same_text(method, "surface.current") {
        Some(surface_current_payload(model, params))
    } else if same_text(method, "surface.focus") {
        Some(surface_focus_payload(model, params))
    } else if same_text(method, "surface.split") {
        Some(surface_split_payload(model, drawn, params))
    } else if same_text(method, "surface.create") {
        Some(surface_create_payload(model, drawn, params))
    } else if same_text(method, "surface.close") {
        Some(surface_close_payload(model, params))
    } else if same_text(method, "surface.move") {
        Some(surface_move_payload(model, drawn, params))
    } else if same_text(method, "surface.reorder") {
        Some(surface_reorder_payload(model, drawn, params))
    } else if same_text(method, "surface.drag_to_split") {
        Some(surface_drag_to_split_payload(model, drawn, params))
    } else {
        None
    }
}

fn answer_terminal_method(
    model: &mut AppModel,
    method: &str,
    params: &Params,
) -> (result: Option<MethodResult>)
    requires
        old(model)@.state.has_room_for(method@),
    ensures
        routed(
            result,
            old(model)@,
            final(model)@,
            old(model)@.terminal_method(method@, params::asked(params)),
        ),
        old(model)@.palettes == final(model)@.palettes,
{
    if same_text(method, "surface.refresh") {
        Some(surface_refresh_payload(model, params))
    } else if same_text(method, "surface.clear_history") {
        Some(surface_clear_history_payload(model, params))
    } else if same_text(method, "surface.send_text") {
        Some(surface_send_text_payload(model, params))
    } else if same_text(method, "surface.send_key") {
        Some(surface_send_key_payload(model, params))
    } else if same_text(method, "surface.read_text") {
        Some(surface_read_text_payload(model, params))
    } else if same_text(method, "surface.health") {
        Some(surface_health_payload(model, params))
    } else if same_text(method, "surface.trigger_flash") {
        Some(surface_trigger_flash_payload(model, params))
    } else if same_text(method, "tab.action") {
        Some(tab_action_payload(model, params))
    } else {
        None
    }
}

fn answer_attention_method(
    model: &mut AppModel,
    method: &str,
    params: &Params,
) -> (result: Option<MethodResult>)
    ensures
        routed(
            result,
            old(model)@,
            final(model)@,
            old(model)@.attention_method(method@, params::asked(params)),
        ),
        old(model)@.palettes == final(model)@.palettes,
{
    if same_text(method, "notification.list") {
        Some(notification_list_payload(model))
    } else if same_text(method, "notification.clear") {
        Some(notification_clear_payload(model))
    } else if same_text(method, "app.focus_override.set") {
        Some(app_focus_override_set_payload(model, params))
    } else if same_text(method, "app.simulate_active") {
        Some(app_simulate_active_payload(model))
    } else if same_text(method, "debug.app.activate") {
        Some(app_simulate_active_payload(model))
    } else {
        None
    }
}

fn answer_palette_method(
    model: &mut AppModel,
    drawn: Drawn,
    method: &str,
    params: &Params,
) -> (result: Option<MethodResult>)
    requires
        old(model)@.has_room_for(method@, params::asked(params)),
        old(model)@.well_formed(),
    ensures
        routed(
            result,
            old(model)@,
            final(model)@,
            old(model)@.palette_method(drawn, method@, params::asked(params)),
        ),
        final(model)@.well_formed(),
{
    if same_text(method, "debug.command_palette.rename_input.select_all") {
        Some(debug_command_palette_rename_select_all_payload(model, params))
    } else if same_text(method, "debug.command_palette.rename_input.selection") {
        Some(debug_command_palette_rename_input_selection_payload(model, params))
    } else if same_text(method, "debug.command_palette.rename_input.interact") {
        Some(debug_command_palette_rename_input_interact_payload(model, params))
    } else if same_text(method, "debug.command_palette.rename_input.delete_backward") {
        Some(debug_command_palette_rename_input_delete_backward_payload(model, params))
    } else if same_text(method, "debug.command_palette.rename_tab.open") {
        Some(debug_command_palette_rename_tab_open_payload(model, params))
    } else if same_text(method, "debug.command_palette.results") {
        Some(debug_command_palette_results_payload(model, params))
    } else if same_text(method, "debug.command_palette.selection") {
        Some(debug_command_palette_selection_payload(model, params))
    } else if same_text(method, "debug.command_palette.toggle") {
        Some(debug_command_palette_toggle_payload(model, params))
    } else if same_text(method, "debug.command_palette.visible") {
        Some(debug_command_palette_visible_payload(model, params))
    } else if same_text(method, "debug.shortcut.set") {
        Some(debug_shortcut_set_payload(model, params))
    } else if same_text(method, "debug.shortcut.simulate") {
        Some(debug_shortcut_simulate_payload(model, drawn, params))
    } else if same_text(method, "debug.type") {
        Some(debug_type_payload(model, params))
    } else {
        None
    }
}

fn answer_debug_method(
    model: &mut AppModel,
    method: &str,
    params: &Params,
) -> (result: Option<MethodResult>)
    ensures
        routed(
            result,
            old(model)@,
            final(model)@,
            old(model)@.debug_method(method@, params::asked(params)),
        ),
        old(model)@.palettes == final(model)@.palettes,
{
    if same_text(method, "debug.layout") {
        Some(debug_layout_payload(model))
    } else if same_text(method, "debug.notification.focus") {
        Some(debug_notification_focus_payload(model, params))
    } else if same_text(method, "debug.panel_snapshot") {
        Some(debug_panel_snapshot_payload(model, params))
    } else if same_text(method, "debug.sidebar.visible") {
        Some(debug_sidebar_visible_payload(model, params))
    } else if same_text(method, "debug.terminal.is_focused") {
        Some(debug_terminal_is_focused_payload(model, params))
    } else if same_text(method, "debug.terminal.read_text") {
        Some(surface_read_text_payload(model, params))
    } else if same_text(method, "debug.flash.count") {
        Some(debug_flash_count_payload(model, params))
    } else if same_text(method, "debug.flash.reset") {
        Some(debug_flash_reset_payload(model))
    } else {
        None
    }
}

fn answer_constant_method(model: &AppModel, method: &str, params: &Params) -> (result: Option<MethodResult>)
    ensures
        routed(result, model@, model@, model@.constant_method(method@, params::asked(params))),
{
    if same_text(method, "debug.bonsplit_underflow.count") {
        Some(Ok(no_count_object()))
    } else if same_text(method, "debug.bonsplit_underflow.reset") {
        Some(Ok(Fields::new().finish()))
    } else if same_text(method, "debug.empty_panel.count") {
        Some(Ok(no_count_object()))
    } else if same_text(method, "debug.empty_panel.reset") {
        Some(Ok(Fields::new().finish()))
    } else if same_text(method, "debug.panel_snapshot.reset") {
        Some(Ok(Fields::new().finish()))
    } else if same_text(method, "debug.portal.stats") {
        Some(Ok(debug_portal_stats_payload()))
    } else if same_text(method, "debug.terminal.render_stats") {
        Some(Ok(no_stats_object()))
    } else if same_text(method, "debug.window.screenshot") {
        Some(Ok(debug_window_screenshot_payload(params)))
    } else {
        None
    }
}

fn answer_outer(model: &mut AppModel, drawn: Drawn, method: &str, params: &Params) -> (result: Option<
    MethodResult,
>)
    requires
        old(model)@.state.has_room_for(method@),
        old(model)@.well_formed(),
    ensures
        routed(
            result,
            old(model)@,
            final(model)@,
            old(model)@.outer_route(drawn, method@, params::asked(params)),
        ),
        final(model)@.well_formed(),
{
    if let Some(result) = answer_system_method(model, method, params) {
        return Some(result);
    }
    if let Some(result) = answer_window_method(model, drawn, method, params) {
        return Some(result);
    }
    if let Some(result) = answer_workspace_method(model, drawn, method, params) {
        return Some(result);
    }
    if let Some(result) = answer_pane_method(model, drawn, method, params) {
        return Some(result);
    }
    answer_surface_method(model, drawn, method, params)
}

fn answer_inner(model: &mut AppModel, drawn: Drawn, method: &str, params: &Params) -> (result: Option<
    MethodResult,
>)
    requires
        old(model)@.has_room_for(method@, params::asked(params)),
        old(model)@.well_formed(),
    ensures
        routed(
            result,
            old(model)@,
            final(model)@,
            old(model)@.inner_route(drawn, method@, params::asked(params)),
        ),
        final(model)@.well_formed(),
{
    if let Some(result) = answer_terminal_method(model, method, params) {
        return Some(result);
    }
    if let Some(result) = answer_attention_method(model, method, params) {
        return Some(result);
    }
    if let Some(result) = answer_palette_method(model, drawn, method, params) {
        return Some(result);
    }
    if let Some(result) = answer_debug_method(model, method, params) {
        return Some(result);
    }
    answer_constant_method(model, method, params)
}

/// Answers a method, if there is such a method.
pub fn answer_method(model: &mut AppModel, drawn: Drawn, method: &str, params: &Params) -> (result:
    Option<MethodResult>)
    requires
        old(model)@.has_room_for(method@, params::asked(params)),
        old(model)@.well_formed(),
    ensures
        routed(
            result,
            old(model)@,
            final(model)@,
            old(model)@.route(drawn, method@, params::asked(params)),
        ),
        final(model)@.well_formed(),
{
    if let Some(result) = answer_outer(model, drawn, method, params) {
        return Some(result);
    }
    answer_inner(model, drawn, method, params)
}

/// Writes the answer to a request.
pub fn respond(id: Value, result: MethodResult) -> (response: Value)
    ensures
        response@ == reply::answer(id@, reply::outcome(result)),
{
    match result {
        Ok(value) => ok_response(id, value),
        Err(error) => error_response(id, error),
    }
}

fn not_supported_error(method: &str) -> (error: MethodError)
    ensures
        error@ == not_supported(method@),
{
    let mut data = Fields::new();
    data.put_text("method", method);
    data.put_text("platform", "linux");
    data.put_text("frontend", "gtk4-libadwaita");
    MethodError::new(
        "not_supported",
        joined(method, " is not supported on gtk4-libadwaita"),
        Some(data.finish()),
    )
}

fn notified_dispatch(id: Value, result: Result<NotificationStep, MethodError>) -> (dispatch:
    Dispatch)
    ensures
        match result {
            Ok(NotificationStep::Suppressed(value)) => dispatch@ == DispatchView::Answer(
                reply::ok_answer(id@, value@),
            ),
            Ok(NotificationStep::Deliver(pending)) => dispatch@ == (DispatchView::Deliver {
                id: id@,
                pending: pending@,
            }),
            Err(error) => dispatch@ == DispatchView::Answer(reply::error_answer(id@, error@)),
        },
{
    match result {
        Ok(NotificationStep::Suppressed(value)) => Dispatch::Answer(ok_response(id, value)),
        Ok(NotificationStep::Deliver(pending)) => Dispatch::Deliver { id, pending },
        Err(error) => Dispatch::Answer(error_response(id, error)),
    }
}

/// Does what a request asks for, with these identifiers for what it makes.
pub fn dispatch_with_ids(model: &mut AppModel, drawn: Drawn, request: Request) -> (dispatch:
    Dispatch)
    requires
        old(model)@.has_room_for(request@.method, request@.params),
        old(model)@.well_formed(),
    ensures
        final(model)@ == old(model)@.dispatch(drawn, request@).0,
        dispatch@ == old(model)@.dispatch(drawn, request@).1,
        final(model)@.well_formed(),
{
    let id = request.id;
    let method = request.method;
    let params = request.params;
    if begins_with(method.as_str(), "browser.") {
        return Dispatch::Answer(error_response(id, not_supported_error(method.as_str())));
    }
    if same_text(method.as_str(), "notification.create") {
        let step = notification_create_payload(model, &params);
        return notified_dispatch(id, step);
    }
    if same_text(method.as_str(), "notification.create_for_surface") {
        let step = notification_create_for_surface_payload(model, &params);
        return notified_dispatch(id, step);
    }
    match answer_method(model, drawn, method.as_str(), &params) {
        Some(result) => Dispatch::Answer(respond(id, result)),
        None => {
            let error: MethodError = if has_name(&answered_methods(), method.as_str()) {
                MethodError::unavailable(
                    joined(method.as_str(), " is advertised but not implemented yet"),
                )
            } else {
                MethodError::new("method_not_found", "Unknown method".to_owned(), None)
            };
            Dispatch::Answer(error_response(id, error))
        },
    }
}

/// Does what a request asks for.
pub fn dispatch_request(model: &mut AppModel, request: Request) -> (dispatch: Dispatch)
    requires
        old(model)@.has_room_for(request@.method, request@.params),
        old(model)@.well_formed(),
    ensures
        exists|drawn: Drawn|
            drawn.usable() && final(model)@ == (#[trigger] old(model)@.dispatch(
                drawn,
                request@,
            )).0 && dispatch@ == old(model)@.dispatch(drawn, request@).1,
        final(model)@.well_formed(),
{
    let drawn = Drawn::draw();
    dispatch_with_ids(model, drawn, request)
}

/// The contents of what may be a request.
pub open spec fn parsed_view(parsed: Result<Request, String>) -> Result<RequestView, Seq<char>> {
    match parsed {
        Ok(request) => Ok(request@),
        Err(reason) => Err(reason@),
    }
}

/// Does what a request asks for, or says why it is none.
pub fn handle_request(model: &mut AppModel, parsed: Result<Request, String>) -> (dispatch: Dispatch)
    requires
        old(model)@.has_room_for_parsed(parsed_view(parsed)),
        old(model)@.well_formed(),
    ensures
        exists|drawn: Drawn|
            drawn.usable() && final(model)@ == (#[trigger] old(model)@.handled(
                drawn,
                parsed_view(parsed),
            )).0 && dispatch@ == old(model)@.handled(drawn, parsed_view(parsed)).1,
        final(model)@.well_formed(),
{
    let ghost before = model@;
    let ghost view = parsed_view(parsed);
    match parsed {
        Ok(request) => {
            let ghost asked = request@;
            let dispatch = dispatch_request(model, request);
            proof {
                let drawn = choose|drawn: Drawn|
                    drawn.usable() && model@ == (#[trigger] before.dispatch(drawn, asked)).0
                        && dispatch@ == before.dispatch(drawn, asked).1;
                assert(before.handled(drawn, view) == before.dispatch(drawn, asked));
            }
            dispatch
        },
        Err(reason) => {
            proof {
                let drawn = Drawn {
                    window: 1,
                    workspace: 1,
                    pane: 1,
                    surface: 1,
                    notification: 1,
                };
                assert(drawn.usable() && before.handled(drawn, view).0 == model@);
            }
            Dispatch::Answer(
                error_response(
                    Value::Null,
                    MethodError::new(
                        "invalid_request",
                        joined("Invalid JSON request: ", reason.as_str()),
                        None,
                    ),
                ),
            )
        },
    }
}

/// Does what a request asks for, or says why it is none. Gives `None`, and changes nothing, where
/// what the request may make cannot be numbered.
pub fn try_handle_request(model: &mut AppModel, parsed: Result<Request, String>) -> (result: Option<
    Dispatch,
>)
    requires
        old(model)@.well_formed(),
    ensures
        match result {
            Some(dispatch) => old(model)@.has_room_for_parsed(parsed_view(parsed)) && (exists|
                drawn: Drawn,
            |
                drawn.usable() && final(model)@ == (#[trigger] old(model)@.handled(
                    drawn,
                    parsed_view(parsed),
                )).0 && dispatch@ == old(model)@.handled(drawn, parsed_view(parsed)).1),
            None => !old(model)@.has_room_for_parsed(parsed_view(parsed)) && final(model)@ == old(
                model,
            )@,
        },
        final(model)@.well_formed(),
{
    let room = match &parsed {
        Ok(request) => has_room_for(model, request.method.as_str(), &request.params),
        Err(_) => true,
    };
    if room {
        Some(handle_request(model, parsed))
    } else {
        None
    }
}

/// Answers a request for a notification, with this identifier for it, once the desktop was asked to
/// show it.
pub fn finish_delivery_with_ids(
    model: &mut AppModel,
    drawn: Drawn,
    id: Value,
    pending: PendingNotification,
    delivered: bool,
) -> (response: Value)
    ensures
        final(model)@ == old(model)@.delivered(drawn, id@, pending@, delivered).0,
        response@ == old(model)@.delivered(drawn, id@, pending@, delivered).1,
        final(model)@.palettes == old(model)@.palettes,
{
    let result = notification_noted_payload(model, drawn, pending, delivered);
    respond(id, result)
}

/// Answers a request for a notification, once the desktop was asked to show it.
pub fn finish_delivery(
    model: &mut AppModel,
    id: Value,
    pending: PendingNotification,
    delivered: bool,
) -> (response: Value)
    ensures
        exists|drawn: Drawn|
            drawn.usable() && final(model)@ == (#[trigger] old(model)@.delivered(
                drawn,
                id@,
                pending@,
                delivered,
            )).0 && response@ == old(model)@.delivered(drawn, id@, pending@, delivered).1,
        final(model)@.palettes == old(model)@.palettes,
{
    let drawn = Drawn::draw();
    finish_delivery_with_ids(model, drawn, id, pending, delivered)
}

/// The line that is sent for an answer that was written as JSON, or could not be.
pub open spec fn sent_line(encoded: Option<Seq<char>>) -> Seq<char> {
    match encoded {
        Some(line) => line + "\n"@,
        None =>
            "{\"id\":null,\"ok\":false,\"error\":{\"code\":\"encode_error\",\"message\":\"Failed to encode JSON\"}}\n"@,
    }
}

/// The line that is sent for an answer that was written as JSON, or could not be.
pub fn encode_response(encoded: Option<String>) -> (line: String)
    ensures
        line@ == sent_line(crate::text::opt_text(encoded)),
{
    match encoded {
        Some(line) => joined(line.as_str(), "\n"),
        None =>
            "{\"id\":null,\"ok\":false,\"error\":{\"code\":\"encode_error\",\"message\":\"Failed to encode JSON\"}}\n".to_owned(),
    }
}

} // verus!
