//! Answers to requests about notifications and about the user's attention.

use crate::ids;
use crate::ids::{Drawn, NotificationId, SurfaceId, WorkspaceId, NIL};
use crate::json;
use crate::json::{Value, ValueView};
use crate::model::{AppFocusOverride, AppModel, ModelView};
use crate::params;
use crate::params::{
    param_string, param_text, require_surface_id, workspace_surface_id, workspace_target_id, Params,
    ParamsView,
};
use crate::registry::HandleKind;
use crate::reply;
use crate::reply::{
    array, or_internal, ErrorView, Fields, MethodError, MethodResult, Outcome, Reply,
};
use crate::state;
use crate::state::{Notification, NotificationView};
use crate::state_focus::same_id;
use crate::text;
use crate::text::{joined3, same_text, trim};
use vstd::prelude::*;

verus! {

/// A notification that the desktop is to show before it is noted.
#[derive(Debug)]
pub struct PendingNotification {
    /// The workspace it is about.
    pub workspace_id: WorkspaceId,
    /// The surface it is about.
    pub surface_id: Option<SurfaceId>,
    /// Its title.
    pub title: String,
    /// Its subtitle.
    pub subtitle: String,
    /// Its text.
    pub body: String,
}

/// The contents of a [`PendingNotification`].
#[verifier::ext_equal]
pub struct PendingView {
    /// See [`PendingNotification::workspace_id`].
    pub workspace_id: WorkspaceId,
    /// See [`PendingNotification::surface_id`].
    pub surface_id: Option<SurfaceId>,
    /// See [`PendingNotification::title`].
    pub title: Seq<char>,
    /// See [`PendingNotification::subtitle`].
    pub subtitle: Seq<char>,
    /// See [`PendingNotification::body`].
    pub body: Seq<char>,
}

impl View for PendingNotification {
    type V = PendingView;

    open spec fn view(&self) -> PendingView {
        PendingView {
            workspace_id: self.workspace_id,
            surface_id: self.surface_id,
            title: self.title@,
            subtitle: self.subtitle@,
            body: self.body@,
        }
    }
}

impl PendingView {
    /// What a request says of a notification.
    pub open spec fn of(
        params: ParamsView,
        workspace_id: WorkspaceId,
        surface_id: Option<SurfaceId>,
    ) -> PendingView {
        PendingView {
            workspace_id,
            surface_id,
            title: params::word_or(params, "title"@, "Notification"@),
            subtitle: params::word_or(params, "subtitle"@, ""@),
            body: params::word_or(params, "body"@, ""@),
        }
    }

    /// The line that the desktop shows above the text: the title, and the subtitle if there is one.
    pub open spec fn summary(self) -> Seq<char> {
        if text::trimmed(self.subtitle).len() == 0 {
            self.title
        } else {
            self.title + " - "@ + self.subtitle
        }
    }
}

impl PendingNotification {
    /// The line that the desktop shows above the text.
    pub fn summary(&self) -> (line: String)
        ensures
            line@ == self@.summary(),
    {
        if trim(self.subtitle.as_str()).as_str().is_empty() {
            self.title.clone()
        } else {
            joined3(self.title.as_str(), " - ", self.subtitle.as_str())
        }
    }
}

/// What comes of a request for a notification, before the desktop is asked.
#[derive(Debug)]
pub enum NotificationStep {
    /// The answer: nothing is shown.
    Suppressed(Value),
    /// The desktop is to show it.
    Deliver(PendingNotification),
}

/// The contents of a [`NotificationStep`].
pub enum StepView {
    /// See [`NotificationStep::Suppressed`].
    Suppressed(ValueView),
    /// See [`NotificationStep::Deliver`].
    Deliver(PendingView),
}

impl View for NotificationStep {
    type V = StepView;

    open spec fn view(&self) -> StepView {
        match self {
            NotificationStep::Suppressed(value) => StepView::Suppressed(value@),
            NotificationStep::Deliver(pending) => StepView::Deliver(pending@),
        }
    }
}

/// The contents of a step that may be an error.
pub open spec fn step_result(result: Result<NotificationStep, MethodError>) -> Result<
    StepView,
    ErrorView,
> {
    match result {
        Ok(step) => Ok(step@),
        Err(error) => Err(error@),
    }
}

/// What is told of one notification.
pub open spec fn notification_value(notification: NotificationView) -> ValueView {
    ValueView::Object(
        reply::no_fields().push(("id"@, json::id_value(notification.id))).push(
            ("workspace_id"@, json::id_value(notification.workspace_id)),
        ).push(("surface_id"@, json::opt_id_value(notification.surface_id))).push(
            ("is_read"@, ValueView::Bool(notification.is_read)),
        ).push(("title"@, ValueView::Text(notification.title))).push(
            ("subtitle"@, ValueView::Text(notification.subtitle)),
        ).push(("body"@, ValueView::Text(notification.body))).push(
            ("delivered"@, ValueView::Bool(notification.delivered)),
        ),
    )
}

impl ModelView {
    /// Whether the user sees what a notification is about anyway: the application has their
    /// attention, the workspace is on screen, and so is the surface if there is one.
    pub open spec fn suppresses(
        self,
        workspace_id: WorkspaceId,
        surface_id: Option<SurfaceId>,
    ) -> bool {
        &&& self.app_focus_override == Some(AppFocusOverride::Active)
        &&& self.state.selected_workspace_id == workspace_id
        &&& surface_id is Some ==> self.state.current_surface_id() == surface_id
    }

    /// What is told of a notification.
    pub open spec fn notification_reply(
        self,
        notification_id: Option<NotificationId>,
        workspace_id: WorkspaceId,
        surface_id: Option<SurfaceId>,
        delivered: bool,
    ) -> Reply {
        Reply::of(self).with("notification_id"@, json::opt_id_value(notification_id)).workspace(
            workspace_id,
        ).with("surface_id"@, json::opt_id_value(surface_id)).opt_named(
            "surface_ref"@,
            HandleKind::Surface,
            surface_id,
        ).with("delivered"@, ValueView::Bool(delivered))
    }

    /// The first step of a notification: it is suppressed, or the desktop is to show it.
    pub open spec fn notification_step(
        self,
        params: ParamsView,
        workspace_id: WorkspaceId,
        surface_id: Option<SurfaceId>,
    ) -> (ModelView, StepView) {
        if self.suppresses(workspace_id, surface_id) {
            let reply = self.notification_reply(None, workspace_id, surface_id, false).with(
                "suppressed"@,
                ValueView::Bool(true),
            );
            (reply.model, StepView::Suppressed(ValueView::Object(reply.fields)))
        } else {
            (self, StepView::Deliver(PendingView::of(params, workspace_id, surface_id)))
        }
    }

    /// The first step of a notification about the selected surface of a workspace.
    pub open spec fn notification_create(self, params: ParamsView) -> params::Search<StepView> {
        match params::workspace_target(self, params) {
            (model, Err(error)) => (model, Err(error)),
            (model, Ok(workspace_id)) => {
                let (next, step) = model.notification_step(
                    params,
                    workspace_id,
                    model.selected_surface(workspace_id),
                );
                (next, Ok(step))
            },
        }
    }

    /// The first step of a notification about a surface.
    pub open spec fn notification_create_for_surface(self, params: ParamsView) -> params::Search<
        StepView,
    > {
        match params::required(self, params, HandleKind::Surface, "surface_id"@) {
            (model, Err(error)) => (model, Err(error)),
            (model, Ok(surface_id)) => match model.state.locate_surface(surface_id) {
                None => (
                    model,
                    Err(
                        ErrorView::not_found_id("Surface not found"@, "surface_id"@, surface_id),
                    ),
                ),
                Some((workspace_id, _)) => {
                    let (next, step) = model.notification_step(
                        params,
                        workspace_id,
                        Some(surface_id),
                    );
                    (next, Ok(step))
                },
            },
        }
    }

    /// The second step of a notification: it is noted, whether or not the desktop showed it.
    pub open spec fn notification_noted(
        self,
        drawn: Drawn,
        pending: PendingView,
        delivered: bool,
    ) -> Outcome {
        match self.internal(
            self.state.create_notification(
                drawn,
                pending.workspace_id,
                pending.surface_id,
                pending.title,
                pending.subtitle,
                pending.body,
                delivered,
            ),
        ) {
            (next, Err(error)) => (next, Err(error)),
            (next, Ok(notification_id)) => next.notification_reply(
                Some(notification_id),
                pending.workspace_id,
                pending.surface_id,
                delivered,
            ).done(),
        }
    }

    /// The notifications.
    pub open spec fn notification_list(self) -> Outcome {
        Reply::of(self).with(
            "notifications"@,
            ValueView::Array(
                Seq::new(
                    self.state.notifications.len(),
                    |at: int| notification_value(self.state.notifications[at]),
                ),
            ),
        ).done()
    }

    /// There are no notifications.
    pub open spec fn notification_clear(self) -> Outcome {
        Reply::of(self.with_state(self.state.clear_notifications())).done()
    }

    /// The application counts as having the user's attention, or not, or as the desktop says.
    pub open spec fn focus_override(self, params: ParamsView) -> Outcome {
        match params::word(params, "state"@) {
            None => (self, Err(ErrorView::invalid_params("Missing or invalid state"@))),
            Some(word) => if word == "active"@ {
                Reply::of(
                    ModelView { app_focus_override: Some(AppFocusOverride::Active), ..self },
                ).with("state"@, ValueView::Text(word)).done()
            } else if word == "inactive"@ {
                Reply::of(
                    ModelView { app_focus_override: Some(AppFocusOverride::Inactive), ..self },
                ).with("state"@, ValueView::Text(word)).done()
            } else if word == "clear"@ {
                Reply::of(ModelView { app_focus_override: None, ..self }).with(
                    "state"@,
                    ValueView::Text(word),
                ).done()
            } else {
                (
                    self,
                    Err(ErrorView::invalid_params("state must be active, inactive, or clear"@)),
                )
            },
        }
    }

    /// The model in which the user attends to what is on screen.
    pub open spec fn attentive(self) -> ModelView {
        let active = ModelView { app_focus_override: Some(AppFocusOverride::Active), ..self };
        if self.state.selected_workspace_id == NIL {
            active
        } else {
            active.with_state(
                active.state.select_workspace(self.state.selected_workspace_id).0,
            )
        }
    }

    /// The user attends to what is on screen.
    pub open spec fn simulate_active(self) -> Outcome {
        let workspace_id = self.state.selected_workspace_id;
        Reply::of(self.attentive()).window(self.state.window_id).with(
            "workspace_id"@,
            json::id_value(workspace_id),
        ).opt_named("workspace_ref"@, HandleKind::Workspace, ids::non_nil(workspace_id)).done()
    }
}

/// Whether the user sees what a notification is about anyway.
pub fn should_suppress_notification(
    model: &AppModel,
    workspace_id: WorkspaceId,
    surface_id: Option<SurfaceId>,
) -> (suppressed: bool)
    ensures
        suppressed == model@.suppresses(workspace_id, surface_id),
{
    if !model.app_focus_active() || model.state.selected_workspace_id != workspace_id {
        return false;
    }
    match surface_id {
        Some(_) => same_id(model.state.current_surface_id(), surface_id),
        None => true,
    }
}

fn notification_fields(
    model: &mut AppModel,
    notification_id: Option<NotificationId>,
    workspace_id: WorkspaceId,
    surface_id: Option<SurfaceId>,
    delivered: bool,
) -> (fields: Fields)
    ensures
        (Reply { model: final(model)@, fields: fields@ }) == old(model)@.notification_reply(
            notification_id,
            workspace_id,
            surface_id,
            delivered,
        ),
{
    let mut fields = Fields::new();
    fields.put("notification_id", Value::opt_id(notification_id));
    fields.put_workspace(model, workspace_id);
    fields.put("surface_id", Value::opt_id(surface_id));
    fields.put_opt_name(model, "surface_ref", HandleKind::Surface, surface_id);
    fields.put_flag("delivered", delivered);
    fields
}

fn begin_notification(
    model: &mut AppModel,
    params: &Params,
    workspace_id: WorkspaceId,
    surface_id: Option<SurfaceId>,
) -> (step: NotificationStep)
    ensures
        final(model)@ == old(model)@.notification_step(
            params::asked(params),
            workspace_id,
            surface_id,
        ).0,
        step@ == old(model)@.notification_step(
            params::asked(params),
            workspace_id,
            surface_id,
        ).1,
        final(model)@.palettes == old(model)@.palettes,
        final(model)@.state == old(model)@.state,
{
    if should_suppress_notification(model, workspace_id, surface_id) {
        let mut fields = notification_fields(model, None, workspace_id, surface_id, false);
        fields.put_flag("suppressed", true);
        return NotificationStep::Suppressed(fields.finish());
    }
    NotificationStep::Deliver(
        PendingNotification {
            workspace_id,
            surface_id,
            title: param_text(params, "title", "Notification"),
            subtitle: param_text(params, "subtitle", ""),
            body: param_text(params, "body", ""),
        },
    )
}

/// Begins a notification about the selected surface of a workspace.
pub fn notification_create_payload(model: &mut AppModel, params: &Params) -> (result: Result<
    NotificationStep,
    MethodError,
>)
    ensures
        final(model)@ == old(model)@.notification_create(params::asked(params)).0,
        step_result(result) == old(model)@.notification_create(params::asked(params)).1,
        final(model)@.palettes == old(model)@.palettes,
        final(model)@.state == old(model)@.state,
{
    let workspace_id = workspace_target_id(model, params)?;
    let surface_id = workspace_surface_id(model, workspace_id);
    Ok(begin_notification(model, params, workspace_id, surface_id))
}

/// Begins a notification about a surface.
pub fn notification_create_for_surface_payload(model: &mut AppModel, params: &Params) -> (result:
    Result<NotificationStep, MethodError>)
    ensures
        final(model)@ == old(model)@.notification_create_for_surface(params::asked(params)).0,
        step_result(result) == old(model)@.notification_create_for_surface(
            params::asked(params),
        ).1,
        final(model)@.palettes == old(model)@.palettes,
        final(model)@.state == old(model)@.state,
{
    let surface_id = require_surface_id(model, params, "surface_id")?;
    match model.state.locate_surface(surface_id) {
        None => Err(
            MethodError::not_found_id("Surface not found".to_owned(), "surface_id", surface_id),
        ),
        Some((workspace_id, _)) => Ok(
            begin_notification(model, params, workspace_id, Some(surface_id)),
        ),
    }
}

/// Notes a notification once the desktop was asked to show it.
pub fn notification_noted_payload(
    model: &mut AppModel,
    drawn: Drawn,
    pending: PendingNotification,
    delivered: bool,
) -> (result: MethodResult)
    ensures
        reply::answers(
            result,
            final(model)@,
            old(model)@.notification_noted(drawn, pending@, delivered),
        ),
        final(model)@.palettes == old(model)@.palettes,
{
    let workspace_id = pending.workspace_id;
    let surface_id = pending.surface_id;
    let notification_id = or_internal(
        model.state.create_notification_with_ids(
            drawn,
            workspace_id,
            surface_id,
            pending.title,
            pending.subtitle,
            pending.body,
            delivered,
        ),
    )?;
    let fields = notification_fields(
        model,
        Some(notification_id),
        workspace_id,
        surface_id,
        delivered,
    );
    Ok(fields.finish())
}

fn notification_object(notification: &Notification) -> (value: Value)
    ensures
        value@ == notification_value(notification@),
{
    let mut fields = Fields::new();
    fields.put("id", Value::id(notification.id));
    fields.put("workspace_id", Value::id(notification.workspace_id));
    fields.put("surface_id", Value::opt_id(notification.surface_id));
    fields.put_flag("is_read", notification.is_read);
    fields.put_text("title", notification.title.as_str());
    fields.put_text("subtitle", notification.subtitle.as_str());
    fields.put_text("body", notification.body.as_str());
    fields.put_flag("delivered", notification.delivered);
    fields.finish()
}

/// Answers which notifications there are.
pub fn notification_list_payload(model: &AppModel) -> (result: MethodResult)
    ensures
        reply::answers(result, model@, model@.notification_list()),
{
    let mut rows: Vec<Value> = Vec::new();
    let mut at: usize = 0;
    while at < model.state.notifications.len()
        invariant
            at <= model.state.notifications@.len(),
            rows@.len() == at,
            forall|k: int|
                0 <= k < at ==> (#[trigger] rows@[k])@ == notification_value(
                    model@.state.notifications[k],
                ),
        decreases model.state.notifications@.len() - at,
    {
        rows.push(notification_object(&model.state.notifications[at]));
        at = at + 1;
    }
    proof {
        assert(json::value_views(rows@) =~= Seq::new(
            model@.state.notifications.len(),
            |k: int| notification_value(model@.state.notifications[k]),
        ));
    }
    let mut fields = Fields::new();
    fields.put("notifications", array(rows));
    Ok(fields.finish())
}

/// Forgets all notifications.
pub fn notification_clear_payload(model: &mut AppModel) -> (result: MethodResult)
    ensures
        reply::answers(result, final(model)@, old(model)@.notification_clear()),
        final(model)@.palettes == old(model)@.palettes,
{
    model.state.clear_notifications();
    Ok(Fields::new().finish())
}

/// Sets whether the application counts as having the user's attention.
pub fn app_focus_override_set_payload(model: &mut AppModel, params: &Params) -> (result:
    MethodResult)
    ensures
        reply::answers(result, final(model)@, old(model)@.focus_override(params::asked(params))),
        final(model)@.palettes == old(model)@.palettes,
{
    let word: String = match param_string(params, "state") {
        Some(word) => word,
        None => {
            return Err(MethodError::invalid("Missing or invalid state"));
        },
    };
    if same_text(word.as_str(), "active") {
        model.app_focus_override = Some(AppFocusOverride::Active);
    } else if same_text(word.as_str(), "inactive") {
        model.app_focus_override = Some(AppFocusOverride::Inactive);
    } else if same_text(word.as_str(), "clear") {
        model.app_focus_override = None;
    } else {
        return Err(MethodError::invalid("state must be active, inactive, or clear"));
    }
    let mut fields = Fields::new();
    fields.put_text("state", word.as_str());
    Ok(fields.finish())
}

/// Lets the user attend to what is on screen.
pub fn app_simulate_active_payload(model: &mut AppModel) -> (result: MethodResult)
    ensures
        reply::answers(result, final(model)@, old(model)@.simulate_active()),
        final(model)@.palettes == old(model)@.palettes,
{
    let workspace_id = model.state.selected_workspace_id;
    let window_id = model.state.window_id;
    model.app_focus_override = Some(AppFocusOverride::Active);
    if workspace_id != NIL {
        let _ = model.state.select_workspace(workspace_id);
    }
    let mut fields = Fields::new();
    fields.put_window(model, window_id);
    fields.put("workspace_id", Value::id(workspace_id));
    fields.put_opt_name(
        model,
        "workspace_ref",
        HandleKind::Workspace,
        ids::unless_nil(workspace_id),
    );
    Ok(fields.finish())
}

} // verus!
