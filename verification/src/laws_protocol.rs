//! What holds of every request.

use crate::answer_notifications::{PendingView, StepView};
use crate::dispatch;
use crate::dispatch::{DispatchView, RequestView};
use crate::ids::{Drawn, SurfaceId, WindowId, WorkspaceId};
use crate::json;
use crate::json::ValueView;
use crate::laws_methods;
use crate::laws_requests;
use crate::laws_states;
use crate::layout::SplitOrientation;
use crate::methods;
use crate::model::ModelView;
use crate::palette;
use crate::palette::SidebarEntry;
use crate::params;
use crate::params::ParamsView;
use crate::registry::HandleKind;
use crate::reply;
use crate::reply::ErrorView;
use crate::text;
use vstd::prelude::*;

verus! {

/// What an object holds under a key.
pub open spec fn held(value: ValueView, key: Seq<char>) -> Option<ValueView> {
    match value {
        ValueView::Object(entries) => json::entry(entries, key),
        _ => None,
    }
}

/// Whether a value answers the request with this mark: it carries the mark, says whether the request
/// succeeded, and holds a result if it did and an error if it did not, not both.
pub open spec fn answers_to(value: ValueView, id: ValueView) -> bool {
    &&& held(value, "id"@) == Some(id)
    &&& match held(value, "ok"@) {
        Some(ValueView::Bool(ok)) => held(value, "result"@) is Some == ok && held(
            value,
            "error"@,
        ) is None == ok,
        _ => false,
    }
}

proof fn lemma_answers_to(id: ValueView, result: Result<ValueView, ErrorView>)
    ensures
        answers_to(reply::answer(id, result), id),
{
    reveal_strlit("id");
    reveal_strlit("ok");
    reveal_strlit("result");
    reveal_strlit("error");
    assert("id"@[0] != "ok"@[0]);
    assert("result"@[0] != "error"@[0]);
    reveal_with_fuel(json::entry_from, 4);
}

/// Every answer carries the mark of its request, and holds either a result or an error; so does the
/// answer that follows a notification, and the one to what is no request, whose mark is null.
pub proof fn law_answer_is_marked(
    model: ModelView,
    drawn: Drawn,
    parsed: Result<RequestView, Seq<char>>,
    pending: PendingView,
    shown: bool,
)
    ensures
        match model.handled(drawn, parsed).1 {
            DispatchView::Answer(value) => answers_to(
                value,
                match parsed {
                    Ok(request) => request.id,
                    Err(_) => ValueView::Null,
                },
            ),
            DispatchView::Deliver { id, .. } => parsed is Ok && id == parsed->Ok_0.id && answers_to(
                model.delivered(drawn, id, pending, shown).1,
                id,
            ),
        },
{
    match parsed {
        Ok(request) => {
            let id = request.id;
            assert forall|result: Result<ValueView, ErrorView>|
                answers_to(#[trigger] reply::answer(id, result), id) by {
                lemma_answers_to(id, result);
            }
            assert forall|error: ErrorView| answers_to(#[trigger] reply::error_answer(id, error), id) by {
                lemma_answers_to(id, Err(error));
            }
            assert forall|value: ValueView| answers_to(#[trigger] reply::ok_answer(id, value), id) by {
                lemma_answers_to(id, Ok(value));
            }
        },
        Err(reason) => {
            assert forall|error: ErrorView|
                answers_to(#[trigger] reply::error_answer(ValueView::Null, error), ValueView::Null) by {
                lemma_answers_to(ValueView::Null, Err(error));
            }
        },
    }
}

/// Every method of the embedded browser, listed or not, is refused as one that is not supported, and
/// nothing changes.
pub proof fn law_browser_is_refused(model: ModelView, drawn: Drawn, request: RequestView)
    requires
        text::begins(request.method, "browser."@),
    ensures
        model.dispatch(drawn, request) == (
            model,
            DispatchView::Answer(
                reply::error_answer(request.id, dispatch::not_supported(request.method)),
            ),
        ),
{
}

/// Each method that the protocol names is answered: none is refused as one that is not there yet.
pub proof fn law_named_is_answered(model: ModelView, drawn: Drawn, request: RequestView)
    requires
        methods::answered().contains(request.method),
    ensures
        match model.dispatch(drawn, request).1 {
            DispatchView::Answer(_) => request.method == "notification.create"@ || request.method
                == "notification.create_for_surface"@ || model.route(
                drawn,
                request.method,
                request.params,
            ) is Some,
            DispatchView::Deliver { .. } => request.method == "notification.create"@
                || request.method == "notification.create_for_surface"@,
        },
{
    laws_methods::law_answered_is_no_browser(request.method);
    if request.method != "notification.create"@ && request.method
        != "notification.create_for_surface"@ {
        law_routed_is_answered(model, drawn, request.method, request.params);
    }
}

/// A method that nothing names is refused as one that does not exist, and nothing changes.
pub proof fn law_unknown_is_refused(model: ModelView, drawn: Drawn, request: RequestView)
    requires
        !text::begins(request.method, "browser."@),
        !methods::answered().contains(request.method),
    ensures
        model.dispatch(drawn, request) == (
            model,
            DispatchView::Answer(reply::error_answer(request.id, dispatch::no_method())),
        ),
{
    methods::lemma_answered(request.method);
    law_routed_is_answered(model, drawn, request.method, request.params);
}

/// The methods that are routed are those that the protocol answers, but for the two that ask for a
/// notification.
pub proof fn law_routed_is_answered(
    model: ModelView,
    drawn: Drawn,
    method: Seq<char>,
    params: ParamsView,
)
    requires
        method != "notification.create"@,
        method != "notification.create_for_surface"@,
    ensures
        model.route(drawn, method, params) is Some == methods::answered().contains(method),
{
    methods::lemma_answered(method);
}

// ---------------------------------------------------------------------------
// The focus
// ---------------------------------------------------------------------------

/// A request that makes a workspace leaves the focus where it is.
pub proof fn law_workspace_create_keeps_focus(
    model: ModelView,
    drawn: Drawn,
    params: ParamsView,
)
    requires
        model.state.sound(),
    ensures
        model.workspace_create(drawn, params).0.state.same_focus(model.state),
{
    laws_requests::lemma_targets(model, params);
    reveal(ModelView::only_names);
    let (next, result) = params::window_target(model, params);
    if let Ok(window_id) = result {
        if let Ok(directory) = params::optional_word(params, "cwd"@) {
            laws_states::law_new_workspace_keeps_focus(
                next.state,
                drawn,
                window_id,
                directory,
            );
        }
    }
}

/// A request that makes a surface in a pane leaves the focus where it is.
pub proof fn law_surface_create_keeps_focus(model: ModelView, drawn: Drawn, params: ParamsView)
    requires
        model.state.sound(),
    ensures
        model.surface_create(drawn, params).0.state.same_focus(model.state),
{
    laws_requests::lemma_targets(model, params);
    reveal(ModelView::only_names);
    let (first, found) = params::workspace_target(model, params);
    if let Ok(workspace_id) = found {
        laws_requests::lemma_required(first, params, HandleKind::Pane, "pane_id"@);
        let (next, result) = first.pane_for(params, workspace_id);
        if let Ok(pane_id) = result {
            laws_states::law_new_surface_keeps_focus(next.state, drawn, workspace_id, pane_id);
            let (changed, made) = next.state.create_surface(drawn, workspace_id, pane_id, false);
            if let Ok((place, pane, surface)) = made {
                laws_requests::lemma_told(
                    next.with_state(changed),
                    place,
                    Some(pane),
                    Some(surface),
                );
            }
        }
    }
}

proof fn lemma_split_beside_keeps_focus(
    model: ModelView,
    drawn: Drawn,
    surface_id: SurfaceId,
    way: (SplitOrientation, bool),
)
    requires
        model.state.sound(),
        model.state.new_inside(drawn),
    ensures
        model.split_beside(drawn, surface_id, way).0.state.same_focus(model.state),
{
    reveal(ModelView::only_names);
    laws_states::law_split_keeps_focus(model.state, drawn, surface_id, way.0, way.1);
    let (changed, result) = model.state.split_surface(drawn, surface_id, way.0, way.1, false);
    if let Ok((workspace_id, pane_id, made)) = result {
        laws_requests::lemma_told(
            model.with_state(changed),
            workspace_id,
            Some(pane_id),
            Some(made),
        );
    }
}

/// A request that splits a pane leaves the focus where it is.
pub proof fn law_split_keeps_focus(model: ModelView, drawn: Drawn, params: ParamsView)
    requires
        model.state.sound(),
        model.state.new_inside(drawn),
    ensures
        model.surface_split(drawn, params).0.state.same_focus(model.state),
        model.pane_create(drawn, params).0.state.same_focus(model.state),
{
    laws_requests::lemma_targets(model, params);
    reveal(ModelView::only_names);
    if let Ok(way) = params::direction(params) {
        let (next, found) = params::surface_target(model, params);
        if let Ok(surface_id) = found {
            lemma_split_beside_keeps_focus(next, drawn, surface_id, way);
        }
        let (next, found) = params::workspace_target(model, params);
        if let Ok(workspace_id) = found {
            if let Some(workspace) = next.state.workspace(workspace_id) {
                if let Some(surface_id) = workspace.selected_surface_id() {
                    lemma_split_beside_keeps_focus(next, drawn, surface_id, way);
                }
            }
        }
    }
}

// ---------------------------------------------------------------------------
// Notifications
// ---------------------------------------------------------------------------

/// A notification about what the user sees anyway is answered at once, and nothing is noted: the
/// state stays as it is.
pub proof fn law_seen_is_suppressed(
    model: ModelView,
    params: ParamsView,
    workspace_id: WorkspaceId,
    surface_id: Option<SurfaceId>,
)
    requires
        model.suppresses(workspace_id, surface_id),
    ensures
        model.notification_step(params, workspace_id, surface_id).1 is Suppressed,
        model.notification_step(params, workspace_id, surface_id).0.state == model.state,
{
}

/// A notification is handed to the desktop unless the user sees what it is about anyway, and
/// nothing is noted before that.
pub proof fn law_unseen_is_delivered(
    model: ModelView,
    params: ParamsView,
    workspace_id: WorkspaceId,
    surface_id: Option<SurfaceId>,
)
    requires
        !model.suppresses(workspace_id, surface_id),
    ensures
        model.notification_step(params, workspace_id, surface_id) == (
            model,
            StepView::Deliver(PendingView::of(params, workspace_id, surface_id)),
        ),
{
}

/// A notification is noted whether or not the desktop showed it.
pub proof fn law_delivered_is_noted(
    model: ModelView,
    drawn: Drawn,
    pending: PendingView,
    delivered: bool,
)
    requires
        model.state.create_notification(
            drawn,
            pending.workspace_id,
            pending.surface_id,
            pending.title,
            pending.subtitle,
            pending.body,
            delivered,
        ).1 is Ok,
    ensures
        ({
            let next = model.notification_noted(drawn, pending, delivered).0.state;
            &&& next.notifications.len() == model.state.notifications.len() + 1
            &&& next.notifications.last().id == drawn.notification
            &&& next.notifications.last().title == pending.title
            &&& next.notifications.last().delivered == delivered
            &&& !next.notifications.last().is_read
        }),
{
}

// ---------------------------------------------------------------------------
// Text
// ---------------------------------------------------------------------------

/// Where terminals do not run, what is sent to a surface is read from it, after what was there.
pub proof fn law_sent_is_read(model: ModelView, surface_id: SurfaceId, content: Seq<char>)
    requires
        model.state.sound(),
        model.state.target(surface_id) is Some,
        !model.bridge.connected,
    ensures
        model.sent(surface_id, content).0.state.read_terminal_text(surface_id, None) == Ok::<
            (WorkspaceId, Seq<char>),
            Seq<char>,
        >(
            (
                (model.state.locate_surface(surface_id)->0).0,
                (model.state.target(surface_id)->0).1.transcript + content,
            ),
        ),
        model.sent(surface_id, content).1 is Ok,
{
    laws_states::law_added_text_is_read(model.state, surface_id, content);
}

/// Where terminals run, what is sent to a surface waits for its terminal, and the state stays as
/// it is.
pub proof fn law_sent_waits(model: ModelView, surface_id: SurfaceId, content: Seq<char>)
    requires
        model.bridge.connected,
    ensures
        model.sent(surface_id, content).0.state == model.state,
        model.sent(surface_id, content).0.bridge == model.bridge.sent(surface_id, content),
        model.sent(surface_id, content).1 is Ok,
{
}

// ---------------------------------------------------------------------------
// The sidebar
// ---------------------------------------------------------------------------

/// Toggling the sidebar of a window twice leaves it as it was, and leaves the other windows' as
/// they are.
pub proof fn law_toggling_twice(model: ModelView, window_id: WindowId, other: WindowId)
    ensures
        model.toggle_sidebar(window_id).sidebar_visible(window_id) == !model.sidebar_visible(
            window_id,
        ),
        model.toggle_sidebar(window_id).toggle_sidebar(window_id).sidebar_visible(window_id)
            == model.sidebar_visible(window_id),
        other != window_id ==> model.toggle_sidebar(window_id).sidebar_visible(other)
            == model.sidebar_visible(other),
{
    lemma_toggled(model.sidebars, window_id, other, !model.sidebar_visible(window_id));
    let once = model.toggle_sidebar(window_id);
    lemma_toggled(once.sidebars, window_id, other, !once.sidebar_visible(window_id));
}

proof fn lemma_toggled(
    list: Seq<SidebarEntry>,
    window_id: WindowId,
    other: WindowId,
    visible: bool,
)
    ensures
        palette::sidebar_shown(palette::with_sidebar(list, window_id, visible), window_id)
            == visible,
        other != window_id ==> palette::sidebar_shown(
            palette::with_sidebar(list, window_id, visible),
            other,
        ) == palette::sidebar_shown(list, other),
{
    let entry = SidebarEntry { window_id, visible };
    lemma_sidebar_from(list, window_id, 0);
    lemma_sidebar_from(list, other, 0);
    match palette::sidebar_from(list, window_id, 0) {
        Some(at) => {
            lemma_sidebar_updated(list, entry, at, window_id, 0);
            lemma_sidebar_updated(list, entry, at, other, 0);
        },
        None => {
            lemma_sidebar_pushed(list, entry, window_id, 0);
            lemma_sidebar_pushed(list, entry, other, 0);
        },
    }
}

proof fn lemma_sidebar_from(list: Seq<SidebarEntry>, id: WindowId, from: int)
    requires
        0 <= from,
    ensures
        match palette::sidebar_from(list, id, from) {
            Some(at) => from <= at < list.len() && list[at].window_id == id,
            None => true,
        },
    decreases list.len() - from,
{
    if from < list.len() && list[from].window_id != id {
        lemma_sidebar_from(list, id, from + 1);
    }
}

proof fn lemma_sidebar_updated(
    list: Seq<SidebarEntry>,
    entry: SidebarEntry,
    at: int,
    id: WindowId,
    from: int,
)
    requires
        0 <= from,
        0 <= at < list.len(),
        list[at].window_id == entry.window_id,
    ensures
        palette::sidebar_from(list.update(at, entry), id, from) == palette::sidebar_from(
            list,
            id,
            from,
        ),
    decreases list.len() - from,
{
    if from < list.len() {
        lemma_sidebar_updated(list, entry, at, id, from + 1);
    }
}

proof fn lemma_sidebar_pushed(
    list: Seq<SidebarEntry>,
    entry: SidebarEntry,
    id: WindowId,
    from: int,
)
    requires
        0 <= from <= list.len(),
        id == entry.window_id ==> palette::sidebar_from(list, id, from) is None,
    ensures
        palette::sidebar_from(list.push(entry), id, from) == (if id == entry.window_id {
            Some(list.len() as int)
        } else {
            palette::sidebar_from(list, id, from)
        }),
    decreases list.len() - from,
{
    if from < list.len() {
        assert(list.push(entry)[from] == list[from]);
        if list[from].window_id != id {
            lemma_sidebar_pushed(list, entry, id, from + 1);
        }
    } else {
        assert(list.push(entry)[from] == entry);
        assert(palette::sidebar_from(list.push(entry), id, from + 1) is None);
    }
}

} // verus!
