//! Answers to requests that name what is to be done with a workspace, a surface or a tab.

use crate::ids::{Drawn, PaneId, SurfaceId, WindowId, WorkspaceId};
use crate::json;
use crate::json::{copy_entries, entry_of, Value, ValueView};
use crate::model::{AppModel, ModelView};
use crate::params;
use crate::params::{
    param_string, require_workspace_id, surface_target_id, window_of, Params, ParamsView,
};
use crate::registry::HandleKind;
use crate::reply;
use crate::reply::{
    or_invalid, ErrorView, Fields, MethodError, MethodResult, Outcome, Reply,
};
use crate::surface::SurfaceView;
use crate::text::{joined, same_text};
use vstd::prelude::*;

verus! {

/// The parameters of a request about a tab as one about a surface.
pub open spec fn about_surface(params: ParamsView) -> ParamsView {
    if json::entry(params, "surface_id"@) is Some {
        params
    } else {
        match json::entry(params, "tab_id"@) {
            Some(value) => params.push(("surface_id"@, value)),
            None => params,
        }
    }
}

impl ModelView {
    /// What is to be done with a workspace is done.
    pub open spec fn workspace_acted(
        self,
        drawn: Drawn,
        workspace_id: WorkspaceId,
        action: Seq<char>,
        params: ParamsView,
    ) -> params::Search<()> {
        if action == "rename"@ {
            match params::word(params, "title"@) {
                None => (self, Err(ErrorView::invalid_params("Missing title"@))),
                Some(title) => self.invalid(self.state.rename_workspace(workspace_id, title)),
            }
        } else if action == "close"@ {
            self.invalid(self.state.close_workspace(drawn, workspace_id))
        } else {
            (self, Err(ErrorView::invalid_params("unsupported workspace action "@ + action)))
        }
    }

    /// Something is done with a workspace: it is renamed or closed.
    pub open spec fn workspace_action(self, drawn: Drawn, params: ParamsView) -> Outcome {
        match params::required(self, params, HandleKind::Workspace, "workspace_id"@) {
            (model, Err(error)) => (model, Err(error)),
            (model, Ok(workspace_id)) => match params::word(params, "action"@) {
                None => (model, Err(ErrorView::invalid_params("Missing action"@))),
                Some(action) => match model.window_of(workspace_id) {
                    Err(error) => (model, Err(error)),
                    Ok(window_id) => match model.workspace_acted(
                        drawn,
                        workspace_id,
                        action,
                        params,
                    ) {
                        (next, Err(error)) => (next, Err(error)),
                        (next, Ok(_)) => Reply::of(next).window(window_id).workspace(
                            workspace_id,
                        ).with("action"@, ValueView::Text(action)).done(),
                    },
                },
            },
        }
    }

    /// What is to be done with a surface is done.
    pub open spec fn surface_acted(
        self,
        surface_id: SurfaceId,
        action: Seq<char>,
        params: ParamsView,
    ) -> params::Search<()> {
        if action == "rename"@ {
            match params::word(params, "title"@) {
                None => (self, Err(ErrorView::invalid_params("Missing title"@))),
                Some(title) => {
                    let (next, result) = self.invalid(
                        self.state.rename_surface(surface_id, title),
                    );
                    (next, done_or(result))
                },
            }
        } else if action == "clear_name"@ {
            let (next, result) = self.invalid(self.state.clear_surface_title(surface_id));
            (next, done_or(result))
        } else if action == "mark_unread"@ {
            let (next, result) = self.invalid(self.state.mark_surface_unread(surface_id));
            (next, done_or(result))
        } else if action == "mark_read"@ {
            let (next, result) = self.invalid(self.state.mark_surface_read(surface_id));
            (next, done_or(result))
        } else {
            (self, Err(ErrorView::invalid_params("unsupported surface action "@ + action)))
        }
    }

    /// Where a tab is.
    pub open spec fn tab_reply(
        self,
        window_id: WindowId,
        workspace_id: WorkspaceId,
        pane_id: PaneId,
        surface_id: SurfaceId,
    ) -> Reply {
        Reply::of(self).window(window_id).workspace(workspace_id).pane(pane_id).surface(
            surface_id,
        ).with("tab_id"@, json::id_value(surface_id)).tab_named("tab_ref"@, surface_id)
    }

    /// The surface of a workspace.
    pub open spec fn surface_in(self, workspace_id: WorkspaceId, surface_id: SurfaceId) -> Result<
        SurfaceView,
        ErrorView,
    > {
        match self.state.workspace(workspace_id) {
            None => Err(ErrorView::not_found("Workspace not found"@)),
            Some(workspace) => match workspace.surface(surface_id) {
                None => Err(ErrorView::not_found("Surface not found"@)),
                Some(surface) => Ok(surface),
            },
        }
    }

    /// Something is done with a surface: it is renamed, loses its name, or is marked as read or
    /// unread. What is told of it.
    pub open spec fn surface_acting(self, params: ParamsView) -> params::Search<Reply> {
        match params::surface_target(self, params) {
            (model, Err(error)) => (model, Err(error)),
            (model, Ok(surface_id)) => match params::word(params, "action"@) {
                None => (model, Err(ErrorView::invalid_params("Missing action"@))),
                Some(action) => match model.state.locate_surface(surface_id) {
                    None => (model, Err(ErrorView::not_found("Surface not found"@))),
                    Some((workspace_id, pane_id)) => match model.window_of(workspace_id) {
                        Err(error) => (model, Err(error)),
                        Ok(window_id) => match model.surface_acted(surface_id, action, params) {
                            (next, Err(error)) => (next, Err(error)),
                            (next, Ok(_)) => match next.surface_in(workspace_id, surface_id) {
                                Err(error) => (next, Err(error)),
                                Ok(surface) => {
                                    let reply = next.tab_reply(
                                        window_id,
                                        workspace_id,
                                        pane_id,
                                        surface_id,
                                    ).with("title"@, ValueView::Text(surface.title)).with(
                                        "unread"@,
                                        ValueView::Bool(surface.unread),
                                    ).with(
                                        "flash_count"@,
                                        json::number_value(surface.flash_count),
                                    ).with("action"@, ValueView::Text(action));
                                    (reply.model, Ok(reply))
                                },
                            },
                        },
                    },
                },
            },
        }
    }

    /// Something is done with a surface.
    pub open spec fn surface_action(self, params: ParamsView) -> Outcome {
        match self.surface_acting(params) {
            (model, Err(error)) => (model, Err(error)),
            (_, Ok(reply)) => reply.done(),
        }
    }

    /// A tab is pinned or not; it is only told, not noted.
    pub open spec fn tab_pinned(self, params: ParamsView, action: Seq<char>) -> Outcome {
        match params::surface_target(self, params) {
            (model, Err(error)) => (model, Err(error)),
            (model, Ok(surface_id)) => match model.state.locate_surface(surface_id) {
                None => (model, Err(ErrorView::not_found("Surface not found"@))),
                Some((workspace_id, pane_id)) => match model.window_of(workspace_id) {
                    Err(error) => (model, Err(error)),
                    Ok(window_id) => model.tab_reply(
                        window_id,
                        workspace_id,
                        pane_id,
                        surface_id,
                    ).with("pinned"@, ValueView::Bool(action == "pin"@)).with(
                        "action"@,
                        ValueView::Text(action),
                    ).done(),
                },
            },
        }
    }

    /// Something is done with a tab.
    pub open spec fn tab_action(self, params: ParamsView) -> Outcome {
        let translated = about_surface(params);
        match params::word(translated, "action"@) {
            None => (self, Err(ErrorView::invalid_params("Missing action"@))),
            Some(action) => if action == "pin"@ || action == "unpin"@ {
                self.tab_pinned(translated, action)
            } else {
                match self.surface_acting(translated) {
                    (model, Err(error)) => (model, Err(error)),
                    (_, Ok(reply)) => reply.with("pinned"@, ValueView::Bool(false)).done(),
                }
            },
        }
    }
}

/// That something was done, or why not.
pub open spec fn done_or<T>(result: Result<T, ErrorView>) -> Result<(), ErrorView> {
    match result {
        Ok(_) => Ok(()),
        Err(error) => Err(error),
    }
}

fn act_on_workspace(
    model: &mut AppModel,
    drawn: Drawn,
    workspace_id: WorkspaceId,
    action: &str,
    params: &Params,
) -> (result: Result<(), MethodError>)
    requires
        old(model)@.state.has_room(),
    ensures
        final(model)@ == old(model)@.workspace_acted(
            drawn,
            workspace_id,
            action@,
            params::asked(params),
        ).0,
        reply::found(result) == old(model)@.workspace_acted(
            drawn,
            workspace_id,
            action@,
            params::asked(params),
        ).1,
        final(model)@.palettes == old(model)@.palettes,
{
    if same_text(action, "rename") {
        match param_string(params, "title") {
            None => Err(MethodError::invalid("Missing title")),
            Some(title) => or_invalid(model.state.rename_workspace(workspace_id, title)),
        }
    } else if same_text(action, "close") {
        or_invalid(model.state.close_workspace_with_ids(drawn, workspace_id))
    } else {
        Err(MethodError::invalid_params(joined("unsupported workspace action ", action)))
    }
}

/// Renames or closes a workspace.
pub fn workspace_action_payload(model: &mut AppModel, drawn: Drawn, params: &Params) -> (result:
    MethodResult)
    requires
        old(model)@.state.has_room(),
    ensures
        reply::answers(
            result,
            final(model)@,
            old(model)@.workspace_action(drawn, params::asked(params)),
        ),
        final(model)@.palettes == old(model)@.palettes,
{
    let workspace_id = require_workspace_id(model, params, "workspace_id")?;
    let action: String = match param_string(params, "action") {
        Some(action) => action,
        None => {
            return Err(MethodError::invalid("Missing action"));
        },
    };
    let window_id = window_of(model, workspace_id)?;
    act_on_workspace(model, drawn, workspace_id, action.as_str(), params)?;
    let mut fields = Fields::new();
    fields.put_window(model, window_id);
    fields.put_workspace(model, workspace_id);
    fields.put_text("action", action.as_str());
    Ok(fields.finish())
}

fn act_on_surface(model: &mut AppModel, surface_id: SurfaceId, action: &str, params: &Params) -> (result:
    Result<(), MethodError>)
    requires
        old(model)@.state.next_surface_title_number < usize::MAX,
    ensures
        final(model)@ == old(model)@.surface_acted(surface_id, action@, params::asked(params)).0,
        reply::found(result) == old(model)@.surface_acted(
            surface_id,
            action@,
            params::asked(params),
        ).1,
        final(model)@.palettes == old(model)@.palettes,
{
    if same_text(action, "rename") {
        match param_string(params, "title") {
            None => Err(MethodError::invalid("Missing title")),
            Some(title) => {
                or_invalid(model.state.rename_surface(surface_id, title))?;
                Ok(())
            },
        }
    } else if same_text(action, "clear_name") {
        match model.state.clear_surface_title(surface_id) {
            Ok(_) => Ok(()),
            Err(message) => Err(MethodError::invalid_params(message)),
        }
    } else if same_text(action, "mark_unread") {
        or_invalid(model.state.mark_surface_unread(surface_id))?;
        Ok(())
    } else if same_text(action, "mark_read") {
        or_invalid(model.state.mark_surface_read(surface_id))?;
        Ok(())
    } else {
        Err(MethodError::invalid_params(joined("unsupported surface action ", action)))
    }
}

fn tab_fields(
    model: &mut AppModel,
    window_id: WindowId,
    workspace_id: WorkspaceId,
    pane_id: PaneId,
    surface_id: SurfaceId,
) -> (fields: Fields)
    ensures
        (Reply { model: final(model)@, fields: fields@ }) == old(model)@.tab_reply(
            window_id,
            workspace_id,
            pane_id,
            surface_id,
        ),
{
    let mut fields = Fields::new();
    fields.put_window(model, window_id);
    fields.put_workspace(model, workspace_id);
    fields.put_pane(model, pane_id);
    fields.put_surface(model, surface_id);
    fields.put("tab_id", Value::id(surface_id));
    fields.put_tab_name(model, "tab_ref", surface_id);
    fields
}

fn surface_action_fields(model: &mut AppModel, params: &Params) -> (result: Result<
    Fields,
    MethodError,
>)
    requires
        old(model)@.state.next_surface_title_number < usize::MAX,
    ensures
        final(model)@ == old(model)@.surface_acting(params::asked(params)).0,
        match result {
            Ok(fields) => old(model)@.surface_acting(params::asked(params)).1 == Ok::<
                Reply,
                ErrorView,
            >(Reply { model: final(model)@, fields: fields@ }),
            Err(error) => old(model)@.surface_acting(params::asked(params)).1 == Err::<
                Reply,
                ErrorView,
            >(error@),
        },
        final(model)@.palettes == old(model)@.palettes,
{
    let surface_id = surface_target_id(model, params)?;
    let action: String = match param_string(params, "action") {
        Some(action) => action,
        None => {
            return Err(MethodError::invalid("Missing action"));
        },
    };
    let (workspace_id, pane_id): (WorkspaceId, PaneId) = match model.state.locate_surface(
        surface_id,
    ) {
        Some(place) => place,
        None => {
            return Err(MethodError::not_found("Surface not found"));
        },
    };
    let window_id = window_of(model, workspace_id)?;
    act_on_surface(model, surface_id, action.as_str(), params)?;
    let (title, unread, flash_count): (String, bool, u64) = match model.state.workspace(
        workspace_id,
    ) {
        None => {
            return Err(MethodError::not_found("Workspace not found"));
        },
        Some(workspace) => match workspace.surface(surface_id) {
            None => {
                return Err(MethodError::not_found("Surface not found"));
            },
            Some(surface) => (surface.title.clone(), surface.unread, surface.flash_count),
        },
    };
    let mut fields = tab_fields(model, window_id, workspace_id, pane_id, surface_id);
    fields.put_text("title", title.as_str());
    fields.put_flag("unread", unread);
    fields.put("flash_count", Value::number(flash_count));
    fields.put_text("action", action.as_str());
    Ok(fields)
}

/// Renames a surface, clears its name, or marks it as read or unread.
pub fn surface_action_payload(model: &mut AppModel, params: &Params) -> (result: MethodResult)
    requires
        old(model)@.state.next_surface_title_number < usize::MAX,
    ensures
        reply::answers(result, final(model)@, old(model)@.surface_action(params::asked(params))),
        final(model)@.palettes == old(model)@.palettes,
{
    let fields = surface_action_fields(model, params)?;
    Ok(fields.finish())
}

fn surface_params(params: &Params) -> (translated: Params)
    ensures
        params::asked(&translated) == about_surface(params::asked(params)),
{
    let mut translated = copy_entries(params);
    if entry_of(params, "surface_id").is_none() {
        if let Some(value) = entry_of(params, "tab_id") {
            let ghost content = value@;
            translated.push(("surface_id".to_owned(), value.copy()));
            proof {
                assert(json::entry_views(translated@) =~= json::entry_views(params@).push(
                    ("surface_id"@, content),
                ));
            }
        }
    }
    translated
}

fn tab_pinned_payload(model: &mut AppModel, params: &Params, action: &str) -> (result: MethodResult)
    ensures
        reply::answers(
            result,
            final(model)@,
            old(model)@.tab_pinned(params::asked(params), action@),
        ),
        final(model)@.palettes == old(model)@.palettes,
{
    let surface_id = surface_target_id(model, params)?;
    match model.state.locate_surface(surface_id) {
        None => Err(MethodError::not_found("Surface not found")),
        Some((workspace_id, pane_id)) => {
            let window_id = window_of(model, workspace_id)?;
            let mut fields = tab_fields(model, window_id, workspace_id, pane_id, surface_id);
            fields.put_flag("pinned", same_text(action, "pin"));
            fields.put_text("action", action);
            Ok(fields.finish())
        },
    }
}

/// Does with a tab what can be done with a surface; a tab can be pinned too, which is not noted.
pub fn tab_action_payload(model: &mut AppModel, params: &Params) -> (result: MethodResult)
    requires
        old(model)@.state.next_surface_title_number < usize::MAX,
    ensures
        reply::answers(result, final(model)@, old(model)@.tab_action(params::asked(params))),
        final(model)@.palettes == old(model)@.palettes,
{
    let translated = surface_params(params);
    let action: String = match param_string(&translated, "action") {
        Some(action) => action,
        None => {
            return Err(MethodError::invalid("Missing action"));
        },
    };
    if same_text(action.as_str(), "pin") || same_text(action.as_str(), "unpin") {
        return tab_pinned_payload(model, &translated, action.as_str());
    }
    let mut fields = surface_action_fields(model, &translated)?;
    fields.put_flag("pinned", false);
    Ok(fields.finish())
}

} // verus!
