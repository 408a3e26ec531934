//! What a request asks for: its parameters, and the objects they name.

use crate::ids;
use crate::ids::{PaneId, SurfaceId, WindowId, WorkspaceId, NIL};
use crate::json;
use crate::json::{entry_of, Number, Value, ValueView};
use crate::layout::SplitOrientation;
use crate::model::{AppModel, ModelView};
use crate::registry::HandleKind;
use crate::reply;
use crate::reply::{ErrorView, Fields, MethodError};
use crate::state::{AppState, StateView};
use crate::state_focus;
use crate::state_focus::place_of;
use crate::state_windows;
use crate::surface::{Pane, PaneView};
use crate::text;
use crate::text::{
    chars_of, joined, same_ignoring_case, same_text, to_lower, trim,
};
use crate::workspace;
use vstd::prelude::*;

verus! {

/// The parameters of a request.
pub type Params = Vec<(String, Value)>;

/// The contents of the parameters of a request.
pub type ParamsView = Seq<(Seq<char>, ValueView)>;

/// The contents of these parameters.
pub open spec fn asked(params: &Params) -> ParamsView {
    json::entry_views(params@)
}

// ---------------------------------------------------------------------------
// Plain parameters
// ---------------------------------------------------------------------------

/// The text of a parameter.
pub open spec fn raw_word(params: ParamsView, key: Seq<char>) -> Option<Seq<char>> {
    match json::entry(params, key) {
        Some(ValueView::Text(content)) => Some(content),
        _ => None,
    }
}

/// The text of a parameter without white space around it, unless nothing is left.
pub open spec fn word(params: ParamsView, key: Seq<char>) -> Option<Seq<char>> {
    match raw_word(params, key) {
        Some(content) => if text::trimmed(content).len() > 0 {
            Some(text::trimmed(content))
        } else {
            None
        },
        None => None,
    }
}

/// The truth value of a parameter, or `default`.
pub open spec fn flag(params: ParamsView, key: Seq<char>, default: bool) -> bool {
    match json::entry(params, key) {
        Some(ValueView::Bool(value)) => value,
        _ => default,
    }
}

/// The text of a parameter, or `default`.
pub open spec fn word_or(params: ParamsView, key: Seq<char>, default: Seq<char>) -> Seq<char> {
    match raw_word(params, key) {
        Some(content) => content,
        None => default,
    }
}

/// The value of a parameter, or null.
pub open spec fn value_or_null(params: ParamsView, key: Seq<char>) -> ValueView {
    match json::entry(params, key) {
        Some(value) => value,
        None => ValueView::Null,
    }
}

/// The text of a parameter without white space around it, if there is any; another kind of value is
/// an error.
pub open spec fn optional_word(params: ParamsView, key: Seq<char>) -> Result<
    Option<Seq<char>>,
    ErrorView,
> {
    match json::entry(params, key) {
        Some(ValueView::Text(content)) => Ok(
            if text::trimmed(content).len() > 0 {
                Some(text::trimmed(content))
            } else {
                None
            },
        ),
        Some(_) => Err(ErrorView::invalid_params(key + " must be a string"@)),
        None => Ok(None),
    }
}

/// The value of a decimal digit.
pub open spec fn digit_value(ch: char) -> Option<nat> {
    if '0' <= ch <= '9' {
        Some((ch as int - '0' as int) as nat)
    } else {
        None
    }
}

/// The number that the first `count` characters write in decimal, if each is a digit.
pub open spec fn digits_value(content: Seq<char>, count: int) -> Option<nat>
    decreases count,
{
    if count <= 0 {
        Some(0)
    } else {
        match (digits_value(content, count - 1), digit_value(content[count - 1])) {
            (Some(high), Some(low)) => Some(high * 10 + low),
            _ => None,
        }
    }
}

/// The number that a text writes in decimal: at least one digit, after a plus sign or none, and a
/// number that a machine word can hold.
pub open spec fn parsed_number(content: Seq<char>) -> Option<usize> {
    let digits = if content.len() > 1 && content[0] == '+' {
        content.skip(1)
    } else {
        content
    };
    if digits.len() == 0 {
        None
    } else {
        match digits_value(digits, digits.len() as int) {
            Some(number) => if number <= usize::MAX {
                Some(number as usize)
            } else {
                None
            },
            None => None,
        }
    }
}

/// The number of a parameter, which may be written as a text.
pub open spec fn number(params: ParamsView, key: Seq<char>) -> Result<Option<usize>, ErrorView> {
    let bad = ErrorView::invalid_params(key + " must be an integer"@);
    match json::entry(params, key) {
        None => Ok(None),
        Some(ValueView::Number(Number::Unsigned(value))) => Ok(Some(value as usize)),
        Some(ValueView::Text(content)) => match parsed_number(text::trimmed(content)) {
            Some(value) => Ok(Some(value)),
            None => Err(bad),
        },
        Some(_) => Err(bad),
    }
}

/// The direction of a split, and whether the new pane comes first.
pub open spec fn direction(params: ParamsView) -> Result<(SplitOrientation, bool), ErrorView> {
    let bad = ErrorView::invalid_params("Missing or invalid direction (left|right|up|down)"@);
    match word(params, "direction"@) {
        None => Err(bad),
        Some(content) => {
            let name = text::lowered(content);
            if name == "left"@ {
                Ok((SplitOrientation::Horizontal, true))
            } else if name == "right"@ {
                Ok((SplitOrientation::Horizontal, false))
            } else if name == "up"@ {
                Ok((SplitOrientation::Vertical, true))
            } else if name == "down"@ {
                Ok((SplitOrientation::Vertical, false))
            } else {
                Err(bad)
            }
        },
    }
}

/// Whether the kind of surface that is asked for, if one is, exists: only terminals do.
pub open spec fn terminal_type(params: ParamsView) -> Result<(), ErrorView> {
    match word(params, "type"@) {
        None => Ok(()),
        Some(name) => if text::lowered(name) == text::lowered("terminal"@) {
            Ok(())
        } else {
            Err(
                ErrorView {
                    code: "not_supported"@,
                    message: name + " surfaces are not supported on gtk4-libadwaita"@,
                    data: Some(
                        ValueView::Object(
                            reply::no_fields().push(("platform"@, ValueView::Text("linux"@))).push(
                                ("frontend"@, ValueView::Text("gtk4-libadwaita"@)),
                            ).push(("type"@, ValueView::Text(name))),
                        ),
                    ),
                },
            )
        },
    }
}

/// The text of a parameter.
pub fn raw_string_param(params: &Params, key: &str) -> (content: Option<String>)
    ensures
        text::opt_text(content) == raw_word(json::entry_views(params@), key@),
{
    match entry_of(params, key) {
        Some(value) => match value.as_str() {
            Some(content) => Some(content.to_owned()),
            None => None,
        },
        None => None,
    }
}

/// The text of a parameter without white space around it, unless nothing is left.
pub fn param_string(params: &Params, key: &str) -> (content: Option<String>)
    ensures
        text::opt_text(content) == word(json::entry_views(params@), key@),
{
    match raw_string_param(params, key) {
        Some(content) => {
            let trimmed = trim(content.as_str());
            if trimmed.as_str().is_empty() {
                None
            } else {
                Some(trimmed)
            }
        },
        None => None,
    }
}

/// The truth value of a parameter, or `default`.
pub fn param_flag(params: &Params, key: &str, default: bool) -> (value: bool)
    ensures
        value == flag(json::entry_views(params@), key@, default),
{
    match entry_of(params, key) {
        Some(value) => match value.as_bool() {
            Some(inner) => inner,
            None => default,
        },
        None => default,
    }
}

/// The text of a parameter, or `default`.
pub fn param_text(params: &Params, key: &str, default: &str) -> (content: String)
    ensures
        content@ == word_or(json::entry_views(params@), key@, default@),
{
    match raw_string_param(params, key) {
        Some(content) => content,
        None => default.to_owned(),
    }
}

/// The value of a parameter, or null.
pub fn param_value(params: &Params, key: &str) -> (value: Value)
    ensures
        value@ == value_or_null(json::entry_views(params@), key@),
{
    match entry_of(params, key) {
        Some(value) => value.copy(),
        None => Value::Null,
    }
}

/// The contents of an optional text that may be an error.
pub open spec fn opt_word_result(result: Result<Option<String>, MethodError>) -> Result<
    Option<Seq<char>>,
    ErrorView,
> {
    match result {
        Ok(content) => Ok(text::opt_text(content)),
        Err(error) => Err(error@),
    }
}

/// The text of a parameter without white space around it, if there is any.
pub fn optional_string_param(params: &Params, key: &str) -> (result: Result<
    Option<String>,
    MethodError,
>)
    ensures
        opt_word_result(result) == optional_word(json::entry_views(params@), key@),
{
    match entry_of(params, key) {
        Some(value) => match value.as_str() {
            Some(content) => {
                let trimmed = trim(content);
                if trimmed.as_str().is_empty() {
                    Ok(None)
                } else {
                    Ok(Some(trimmed))
                }
            },
            None => Err(MethodError::invalid_params(joined(key, " must be a string"))),
        },
        None => Ok(None),
    }
}

fn digit_of(ch: char) -> (value: Option<u64>)
    ensures
        match value {
            Some(inner) => inner < 10 && digit_value(ch) == Some(inner as nat),
            None => digit_value(ch) is None,
        },
{
    if '0' <= ch && ch <= '9' {
        Some((ch as u64) - 48)
    } else {
        None
    }
}

proof fn lemma_digits_none(content: Seq<char>, low: int, high: int)
    requires
        0 <= low <= high,
        digits_value(content, low) is None,
    ensures
        digits_value(content, high) is None,
    decreases high - low,
{
    if low < high {
        lemma_digits_none(content, low, high - 1);
    }
}

proof fn lemma_digits_grow(content: Seq<char>, low: int, high: int)
    requires
        0 <= low <= high,
        digits_value(content, high) is Some,
    ensures
        digits_value(content, low) is Some,
        digits_value(content, low)->0 <= digits_value(content, high)->0,
    decreases high - low,
{
    if low < high {
        lemma_digits_grow(content, low, high - 1);
    }
}

/// Reads a number that is written in decimal.
pub fn parse_number(content: &str) -> (result: Option<usize>)
    ensures
        result == parsed_number(content@),
{
    let chars = chars_of(content);
    let from: usize = if chars.len() > 1 && chars[0] == '+' {
        1
    } else {
        0
    };
    let ghost digits = if content@.len() > 1 && content@[0] == '+' {
        content@.skip(1)
    } else {
        content@
    };
    if from >= chars.len() {
        return None;
    }
    let mut number: usize = 0;
    let mut at: usize = from;
    while at < chars.len()
        invariant
            from <= at <= chars@.len(),
            from == 0 || from == 1,
            chars@ == content@,
            digits.len() == chars@.len() - from,
            forall|k: int| 0 <= k < digits.len() ==> digits[k] == chars@[k + from],
            digits == (if content@.len() > 1 && content@[0] == '+' {
                content@.skip(1)
            } else {
                content@
            }),
            digits.len() > 0,
            digits_value(digits, at - from) == Some(number as nat),
        decreases chars@.len() - at,
    {
        let ghost done = at - from;
        let low: u64 = match digit_of(chars[at]) {
            Some(value) => value,
            None => {
                proof {
                    assert(digits[done] == chars@[at as int]);
                    assert(digits_value(digits, done + 1) is None);
                    lemma_digits_none(digits, done + 1, digits.len() as int);
                }
                return None;
            },
        };
        let whole: u128 = (number as u128) * 10 + (low as u128);
        proof {
            assert(digits[done] == chars@[at as int]);
            assert(digits_value(digits, done + 1) == Some(whole as nat));
        }
        if whole > usize::MAX as u128 {
            proof {
                if digits_value(digits, digits.len() as int) is Some {
                    lemma_digits_grow(digits, done + 1, digits.len() as int);
                }
            }
            return None;
        }
        number = whole as usize;
        at = at + 1;
    }
    Some(number)
}

/// The number of a parameter, which may be written as a text.
pub fn param_usize(params: &Params, key: &str) -> (result: Result<Option<usize>, MethodError>)
    ensures
        reply::found(result) == number(json::entry_views(params@), key@),
{
    match entry_of(params, key) {
        None => Ok(None),
        Some(value) => {
            if let Some(inner) = value.as_u64() {
                return Ok(Some(inner as usize));
            }
            if let Some(content) = value.as_str() {
                return match parse_number(trim(content).as_str()) {
                    Some(inner) => Ok(Some(inner)),
                    None => Err(MethodError::invalid_params(joined(key, " must be an integer"))),
                };
            }
            Err(MethodError::invalid_params(joined(key, " must be an integer")))
        },
    }
}

/// The direction of a split, and whether the new pane comes first.
pub fn parse_direction(params: &Params) -> (result: Result<(SplitOrientation, bool), MethodError>)
    ensures
        reply::found(result) == direction(json::entry_views(params@)),
{
    match param_string(params, "direction") {
        None => Err(MethodError::invalid("Missing or invalid direction (left|right|up|down)")),
        Some(content) => {
            let name = to_lower(content.as_str());
            if same_text(name.as_str(), "left") {
                Ok((SplitOrientation::Horizontal, true))
            } else if same_text(name.as_str(), "right") {
                Ok((SplitOrientation::Horizontal, false))
            } else if same_text(name.as_str(), "up") {
                Ok((SplitOrientation::Vertical, true))
            } else if same_text(name.as_str(), "down") {
                Ok((SplitOrientation::Vertical, false))
            } else {
                Err(MethodError::invalid("Missing or invalid direction (left|right|up|down)"))
            }
        },
    }
}

/// Checks that the kind of surface that is asked for exists.
pub fn ensure_terminal_type_supported(params: &Params) -> (result: Result<(), MethodError>)
    ensures
        reply::found(result) == terminal_type(json::entry_views(params@)),
{
    match param_string(params, "type") {
        None => Ok(()),
        Some(name) => {
            if same_ignoring_case(name.as_str(), "terminal") {
                return Ok(());
            }
            let mut data = Fields::new();
            data.put_text("platform", "linux");
            data.put_text("frontend", "gtk4-libadwaita");
            data.put_text("type", name.as_str());
            Err(
                MethodError::new(
                    "not_supported",
                    joined(name.as_str(), " surfaces are not supported on gtk4-libadwaita"),
                    Some(data.finish()),
                ),
            )
        },
    }
}

// ---------------------------------------------------------------------------
// Objects
// ---------------------------------------------------------------------------

/// A search for an object, and the model after it.
pub type Search<T> = (ModelView, Result<T, ErrorView>);

/// The error for a parameter that names no object.
pub open spec fn bad_key(key: Seq<char>) -> ErrorView {
    ErrorView::invalid_params("Missing or invalid "@ + key)
}

/// The object that a parameter must name.
pub open spec fn required(
    model: ModelView,
    params: ParamsView,
    kind: HandleKind,
    key: Seq<char>,
) -> Search<u128> {
    match word(params, key) {
        None => (model, Err(bad_key(key))),
        Some(raw) => match model.resolve(kind, raw) {
            (next, Some(id)) => (next, Ok(id)),
            (next, None) => (next, Err(bad_key(key))),
        },
    }
}

/// The object that a parameter may name.
pub open spec fn optional(
    model: ModelView,
    params: ParamsView,
    kind: HandleKind,
    key: Seq<char>,
) -> Search<Option<u128>> {
    if word(params, key) is None {
        (model, Ok(None))
    } else {
        match required(model, params, kind, key) {
            (next, Ok(id)) => (next, Ok(Some(id))),
            (next, Err(error)) => (next, Err(error)),
        }
    }
}

/// The window that a request is about: the one that it names, or the current one.
pub open spec fn window_target(model: ModelView, params: ParamsView) -> Search<WindowId> {
    if word(params, "window_id"@) is Some {
        match required(model, params, HandleKind::Window, "window_id"@) {
            (next, Err(error)) => (next, Err(error)),
            (next, Ok(id)) => if next.state.window_at(id) is None {
                (next, Err(ErrorView::not_found_id("Window not found"@, "window_id"@, id)))
            } else {
                (next, Ok(id))
            },
        }
    } else if model.state.window_id == NIL || model.state.window_at(model.state.window_id) is None {
        (model, Err(ErrorView::not_found("No window selected"@)))
    } else {
        (model, Ok(model.state.window_id))
    }
}

/// The workspace that a request is about: the one that it names, or the one that its window shows.
pub open spec fn workspace_target(model: ModelView, params: ParamsView) -> Search<WorkspaceId> {
    if word(params, "workspace_id"@) is Some {
        match required(model, params, HandleKind::Workspace, "workspace_id"@) {
            (next, Err(error)) => (next, Err(error)),
            (next, Ok(id)) => if next.state.workspace_at(id) is None {
                (
                    next,
                    Err(ErrorView::not_found_id("Workspace not found"@, "workspace_id"@, id)),
                )
            } else {
                (next, Ok(id))
            },
        }
    } else {
        match window_target(model, params) {
            (next, Err(error)) => (next, Err(error)),
            (next, Ok(window_id)) => match next.shown_workspace(window_id) {
                None => (next, Err(ErrorView::not_found("No workspace selected"@))),
                Some(id) => (next, Ok(id)),
            },
        }
    }
}

/// The surface that a request is about: the one that it names, or the selected one of its
/// workspace.
pub open spec fn surface_target(model: ModelView, params: ParamsView) -> Search<SurfaceId> {
    if word(params, "surface_id"@) is Some {
        required(model, params, HandleKind::Surface, "surface_id"@)
    } else {
        match workspace_target(model, params) {
            (next, Err(error)) => (next, Err(error)),
            (next, Ok(workspace_id)) => match next.selected_surface(workspace_id) {
                None => (next, Err(ErrorView::not_found("No focused surface"@))),
                Some(id) => (next, Ok(id)),
            },
        }
    }
}

impl ModelView {
    /// The workspace that a window shows.
    pub open spec fn shown_workspace(self, window_id: WindowId) -> Option<WorkspaceId> {
        match self.state.window(window_id) {
            Some(window) => ids::non_nil(window.selected_workspace_id),
            None => None,
        }
    }

    /// The selected surface of a workspace.
    pub open spec fn selected_surface(self, workspace_id: WorkspaceId) -> Option<SurfaceId> {
        match self.state.workspace(workspace_id) {
            Some(workspace) => workspace.selected_surface_id(),
            None => None,
        }
    }

    /// The selected surface of the workspace that a window shows.
    pub open spec fn shown_surface(self, window_id: WindowId) -> Option<SurfaceId> {
        match self.shown_workspace(window_id) {
            Some(workspace_id) => self.selected_surface(workspace_id),
            None => None,
        }
    }

    /// The window that holds a workspace.
    pub open spec fn window_of(self, workspace_id: WorkspaceId) -> Result<WindowId, ErrorView> {
        match self.state.workspace_window_id(workspace_id) {
            Some(window_id) => Ok(window_id),
            None => Err(ErrorView::not_found("Workspace not found"@)),
        }
    }
}

fn bad_param(key: &str) -> (error: MethodError)
    ensures
        error@ == bad_key(key@),
{
    MethodError::invalid_params(joined("Missing or invalid ", key))
}

/// The object that a parameter must name.
pub fn require_id(model: &mut AppModel, params: &Params, kind: HandleKind, key: &str) -> (result:
    Result<u128, MethodError>)
    ensures
        final(model)@ == required(old(model)@, json::entry_views(params@), kind, key@).0,
        reply::found(result) == required(old(model)@, json::entry_views(params@), kind, key@).1,
{
    match param_string(params, key) {
        None => Err(bad_param(key)),
        Some(raw) => match model.resolve_id(kind, raw.as_str()) {
            Some(id) => Ok(id),
            None => Err(bad_param(key)),
        },
    }
}

/// The object that a parameter may name.
pub fn optional_id(model: &mut AppModel, params: &Params, kind: HandleKind, key: &str) -> (result:
    Result<Option<u128>, MethodError>)
    ensures
        final(model)@ == optional(old(model)@, json::entry_views(params@), kind, key@).0,
        reply::found(result) == optional(old(model)@, json::entry_views(params@), kind, key@).1,
{
    if param_string(params, key).is_none() {
        return Ok(None);
    }
    match require_id(model, params, kind, key) {
        Ok(id) => Ok(Some(id)),
        Err(error) => Err(error),
    }
}

/// The window that a parameter must name.
pub fn require_window_id(model: &mut AppModel, params: &Params, key: &str) -> (result: Result<
    WindowId,
    MethodError,
>)
    ensures
        final(model)@ == required(
            old(model)@,
            json::entry_views(params@),
            HandleKind::Window,
            key@,
        ).0,
        reply::found(result) == required(
            old(model)@,
            json::entry_views(params@),
            HandleKind::Window,
            key@,
        ).1,
{
    require_id(model, params, HandleKind::Window, key)
}

/// The workspace that a parameter must name.
pub fn require_workspace_id(model: &mut AppModel, params: &Params, key: &str) -> (result: Result<
    WorkspaceId,
    MethodError,
>)
    ensures
        final(model)@ == required(
            old(model)@,
            json::entry_views(params@),
            HandleKind::Workspace,
            key@,
        ).0,
        reply::found(result) == required(
            old(model)@,
            json::entry_views(params@),
            HandleKind::Workspace,
            key@,
        ).1,
{
    require_id(model, params, HandleKind::Workspace, key)
}

/// The pane that a parameter must name.
pub fn require_pane_id(model: &mut AppModel, params: &Params, key: &str) -> (result: Result<
    PaneId,
    MethodError,
>)
    ensures
        final(model)@ == required(
            old(model)@,
            json::entry_views(params@),
            HandleKind::Pane,
            key@,
        ).0,
        reply::found(result) == required(
            old(model)@,
            json::entry_views(params@),
            HandleKind::Pane,
            key@,
        ).1,
{
    require_id(model, params, HandleKind::Pane, key)
}

/// The surface that a parameter must name.
pub fn require_surface_id(model: &mut AppModel, params: &Params, key: &str) -> (result: Result<
    SurfaceId,
    MethodError,
>)
    ensures
        final(model)@ == required(
            old(model)@,
            json::entry_views(params@),
            HandleKind::Surface,
            key@,
        ).0,
        reply::found(result) == required(
            old(model)@,
            json::entry_views(params@),
            HandleKind::Surface,
            key@,
        ).1,
{
    require_id(model, params, HandleKind::Surface, key)
}

/// The workspace that a parameter may name.
pub fn optional_workspace_id(model: &mut AppModel, params: &Params, key: &str) -> (result: Result<
    Option<WorkspaceId>,
    MethodError,
>)
    ensures
        final(model)@ == optional(
            old(model)@,
            json::entry_views(params@),
            HandleKind::Workspace,
            key@,
        ).0,
        reply::found(result) == optional(
            old(model)@,
            json::entry_views(params@),
            HandleKind::Workspace,
            key@,
        ).1,
{
    optional_id(model, params, HandleKind::Workspace, key)
}

/// The surface that a parameter may name.
pub fn optional_surface_id(model: &mut AppModel, params: &Params, key: &str) -> (result: Result<
    Option<SurfaceId>,
    MethodError,
>)
    ensures
        final(model)@ == optional(
            old(model)@,
            json::entry_views(params@),
            HandleKind::Surface,
            key@,
        ).0,
        reply::found(result) == optional(
            old(model)@,
            json::entry_views(params@),
            HandleKind::Surface,
            key@,
        ).1,
{
    optional_id(model, params, HandleKind::Surface, key)
}

/// The window that a request is about.
pub fn window_target_id(model: &mut AppModel, params: &Params) -> (result: Result<
    WindowId,
    MethodError,
>)
    ensures
        final(model)@ == window_target(old(model)@, json::entry_views(params@)).0,
        reply::found(result) == window_target(old(model)@, json::entry_views(params@)).1,
{
    if param_string(params, "window_id").is_some() {
        let window_id = require_window_id(model, params, "window_id")?;
        if model.state.window_index(window_id).is_none() {
            return Err(
                MethodError::not_found_id("Window not found".to_owned(), "window_id", window_id),
            );
        }
        return Ok(window_id);
    }
    let window_id = model.state.window_id;
    if window_id == NIL || model.state.window_index(window_id).is_none() {
        return Err(MethodError::not_found("No window selected"));
    }
    Ok(window_id)
}

/// The workspace that a request is about.
pub fn workspace_target_id(model: &mut AppModel, params: &Params) -> (result: Result<
    WorkspaceId,
    MethodError,
>)
    ensures
        final(model)@ == workspace_target(old(model)@, json::entry_views(params@)).0,
        reply::found(result) == workspace_target(old(model)@, json::entry_views(params@)).1,
{
    if param_string(params, "workspace_id").is_some() {
        let workspace_id = require_workspace_id(model, params, "workspace_id")?;
        if model.state.workspace_index(workspace_id).is_none() {
            return Err(
                MethodError::not_found_id(
                    "Workspace not found".to_owned(),
                    "workspace_id",
                    workspace_id,
                ),
            );
        }
        return Ok(workspace_id);
    }
    let window_id = window_target_id(model, params)?;
    match current_window_workspace_id(model, window_id) {
        Some(workspace_id) => Ok(workspace_id),
        None => Err(MethodError::not_found("No workspace selected")),
    }
}

/// The surface that a request is about.
pub fn surface_target_id(model: &mut AppModel, params: &Params) -> (result: Result<
    SurfaceId,
    MethodError,
>)
    ensures
        final(model)@ == surface_target(old(model)@, json::entry_views(params@)).0,
        reply::found(result) == surface_target(old(model)@, json::entry_views(params@)).1,
{
    if param_string(params, "surface_id").is_some() {
        return require_surface_id(model, params, "surface_id");
    }
    let workspace_id = workspace_target_id(model, params)?;
    match workspace_surface_id(model, workspace_id) {
        Some(surface_id) => Ok(surface_id),
        None => Err(MethodError::not_found("No focused surface")),
    }
}

/// The selected surface of a workspace.
pub fn workspace_surface_id(model: &AppModel, workspace_id: WorkspaceId) -> (found: Option<
    SurfaceId,
>)
    ensures
        found == model@.selected_surface(workspace_id),
{
    match model.state.workspace(workspace_id) {
        Some(workspace) => workspace.selected_surface_id(),
        None => None,
    }
}

/// The workspace that a window shows.
pub fn current_window_workspace_id(model: &AppModel, window_id: WindowId) -> (found: Option<
    WorkspaceId,
>)
    ensures
        found == model@.shown_workspace(window_id),
{
    match model.state.window(window_id) {
        Some(window) => ids::unless_nil(window.selected_workspace_id),
        None => None,
    }
}

/// The selected surface of the workspace that a window shows.
pub fn current_window_surface_id(model: &AppModel, window_id: WindowId) -> (found: Option<
    SurfaceId,
>)
    ensures
        found == model@.shown_surface(window_id),
{
    match current_window_workspace_id(model, window_id) {
        Some(workspace_id) => workspace_surface_id(model, workspace_id),
        None => None,
    }
}

/// The window that holds a workspace.
pub fn window_of(model: &AppModel, workspace_id: WorkspaceId) -> (result: Result<
    WindowId,
    MethodError,
>)
    ensures
        reply::found(result) == model@.window_of(workspace_id),
{
    match model.state.workspace_window_id(workspace_id) {
        Some(window_id) => Ok(window_id),
        None => Err(MethodError::not_found("Workspace not found")),
    }
}

/// A place in a list that a request asks for, and in how many ways it does: by its number, or as
/// the place before or after one of the list.
#[verifier::ext_equal]
pub struct AskedPlace {
    /// In how many ways.
    pub ways: int,
    /// The place.
    pub place: int,
}

/// The place in `list` that a request asks for by its number, at most the end of the list.
pub open spec fn numbered_place(params: ParamsView, list: Seq<u128>) -> Result<
    AskedPlace,
    ErrorView,
> {
    match number(params, "index"@) {
        Err(error) => Err(error),
        Ok(None) => Ok(AskedPlace { ways: 0, place: list.len() as int }),
        Ok(Some(index)) => Ok(
            AskedPlace {
                ways: 1,
                place: if index < list.len() {
                    index as int
                } else {
                    list.len() as int
                },
            },
        ),
    }
}

/// The place next to the object that a parameter names, if it names one.
pub open spec fn place_beside(
    model: ModelView,
    params: ParamsView,
    list: Seq<u128>,
    kind: HandleKind,
    key: Seq<char>,
    offset: int,
    before: AskedPlace,
) -> Search<AskedPlace> {
    match optional(model, params, kind, key) {
        (next, Err(error)) => (next, Err(error)),
        (next, Ok(None)) => (next, Ok(before)),
        (next, Ok(Some(id))) => match state_focus::place_from(list, id, 0) {
            None => (next, Err(ErrorView::not_found(key + " not found"@))),
            Some(at) => (next, Ok(AskedPlace { ways: before.ways + 1, place: at + offset })),
        },
    }
}

/// The place in `list` that a request asks for. The last way counts.
pub open spec fn asked_place(
    model: ModelView,
    params: ParamsView,
    list: Seq<u128>,
    kind: HandleKind,
    before_key: Seq<char>,
    after_key: Seq<char>,
) -> Search<AskedPlace> {
    match numbered_place(params, list) {
        Err(error) => (model, Err(error)),
        Ok(first) => match place_beside(model, params, list, kind, before_key, 0, first) {
            (next, Err(error)) => (next, Err(error)),
            (next, Ok(second)) => place_beside(next, params, list, kind, after_key, 1, second),
        },
    }
}

/// The place that a workspace is to have among the others of a window. It must be asked for in
/// exactly one way.
pub open spec fn workspace_place(
    model: ModelView,
    workspace_id: WorkspaceId,
    window_id: WindowId,
    params: ParamsView,
) -> Search<int> {
    let all = model.state.workspace_ids_in(window_id);
    let list = state_windows::others(all, workspace_id, all.len() as int);
    match asked_place(
        model,
        params,
        list,
        HandleKind::Workspace,
        "before_workspace_id"@,
        "after_workspace_id"@,
    ) {
        (next, Err(error)) => (next, Err(error)),
        (next, Ok(asked)) => if asked.ways != 1 {
            (
                next,
                Err(
                    ErrorView::invalid_params(
                        "workspace.reorder requires exactly one target: index|before_workspace_id|after_workspace_id"@,
                    ),
                ),
            )
        } else {
            (next, Ok(asked.place))
        },
    }
}

/// The identifiers of the surfaces of a pane.
pub open spec fn surface_ids(pane: PaneView) -> Seq<SurfaceId> {
    Seq::new(pane.surfaces.len(), |at: int| pane.surfaces[at].id)
}

/// The place that a surface is to have among the others of a pane: the last one, unless it is asked
/// for in exactly one way.
pub open spec fn surface_place(
    model: ModelView,
    surface_id: SurfaceId,
    pane_id: PaneId,
    params: ParamsView,
) -> Search<int> {
    match model.state.owned_pane(pane_id) {
        None => (model, Err(ErrorView::not_found("Pane not found"@))),
        Some(pane) => {
            let all = surface_ids(pane);
            let list = state_windows::others(all, surface_id, all.len() as int);
            match asked_place(
                model,
                params,
                list,
                HandleKind::Surface,
                "before_surface_id"@,
                "after_surface_id"@,
            ) {
                (next, Err(error)) => (next, Err(error)),
                (next, Ok(asked)) => if asked.ways == 0 {
                    (next, Ok(list.len() as int))
                } else if asked.ways != 1 {
                    (
                        next,
                        Err(
                            ErrorView::invalid_params(
                                "surface.move/reorder requires exactly one target: index|before_surface_id|after_surface_id"@,
                            ),
                        ),
                    )
                } else {
                    (next, Ok(asked.place))
                },
            }
        },
    }
}

impl StateView {
    /// The pane with this identifier, in whichever workspace.
    pub open spec fn owned_pane(self, pane_id: PaneId) -> Option<PaneView> {
        match self.owner(pane_id) {
            Some(at) => self.workspaces[at].pane(pane_id),
            None => None,
        }
    }

    /// The workspace that holds a pane.
    pub open spec fn owner_id(self, pane_id: PaneId) -> Option<WorkspaceId> {
        match self.owner(pane_id) {
            Some(at) => Some(self.workspaces[at].id),
            None => None,
        }
    }
}

/// The pane with this identifier, in whichever workspace.
pub fn owned_pane(state: &AppState, pane_id: PaneId) -> (pane: Option<&Pane>)
    ensures
        workspace::opt_pane(pane) == state@.owned_pane(pane_id),
{
    match state.owner_index(pane_id) {
        Some(at) => state.workspaces[at].pane(pane_id),
        None => None,
    }
}

/// The workspace that holds a pane.
pub fn owner_id(state: &AppState, pane_id: PaneId) -> (found: Option<WorkspaceId>)
    ensures
        found == state@.owner_id(pane_id),
{
    match state.owner_index(pane_id) {
        Some(at) => Some(state.workspaces[at].id),
        None => None,
    }
}

/// The identifiers of the surfaces of a pane.
pub fn pane_surface_ids(pane: &Pane) -> (list: Vec<SurfaceId>)
    ensures
        list@ == surface_ids(pane@),
{
    let mut list: Vec<SurfaceId> = Vec::new();
    let mut at: usize = 0;
    while at < pane.surfaces.len()
        invariant
            at <= pane.surfaces@.len(),
            list@.len() == at,
            forall|k: int| 0 <= k < at ==> list@[k] == pane@.surfaces[k].id,
        decreases pane.surfaces@.len() - at,
    {
        list.push(pane.surfaces[at].id);
        at = at + 1;
    }
    proof {
        assert(list@ =~= surface_ids(pane@));
    }
    list
}

/// The place next to the object that a parameter names, if it names one.
fn find_beside(
    model: &mut AppModel,
    params: &Params,
    list: &Vec<u128>,
    kind: HandleKind,
    key: &str,
    after: bool,
    ways: usize,
    place: usize,
) -> (result: Result<(usize, usize), MethodError>)
    requires
        ways < 3,
        place <= list@.len(),
    ensures
        final(model)@ == place_beside(
            old(model)@,
            asked(params),
            list@,
            kind,
            key@,
            if after {
                1
            } else {
                0
            },
            AskedPlace { ways: ways as int, place: place as int },
        ).0,
        final(model)@.state == old(model)@.state,
        final(model)@.palettes == old(model)@.palettes,
        match place_beside(
            old(model)@,
            asked(params),
            list@,
            kind,
            key@,
            if after {
                1
            } else {
                0
            },
            AskedPlace { ways: ways as int, place: place as int },
        ).1 {
            Ok(found) => match result {
                Ok((count, at)) => count == found.ways && at == found.place && count <= ways + 1
                    && at <= list@.len(),
                Err(_) => false,
            },
            Err(error) => match result {
                Ok(_) => false,
                Err(inner) => inner@ == error,
            },
        },
{
    proof {
        assert(list.len() == list@.len());
    }
    match optional_id(model, params, kind, key)? {
        None => Ok((ways, place)),
        Some(id) => match place_of(list, id) {
            None => Err(MethodError::new("not_found", joined(key, " not found"), None)),
            Some(at) => if after {
                Ok((ways + 1, at + 1))
            } else {
                Ok((ways + 1, at))
            },
        },
    }
}

/// The place in a list that a request asks for, and in how many ways it does.
fn find_place(
    model: &mut AppModel,
    params: &Params,
    list: &Vec<u128>,
    kind: HandleKind,
    before_key: &str,
    after_key: &str,
) -> (result: Result<(usize, usize), MethodError>)
    ensures
        final(model)@ == asked_place(
            old(model)@,
            asked(params),
            list@,
            kind,
            before_key@,
            after_key@,
        ).0,
        final(model)@.state == old(model)@.state,
        final(model)@.palettes == old(model)@.palettes,
        match asked_place(
            old(model)@,
            asked(params),
            list@,
            kind,
            before_key@,
            after_key@,
        ).1 {
            Ok(found) => match result {
                Ok((count, at)) => count == found.ways && at == found.place,
                Err(_) => false,
            },
            Err(error) => match result {
                Ok(_) => false,
                Err(inner) => inner@ == error,
            },
        },
{
    let (ways, place): (usize, usize) = match param_usize(params, "index")? {
        None => (0, list.len()),
        Some(index) => if index < list.len() {
            (1, index)
        } else {
            (1, list.len())
        },
    };
    let (more, nearer) = find_beside(model, params, list, kind, before_key, false, ways, place)?;
    find_beside(model, params, list, kind, after_key, true, more, nearer)
}

/// The contents of a place that may be an error.
pub open spec fn place_result(result: Result<usize, MethodError>) -> Result<int, ErrorView> {
    match result {
        Ok(place) => Ok(place as int),
        Err(error) => Err(error@),
    }
}

/// The place that a workspace is to have among the others of a window.
pub fn workspace_target_index(
    model: &mut AppModel,
    workspace_id: WorkspaceId,
    window_id: WindowId,
    params: &Params,
) -> (result: Result<usize, MethodError>)
    ensures
        final(model)@ == workspace_place(old(model)@, workspace_id, window_id, asked(params)).0,
        place_result(result) == workspace_place(
            old(model)@,
            workspace_id,
            window_id,
            asked(params),
        ).1,
        final(model)@.state == old(model)@.state,
        final(model)@.palettes == old(model)@.palettes,
{
    let all = model.state.workspace_ids_in(window_id);
    let list = AppState::other_ids(&all, workspace_id);
    let (ways, place) = find_place(
        model,
        params,
        &list,
        HandleKind::Workspace,
        "before_workspace_id",
        "after_workspace_id",
    )?;
    if ways != 1 {
        return Err(
            MethodError::invalid(
                "workspace.reorder requires exactly one target: index|before_workspace_id|after_workspace_id",
            ),
        );
    }
    Ok(place)
}

/// The place that a surface is to have among the others of a pane.
pub fn surface_target_index(
    model: &mut AppModel,
    surface_id: SurfaceId,
    pane_id: PaneId,
    params: &Params,
) -> (result: Result<usize, MethodError>)
    ensures
        final(model)@ == surface_place(old(model)@, surface_id, pane_id, asked(params)).0,
        place_result(result) == surface_place(
            old(model)@,
            surface_id,
            pane_id,
            asked(params),
        ).1,
        final(model)@.state == old(model)@.state,
        final(model)@.palettes == old(model)@.palettes,
{
    let all: Vec<SurfaceId> = match owned_pane(&model.state, pane_id) {
        None => {
            return Err(MethodError::not_found("Pane not found"));
        },
        Some(pane) => pane_surface_ids(pane),
    };
    let list = AppState::other_ids(&all, surface_id);
    let (ways, place) = find_place(
        model,
        params,
        &list,
        HandleKind::Surface,
        "before_surface_id",
        "after_surface_id",
    )?;
    if ways == 0 {
        return Ok(list.len());
    }
    if ways != 1 {
        return Err(
            MethodError::invalid(
                "surface.move/reorder requires exactly one target: index|before_surface_id|after_surface_id",
            ),
        );
    }
    Ok(place)
}

} // verus!
