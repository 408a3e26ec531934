//! Answers of the control protocol.

use crate::ids::{PaneId, SurfaceId, WindowId, WorkspaceId};
use crate::json;
use crate::json::{entry_index, Value, ValueView};
use crate::methods;
use crate::model::{AppModel, ModelView};
use crate::registry::HandleKind;
use crate::state::StateView;
use crate::text;
use vstd::prelude::*;

verus! {

/// Why a method failed.
#[derive(Debug)]
pub struct MethodError {
    /// The kind of failure.
    pub code: &'static str,
    /// What happened.
    pub message: String,
    /// What it happened to.
    pub data: Option<Value>,
}

/// The contents of a [`MethodError`].
#[verifier::ext_equal]
pub struct ErrorView {
    /// See [`MethodError::code`].
    pub code: Seq<char>,
    /// See [`MethodError::message`].
    pub message: Seq<char>,
    /// See [`MethodError::data`].
    pub data: Option<ValueView>,
}

impl View for MethodError {
    type V = ErrorView;

    open spec fn view(&self) -> ErrorView {
        ErrorView {
            code: self.code@,
            message: self.message@,
            data: match self.data {
                Some(value) => Some(value@),
                None => None,
            },
        }
    }
}

/// What a method gives.
pub type MethodResult = Result<Value, MethodError>;

/// The contents of what a method gives, and the model after it.
pub type Outcome = (ModelView, Result<ValueView, ErrorView>);

/// The contents of what a method gives.
pub open spec fn outcome(result: MethodResult) -> Result<ValueView, ErrorView> {
    match result {
        Ok(value) => Ok(value@),
        Err(error) => Err(error@),
    }
}

/// A result that may be an error, with the error taken by its contents.
pub open spec fn found<T>(result: Result<T, MethodError>) -> Result<T, ErrorView> {
    match result {
        Ok(value) => Ok(value),
        Err(error) => Err(error@),
    }
}

/// The result is the expected one, and so is the model after it.
pub open spec fn answers(result: MethodResult, after: ModelView, expected: Outcome) -> bool {
    &&& after == expected.0
    &&& outcome(result) == expected.1
}

impl ModelView {
    /// A change of the state that may fail for a reason inside.
    pub open spec fn internal<T>(self, change: (StateView, Result<T, Seq<char>>)) -> (
        ModelView,
        Result<T, ErrorView>,
    ) {
        (
            self.with_state(change.0),
            match change.1 {
                Ok(value) => Ok(value),
                Err(message) => Err(ErrorView::internal_error(message)),
            },
        )
    }

    /// A change of the state that may fail for what was asked.
    pub open spec fn invalid<T>(self, change: (StateView, Result<T, Seq<char>>)) -> (
        ModelView,
        Result<T, ErrorView>,
    ) {
        (
            self.with_state(change.0),
            match change.1 {
                Ok(value) => Ok(value),
                Err(message) => Err(ErrorView::invalid_params(message)),
            },
        )
    }
}

impl ModelView {
    /// A change of the state that may fail because something does not exist.
    pub open spec fn missing<T>(
        self,
        change: (StateView, Result<T, Seq<char>>),
        key: Seq<char>,
        id: u128,
    ) -> (ModelView, Result<T, ErrorView>) {
        (
            self.with_state(change.0),
            match change.1 {
                Ok(value) => Ok(value),
                Err(message) => Err(ErrorView::not_found_id(message, key, id)),
            },
        )
    }

    /// Where something happened: the window that holds the workspace, the workspace, and the pane
    /// and the surface, if they are told.
    pub open spec fn told(
        self,
        workspace_id: WorkspaceId,
        pane_id: Option<PaneId>,
        surface_id: Option<SurfaceId>,
    ) -> Result<Reply, ErrorView> {
        match self.state.workspace_window_id(workspace_id) {
            None => Err(ErrorView::not_found("Workspace not found"@)),
            Some(window_id) => {
                let outer = Reply::of(self).window(window_id).workspace(workspace_id);
                let inner = match pane_id {
                    Some(id) => outer.pane(id),
                    None => outer,
                };
                Ok(
                    match surface_id {
                        Some(id) => inner.surface(id),
                        None => inner,
                    },
                )
            },
        }
    }

    /// The finished answer, or the error.
    pub open spec fn finished(self, reply: Result<Reply, ErrorView>) -> Outcome {
        match reply {
            Ok(inner) => inner.done(),
            Err(error) => (self, Err(error)),
        }
    }
}

/// Tells where something happened.
pub fn tell(
    model: &mut AppModel,
    workspace_id: WorkspaceId,
    pane_id: Option<PaneId>,
    surface_id: Option<SurfaceId>,
) -> (result: Result<Fields, MethodError>)
    ensures
        match result {
            Ok(fields) => old(model)@.told(workspace_id, pane_id, surface_id) == Ok::<
                Reply,
                ErrorView,
            >(Reply { model: final(model)@, fields: fields@ }),
            Err(error) => old(model)@.told(workspace_id, pane_id, surface_id) == Err::<
                Reply,
                ErrorView,
            >(error@) && final(model)@ == old(model)@,
        },
        final(model)@.palettes == old(model)@.palettes,
        final(model)@.state == old(model)@.state,
{
    match model.state.workspace_window_id(workspace_id) {
        None => Err(MethodError::not_found("Workspace not found")),
        Some(window_id) => {
            let mut fields = Fields::new();
            fields.put_window(model, window_id);
            fields.put_workspace(model, workspace_id);
            match pane_id {
                Some(id) => fields.put_pane(model, id),
                None => {},
            }
            match surface_id {
                Some(id) => fields.put_surface(model, id),
                None => {},
            }
            Ok(fields)
        },
    }
}

/// An error of the state as one of something that does not exist.
pub fn or_missing<T>(result: Result<T, String>, key: &str, id: u128) -> (mapped: Result<
    T,
    MethodError,
>)
    ensures
        found(mapped) == match text::text_result(result) {
            Ok(value) => Ok::<T, ErrorView>(value),
            Err(message) => Err(ErrorView::not_found_id(message, key@, id)),
        },
{
    match result {
        Ok(value) => Ok(value),
        Err(message) => Err(MethodError::not_found_id(message, key, id)),
    }
}

/// An error of the state as one inside.
pub fn or_internal<T>(result: Result<T, String>) -> (mapped: Result<T, MethodError>)
    ensures
        found(mapped) == match text::text_result(result) {
            Ok(value) => Ok::<T, ErrorView>(value),
            Err(message) => Err(ErrorView::internal_error(message)),
        },
{
    match result {
        Ok(value) => Ok(value),
        Err(message) => Err(MethodError::internal_error(message)),
    }
}

/// An error of the state as one of what was asked.
pub fn or_invalid<T>(result: Result<T, String>) -> (mapped: Result<T, MethodError>)
    ensures
        found(mapped) == match text::text_result(result) {
            Ok(value) => Ok::<T, ErrorView>(value),
            Err(message) => Err(ErrorView::invalid_params(message)),
        },
{
    match result {
        Ok(value) => Ok(value),
        Err(message) => Err(MethodError::invalid_params(message)),
    }
}

impl ErrorView {
    /// A parameter is missing or makes no sense.
    pub open spec fn invalid_params(message: Seq<char>) -> ErrorView {
        ErrorView { code: "invalid_params"@, message, data: None }
    }

    /// An object does not exist.
    pub open spec fn not_found(message: Seq<char>) -> ErrorView {
        ErrorView { code: "not_found"@, message, data: None }
    }

    /// The object with this identifier does not exist.
    pub open spec fn not_found_id(message: Seq<char>, key: Seq<char>, id: u128) -> ErrorView {
        ErrorView {
            code: "not_found"@,
            message,
            data: Some(ValueView::Object(no_fields().push((key, json::id_value(id))))),
        }
    }

    /// A method cannot be used.
    pub open spec fn unavailable(message: Seq<char>) -> ErrorView {
        ErrorView { code: "unavailable"@, message, data: None }
    }

    /// Something went wrong inside.
    pub open spec fn internal_error(message: Seq<char>) -> ErrorView {
        ErrorView { code: "internal_error"@, message, data: None }
    }
}

impl MethodError {
    /// An error.
    pub fn new(code: &'static str, message: String, data: Option<Value>) -> (error: MethodError)
        ensures
            error@ == (ErrorView {
                code: code@,
                message: message@,
                data: match data {
                    Some(value) => Some(value@),
                    None => None,
                },
            }),
    {
        MethodError { code, message, data }
    }

    /// A parameter is missing or makes no sense.
    pub fn invalid_params(message: String) -> (error: MethodError)
        ensures
            error@ == ErrorView::invalid_params(message@),
    {
        MethodError::new("invalid_params", message, None)
    }

    /// A parameter is missing or makes no sense.
    pub fn invalid(message: &str) -> (error: MethodError)
        ensures
            error@ == ErrorView::invalid_params(message@),
    {
        MethodError::invalid_params(message.to_owned())
    }

    /// An object does not exist.
    pub fn not_found(message: &str) -> (error: MethodError)
        ensures
            error@ == ErrorView::not_found(message@),
    {
        MethodError::new("not_found", message.to_owned(), None)
    }

    /// The object with this identifier does not exist.
    pub fn not_found_id(message: String, key: &str, id: u128) -> (error: MethodError)
        ensures
            error@ == ErrorView::not_found_id(message@, key@, id),
    {
        let mut fields = Fields::new();
        fields.put(key, Value::id(id));
        MethodError::new("not_found", message, Some(fields.finish()))
    }

    /// A method cannot be used.
    pub fn unavailable(message: String) -> (error: MethodError)
        ensures
            error@ == ErrorView::unavailable(message@),
    {
        MethodError::new("unavailable", message, None)
    }

    /// Something went wrong inside.
    pub fn internal_error(message: String) -> (error: MethodError)
        ensures
            error@ == ErrorView::internal_error(message@),
    {
        MethodError::new("internal_error", message, None)
    }
}

/// The entries of an answer, in the order in which they were added.
pub struct Fields {
    /// The entries.
    pub entries: Vec<(String, Value)>,
}

impl View for Fields {
    type V = Seq<(Seq<char>, ValueView)>;

    open spec fn view(&self) -> Seq<(Seq<char>, ValueView)> {
        json::entry_views(self.entries@)
    }
}

/// No entries.
pub open spec fn no_fields() -> Seq<(Seq<char>, ValueView)> {
    Seq::empty()
}

/// An answer in the making. To name an object by its short name may give it one, so the model goes
/// with it.
#[verifier::ext_equal]
pub struct Reply {
    /// The model.
    pub model: ModelView,
    /// The entries.
    pub fields: Seq<(Seq<char>, ValueView)>,
}

impl Reply {
    /// An answer without entries.
    pub open spec fn of(model: ModelView) -> Reply {
        Reply { model, fields: no_fields() }
    }

    /// The answer with one more entry.
    pub open spec fn with(self, key: Seq<char>, value: ValueView) -> Reply {
        Reply { fields: self.fields.push((key, value)), ..self }
    }

    /// The answer with an object's short name.
    pub open spec fn named(self, key: Seq<char>, kind: HandleKind, id: u128) -> Reply {
        Reply {
            model: self.model.naming(kind, id),
            fields: self.fields.push((key, ValueView::Text(self.model.name(kind, id)))),
        }
    }

    /// The answer with an object's short name, or null where there is no object.
    pub open spec fn opt_named(self, key: Seq<char>, kind: HandleKind, id: Option<u128>) -> Reply {
        match id {
            Some(inner) => self.named(key, kind, inner),
            None => self.with(key, ValueView::Null),
        }
    }

    /// The answer with a surface's short name as a tab.
    pub open spec fn tab_named(self, key: Seq<char>, id: SurfaceId) -> Reply {
        Reply {
            model: self.model.naming(HandleKind::Surface, id),
            fields: self.fields.push((key, ValueView::Text(self.model.tab_name(id)))),
        }
    }

    /// The answer with a window's identifier and short name.
    pub open spec fn window(self, id: WindowId) -> Reply {
        self.with("window_id"@, json::id_value(id)).named(
            "window_ref"@,
            HandleKind::Window,
            id,
        )
    }

    /// The answer with a workspace's identifier and short name.
    pub open spec fn workspace(self, id: WorkspaceId) -> Reply {
        self.with("workspace_id"@, json::id_value(id)).named(
            "workspace_ref"@,
            HandleKind::Workspace,
            id,
        )
    }

    /// The answer with a pane's identifier and short name.
    pub open spec fn pane(self, id: PaneId) -> Reply {
        self.with("pane_id"@, json::id_value(id)).named("pane_ref"@, HandleKind::Pane, id)
    }

    /// The answer with a surface's identifier and short name.
    pub open spec fn surface(self, id: SurfaceId) -> Reply {
        self.with("surface_id"@, json::id_value(id)).named(
            "surface_ref"@,
            HandleKind::Surface,
            id,
        )
    }

    /// The finished answer.
    pub open spec fn done(self) -> Outcome {
        (self.model, Ok(ValueView::Object(self.fields)))
    }
}

impl Fields {
    /// No entries.
    pub fn new() -> (fields: Fields)
        ensures
            fields@ == no_fields(),
    {
        let fields = Fields { entries: Vec::new() };
        proof {
            assert(fields@ =~= no_fields());
        }
        fields
    }

    /// Adds an entry.
    pub fn put(&mut self, key: &str, value: Value)
        ensures
            final(self)@ == old(self)@.push((key@, value@)),
    {
        let ghost before = self@;
        let ghost content = value@;
        self.entries.push((key.to_owned(), value));
        proof {
            assert(self@ =~= before.push((key@, content)));
        }
    }

    /// Adds an entry with a text.
    pub fn put_text(&mut self, key: &str, content: &str)
        ensures
            final(self)@ == old(self)@.push((key@, ValueView::Text(content@))),
    {
        self.put(key, Value::text(content));
    }

    /// Adds an entry with a truth value.
    pub fn put_flag(&mut self, key: &str, flag: bool)
        ensures
            final(self)@ == old(self)@.push((key@, ValueView::Bool(flag))),
    {
        self.put(key, Value::Bool(flag));
    }

    /// Adds an entry with a count.
    pub fn put_count(&mut self, key: &str, count: usize)
        ensures
            final(self)@ == old(self)@.push((key@, json::number_value(count as u64))),
    {
        self.put(key, Value::number(count as u64));
    }

    /// Adds an object's short name.
    pub fn put_name(&mut self, model: &mut AppModel, key: &str, kind: HandleKind, id: u128)
        ensures
            (Reply { model: final(model)@, fields: final(self)@ }) == (Reply {
                model: old(model)@,
                fields: old(self)@,
            }).named(key@, kind, id),
    {
        let name = model.name_of(kind, id);
        self.put(key, Value::Text(name));
    }

    /// Adds an object's short name, or null where there is no object.
    pub fn put_opt_name(
        &mut self,
        model: &mut AppModel,
        key: &str,
        kind: HandleKind,
        id: Option<u128>,
    )
        ensures
            (Reply { model: final(model)@, fields: final(self)@ }) == (Reply {
                model: old(model)@,
                fields: old(self)@,
            }).opt_named(key@, kind, id),
    {
        match id {
            Some(inner) => self.put_name(model, key, kind, inner),
            None => self.put(key, Value::Null),
        }
    }

    /// Adds a surface's short name as a tab.
    pub fn put_tab_name(&mut self, model: &mut AppModel, key: &str, id: SurfaceId)
        ensures
            (Reply { model: final(model)@, fields: final(self)@ }) == (Reply {
                model: old(model)@,
                fields: old(self)@,
            }).tab_named(key@, id),
    {
        let name = model.tab_ref(id);
        self.put(key, Value::Text(name));
    }

    /// Adds a window's identifier and short name.
    pub fn put_window(&mut self, model: &mut AppModel, id: WindowId)
        ensures
            (Reply { model: final(model)@, fields: final(self)@ }) == (Reply {
                model: old(model)@,
                fields: old(self)@,
            }).window(id),
    {
        self.put("window_id", Value::id(id));
        self.put_name(model, "window_ref", HandleKind::Window, id);
    }

    /// Adds a workspace's identifier and short name.
    pub fn put_workspace(&mut self, model: &mut AppModel, id: WorkspaceId)
        ensures
            (Reply { model: final(model)@, fields: final(self)@ }) == (Reply {
                model: old(model)@,
                fields: old(self)@,
            }).workspace(id),
    {
        self.put("workspace_id", Value::id(id));
        self.put_name(model, "workspace_ref", HandleKind::Workspace, id);
    }

    /// Adds a pane's identifier and short name.
    pub fn put_pane(&mut self, model: &mut AppModel, id: PaneId)
        ensures
            (Reply { model: final(model)@, fields: final(self)@ }) == (Reply {
                model: old(model)@,
                fields: old(self)@,
            }).pane(id),
    {
        self.put("pane_id", Value::id(id));
        self.put_name(model, "pane_ref", HandleKind::Pane, id);
    }

    /// Adds a surface's identifier and short name.
    pub fn put_surface(&mut self, model: &mut AppModel, id: SurfaceId)
        ensures
            (Reply { model: final(model)@, fields: final(self)@ }) == (Reply {
                model: old(model)@,
                fields: old(self)@,
            }).surface(id),
    {
        self.put("surface_id", Value::id(id));
        self.put_name(model, "surface_ref", HandleKind::Surface, id);
    }

    /// Puts a value in place of the one of a key, or adds it.
    pub fn set(&mut self, key: &str, value: Value)
        ensures
            final(self)@ == json::with_entry(old(self)@, key@, value@),
    {
        let ghost before = self@;
        let ghost content = value@;
        match entry_index(&self.entries, key) {
            Some(at) => {
                self.entries[at] = (key.to_owned(), value);
                proof {
                    assert(self@ =~= before.update(at as int, (key@, content)));
                }
            },
            None => self.put(key, value),
        }
    }

    /// The entries as an object.
    pub fn finish(self) -> (value: Value)
        ensures
            value@ == ValueView::Object(self@),
    {
        proof {
            json::lemma_object(self.entries);
        }
        Value::Object(self.entries)
    }
}

/// A list as an array.
pub fn array(items: Vec<Value>) -> (value: Value)
    ensures
        value@ == ValueView::Array(json::value_views(items@)),
{
    proof {
        json::lemma_array(items);
    }
    Value::Array(items)
}

/// Names as an array of texts.
pub fn names_array(list: &Vec<&'static str>) -> (value: Value)
    ensures
        value@ == json::texts_value(methods::names(list@)),
{
    let mut items: Vec<Value> = Vec::new();
    let mut at: usize = 0;
    while at < list.len()
        invariant
            at <= list@.len(),
            items@.len() == at,
            forall|k: int| 0 <= k < at ==> (#[trigger] items@[k])@ == ValueView::Text(list@[k]@),
        decreases list@.len() - at,
    {
        items.push(Value::text(list[at]));
        at = at + 1;
    }
    proof {
        let names = methods::names(list@);
        assert(json::value_views(items@) =~= Seq::new(
            names.len(),
            |k: int| ValueView::Text(names[k]),
        ));
    }
    array(items)
}

/// Identifiers as an array.
pub fn ids_array(list: &Vec<u128>) -> (value: Value)
    ensures
        value@ == json::ids_value(list@),
{
    let mut items: Vec<Value> = Vec::new();
    let mut at: usize = 0;
    while at < list.len()
        invariant
            at <= list@.len(),
            items@.len() == at,
            forall|k: int| 0 <= k < at ==> (#[trigger] items@[k])@ == json::id_value(list@[k]),
        decreases list@.len() - at,
    {
        items.push(Value::id(list[at]));
        at = at + 1;
    }
    proof {
        assert(json::value_views(items@) =~= Seq::new(
            list@.len(),
            |k: int| json::id_value(list@[k]),
        ));
    }
    array(items)
}

/// The answer to a request that succeeded.
pub open spec fn ok_answer(id: ValueView, result: ValueView) -> ValueView {
    ValueView::Object(
        no_fields().push(("id"@, id)).push(("ok"@, ValueView::Bool(true))).push(
            ("result"@, result),
        ),
    )
}

/// The answer to a request that failed.
pub open spec fn error_answer(id: ValueView, error: ErrorView) -> ValueView {
    let fields = no_fields().push(("code"@, ValueView::Text(error.code))).push(
        ("message"@, ValueView::Text(error.message)),
    );
    let all = match error.data {
        Some(data) => fields.push(("data"@, data)),
        None => fields,
    };
    ValueView::Object(
        no_fields().push(("id"@, id)).push(("ok"@, ValueView::Bool(false))).push(
            ("error"@, ValueView::Object(all)),
        ),
    )
}

/// The answer to a request.
pub open spec fn answer(id: ValueView, result: Result<ValueView, ErrorView>) -> ValueView {
    match result {
        Ok(value) => ok_answer(id, value),
        Err(error) => error_answer(id, error),
    }
}

/// Writes the answer to a request that succeeded.
pub fn ok_response(id: Value, result: Value) -> (response: Value)
    ensures
        response@ == ok_answer(id@, result@),
{
    let mut fields = Fields::new();
    fields.put("id", id);
    fields.put_flag("ok", true);
    fields.put("result", result);
    fields.finish()
}

/// Writes the answer to a request that failed.
pub fn error_response(id: Value, error: MethodError) -> (response: Value)
    ensures
        response@ == error_answer(id@, error@),
{
    let mut inner = Fields::new();
    inner.put_text("code", error.code);
    inner.put_text("message", error.message.as_str());
    match error.data {
        Some(data) => inner.put("data", data),
        None => {},
    }
    let mut fields = Fields::new();
    fields.put("id", id);
    fields.put_flag("ok", false);
    fields.put("error", inner.finish());
    fields.finish()
}

} // verus!
