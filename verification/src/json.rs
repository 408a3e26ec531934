//! JSON values.

use crate::ids;
use crate::ids::id_string;
use crate::text;
use crate::text::same_text;
use vstd::prelude::*;

verus! {

/// A JSON number.
#[derive(Debug, Clone, Copy, PartialEq, Eq, Structural)]
pub enum Number {
    /// An integer that is not negative.
    Unsigned(u64),
    /// A negative integer.
    Negative(i64),
    /// Another number, by the bits of its IEEE 754 double-precision form.
    Float(u64),
}

/// A JSON value.
#[derive(Debug)]
pub enum Value {
    /// `null`.
    Null,
    /// `true` or `false`.
    Bool(bool),
    /// A number.
    Number(Number),
    /// A string.
    Text(String),
    /// An array.
    Array(Vec<Value>),
    /// An object: its keys and values, no key twice.
    Object(Vec<(String, Value)>),
}

/// The contents of a [`Value`].
#[verifier::ext_equal]
pub enum ValueView {
    /// `null`.
    Null,
    /// `true` or `false`.
    Bool(bool),
    /// A number.
    Number(Number),
    /// A string.
    Text(Seq<char>),
    /// An array.
    Array(Seq<ValueView>),
    /// An object.
    Object(Seq<(Seq<char>, ValueView)>),
}

impl View for Value {
    type V = ValueView;

    open spec fn view(&self) -> ValueView
        decreases self,
    {
        match self {
            Value::Null => ValueView::Null,
            Value::Bool(flag) => ValueView::Bool(*flag),
            Value::Number(number) => ValueView::Number(*number),
            Value::Text(content) => ValueView::Text(content@),
            Value::Array(items) => ValueView::Array(
                Seq::new(
                    items@.len(),
                    |at: int|
                        if 0 <= at < items@.len() {
                            items@[at].view()
                        } else {
                            ValueView::Null
                        },
                ),
            ),
            Value::Object(entries) => ValueView::Object(
                Seq::new(
                    entries@.len(),
                    |at: int|
                        if 0 <= at < entries@.len() {
                            (entries@[at].0@, entries@[at].1.view())
                        } else {
                            (Seq::empty(), ValueView::Null)
                        },
                ),
            ),
        }
    }
}

/// The contents of each value.
pub open spec fn value_views(items: Seq<Value>) -> Seq<ValueView> {
    items.map_values(|item: Value| item@)
}

/// The keys and the contents of the values of an object.
pub open spec fn entry_views(entries: Seq<(String, Value)>) -> Seq<(Seq<char>, ValueView)> {
    entries.map_values(|entry: (String, Value)| (entry.0@, entry.1@))
}

/// An array's contents are those of its values.
pub proof fn lemma_array(items: Vec<Value>)
    ensures
        Value::Array(items)@ == ValueView::Array(value_views(items@)),
{
    reveal_with_fuel(<Value as View>::view, 2);
    let listed = Value::Array(items)@->Array_0;
    assert forall|at: int| 0 <= at < items@.len() implies listed[at] == value_views(items@)[at] by {}
    assert(listed =~= value_views(items@));
}

/// An object's contents are those of its entries.
pub proof fn lemma_object(entries: Vec<(String, Value)>)
    ensures
        Value::Object(entries)@ == ValueView::Object(entry_views(entries@)),
{
    reveal_with_fuel(<Value as View>::view, 2);
    let listed = Value::Object(entries)@->Object_0;
    assert forall|at: int| 0 <= at < entries@.len() implies listed[at] == entry_views(entries@)[at] by {}
    assert(listed =~= entry_views(entries@));
}

/// The place of the first entry with this key, looking from `at` on.
pub open spec fn entry_from(
    entries: Seq<(Seq<char>, ValueView)>,
    key: Seq<char>,
    at: int,
) -> Option<int>
    decreases entries.len() - at,
{
    if at >= entries.len() {
        None
    } else if entries[at].0 == key {
        Some(at)
    } else {
        entry_from(entries, key, at + 1)
    }
}

/// The value of a key.
pub open spec fn entry(entries: Seq<(Seq<char>, ValueView)>, key: Seq<char>) -> Option<ValueView> {
    match entry_from(entries, key, 0) {
        Some(at) => Some(entries[at].1),
        None => None,
    }
}

/// The entries with this value for a key.
pub open spec fn with_entry(
    entries: Seq<(Seq<char>, ValueView)>,
    key: Seq<char>,
    value: ValueView,
) -> Seq<(Seq<char>, ValueView)> {
    match entry_from(entries, key, 0) {
        Some(at) => entries.update(at, (key, value)),
        None => entries.push((key, value)),
    }
}

/// An identifier as a value.
pub open spec fn id_value(id: u128) -> ValueView {
    ValueView::Text(ids::id_text(id))
}

/// An identifier as a value, or null.
pub open spec fn opt_id_value(id: Option<u128>) -> ValueView {
    match id {
        Some(inner) => id_value(inner),
        None => ValueView::Null,
    }
}

/// A text as a value, or null.
pub open spec fn opt_text_value(content: Option<Seq<char>>) -> ValueView {
    match content {
        Some(inner) => ValueView::Text(inner),
        None => ValueView::Null,
    }
}

/// A number as a value.
pub open spec fn number_value(number: u64) -> ValueView {
    ValueView::Number(Number::Unsigned(number))
}

/// A signed number as a value.
pub open spec fn signed_value(number: i64) -> ValueView {
    if number >= 0 {
        ValueView::Number(Number::Unsigned(number as u64))
    } else {
        ValueView::Number(Number::Negative(number))
    }
}

/// A count as a value.
pub open spec fn count_value(count: nat) -> ValueView {
    number_value(count as u64)
}

/// A number in double precision as a value.
pub open spec fn float_value(bits: u64) -> ValueView {
    ValueView::Number(Number::Float(bits))
}

/// The place of the first entry with this key.
pub fn entry_index(entries: &Vec<(String, Value)>, key: &str) -> (place: Option<usize>)
    ensures
        match place {
            Some(at) => at < entries@.len() && entry_from(entry_views(entries@), key@, 0) == Some(
                at as int,
            ),
            None => entry_from(entry_views(entries@), key@, 0) is None,
        },
{
    let mut at: usize = 0;
    while at < entries.len()
        invariant
            at <= entries@.len(),
            entry_from(entry_views(entries@), key@, 0) == entry_from(
                entry_views(entries@),
                key@,
                at as int,
            ),
        decreases entries@.len() - at,
    {
        if same_text(entries[at].0.as_str(), key) {
            return Some(at);
        }
        at = at + 1;
    }
    None
}

/// Texts as an array.
pub open spec fn texts_value(list: Seq<Seq<char>>) -> ValueView {
    ValueView::Array(Seq::new(list.len(), |at: int| ValueView::Text(list[at])))
}

/// Identifiers as an array.
pub open spec fn ids_value(list: Seq<u128>) -> ValueView {
    ValueView::Array(Seq::new(list.len(), |at: int| id_value(list[at])))
}

/// The contents of an optional value.
pub open spec fn opt_value(value: Option<&Value>) -> Option<ValueView> {
    match value {
        Some(inner) => Some(inner@),
        None => None,
    }
}

/// The value of a key.
pub fn entry_of<'a>(entries: &'a Vec<(String, Value)>, key: &str) -> (value: Option<&'a Value>)
    ensures
        opt_value(value) == entry(entry_views(entries@), key@),
{
    match entry_index(entries, key) {
        Some(at) => Some(&entries[at].1),
        None => None,
    }
}

/// Copies the entries of an object.
pub fn copy_entries(entries: &Vec<(String, Value)>) -> (copy: Vec<(String, Value)>)
    ensures
        entry_views(copy@) == entry_views(entries@),
    decreases entries, 0nat,
{
    let mut copy: Vec<(String, Value)> = Vec::new();
    let mut at: usize = 0;
    while at < entries.len()
        invariant
            at <= entries@.len(),
            copy@.len() == at,
            forall|k: int|
                0 <= k < at ==> copy@[k].0@ == entries@[k].0@ && copy@[k].1@ == entries@[k].1@,
        decreases entries@.len() - at,
    {
        let item = &entries[at];
        assert(decreases_to!(entries => entries@[at as int]));
        assert(decreases_to!(entries@[at as int] => entries@[at as int].1));
        let value = item.1.copy();
        copy.push((item.0.clone(), value));
        at = at + 1;
    }
    proof {
        assert(entry_views(copy@) =~= entry_views(entries@));
    }
    copy
}

/// Copies the values of an array.
pub fn copy_items(items: &Vec<Value>) -> (copy: Vec<Value>)
    ensures
        value_views(copy@) == value_views(items@),
    decreases items, 0nat,
{
    let mut copy: Vec<Value> = Vec::new();
    let mut at: usize = 0;
    while at < items.len()
        invariant
            at <= items@.len(),
            copy@.len() == at,
            forall|k: int| 0 <= k < at ==> copy@[k]@ == items@[k]@,
        decreases items@.len() - at,
    {
        assert(decreases_to!(items => items@[at as int]));
        let value = items[at].copy();
        copy.push(value);
        at = at + 1;
    }
    proof {
        assert(value_views(copy@) =~= value_views(items@));
    }
    copy
}

impl Value {
    /// Copies the value.
    pub fn copy(&self) -> (copy: Value)
        ensures
            copy@ == self@,
        decreases self, 1nat,
    {
        match self {
            Value::Null => Value::Null,
            Value::Bool(flag) => Value::Bool(*flag),
            Value::Number(number) => Value::Number(*number),
            Value::Text(content) => Value::Text(content.clone()),
            Value::Array(items) => {
                let copied = copy_items(items);
                proof {
                    lemma_array(copied);
                    lemma_array(*items);
                }
                Value::Array(copied)
            },
            Value::Object(entries) => {
                let copied = copy_entries(entries);
                proof {
                    lemma_object(copied);
                    lemma_object(*entries);
                }
                Value::Object(copied)
            },
        }
    }

    /// A text as a value.
    pub fn text(content: &str) -> (value: Value)
        ensures
            value@ == ValueView::Text(content@),
    {
        Value::Text(content.to_owned())
    }

    /// An identifier as a value.
    pub fn id(id: u128) -> (value: Value)
        ensures
            value@ == id_value(id),
    {
        Value::Text(id_string(id))
    }

    /// An identifier as a value, or null.
    pub fn opt_id(id: Option<u128>) -> (value: Value)
        ensures
            value@ == opt_id_value(id),
    {
        match id {
            Some(inner) => Value::id(inner),
            None => Value::Null,
        }
    }

    /// A text as a value, or null.
    pub fn opt_text(content: &Option<String>) -> (value: Value)
        ensures
            value@ == opt_text_value(text::opt_text(*content)),
    {
        match content {
            Some(inner) => Value::Text(inner.clone()),
            None => Value::Null,
        }
    }

    /// A number as a value.
    pub fn number(number: u64) -> (value: Value)
        ensures
            value@ == number_value(number),
    {
        Value::Number(Number::Unsigned(number))
    }

    /// A signed number as a value.
    pub fn signed(number: i64) -> (value: Value)
        ensures
            value@ == signed_value(number),
    {
        if number >= 0 {
            Value::Number(Number::Unsigned(number as u64))
        } else {
            Value::Number(Number::Negative(number))
        }
    }

    /// A number in double precision, by its bits, as a value.
    pub fn float(bits: u64) -> (value: Value)
        ensures
            value@ == float_value(bits),
    {
        Value::Number(Number::Float(bits))
    }

    /// The text of a string.
    pub fn as_str(&self) -> (content: Option<&str>)
        ensures
            match content {
                Some(inner) => self@ == ValueView::Text(inner@),
                None => !(self@ is Text),
            },
    {
        match self {
            Value::Text(content) => Some(content.as_str()),
            _ => None,
        }
    }

    /// The truth value.
    pub fn as_bool(&self) -> (flag: Option<bool>)
        ensures
            match flag {
                Some(inner) => self@ == ValueView::Bool(inner),
                None => !(self@ is Bool),
            },
    {
        match self {
            Value::Bool(flag) => Some(*flag),
            _ => None,
        }
    }

    /// The number, if it is an integer that is not negative.
    pub fn as_u64(&self) -> (number: Option<u64>)
        ensures
            number == (match self@ {
                ValueView::Number(Number::Unsigned(inner)) => Some(inner),
                _ => None,
            }),
    {
        match self {
            Value::Number(Number::Unsigned(number)) => Some(*number),
            _ => None,
        }
    }

    /// The values of an array.
    pub fn as_array(&self) -> (items: Option<&Vec<Value>>)
        ensures
            match items {
                Some(inner) => self@ == ValueView::Array(value_views(inner@)),
                None => !(self@ is Array),
            },
    {
        match self {
            Value::Array(items) => {
                proof {
                    lemma_array(*items);
                }
                Some(items)
            },
            _ => None,
        }
    }

    /// The entries of an object.
    pub fn as_object(&self) -> (entries: Option<&Vec<(String, Value)>>)
        ensures
            match entries {
                Some(inner) => self@ == ValueView::Object(entry_views(inner@)),
                None => !(self@ is Object),
            },
    {
        match self {
            Value::Object(entries) => {
                proof {
                    lemma_object(*entries);
                }
                Some(entries)
            },
            _ => None,
        }
    }

    /// The value of a key of an object.
    pub fn get(&self, key: &str) -> (value: Option<&Value>)
        ensures
            opt_value(value) == match self@ {
                ValueView::Object(entries) => entry(entries, key@),
                _ => None,
            },
    {
        match self.as_object() {
            Some(entries) => entry_of(entries, key),
            None => None,
        }
    }
}

} // verus!
