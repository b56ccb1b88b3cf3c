//! Lenient reading of typed fields out of JSON records: a field that is
//! absent or of another type reads as its default, the empty string or the
//! empty list.
use vstd::prelude::*;
use serde_json::Value;
use crate::stream::{CHOICES_KEY, CONTENT_KEY};
use crate::json::{
    array_of, entry, object_entries, object_get, object_of, parse_value, parsed_value, string_entry,
    string_field, string_of, value_array, value_object, value_str, JsonObject,
};

verus! {

/// The JSON keys that the fields of a typed response are read from.
pub struct FieldMap {
    pub email_address: String,
    pub email_body: String,
    pub rationale: String,
}

/// The model of a field map.
pub struct FieldMapView {
    pub email_address: Seq<char>,
    pub email_body: Seq<char>,
    pub rationale: Seq<char>,
}

impl View for FieldMap {
    type V = FieldMapView;

    open spec fn view(&self) -> FieldMapView {
        FieldMapView {
            email_address: self.email_address@,
            email_body: self.email_body@,
            rationale: self.rationale@,
        }
    }
}

/// The typed result of a pipeline.
pub struct TypedResponse {
    pub email_address: String,
    pub email_body: String,
    pub rationale: Vec<String>,
}

/// The model of a typed response.
pub struct ResponseView {
    pub email_address: Seq<char>,
    pub email_body: Seq<char>,
    pub rationale: Seq<Seq<char>>,
}

/// The characters of each string.
pub open spec fn texts_view(v: Seq<String>) -> Seq<Seq<char>> {
    v.map_values(|s: String| s@)
}

impl View for TypedResponse {
    type V = ResponseView;

    open spec fn view(&self) -> ResponseView {
        ResponseView {
            email_address: self.email_address@,
            email_body: self.email_body@,
            rationale: texts_view(self.rationale@),
        }
    }
}

/// The entries of a record; a record that is not an object has none.
pub open spec fn record_entries(record: Value) -> Map<Seq<char>, Value> {
    match object_of(record) {
        Some(entries) => entries,
        None => Map::empty(),
    }
}

/// The string under `key`, or the empty string.
pub open spec fn text_entry(obj: Map<Seq<char>, Value>, key: Seq<char>) -> Seq<char> {
    match string_entry(obj, key) {
        Some(s) => s,
        None => Seq::empty(),
    }
}

/// The string elements of an array, in order; other elements are left out.
pub open spec fn strings_in(items: Seq<Value>) -> Seq<Seq<char>> {
    items.filter_map(|v: Value| string_of(v))
}

/// The strings of the array under `key`, or the empty list.
pub open spec fn text_list_entry(obj: Map<Seq<char>, Value>, key: Seq<char>) -> Seq<Seq<char>> {
    match entry(obj, key) {
        Some(v) => match array_of(v) {
            Some(items) => strings_in(items),
            None => Seq::empty(),
        },
        None => Seq::empty(),
    }
}

/// The typed response that an object's entries give under a field map.
pub open spec fn extracted(obj: Map<Seq<char>, Value>, fields: FieldMapView) -> ResponseView {
    ResponseView {
        email_address: text_entry(obj, fields.email_address),
        email_body: text_entry(obj, fields.email_body),
        rationale: text_list_entry(obj, fields.rationale),
    }
}

/// The string under `key` in `obj`, or the empty string.
fn object_text(obj: &JsonObject, key: &str) -> (r: String)
    ensures
        r@ == text_entry(object_entries(*obj), key@),
{
    match string_field(obj, key) {
        Some(s) => s.to_owned(),
        None => String::new(),
    }
}

/// The string elements of `items`, in order.
fn strings_of(items: &Vec<Value>) -> (r: Vec<String>)
    ensures
        texts_view(r@) == strings_in(items@),
{
    let mut out: Vec<String> = Vec::new();
    let mut i: usize = 0;
    while i < items.len()
        invariant
            i <= items@.len(),
            texts_view(out@) == strings_in(items@.take(i as int)),
        decreases items@.len() - i,
    {
        assert(items@.take(i + 1).drop_last() =~= items@.take(i as int));
        assert(items@.take(i + 1).last() == items@[i as int]);
        match value_str(&items[i]) {
            Some(s) => {
                let ghost before = out@;
                out.push(s.to_owned());
                assert(texts_view(out@) =~= texts_view(before) + seq![s@]);
            },
            None => {},
        }
        i = i + 1;
    }
    assert(items@.take(items@.len() as int) =~= items@);
    out
}

/// The strings of the array under `key` in `obj`, or the empty list.
fn object_text_list(obj: &JsonObject, key: &str) -> (r: Vec<String>)
    ensures
        texts_view(r@) == text_list_entry(object_entries(*obj), key@),
{
    match object_get(obj, key) {
        Some(v) => match value_array(v) {
            Some(items) => strings_of(items),
            None => Vec::new(),
        },
        None => Vec::new(),
    }
}

/// Reads a typed response out of a JSON object. Never fails.
pub fn extract_object(obj: &JsonObject, fields: &FieldMap) -> (r: TypedResponse)
    ensures
        r@ == extracted(object_entries(*obj), fields@),
{
    TypedResponse {
        email_address: object_text(obj, fields.email_address.as_str()),
        email_body: object_text(obj, fields.email_body.as_str()),
        rationale: object_text_list(obj, fields.rationale.as_str()),
    }
}

/// Reads a typed response out of a JSON record; a record that is not an
/// object gives the defaults. Never fails.
pub fn extract(record: &Value, fields: &FieldMap) -> (r: TypedResponse)
    ensures
        r@ == extracted(record_entries(*record), fields@),
{
    match value_object(record) {
        Some(obj) => extract_object(obj, fields),
        None => {
            let r = TypedResponse { email_address: String::new(), email_body: String::new(), rationale: Vec::new() };
            assert(texts_view(r.rationale@) =~= Seq::<Seq<char>>::empty());
            r
        },
    }
}

/// The string under `key` in a record, or the empty string.
pub fn text_field(record: &Value, key: &str) -> (r: String)
    ensures
        r@ == text_entry(record_entries(*record), key@),
{
    match value_object(record) {
        Some(obj) => object_text(obj, key),
        None => String::new(),
    }
}

/// The strings of the array under `key` in a record, or the empty list.
pub fn text_list_field(record: &Value, key: &str) -> (r: Vec<String>)
    ensures
        texts_view(r@) == text_list_entry(record_entries(*record), key@),
{
    match value_object(record) {
        Some(obj) => object_text_list(obj, key),
        None => {
            let r: Vec<String> = Vec::new();
            assert(texts_view(r@) =~= Seq::<Seq<char>>::empty());
            r
        },
    }
}

/// The member of a completion choice that holds the whole message.
pub const MESSAGE_KEY: &'static str = "message";

/// The text of a non-streaming completion response: the string
/// `choices[0].message.content`, or the empty string.
pub open spec fn message_content(response: Value) -> Seq<char> {
    match entry(record_entries(response), CHOICES_KEY@) {
        Some(choices) => match array_of(choices) {
            Some(items) => if items.len() > 0 {
                match entry(record_entries(items[0]), MESSAGE_KEY@) {
                    Some(message) => text_entry(record_entries(message), CONTENT_KEY@),
                    None => Seq::empty(),
                }
            } else {
                Seq::empty()
            },
            None => Seq::empty(),
        },
        None => Seq::empty(),
    }
}

/// Reads the message text out of a non-streaming completion response body;
/// `None` when the body is not JSON.
pub fn completion_message(body: &str) -> (r: Option<String>)
    ensures
        r is None <==> parsed_value(body@) is None,
        r matches Some(t) ==> t@ == message_content(parsed_value(body@)->0),
{
    let response = match parse_value(body) {
        Ok(v) => v,
        Err(_) => return None,
    };
    let choices = match value_object(&response) {
        Some(obj) => object_get(obj, CHOICES_KEY),
        None => None,
    };
    let first = match choices {
        Some(c) => match value_array(c) {
            Some(items) => if items.len() > 0 {
                Some(&items[0])
            } else {
                None
            },
            None => None,
        },
        None => None,
    };
    let message = match first {
        Some(choice) => match value_object(choice) {
            Some(obj) => object_get(obj, MESSAGE_KEY),
            None => None,
        },
        None => None,
    };
    match message {
        Some(m) => Some(text_field(m, CONTENT_KEY)),
        None => Some(String::new()),
    }
}

/// Reading an empty object gives every field its default: the empty string
/// or the empty list, whatever the field map.
pub proof fn lemma_extract_empty_object(obj: Map<Seq<char>, Value>, fields: FieldMapView)
    requires
        obj == Map::<Seq<char>, Value>::empty(),
    ensures
        extracted(obj, fields) == (ResponseView {
            email_address: Seq::empty(),
            email_body: Seq::empty(),
            rationale: Seq::empty(),
        }),
{
}

} // verus!
