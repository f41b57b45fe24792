//! A plain model of JSON documents, and the reading of one from text.

use vstd::prelude::*;
use crate::text::text_eq;

verus! {

/// A JSON document, held as plain values.
#[derive(Debug)]
pub enum Json {
    Null,
    Bool(bool),
    /// A number, with its value where that is a non-negative integer that
    /// fits 64 bits.
    Number(Option<u64>),
    Text(String),
    Array(Vec<Json>),
    /// An object: its members, each a key with its value.
    Object(Vec<(String, Json)>),
}

/// The content of a `Json`.
pub ghost enum JsonValue {
    Null,
    Bool(bool),
    Number(Option<u64>),
    Text(Seq<char>),
    Array(Seq<JsonValue>),
    Object(Seq<(Seq<char>, JsonValue)>),
}

/// The contents of the items of an array.
pub open spec fn items_view(items: Seq<Json>) -> Seq<JsonValue>
    decreases items,
{
    Seq::new(
        items.len(),
        |i: int|
            if 0 <= i < items.len() {
                items[i].view()
            } else {
                JsonValue::Null
            },
    )
}

/// The contents of the members of an object.
pub open spec fn members_view(members: Seq<(String, Json)>) -> Seq<(Seq<char>, JsonValue)>
    decreases members,
{
    Seq::new(
        members.len(),
        |i: int|
            if 0 <= i < members.len() {
                (members[i].0@, members[i].1.view())
            } else {
                (Seq::empty(), JsonValue::Null)
            },
    )
}

impl View for Json {
    type V = JsonValue;

    open spec fn view(&self) -> JsonValue
        decreases self,
    {
        match self {
            Json::Null => JsonValue::Null,
            Json::Bool(b) => JsonValue::Bool(*b),
            Json::Number(n) => JsonValue::Number(*n),
            Json::Text(s) => JsonValue::Text(s@),
            Json::Array(items) => JsonValue::Array(items_view(items@)),
            Json::Object(members) => JsonValue::Object(members_view(members@)),
        }
    }
}

/// The content of what reading a text as JSON gave: that of the document,
/// or the reader's message.
pub open spec fn parsed_view(parsed: Result<Json, String>) -> Result<JsonValue, Seq<char>> {
    match parsed {
        Ok(doc) => Ok(doc@),
        Err(message) => Err(message@),
    }
}

#[verifier::external_type_specification]
#[verifier::external_body]
pub struct ExValue(serde_json::Value);

/// What reading `text` as a JSON document gives: the document, or the
/// reader's message where `text` is not one.
pub uninterp spec fn json_document(text: Seq<char>) -> Result<JsonValue, Seq<char>>;

/// Carries a `serde_json::Value` over into the model, variant by variant. Of
/// a number it keeps what `serde_json::Number::as_u64` gives.
#[verifier::external_body]
fn json_of(v: serde_json::Value) -> (j: Json)
{
    match v {
        serde_json::Value::Null => Json::Null,
        serde_json::Value::Bool(b) => Json::Bool(b),
        serde_json::Value::Number(n) => Json::Number(n.as_u64()),
        serde_json::Value::String(s) => Json::Text(s),
        serde_json::Value::Array(a) => Json::Array(a.into_iter().map(json_of).collect()),
        serde_json::Value::Object(o) => Json::Object(
            o.into_iter().map(|(k, x)| (k, json_of(x))).collect(),
        ),
    }
}

/// `serde_json::from_str`, reading a `serde_json::Value`: the document in
/// the model, or the message of the error. Either is a function of the text
/// alone.
#[verifier::external_body]
pub(crate) fn parse_json(text: &str) -> (r: Result<Json, String>)
    ensures
        parsed_view(r) == json_document(text@),
{
    match serde_json::from_str::<serde_json::Value>(text) {
        Ok(v) => Ok(json_of(v)),
        Err(e) => Err(e.to_string()),
    }
}

/// The value of the first of `members` whose key is `key`.
pub open spec fn member(members: Seq<(Seq<char>, JsonValue)>, key: Seq<char>) -> Option<
    JsonValue,
>
    decreases members.len(),
{
    if members.len() == 0 {
        None
    } else if members[0].0 == key {
        Some(members[0].1)
    } else {
        member(members.drop_first(), key)
    }
}

/// The text of the member `key`, where `members` has it and it is a string.
pub open spec fn text_member(members: Seq<(Seq<char>, JsonValue)>, key: Seq<char>) -> Option<
    Seq<char>,
> {
    match member(members, key) {
        Some(JsonValue::Text(s)) => Some(s),
        _ => None,
    }
}

/// Looks up the member `key` of an object.
pub fn find_member<'a>(members: &'a Vec<(String, Json)>, key: &str) -> (found: Option<&'a Json>)
    ensures
        match found {
            Some(value) => member(members_view(members@), key@) == Some(value@),
            None => member(members_view(members@), key@) is None,
        },
{
    let ghost all = members_view(members@);
    let mut i: usize = 0;
    assert(all.skip(0) == all);
    while i < members.len()
        invariant
            i <= members@.len(),
            all == members_view(members@),
            member(all, key@) == member(all.skip(i as int), key@),
        decreases members@.len() - i,
    {
        if text_eq(members[i].0.as_str(), key) {
            return Some(&members[i].1);
        }
        assert(all.skip(i as int).drop_first() == all.skip(i + 1));
        i += 1;
    }
    None
}

/// Looks up the member `key` of an object and reads it as a string.
pub fn find_text<'a>(members: &'a Vec<(String, Json)>, key: &str) -> (found: Option<&'a String>)
    ensures
        match found {
            Some(s) => text_member(members_view(members@), key@) == Some(s@),
            None => text_member(members_view(members@), key@) is None,
        },
{
    match find_member(members, key) {
        Some(Json::Text(s)) => Some(s),
        _ => None,
    }
}

} // verus!
