//! JSON documents as trees of plain values.
//!
//! The text is parsed by `serde_json`; this module turns the outcome into a
//! tree of its own, which the rest of the crate reads.

use crate::error::{DeltaResult, Error, ErrorView};
use crate::text::{find_key, first_index, keys_of, lemma_first_index};
use vstd::prelude::*;

verus! {

/// A JSON value.
#[derive(Debug, PartialEq, Eq)]
pub enum Json {
    Null,
    Bool(bool),
    /// A number: the integer, where it is one that fits in 64 bits with a
    /// sign, and nothing for any other number.
    Number(Option<i64>),
    String(String),
    Array(Vec<Json>),
    /// An object: its members, each key once.
    Object(Vec<(String, Json)>),
}

/// The mathematical value of a [`Json`].
pub enum JsonView {
    Null,
    Bool(bool),
    Number(Option<i64>),
    String(Seq<char>),
    Array(Seq<JsonView>),
    Object(Seq<(Seq<char>, JsonView)>),
}

/// The mathematical value of a JSON value.
pub open spec fn json_view(j: Json) -> JsonView
    decreases j,
{
    match j {
        Json::Null => JsonView::Null,
        Json::Bool(b) => JsonView::Bool(b),
        Json::Number(n) => JsonView::Number(n),
        Json::String(s) => JsonView::String(s@),
        Json::Array(items) => JsonView::Array(
            Seq::new(
                items@.len(),
                |i: int|
                    if 0 <= i < items@.len() {
                        json_view(items@[i])
                    } else {
                        JsonView::Null
                    },
            ),
        ),
        Json::Object(members) => JsonView::Object(
            Seq::new(
                members@.len(),
                |i: int|
                    if 0 <= i < members@.len() {
                        (members@[i].0@, json_view(members@[i].1))
                    } else {
                        (Seq::empty(), JsonView::Null)
                    },
            ),
        ),
    }
}

impl View for Json {
    type V = JsonView;

    open spec fn view(&self) -> JsonView {
        json_view(*self)
    }
}

/// The members of an object as sequences of characters and values.
pub open spec fn members_view(members: Seq<(String, Json)>) -> Seq<(Seq<char>, JsonView)> {
    Seq::new(members.len(), |i: int| (members[i].0@, members[i].1@))
}

/// The values of an array, in order.
pub open spec fn items_view(items: Seq<Json>) -> Seq<JsonView> {
    Seq::new(items.len(), |i: int| items[i]@)
}

/// The keys of the members of an object, in order.
pub open spec fn member_keys(members: Seq<(Seq<char>, JsonView)>) -> Seq<Seq<char>> {
    members.map_values(|m: (Seq<char>, JsonView)| m.0)
}

/// The place of the first member of an object with the given key.
pub open spec fn member_index(members: Seq<(Seq<char>, JsonView)>, key: Seq<char>) -> Option<int> {
    first_index(member_keys(members), key)
}

/// The value of the first member of an object with the given key.
pub open spec fn member(members: Seq<(Seq<char>, JsonView)>, key: Seq<char>) -> Option<JsonView> {
    match member_index(members, key) {
        Some(i) => Some(members[i].1),
        None => None,
    }
}

/// [`member_index`] finds the first member with the key, and finds one
/// wherever there is one.
pub proof fn lemma_member_index(members: Seq<(Seq<char>, JsonView)>, key: Seq<char>)
    ensures
        match member_index(members, key) {
            Some(i) => 0 <= i < members.len() && members[i].0 == key && forall|k: int|
                0 <= k < i ==> (#[trigger] members[k]).0 != key,
            None => forall|k: int| 0 <= k < members.len() ==> (#[trigger] members[k]).0 != key,
        },
{
    let keys = member_keys(members);
    lemma_first_index(keys, key);
    assert forall|k: int| 0 <= k < members.len() implies keys[k] == (#[trigger] members[k]).0 by {}
}

/// The value that [`member`] finds is a part of the object.
pub proof fn lemma_member_decreases(members: Seq<(Seq<char>, JsonView)>, key: Seq<char>)
    ensures
        member(members, key) matches Some(v) ==> decreases_to!(members => v),
{
    lemma_member_index(members, key);
}

/// The view of an object is the views of its members.
pub proof fn lemma_object_view(members: Vec<(String, Json)>)
    ensures
        Json::Object(members)@ == JsonView::Object(members_view(members@)),
{
    assert(Json::Object(members)@->Object_0 =~= members_view(members@));
}

/// The view of an array is the views of its items.
pub proof fn lemma_array_view(items: Vec<Json>)
    ensures
        Json::Array(items)@ == JsonView::Array(items_view(items@)),
{
    assert(Json::Array(items)@->Array_0 =~= items_view(items@));
}

/// Makes `serde_json::Value` known as a type whose values are carried along
/// and never looked into.
#[verifier::external_type_specification]
#[verifier::external_body]
pub struct ExJsonValue(serde_json::Value);

/// The document that a text holds, as `serde_json` reads it; nothing where
/// `serde_json` rejects the text.
pub uninterp spec fn json_of_text(text: Seq<char>) -> Option<JsonView>;

/// Calls `serde_json::from_str` for a `serde_json::Value`.
///
/// Trusted: the outcome depends on the text alone. On success the tree is the
/// value that `serde_json` built, converted by [`json_from_value`]; on failure
/// the string is `serde_json`'s description of the fault.
#[verifier::external_body]
fn json_from_text(text: &str) -> (r: Result<Json, String>)
    ensures
        match r {
            Ok(j) => json_of_text(text@) == Some(j@),
            Err(_) => json_of_text(text@) is None,
        },
{
    match serde_json::from_str::<serde_json::Value>(text) {
        Ok(v) => Ok(json_from_value(v)),
        Err(e) => Err(e.to_string()),
    }
}

/// Converts a `serde_json::Value`, variant by variant. A number becomes what
/// `serde_json::Number::as_i64` returns for it; the members of an object come
/// in the order in which `serde_json::Map` hands them out.
///
/// Trusted, with nothing claimed of the result.
#[verifier::external_body]
fn json_from_value(v: serde_json::Value) -> Json {
    match v {
        serde_json::Value::Null => Json::Null,
        serde_json::Value::Bool(b) => Json::Bool(b),
        serde_json::Value::Number(n) => Json::Number(n.as_i64()),
        serde_json::Value::String(s) => Json::String(s),
        serde_json::Value::Array(a) => Json::Array(a.into_iter().map(json_from_value).collect()),
        serde_json::Value::Object(o) => Json::Object(
            o.into_iter().map(|(k, v)| (k, json_from_value(v))).collect(),
        ),
    }
}

/// What [`parse_json`] returns for a text.
pub open spec fn spec_parse_json(text: Seq<char>) -> Result<JsonView, ErrorView> {
    match json_of_text(text) {
        Some(j) => Ok(j),
        None => Err(ErrorView::MalformedJson),
    }
}

/// Reads a JSON document.
pub fn parse_json(text: &str) -> (r: DeltaResult<Json>)
    ensures
        match r {
            Ok(j) => spec_parse_json(text@) == Ok::<JsonView, ErrorView>(j@),
            Err(e) => spec_parse_json(text@) == Err::<JsonView, ErrorView>(e@),
        },
{
    match json_from_text(text) {
        Ok(j) => Ok(j),
        Err(msg) => Err(Error::MalformedJson(msg)),
    }
}

/// The place of the first member of an object with the given key.
pub fn find_member(members: &Vec<(String, Json)>, key: &str) -> (r: Option<usize>)
    ensures
        match r {
            Some(i) => member_index(members_view(members@), key@) == Some(i as int) && i
                < members.len(),
            None => member_index(members_view(members@), key@) is None,
        },
{
    assert(keys_of(members@) =~= member_keys(members_view(members@)));
    find_key(members, key)
}

} // verus!
