//! JSON documents, read through `serde_json`.

use vstd::prelude::*;
use vstd::string::*;

use crate::text::owned;

verus! {

broadcast use vstd::seq::group_seq_axioms;

/// `serde_json::Value`, a parsed document or a part of one.
#[verifier::external_type_specification]
#[verifier::external_body]
pub struct ExValue(serde_json::Value);

/// `serde_json::Error`, the reason a text did not parse.
#[verifier::external_type_specification]
#[verifier::external_body]
pub struct ExError(serde_json::Error);

/// What a JSON value holds. Numbers, booleans and `null` are not told apart:
/// nothing here reads one.
pub enum Json {
    Other,
    Text(Seq<char>),
    Array(Seq<Json>),
    Object(Map<Seq<char>, Json>),
}

impl Json {
    /// The member of an object called `key`.
    pub open spec fn member(self, key: Seq<char>) -> Option<Json> {
        match self {
            Json::Object(members) => if members.contains_key(key) {
                Some(members[key])
            } else {
                None
            },
            _ => None,
        }
    }

    /// The characters of a string.
    pub open spec fn text(self) -> Option<Seq<char>> {
        match self {
            Json::Text(text) => Some(text),
            _ => None,
        }
    }

    /// The member called `key`, where it is a string.
    pub open spec fn text_member(self, key: Seq<char>) -> Option<Seq<char>> {
        match self.member(key) {
            Some(member) => member.text(),
            None => None,
        }
    }

    /// The items of the member called `key`; none where it is no array.
    pub open spec fn items_member(self, key: Seq<char>) -> Seq<Json> {
        match self.member(key) {
            Some(Json::Array(items)) => items,
            _ => Seq::empty(),
        }
    }
}

/// What a `serde_json::Value` holds.
pub uninterp spec fn json_of(value: serde_json::Value) -> Json;

/// What `serde_json::from_str` makes of a text: the document, or `None` where
/// the text is not JSON that it accepts.
pub uninterp spec fn json_document(text: Seq<char>) -> Option<Json>;

/// Calls `serde_json::from_str` for a `serde_json::Value`. Which texts parse,
/// and to what, is named, not stated: the same text gives the same outcome.
#[verifier::external_body]
pub(crate) fn parse_json(text: &str) -> (parsed: Result<serde_json::Value, serde_json::Error>)
    ensures
        parsed is Ok == json_document(text@) is Some,
        parsed matches Ok(value) ==> json_document(text@) == Some(json_of(value)),
{
    serde_json::from_str(text)
}

/// Calls `serde_json::Value::get` with a string: the member of that name, of
/// an object that has one; `None` for anything else.
#[verifier::external_body]
fn get<'a>(value: &'a serde_json::Value, key: &str) -> (member: Option<&'a serde_json::Value>)
    ensures
        member is Some == json_of(*value).member(key@) is Some,
        member matches Some(found) ==> json_of(*value).member(key@) == Some(json_of(*found)),
{
    value.get(key)
}

/// Calls `serde_json::Value::as_str`: the characters of a string, `None` for
/// any other value.
#[verifier::external_body]
fn as_str<'a>(value: &'a serde_json::Value) -> (text: Option<&'a str>)
    ensures
        text is Some == json_of(*value).text() is Some,
        text matches Some(found) ==> json_of(*value).text() == Some(found@),
{
    value.as_str()
}

/// Calls `serde_json::Value::as_array`: the items of an array in order, `None`
/// for any other value.
#[verifier::external_body]
fn as_array<'a>(value: &'a serde_json::Value) -> (items: Option<&'a Vec<serde_json::Value>>)
    ensures
        items is Some == json_of(*value) is Array,
        items matches Some(found) ==> json_of(*value) == Json::Array(
            found@.map_values(|item: serde_json::Value| json_of(item)),
        ),
{
    value.as_array()
}

/// The member called `key`, where it is a string.
pub fn text_member(value: &serde_json::Value, key: &str) -> (text: Option<String>)
    ensures
        text.deep_view() == json_of(*value).text_member(key@),
{
    match get(value, key) {
        Some(member) => match as_str(member) {
            Some(text) => Some(owned(text)),
            None => None,
        },
        None => None,
    }
}

/// The items of the member called `key`, where it is an array.
pub fn items_member<'a>(value: &'a serde_json::Value, key: &str) -> (items: Option<
    &'a Vec<serde_json::Value>,
>)
    ensures
        json_of(*value).items_member(key@) == (match items {
            Some(found) => found@.map_values(|item: serde_json::Value| json_of(item)),
            None => Seq::empty(),
        }),
{
    match get(value, key) {
        Some(member) => as_array(member),
        None => None,
    }
}

/// An object's member is the value under its key, and only an object has any.
pub proof fn law_members_are_found_by_key(
    members: Map<Seq<char>, Json>,
    key: Seq<char>,
    items: Seq<Json>,
    text: Seq<char>,
)
    ensures
        members.dom().contains(key) ==> Json::Object(members).member(key) == Some(members[key]),
        !members.dom().contains(key) ==> Json::Object(members).member(key) is None,
        Json::Array(items).member(key) is None,
        Json::Text(text).member(key) is None,
        members.dom().contains(key) && members[key] == Json::Text(text) ==> Json::Object(
            members,
        ).text_member(key) == Some(text),
        members.dom().contains(key) && !(members[key] is Text) ==> Json::Object(
            members,
        ).text_member(key) is None,
        !members.dom().contains(key) ==> Json::Object(members).text_member(key) is None,
        members.dom().contains(key) && members[key] == Json::Array(items) ==> Json::Object(
            members,
        ).items_member(key) == items,
        members.dom().contains(key) && !(members[key] is Array) ==> Json::Object(
            members,
        ).items_member(key).len() == 0,
        !members.dom().contains(key) ==> Json::Object(members).items_member(key).len() == 0,
{
}

} // verus!
