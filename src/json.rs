//! Reading JSON bodies through the `json` crate.
use vstd::prelude::*;

use crate::text::opt_view;

verus! {

#[verifier::external_type_specification]
#[verifier::external_body]
pub struct ExJsonValue(json::JsonValue);

/// Relies on json::parse: whether it accepts the text.
pub uninterp spec fn json_parses(text: Seq<char>) -> bool;

/// Relies on json::parse, then indexing by a key and JsonValue::as_str: the
/// string held under `key` in the top-level object of the text.
pub uninterp spec fn json_member_string(text: Seq<char>, key: Seq<char>) -> Option<Seq<char>>;

/// Relies on json::parse, then indexing by a key and JsonValue::as_bool: the
/// boolean held under `key` in the top-level object of the text.
pub uninterp spec fn json_member_bool(text: Seq<char>, key: Seq<char>) -> Option<bool>;

/// Relies on json::parse, then JsonValue::entries and JsonValue::as_str: the
/// members of the top-level object of the text, with the string each holds.
pub uninterp spec fn json_string_entries(text: Seq<char>) -> Seq<(Seq<char>, Option<Seq<char>>)>;

/// The view of a list of members and their optional string values.
pub open spec fn entries_view(v: Seq<(String, Option<String>)>) -> Seq<(Seq<char>, Option<Seq<char>>)> {
    v.map_values(|e: (String, Option<String>)| (e.0@, opt_view(e.1)))
}

/// Relies on json::parse: parses the text as a JSON document.
#[verifier::external_body]
pub(crate) fn parse_json(text: &str) -> (r: Option<json::JsonValue>)
    ensures
        r is Some <==> json_parses(text@),
{
    json::parse(text).ok()
}

/// Relies on json::parse, indexing by `key` and JsonValue::as_str.
#[verifier::external_body]
pub(crate) fn json_string_member(text: &str, key: &str) -> (r: Option<String>)
    ensures
        opt_view(r) == json_member_string(text@, key@),
        r is Some ==> json_parses(text@),
{
    match json::parse(text) {
        Ok(value) => value[key].as_str().map(|s| s.to_string()),
        Err(_) => None,
    }
}

/// Relies on json::parse, indexing by `key` and JsonValue::as_bool.
#[verifier::external_body]
pub(crate) fn json_bool_member(text: &str, key: &str) -> (r: Option<bool>)
    ensures
        r == json_member_bool(text@, key@),
        r is Some ==> json_parses(text@),
{
    match json::parse(text) {
        Ok(value) => value[key].as_bool(),
        Err(_) => None,
    }
}

/// Relies on json::parse, JsonValue::entries and JsonValue::as_str.
#[verifier::external_body]
pub(crate) fn json_entries(text: &str) -> (r: Option<Vec<(String, Option<String>)>>)
    ensures
        r is Some <==> json_parses(text@),
        r matches Some(v) ==> entries_view(v@) == json_string_entries(text@),
{
    json::parse(text).ok().map(|value| {
        value.entries().map(|(k, v)| (k.to_string(), v.as_str().map(|s| s.to_string()))).collect()
    })
}

} // verus!
