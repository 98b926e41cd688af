//! Reading members out of a JSON document. The parsing is `serde_json`'s and
//! is taken on trust: each function here names what the parser returns and
//! claims no more than that it depends on the text and the key alone.

use vstd::prelude::*;
use crate::utility::option_view;

verus! {

/// The integer that `serde_json` finds under `key` in the document `text`:
/// `None` when `text` is no JSON document, when the document is no object or
/// has no member `key`, or when that member is no integer that fits `i64`.
pub uninterp spec fn json_integer_at(text: Seq<char>, key: Seq<char>) -> Option<i64>;

/// The string that `serde_json` finds under `key` in the document `text`:
/// `None` when `text` is no JSON document, when the document is no object or
/// has no member `key`, or when that member is no string.
pub uninterp spec fn json_string_at(text: Seq<char>, key: Seq<char>) -> Option<Seq<char>>;

/// Parses `text` with `serde_json::from_str` into a `serde_json::Value`,
/// indexes the value by `key` and reads the member with `Value::as_i64`.
/// Trusted: the result is the named function of `text` and `key`. A text
/// that does not parse gives `None`, as a missing member does.
#[verifier::external_body]
pub(crate) fn json_integer_member(text: &str, key: &str) -> (found: Option<i64>)
    ensures
        found == json_integer_at(text@, key@),
{
    match serde_json::from_str::<serde_json::Value>(text) {
        Ok(document) => document[key].as_i64(),
        Err(_) => None,
    }
}

/// Parses `text` with `serde_json::from_str` into a `serde_json::Value`,
/// indexes the value by `key` and reads the member with `Value::as_str`.
/// Trusted: the result is the named function of `text` and `key`. A text
/// that does not parse gives `None`, as a missing member does.
#[verifier::external_body]
pub(crate) fn json_string_member(text: &str, key: &str) -> (found: Option<String>)
    ensures
        option_view(found) == json_string_at(text@, key@),
{
    match serde_json::from_str::<serde_json::Value>(text) {
        Ok(document) => match document[key].as_str() {
            Some(member) => Some(member.to_owned()),
            None => None,
        },
        Err(_) => None,
    }
}

} // verus!
