//! Reading members of JSON documents through `serde_json`.
//!
//! Each function parses the whole text with `serde_json::from_str` into a
//! `serde_json::Value` and hands back plain values; what the crate computes
//! is named by an uninterpreted function of the text and the member names.
use vstd::prelude::*;

verus! {

/// The view of an optional `String`.
pub open spec fn opt_view(o: Option<String>) -> Option<Seq<char>> {
    match o {
        Some(s) => Some(s@),
        None => None,
    }
}

/// What `serde_json::from_str::<serde_json::Value>` reports on `text`:
/// `None` when the text is one JSON value, the error's display text otherwise.
pub uninterp spec fn json_syntax_error(text: Seq<char>) -> Option<Seq<char>>;

/// For `text` parsed into a `serde_json::Value`, what
/// `value.get(key).and_then(Value::as_str)` gives: the member's text when
/// `text` is an object whose member `key` is a string, `None` otherwise.
pub uninterp spec fn json_member_str(text: Seq<char>, key: Seq<char>) -> Option<Seq<char>>;

/// For `text` parsed into a `serde_json::Value`, what
/// `value.get(key).and_then(Value::as_u64)` gives: the member's value when
/// `text` is an object whose member `key` is an integer that fits a `u64`.
pub uninterp spec fn json_member_u64(text: Seq<char>, key: Seq<char>) -> Option<u64>;

/// For `text` parsed into a `serde_json::Value`, what
/// `value.get(outer).and_then(|p| p.get(key)).and_then(Value::as_str)` gives.
pub uninterp spec fn json_nested_member_str(
    text: Seq<char>,
    outer: Seq<char>,
    key: Seq<char>,
) -> Option<Seq<char>>;

/// Calls `serde_json::from_str::<serde_json::Value>` on `text`. Claimed: the
/// result is `None` when the call succeeds and the error's display text
/// otherwise, which is `json_syntax_error(text)`.
#[verifier::external_body]
pub(crate) fn json_syntax_check(text: &str) -> (r: Option<String>)
    ensures
        opt_view(r) == json_syntax_error(text@),
{
    match serde_json::from_str::<serde_json::Value>(text) {
        Ok(_) => None,
        Err(e) => Some(e.to_string()),
    }
}

/// Calls `serde_json::from_str::<serde_json::Value>`, `Value::get(key)` and
/// `Value::as_str`. Claimed: the result is `json_member_str(text, key)`, and
/// `None` whenever the text does not parse.
#[verifier::external_body]
pub(crate) fn json_member_str_of(text: &str, key: &str) -> (r: Option<String>)
    ensures
        opt_view(r) == json_member_str(text@, key@),
        json_syntax_error(text@) is Some ==> r is None,
{
    serde_json::from_str::<serde_json::Value>(text)
        .ok()
        .and_then(|v| v.get(key).and_then(serde_json::Value::as_str).map(str::to_string))
}

/// Calls `serde_json::from_str::<serde_json::Value>`, `Value::get(key)` and
/// `Value::as_u64`. Claimed: the result is `json_member_u64(text, key)`, and
/// `None` whenever the text does not parse.
#[verifier::external_body]
pub(crate) fn json_member_u64_of(text: &str, key: &str) -> (r: Option<u64>)
    ensures
        r == json_member_u64(text@, key@),
        json_syntax_error(text@) is Some ==> r is None,
{
    serde_json::from_str::<serde_json::Value>(text)
        .ok()
        .and_then(|v| v.get(key).and_then(serde_json::Value::as_u64))
}

/// Calls `serde_json::from_str::<serde_json::Value>`, `Value::get` twice and
/// `Value::as_str`. Claimed: the result is
/// `json_nested_member_str(text, outer, key)`, and `None` whenever the text
/// does not parse.
#[verifier::external_body]
pub(crate) fn json_nested_member_str_of(text: &str, outer: &str, key: &str) -> (r: Option<
    String,
>)
    ensures
        opt_view(r) == json_nested_member_str(text@, outer@, key@),
        json_syntax_error(text@) is Some ==> r is None,
{
    serde_json::from_str::<serde_json::Value>(text).ok().and_then(|v| {
        v.get(outer).and_then(|p| p.get(key)).and_then(serde_json::Value::as_str).map(str::to_string)
    })
}

} // verus!
