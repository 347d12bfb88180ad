//! Questions put to `serde_json` about JSON text.
//!
//! Each function parses JSON text into a `serde_json::Value` and reads one
//! thing from it. What a parse yields takes pages to state, so each answer
//! is given a name: a function of the text alone.

use vstd::prelude::*;
use crate::text::int_decimal;

verus! {

/// Whether `s` can stand between quotes in JSON text as it is: it holds no
/// quote, no backslash and no control character.
pub open spec fn plain_json_chars(s: Seq<char>) -> bool {
    forall|i: int|
        0 <= i < s.len() ==> #[trigger] s[i] != '"' && s[i] != '\\' && (s[i] as u32) >= 0x20
}

/// The JSON string literal of `s`, for `s` without characters to escape.
pub open spec fn json_string_text(s: Seq<char>) -> Seq<char> {
    seq!['"'] + s + seq!['"']
}

/// The JSON text of one object member whose value is a string.
pub open spec fn json_member_text(e: (Seq<char>, Seq<char>)) -> Seq<char> {
    json_string_text(e.0) + seq![':'] + json_string_text(e.1)
}

/// The members of an object, as JSON text separated by commas.
pub open spec fn json_members_text(m: Seq<(Seq<char>, Seq<char>)>) -> Seq<char>
    decreases m.len(),
{
    if m.len() == 0 {
        Seq::empty()
    } else if m.len() == 1 {
        json_member_text(m[0])
    } else {
        json_members_text(m.drop_last()) + seq![','] + json_member_text(m.last())
    }
}

/// The JSON text of an object whose members `m` are all strings, such as
/// `{"command":"buy","item":"apple"}`.
pub open spec fn json_object_text(m: Seq<(Seq<char>, Seq<char>)>) -> Seq<char> {
    seq!['{'] + json_members_text(m) + seq!['}']
}

/// Whether the members `m` have distinct names, and names and values that
/// need no escapes.
pub open spec fn plain_json_object(m: Seq<(Seq<char>, Seq<char>)>) -> bool {
    &&& forall|i: int|
        0 <= i < m.len() ==> plain_json_chars(#[trigger] m[i].0) && plain_json_chars(m[i].1)
    &&& forall|i: int, j: int|
        0 <= i < m.len() && 0 <= j < m.len() && i != j ==> #[trigger] m[i].0 != #[trigger] m[j].0
}

/// The value of the member named `key` among `m`, if there is one.
pub open spec fn member_value(m: Seq<(Seq<char>, Seq<char>)>, key: Seq<char>) -> Option<Seq<char>>
    decreases m.len(),
{
    if m.len() == 0 {
        None
    } else if m.last().0 == key {
        Some(m.last().1)
    } else {
        member_value(m.drop_last(), key)
    }
}

/// The string member `key` of the JSON object that `text` parses to; `None`
/// when `text` is not JSON, not an object, has no such member, or the member
/// is not a string.
pub uninterp spec fn json_string_member(text: Seq<char>, key: Seq<char>) -> Option<Seq<char>>;

/// The value of the JSON integer that `text` parses to, when it fits in an
/// `i64`; `None` for anything else.
pub uninterp spec fn json_integer(text: Seq<char>) -> Option<i64>;

/// The contents of the JSON string that `text` parses to; `None` for
/// anything else.
pub uninterp spec fn json_string(text: Seq<char>) -> Option<Seq<char>>;

/// Parses `text` with `serde_json::from_str::<Value>` and reads the member
/// `key` with `Map::get`, keeping it when it is a `Value::String`. The
/// contract names the answer ([`json_string_member`]) and states it for
/// the JSON text of an object of string members with distinct plain names:
/// the value of the member named `key`, whatever the other members are.
#[verifier::external_body]
pub(crate) fn string_member(text: &str, key: &str) -> (r: Option<String>)
    ensures
        forall|m: Seq<(Seq<char>, Seq<char>)>|
            #[trigger] json_object_text(m) == text@ && plain_json_object(m) ==> match r {
                Some(s) => member_value(m, key@) == Some(s@),
                None => member_value(m, key@) is None,
            },
        match r {
            Some(s) => json_string_member(text@, key@) == Some(s@),
            None => json_string_member(text@, key@) is None,
        },
{
    match serde_json::from_str::<serde_json::Value>(text) {
        Ok(serde_json::Value::Object(map)) => match map.get(key) {
            Some(serde_json::Value::String(s)) => Some(s.clone()),
            _ => None,
        },
        _ => None,
    }
}

/// Parses `text` with `serde_json::from_str::<Value>` and reads it with
/// `Value::as_i64`. The contract names the answer ([`json_integer`]) and
/// states it for the decimal text of an `i64`, negative ones included: that
/// number.
#[verifier::external_body]
pub(crate) fn integer(text: &str) -> (r: Option<i64>)
    ensures
        forall|n: i64| #[trigger] int_decimal(n as int) == text@ ==> r == Some(n),
        r == json_integer(text@),
{
    match serde_json::from_str::<serde_json::Value>(text) {
        Ok(v) => v.as_i64(),
        Err(_) => None,
    }
}

/// Parses `text` with `serde_json::from_str::<Value>` and reads it with
/// `Value::as_str`. The contract names the answer ([`json_string`]) and
/// states it for a string literal without escapes: its contents.
#[verifier::external_body]
pub(crate) fn string(text: &str) -> (r: Option<String>)
    ensures
        forall|c: Seq<char>|
            #[trigger] json_string_text(c) == text@ && plain_json_chars(c) ==> r is Some
                && r.unwrap()@ == c,
        match r {
            Some(s) => json_string(text@) == Some(s@),
            None => json_string(text@) is None,
        },
{
    match serde_json::from_str::<serde_json::Value>(text) {
        Ok(v) => v.as_str().map(|s| s.to_string()),
        Err(_) => None,
    }
}

} // verus!
