//! Reading entries of a list of JSON values, each held as JSON text.

use vstd::prelude::*;
use crate::json::{integer, json_integer, json_string, json_string_text, plain_json_chars, string};
use crate::text::int_decimal;

verus! {

/// The entry `i` of `v` as an `i64`, when it exists and is a JSON integer
/// that fits.
pub fn get_i64(v: &[String], i: usize) -> (r: Option<i64>)
    ensures
        r == (if i < v@.len() {
            json_integer(v@[i as int]@)
        } else {
            None
        }),
        forall|n: i64|
            i < v@.len() && #[trigger] int_decimal(n as int) == v@[i as int]@ ==> r == Some(n),
{
    if i < v.len() {
        integer(v[i].as_str())
    } else {
        None
    }
}

/// The entry `i` of `v` as a string, when it exists and is a JSON string.
pub fn get_str(v: &[String], i: usize) -> (r: Option<String>)
    ensures
        match r {
            Some(s) => i < v@.len() && json_string(v@[i as int]@) == Some(s@),
            None => i >= v@.len() || json_string(v@[i as int]@) is None,
        },
        forall|c: Seq<char>|
            i < v@.len() && #[trigger] json_string_text(c) == v@[i as int]@ && plain_json_chars(c)
                ==> r is Some && r.unwrap()@ == c,
{
    if i < v.len() {
        string(v[i].as_str())
    } else {
        None
    }
}

} // verus!
