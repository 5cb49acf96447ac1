//! Reading single values out of JSON documents.

use vstd::prelude::*;

verus! {

/// The integer that the document `body` holds at the JSON pointer `pointer`, if it holds one.
pub uninterp spec fn json_number(body: Seq<char>, pointer: Seq<char>) -> Option<i64>;

/// Whether the document `body` holds anything at the JSON pointer `pointer`.
pub uninterp spec fn json_present(body: Seq<char>, pointer: Seq<char>) -> bool;

/// `serde_json::from_str` into a `serde_json::Value`, then `Value::pointer` and
/// `Value::as_i64`: the integer at `pointer`, or `None` where the text is no JSON document, the
/// pointer leads nowhere, or what it leads to is no 64-bit signed integer.
///
/// The claim is that the result depends on the text and the pointer alone.
#[verifier::external_body]
pub(crate) fn number_at(body: &str, pointer: &str) -> (number: Option<i64>)
    ensures
        number == json_number(body@, pointer@),
{
    serde_json::from_str::<serde_json::Value>(body).ok()?.pointer(pointer)?.as_i64()
}

/// `serde_json::from_str` into a `serde_json::Value`, then `Value::pointer`: whether the text is
/// a JSON document in which the pointer leads somewhere.
///
/// The claim is that the result depends on the text and the pointer alone.
#[verifier::external_body]
pub(crate) fn present_at(body: &str, pointer: &str) -> (present: bool)
    ensures
        present == json_present(body@, pointer@),
{
    match serde_json::from_str::<serde_json::Value>(body) {
        Ok(document) => document.pointer(pointer).is_some(),
        Err(_) => false,
    }
}

} // verus!
