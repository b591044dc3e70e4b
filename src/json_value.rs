//! The structured JSON values that messages carry, and the calls into serde_json that turn
//! values and strings into JSON text.
use vstd::prelude::*;

verus! {

#[verifier::external_type_specification]
#[verifier::external_body]
pub struct ExValue(serde_json::Value);

#[verifier::external_type_specification]
#[verifier::external_body]
pub struct ExJsonError(serde_json::Error);

/// Relies on the derived `Clone` of `serde_json::Value`, which copies the value whole.
pub assume_specification[ <serde_json::Value as Clone>::clone ](v: &serde_json::Value) -> (r:
    serde_json::Value)
    ensures
        r == *v,
;

/// The compact JSON text that serde_json writes for a value.
pub uninterp spec fn value_text(v: serde_json::Value) -> Seq<char>;

/// The `Debug` rendering of a value.
pub uninterp spec fn value_debug_text(v: serde_json::Value) -> Seq<char>;

/// The JSON string literal for a sequence of characters: quotes and escapes included.
pub uninterp spec fn quoted(s: Seq<char>) -> Seq<char>;

/// The value that serde_json reads from a text, where the text is JSON.
pub uninterp spec fn parsed_value(s: Seq<char>) -> Option<serde_json::Value>;

/// Relies on `Display for serde_json::Value`, which writes the compact JSON text of the value
/// into memory and cannot fail there.
#[verifier::external_body]
pub fn value_to_json(v: &serde_json::Value) -> (r: String)
    ensures
        r@ == value_text(*v),
{
    v.to_string()
}

/// Relies on `Debug for serde_json::Value`.
#[verifier::external_body]
pub fn value_to_debug(v: &serde_json::Value) -> (r: String)
    ensures
        r@ == value_debug_text(*v),
{
    format!("{:?}", v)
}

/// Relies on `serde_json::to_string` for a `str`: it writes the quoted, escaped literal into
/// memory, where serializing a string does not fail.
#[verifier::external_body]
pub fn quote(s: &str) -> (r: String)
    ensures
        r@ == quoted(s@),
{
    match serde_json::to_string(s) {
        Ok(t) => t,
        Err(_) => String::new(),
    }
}

/// Relies on `serde_json::from_str::<serde_json::Value>`: it reads a text as one JSON value
/// and fails on any other text.
#[verifier::external_body]
pub fn parse_value(s: &str) -> (r: Result<serde_json::Value, serde_json::Error>)
    ensures
        r is Ok <==> parsed_value(s@) is Some,
        r is Ok ==> parsed_value(s@) == Some(r->Ok_0),
{
    serde_json::from_str::<serde_json::Value>(s)
}

} // verus!
