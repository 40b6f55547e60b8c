//! Trusted declarations for the JSON values that flow through the queue.
//!
//! Request and response bodies are `serde_json::Value`s.  The library never
//! looks inside one except through the few accessors declared here; it only
//! moves bodies around, which is exactly what the queue logic needs.

use vstd::prelude::*;

verus! {

#[verifier::external_type_specification]
#[verifier::external_body]
pub struct ExValue(serde_json::Value);

/// Relies on serde_json's derived `Clone` for `Value`: the copy has the same
/// JSON content as the original.
pub assume_specification[ <serde_json::Value as Clone>::clone ](
    v: &serde_json::Value,
) -> (r: serde_json::Value)
    ensures
        r == *v,
;

/// The boolean a JSON value holds, when it is a boolean.
pub uninterp spec fn value_bool_of(v: serde_json::Value) -> Option<bool>;

/// The signed 64-bit integer a JSON value holds, when it is such a number.
pub uninterp spec fn value_int_of(v: serde_json::Value) -> Option<i64>;

/// The characters a JSON value holds, when it is a string.
pub uninterp spec fn value_str_of(v: serde_json::Value) -> Option<Seq<char>>;

/// Relies on serde_json::Value::as_bool: `Some` exactly when the value is a
/// JSON boolean, carrying that boolean.
pub assume_specification[ serde_json::Value::as_bool ](v: &serde_json::Value) -> (r: Option<bool>)
    ensures
        r == value_bool_of(*v),
;

/// Relies on serde_json::Value::as_i64: `Some` exactly when the value is a
/// JSON number representable as an `i64`, carrying that integer.
pub assume_specification[ serde_json::Value::as_i64 ](v: &serde_json::Value) -> (r: Option<i64>)
    ensures
        r == value_int_of(*v),
;

/// Relies on serde_json::Value::as_str: `Some` exactly when the value is a
/// JSON string, borrowing its characters.
pub assume_specification[ serde_json::Value::as_str ](v: &serde_json::Value) -> (r: Option<&str>)
    ensures
        r is Some <==> value_str_of(*v) is Some,
        r matches Some(s) ==> value_str_of(*v) == Some(s@),
;

/// The text serde_json prints for a JSON value: a function of the value alone.
pub uninterp spec fn json_text_of(v: serde_json::Value) -> Seq<char>;

/// Relies on serde_json's `Display` for `Value` (via `to_string`): the printed
/// text depends on the value alone.
#[verifier::external_body]
pub(crate) fn value_to_text(v: &serde_json::Value) -> (r: String)
    ensures
        r@ == json_text_of(*v),
{
    v.to_string()
}

/// The JSON value a string parses to, when it parses: a function of the
/// characters alone.
pub uninterp spec fn parsed_json_of(s: Seq<char>) -> Option<serde_json::Value>;

/// Relies on serde_json::from_str::<Value>: parsing succeeds or fails, and the
/// parsed value depends on the input characters alone.
#[verifier::external_body]
pub(crate) fn parse_json(s: &str) -> (r: Option<serde_json::Value>)
    ensures
        r == parsed_json_of(s@),
{
    serde_json::from_str::<serde_json::Value>(s).ok()
}

} // verus!
