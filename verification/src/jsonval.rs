//! Trusted boundary to `serde_json`: the core stores a request's or
//! response's JSON body as an opaque `serde_json::Value` and only parses and
//! copies such values through the items below.

use vstd::prelude::*;

verus! {

/// Declares `serde_json::Value` so it can stand in signatures and fields;
/// the core never looks inside such a value.
#[verifier::external_type_specification]
#[verifier::external_body]
pub struct ExValue(serde_json::Value);

/// Whether a string is a well-formed JSON document, exactly as
/// `serde_json`'s parser accepts it.
pub uninterp spec fn json_text_wf(s: Seq<char>) -> bool;

/// Relies on `serde_json::from_str::<Value>`: parsing a string succeeds
/// exactly when the text is a well-formed JSON document, and depends on the
/// text alone; on failure the parser's message is returned.
#[verifier::external_body]
pub(crate) fn parse_json(s: &str) -> (r: Result<serde_json::Value, String>)
    ensures
        r is Ok <==> json_text_wf(s@),
{
    match serde_json::from_str::<serde_json::Value>(s) {
        Ok(v) => Ok(v),
        Err(e) => Err(format!("{}", e)),
    }
}

/// Relies on `serde_json::Value::clone` (derived): the copy is structurally
/// equal to the original value.
#[verifier::external_body]
pub(crate) fn clone_json_value(v: &serde_json::Value) -> (r: serde_json::Value)
    ensures
        r == *v,
{
    v.clone()
}

} // verus!
