//! Trusted surface over serde_json: the opaque JSON value and error types,
//! the renderer, and the parser.

use vstd::prelude::*;

verus! {

#[verifier::external_type_specification]
#[verifier::external_body]
pub struct ExJsonValue(serde_json::Value);

#[verifier::external_type_specification]
#[verifier::external_body]
pub struct ExJsonError(serde_json::Error);

/// The compact JSON text serde_json renders a value to.
pub uninterp spec fn json_text_of(v: serde_json::Value) -> Seq<char>;

/// The value serde_json parses a text to: `None` where the text is not valid
/// JSON.
pub uninterp spec fn parsed_json(s: Seq<char>) -> Option<serde_json::Value>;

/// The message of one serde_json parse error.
pub uninterp spec fn json_error_text(e: serde_json::Error) -> Seq<char>;

/// The message of the parse error serde_json reports for a text it rejects,
/// a function of the text alone.
pub uninterp spec fn parse_error_text_of(s: Seq<char>) -> Seq<char>;

/// Relies on serde_json::Value's Display implementation: renders the value
/// as compact JSON text, the same text for the same value on every call.
#[verifier::external_body]
pub(crate) fn render_json(value: &serde_json::Value) -> (r: String)
    ensures
        r@ == json_text_of(*value),
{
    value.to_string()
}

/// Relies on serde_json::from_str::<Value>: parses JSON text
/// deterministically, and any text rendered from a value that it accepts at
/// all parses back to a value deeply equal to it — exact for floats too,
/// which is why this crate enables serde_json's `float_roundtrip` feature.
/// (The parser does not accept every rendering: it enforces a
/// nesting-depth limit that the renderer does not.)
#[verifier::external_body]
pub(crate) fn parse_json(s: &str) -> (r: Result<serde_json::Value, serde_json::Error>)
    ensures
        r matches Ok(v) ==> parsed_json(s@) == Some(v),
        r matches Err(e) ==> parsed_json(s@) is None && json_error_text(e) == parse_error_text_of(
            s@,
        ),
        r matches Ok(w) ==> forall|v: serde_json::Value| s@ == json_text_of(v) ==> w == v,
{
    serde_json::from_str(s)
}

/// Relies on serde_json::Error's Display implementation: the parse failure
/// message, a function of the error alone.
#[verifier::external_body]
pub(crate) fn json_error_string(e: &serde_json::Error) -> (r: String)
    ensures
        r@ == json_error_text(*e),
{
    e.to_string()
}

} // verus!
