//! Trusted surface over std's UTF-8 decoding of captured subprocess output.
//! Strict decoding (for primary output) favors correctness; lossy decoding
//! (for diagnostics) favors availability.

use vstd::prelude::*;
use vstd::utf8::{decode_utf8, valid_utf8};

verus! {

/// The text lossy decoding renders a byte sequence to: invalid sequences
/// are replaced, valid UTF-8 decodes unchanged.
pub uninterp spec fn lossy_decoded(bytes: Seq<u8>) -> Seq<char>;

/// The message of the std error describing why a byte sequence is not valid
/// UTF-8, a function of the bytes alone.
pub uninterp spec fn utf8_error_text(bytes: Seq<u8>) -> Seq<char>;

/// Relies on String::from_utf8: succeeds exactly on valid UTF-8 and decodes
/// it; the failure message is std::string::FromUtf8Error's text.
#[verifier::external_body]
pub(crate) fn decode_utf8_bytes(bytes: Vec<u8>) -> (r: Result<String, String>)
    ensures
        r matches Ok(s) ==> valid_utf8(bytes@) && s@ == decode_utf8(bytes@),
        r matches Err(m) ==> !valid_utf8(bytes@) && m@ == utf8_error_text(bytes@),
        r is Ok <== valid_utf8(bytes@),
{
    String::from_utf8(bytes).map_err(|e| e.to_string())
}

/// Relies on String::from_utf8_lossy: decodes permissively, replacing
/// invalid sequences with the replacement character; valid UTF-8 decodes
/// unchanged.
#[verifier::external_body]
pub(crate) fn decode_utf8_lossy(bytes: &Vec<u8>) -> (r: String)
    ensures
        r@ == lossy_decoded(bytes@),
        r@ == decode_utf8(bytes@) <== valid_utf8(bytes@),
{
    String::from_utf8_lossy(bytes.as_slice()).into_owned()
}

} // verus!
