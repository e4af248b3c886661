//! The points where the library relies on outside code: serde_json's JSON value
//! type, which function-call arguments are carried in, the rendering of values as
//! JSON text, and the lossy decoding of UTF-8.

use std::collections::HashMap;
use vstd::prelude::*;

verus! {

/// serde_json's JSON value, carried through the library unopened.
#[verifier::external_type_specification]
#[verifier::external_body]
pub struct ExJsonValue(serde_json::Value);

/// The JSON text of an array of strings, as serde_json writes it.
pub uninterp spec fn json_array_text(items: Seq<Seq<char>>) -> Seq<char>;

/// Relies on serde_json::to_string: renders a map of argument names to JSON
/// values as one JSON object. The order of its entries follows the map's own
/// iteration order, so nothing is stated of the text.
#[verifier::external_body]
pub(crate) fn object_text(args: &HashMap<String, serde_json::Value>) -> String {
    serde_json::to_string(args).unwrap_or_default()
}

/// Relies on serde_json::to_string: renders a list of strings as a JSON array,
/// which depends on the strings alone.
#[verifier::external_body]
pub(crate) fn array_text(items: &Vec<&str>) -> (r: String)
    ensures
        r@ == json_array_text(items@.map_values(|s: &str| s@)),
{
    serde_json::to_string(items).unwrap_or_default()
}

/// The text that lossy UTF-8 decoding makes of some bytes: each invalid
/// sequence becomes U+FFFD.
pub uninterp spec fn lossy_text(bytes: Seq<u8>) -> Seq<char>;

/// Relies on String::from_utf8_lossy: decodes bytes as UTF-8, replacing each
/// invalid sequence; the result depends on the bytes alone.
#[verifier::external_body]
pub(crate) fn decode_lossy(bytes: &[u8]) -> (r: String)
    ensures
        r@ == lossy_text(bytes@),
{
    String::from_utf8_lossy(bytes).into_owned()
}

} // verus!
