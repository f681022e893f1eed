//! The JSON boundary: reducing an inbound text frame to the plain fields
//! the routing logic reads.
//!
//! Parsing and field access go through `serde_json`; each call stands
//! behind one trusted wrapper. A `serde_json::Value` is opaque to the
//! verifier, so nothing is claimed of what the wrappers return: the
//! verified logic (`process_frame`) takes the extracted `FrameData` as an
//! argument and is proved for every value of it.

use vstd::prelude::*;

use crate::frame::FrameData;

verus! {

#[verifier::external_type_specification]
#[verifier::external_body]
pub struct ExJsonValue(serde_json::Value);

/// Whether a text parses as a JSON document. What serde_json accepts is
/// a function of the characters alone, so the outcome has a name; what
/// the name holds on given text is settled only by calling the parser.
pub uninterp spec fn spec_parses(text: Seq<char>) -> bool;

/// Relies on serde_json::from_str: `Some` exactly when the text is valid
/// JSON, and then the parsed document.
#[verifier::external_body]
fn json_parse(text: &str) -> (r: Option<serde_json::Value>)
    ensures
        r is Some <==> spec_parses(text@),
{
    serde_json::from_str(text).ok()
}

/// Relies on serde_json::Value::get: the member of an object under this
/// key, `None` for non-objects and absent keys.
#[verifier::external_body]
fn json_get<'a>(v: &'a serde_json::Value, key: &str) -> Option<&'a serde_json::Value> {
    v.get(key)
}

/// Relies on serde_json::Value::as_u64: the value of a number that fits
/// in u64, `None` otherwise.
#[verifier::external_body]
fn json_as_u64(v: &serde_json::Value) -> Option<u64> {
    v.as_u64()
}

/// Relies on serde_json::Value::as_str: the content of a JSON string,
/// `None` for any other kind of value.
#[verifier::external_body]
fn json_as_string(v: &serde_json::Value) -> Option<String> {
    match v.as_str() {
        Some(s) => Some(s.to_owned()),
        None => None,
    }
}

/// Relies on serde_json::Value::is_object.
#[verifier::external_body]
fn json_is_object(v: &serde_json::Value) -> bool {
    v.is_object()
}

/// Reads out of a parsed frame the fields the routing logic looks at:
/// the correlation id (0 when absent or non-numeric), the numeric
/// `result`, the `method`, and the notification parameters. Absent or
/// mistyped fields become `None`, never a fault.
pub fn extract_frame_data(v: &serde_json::Value) -> FrameData {
    let id = match json_get(v, "id") {
        Some(x) => match json_as_u64(x) {
            Some(n) => n,
            None => 0,
        },
        None => 0,
    };
    let result_num = match json_get(v, "result") {
        Some(x) => json_as_u64(x),
        None => None,
    };
    let method = match json_get(v, "method") {
        Some(x) => json_as_string(x),
        None => None,
    };
    let mut params_present: bool = false;
    let mut subscription: Option<u64> = None;
    let mut result_present: bool = false;
    let mut package_id_field: Option<String> = None;
    match json_get(v, "params") {
        Some(p) => {
            if json_is_object(p) {
                params_present = true;
                subscription = match json_get(p, "subscription") {
                    Some(x) => json_as_u64(x),
                    None => None,
                };
                match json_get(p, "result") {
                    Some(rv) => {
                        if json_is_object(rv) {
                            result_present = true;
                            package_id_field = match json_get(rv, "packageId") {
                                Some(x) => json_as_string(x),
                                None => None,
                            };
                        }
                    },
                    None => {},
                }
            }
        },
        None => {},
    }
    FrameData { id, result_num, method, subscription, params_present, result_present, package_id_field }
}

/// Decodes one text frame: parses it as JSON and extracts the fields the
/// logic reads. `None` exactly on text that does not parse; the caller
/// logs and drops such frames, mutating nothing.
pub fn decode_text_frame(text: &str) -> (r: Option<FrameData>)
    ensures
        r is Some <==> spec_parses(text@),
{
    match json_parse(text) {
        Some(v) => Some(extract_frame_data(&v)),
        None => None,
    }
}

} // verus!
