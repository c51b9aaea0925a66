//! The keyboard's JSON value and its serialization.
//!
//! A keyboard is carried through this layer as an opaque JSON value and is
//! encoded to text only when a send assembles its parameters; an encoding
//! failure is reported to the caller of `send`, never swallowed.

use vstd::prelude::*;

verus! {

/// serde_json::Value, the structured keyboard descriptor, carried through
/// this layer opaquely: nothing inside it is read here.
#[verifier::external_type_specification]
#[verifier::external_body]
pub struct ExJsonValue(serde_json::Value);

/// serde_json::Error, the serializer's error, carried only to be turned into
/// this library's serialization error.
#[verifier::external_type_specification]
#[verifier::external_body]
pub struct ExJsonError(serde_json::Error);

/// Relies on serde_json::to_string: encodes the JSON value as JSON text, or
/// reports the serializer's error.
#[verifier::external_body]
pub(crate) fn json_to_string(value: &serde_json::Value) -> (r: Result<
    String,
    serde_json::Error,
>) {
    serde_json::to_string(value)
}

/// Relies on serde_json::Error's Display implementation for the error's text.
#[verifier::external_body]
pub(crate) fn json_error_text(error: &serde_json::Error) -> (r: String) {
    error.to_string()
}

} // verus!
