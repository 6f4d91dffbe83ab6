//! The JSON boundary of the library.
//!
//! A notification's body is an arbitrary JSON value, opaque to the recorder:
//! it is parsed once on the way in and never interpreted. The value and the
//! parse error are `serde_json` types, declared here so that verified code
//! can carry them through, and the one parsing call stands behind a trusted
//! wrapper whose contract names when it succeeds.

use vstd::prelude::*;

verus! {

#[verifier::external_type_specification]
#[verifier::external_body]
pub struct ExValue(serde_json::Value);

#[verifier::external_type_specification]
#[verifier::external_body]
pub struct ExError(serde_json::Error);

/// Whether the bytes form one well-formed JSON document (a single JSON
/// value of any shape, with nothing but whitespace around it).
pub uninterp spec fn is_json_bytes(bytes: Seq<u8>) -> bool;

/// Relies on `serde_json::from_slice::<Value>`: the result is a function of
/// the bytes alone, and it is `Ok` exactly when the bytes are one
/// well-formed JSON document.
#[verifier::external_body]
pub(crate) fn parse_json(bytes: &[u8]) -> (r: Result<serde_json::Value, serde_json::Error>)
    ensures
        r is Ok <==> is_json_bytes(bytes@),
{
    serde_json::from_slice(bytes)
}

} // verus!
