//! The indented JSON encoding of a payload.

use vstd::prelude::*;

verus! {

/// `serde_json::Error`, the reason why a payload could not be encoded. It is
/// carried and dropped here, never read.
#[verifier::external_type_specification]
#[verifier::external_body]
pub struct ExJsonError(serde_json::Error);

/// Calls `serde_json::to_vec_pretty`.
///
/// Whether the call succeeds, and with which bytes, is decided by the
/// payload's `Serialize` impl, so nothing is stated of the result.
#[verifier::external_body]
pub(crate) fn to_pretty_bytes<T: serde::Serialize + ?Sized>(json: &T) -> (out: Result<
    Vec<u8>,
    serde_json::Error,
>) {
    serde_json::to_vec_pretty(json)
}

} // verus!
