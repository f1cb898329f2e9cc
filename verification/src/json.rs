//! The boundary to `serde_json`.

use vstd::prelude::*;

verus! {

/// The error type of `serde_json`. Its contents are never inspected.
#[verifier::external_type_specification]
#[verifier::external_body]
pub struct ExJsonError(serde_json::Error);

/// The bytes that `serde_json::to_vec` yields for a string: its JSON string
/// literal, quotes included. `None` stands for the serializer reporting an
/// error.
pub uninterp spec fn json_string(s: Seq<char>) -> Option<Seq<u8>>;

/// Calls `serde_json::to_vec` on a string slice.
///
/// Trusted: the outcome depends on the characters of `s` alone, so it is
/// `json_string(s@)`. Nothing is claimed about when the call succeeds.
#[verifier::external_body]
pub(crate) fn encode_json_string(s: &str) -> (r: Result<Vec<u8>, serde_json::Error>)
    ensures
        match r {
            Ok(bytes) => json_string(s@) == Some(bytes@),
            Err(_) => json_string(s@) is None,
        },
{
    serde_json::to_vec(s)
}

} // verus!
