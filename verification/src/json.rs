//! Validity of the structured-text configuration artifact.

use vstd::prelude::*;

verus! {

/// Whether a string is a well-formed configuration document. The shape of the
/// grammar is left to the parser below; all that matters to the kernel is
/// that validity is a function of the characters alone.
pub uninterp spec fn json_well_formed(s: Seq<char>) -> bool;

/// Simple validation of the configuration text's format.
///
/// Relies on `serde_json::from_str::<serde_json::Value>`: it returns `Ok`
/// exactly when the input is one complete well-formed JSON document, and
/// whether it parses depends on the characters alone.
#[verifier::external_body]
pub fn validate_json(json_str: &str) -> (r: Result<(), String>)
    ensures
        r is Ok <==> json_well_formed(json_str@),
{
    match serde_json::from_str::<serde_json::Value>(json_str) {
        Ok(_) => Ok(()),
        Err(e) => Err(e.to_string()),
    }
}

} // verus!
