//! The message decoder: every payload that a run counts must parse as a
//! JSON document, and a malformed payload aborts the run.
//!
//! Whether an input parses is a function of that input alone, but the
//! JSON grammar is far too large to restate here, so it is only named:
//! `json_text_wellformed` and `json_bytes_wellformed` stand for "this
//! input parses", and the wrappers below tie the names to the parser.

use vstd::prelude::*;

verus! {

/// Whether a string parses as a JSON document.
pub uninterp spec fn json_text_wellformed(s: Seq<char>) -> bool;

/// Whether a byte sequence parses as a JSON document.
pub uninterp spec fn json_bytes_wellformed(b: Seq<u8>) -> bool;

/// Relies on serde_json::from_str::<Value>: it returns `Ok` exactly when
/// its input is a well-formed JSON document, and that depends on the
/// input's characters alone.
#[verifier::external_body]
pub(crate) fn json_text_parses(s: &str) -> (r: bool)
    ensures
        r == json_text_wellformed(s@),
{
    serde_json::from_str::<serde_json::Value>(s).is_ok()
}

/// Relies on serde_json::from_slice::<Value>: it returns `Ok` exactly
/// when its input is a well-formed JSON document, and that depends on
/// the input's bytes alone.
#[verifier::external_body]
pub(crate) fn json_bytes_parses(b: &[u8]) -> (r: bool)
    ensures
        r == json_bytes_wellformed(b@),
{
    serde_json::from_slice::<serde_json::Value>(b).is_ok()
}

} // verus!
