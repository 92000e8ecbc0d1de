use vstd::prelude::*;

verus! {

/// Whether `serde_json::from_str::<serde_json::Value>` accepts a string as a
/// complete JSON document. Parsing is a pure function of the text, so the
/// outcome deserves a name that contracts can share; the grammar itself is
/// not restated here.
pub uninterp spec fn is_json_text(s: Seq<char>) -> bool;

/// Relies on `serde_json::from_str::<serde_json::Value>`: whether it succeeds
/// depends on the input text alone, and it rejects an empty input, since a
/// JSON document holds at least one value.
#[verifier::external_body]
pub(crate) fn json_accepts(s: &str) -> (r: bool)
    ensures
        r == is_json_text(s@),
        s@.len() == 0 ==> !r,
{
    serde_json::from_str::<serde_json::Value>(s).is_ok()
}

} // verus!
