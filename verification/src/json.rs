//! JSON texts as `serde_json` reads them.
use vstd::prelude::*;

verus! {

/// Whether a text is one JSON value, as `serde_json` reads it.
pub uninterp spec fn is_json_text(text: Seq<char>) -> bool;

/// The compact JSON text of the value that `serde_json` reads from a text.
pub uninterp spec fn json_compact(text: Seq<char>) -> Seq<char>;

/// `serde_json::from_str::<serde_json::Value>` on the text, and the read
/// value written back with `to_string`: the compact text when the text is
/// one JSON value, else the parser's error, whose text is not stated.
#[verifier::external_body]
pub(crate) fn json_value_text(text: &str) -> (r: Result<String, String>)
    ensures
        r is Ok <==> is_json_text(text@),
        r matches Ok(j) ==> j@ == json_compact(text@),
{
    match serde_json::from_str::<serde_json::Value>(text) {
        Ok(v) => Ok(v.to_string()),
        Err(e) => Err(e.to_string()),
    }
}

} // verus!
