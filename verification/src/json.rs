//! JSON messages parsed and written out again by `serde_json`.

use vstd::prelude::*;

verus! {

#[verifier::external_type_specification]
#[verifier::external_body]
pub struct ExJsonError(serde_json::Error);

/// The compact JSON text of the value that `serde_json` reads from `raw`;
/// nothing when it refuses the text.
pub uninterp spec fn json_compact_text(raw: Seq<char>) -> Option<Seq<u8>>;

/// `serde_json::from_str::<Value>`, then `serde_json::to_vec` on the value.
/// Parsing fails exactly on the texts `serde_json` refuses; writing a
/// `Value` into a `Vec` cannot fail, since a `Value` holds only string map
/// keys and finite numbers. The compact formatter writes no whitespace
/// between tokens and escapes a newline inside a string as `\n`, so the
/// text holds no newline byte.
#[verifier::external_body]
pub(crate) fn compact_json(raw: &str) -> (r: Result<Vec<u8>, serde_json::Error>)
    ensures
        r is Ok <==> json_compact_text(raw@) is Some,
        r matches Ok(text) ==> json_compact_text(raw@) == Some(text@),
        r matches Ok(text) ==> !text@.contains(10u8),
{
    let value: serde_json::Value = serde_json::from_str(raw)?;
    serde_json::to_vec(&value)
}

} // verus!
