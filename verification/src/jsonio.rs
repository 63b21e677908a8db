//! Trusted boundary to `serde_json`: parsing backend output into one
//! response envelope. What the parse yields is named as functions of
//! the text alone, so the callers' contracts can speak of it.

use vstd::prelude::*;
use crate::envelope::Envelope;

verus! {

#[verifier::external_type_specification]
#[verifier::external_body]
pub struct ExValue(serde_json::Value);

/// Whether `serde_json` accepts the text as one JSON document; a
/// function of the text alone.
pub uninterp spec fn json_wf(s: Seq<char>) -> bool;

/// Whether the document the text holds has the envelope shape: an
/// object whose `ok` member is a boolean and whose `error` member,
/// when present, is a string or null. A function of the text alone;
/// meaningful only when `json_wf` holds.
pub uninterp spec fn env_shape_ok(s: Seq<char>) -> bool;

/// The `ok` discriminant of the envelope the text holds.
pub uninterp spec fn env_ok_of(s: Seq<char>) -> bool;

/// The `error` member of the envelope the text holds, `None` when it
/// is absent or null.
pub uninterp spec fn env_err_of(s: Seq<char>) -> Option<Seq<char>>;

/// Whether the `data` member of the envelope the text holds is
/// absent or null.
pub uninterp spec fn env_data_absent(s: Seq<char>) -> bool;

/// The message with which parsing the text as an envelope fails:
/// `serde_json`'s rendered error for text that is not one JSON
/// document, a fixed shape complaint otherwise.
pub uninterp spec fn env_parse_err_of(s: Seq<char>) -> Seq<char>;

/// Relies on `serde_json::from_str::<Value>` and the `Value`
/// accessors `get`, `as_bool`, `as_str`, `is_null` and `Clone`:
/// parses the text as one JSON document and reads the envelope
/// members out of it, exactly as named above. Succeeds precisely on
/// one JSON document of the envelope shape; a null `data` or `error`
/// counts as absent, unknown members are ignored, and the `data`
/// value is handed through unchanged.
#[verifier::external_body]
pub fn parse_envelope(s: &str) -> (r: Result<Envelope, String>)
    ensures
        r is Ok <==> (json_wf(s@) && env_shape_ok(s@)),
        r is Ok ==> r->Ok_0.ok == env_ok_of(s@),
        r is Ok ==> ((r->Ok_0.error is Some) <==> (env_err_of(s@) is Some)),
        r is Ok && r->Ok_0.error is Some ==> r->Ok_0.error->0@ == env_err_of(s@)->0,
        r is Ok ==> ((r->Ok_0.data is Some) <==> !env_data_absent(s@)),
        r is Err ==> r->Err_0@ == env_parse_err_of(s@),
{
    let v: serde_json::Value = serde_json::from_str(s).map_err(|e| e.to_string())?;
    let ok = match v.get("ok").and_then(serde_json::Value::as_bool) {
        Some(b) => b,
        None => return Err("missing or non-boolean field `ok`".to_string()),
    };
    let error = match v.get("error").filter(|e| !e.is_null()).map(serde_json::Value::as_str) {
        None => None,
        Some(Some(t)) => Some(t.to_string()),
        Some(None) => return Err("non-string field `error`".to_string()),
    };
    Ok(Envelope { ok, data: v.get("data").filter(|d| !d.is_null()).cloned(), error })
}

} // verus!
