//! The deletion endpoint's body parse, through serde_json.

use vstd::prelude::*;

verus! {

/// Whether a byte sequence parses as a JSON document, as serde_json
/// accepts one.
pub uninterp spec fn json_accepts(b: Seq<u8>) -> bool;

/// The integer under the `id` key of the JSON document the bytes encode:
/// present exactly when the document has such a key and its value is an
/// integer representable as an i64.
pub uninterp spec fn json_id_field(b: Seq<u8>) -> Option<i64>;

/// Relies on serde_json::from_slice::<Value>, Value::get and
/// Value::as_i64: whether the bytes parse, and what integer stands under
/// their `id` key, are functions of the bytes alone. The outer option is
/// `None` exactly when the bytes are not JSON; the inner one is `None`
/// when the document has no `id` key or its value is not an i64 integer.
#[verifier::external_body]
pub(crate) fn parse_id_field(body: &[u8]) -> (r: Option<Option<i64>>)
    ensures
        r is Some <==> json_accepts(body@),
        (match r {
            Some(f) => f == json_id_field(body@),
            None => !json_accepts(body@),
        }),
{
    match serde_json::from_slice::<serde_json::Value>(body) {
        Ok(v) => Some(
            match v.get("id") {
                Some(x) => x.as_i64(),
                None => None,
            },
        ),
        Err(_) => None,
    }
}

} // verus!
