//! JSON texts the service reads and writes.
use vstd::prelude::*;

verus! {

/// `text` parsed as JSON and written back in compact form (object keys in
/// sorted order), or `None` where `text` is not JSON.
pub uninterp spec fn json_compact(text: Seq<char>) -> Option<Seq<char>>;

/// `serde_json::from_str::<serde_json::Value>` followed by `to_string`: the
/// compact form of a JSON text. The contract names the result.
#[verifier::external_body]
pub fn reformat_json(text: &str) -> (r: Option<String>)
    ensures
        r is Some <==> json_compact(text@) is Some,
        r matches Some(s) ==> json_compact(text@) == Some(s@),
{
    match serde_json::from_str::<serde_json::Value>(text) {
        Ok(v) => Some(v.to_string()),
        Err(_) => None,
    }
}

} // verus!
