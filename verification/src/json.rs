use vstd::prelude::*;

use crate::table::entries_map;

verus! {

/// What `serde_json` reads from `bytes` as a JSON object of text values:
/// `Some` of its entries, or `None` where it refuses the bytes.
pub uninterp spec fn json_string_map(bytes: Seq<u8>) -> Option<Map<Seq<char>, Seq<char>>>;

/// The text values of a sequence of entries.
pub open spec fn text_entries_map(s: Seq<(String, String)>) -> Map<Seq<char>, Seq<char>> {
    entries_map(s).map_values(|v: String| v@)
}

/// The text (by its `Display` impl) of the error that `serde_json` reports where it
/// refuses `bytes` as a JSON object of text values; it names the place and the fault,
/// and depends on the bytes alone.
pub uninterp spec fn json_error_message(bytes: Seq<u8>) -> Seq<char>;

/// Calls `serde_json::from_slice` for a `HashMap<String, String>` and hands its entries
/// out as a vector, or its error as text. Claimed: on success the entries are what
/// `json_string_map` names for these bytes (a hash map holds each key once, so their
/// order does not matter); on failure `json_string_map` is `None` for them and the text
/// is what `json_error_message` names for them.
#[verifier::external_body]
pub(crate) fn decode_string_map(bytes: &[u8]) -> (r: Result<Vec<(String, String)>, String>)
    ensures
        match r {
            Ok(entries) => json_string_map(bytes@) == Some(text_entries_map(entries@)),
            Err(text) => json_string_map(bytes@) is None && text@ == json_error_message(bytes@),
        },
{
    match serde_json::from_slice::<std::collections::HashMap<String, String>>(bytes) {
        Ok(m) => Ok(m.into_iter().collect()),
        Err(e) => Err(e.to_string()),
    }
}

/// Collects the entries into a `HashMap` (a later entry for a key replacing an earlier
/// one) and calls `serde_json::to_vec` on it. Claimed: it succeeds (serde_json fails only
/// where a `Serialize` impl fails or a map key is no string, and keys and values here are
/// strings), and the bytes are a JSON object that `serde_json` reads back as the same
/// entries.
#[verifier::external_body]
pub(crate) fn encode_string_map(entries: &Vec<(String, String)>) -> (r: Result<Vec<u8>, serde_json::Error>)
    ensures
        r is Ok,
        match r {
            Ok(bytes) => json_string_map(bytes@) == Some(text_entries_map(entries@)),
            Err(_) => false,
        },
{
    let m: std::collections::HashMap<&String, &String> = entries.iter().map(|e| (&e.0, &e.1)).collect();
    serde_json::to_vec(&m)
}

} // verus!
