//! The JSON codec behind the reference storage backend.
//!
//! The whole backing resource, when well formed, is one JSON object whose
//! members are the entries of the mapping.  Serialization goes through an
//! ordered map, so the byte content is a function of the mapping alone:
//! equal mappings always serialize to identical bytes.

use std::collections::BTreeMap;
use vstd::prelude::*;

use crate::store::keys_unique;
use crate::store::map_of_pairs;

verus! {

/// The byte content that the JSON codec produces for a mapping.  It depends
/// on the mapping alone: entries are emitted in key order, so two equal
/// mappings give byte-identical content.
pub uninterp spec fn json_bytes_of(m: Map<Seq<char>, Seq<char>>) -> Seq<u8>;

/// The mapping that the JSON codec reads out of a byte content: `Some` of
/// the mapping when the content is a well-formed serialization of a
/// string-to-string mapping, `None` otherwise.
pub uninterp spec fn json_map_of(bytes: Seq<u8>) -> Option<Map<Seq<char>, Seq<char>>>;

/// Law: two flushes with no mutation between them write byte-identical
/// content, since the serialized form is a function of the mapping alone.
pub proof fn lemma_serialization_deterministic(
    m: Map<Seq<char>, Seq<char>>,
    b1: Seq<u8>,
    b2: Seq<u8>,
)
    requires
        b1 == json_bytes_of(m),
        b2 == json_bytes_of(m),
    ensures
        b1 == b2,
{
}

/// Relies on `serde_json::to_vec` applied to an ordered string-to-string
/// map: it serializes the entries as one JSON object, deterministically and
/// in key order, and such an object deserializes back to the same map.
/// Serialization of a map with string keys and string values cannot fail.
#[verifier::external_body]
pub(crate) fn encode_object(pairs: &Vec<(String, String)>) -> (r: Vec<u8>)
    ensures
        r@ == json_bytes_of(map_of_pairs(pairs@)),
        json_map_of(r@) == Some(map_of_pairs(pairs@)),
{
    let map: BTreeMap<&String, &String> = pairs.iter().map(|p| (&p.0, &p.1)).collect();
    serde_json::to_vec(&map).expect("maps with string keys serialize without error")
}

/// Relies on `serde_json::from_slice::<BTreeMap<String, String>>`: it reads
/// one JSON object of string members into a map with unique keys, and fails
/// on any other content; empty content is not a well-formed object.
#[verifier::external_body]
pub(crate) fn decode_object(bytes: &[u8]) -> (r: Option<Vec<(String, String)>>)
    ensures
        (match r {
            Some(pairs) => {
                &&& json_map_of(bytes@) == Some(map_of_pairs(pairs@))
                &&& keys_unique(pairs@)
            },
            None => json_map_of(bytes@) is None,
        }),
        bytes@.len() == 0 ==> r is None,
{
    match serde_json::from_slice::<BTreeMap<String, String>>(bytes) {
        Ok(map) => Some(map.into_iter().collect()),
        Err(_) => None,
    }
}

} // verus!
