//! Publication: serializing a snapshot to its canonical JSON text.
//!
//! The published document is one compact JSON object whose keys are the
//! snapshot's property names and whose values are their coerced strings.
//! Writing the text durably to the well-known path — staged at a sibling
//! path and renamed into place so a concurrent reader never observes a
//! partial document — is filesystem work and is carried out by the
//! surrounding binary.

use crate::snapshot::Snapshot;
use vstd::prelude::*;

verus! {

/// The canonical compact JSON object text of a string-to-string mapping:
/// keys in ascending order, every value a JSON string.
pub uninterp spec fn json_of(m: Map<Seq<char>, Seq<char>>) -> Seq<char>;

/// Relies on serde_json::to_string over serde_json::Map (a B-tree map, so
/// the emitted key order and hence the whole text is a function of the
/// key-value mapping alone), and on serde_json's guarantee that serializing
/// a map with string keys and string values cannot fail.
#[verifier::external_body]
fn encode_json(s: &Snapshot) -> (r: String)
    ensures
        r@ == json_of(s@),
{
    let mut object = serde_json::Map::new();
    for (k, v) in s.entries.iter() {
        object.insert(k.clone(), serde_json::Value::String(v.clone()));
    }
    serde_json::to_string(&serde_json::Value::Object(object)).expect(
        "a map of strings always serializes",
    )
}

/// Serializes a snapshot to the text to be published: one compact JSON
/// object, its key set and values exactly the snapshot's mapping.
pub fn render_snapshot(s: &Snapshot) -> (r: String)
    ensures
        r@ == json_of(s@),
{
    encode_json(s)
}

} // verus!
