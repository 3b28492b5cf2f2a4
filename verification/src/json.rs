//! A plain model of JSON values.
//!
//! The gateway's response envelope is JSON; the client's own reasoning about
//! it (which top-level keys are present, what the error entries say) is done
//! on this type. Encoding and decoding between text and this model is
//! delegated to the JSON library (see `codec`). Numbers carry their literal
//! text, so any JSON document can be held without loss.

use vstd::prelude::*;

verus! {

/// A JSON document. An object is a list of key/value pairs in document
/// order; key lookup takes the first pair with the given key.
#[derive(Debug)]
pub enum JsonValue {
    Null,
    Bool(bool),
    /// A number, as its literal text (for example `"12"` or `"0.5"`).
    Number(String),
    Text(String),
    Array(Vec<JsonValue>),
    Object(Vec<(String, JsonValue)>),
}

/// The value of the first pair in `entries` whose key reads `key`,
/// if there is one.
pub open spec fn lookup_entries(entries: Seq<(String, JsonValue)>, key: Seq<char>) -> Option<
    JsonValue,
>
    decreases entries.len(),
{
    if entries.len() == 0 {
        None
    } else if entries[0].0@ == key {
        Some(entries[0].1)
    } else {
        lookup_entries(entries.drop_first(), key)
    }
}

impl JsonValue {
    /// Key lookup on an object; anything that is not an object has no keys.
    pub open spec fn spec_get(self, key: Seq<char>) -> Option<JsonValue> {
        match self {
            JsonValue::Object(entries) => lookup_entries(entries@, key),
            _ => None,
        }
    }

    /// True exactly on `JsonValue::Null`.
    pub fn is_null(&self) -> (r: bool)
        ensures
            r == (*self is Null),
    {
        match self {
            JsonValue::Null => true,
            _ => false,
        }
    }
}

/// If `entries[i]` is the first pair whose key reads `key`, the lookup
/// returns its value.
proof fn lemma_lookup_at_index(entries: Seq<(String, JsonValue)>, key: Seq<char>, i: int)
    requires
        0 <= i < entries.len(),
        entries[i].0@ == key,
        forall|j: int| 0 <= j < i ==> entries[j].0@ != key,
    ensures
        lookup_entries(entries, key) == Some(entries[i].1),
    decreases i,
{
    if i > 0 {
        lemma_lookup_at_index(entries.drop_first(), key, i - 1);
    }
}

/// If no key of `entries` reads `key`, the lookup returns nothing.
proof fn lemma_lookup_absent(entries: Seq<(String, JsonValue)>, key: Seq<char>)
    requires
        forall|j: int| 0 <= j < entries.len() ==> entries[j].0@ != key,
    ensures
        lookup_entries(entries, key) is None,
    decreases entries.len(),
{
    if entries.len() > 0 {
        lemma_lookup_absent(entries.drop_first(), key);
    }
}

/// The index of the first pair in `entries` whose key equals `key`, and what
/// the lookup returns there.
pub fn find_key(entries: &Vec<(String, JsonValue)>, key: &String) -> (r: Option<usize>)
    ensures
        match r {
            Some(i) => {
                &&& 0 <= i < entries@.len()
                &&& entries@[i as int].0@ == key@
                &&& forall|j: int| 0 <= j < i ==> entries@[j].0@ != key@
                &&& lookup_entries(entries@, key@) == Some(entries@[i as int].1)
            },
            None => lookup_entries(entries@, key@) is None,
        },
{
    let n = entries.len();
    for i in 0..n
        invariant
            n == entries@.len(),
            forall|j: int| 0 <= j < i ==> entries@[j].0@ != key@,
    {
        if entries[i].0 == *key {
            proof {
                lemma_lookup_at_index(entries@, key@, i as int);
            }
            return Some(i);
        }
    }
    proof {
        lemma_lookup_absent(entries@, key@);
    }
    None
}

} // verus!
