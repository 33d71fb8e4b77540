//! The JSON documents the registry reads: schema definitions, view options
//! and the data that is validated against a schema.
use vstd::prelude::*;

verus! {

/// A JSON number, held the way the registry reads numbers: whether it is an
/// integer (and of which sign) or a floating-point value.
pub enum JsonNumber {
    /// An integer `0 <= n <= u64::MAX`.
    PosInt(u64),
    /// A negative integer that fits in `i64`.
    NegInt(i64),
    /// A number that is held as a floating-point value, kept by its decimal
    /// text (for instance `"1.5"` or `"1e300"`).
    Float(String),
}

/// A JSON document. An object keeps its members in order; a key that occurs
/// more than once is read by its first occurrence.
pub enum JsonValue {
    Null,
    Bool(bool),
    Number(JsonNumber),
    String(String),
    Array(Vec<JsonValue>),
    Object(Vec<(String, JsonValue)>),
}

/// Index of the first member of `entries` named `key`, or `-1` when there is
/// none.
pub open spec fn key_position(entries: Seq<(String, JsonValue)>, key: Seq<char>) -> int
    decreases entries.len(),
{
    if entries.len() == 0 {
        -1
    } else if entries[0].0@ == key {
        0
    } else {
        let r = key_position(entries.drop_first(), key);
        if r < 0 {
            -1
        } else {
            r + 1
        }
    }
}

/// The value of the first member of `entries` named `key`.
pub open spec fn member(entries: Seq<(String, JsonValue)>, key: Seq<char>) -> Option<JsonValue> {
    let p = key_position(entries, key);
    if 0 <= p < entries.len() {
        Some(entries[p].1)
    } else {
        None
    }
}

/// `key_position` is the first index with that key, or `-1` when no member
/// has it.
pub proof fn lemma_key_position(entries: Seq<(String, JsonValue)>, key: Seq<char>)
    ensures
        -1 <= key_position(entries, key) < entries.len(),
        key_position(entries, key) == -1 <==> (forall|j: int|
            0 <= j < entries.len() ==> #[trigger] entries[j].0@ != key),
        key_position(entries, key) >= 0 ==> entries[key_position(entries, key)].0@ == key,
        forall|j: int|
            0 <= j < key_position(entries, key) ==> #[trigger] entries[j].0@ != key,
    decreases entries.len(),
{
    if entries.len() > 0 {
        let rest = entries.drop_first();
        lemma_key_position(rest, key);
        assert forall|j: int| 1 <= j < entries.len() implies #[trigger] entries[j] == rest[j - 1] by {}
        if entries[0].0@ != key {
            if key_position(rest, key) == -1 {
                assert forall|j: int| 0 <= j < entries.len() implies #[trigger] entries[j].0@ != key by {
                    if j > 0 {
                        assert(rest[j - 1] == entries[j]);
                    }
                }
            } else {
                let r = key_position(rest, key);
                assert(entries[r + 1] == rest[r]);
                assert forall|j: int| 0 <= j < r + 1 implies #[trigger] entries[j].0@ != key by {
                    if j > 0 {
                        assert(rest[j - 1] == entries[j]);
                    }
                }
            }
        }
    }
}

/// Finds the first member of an object named `key`.
pub fn find_member(entries: &Vec<(String, JsonValue)>, key: &String) -> (res: Option<usize>)
    ensures
        match res {
            Some(i) => i < entries.len() && key_position(entries@, key@) == i as int,
            None => key_position(entries@, key@) == -1,
        },
{
    proof {
        lemma_key_position(entries@, key@);
    }
    let mut i: usize = 0;
    while i < entries.len()
        invariant
            i <= entries.len(),
            forall|j: int| 0 <= j < i ==> #[trigger] entries@[j].0@ != key@,
        decreases entries.len() - i,
    {
        if entries[i].0 == *key {
            proof {
                lemma_key_position(entries@, key@);
                let p = key_position(entries@, key@);
                assert(entries@[i as int].0@ == key@);
                if p > i as int {
                    assert(entries@[i as int].0@ != key@);
                }
            }
            return Some(i);
        }
        i = i + 1;
    }
    None
}

} // verus!
