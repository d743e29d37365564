use vstd::prelude::*;

verus! {

/// A JSON-like semi-structured value: the payload type of an experiment's
/// parameter map and of a checkpoint's metric map. An object is an ordered
/// sequence of key/value entries; lookups take the first occurrence of a
/// key, which on maps with unique keys is plain map lookup. A number keeps
/// its rendered text: the query engine never compares numbers numerically,
/// it only carries them through.
#[derive(Debug)]
pub enum JsonValue {
    Null,
    Bool(bool),
    Number(String),
    Str(String),
    Array(Vec<JsonValue>),
    Object(Vec<(String, JsonValue)>),
}

/// The canonical textual identity of a resolved value, where one exists:
/// `null` and `true` have literal spellings and a string is itself, while
/// `false`, numbers, arrays and objects have none and so never satisfy an
/// equality filter.
pub open spec fn canonical(v: JsonValue) -> Option<Seq<char>> {
    match v {
        JsonValue::Null => Some("null"@),
        JsonValue::Bool(b) => if b {
            Some("true"@)
        } else {
            None
        },
        JsonValue::Str(s) => Some(s@),
        _ => None,
    }
}

/// Renders the canonical textual identity of `value`, where one exists.
pub fn value_to_string(value: &JsonValue) -> (r: Option<String>)
    ensures
        match r {
            Some(s) => canonical(*value) == Some(s@),
            None => canonical(*value) is None,
        },
{
    match value {
        JsonValue::Null => Some(String::from_str("null")),
        JsonValue::Bool(b) => if *b {
            Some(String::from_str("true"))
        } else {
            None
        },
        JsonValue::Str(s) => Some(s.clone()),
        _ => None,
    }
}

/// First-match lookup in a key/value sequence: the value paired with the
/// earliest occurrence of `key`, if any.
pub open spec fn assoc_find(entries: Seq<(String, JsonValue)>, key: Seq<char>) -> Option<JsonValue>
    decreases entries.len(),
{
    if entries.len() == 0 {
        None
    } else if entries[0].0@ == key {
        Some(entries[0].1)
    } else {
        assoc_find(entries.skip(1), key)
    }
}

/// If nothing before position `j` carries `key` and position `j` does, the
/// lookup yields the entry at `j`.
pub proof fn lemma_assoc_find_first_hit(entries: Seq<(String, JsonValue)>, key: Seq<char>, j: int)
    requires
        0 <= j < entries.len(),
        entries[j].0@ == key,
        forall|i: int| 0 <= i < j ==> (#[trigger] entries[i].0)@ != key,
    ensures
        assoc_find(entries, key) == Some(entries[j].1),
    decreases j,
{
    if j > 0 {
        lemma_assoc_find_first_hit(entries.skip(1), key, j - 1);
    }
}

/// If no entry carries `key`, the lookup misses.
pub proof fn lemma_assoc_find_none(entries: Seq<(String, JsonValue)>, key: Seq<char>)
    requires
        forall|i: int| 0 <= i < entries.len() ==> (#[trigger] entries[i].0)@ != key,
    ensures
        assoc_find(entries, key) is None,
    decreases entries.len(),
{
    if entries.len() > 0 {
        lemma_assoc_find_none(entries.skip(1), key);
    }
}

/// Removing an entry that carries some other key leaves the lookup for
/// `key` unchanged.
pub proof fn lemma_assoc_find_remove_other(entries: Seq<(String, JsonValue)>, j: int, key: Seq<char>)
    requires
        0 <= j < entries.len(),
        entries[j].0@ != key,
    ensures
        assoc_find(entries.remove(j), key) == assoc_find(entries, key),
    decreases entries.len(),
{
    if j == 0 {
        assert(entries.remove(0) =~= entries.skip(1));
    } else if entries[0].0@ == key {
        assert(entries.remove(j)[0] == entries[0]);
    } else {
        lemma_assoc_find_remove_other(entries.skip(1), j - 1, key);
        assert(entries.remove(j).skip(1) =~= entries.skip(1).remove(j - 1));
        assert(entries.remove(j)[0] == entries[0]);
    }
}

} // verus!
