//! Values and entries as mathematical objects, and what holds of keys and
//! lookups whatever the entries are.

use vstd::prelude::*;

verus! {

/// A BSON value as a mathematical object.
pub enum Value {
    /// A UTF-8 string.
    Text(Seq<char>),
    /// A boolean.
    Boolean(bool),
    /// A 32-bit signed integer.
    Int32(i32),
    /// A 64-bit signed integer.
    Int64(i64),
    /// The null value.
    Null,
    /// An object identifier, by its twelve bytes.
    ObjectId(Seq<u8>),
    /// A UTC instant, in milliseconds since the Unix epoch.
    DateTime(i64),
    /// An embedded document, by its entries in order.
    Document(Seq<(Seq<char>, Value)>),
    /// An array, by its elements in order.
    Array(Seq<Value>),
    /// A value of a kind the protocol neither builds nor inspects (a double,
    /// binary data, a regular expression, ...). Two such values are the same
    /// exactly when their tokens are.
    Other(int),
}

/// The entries of a document: its key/value pairs in order.
pub type Entries = Seq<(Seq<char>, Value)>;

/// Whether some entry carries `key`.
pub open spec fn has_key(e: Entries, key: Seq<char>) -> bool {
    exists|i: int| 0 <= i < e.len() && (#[trigger] e[i]).0 == key
}

/// Whether `i` is the position of the first entry that carries `key`.
pub open spec fn is_first(e: Entries, key: Seq<char>, i: int) -> bool {
    &&& 0 <= i < e.len()
    &&& e[i].0 == key
    &&& forall|j: int| 0 <= j < i ==> (#[trigger] e[j]).0 != key
}

/// The position of the first entry that carries `key`.
pub open spec fn index_of(e: Entries, key: Seq<char>) -> int {
    choose|i: int| is_first(e, key, i)
}

/// The value stored under `key`, if any.
pub open spec fn lookup(e: Entries, key: Seq<char>) -> Option<Value> {
    if has_key(e, key) {
        Some(e[index_of(e, key)].1)
    } else {
        None
    }
}

/// The entries after storing `v` under `key`: an existing entry keeps its
/// place and takes the new value, a new entry goes last.
pub open spec fn put(e: Entries, key: Seq<char>, v: Value) -> Entries {
    if has_key(e, key) {
        e.update(index_of(e, key), (key, v))
    } else {
        e.push((key, v))
    }
}

/// Among the entries that carry `key`, one comes first.
pub proof fn lemma_first_exists(e: Entries, key: Seq<char>)
    requires
        has_key(e, key),
    ensures
        is_first(e, key, index_of(e, key)),
{
    let some = choose|i: int| 0 <= i < e.len() && (#[trigger] e[i]).0 == key;
    lemma_first_below(e, key, some);
}

/// If the entry at `bound` carries `key`, some entry at or before it is the
/// first to do so.
proof fn lemma_first_below(e: Entries, key: Seq<char>, bound: int)
    requires
        0 <= bound < e.len(),
        e[bound].0 == key,
    ensures
        exists|i: int| is_first(e, key, i),
    decreases bound,
{
    if exists|j: int| 0 <= j < bound && (#[trigger] e[j]).0 == key {
        let j = choose|j: int| 0 <= j < bound && (#[trigger] e[j]).0 == key;
        lemma_first_below(e, key, j);
    } else {
        assert(is_first(e, key, bound));
    }
}

/// The first entry that carries `key` is the one `lookup` reads.
pub proof fn lemma_lookup_first(e: Entries, key: Seq<char>, i: int)
    requires
        is_first(e, key, i),
    ensures
        lookup(e, key) == Some(e[i].1),
{
    lemma_first_exists(e, key);
    let k = index_of(e, key);
    if k < i {
        assert(e[k].0 != key);
    } else if i < k {
        assert(e[i].0 != key);
    }
}

/// A document without entries has no key.
pub broadcast proof fn lemma_empty_has_no_key(key: Seq<char>)
    ensures
        !#[trigger] has_key(Seq::<(Seq<char>, Value)>::empty(), key),
{
}

/// Appending an entry adds its key to the keys present and no other.
pub broadcast proof fn lemma_push_has_key(e: Entries, k: Seq<char>, v: Value, key: Seq<char>)
    ensures
        #[trigger] has_key(e.push((k, v)), key) <==> (has_key(e, key) || k == key),
{
    let grown = e.push((k, v));
    if has_key(e, key) {
        let i = choose|i: int| 0 <= i < e.len() && (#[trigger] e[i]).0 == key;
        assert(grown[i].0 == key);
    }
    if k == key {
        assert(grown[e.len() as int].0 == key);
    }
    if has_key(grown, key) {
        let i = choose|i: int| 0 <= i < grown.len() && (#[trigger] grown[i]).0 == key;
        if i < e.len() {
            assert(e[i].0 == key);
        }
    }
}

/// Appending an entry leaves every earlier lookup as it was; the appended
/// value is found under its key where no earlier entry carried that key.
pub broadcast proof fn lemma_push_lookup(e: Entries, k: Seq<char>, v: Value, key: Seq<char>)
    ensures
        #[trigger] lookup(e.push((k, v)), key) == if has_key(e, key) {
            lookup(e, key)
        } else if k == key {
            Some(v)
        } else {
            None
        },
{
    let grown = e.push((k, v));
    lemma_push_has_key(e, k, v, key);
    if has_key(e, key) {
        lemma_first_exists(e, key);
        let i = index_of(e, key);
        assert forall|j: int| 0 <= j < i implies (#[trigger] grown[j]).0 != key by {
            assert(e[j].0 != key);
        }
        assert(grown[i] == e[i]);
        lemma_lookup_first(grown, key, i);
    } else if k == key {
        let last = e.len() as int;
        assert forall|j: int| 0 <= j < last implies (#[trigger] grown[j]).0 != key by {
            assert(grown[j] == e[j]);
        }
        lemma_lookup_first(grown, key, last);
    }
}

/// What holds of the keys and lookups of entries built by appending.
pub broadcast group group_entries {
    lemma_empty_has_no_key,
    lemma_push_has_key,
    lemma_push_lookup,
}

} // verus!
