//! Ordered tables of text pairs: a key and its value, in the order in which
//! the keys were first written.
//!
//! The option table of a parsed line and the alias table are such tables. The
//! order is part of their meaning: a search returns the first match.
use vstd::prelude::*;

verus! {

/// The views of a sequence of pairs of strings, pair by pair.
pub open spec fn pair_texts(v: Seq<(String, String)>) -> Seq<(Seq<char>, Seq<char>)> {
    Seq::new(v.len(), |i: int| (v[i].0@, v[i].1@))
}

/// The first components of `entries`, in order.
pub open spec fn keys_of(entries: Seq<(Seq<char>, Seq<char>)>) -> Seq<Seq<char>> {
    Seq::new(entries.len(), |i: int| entries[i].0)
}

/// The second components of `entries`, in order.
pub open spec fn values_of(entries: Seq<(Seq<char>, Seq<char>)>) -> Seq<Seq<char>> {
    Seq::new(entries.len(), |i: int| entries[i].1)
}

/// Whether no text occurs twice in `items`.
pub open spec fn distinct(items: Seq<Seq<char>>) -> bool {
    forall|i: int, j: int| 0 <= i < j < items.len() ==> items[i] != items[j]
}

/// The least index at which `item` occurs in `items`, if it occurs at all.
pub open spec fn first_index(items: Seq<Seq<char>>, item: Seq<char>) -> Option<int>
    decreases items.len(),
{
    if items.len() == 0 {
        None
    } else {
        match first_index(items.drop_last(), item) {
            Some(i) => Some(i),
            None => if items.last() == item {
                Some(items.len() - 1)
            } else {
                None
            },
        }
    }
}

/// The value stored under `key`: that of the first entry with this key.
pub open spec fn lookup(entries: Seq<(Seq<char>, Seq<char>)>, key: Seq<char>) -> Option<
    Seq<char>,
> {
    match first_index(keys_of(entries), key) {
        Some(i) => Some(entries[i].1),
        None => None,
    }
}

/// The key of the first entry whose value is `value`.
pub open spec fn reverse_lookup(entries: Seq<(Seq<char>, Seq<char>)>, value: Seq<char>) -> Option<
    Seq<char>,
> {
    match first_index(values_of(entries), value) {
        Some(i) => Some(entries[i].0),
        None => None,
    }
}

/// `first_index` returns an index of `item` before which `item` does not occur,
/// and `None` only if `item` does not occur.
pub proof fn lemma_first_index(items: Seq<Seq<char>>, item: Seq<char>)
    ensures
        match first_index(items, item) {
            Some(i) => {
                &&& 0 <= i < items.len()
                &&& items[i] == item
                &&& forall|j: int| 0 <= j < i ==> items[j] != item
            },
            None => forall|j: int| 0 <= j < items.len() ==> items[j] != item,
        },
    decreases items.len(),
{
    if items.len() > 0 {
        let head = items.drop_last();
        lemma_first_index(head, item);
        assert(forall|j: int| 0 <= j < head.len() ==> head[j] == items[j]);
        match first_index(head, item) {
            Some(i) => {
                assert(items[i] == head[i]);
            },
            None => {
                assert forall|j: int| 0 <= j < items.len() - 1 implies items[j] != item by {
                    assert(head[j] != item);
                }
            },
        }
    }
}

/// An index of `item` before which `item` does not occur is its first index.
pub proof fn lemma_first_index_found(items: Seq<Seq<char>>, item: Seq<char>, at: int)
    requires
        0 <= at < items.len(),
        items[at] == item,
        forall|j: int| 0 <= j < at ==> items[j] != item,
    ensures
        first_index(items, item) == Some(at),
{
    lemma_first_index(items, item);
}

/// A text that occurs nowhere has no first index.
pub proof fn lemma_first_index_absent(items: Seq<Seq<char>>, item: Seq<char>)
    requires
        forall|j: int| 0 <= j < items.len() ==> items[j] != item,
    ensures
        first_index(items, item) is None,
{
    lemma_first_index(items, item);
}

/// The position of the first entry whose key is `key`.
pub fn find_key(entries: &Vec<(String, String)>, key: &str) -> (r: Option<usize>)
    ensures
        match r {
            Some(i) => first_index(keys_of(pair_texts(entries@)), key@) == Some(i as int),
            None => first_index(keys_of(pair_texts(entries@)), key@) is None,
        },
{
    let ghost keys = keys_of(pair_texts(entries@));
    let wanted = String::from_str(key);
    let mut i: usize = 0;
    while i < entries.len()
        invariant
            i <= entries.len(),
            wanted@ == key@,
            keys == keys_of(pair_texts(entries@)),
            forall|j: int| 0 <= j < i ==> keys[j] != key@,
        decreases entries.len() - i,
    {
        if entries[i].0.eq(&wanted) {
            proof {
                lemma_first_index_found(keys, key@, i as int);
            }
            return Some(i);
        }
        i += 1;
    }
    proof {
        lemma_first_index_absent(keys, key@);
    }
    None
}

/// The position of the first entry whose value is `value`.
pub fn find_value(entries: &Vec<(String, String)>, value: &str) -> (r: Option<usize>)
    ensures
        match r {
            Some(i) => first_index(values_of(pair_texts(entries@)), value@) == Some(i as int),
            None => first_index(values_of(pair_texts(entries@)), value@) is None,
        },
{
    let ghost values = values_of(pair_texts(entries@));
    let wanted = String::from_str(value);
    let mut i: usize = 0;
    while i < entries.len()
        invariant
            i <= entries.len(),
            wanted@ == value@,
            values == values_of(pair_texts(entries@)),
            forall|j: int| 0 <= j < i ==> values[j] != value@,
        decreases entries.len() - i,
    {
        if entries[i].1.eq(&wanted) {
            proof {
                lemma_first_index_found(values, value@, i as int);
            }
            return Some(i);
        }
        i += 1;
    }
    proof {
        lemma_first_index_absent(values, value@);
    }
    None
}

} // verus!
