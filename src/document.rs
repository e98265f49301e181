//! A configuration document as a tree of plain values: the shape that a
//! JSON or YAML reader hands over, before any field is interpreted.
use vstd::prelude::*;

verus! {

/// One value of a configuration document.
pub enum DocumentValue {
    /// An explicit null.
    Null,
    /// A string.
    Text(String),
    /// A mapping, with its entries in the order written.
    Mapping(Vec<(String, DocumentValue)>),
    /// Anything else: a number, a boolean, a sequence.
    Other,
}

/// The value of `key` in the entries: that of its last occurrence.
pub open spec fn lookup(entries: Seq<(String, DocumentValue)>, key: Seq<char>) -> Option<DocumentValue>
    decreases entries.len(),
{
    if entries.len() == 0 {
        None
    } else if entries.last().0@ == key {
        Some(entries.last().1)
    } else {
        lookup(entries.drop_last(), key)
    }
}

/// Finds the index of the last entry whose key is `key`.
pub fn find_key(entries: &Vec<(String, DocumentValue)>, key: &String) -> (r: Option<usize>)
    ensures
        match r {
            Some(j) => j < entries@.len() && lookup(entries@, key@) == Some(entries@[j as int].1),
            None => lookup(entries@, key@) is None,
        },
{
    let mut found: Option<usize> = None;
    let mut i: usize = 0;
    while i < entries.len()
        invariant
            i <= entries@.len(),
            match found {
                Some(j) => j < i && lookup(entries@.subrange(0, i as int), key@) == Some(
                    entries@[j as int].1,
                ),
                None => lookup(entries@.subrange(0, i as int), key@) is None,
            },
        decreases entries@.len() - i,
    {
        if entries[i].0.eq(key) {
            found = Some(i);
        }
        proof {
            assert(entries@.subrange(0, i + 1).drop_last() =~= entries@.subrange(0, i as int));
        }
        i = i + 1;
    }
    assert(entries@.subrange(0, entries@.len() as int) =~= entries@);
    found
}

} // verus!
