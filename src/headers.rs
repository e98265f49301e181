//! The `headers` field: a mapping of header names to header values, each
//! checked, gathered into a `HeaderMap` where a later name replaces an
//! earlier one.
use reqwest::header::HeaderMap;
use vstd::prelude::*;
use vstd::utf8::encode_utf8;

use crate::error::ConfigError;
use crate::outside::{
    header_map_entries, header_name_of, header_name_valid, header_value_valid, insert_header,
    new_header_map, parse_header_name, parse_header_value, HEADER_MAP_SAFE_NAMES,
};

verus! {

/// The most entries that one `headers` mapping may hold.
pub const MAX_HEADERS: usize = 4096;

/// Both the key and the value of an entry are acceptable to a header map.
pub open spec fn entry_valid(e: (String, String)) -> bool {
    header_name_valid(e.0@) && header_value_valid(e.1@)
}

/// Every entry is acceptable.
pub open spec fn all_entries_valid(entries: Seq<(String, String)>) -> bool {
    forall|i: int| 0 <= i < entries.len() ==> entry_valid(#[trigger] entries[i])
}

/// `i` is the first entry that is not acceptable.
pub open spec fn first_invalid(entries: Seq<(String, String)>, i: int) -> bool {
    &&& 0 <= i < entries.len()
    &&& !entry_valid(entries[i])
    &&& forall|j: int| 0 <= j < i ==> entry_valid(#[trigger] entries[j])
}

/// The error that the entry `e` gives: its key where the key is at fault,
/// else its value.
pub open spec fn entry_error(e: (String, String), err: ConfigError) -> bool {
    if !header_name_valid(e.0@) {
        err matches ConfigError::InvalidHeaderName { key, .. } && key@ == e.0@
    } else {
        err matches ConfigError::InvalidHeaderValue { value, .. } && value@ == e.1@
    }
}

/// The headers that the entries make, taken in order: each name (in lower
/// case) holds the value of its last entry.
pub open spec fn headers_of(entries: Seq<(String, String)>) -> Map<Seq<u8>, Seq<Seq<u8>>>
    decreases entries.len(),
{
    if entries.len() == 0 {
        Map::empty()
    } else {
        let e = entries.last();
        headers_of(entries.drop_last()).insert(header_name_of(e.0@), seq![encode_utf8(e.1@)])
    }
}

proof fn lemma_headers_of_size(entries: Seq<(String, String)>)
    ensures
        headers_of(entries).dom().finite(),
        headers_of(entries).dom().len() <= entries.len(),
    decreases entries.len(),
{
    if entries.len() > 0 {
        lemma_headers_of_size(entries.drop_last());
    }
}

/// Later entries win: where entry `i` is the last one whose key names a
/// header, that header holds exactly the value of entry `i`.
pub proof fn lemma_last_entry_wins(entries: Seq<(String, String)>, i: int)
    requires
        0 <= i < entries.len(),
        forall|j: int|
            i < j < entries.len() ==> header_name_of(#[trigger] entries[j].0@) != header_name_of(
                entries[i].0@,
            ),
    ensures
        headers_of(entries).contains_key(header_name_of(entries[i].0@)),
        headers_of(entries)[header_name_of(entries[i].0@)] == seq![encode_utf8(entries[i].1@)],
    decreases entries.len(),
{
    if i < entries.len() - 1 {
        let rest = entries.drop_last();
        assert forall|j: int| i < j < rest.len() implies header_name_of(
            #[trigger] rest[j].0@,
        ) != header_name_of(rest[i].0@) by {
            assert(rest[j] == entries[j]);
        }
        lemma_last_entry_wins(rest, i);
        assert(header_name_of(entries[entries.len() - 1].0@) != header_name_of(entries[i].0@));
    }
}

/// Reads the `headers` mapping, entry by entry in the order given: each key
/// must be a header name and each value a header value, else the first entry
/// at fault is reported and no header is kept. A repeated name keeps the
/// value of its last entry.
pub fn map_from_str(entries: &Vec<(String, String)>) -> (r: Result<HeaderMap, ConfigError>)
    requires
        entries@.len() <= MAX_HEADERS,
    ensures
        r is Ok <==> all_entries_valid(entries@),
        r matches Ok(m) ==> header_map_entries(m) == headers_of(entries@),
        r matches Err(e) ==> exists|i: int|
            first_invalid(entries@, i) && entry_error(#[trigger] entries@[i], e),
{
    let mut parsed = new_header_map();
    let mut i: usize = 0;
    while i < entries.len()
        invariant
            i <= entries@.len() <= MAX_HEADERS,
            MAX_HEADERS == HEADER_MAP_SAFE_NAMES,
            forall|j: int| 0 <= j < i ==> entry_valid(#[trigger] entries@[j]),
            header_map_entries(parsed) == headers_of(entries@.subrange(0, i as int)),
        decreases entries@.len() - i,
    {
        let key = &entries[i].0;
        let value = &entries[i].1;
        let name = match parse_header_name(key.as_str()) {
            Ok(n) => n,
            Err(error) => {
                let err = ConfigError::InvalidHeaderName { key: key.clone(), name_error: error };
                assert(first_invalid(entries@, i as int));
                assert(entry_error(entries@[i as int], err));
                return Err(err);
            },
        };
        let val = match parse_header_value(value.as_str()) {
            Ok(v) => v,
            Err(error) => {
                let err = ConfigError::InvalidHeaderValue { value: value.clone(), value_error: error };
                assert(first_invalid(entries@, i as int));
                assert(entry_error(entries@[i as int], err));
                return Err(err);
            },
        };
        proof {
            lemma_headers_of_size(entries@.subrange(0, i as int));
        }
        insert_header(&mut parsed, name, val);
        proof {
            assert(entries@.subrange(0, i + 1).drop_last() =~= entries@.subrange(0, i as int));
        }
        i = i + 1;
    }
    assert(entries@.subrange(0, entries@.len() as int) =~= entries@);
    Ok(parsed)
}

} // verus!
