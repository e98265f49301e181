//! Field names must stay reachable from environment variables, whose names
//! address nested fields by splitting on a double underscore.
use vstd::prelude::*;
use vstd::string::StringSliceAdditionalSpecFns;

use crate::config::{CUSTOM_SCALARS_FIELD, ENDPOINT_FIELD, HEADERS_FIELD};

verus! {

/// The keys of the configuration document that this library reads.
pub open spec fn config_field_names() -> Seq<Seq<char>> {
    seq![CUSTOM_SCALARS_FIELD@, ENDPOINT_FIELD@, HEADERS_FIELD@]
}

/// `s` holds two underscores in a row.
pub open spec fn has_double_underscore(s: Seq<char>) -> bool {
    exists|i: int| 0 <= i < s.len() - 1 && s[i] == '_' && #[trigger] s[i + 1] == '_'
}

/// The bytes hold two underscores in a row.
pub open spec fn has_double_underscore_bytes(b: Seq<u8>) -> bool {
    exists|i: int| 0 <= i < b.len() - 1 && b[i] == 95 && #[trigger] b[i + 1] == 95
}

/// No field name of the configuration holds a double underscore, so each
/// can be named from an environment variable.
pub proof fn lemma_field_names_have_no_double_underscore()
    ensures
        forall|k: int|
            0 <= k < config_field_names().len() ==> !has_double_underscore(
                #[trigger] config_field_names()[k],
            ),
{
    reveal_strlit("custom_scalars");
    reveal_strlit("endpoint");
    reveal_strlit("headers");
    assert(!has_double_underscore(CUSTOM_SCALARS_FIELD@));
    assert(!has_double_underscore(ENDPOINT_FIELD@));
    assert(!has_double_underscore(HEADERS_FIELD@));
}

/// The keys of the configuration document that this library reads.
pub fn field_names() -> (r: Vec<&'static str>)
    ensures
        r@.len() == config_field_names().len(),
        forall|k: int| 0 <= k < r@.len() ==> (#[trigger] r@[k])@ == config_field_names()[k],
{
    let r = vec![CUSTOM_SCALARS_FIELD, ENDPOINT_FIELD, HEADERS_FIELD];
    r
}

/// Whether a text, such as a rendered schema, holds a double underscore.
pub fn contains_double_underscore(text: &str) -> (r: bool)
    ensures
        r == has_double_underscore_bytes(text.spec_bytes()),
{
    let b = text.as_bytes();
    let mut i: usize = 0;
    while i < b.len()
        invariant
            b@ == text.spec_bytes(),
            i <= b@.len(),
            forall|j: int| 0 <= j < i && j + 1 < b@.len() ==> !(b@[j] == 95 && #[trigger] b@[j + 1] == 95),
        decreases b@.len() - i,
    {
        if i + 1 < b.len() && b[i] == 95 && b[i + 1] == 95 {
            return true;
        }
        i = i + 1;
    }
    false
}

} // verus!
