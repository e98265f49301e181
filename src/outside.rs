//! Declarations of the outside types this library carries, and the calls it
//! makes into `url` and into the header types that `reqwest` re-exports.
use std::str::FromStr;

use reqwest::header::{HeaderMap, HeaderName, HeaderValue, InvalidHeaderName, InvalidHeaderValue};
use url::{ParseError, Url};
use vstd::prelude::*;
use vstd::utf8::encode_utf8;

verus! {

#[verifier::external_type_specification]
#[verifier::external_body]
#[verifier::reject_recursive_types(T)]
pub struct ExHeaderMap<T>(HeaderMap<T>);

#[verifier::external_type_specification]
#[verifier::external_body]
pub struct ExHeaderName(HeaderName);

#[verifier::external_type_specification]
#[verifier::external_body]
pub struct ExHeaderValue(HeaderValue);

#[verifier::external_type_specification]
#[verifier::external_body]
pub struct ExInvalidHeaderName(InvalidHeaderName);

#[verifier::external_type_specification]
#[verifier::external_body]
pub struct ExInvalidHeaderValue(InvalidHeaderValue);

#[verifier::external_type_specification]
#[verifier::external_body]
pub struct ExUrl(Url);

#[verifier::external_type_specification]
#[verifier::external_body]
pub struct ExParseError(ParseError);

/// The text of a URL, as `Url::as_str` gives it.
pub uninterp spec fn url_text(u: Url) -> Seq<char>;

/// The text of the URL that `Url::parse` makes of `s`, or `None` where it
/// refuses `s`.
pub uninterp spec fn url_from(s: Seq<char>) -> Option<Seq<char>>;

/// The bytes of a header name, as `HeaderName::as_str` gives them.
pub uninterp spec fn header_name_bytes(n: HeaderName) -> Seq<u8>;

/// The bytes of a header value, as `HeaderValue::as_bytes` gives them.
pub uninterp spec fn header_value_bytes(v: HeaderValue) -> Seq<u8>;

/// What a header map holds: for each name (by its bytes), its values in order.
pub uninterp spec fn header_map_entries(m: HeaderMap) -> Map<Seq<u8>, Seq<Seq<u8>>>;

/// Relies on `url::Url::parse`: a function of the text alone, whose result
/// is named by `url_from`.
#[verifier::external_body]
pub(crate) fn parse_url(s: &str) -> (r: Result<Url, ParseError>)
    ensures
        match r {
            Ok(u) => url_from(s@) == Some(url_text(u)),
            Err(_) => url_from(s@) is None,
        },
{
    Url::parse(s)
}

/// A byte that `HeaderName::from_str` accepts in a name (the `HEADER_CHARS`
/// table of `http`): the token characters of RFC 9110.
pub open spec fn is_token_byte(b: u8) -> bool {
    // digits, lower and upper case letters
    ||| 48 <= b <= 57
    ||| 97 <= b <= 122
    ||| 65 <= b <= 90
    // ! # $ % & '
    ||| b == 33
    ||| 35 <= b <= 39
    // * + - .
    ||| b == 42 || b == 43 || b == 45 || b == 46
    // ^ _ ` | ~
    ||| 94 <= b <= 96
    ||| b == 124 || b == 126
}

/// An ASCII letter made lower case; every other byte unchanged.
pub open spec fn lower_byte(b: u8) -> u8 {
    if 65 <= b <= 90 {
        (b + 32) as u8
    } else {
        b
    }
}

/// The longest header name that `http` accepts, in bytes.
pub const MAX_HEADER_NAME_LEN: usize = 65535;

/// `HeaderName::from_str` accepts `s`: one to `MAX_HEADER_NAME_LEN` bytes,
/// each a token character.
pub open spec fn header_name_valid(s: Seq<char>) -> bool {
    let b = encode_utf8(s);
    &&& 1 <= b.len() <= MAX_HEADER_NAME_LEN
    &&& forall|i: int| 0 <= i < b.len() ==> is_token_byte(#[trigger] b[i])
}

/// The bytes of the header name made of `s`: its bytes in lower case.
pub open spec fn header_name_of(s: Seq<char>) -> Seq<u8> {
    encode_utf8(s).map_values(|b: u8| lower_byte(b))
}

/// A byte that `HeaderValue::from_str` accepts: a tab, or any byte from the
/// space up but DEL.
pub open spec fn is_value_byte(b: u8) -> bool {
    (b >= 32 && b != 127) || b == 9
}

/// `HeaderValue::from_str` accepts `s`.
pub open spec fn header_value_valid(s: Seq<char>) -> bool {
    let b = encode_utf8(s);
    forall|i: int| 0 <= i < b.len() ==> is_value_byte(#[trigger] b[i])
}

/// Relies on `HeaderName::from_str` (`http`'s `parse_hdr` with its
/// `HEADER_CHARS` table): accepts a nonempty run of token bytes, not longer
/// than `MAX_HEADER_NAME_LEN`, and keeps it in lower case.
#[verifier::external_body]
pub(crate) fn parse_header_name(s: &str) -> (r: Result<HeaderName, InvalidHeaderName>)
    ensures
        r is Ok <==> header_name_valid(s@),
        r matches Ok(n) ==> header_name_bytes(n) == header_name_of(s@),
{
    HeaderName::from_str(s)
}

/// Relies on `HeaderValue::from_str`: accepts the text where each byte is a
/// tab or at least a space and not DEL, and keeps its bytes as they are.
#[verifier::external_body]
pub(crate) fn parse_header_value(s: &str) -> (r: Result<HeaderValue, InvalidHeaderValue>)
    ensures
        r is Ok <==> header_value_valid(s@),
        r matches Ok(v) ==> header_value_bytes(v) == encode_utf8(s@),
{
    HeaderValue::from_str(s)
}

/// Relies on `HeaderMap::new`: a map with no entries.
#[verifier::external_body]
pub(crate) fn new_header_map() -> (r: HeaderMap)
    ensures
        header_map_entries(r) =~= Map::empty(),
{
    HeaderMap::new()
}

/// The number of distinct names below which `HeaderMap::insert` never grows
/// its table past `http`'s limit of 2^15 slots, and so never panics.
pub const HEADER_MAP_SAFE_NAMES: usize = 4096;

/// Relies on `HeaderMap::insert`: the name's values become the one value
/// given, those of other names stay. The map panics only when its table
/// would grow past 2^15 slots, which takes more than `HEADER_MAP_SAFE_NAMES`
/// names.
#[verifier::external_body]
pub(crate) fn insert_header(m: &mut HeaderMap, name: HeaderName, value: HeaderValue)
    requires
        header_map_entries(*old(m)).dom().finite(),
        header_map_entries(*old(m)).dom().len() < HEADER_MAP_SAFE_NAMES,
    ensures
        header_map_entries(*final(m)) == header_map_entries(*old(m)).insert(header_name_bytes(name), seq![header_value_bytes(value)]),
{
    m.insert(name, value);
}

} // verus!
