//! The server's configuration: the settings this library reads from a
//! document, their defaults, and the rule that keeps field names reachable
//! from environment variables.
use reqwest::header::HeaderMap;
use url::Url;
use vstd::prelude::*;

use crate::document::{find_key, lookup, DocumentValue};
use crate::error::ConfigError;
use crate::headers::{all_entries_valid, entry_error, first_invalid, headers_of, map_from_str, MAX_HEADERS};
use crate::outside::{header_map_entries, new_header_map, parse_url, url_from, url_text};

verus! {

/// The endpoint used where the document names none.
pub const DEFAULT_ENDPOINT: &'static str = "http://127.0.0.1:4000";

/// Key of the path to a custom scalar map.
pub const CUSTOM_SCALARS_FIELD: &'static str = "custom_scalars";

/// Key of the target GraphQL endpoint.
pub const ENDPOINT_FIELD: &'static str = "endpoint";

/// Key of the headers sent with every GraphQL request.
pub const HEADERS_FIELD: &'static str = "headers";

/// Configuration for the MCP server.
pub struct Config {
    /// Path to a custom scalar map.
    pub custom_scalars: Option<String>,
    /// The target GraphQL endpoint.
    pub endpoint: Url,
    /// Headers to include in all GraphQL requests.
    pub headers: HeaderMap,
}

/// The text of an optional string.
pub open spec fn text_of(s: Option<String>) -> Option<Seq<char>> {
    match s {
        Some(t) => Some(t@),
        None => None,
    }
}

/// `custom_scalars` is absent, null or a string.
pub open spec fn custom_scalars_ok(v: Option<DocumentValue>) -> bool {
    match v {
        None => true,
        Some(DocumentValue::Null) => true,
        Some(DocumentValue::Text(_)) => true,
        _ => false,
    }
}

/// The path that `custom_scalars` names, if any.
pub open spec fn custom_scalars_of(v: Option<DocumentValue>) -> Option<Seq<char>> {
    match v {
        Some(DocumentValue::Text(s)) => Some(s@),
        _ => None,
    }
}

/// The text of the endpoint: the default where the key is absent; `None`
/// where its value is not a string.
pub open spec fn endpoint_text_of(v: Option<DocumentValue>) -> Option<Seq<char>> {
    match v {
        None => Some(DEFAULT_ENDPOINT@),
        Some(DocumentValue::Text(s)) => Some(s@),
        _ => None,
    }
}

/// Every value of the mapping is a string.
pub open spec fn all_text(m: Seq<(String, DocumentValue)>) -> bool {
    forall|i: int| 0 <= i < m.len() ==> (#[trigger] m[i]).1 is Text
}

/// The entries of a mapping of strings to strings.
pub open spec fn text_entries(m: Seq<(String, DocumentValue)>) -> Seq<(String, String)> {
    m.map_values(|e: (String, DocumentValue)| (e.0, e.1->Text_0))
}

/// The header entries of the document: none where the key is absent; `None`
/// where its value is not a mapping of strings to strings.
pub open spec fn header_entries_of(v: Option<DocumentValue>) -> Option<Seq<(String, String)>> {
    match v {
        None => Some(Seq::empty()),
        Some(DocumentValue::Mapping(m)) => if all_text(m@) {
            Some(text_entries(m@))
        } else {
            None
        },
        _ => None,
    }
}

/// The document's `headers` mapping is small enough for a header map.
pub open spec fn headers_fit(doc: Seq<(String, DocumentValue)>) -> bool {
    lookup(doc, HEADERS_FIELD@) matches Some(DocumentValue::Mapping(m)) ==> m@.len() <= MAX_HEADERS
}

/// The document is accepted: each field has the right kind of value, the
/// endpoint is a URL and every header is valid.
pub open spec fn document_ok(doc: Seq<(String, DocumentValue)>) -> bool {
    let ep = endpoint_text_of(lookup(doc, ENDPOINT_FIELD@));
    let hd = header_entries_of(lookup(doc, HEADERS_FIELD@));
    &&& custom_scalars_ok(lookup(doc, CUSTOM_SCALARS_FIELD@))
    &&& ep is Some
    &&& url_from(ep->0) is Some
    &&& hd is Some
    &&& all_entries_valid(hd->0)
}

/// The error for a refused document: the fields are checked in the order
/// `custom_scalars`, `endpoint`, `headers`, and the first at fault is named.
pub open spec fn document_error(doc: Seq<(String, DocumentValue)>, e: ConfigError) -> bool {
    let ep = endpoint_text_of(lookup(doc, ENDPOINT_FIELD@));
    let hd = header_entries_of(lookup(doc, HEADERS_FIELD@));
    if !custom_scalars_ok(lookup(doc, CUSTOM_SCALARS_FIELD@)) {
        e matches ConfigError::MistypedField { field } && field@ == CUSTOM_SCALARS_FIELD@
    } else if ep is None {
        e matches ConfigError::MistypedField { field } && field@ == ENDPOINT_FIELD@
    } else if url_from(ep->0) is None {
        e matches ConfigError::MalformedEndpoint { value, .. } && value@ == ep->0
    } else if hd is None {
        e is MalformedHeaderStructure
    } else {
        exists|i: int| first_invalid(hd->0, i) && entry_error(#[trigger] hd->0[i], e)
    }
}

/// The configuration that an accepted document describes.
pub open spec fn describes(doc: Seq<(String, DocumentValue)>, c: Config) -> bool {
    &&& text_of(c.custom_scalars) == custom_scalars_of(lookup(doc, CUSTOM_SCALARS_FIELD@))
    &&& url_from(endpoint_text_of(lookup(doc, ENDPOINT_FIELD@))->0) == Some(url_text(c.endpoint))
    &&& header_map_entries(c.headers) == headers_of(header_entries_of(lookup(doc, HEADERS_FIELD@))->0)
}

/// The default endpoint, parsed.
pub fn endpoint() -> (r: Result<Url, ConfigError>)
    ensures
        match r {
            Ok(u) => url_from(DEFAULT_ENDPOINT@) == Some(url_text(u)),
            Err(e) => url_from(DEFAULT_ENDPOINT@) is None && (e matches ConfigError::MalformedEndpoint { value, .. } && value@ == DEFAULT_ENDPOINT@),
        },
{
    match parse_url(DEFAULT_ENDPOINT) {
        Ok(u) => Ok(u),
        Err(parse_error) => Err(ConfigError::MalformedEndpoint { value: DEFAULT_ENDPOINT.to_owned(), parse_error }),
    }
}

/// The entries of a mapping as pairs of strings, or `None` where some value
/// is not a string.
fn text_pairs(m: &Vec<(String, DocumentValue)>) -> (r: Option<Vec<(String, String)>>)
    ensures
        match r {
            Some(v) => all_text(m@) && v@ == text_entries(m@),
            None => !all_text(m@),
        },
{
    let mut out: Vec<(String, String)> = Vec::new();
    let mut i: usize = 0;
    while i < m.len()
        invariant
            i <= m@.len(),
            forall|j: int| 0 <= j < i ==> (#[trigger] m@[j]).1 is Text,
            out@ == text_entries(m@.subrange(0, i as int)),
        decreases m@.len() - i,
    {
        match &m[i].1 {
            DocumentValue::Text(s) => {
                out.push((m[i].0.clone(), s.clone()));
            },
            _ => {
                return None;
            },
        }
        proof {
            assert(text_entries(m@.subrange(0, i + 1)) =~= text_entries(m@.subrange(0, i as int)).push(
                (m@[i as int].0, m@[i as int].1->Text_0),
            ));
        }
        i = i + 1;
    }
    assert(m@.subrange(0, m@.len() as int) =~= m@);
    Some(out)
}

impl Config {
    /// Builds the configuration that a document describes: each absent field
    /// takes its default (no path, `DEFAULT_ENDPOINT`, no headers), a present
    /// one is checked, and unknown keys are passed over.
    pub fn from_document(doc: &Vec<(String, DocumentValue)>) -> (r: Result<Config, ConfigError>)
        requires
            headers_fit(doc@),
        ensures
            r is Ok <==> document_ok(doc@),
            r matches Ok(c) ==> describes(doc@, c),
            r matches Err(e) ==> document_error(doc@, e),
    {
        let custom_scalars: Option<String> = match find_key(doc, &CUSTOM_SCALARS_FIELD.to_owned()) {
            None => None,
            Some(j) => match &doc[j].1 {
                DocumentValue::Null => None,
                DocumentValue::Text(s) => Some(s.clone()),
                _ => {
                    return Err(ConfigError::MistypedField { field: CUSTOM_SCALARS_FIELD.to_owned() });
                },
            },
        };
        let endpoint: Url = match find_key(doc, &ENDPOINT_FIELD.to_owned()) {
            None => match endpoint() {
                Ok(u) => u,
                Err(e) => {
                    return Err(e);
                },
            },
            Some(j) => match &doc[j].1 {
                DocumentValue::Text(s) => match parse_url(s.as_str()) {
                    Ok(u) => u,
                    Err(parse_error) => {
                        return Err(ConfigError::MalformedEndpoint { value: s.clone(), parse_error });
                    },
                },
                _ => {
                    return Err(ConfigError::MistypedField { field: ENDPOINT_FIELD.to_owned() });
                },
            },
        };
        let headers: HeaderMap = match find_key(doc, &HEADERS_FIELD.to_owned()) {
            None => new_header_map(),
            Some(j) => match &doc[j].1 {
                DocumentValue::Mapping(m) => match text_pairs(m) {
                    Some(pairs) => match map_from_str(&pairs) {
                        Ok(h) => h,
                        Err(e) => {
                            proof {
                                let hd = header_entries_of(lookup(doc@, HEADERS_FIELD@));
                                assert(hd == Some(pairs@));
                                let i = choose|i: int|
                                    first_invalid(pairs@, i) && entry_error(#[trigger] pairs@[i], e);
                                assert(first_invalid(hd->0, i) && entry_error(hd->0[i], e));
                            }
                            return Err(e);
                        },
                    },
                    None => {
                        return Err(ConfigError::MalformedHeaderStructure);
                    },
                },
                _ => {
                    return Err(ConfigError::MalformedHeaderStructure);
                },
            },
        };
        Ok(Config { custom_scalars, endpoint, headers })
    }
}

} // verus!
