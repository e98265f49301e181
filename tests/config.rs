use mcp_config::config::{endpoint, Config, DEFAULT_ENDPOINT};
use mcp_config::document::DocumentValue;
use mcp_config::error::ConfigError;
use mcp_config::headers::map_from_str;
use mcp_config::naming::{contains_double_underscore, field_names};

fn text(s: &str) -> DocumentValue {
    DocumentValue::Text(s.to_string())
}

fn entry(k: &str, v: DocumentValue) -> (String, DocumentValue) {
    (k.to_string(), v)
}

fn pair(k: &str, v: &str) -> (String, String) {
    (k.to_string(), v.to_string())
}

fn headers_doc(pairs: &[(&str, &str)]) -> Vec<(String, DocumentValue)> {
    let m = pairs.iter().map(|(k, v)| entry(k, text(v))).collect();
    vec![entry("headers", DocumentValue::Mapping(m))]
}

#[test]
fn default_endpoint_parses_correctly() {
    endpoint().unwrap();
}

#[test]
fn it_parses_a_minimal_config() {
    Config::from_document(&vec![]).unwrap();
}

#[test]
fn it_contains_no_keys_with_double_underscore() {
    for name in field_names() {
        assert!(!contains_double_underscore(name));
    }
}

#[test]
fn empty_document_takes_every_default() {
    let c = Config::from_document(&vec![]).unwrap();
    assert!(c.custom_scalars.is_none());
    assert_eq!(c.endpoint.as_str(), "http://127.0.0.1:4000/");
    assert!(c.headers.is_empty());
}

#[test]
fn default_endpoint_is_local_port_4000() {
    let u = endpoint().unwrap();
    assert_eq!(u.scheme(), "http");
    assert_eq!(u.host_str(), Some("127.0.0.1"));
    assert_eq!(u.port(), Some(4000));
    assert_eq!(DEFAULT_ENDPOINT, "http://127.0.0.1:4000");
}

#[test]
fn headers_are_kept_by_name_and_value() {
    let c = Config::from_document(&headers_doc(&[("x-a", "1"), ("x-b", "2")])).unwrap();
    assert_eq!(c.headers.len(), 2);
    assert_eq!(c.headers.get("x-a").unwrap(), "1");
    assert_eq!(c.headers.get("x-b").unwrap(), "2");
}

#[test]
fn header_names_are_lower_cased() {
    let h = map_from_str(&vec![pair("X-Api-Key", "secret")]).unwrap();
    assert_eq!(h.len(), 1);
    let (name, value) = h.iter().next().unwrap();
    assert_eq!(name.as_str(), "x-api-key");
    assert_eq!(value, "secret");
}

#[test]
fn header_name_with_space_is_refused() {
    let r = Config::from_document(&headers_doc(&[("bad header name", "v")]));
    match r {
        Err(ConfigError::InvalidHeaderName { key, .. }) => assert_eq!(key, "bad header name"),
        other => panic!("unexpected: {:?}", other.map(|c| c.headers)),
    }
}

#[test]
fn empty_header_name_is_refused() {
    let r = map_from_str(&vec![pair("", "v")]);
    assert!(matches!(r, Err(ConfigError::InvalidHeaderName { .. })));
}

#[test]
fn header_value_with_newline_is_refused() {
    let r = Config::from_document(&headers_doc(&[("x-a", "line1\nline2")]));
    match r {
        Err(ConfigError::InvalidHeaderValue { value, .. }) => assert_eq!(value, "line1\nline2"),
        other => panic!("unexpected: {:?}", other.map(|c| c.headers)),
    }
}

#[test]
fn header_value_with_tab_is_kept() {
    let h = map_from_str(&vec![pair("x-a", "a\tb")]).unwrap();
    assert_eq!(h.get("x-a").unwrap().as_bytes(), b"a\tb");
}

#[test]
fn first_bad_entry_is_reported() {
    let r = map_from_str(&vec![pair("x-a", "ok"), pair("x-b", "bad\u{7f}"), pair("bad name", "v")]);
    match r {
        Err(ConfigError::InvalidHeaderValue { value, .. }) => assert_eq!(value, "bad\u{7f}"),
        other => panic!("unexpected: {:?}", other.map(|h| h.len())),
    }
}

#[test]
fn repeated_header_keeps_last_value() {
    let h = map_from_str(&vec![pair("x-a", "first"), pair("X-A", "second")]).unwrap();
    assert_eq!(h.len(), 1);
    let all: Vec<_> = h.get_all("x-a").iter().collect();
    assert_eq!(all, vec!["second"]);
}

#[test]
fn malformed_endpoint_is_refused() {
    let r = Config::from_document(&vec![entry("endpoint", text("not a url"))]);
    match r {
        Err(ConfigError::MalformedEndpoint { value, parse_error }) => {
            assert_eq!(value, "not a url");
            assert_eq!(parse_error, url::ParseError::RelativeUrlWithoutBase);
        }
        other => panic!("unexpected: {:?}", other.map(|c| c.headers)),
    }
}

#[test]
fn given_endpoint_is_used() {
    let c = Config::from_document(&vec![entry("endpoint", text("https://example.com/graphql"))]).unwrap();
    assert_eq!(c.endpoint.as_str(), "https://example.com/graphql");
}

#[test]
fn later_key_of_document_wins() {
    let doc = vec![entry("endpoint", text("not a url")), entry("endpoint", text("http://a.example/"))];
    let c = Config::from_document(&doc).unwrap();
    assert_eq!(c.endpoint.as_str(), "http://a.example/");
}

#[test]
fn headers_as_string_are_refused() {
    let r = Config::from_document(&vec![entry("headers", text("x-a: 1"))]);
    assert!(matches!(r, Err(ConfigError::MalformedHeaderStructure)));
    let e = r.err().unwrap();
    assert_eq!(e.message(), "a map of header string keys and values");
}

#[test]
fn headers_with_non_text_value_are_refused() {
    let doc = vec![entry("headers", DocumentValue::Mapping(vec![entry("x-a", DocumentValue::Other)]))];
    assert!(matches!(Config::from_document(&doc), Err(ConfigError::MalformedHeaderStructure)));
}

#[test]
fn mistyped_endpoint_is_refused() {
    let r = Config::from_document(&vec![entry("endpoint", DocumentValue::Other)]);
    match r {
        Err(ConfigError::MistypedField { field }) => assert_eq!(field, "endpoint"),
        other => panic!("unexpected: {:?}", other.map(|c| c.headers)),
    }
}

#[test]
fn custom_scalars_path_is_kept() {
    let c = Config::from_document(&vec![entry("custom_scalars", text("scalars.json"))]).unwrap();
    assert_eq!(c.custom_scalars.as_deref(), Some("scalars.json"));
    let c = Config::from_document(&vec![entry("custom_scalars", DocumentValue::Null)]).unwrap();
    assert!(c.custom_scalars.is_none());
    let r = Config::from_document(&vec![entry("custom_scalars", DocumentValue::Mapping(vec![]))]);
    assert!(matches!(r, Err(ConfigError::MistypedField { .. })));
}

#[test]
fn unknown_keys_are_passed_over() {
    let doc = vec![entry("transport", text("stdio")), entry("logging", DocumentValue::Mapping(vec![]))];
    assert!(Config::from_document(&doc).is_ok());
}

#[test]
fn double_underscore_is_found() {
    assert!(contains_double_underscore("{\"a__b\": 1}"));
    assert!(contains_double_underscore("__"));
    assert!(!contains_double_underscore("custom_scalars"));
    assert!(!contains_double_underscore("_"));
    assert!(!contains_double_underscore(""));
    assert!(!contains_double_underscore("_a_"));
}

#[test]
fn field_names_are_the_document_keys() {
    assert_eq!(field_names(), vec!["custom_scalars", "endpoint", "headers"]);
}
