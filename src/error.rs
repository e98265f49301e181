use reqwest::header::{InvalidHeaderName, InvalidHeaderValue};
use url::ParseError;
use vstd::prelude::*;

verus! {

/// Why a configuration document was refused.
#[derive(Debug)]
pub enum ConfigError {
    /// `endpoint` is not a URL; holds the text and what the URL parser found.
    MalformedEndpoint { value: String, parse_error: ParseError },
    /// `headers` is not a mapping of text keys to text values.
    MalformedHeaderStructure,
    /// A header key is not a header name; holds the key and the parser's error.
    InvalidHeaderName { key: String, name_error: InvalidHeaderName },
    /// A header value holds a byte that a header value cannot; holds the value
    /// and the parser's error.
    InvalidHeaderValue { value: String, value_error: InvalidHeaderValue },
    /// A field has a value of the wrong kind (a mapping where text belongs);
    /// holds the field's name.
    MistypedField { field: String },
}

impl ConfigError {
    /// What a caller is told: the field or text at fault.
    pub fn message(&self) -> (r: String)
        ensures
            r@ == self.spec_message(),
    {
        match self {
            ConfigError::MalformedEndpoint { value, .. } => value.clone(),
            ConfigError::MalformedHeaderStructure => "a map of header string keys and values".to_owned(),
            ConfigError::InvalidHeaderName { key, .. } => key.clone(),
            ConfigError::InvalidHeaderValue { value, .. } => value.clone(),
            ConfigError::MistypedField { field } => field.clone(),
        }
    }

    pub open spec fn spec_message(&self) -> Seq<char> {
        match self {
            ConfigError::MalformedEndpoint { value, .. } => value@,
            ConfigError::MalformedHeaderStructure => "a map of header string keys and values"@,
            ConfigError::InvalidHeaderName { key, .. } => key@,
            ConfigError::InvalidHeaderValue { value, .. } => value@,
            ConfigError::MistypedField { field } => field@,
        }
    }
}

} // verus!
