//! Configuration model of an MCP server: recognised settings, their
//! defaults, and validation of the endpoint URL and of the static headers.
mod outside;

pub mod config;
pub mod document;
pub mod error;
pub mod headers;
pub mod naming;

pub use outside::{
    header_map_entries, header_name_bytes, header_name_of, header_name_valid, header_value_bytes,
    header_value_valid, is_token_byte, is_value_byte, lower_byte, url_from, url_text,
    MAX_HEADER_NAME_LEN,
};
