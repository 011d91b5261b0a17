//! Glyphic API client logic: identifier and body validation, query-string
//! construction from JSON parameters, endpoint URLs, request preparation and
//! the mapping of HTTP outcomes to the component's error types.

pub mod text;
pub mod errors;
pub mod validation;
pub mod encoding;
pub mod query;
pub mod endpoints;
pub mod requests;
pub mod component;
pub mod datasource;
