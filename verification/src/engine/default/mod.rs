//! The default engine's parts.

pub mod file_api_http_client;
