//! Error types: local cache-engine failures and distributed client
//! failures, with the retryable/terminal classification the router uses.
pub mod cache_error;
pub mod client_error;
