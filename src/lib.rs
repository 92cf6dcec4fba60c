//! Request admission for HTTP servers: it rejects a request whose URL or body
//! is larger than the configured limits before any handler sees it.
pub mod error;
pub mod laws;
pub mod limit;
