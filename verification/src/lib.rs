//! Verified core of the Conduit web console: input validation for servers and
//! tokens, the command allowlist, output redaction decisions, and the admin
//! gate. Storage, HTTP and encryption live with the caller.

pub mod text;
pub mod store;
pub mod policy;
pub mod privacy;
pub mod api;
pub mod config;
