//! A typed client for a remote credential-storage web API.
//!
//! The client exposes three operations — add a credential, list the services
//! registered for a user, fetch one credential — over a JSON/HTTP contract.
//! Request bodies and URLs are built by verified code (JSON string escaping
//! and percent-encoding included); responses are classified by status and
//! decoded into plain records, with every non-2xx response surfaced as an
//! API error that keeps the status code and body text.

pub mod client;
pub mod codec;
pub mod error;
pub mod json;
pub mod model;
