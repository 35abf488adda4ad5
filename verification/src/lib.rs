//! The logic of a small authenticated mail relay: checking a bearer token,
//! validating a send request, composing the outgoing message through an SMTP
//! client library, and shaping every outcome into one `{success, message}`
//! reply with its HTTP status.

pub mod config;
pub mod error;
pub mod middleware;
pub mod routes;
pub mod service;
