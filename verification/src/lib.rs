//! A minimal verified request-dispatch core for HTTP micro-benchmark
//! handlers: an exact-match routing table from (method, path) to handler
//! identities, a middleware-style completion step that maps typed errors to
//! status codes and stamps a uniform Server header on every response, and
//! the handler logic itself (fixed text and JSON payloads, clamped bulk
//! lookups, HTML-escaped template rendering).
//!
//! Transport, connection acceptance and the backend data client are outside
//! collaborators: the core receives decoded requests and backend replies as
//! plain values and produces complete responses.

pub mod digits;
pub mod handlers;
pub mod pipeline;
pub mod query;
pub mod error;
pub mod fortunes;
pub mod response;
pub mod router;
pub mod ser;
