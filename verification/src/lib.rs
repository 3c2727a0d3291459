//! A typed client for the GitHub v3 REST API.
//!
//! The crate builds request URLs from a base URL plus ordered path
//! segments and query parameters, attaches a fixed authentication
//! header set to every request, and decodes JSON response bodies into
//! typed resource values.  A decoded resource remembers the client
//! that produced it and can issue follow-up requests scoped to its own
//! identifying fields.  The network transport itself is left to the
//! caller: every gateway method here produces the exact request to
//! perform, and a companion method absorbs the raw response.

pub mod auth;
pub mod client;
pub mod entities;
pub mod entity;
pub mod errors;
pub mod http;
pub mod json;
pub mod numtext;
pub mod urlbuild;

pub use errors::Error;
