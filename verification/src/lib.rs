//! Cache-control decoration for an HTTP response pipeline.
//!
//! A [`data::CacheControl`] holds ordered suffix and prefix rules and resolves a
//! request path to at most one header value. The types in [`middleware`] carry
//! that rule set through a request: they capture the path before the inner
//! handler runs and, once its response is there, set the `Cache-Control` header
//! to the value of the rule that matched.

pub mod data;
pub mod headers;
pub mod middleware;
mod pattern;
