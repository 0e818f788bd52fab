//! A request-dispatch and middleware-chaining core.
//!
//! The crate sits between a transport-level HTTP server and user-written
//! handlers. It models one inbound request as an immutable [`request::HttpRequest`]
//! snapshot (method, path, query, headers, cookies, typed body), accumulates an
//! outgoing response in a value-semantics [`response::HttpResponse`] builder,
//! resolves exactly one handler per (method, path) pair through an append-only
//! [`router::RouteRegistry`], and runs an ordered, short-circuitable middleware
//! chain in front of the resolved handler.

pub mod app;
pub mod chain;
pub mod jsonval;
pub mod kv;
pub mod logger;
pub mod request;
pub mod response;
pub mod router;
pub mod strutil;
pub mod types;
