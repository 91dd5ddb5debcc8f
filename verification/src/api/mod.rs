//! The HTTP API: administration views, the public v1 API and its limits.
pub mod admin;
pub mod auth;
pub mod handlers;
pub mod rate_limit;
