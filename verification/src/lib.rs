//! Verified core of an HTTP file server: traversal-safe path resolution,
//! a bounded mtime-validated file cache, a windowed rate limiter, and the
//! response-building logic that ties them together.

pub mod cache;
pub mod engine;
pub mod errors;
pub mod headers;
pub mod limiter;
pub mod listing;
pub mod resolve;
