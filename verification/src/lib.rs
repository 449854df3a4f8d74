//! A small, verified core for an HTTP metadata/aggregation service over
//! named "cubes" (analytical data sets).
//!
//! The verified parts are the pieces with real design decisions: the grammar
//! of the compound `<verb>[.<format>]` path segment, the ordered route
//! matcher, the handler bodies, the concurrency-safe schema facade, and the
//! translation of failures into HTTP responses. The surrounding HTTP server
//! is ordinary unverified plumbing that hands this library plain path
//! segments and returns its responses to the wire.

pub mod handler;
pub mod route;
pub mod router;
pub mod schema;
pub mod text;
