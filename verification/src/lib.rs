//! Request-metrics instrumentation for an HTTP service.
//!
//! The library captures per-request metadata, pairs it with response
//! metadata through a keyed stash, and builds the telemetry messages that
//! a thin transport shell posts to a remote collector.

pub mod client;
pub mod extract;
pub mod messages;
pub mod meta;
pub mod stash;
