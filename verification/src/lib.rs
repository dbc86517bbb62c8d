//! Core of a single-target HTTP reverse proxy.
//!
//! The library holds the request-forwarding pipeline: capturing an inbound
//! request into plain values, composing the outbound location from the
//! configured target base, relaying the upstream response verbatim, and
//! translating transport failures into a fixed upstream-unavailable
//! response. The surrounding process (argument parsing, the HTTP server
//! loop, the outbound network call, the log sink) lives outside the
//! library and exchanges plain values with it.

pub mod config;
pub mod logfmt;
pub mod relay;
pub mod request;
