//! A verified model of the trace-context propagation and span-lifecycle
//! protocol used by a chain of HTTP services: extracting a parent context
//! from inbound headers, starting and annotating server and client spans,
//! injecting a span's context into outbound headers, and ending every span
//! exactly once on every path.

pub mod carrier;
pub mod client;
pub mod context;
pub mod handlers;
pub mod laws;
pub mod middleware;
pub mod propagation;
pub mod span;
pub mod text;
