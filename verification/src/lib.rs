//! A single-process protocol node: it reads one JSON request per line,
//! updates its local state, and emits exactly one JSON reply per request.
//!
//! The crate is organised around a small engine:
//! - [`messages`] holds the wire model: the per-kind request and reply
//!   records and the tagged unions that the dispatcher works on;
//! - [`errors`] names the ways an input line can be rejected;
//! - [`json`] holds the model of a JSON document and the thin trusted
//!   shims over the JSON crate, whose contracts speak in that model;
//! - [`codec`] decodes an input line into a request and encodes a reply
//!   back into one output line, each exactly as its specification-level
//!   counterpart prescribes;
//! - [`node`] holds the node state, the per-kind handlers, and the
//!   dispatch step, each with a contract;
//! - [`laws`] states and proves the protocol-wide guarantees, such as the
//!   gapless reply numbering and the order-preserving broadcast log.

pub mod codec;
pub mod errors;
pub mod json;
pub mod laws;
pub mod messages;
pub mod node;
