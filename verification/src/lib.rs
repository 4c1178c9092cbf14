//! A verified core for a non-blocking HTTP request bridge.
//!
//! A single-threaded host loop hands a request (url, method string, and a
//! JSON-encoded header map) to the bridge; the bridge resolves the HTTP verb,
//! marshals the headers, and produces a [`bridge::PendingRequest`] for an
//! executor to run.  The outcome comes back through a one-shot
//! [`completion::Completion`] that is settled exactly once.

pub mod bridge;
pub mod completion;
pub mod headers;
pub mod json;
pub mod services;
pub mod text;
pub mod verb;
