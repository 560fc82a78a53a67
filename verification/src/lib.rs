//! A minimal HTTP load-generation harness.
//!
//! The library holds the verified core of the harness: URL parsing into a
//! structured target descriptor, construction and serialization of the raw
//! HTTP/1.x request, the worker-loop and result-collection bookkeeping, and
//! latency aggregation. The surrounding binary performs the actual TCP
//! probes and thread management and feeds their outcomes into this library
//! as plain values.

pub mod connection;
pub mod harness;
pub mod parse;
pub mod request;
pub mod strutil;
