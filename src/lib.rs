//! A small client for StatsD counters: each increment or decrement becomes one
//! datagram of the form `<prefix><bucket>:<value>|<tag>`.
//!
//! This crate holds what a client decides: the prefix it applies, the sample each
//! call emits, and the text of its payload. Sending the payload over a socket is
//! left to the caller.

pub mod client;
pub mod error;
pub mod laws;
pub mod metric;
pub mod sample;

pub use client::ClientState;
pub use error::{StatsdError, StatsdResult};
pub use metric::MetricType;
pub use sample::{wire_text, Delta, Sample, SampleView};
