//! Timing telemetry for HTTP requests.
//!
//! An HTTP client records monotonic timestamps at scattered points of the
//! connection-establishment and request-dispatch paths: DNS resolution, TCP
//! connect, TLS handshake, first response byte, redirect hops, completion.
//! This crate turns those optional, independently recorded instants into a
//! coherent, queryable timeline for one logical request, including requests
//! that follow a chain of redirects or reuse a pooled connection.
//!
//! Instants are plain `u64` nanosecond counts on a monotonic clock with an
//! arbitrary origin. The caller supplies every instant (the clock stays
//! outside this crate), so the whole subsystem is deterministic and every
//! derived duration is stated and proved exactly. All duration arithmetic
//! saturates at zero: an out-of-order write can never produce a negative
//! or wrapped-around latency figure.

mod report;
mod stats;

pub use report::ReportItem;
pub use stats::ConnectionStats;
pub use stats::HttpConnectionStats;
pub use stats::RedirectStats;
pub use stats::RequestStats;
