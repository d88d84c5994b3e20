//! Core of a concurrent web-fetching client: the retry policy with linear
//! backoff, the bounded-permit concurrency accounting, fail-fast batch
//! aggregation, and CSS-selector / JSON extraction over fetched bodies. The
//! host program owns the transport and the scheduler; this library owns every
//! decision they act on.

pub mod batch;
pub mod client;
pub mod error;
pub mod extract;
pub mod limiter;
pub mod retry;
