//! Batched dispatch engine of a concurrent HTTP load generator.
//!
//! A run sends `total_requests` GET requests in batches of at most
//! `batch_size`; every request of a batch is in flight at once, and the next
//! batch starts only when each request of the current one has an outcome.
//! This crate holds the decisions of such a run: how a run is cut into
//! batches, how a request is assembled, how a reply is classified, how
//! outcomes are counted, and in which order batches may start. Performing
//! the requests and waiting for them is left to the caller.

pub mod config;
pub mod coordinator;
pub mod entropy;
pub mod executor;
pub mod outcome;
pub mod params;
pub mod plan;
pub mod render;
pub mod report;
pub mod setup;
pub mod summary;
pub mod text;
pub mod transport;
