//! Resumable, rate-limited harvesting of a remote store catalog.
//!
//! The crate holds the decisions of the harvest: which catalog entries are
//! skipped, when a batch ends, how a detail reply becomes table rows, and what
//! the tables hold after the rows were written. Transport, the database and the
//! checkpoint file belong to the program that drives it.

pub mod types;
pub mod digits;
pub mod limiter;
pub mod progress;
pub mod fetcher;
pub mod normalizer;
pub mod storage;
pub mod pipeline;
pub mod harvest;
