//! Parallel range-download engine: capability probing, range partitioning,
//! per-part fetch with retry, progress aggregation and ordered reassembly,
//! written as pure decisions over plain values so that every rule is proved.
//!
//! The crate performs no I/O. A driver issues the requests and file operations
//! that the decision functions ask for and feeds the outcomes back in.

pub mod download;
pub mod error;
pub mod fetch;
pub mod http;
pub mod merge;
pub mod part;
pub mod paths;
pub mod plan;
pub mod progress;
pub mod retry;
pub mod text;
pub mod types;
pub mod utils;
