//! Verified core of an API usage and cost reporter.
//!
//! The library models usage buckets returned by a metered billing API,
//! normalizes model names to priced base models, computes exact costs in
//! nano-dollars, and drives a cursor-based pagination loop as a state
//! machine.  Network and terminal work live outside the library.
pub mod api;
pub mod clock;
pub mod models;
pub mod numfmt;
pub mod report;
pub mod text;
