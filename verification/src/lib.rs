//! Verified core of a memory-mapped access benchmark: configuration decoding,
//! page-touch scheduling over a mapped region, shared progress counters,
//! parsers for the two kernel statistics feeds, and the once-per-second
//! report record.

pub mod config;
pub mod counters;
pub mod feeds;
pub mod monitor;
pub mod region;
pub mod report;
pub mod sampling;
pub mod scan;
pub mod text;
pub mod units;
