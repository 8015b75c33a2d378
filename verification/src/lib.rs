//! A memory-bandwidth load generator: workers rewrite private buffers with a
//! fixed pattern, tally their writes into shared counters, and a ticker turns
//! the counters into throughput lines in human units.

pub mod config;
pub mod counters;
pub mod scale;
pub mod text;
pub mod ticker;
pub mod worker;

pub use scale::greek;
