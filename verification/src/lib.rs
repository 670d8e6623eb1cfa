//! Verified line counting: per-line comment/blank/code classification and
//! order-independent aggregation of per-file statistics by language.

pub mod aggregate;
pub mod analyzer;
pub mod classifier;
pub mod pathfilter;
pub mod profile;
pub mod registry;
pub mod stats;
pub mod text;
