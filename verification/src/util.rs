//! Helpers around the pools.

pub mod denom_trace;
pub mod encoding;
pub mod search;
