//! The pools of each chain and the price rule they share.

pub mod juno_listing;
pub mod juno_pool;
pub mod juno_reply;
pub mod osmosis_listing;
pub mod osmosis_pool;
pub mod weighted;
