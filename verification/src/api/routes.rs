//! One entry for each history resource.

pub mod depth_price_history;
pub mod earnings_history;
pub mod rune_pool_history;
pub mod swaps_history;
