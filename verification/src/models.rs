//! The records of the four series.

pub mod depth_price_history;
pub mod earnings_history;
pub mod rune_pool_history;
pub mod swaps_history;

pub use depth_price_history::DepthPriceHistory;
pub use earnings_history::EarningsHistory;
pub use earnings_history::PoolEarnings;
pub use rune_pool_history::RunePoolHistory;
pub use swaps_history::SwapsHistory;
