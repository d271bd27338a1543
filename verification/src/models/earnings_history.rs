//! The earnings series.

use vstd::prelude::*;

verus! {

/// One window of the earnings series, with the earnings of each pool in it.
///
/// Instants are whole seconds since the Unix epoch; decimal numbers are
/// held by their text.
#[derive(Clone, Debug, PartialEq, Eq)]
pub struct EarningsHistory {
    pub start_time: i64,
    pub end_time: i64,
    pub liquidity_fees: i64,
    pub block_rewards: i64,
    pub earnings: i64,
    pub bonding_earnings: i64,
    pub liquidity_earnings: i64,
    pub avg_node_count: String,
    pub rune_price_usd: String,
    pub pools: Vec<PoolEarnings>,
}

/// The earnings of one pool in one window.
#[derive(Clone, Debug, PartialEq, Eq)]
pub struct PoolEarnings {
    pub pool: String,
    pub asset_liquidity_fees: i64,
    pub rune_liquidity_fees: i64,
    pub total_liquidity_fees_rune: i64,
    pub saver_earning: i64,
    pub rewards: i64,
    pub earnings: i64,
}

} // verus!
