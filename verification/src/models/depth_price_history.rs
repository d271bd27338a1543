//! The depth and price series.

use vstd::prelude::*;

verus! {

/// One window of the depth and price series of a pool.
///
/// Instants are whole seconds since the Unix epoch; decimal numbers are
/// held by their text.
#[derive(Clone, Debug, PartialEq, Eq)]
pub struct DepthPriceHistory {
    pub start_time: i64,
    pub end_time: i64,
    pub asset_depth: i64,
    pub rune_depth: i64,
    pub asset_price: String,
    pub asset_price_usd: String,
    pub liquidity_units: i64,
    pub members_count: i64,
    pub synth_units: i64,
    pub synth_supply: i64,
    pub units: i64,
    pub luvi: String,
}

} // verus!
