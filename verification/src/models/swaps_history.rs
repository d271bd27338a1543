//! The swaps series.

use vstd::prelude::*;

verus! {

/// One window of the swaps series.
///
/// Instants are whole seconds since the Unix epoch; decimal numbers are
/// held by their text.
#[derive(Clone, Debug, PartialEq, Eq)]
pub struct SwapsHistory {
    pub start_time: i64,
    pub end_time: i64,
    pub to_asset_count: i64,
    pub to_rune_count: i64,
    pub to_trade_count: i64,
    pub from_trade_count: i64,
    pub synth_mint_count: i64,
    pub synth_redeem_count: i64,
    pub total_count: i64,
    pub to_asset_volume: i64,
    pub to_rune_volume: i64,
    pub to_trade_volume: i64,
    pub from_trade_volume: i64,
    pub synth_mint_volume: i64,
    pub synth_redeem_volume: i64,
    pub total_volume: i64,
    pub to_asset_volume_usd: i64,
    pub to_rune_volume_usd: i64,
    pub to_trade_volume_usd: i64,
    pub from_trade_volume_usd: i64,
    pub synth_mint_volume_usd: i64,
    pub synth_redeem_volume_usd: i64,
    pub total_volume_usd: i64,
    pub to_asset_fees: i64,
    pub to_rune_fees: i64,
    pub to_trade_fees: i64,
    pub from_trade_fees: i64,
    pub synth_mint_fees: i64,
    pub synth_redeem_fees: i64,
    pub total_fees: i64,
    pub to_asset_average_slip: String,
    pub to_rune_average_slip: String,
    pub to_trade_average_slip: String,
    pub from_trade_average_slip: String,
    pub synth_mint_average_slip: String,
    pub synth_redeem_average_slip: String,
    pub average_slip: String,
    pub rune_price_usd: String,
}

} // verus!
