//! The writes: one insert statement for each record, in the order in which
//! the records came. The store takes them one by one.

use crate::db::{bound_values, SqlValue, SqlValueView, Statement, StatementView};
use crate::models::{
    DepthPriceHistory, EarningsHistory, PoolEarnings, RunePoolHistory, SwapsHistory,
};
use vstd::prelude::*;
use vstd::string::*;

verus! {

/// The statement that reads the watermark of a series: the latest end of a
/// window that its table holds.
pub open spec fn last_end_time_query(table: Seq<char>) -> Seq<char> {
    "SELECT max(end_time) FROM "@ + table
}

/// The statement that reads the watermark of the series in `table`.
pub fn get_last_end_time(table: &str) -> (query: String)
    ensures
        query@ == last_end_time_query(table@),
{
    let mut query = String::from_str("SELECT max(end_time) FROM ");
    query.append(table);
    query
}

/// The insert of one window of the depth and price series.
pub const INSERT_DEPTH_PRICE: &'static str =
    "INSERT INTO depth_price_history (start_time, end_time, asset_depth, rune_depth, \
     asset_price, asset_price_usd, liquidity_units, members_count, synth_units, \
     synth_supply, units, luvi) VALUES ($1, $2, $3, $4, $5, $6, $7, $8, $9, $10, $11, \
     $12)";

/// The insert of the window `item`, its columns bound in the order of the
/// placeholders.
pub open spec fn depth_price_statement(item: DepthPriceHistory) -> StatementView {
    StatementView {
        text: INSERT_DEPTH_PRICE@,
        binds: seq![
            SqlValueView::Timestamp(item.start_time),
            SqlValueView::Timestamp(item.end_time),
            SqlValueView::BigInt(item.asset_depth),
            SqlValueView::BigInt(item.rune_depth),
            SqlValueView::Numeric(item.asset_price@),
            SqlValueView::Numeric(item.asset_price_usd@),
            SqlValueView::BigInt(item.liquidity_units),
            SqlValueView::BigInt(item.members_count),
            SqlValueView::BigInt(item.synth_units),
            SqlValueView::BigInt(item.synth_supply),
            SqlValueView::BigInt(item.units),
            SqlValueView::Numeric(item.luvi@),
        ],
    }
}

/// Builds the insert of one window of the depth and price series.
pub fn depth_price_insert(item: &DepthPriceHistory) -> (statement: Statement)
    ensures
        statement@ == depth_price_statement(*item),
{
    let mut binds: Vec<SqlValue> = Vec::new();
    binds.push(SqlValue::Timestamp(item.start_time));
    binds.push(SqlValue::Timestamp(item.end_time));
    binds.push(SqlValue::BigInt(item.asset_depth));
    binds.push(SqlValue::BigInt(item.rune_depth));
    binds.push(SqlValue::Numeric(item.asset_price.clone()));
    binds.push(SqlValue::Numeric(item.asset_price_usd.clone()));
    binds.push(SqlValue::BigInt(item.liquidity_units));
    binds.push(SqlValue::BigInt(item.members_count));
    binds.push(SqlValue::BigInt(item.synth_units));
    binds.push(SqlValue::BigInt(item.synth_supply));
    binds.push(SqlValue::BigInt(item.units));
    binds.push(SqlValue::Numeric(item.luvi.clone()));
    assert(bound_values(binds@) =~= depth_price_statement(*item).binds);
    Statement { text: String::from_str(INSERT_DEPTH_PRICE), binds }
}

/// The inserts of a batch of the depth and price series: one for each
/// window, in the order of the batch.
pub fn insert_depth_price_history(data: &Vec<DepthPriceHistory>) -> (plan: Vec<Statement>)
    ensures
        plan.len() == data.len(),
        forall|i: int| 0 <= i < data.len() ==> (#[trigger] plan[i])@ == depth_price_statement(data[i]),
{
    let mut plan: Vec<Statement> = Vec::new();
    let mut at: usize = 0;
    while at < data.len()
        invariant
            at <= data.len(),
            plan.len() == at,
            forall|i: int| 0 <= i < at ==> (#[trigger] plan[i])@ == depth_price_statement(data[i]),
        decreases data.len() - at,
    {
        plan.push(depth_price_insert(&data[at]));
        at = at + 1;
    }
    plan
}

/// The insert of one earnings window. The store hands back the identifier
/// that it gave the new row.
pub const INSERT_EARNINGS: &'static str =
    "INSERT INTO earnings_history (start_time, end_time, liquidity_fees, block_rewards, \
     earnings, bonding_earnings, liquidity_earnings, avg_node_count, rune_price_usd) \
     VALUES ($1, $2, $3, $4, $5, $6, $7, $8, $9) RETURNING id";

/// The insert of the earnings window `item`, without its pools.
pub open spec fn earnings_statement(item: EarningsHistory) -> StatementView {
    StatementView {
        text: INSERT_EARNINGS@,
        binds: seq![
            SqlValueView::Timestamp(item.start_time),
            SqlValueView::Timestamp(item.end_time),
            SqlValueView::BigInt(item.liquidity_fees),
            SqlValueView::BigInt(item.block_rewards),
            SqlValueView::BigInt(item.earnings),
            SqlValueView::BigInt(item.bonding_earnings),
            SqlValueView::BigInt(item.liquidity_earnings),
            SqlValueView::Numeric(item.avg_node_count@),
            SqlValueView::Numeric(item.rune_price_usd@),
        ],
    }
}

/// Builds the insert of one earnings window, without its pools.
pub fn earnings_insert(item: &EarningsHistory) -> (statement: Statement)
    ensures
        statement@ == earnings_statement(*item),
{
    let mut binds: Vec<SqlValue> = Vec::new();
    binds.push(SqlValue::Timestamp(item.start_time));
    binds.push(SqlValue::Timestamp(item.end_time));
    binds.push(SqlValue::BigInt(item.liquidity_fees));
    binds.push(SqlValue::BigInt(item.block_rewards));
    binds.push(SqlValue::BigInt(item.earnings));
    binds.push(SqlValue::BigInt(item.bonding_earnings));
    binds.push(SqlValue::BigInt(item.liquidity_earnings));
    binds.push(SqlValue::Numeric(item.avg_node_count.clone()));
    binds.push(SqlValue::Numeric(item.rune_price_usd.clone()));
    assert(bound_values(binds@) =~= earnings_statement(*item).binds);
    Statement { text: String::from_str(INSERT_EARNINGS), binds }
}

/// The insert of the earnings of one pool, under the identifier of its
/// window.
pub const INSERT_POOL_EARNINGS: &'static str =
    "INSERT INTO pool_earnings (earnings_history_id, pool, asset_liquidity_fees, \
     rune_liquidity_fees, total_liquidity_fees_rune, saver_earning, rewards, earnings) \
     VALUES ($1, $2, $3, $4, $5, $6, $7, $8)";

/// The insert of the pool earnings `item` under the window that the store
/// knows as `parent`.
pub open spec fn pool_earnings_statement(parent: i32, item: PoolEarnings) -> StatementView {
    StatementView {
        text: INSERT_POOL_EARNINGS@,
        binds: seq![
            SqlValueView::Integer(parent),
            SqlValueView::Text(item.pool@),
            SqlValueView::BigInt(item.asset_liquidity_fees),
            SqlValueView::BigInt(item.rune_liquidity_fees),
            SqlValueView::BigInt(item.total_liquidity_fees_rune),
            SqlValueView::BigInt(item.saver_earning),
            SqlValueView::BigInt(item.rewards),
            SqlValueView::BigInt(item.earnings),
        ],
    }
}

/// Builds the insert of the earnings of one pool under the window that the
/// store knows as `parent`.
pub fn pool_earnings_insert(parent: i32, item: &PoolEarnings) -> (statement: Statement)
    ensures
        statement@ == pool_earnings_statement(parent, *item),
{
    let mut binds: Vec<SqlValue> = Vec::new();
    binds.push(SqlValue::Integer(parent));
    binds.push(SqlValue::Text(item.pool.clone()));
    binds.push(SqlValue::BigInt(item.asset_liquidity_fees));
    binds.push(SqlValue::BigInt(item.rune_liquidity_fees));
    binds.push(SqlValue::BigInt(item.total_liquidity_fees_rune));
    binds.push(SqlValue::BigInt(item.saver_earning));
    binds.push(SqlValue::BigInt(item.rewards));
    binds.push(SqlValue::BigInt(item.earnings));
    assert(bound_values(binds@) =~= pool_earnings_statement(parent, *item).binds);
    Statement { text: String::from_str(INSERT_POOL_EARNINGS), binds }
}

/// The inserts of a batch of earnings windows: one for each window, in the
/// order of the batch. The pools of a window follow once the store has named
/// the window: see `insert_pool_earnings`.
pub fn insert_earnings_history(data: &Vec<EarningsHistory>) -> (plan: Vec<Statement>)
    ensures
        plan.len() == data.len(),
        forall|i: int| 0 <= i < data.len() ==> (#[trigger] plan[i])@ == earnings_statement(data[i]),
{
    let mut plan: Vec<Statement> = Vec::new();
    let mut at: usize = 0;
    while at < data.len()
        invariant
            at <= data.len(),
            plan.len() == at,
            forall|i: int| 0 <= i < at ==> (#[trigger] plan[i])@ == earnings_statement(data[i]),
        decreases data.len() - at,
    {
        plan.push(earnings_insert(&data[at]));
        at = at + 1;
    }
    plan
}

/// The inserts of the pools of one earnings window that the store knows as
/// `parent`: one for each pool, in their order.
pub fn insert_pool_earnings(parent: i32, data: &Vec<PoolEarnings>) -> (plan: Vec<Statement>)
    ensures
        plan.len() == data.len(),
        forall|i: int| 0 <= i < data.len() ==> (#[trigger] plan[i])@ == pool_earnings_statement(parent, data[i]),
{
    let mut plan: Vec<Statement> = Vec::new();
    let mut at: usize = 0;
    while at < data.len()
        invariant
            at <= data.len(),
            plan.len() == at,
            forall|i: int| 0 <= i < at ==> (#[trigger] plan[i])@ == pool_earnings_statement(parent, data[i]),
        decreases data.len() - at,
    {
        plan.push(pool_earnings_insert(parent, &data[at]));
        at = at + 1;
    }
    plan
}

/// The insert of one window of the rune pool series.
pub const INSERT_RUNE_POOL: &'static str =
    "INSERT INTO rune_pool_history (start_time, end_time, count, units) VALUES ($1, $2, \
     $3, $4)";

/// The insert of the window `item`.
pub open spec fn rune_pool_statement(item: RunePoolHistory) -> StatementView {
    StatementView {
        text: INSERT_RUNE_POOL@,
        binds: seq![
            SqlValueView::Timestamp(item.start_time),
            SqlValueView::Timestamp(item.end_time),
            SqlValueView::BigInt(item.count),
            SqlValueView::BigInt(item.units),
        ],
    }
}

/// Builds the insert of one window of the rune pool series.
pub fn rune_pool_insert(item: &RunePoolHistory) -> (statement: Statement)
    ensures
        statement@ == rune_pool_statement(*item),
{
    let mut binds: Vec<SqlValue> = Vec::new();
    binds.push(SqlValue::Timestamp(item.start_time));
    binds.push(SqlValue::Timestamp(item.end_time));
    binds.push(SqlValue::BigInt(item.count));
    binds.push(SqlValue::BigInt(item.units));
    assert(bound_values(binds@) =~= rune_pool_statement(*item).binds);
    Statement { text: String::from_str(INSERT_RUNE_POOL), binds }
}

/// The inserts of a batch of the rune pool series: one for each window, in
/// the order of the batch.
pub fn insert_rune_pool_history(data: &Vec<RunePoolHistory>) -> (plan: Vec<Statement>)
    ensures
        plan.len() == data.len(),
        forall|i: int| 0 <= i < data.len() ==> (#[trigger] plan[i])@ == rune_pool_statement(data[i]),
{
    let mut plan: Vec<Statement> = Vec::new();
    let mut at: usize = 0;
    while at < data.len()
        invariant
            at <= data.len(),
            plan.len() == at,
            forall|i: int| 0 <= i < at ==> (#[trigger] plan[i])@ == rune_pool_statement(data[i]),
        decreases data.len() - at,
    {
        plan.push(rune_pool_insert(&data[at]));
        at = at + 1;
    }
    plan
}

/// The insert of one window of the swaps series.
pub const INSERT_SWAPS: &'static str =
    "INSERT INTO swaps_history (start_time, end_time, to_asset_count, to_rune_count, \
     to_trade_count, from_trade_count, synth_mint_count, synth_redeem_count, total_count, \
     to_asset_volume, to_rune_volume, to_trade_volume, from_trade_volume, \
     synth_mint_volume, synth_redeem_volume, total_volume, to_asset_volume_usd, \
     to_rune_volume_usd, to_trade_volume_usd, from_trade_volume_usd, \
     synth_mint_volume_usd, synth_redeem_volume_usd, total_volume_usd, to_asset_fees, \
     to_rune_fees, to_trade_fees, from_trade_fees, synth_mint_fees, synth_redeem_fees, \
     total_fees, to_asset_average_slip, to_rune_average_slip, to_trade_average_slip, \
     from_trade_average_slip, synth_mint_average_slip, synth_redeem_average_slip, \
     average_slip, rune_price_usd) VALUES ($1, $2, $3, $4, $5, $6, $7, $8, $9, $10, $11, \
     $12, $13, $14, $15, $16, $17, $18, $19, $20, $21, $22, $23, $24, $25, $26, $27, $28, \
     $29, $30, $31, $32, $33, $34, $35, $36, $37, $38)";

/// The insert of the window `item`.
pub open spec fn swaps_statement(item: SwapsHistory) -> StatementView {
    StatementView {
        text: INSERT_SWAPS@,
        binds: seq![
            SqlValueView::Timestamp(item.start_time),
            SqlValueView::Timestamp(item.end_time),
            SqlValueView::BigInt(item.to_asset_count),
            SqlValueView::BigInt(item.to_rune_count),
            SqlValueView::BigInt(item.to_trade_count),
            SqlValueView::BigInt(item.from_trade_count),
            SqlValueView::BigInt(item.synth_mint_count),
            SqlValueView::BigInt(item.synth_redeem_count),
            SqlValueView::BigInt(item.total_count),
            SqlValueView::BigInt(item.to_asset_volume),
            SqlValueView::BigInt(item.to_rune_volume),
            SqlValueView::BigInt(item.to_trade_volume),
            SqlValueView::BigInt(item.from_trade_volume),
            SqlValueView::BigInt(item.synth_mint_volume),
            SqlValueView::BigInt(item.synth_redeem_volume),
            SqlValueView::BigInt(item.total_volume),
            SqlValueView::BigInt(item.to_asset_volume_usd),
            SqlValueView::BigInt(item.to_rune_volume_usd),
            SqlValueView::BigInt(item.to_trade_volume_usd),
            SqlValueView::BigInt(item.from_trade_volume_usd),
            SqlValueView::BigInt(item.synth_mint_volume_usd),
            SqlValueView::BigInt(item.synth_redeem_volume_usd),
            SqlValueView::BigInt(item.total_volume_usd),
            SqlValueView::BigInt(item.to_asset_fees),
            SqlValueView::BigInt(item.to_rune_fees),
            SqlValueView::BigInt(item.to_trade_fees),
            SqlValueView::BigInt(item.from_trade_fees),
            SqlValueView::BigInt(item.synth_mint_fees),
            SqlValueView::BigInt(item.synth_redeem_fees),
            SqlValueView::BigInt(item.total_fees),
            SqlValueView::Numeric(item.to_asset_average_slip@),
            SqlValueView::Numeric(item.to_rune_average_slip@),
            SqlValueView::Numeric(item.to_trade_average_slip@),
            SqlValueView::Numeric(item.from_trade_average_slip@),
            SqlValueView::Numeric(item.synth_mint_average_slip@),
            SqlValueView::Numeric(item.synth_redeem_average_slip@),
            SqlValueView::Numeric(item.average_slip@),
            SqlValueView::Numeric(item.rune_price_usd@),
        ],
    }
}

/// Builds the insert of one window of the swaps series.
pub fn swaps_insert(item: &SwapsHistory) -> (statement: Statement)
    ensures
        statement@ == swaps_statement(*item),
{
    let mut binds: Vec<SqlValue> = Vec::new();
    binds.push(SqlValue::Timestamp(item.start_time));
    binds.push(SqlValue::Timestamp(item.end_time));
    binds.push(SqlValue::BigInt(item.to_asset_count));
    binds.push(SqlValue::BigInt(item.to_rune_count));
    binds.push(SqlValue::BigInt(item.to_trade_count));
    binds.push(SqlValue::BigInt(item.from_trade_count));
    binds.push(SqlValue::BigInt(item.synth_mint_count));
    binds.push(SqlValue::BigInt(item.synth_redeem_count));
    binds.push(SqlValue::BigInt(item.total_count));
    binds.push(SqlValue::BigInt(item.to_asset_volume));
    binds.push(SqlValue::BigInt(item.to_rune_volume));
    binds.push(SqlValue::BigInt(item.to_trade_volume));
    binds.push(SqlValue::BigInt(item.from_trade_volume));
    binds.push(SqlValue::BigInt(item.synth_mint_volume));
    binds.push(SqlValue::BigInt(item.synth_redeem_volume));
    binds.push(SqlValue::BigInt(item.total_volume));
    binds.push(SqlValue::BigInt(item.to_asset_volume_usd));
    binds.push(SqlValue::BigInt(item.to_rune_volume_usd));
    binds.push(SqlValue::BigInt(item.to_trade_volume_usd));
    binds.push(SqlValue::BigInt(item.from_trade_volume_usd));
    binds.push(SqlValue::BigInt(item.synth_mint_volume_usd));
    binds.push(SqlValue::BigInt(item.synth_redeem_volume_usd));
    binds.push(SqlValue::BigInt(item.total_volume_usd));
    binds.push(SqlValue::BigInt(item.to_asset_fees));
    binds.push(SqlValue::BigInt(item.to_rune_fees));
    binds.push(SqlValue::BigInt(item.to_trade_fees));
    binds.push(SqlValue::BigInt(item.from_trade_fees));
    binds.push(SqlValue::BigInt(item.synth_mint_fees));
    binds.push(SqlValue::BigInt(item.synth_redeem_fees));
    binds.push(SqlValue::BigInt(item.total_fees));
    binds.push(SqlValue::Numeric(item.to_asset_average_slip.clone()));
    binds.push(SqlValue::Numeric(item.to_rune_average_slip.clone()));
    binds.push(SqlValue::Numeric(item.to_trade_average_slip.clone()));
    binds.push(SqlValue::Numeric(item.from_trade_average_slip.clone()));
    binds.push(SqlValue::Numeric(item.synth_mint_average_slip.clone()));
    binds.push(SqlValue::Numeric(item.synth_redeem_average_slip.clone()));
    binds.push(SqlValue::Numeric(item.average_slip.clone()));
    binds.push(SqlValue::Numeric(item.rune_price_usd.clone()));
    assert(bound_values(binds@) =~= swaps_statement(*item).binds);
    Statement { text: String::from_str(INSERT_SWAPS), binds }
}

/// The inserts of a batch of the swaps series: one for each window, in the
/// order of the batch.
pub fn insert_swaps_history(data: &Vec<SwapsHistory>) -> (plan: Vec<Statement>)
    ensures
        plan.len() == data.len(),
        forall|i: int| 0 <= i < data.len() ==> (#[trigger] plan[i])@ == swaps_statement(data[i]),
{
    let mut plan: Vec<Statement> = Vec::new();
    let mut at: usize = 0;
    while at < data.len()
        invariant
            at <= data.len(),
            plan.len() == at,
            forall|i: int| 0 <= i < at ==> (#[trigger] plan[i])@ == swaps_statement(data[i]),
        decreases data.len() - at,
    {
        plan.push(swaps_insert(&data[at]));
        at = at + 1;
    }
    plan
}

} // verus!
