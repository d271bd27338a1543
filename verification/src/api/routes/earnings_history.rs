//! Reading the earnings series: each earnings window with the earnings of
//! its pools gathered beside it.

use crate::api::{
    compose, names_allowed, read_statement, resolve_date_range, resolved_range, ApiParams,
    DateRange, OutlineView, QueryError,
};
use crate::db::Statement;
use crate::midgard_api::handlers::Series;
use vstd::prelude::*;

verus! {

/// What an earnings window is selected as: its own columns, and the earnings
/// of its pools as one array, from the windows joined with their pools and
/// grouped by window.
pub const EARNINGS_SOURCE: &'static str =
    "e.start_time, e.end_time, e.liquidity_fees, e.block_rewards, e.earnings, \
     e.bonding_earnings, e.liquidity_earnings, e.avg_node_count, e.rune_price_usd, \
     json_agg(json_build_object('pool', pe.pool, 'asset_liquidity_fees', \
     pe.asset_liquidity_fees, 'rune_liquidity_fees', pe.rune_liquidity_fees, \
     'total_liquidity_fees_rune', pe.total_liquidity_fees_rune, 'saver_earning', \
     pe.saver_earning, 'rewards', pe.rewards, 'earnings', pe.earnings)) AS pools FROM \
     earnings_history e LEFT JOIN pool_earnings pe ON e.id = pe.earnings_history_id GROUP \
     BY e.start_time, e.end_time, e.liquidity_fees, e.block_rewards, e.earnings, \
     e.bonding_earnings, e.liquidity_earnings, e.avg_node_count, e.rune_price_usd";

/// The keyword of a filter on groups. The bounds of a date range compare
/// columns of the grouped windows, so they stand behind the grouping.
pub const GROUP_FILTER: &'static str = " HAVING ";

/// The statement that reads the earnings windows which a request asks for,
/// given the bounds that its date range stands for.
///
/// What goes into the text by name is checked before anything is built: the
/// interval, then the sort column against the columns of an earnings window,
/// then the direction.
pub fn earnings_history_statement(params: &ApiParams, range: &DateRange) -> (result: Result<
    Statement,
    QueryError,
>)
    ensures
        match result {
            Ok(statement) => params@.outline(Series::Earnings) matches Ok(outline)
                && names_allowed(outline, Series::Earnings) && statement@ == read_statement(
                EARNINGS_SOURCE@,
                GROUP_FILTER@,
                outline,
                *range,
                params@.limit(),
                params@.offset(),
            ),
            Err(error) => params@.outline(Series::Earnings) == Err::<OutlineView, QueryError>(
                error,
            ),
        },
{
    match params.outline(Series::Earnings) {
        Err(error) => Err(error),
        Ok(outline) => Ok(
            compose(EARNINGS_SOURCE, GROUP_FILTER, &outline, range, params.pagination()),
        ),
    }
}

/// The statement that reads the earnings windows which a request asks for.
///
/// Fails exactly when the request asks for what the library does not allow,
/// before anything is built: with `InvalidInterval` when the interval is
/// none of the four buckets; else with `InvalidSortColumn` when the sort
/// column is no column of an earnings window; else with `InvalidOrder` when
/// the direction is neither of the two keywords; else with `InvalidDate`
/// when a part of the date range is not empty and is no date.
pub fn get_earnings_history(params: &ApiParams) -> (result: Result<Statement, QueryError>)
    ensures
        match result {
            Ok(statement) => params@.outline(Series::Earnings) matches Ok(outline) && resolved_range(
                params@.date_range,
            ) matches Some(range) && names_allowed(outline, Series::Earnings) && statement@ == read_statement(
                EARNINGS_SOURCE@,
                GROUP_FILTER@,
                outline,
                range,
                params@.limit(),
                params@.offset(),
            ),
            Err(QueryError::InvalidDate) => params@.outline(Series::Earnings) is Ok
                && resolved_range(params@.date_range) is None,
            Err(error) => params@.outline(Series::Earnings) == Err::<OutlineView, QueryError>(
                error,
            ),
        },
{
    match params.outline(Series::Earnings) {
        Err(error) => Err(error),
        Ok(_) => match resolve_date_range(&params.date_range) {
            None => Err(QueryError::InvalidDate),
            Some(range) => earnings_history_statement(params, &range),
        },
    }
}

} // verus!
