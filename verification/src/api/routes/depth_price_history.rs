//! Reading the depth and price series.

use crate::api::{
    get_history, names_allowed, read_statement, resolved_range, row_filter, table_source,
    ApiParams, OutlineView, QueryError,
};
use crate::db::Statement;
use crate::midgard_api::handlers::Series;
use vstd::prelude::*;

verus! {

/// The statement that reads the rows of the depth and price series which a
/// request asks for.
pub fn get_depth_price_history(params: &ApiParams) -> (result: Result<Statement, QueryError>)
    ensures
        match result {
            Ok(statement) => params@.outline(Series::DepthPrice) matches Ok(outline) && resolved_range(
                params@.date_range,
            ) matches Some(range) && names_allowed(outline, Series::DepthPrice) && statement@ == read_statement(
                table_source(Series::DepthPrice.table_name()),
                row_filter(),
                outline,
                range,
                params@.limit(),
                params@.offset(),
            ),
            Err(QueryError::InvalidDate) => params@.outline(Series::DepthPrice) is Ok
                && resolved_range(params@.date_range) is None,
            Err(error) => params@.outline(Series::DepthPrice) == Err::<OutlineView, QueryError>(
                error,
            ),
        },
{
    get_history(params, Series::DepthPrice)
}

} // verus!
