//! Reading the rune pool series.

use crate::api::{
    get_history, names_allowed, read_statement, resolved_range, row_filter, table_source,
    ApiParams, OutlineView, QueryError,
};
use crate::db::Statement;
use crate::midgard_api::handlers::Series;
use vstd::prelude::*;

verus! {

/// The statement that reads the rows of the rune pool series which a
/// request asks for.
pub fn get_rune_pool_history(params: &ApiParams) -> (result: Result<Statement, QueryError>)
    ensures
        match result {
            Ok(statement) => params@.outline(Series::RunePool) matches Ok(outline) && resolved_range(
                params@.date_range,
            ) matches Some(range) && names_allowed(outline, Series::RunePool) && statement@ == read_statement(
                table_source(Series::RunePool.table_name()),
                row_filter(),
                outline,
                range,
                params@.limit(),
                params@.offset(),
            ),
            Err(QueryError::InvalidDate) => params@.outline(Series::RunePool) is Ok
                && resolved_range(params@.date_range) is None,
            Err(error) => params@.outline(Series::RunePool) == Err::<OutlineView, QueryError>(
                error,
            ),
        },
{
    get_history(params, Series::RunePool)
}

} // verus!
