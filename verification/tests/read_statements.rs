use midgard_history::api::routes::depth_price_history::get_depth_price_history;
use midgard_history::api::routes::earnings_history::{
    earnings_history_statement, get_earnings_history, EARNINGS_SOURCE,
};
use midgard_history::api::routes::rune_pool_history::get_rune_pool_history;
use midgard_history::api::routes::swaps_history::get_swaps_history;
use midgard_history::api::{
    get_history, history_statement, resolve_date_range, split_at_comma, ApiParams, DateRange,
    Direction, Interval, Outline, Pagination, QueryError,
};
use midgard_history::db::SqlValue;
use midgard_history::midgard_api::Series;

fn text(s: &str) -> Option<String> {
    Some(s.to_string())
}

fn no_range() -> DateRange {
    DateRange { start: None, end: None }
}

#[test]
fn plain_request_reads_the_first_page_of_the_table() {
    let statement = get_depth_price_history(&ApiParams::default()).unwrap();
    assert_eq!(
        statement.text,
        "SELECT * FROM depth_price_history ORDER BY start_time LIMIT 10 OFFSET 0"
    );
    assert!(statement.binds.is_empty());
}

#[test]
fn each_route_reads_its_own_table() {
    let params = ApiParams::default();
    assert_eq!(
        get_rune_pool_history(&params).unwrap().text,
        "SELECT * FROM rune_pool_history ORDER BY start_time LIMIT 10 OFFSET 0"
    );
    assert_eq!(
        get_swaps_history(&params).unwrap().text,
        "SELECT * FROM swaps_history ORDER BY start_time LIMIT 10 OFFSET 0"
    );
}

#[test]
fn daily_buckets_over_a_month_second_page() {
    let params = ApiParams {
        interval: text("day"),
        date_range: text("2024-01-01,2024-01-31"),
        limit: Some(5),
        page: Some(2),
        ..ApiParams::default()
    };
    let statement = get_history(&params, Series::DepthPrice).unwrap();
    assert_eq!(
        statement.text,
        "SELECT DISTINCT ON (date_trunc('day', start_time)) * FROM depth_price_history \
         WHERE start_time >= $1 AND end_time <= $2 \
         ORDER BY date_trunc('day', start_time), start_time ASC LIMIT 5 OFFSET 5"
    );
    assert_eq!(
        statement.binds,
        vec![SqlValue::Timestamp(1704067200), SqlValue::Timestamp(1706659200)]
    );
    assert_eq!(params.pagination(), Pagination { limit: 5, offset: 5 });
}

#[test]
fn daily_buckets_over_a_month_of_earnings() {
    let params = ApiParams {
        interval: text("day"),
        date_range: text("2024-01-01,2024-01-31"),
        limit: Some(5),
        page: Some(2),
        ..ApiParams::default()
    };
    let statement = get_earnings_history(&params).unwrap();
    let expected = format!(
        "SELECT DISTINCT ON (date_trunc('day', start_time)) {} HAVING start_time >= $1 AND \
         end_time <= $2 ORDER BY date_trunc('day', start_time), start_time ASC LIMIT 5 OFFSET 5",
        EARNINGS_SOURCE
    );
    assert_eq!(statement.text, expected);
    assert_eq!(
        statement.binds,
        vec![SqlValue::Timestamp(1704067200), SqlValue::Timestamp(1706659200)]
    );
}

#[test]
fn earnings_are_grouped_by_window_with_their_pools() {
    let statement = get_earnings_history(&ApiParams::default()).unwrap();
    assert_eq!(
        statement.text,
        "SELECT e.start_time, e.end_time, e.liquidity_fees, e.block_rewards, e.earnings, \
         e.bonding_earnings, e.liquidity_earnings, e.avg_node_count, e.rune_price_usd, \
         json_agg(json_build_object('pool', pe.pool, \
         'asset_liquidity_fees', pe.asset_liquidity_fees, \
         'rune_liquidity_fees', pe.rune_liquidity_fees, \
         'total_liquidity_fees_rune', pe.total_liquidity_fees_rune, \
         'saver_earning', pe.saver_earning, 'rewards', pe.rewards, \
         'earnings', pe.earnings)) AS pools \
         FROM earnings_history e \
         LEFT JOIN pool_earnings pe ON e.id = pe.earnings_history_id \
         GROUP BY e.start_time, e.end_time, e.liquidity_fees, e.block_rewards, e.earnings, \
         e.bonding_earnings, e.liquidity_earnings, e.avg_node_count, e.rune_price_usd \
         ORDER BY start_time LIMIT 10 OFFSET 0"
    );
    assert!(statement.binds.is_empty());
}

#[test]
fn unknown_interval_is_rejected() {
    let params = ApiParams { interval: text("year"), ..ApiParams::default() };
    assert_eq!(get_history(&params, Series::Swaps), Err(QueryError::InvalidInterval));
    assert_eq!(get_earnings_history(&params), Err(QueryError::InvalidInterval));
    assert_eq!(
        history_statement(&params, Series::Swaps, &no_range()),
        Err(QueryError::InvalidInterval)
    );
    assert_eq!(
        earnings_history_statement(&params, &no_range()),
        Err(QueryError::InvalidInterval)
    );
}

#[test]
fn empty_and_miscased_intervals_are_rejected() {
    for name in ["", "Day", "hour ", "hours", "HOUR"] {
        let params = ApiParams { interval: text(name), ..ApiParams::default() };
        assert_eq!(params.interval(), Err(QueryError::InvalidInterval));
    }
}

#[test]
fn invalid_interval_comes_before_an_invalid_date() {
    let params = ApiParams {
        interval: text("decade"),
        date_range: text("yesterday"),
        ..ApiParams::default()
    };
    assert_eq!(get_history(&params, Series::Swaps), Err(QueryError::InvalidInterval));
}

#[test]
fn a_part_that_is_no_date_is_rejected() {
    for range in ["yesterday", "2024-01-01,tomorrow", ",2024-02-30", "2024-13-01,"] {
        let params = ApiParams { date_range: text(range), ..ApiParams::default() };
        assert_eq!(get_history(&params, Series::Swaps), Err(QueryError::InvalidDate));
        assert_eq!(get_earnings_history(&params), Err(QueryError::InvalidDate));
        assert_eq!(resolve_date_range(&params.date_range), None);
    }
}

#[test]
fn the_four_intervals_are_read_and_written_alike() {
    let all = [
        ("hour", Interval::Hour),
        ("day", Interval::Day),
        ("week", Interval::Week),
        ("month", Interval::Month),
    ];
    for (name, interval) in all {
        assert_eq!(Interval::parse(name), Some(interval));
        assert_eq!(interval.as_str(), name);
        let params = ApiParams { interval: text(name), ..ApiParams::default() };
        assert_eq!(params.interval(), Ok(Some(interval)));
    }
    assert_eq!(ApiParams::default().interval(), Ok(None));
}

#[test]
fn date_range_with_only_a_start() {
    let params = ApiParams { date_range: text("2024-01-01"), ..ApiParams::default() };
    let statement = get_history(&params, Series::Swaps).unwrap();
    assert_eq!(
        statement.text,
        "SELECT * FROM swaps_history WHERE start_time >= $1 ORDER BY start_time LIMIT 10 OFFSET 0"
    );
    assert_eq!(statement.binds, vec![SqlValue::Timestamp(1704067200)]);
    let with_comma = ApiParams { date_range: text("2024-01-01,"), ..ApiParams::default() };
    assert_eq!(get_history(&with_comma, Series::Swaps).unwrap(), statement);
}

#[test]
fn date_range_with_only_an_end() {
    let params = ApiParams { date_range: text(",2024-01-31"), ..ApiParams::default() };
    let statement = get_history(&params, Series::Swaps).unwrap();
    assert_eq!(
        statement.text,
        "SELECT * FROM swaps_history WHERE end_time <= $1 ORDER BY start_time LIMIT 10 OFFSET 0"
    );
    assert_eq!(statement.binds, vec![SqlValue::Timestamp(1706659200)]);
}

#[test]
fn empty_date_range_filters_nothing() {
    for range in ["", ",", ",,"] {
        let params = ApiParams { date_range: text(range), ..ApiParams::default() };
        assert_eq!(resolve_date_range(&params.date_range), Some(no_range()));
        let statement = get_history(&params, Series::Swaps).unwrap();
        assert_eq!(
            statement.text,
            "SELECT * FROM swaps_history ORDER BY start_time LIMIT 10 OFFSET 0"
        );
        assert!(statement.binds.is_empty());
    }
}

#[test]
fn what_follows_a_second_comma_is_ignored() {
    let range = text("2024-01-01,2024-01-31,whatever");
    assert_eq!(
        resolve_date_range(&range),
        Some(DateRange { start: Some(1704067200), end: Some(1706659200) })
    );
}

#[test]
fn splitting_at_the_first_comma() {
    assert_eq!(split_at_comma("a,b,c"), ("a", "b,c"));
    assert_eq!(split_at_comma("abc"), ("abc", ""));
    assert_eq!(split_at_comma(",x"), ("", "x"));
    assert_eq!(split_at_comma("x,"), ("x", ""));
    assert_eq!(split_at_comma(""), ("", ""));
    assert_eq!(split_at_comma("é,ü"), ("é", "ü"));
}

#[test]
fn sort_column_without_interval_takes_the_direction() {
    let params = ApiParams {
        sort_by: text("units"),
        order: text("DESC"),
        ..ApiParams::default()
    };
    assert_eq!(
        get_history(&params, Series::RunePool).unwrap().text,
        "SELECT * FROM rune_pool_history ORDER BY units DESC LIMIT 10 OFFSET 0"
    );
    let ascending = ApiParams { sort_by: text("units"), ..ApiParams::default() };
    assert_eq!(
        get_history(&ascending, Series::RunePool).unwrap().text,
        "SELECT * FROM rune_pool_history ORDER BY units ASC LIMIT 10 OFFSET 0"
    );
}

#[test]
fn direction_without_a_sort_column_or_interval_is_not_written() {
    let params = ApiParams { order: text("DESC"), ..ApiParams::default() };
    assert_eq!(
        get_history(&params, Series::RunePool).unwrap().text,
        "SELECT * FROM rune_pool_history ORDER BY start_time LIMIT 10 OFFSET 0"
    );
}

#[test]
fn bucket_stays_the_first_sort_key() {
    let params = ApiParams {
        interval: text("week"),
        sort_by: text("total_volume"),
        order: text("DESC"),
        ..ApiParams::default()
    };
    assert_eq!(
        get_history(&params, Series::Swaps).unwrap().text,
        "SELECT DISTINCT ON (date_trunc('week', start_time)) * FROM swaps_history \
         ORDER BY date_trunc('week', start_time), start_time, total_volume DESC \
         LIMIT 10 OFFSET 0"
    );
    let no_column = ApiParams { interval: text("month"), order: text("DESC"), ..ApiParams::default() };
    assert_eq!(
        get_history(&no_column, Series::Swaps).unwrap().text,
        "SELECT DISTINCT ON (date_trunc('month', start_time)) * FROM swaps_history \
         ORDER BY date_trunc('month', start_time), start_time DESC LIMIT 10 OFFSET 0"
    );
}

#[test]
fn offset_is_the_limit_times_the_pages_before() {
    let cases: [(Option<i64>, Option<i64>, i64, i128); 7] = [
        (None, None, 10, 0),
        (Some(25), None, 25, 0),
        (None, Some(4), 10, 30),
        (Some(7), Some(3), 7, 14),
        (Some(0), Some(9), 0, 0),
        (Some(5), Some(0), 5, -5),
        (Some(-2), Some(3), -2, -4),
    ];
    for (limit, page, want_limit, want_offset) in cases {
        let params = ApiParams { limit, page, ..ApiParams::default() };
        assert_eq!(params.pagination(), Pagination { limit: want_limit, offset: want_offset });
        let statement = get_history(&params, Series::RunePool).unwrap();
        assert!(statement
            .text
            .ends_with(&format!(" LIMIT {} OFFSET {}", want_limit, want_offset)));
    }
}

#[test]
fn limit_and_page_are_held_to_no_bound() {
    let params = ApiParams { limit: Some(i64::MAX), page: Some(i64::MAX), ..ApiParams::default() };
    let offset = (i64::MAX as i128 - 1) * i64::MAX as i128;
    assert_eq!(params.pagination().offset, offset);
    assert_eq!(
        get_history(&params, Series::RunePool).unwrap().text,
        "SELECT * FROM rune_pool_history ORDER BY start_time LIMIT 9223372036854775807 \
         OFFSET 85070591730234615838173535747377725442"
    );
    let low = ApiParams { limit: Some(i64::MIN), page: Some(i64::MIN), ..ApiParams::default() };
    assert_eq!(
        get_history(&low, Series::RunePool).unwrap().text,
        "SELECT * FROM rune_pool_history ORDER BY start_time LIMIT -9223372036854775808 \
         OFFSET 85070591730234615875067023894796828672"
    );
}

#[test]
fn statement_for_given_bounds() {
    let params = ApiParams { interval: text("hour"), ..ApiParams::default() };
    let range = DateRange { start: Some(-5), end: Some(7) };
    let statement = history_statement(&params, Series::DepthPrice, &range).unwrap();
    assert_eq!(
        statement.text,
        "SELECT DISTINCT ON (date_trunc('hour', start_time)) * FROM depth_price_history \
         WHERE start_time >= $1 AND end_time <= $2 \
         ORDER BY date_trunc('hour', start_time), start_time ASC LIMIT 10 OFFSET 0"
    );
    assert_eq!(statement.binds, vec![SqlValue::Timestamp(-5), SqlValue::Timestamp(7)]);
}

#[test]
fn statement_is_what_the_query_builder_of_the_store_writes() {
    let params = ApiParams {
        interval: text("day"),
        date_range: text("2024-01-01,2024-01-31"),
        sort_by: text("units"),
        order: text("DESC"),
        limit: Some(5),
        page: Some(3),
    };
    let statement = get_history(&params, Series::DepthPrice).unwrap();
    let start = chrono::DateTime::from_timestamp(1704067200, 0).unwrap();
    let end = chrono::DateTime::from_timestamp(1706659200, 0).unwrap();
    let mut builder: sqlx::QueryBuilder<sqlx::Postgres> = sqlx::QueryBuilder::new(
        "SELECT DISTINCT ON (date_trunc('day', start_time)) * FROM depth_price_history",
    );
    builder.push(" WHERE ");
    builder.push("start_time >= ").push_bind(start);
    builder.push(" AND ");
    builder.push("end_time <= ").push_bind(end);
    builder.push(" ORDER BY date_trunc('day', start_time), start_time, units DESC");
    builder.push(" LIMIT ").push(5i64);
    builder.push(" OFFSET ").push(10i64);
    assert_eq!(statement.text, builder.sql());
    assert_eq!(statement.binds.len(), 2);
}

#[test]
fn sort_column_must_be_a_column_of_the_series() {
    for column in ["", "unit", "Units", "units ", "units; DROP TABLE swaps_history", "1", "*"] {
        let params = ApiParams { sort_by: text(column), ..ApiParams::default() };
        assert_eq!(get_history(&params, Series::RunePool), Err(QueryError::InvalidSortColumn));
        assert_eq!(
            history_statement(&params, Series::RunePool, &no_range()),
            Err(QueryError::InvalidSortColumn)
        );
        assert_eq!(params.sort_column(Series::RunePool), Err(QueryError::InvalidSortColumn));
    }
    // A column of one series is no column of another.
    let by_luvi = ApiParams { sort_by: text("luvi"), ..ApiParams::default() };
    assert!(get_history(&by_luvi, Series::DepthPrice).is_ok());
    assert_eq!(get_history(&by_luvi, Series::Swaps), Err(QueryError::InvalidSortColumn));
    assert_eq!(get_earnings_history(&by_luvi), Err(QueryError::InvalidSortColumn));
    let by_pools = ApiParams { sort_by: text("pools"), ..ApiParams::default() };
    assert_eq!(get_earnings_history(&by_pools), Err(QueryError::InvalidSortColumn));
}

#[test]
fn every_column_of_a_series_sorts_it() {
    for series in [Series::DepthPrice, Series::Earnings, Series::RunePool, Series::Swaps] {
        let columns = series.columns();
        assert_eq!(columns[0], "start_time");
        assert_eq!(columns[1], "end_time");
        for column in columns {
            assert_eq!(series.column(column), Some(column));
            let params = ApiParams { sort_by: text(column), ..ApiParams::default() };
            assert_eq!(params.sort_column(series), Ok(Some(column)));
            assert_eq!(
                get_history(&params, series).unwrap().text,
                format!(
                    "SELECT * FROM {} ORDER BY {} ASC LIMIT 10 OFFSET 0",
                    series.table(),
                    column
                )
            );
        }
    }
    assert_eq!(Series::DepthPrice.columns().len(), 12);
    assert_eq!(Series::Earnings.columns().len(), 9);
    assert_eq!(Series::RunePool.columns(), vec!["start_time", "end_time", "count", "units"]);
    assert_eq!(Series::Swaps.columns().len(), 38);
    assert_eq!(Series::Swaps.column("rune_price_usd"), Some("rune_price_usd"));
    assert_eq!(Series::Swaps.column("luvi"), None);
}

#[test]
fn earnings_sort_by_the_columns_of_a_window() {
    let params = ApiParams {
        sort_by: text("bonding_earnings"),
        order: text("DESC"),
        ..ApiParams::default()
    };
    let statement = get_earnings_history(&params).unwrap();
    assert!(statement.text.ends_with(" ORDER BY bonding_earnings DESC LIMIT 10 OFFSET 0"));
}

#[test]
fn direction_must_be_one_of_the_two_keywords() {
    for order in ["", "asc", "desc", "Asc", "ASC ", "ASCENDING", "DESC; DROP TABLE x", "1"] {
        let params = ApiParams { order: text(order), ..ApiParams::default() };
        assert_eq!(params.direction(), Err(QueryError::InvalidOrder));
        assert_eq!(get_history(&params, Series::Swaps), Err(QueryError::InvalidOrder));
        assert_eq!(get_earnings_history(&params), Err(QueryError::InvalidOrder));
        assert_eq!(
            earnings_history_statement(&params, &no_range()),
            Err(QueryError::InvalidOrder)
        );
    }
    assert_eq!(Direction::parse("ASC"), Some(Direction::Asc));
    assert_eq!(Direction::parse("DESC"), Some(Direction::Desc));
    assert_eq!(Direction::Asc.as_str(), "ASC");
    assert_eq!(Direction::Desc.as_str(), "DESC");
    assert_eq!(ApiParams::default().direction(), Ok(Direction::Asc));
}

#[test]
fn the_first_option_that_is_not_allowed_is_the_error() {
    let all_wrong = ApiParams {
        interval: text("decade"),
        date_range: text("yesterday"),
        sort_by: text("nothing"),
        order: text("sideways"),
        limit: None,
        page: None,
    };
    assert_eq!(get_history(&all_wrong, Series::Swaps), Err(QueryError::InvalidInterval));
    let column_next = ApiParams { interval: text("day"), ..all_wrong.clone() };
    assert_eq!(get_history(&column_next, Series::Swaps), Err(QueryError::InvalidSortColumn));
    let order_next = ApiParams { sort_by: text("total_fees"), ..column_next.clone() };
    assert_eq!(get_history(&order_next, Series::Swaps), Err(QueryError::InvalidOrder));
    let date_last = ApiParams { order: text("DESC"), ..order_next.clone() };
    assert_eq!(get_history(&date_last, Series::Swaps), Err(QueryError::InvalidDate));
    let all_right = ApiParams { date_range: text("2024-01-01"), ..date_last.clone() };
    assert!(get_history(&all_right, Series::Swaps).is_ok());
}

#[test]
fn outline_of_a_request() {
    let params = ApiParams {
        interval: text("week"),
        sort_by: text("count"),
        order: text("DESC"),
        ..ApiParams::default()
    };
    assert_eq!(
        params.outline(Series::RunePool),
        Ok(Outline {
            interval: Some(Interval::Week),
            sort_by: Some("count"),
            direction: Direction::Desc
        })
    );
    assert_eq!(
        ApiParams::default().outline(Series::RunePool),
        Ok(Outline { interval: None, sort_by: None, direction: Direction::Asc })
    );
    assert_eq!(params.outline(Series::Swaps), Err(QueryError::InvalidSortColumn));
}

#[test]
fn errors_say_what_went_wrong() {
    assert_eq!(
        QueryError::InvalidSortColumn.message(),
        "Invalid sort column provided. Allowed columns: the columns of the series"
    );
    assert_eq!(
        QueryError::InvalidOrder.message(),
        "Invalid order provided. Allowed orders: [\"ASC\", \"DESC\"]"
    );
    assert!(QueryError::InvalidInterval.is_client_error());
    assert!(QueryError::InvalidSortColumn.is_client_error());
    assert!(QueryError::InvalidOrder.is_client_error());
    assert!(!QueryError::InvalidDate.is_client_error());
    assert_eq!(
        QueryError::InvalidInterval.message(),
        "Invalid interval provided. Allowed intervals: [\"hour\", \"day\", \"week\", \"month\"]"
    );
    assert_eq!(
        QueryError::InvalidInterval.message(),
        format!(
            "Invalid interval provided. Allowed intervals: {:?}",
            vec!["hour", "day", "week", "month"]
        )
    );
    assert_eq!(QueryError::InvalidDate.message(), "Failed to parse start date");
}
