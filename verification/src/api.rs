//! The read side: from the options of a history request to one read
//! statement with its bound values.

pub mod routes;

use crate::db::{bound_values, SqlValue, SqlValueView, Statement, StatementView};
use crate::midgard_api::handlers::Series;
use crate::text::{decimal, push_decimal, same_text};
use crate::utils::{date_instant, parse_date_to_utc};
use vstd::prelude::*;
use vstd::std_specs::iter::IteratorSpec;
use vstd::string::*;

verus! {

/// The limit of a request that names none.
pub const DEFAULT_LIMIT: i64 = 10;

/// The page of a request that names none. Pages count from one.
pub const DEFAULT_PAGE: i64 = 1;

/// The sort direction of a request that names none.
pub const DEFAULT_ORDER: Direction = Direction::Asc;

/// The bucket that rows are grouped by when a request asks for an interval.
#[derive(Clone, Copy, Debug, PartialEq, Eq, Structural)]
pub enum Interval {
    Hour,
    Day,
    Week,
    Month,
}

impl Interval {
    /// The name of the bucket, as requests write it and as the store's
    /// truncation takes it.
    pub open spec fn name(self) -> Seq<char> {
        match self {
            Interval::Hour => "hour"@,
            Interval::Day => "day"@,
            Interval::Week => "week"@,
            Interval::Month => "month"@,
        }
    }

    /// The bucket that `text` names, if it names one.
    pub open spec fn named(text: Seq<char>) -> Option<Interval> {
        if text == "hour"@ {
            Some(Interval::Hour)
        } else if text == "day"@ {
            Some(Interval::Day)
        } else if text == "week"@ {
            Some(Interval::Week)
        } else if text == "month"@ {
            Some(Interval::Month)
        } else {
            None
        }
    }

    /// The name of the bucket.
    pub fn as_str(&self) -> (name: &'static str)
        ensures
            name@ == self.name(),
    {
        match self {
            Interval::Hour => "hour",
            Interval::Day => "day",
            Interval::Week => "week",
            Interval::Month => "month",
        }
    }

    /// Reads the name of a bucket. `None` for any other text.
    pub fn parse(text: &str) -> (interval: Option<Interval>)
        ensures
            interval == Interval::named(text@),
    {
        if same_text(text, "hour") {
            Some(Interval::Hour)
        } else if same_text(text, "day") {
            Some(Interval::Day)
        } else if same_text(text, "week") {
            Some(Interval::Week)
        } else if same_text(text, "month") {
            Some(Interval::Month)
        } else {
            None
        }
    }
}

/// Each bucket is the one that its own name names.
pub proof fn lemma_interval_name_round_trip(interval: Interval)
    ensures
        Interval::named(interval.name()) == Some(interval),
{
    reveal_strlit("hour");
    reveal_strlit("day");
    reveal_strlit("week");
    reveal_strlit("month");
    assert("hour"@.len() == 4 && "day"@.len() == 3 && "week"@.len() == 4 && "month"@.len() == 5);
    assert("hour"@[0] == 'h' && "week"@[0] == 'w');
}

/// The direction in which rows are sorted.
#[derive(Clone, Copy, Debug, PartialEq, Eq, Structural)]
pub enum Direction {
    Asc,
    Desc,
}

impl Direction {
    /// The keyword of the direction, as requests write it and as it goes
    /// into a statement.
    pub open spec fn name(self) -> Seq<char> {
        match self {
            Direction::Asc => "ASC"@,
            Direction::Desc => "DESC"@,
        }
    }

    /// The direction that `text` names, if it names one.
    pub open spec fn named(text: Seq<char>) -> Option<Direction> {
        if text == "ASC"@ {
            Some(Direction::Asc)
        } else if text == "DESC"@ {
            Some(Direction::Desc)
        } else {
            None
        }
    }

    /// The keyword of the direction.
    pub fn as_str(&self) -> (name: &'static str)
        ensures
            name@ == self.name(),
    {
        match self {
            Direction::Asc => "ASC",
            Direction::Desc => "DESC",
        }
    }

    /// Reads the keyword of a direction. `None` for any other text.
    pub fn parse(text: &str) -> (direction: Option<Direction>)
        ensures
            direction == Direction::named(text@),
    {
        if same_text(text, "ASC") {
            Some(Direction::Asc)
        } else if same_text(text, "DESC") {
            Some(Direction::Desc)
        } else {
            None
        }
    }
}

/// Each direction is the one that its own keyword names.
pub proof fn lemma_direction_name_round_trip(direction: Direction)
    ensures
        Direction::named(direction.name()) == Some(direction),
{
    reveal_strlit("ASC");
    reveal_strlit("DESC");
    assert("ASC"@.len() == 3 && "DESC"@.len() == 4);
}

/// Why no statement was built for a request.
#[derive(Clone, Copy, Debug, PartialEq, Eq, Structural)]
pub enum QueryError {
    /// The interval is none of hour, day, week and month.
    InvalidInterval,
    /// The sort column is no column of the series.
    InvalidSortColumn,
    /// The sort direction is neither ASC nor DESC.
    InvalidOrder,
    /// A part of the date range is not empty and is no calendar date.
    InvalidDate,
}

impl QueryError {
    /// What the error says to the caller.
    pub open spec fn message_text(self) -> Seq<char> {
        match self {
            QueryError::InvalidInterval =>
                "Invalid interval provided. Allowed intervals: [\"hour\", \"day\", \"week\", \"month\"]"@,
            QueryError::InvalidSortColumn =>
                "Invalid sort column provided. Allowed columns: the columns of the series"@,
            QueryError::InvalidOrder => "Invalid order provided. Allowed orders: [\"ASC\", \"DESC\"]"@,
            QueryError::InvalidDate => "Failed to parse start date"@,
        }
    }

    /// What the error says to the caller.
    pub fn message(&self) -> (text: &'static str)
        ensures
            text@ == self.message_text(),
    {
        match self {
            QueryError::InvalidInterval =>
                "Invalid interval provided. Allowed intervals: [\"hour\", \"day\", \"week\", \"month\"]",
            QueryError::InvalidSortColumn =>
                "Invalid sort column provided. Allowed columns: the columns of the series",
            QueryError::InvalidOrder => "Invalid order provided. Allowed orders: [\"ASC\", \"DESC\"]",
            QueryError::InvalidDate => "Failed to parse start date",
        }
    }

    /// Whether the error lies with the request: with its interval, its sort
    /// column or its sort direction.
    pub fn is_client_error(&self) -> (client: bool)
        ensures
            client == (self !is InvalidDate),
    {
        match self {
            QueryError::InvalidDate => false,
            _ => true,
        }
    }
}

/// The options of one history request, as the caller gave them.
#[derive(Clone, Debug, Default)]
pub struct ApiParams {
    pub interval: Option<String>,
    pub date_range: Option<String>,
    pub sort_by: Option<String>,
    pub order: Option<String>,
    pub limit: Option<i64>,
    pub page: Option<i64>,
}

/// What the options of a request are.
pub struct ApiParamsView {
    pub interval: Option<Seq<char>>,
    pub date_range: Option<Seq<char>>,
    pub sort_by: Option<Seq<char>>,
    pub order: Option<Seq<char>>,
    pub limit: Option<i64>,
    pub page: Option<i64>,
}

/// What an optional text is.
pub open spec fn text_of(text: Option<String>) -> Option<Seq<char>> {
    match text {
        Some(t) => Some(t@),
        None => None,
    }
}

impl View for ApiParams {
    type V = ApiParamsView;

    open spec fn view(&self) -> ApiParamsView {
        ApiParamsView {
            interval: text_of(self.interval),
            date_range: text_of(self.date_range),
            sort_by: text_of(self.sort_by),
            order: text_of(self.order),
            limit: self.limit,
            page: self.page,
        }
    }
}

impl ApiParamsView {
    /// The bucket that the request asks for: none where it names no
    /// interval, an error where it names anything but one of the four.
    pub open spec fn interval_choice(self) -> Result<Option<Interval>, QueryError> {
        match self.interval {
            None => Ok(None),
            Some(text) => match Interval::named(text) {
                Some(interval) => Ok(Some(interval)),
                None => Err(QueryError::InvalidInterval),
            },
        }
    }

    /// The column that the request sorts by: none where it names none, an
    /// error where it names anything but a column of `series`.
    pub open spec fn sort_choice(self, series: Series) -> Result<Option<Seq<char>>, QueryError> {
        match self.sort_by {
            None => Ok(None),
            Some(column) => if series.is_column(column) {
                Ok(Some(column))
            } else {
                Err(QueryError::InvalidSortColumn)
            },
        }
    }

    /// The sort direction: ascending where the request names none, an error
    /// where it names anything but one of the two.
    pub open spec fn direction_choice(self) -> Result<Direction, QueryError> {
        match self.order {
            None => Ok(DEFAULT_ORDER),
            Some(text) => match Direction::named(text) {
                Some(direction) => Ok(direction),
                None => Err(QueryError::InvalidOrder),
            },
        }
    }

    /// What of the request goes into the text of its statement by name: the
    /// bucket, the sort column and the sort direction, each checked against
    /// what the library allows. The interval is checked first, then the sort
    /// column, then the direction; the first that fails is the error.
    pub open spec fn outline(self, series: Series) -> Result<OutlineView, QueryError> {
        match self.interval_choice() {
            Err(error) => Err(error),
            Ok(interval) => match self.sort_choice(series) {
                Err(error) => Err(error),
                Ok(sort_by) => match self.direction_choice() {
                    Err(error) => Err(error),
                    Ok(direction) => Ok(OutlineView { interval, sort_by, direction }),
                },
            },
        }
    }

    /// The number of rows in a page.
    pub open spec fn limit(self) -> int {
        match self.limit {
            Some(limit) => limit as int,
            None => DEFAULT_LIMIT as int,
        }
    }

    /// The page asked for.
    pub open spec fn page(self) -> int {
        match self.page {
            Some(page) => page as int,
            None => DEFAULT_PAGE as int,
        }
    }

    /// The number of rows that come before the page asked for.
    pub open spec fn offset(self) -> int {
        (self.page() - 1) * self.limit()
    }
}

/// What of a request goes into the text of its statement by name. The sort
/// column is the library's own text of the column, not the request's.
#[derive(Clone, Copy, Debug, PartialEq, Eq)]
pub struct Outline {
    pub interval: Option<Interval>,
    pub sort_by: Option<&'static str>,
    pub direction: Direction,
}

/// What an outline is.
pub struct OutlineView {
    pub interval: Option<Interval>,
    pub sort_by: Option<Seq<char>>,
    pub direction: Direction,
}

impl View for Outline {
    type V = OutlineView;

    open spec fn view(&self) -> OutlineView {
        OutlineView {
            interval: self.interval,
            sort_by: match self.sort_by {
                Some(column) => Some(column@),
                None => None,
            },
            direction: self.direction,
        }
    }
}

/// Where a page starts and how many rows it may hold.
#[derive(Clone, Copy, Debug, PartialEq, Eq, Structural)]
pub struct Pagination {
    pub limit: i64,
    pub offset: i128,
}

impl ApiParams {
    /// Checks the interval of the request against the four buckets.
    pub fn interval(&self) -> (choice: Result<Option<Interval>, QueryError>)
        ensures
            choice == self@.interval_choice(),
    {
        match &self.interval {
            None => Ok(None),
            Some(text) => match Interval::parse(text.as_str()) {
                Some(interval) => Ok(Some(interval)),
                None => Err(QueryError::InvalidInterval),
            },
        }
    }

    /// Checks the sort column of the request against the columns of
    /// `series`.
    pub fn sort_column(&self, series: Series) -> (choice: Result<
        Option<&'static str>,
        QueryError,
    >)
        ensures
            match choice {
                Ok(Some(column)) => self@.sort_choice(series) == Ok::<
                    Option<Seq<char>>,
                    QueryError,
                >(Some(column@)),
                Ok(None) => self@.sort_choice(series) == Ok::<Option<Seq<char>>, QueryError>(None),
                Err(error) => self@.sort_choice(series) == Err::<Option<Seq<char>>, QueryError>(
                    error,
                ),
            },
    {
        match &self.sort_by {
            None => Ok(None),
            Some(name) => match series.column(name.as_str()) {
                Some(column) => Ok(Some(column)),
                None => Err(QueryError::InvalidSortColumn),
            },
        }
    }

    /// Checks the sort direction of the request against the two keywords.
    pub fn direction(&self) -> (choice: Result<Direction, QueryError>)
        ensures
            choice == self@.direction_choice(),
    {
        match &self.order {
            None => Ok(DEFAULT_ORDER),
            Some(text) => match Direction::parse(text.as_str()) {
                Some(direction) => Ok(direction),
                None => Err(QueryError::InvalidOrder),
            },
        }
    }

    /// Checks all that goes into the text of a statement by name: the
    /// interval first, then the sort column, then the sort direction.
    pub fn outline(&self, series: Series) -> (result: Result<Outline, QueryError>)
        ensures
            match result {
                Ok(outline) => self@.outline(series) == Ok::<OutlineView, QueryError>(outline@),
                Err(error) => self@.outline(series) == Err::<OutlineView, QueryError>(error),
            },
    {
        let interval = match self.interval() {
            Ok(interval) => interval,
            Err(error) => {
                return Err(error);
            },
        };
        let sort_by = match self.sort_column(series) {
            Ok(sort_by) => sort_by,
            Err(error) => {
                return Err(error);
            },
        };
        match self.direction() {
            Ok(direction) => Ok(Outline { interval, sort_by, direction }),
            Err(error) => Err(error),
        }
    }

    /// The page of the request: its limit, and the offset of its first row,
    /// which is the limit times the number of pages before it. Neither is
    /// held to any bound.
    pub fn pagination(&self) -> (page: Pagination)
        ensures
            page.limit == self@.limit(),
            page.offset == (self@.page() - 1) * self@.limit(),
            page.offset == self@.offset(),
    {
        let limit: i64 = match self.limit {
            Some(limit) => limit,
            None => DEFAULT_LIMIT,
        };
        let page: i64 = match self.page {
            Some(page) => page,
            None => DEFAULT_PAGE,
        };
        let before: i128 = page as i128 - 1;
        let width: i128 = limit as i128;
        assert(-0x4000_0000_0000_0001_0000_0000_0000_0001 <= before * width
            <= 0x4000_0000_0000_0001_0000_0000_0000_0001) by (nonlinear_arith)
            requires
                -0x8000_0000_0000_0001 <= before <= 0x8000_0000_0000_0001,
                -0x8000_0000_0000_0001 <= width <= 0x8000_0000_0000_0001,
        ;
        Pagination { limit, offset: before * width }
    }
}

/// The bounds of a date range, each an instant or absent.
#[derive(Clone, Copy, Debug, PartialEq, Eq, Structural)]
pub struct DateRange {
    pub start: Option<i64>,
    pub end: Option<i64>,
}

/// The place of the first comma of `s`, or its length where it has none.
pub open spec fn first_comma(s: Seq<char>) -> int
    decreases s.len(),
{
    if s.len() == 0 {
        0
    } else if s[0] == ',' {
        0
    } else {
        1 + first_comma(s.drop_first())
    }
}

/// What stands before the first comma of `s`: all of it where it has none.
pub open spec fn start_part(s: Seq<char>) -> Seq<char> {
    s.subrange(0, first_comma(s))
}

/// What stands behind the first comma of `s`: nothing where it has none.
pub open spec fn after_first_comma(s: Seq<char>) -> Seq<char> {
    if first_comma(s) < s.len() {
        s.subrange(first_comma(s) + 1, s.len() as int)
    } else {
        Seq::empty()
    }
}

/// What stands between the first comma of `s` and the second. What follows a
/// second comma belongs to no part.
pub open spec fn end_part(s: Seq<char>) -> Seq<char> {
    start_part(after_first_comma(s))
}

/// The first comma is where a comma stands that no comma precedes.
pub proof fn lemma_first_comma(s: Seq<char>, at: int)
    requires
        0 <= at <= s.len(),
        forall|i: int| 0 <= i < at ==> s[i] != ',',
        at < s.len() ==> s[at] == ',',
    ensures
        first_comma(s) == at,
    decreases s.len(),
{
    if s.len() > 0 && s[0] != ',' {
        let rest = s.drop_first();
        assert forall|i: int| 0 <= i < at - 1 implies rest[i] != ',' by {
            assert(rest[i] == s[i + 1]);
        }
        lemma_first_comma(rest, at - 1);
    }
}

/// Parts `s` at its first comma.
pub fn split_at_comma(s: &str) -> (parts: (&str, &str))
    ensures
        parts.0@ == start_part(s@),
        parts.1@ == after_first_comma(s@),
{
    broadcast use vstd::string::group_string_axioms;

    let len = s.unicode_len();
    let mut chars = s.chars();
    let mut at: usize = 0;
    loop
        invariant_except_break
            chars.obeys_prophetic_iter_laws(),
            chars.remaining() == s@.skip(at as int),
        invariant
            len == s@.len(),
            at <= len,
            forall|i: int| 0 <= i < at ==> s@[i] != ',',
        ensures
            at < len ==> s@[at as int] == ',',
        decreases len - at,
    {
        match chars.next() {
            Some(c) => {
                assert(c == s@[at as int]);
                if c == ',' {
                    break;
                }
                assert(s@.skip(at as int).drop_first() =~= s@.skip(at + 1));
                at = at + 1;
            },
            None => {
                break;
            },
        }
    }
    proof {
        lemma_first_comma(s@, at as int);
    }
    let head = s.substring_char(0, at);
    if at < len {
        (head, s.substring_char(at + 1, len))
    } else {
        proof {
            reveal_strlit("");
        }
        assert(""@ =~= Seq::<char>::empty());
        (head, "")
    }
}

/// The bound that a part of a date range gives: absent where the part is
/// empty, else the instant of its date. `None` where it is no date.
pub open spec fn bound_of(part: Seq<char>) -> Option<Option<i64>> {
    if part.len() == 0 {
        Some(None)
    } else {
        match date_instant(part) {
            Some(instant) => Some(Some(instant)),
            None => None,
        }
    }
}

/// The bounds that a date range gives: its first part the start, its second
/// the end. `None` where a part is not empty and is no date.
pub open spec fn resolved_range(date_range: Option<Seq<char>>) -> Option<DateRange> {
    match date_range {
        None => Some(DateRange { start: None, end: None }),
        Some(text) => match (bound_of(start_part(text)), bound_of(end_part(text))) {
            (Some(start), Some(end)) => Some(DateRange { start, end }),
            _ => None,
        },
    }
}

/// Reads one part of a date range.
fn read_bound(part: &str) -> (bound: Option<Option<i64>>)
    ensures
        bound == bound_of(part@),
{
    if part.is_empty() {
        Some(None)
    } else {
        match parse_date_to_utc(part) {
            Some(instant) => Some(Some(instant)),
            None => None,
        }
    }
}

/// Reads the date range of a request: two calendar dates with a comma
/// between them, either of which may be left out.
pub fn resolve_date_range(date_range: &Option<String>) -> (range: Option<DateRange>)
    ensures
        range == resolved_range(text_of(*date_range)),
{
    match date_range {
        None => Some(DateRange { start: None, end: None }),
        Some(text) => {
            let (first, rest) = split_at_comma(text.as_str());
            let (second, _) = split_at_comma(rest);
            match read_bound(first) {
                Some(start) => match read_bound(second) {
                    Some(end) => Some(DateRange { start, end }),
                    None => None,
                },
                None => None,
            }
        },
    }
}

/// The expression that truncates the start of a row to its bucket.
pub open spec fn bucket_expr(interval: Interval) -> Seq<char> {
    "date_trunc('"@ + interval.name() + "', start_time)"@
}

/// The selection: every row of `source`, or with an interval the first row
/// of each bucket.
pub open spec fn select_clause(source: Seq<char>, interval: Option<Interval>) -> Seq<char> {
    match interval {
        None => "SELECT "@ + source,
        Some(interval) => "SELECT DISTINCT ON ("@ + bucket_expr(interval) + ") "@ + source,
    }
}

/// The filter on the date range, after `keyword`: each bound that is present
/// compares a column with the next placeholder.
pub open spec fn filter_clause(keyword: Seq<char>, range: DateRange) -> Seq<char> {
    match (range.start, range.end) {
        (None, None) => Seq::empty(),
        (Some(_), None) => keyword + "start_time >= $1"@,
        (None, Some(_)) => keyword + "end_time <= $1"@,
        (Some(_), Some(_)) => keyword + "start_time >= $1"@ + " AND "@ + "end_time <= $2"@,
    }
}

/// The values that the filter binds: the bounds that are present, the start
/// before the end.
pub open spec fn filter_binds(range: DateRange) -> Seq<SqlValueView> {
    match (range.start, range.end) {
        (None, None) => Seq::empty(),
        (Some(start), None) => seq![SqlValueView::Timestamp(start)],
        (None, Some(end)) => seq![SqlValueView::Timestamp(end)],
        (Some(start), Some(end)) => seq![
            SqlValueView::Timestamp(start),
            SqlValueView::Timestamp(end),
        ],
    }
}

/// The sort keys. Without an interval: the start of the row, or the column
/// asked for with the direction. With an interval: the bucket first, then the
/// start of the row, then the column asked for, if any; the direction
/// follows the last key.
pub open spec fn order_clause(
    interval: Option<Interval>,
    sort_by: Option<Seq<char>>,
    direction: Direction,
) -> Seq<char> {
    match (interval, sort_by) {
        (None, None) => " ORDER BY start_time"@,
        (None, Some(column)) => " ORDER BY "@ + column + " "@ + direction.name(),
        (Some(interval), None) => " ORDER BY "@ + bucket_expr(interval) + ", start_time"@ + " "@
            + direction.name(),
        (Some(interval), Some(column)) => " ORDER BY "@ + bucket_expr(interval) + ", start_time"@
            + ", "@ + column + " "@ + direction.name(),
    }
}

/// The page: how many rows, and how many to pass over before them.
pub open spec fn pagination_clause(limit: int, offset: int) -> Seq<char> {
    " LIMIT "@ + decimal(limit) + " OFFSET "@ + decimal(offset)
}

/// The read statement over `source`, with the filter after `keyword`, for
/// the outline `outline`, the bounds `range`, and a page of `limit` rows
/// behind `offset` others.
pub open spec fn read_statement(
    source: Seq<char>,
    keyword: Seq<char>,
    outline: OutlineView,
    range: DateRange,
    limit: int,
    offset: int,
) -> StatementView {
    StatementView {
        text: select_clause(source, outline.interval) + filter_clause(keyword, range)
            + order_clause(outline.interval, outline.sort_by, outline.direction)
            + pagination_clause(limit, offset),
        binds: filter_binds(range),
    }
}

/// Whether the names that an outline puts into a statement are the
/// library's own: its sort column, if it has one, is a column of `series`.
/// Its bucket and its direction are the library's by their type.
pub open spec fn names_allowed(outline: OutlineView, series: Series) -> bool {
    outline.sort_by matches Some(column) ==> series.is_column(column)
}

/// What a table is selected as: all its columns.
pub open spec fn table_source(table: Seq<char>) -> Seq<char> {
    "* FROM "@ + table
}

/// The keyword of a filter on rows.
pub open spec fn row_filter() -> Seq<char> {
    " WHERE "@
}

fn push_bucket_expr(out: &mut String, interval: Interval)
    ensures
        final(out)@ == old(out)@ + bucket_expr(interval),
{
    out.append("date_trunc('");
    out.append(interval.as_str());
    out.append("', start_time)");
    assert(out@ =~= old(out)@ + bucket_expr(interval));
}

fn push_select(out: &mut String, source: &str, interval: Option<Interval>)
    ensures
        final(out)@ == old(out)@ + select_clause(source@, interval),
{
    match interval {
        None => {
            out.append("SELECT ");
            out.append(source);
        },
        Some(interval) => {
            out.append("SELECT DISTINCT ON (");
            push_bucket_expr(out, interval);
            out.append(") ");
            out.append(source);
        },
    }
    assert(out@ =~= old(out)@ + select_clause(source@, interval));
}

fn push_filter(out: &mut String, binds: &mut Vec<SqlValue>, keyword: &str, range: &DateRange)
    requires
        old(binds)@.len() == 0,
    ensures
        final(out)@ == old(out)@ + filter_clause(keyword@, *range),
        bound_values(final(binds)@) == filter_binds(*range),
{
    if range.start.is_some() || range.end.is_some() {
        out.append(keyword);
    }
    if let Some(start) = range.start {
        out.append("start_time >= $1");
        binds.push(SqlValue::Timestamp(start));
    }
    if let Some(end) = range.end {
        if range.start.is_some() {
            out.append(" AND ");
            out.append("end_time <= $2");
        } else {
            out.append("end_time <= $1");
        }
        binds.push(SqlValue::Timestamp(end));
    }
    assert(out@ =~= old(out)@ + filter_clause(keyword@, *range));
    assert(bound_values(binds@) =~= filter_binds(*range));
}

fn push_order(
    out: &mut String,
    interval: Option<Interval>,
    sort_by: Option<&str>,
    direction: Direction,
)
    ensures
        final(out)@ == old(out)@ + order_clause(
            interval,
            match sort_by {
                Some(column) => Some(column@),
                None => None,
            },
            direction,
        ),
{
    let ghost sort = match sort_by {
        Some(column) => Some(column@),
        None => None,
    };
    out.append(" ORDER BY ");
    match interval {
        None => match sort_by {
            None => {
                out.append("start_time");
                proof {
                    reveal_strlit(" ORDER BY ");
                    reveal_strlit("start_time");
                    reveal_strlit(" ORDER BY start_time");
                }
            },
            Some(column) => {
                out.append(column);
                out.append(" ");
                out.append(direction.as_str());
            },
        },
        Some(interval) => {
            push_bucket_expr(out, interval);
            out.append(", start_time");
            match sort_by {
                None => {},
                Some(column) => {
                    out.append(", ");
                    out.append(column);
                },
            }
            out.append(" ");
            out.append(direction.as_str());
        },
    }
    assert(out@ =~= old(out)@ + order_clause(interval, sort, direction));
}

fn push_pagination(out: &mut String, page: Pagination)
    ensures
        final(out)@ == old(out)@ + pagination_clause(page.limit as int, page.offset as int),
{
    out.append(" LIMIT ");
    push_decimal(out, page.limit as i128);
    out.append(" OFFSET ");
    push_decimal(out, page.offset);
    assert(out@ =~= old(out)@ + pagination_clause(page.limit as int, page.offset as int));
}

/// Builds the read statement over `source` from an outline that was checked,
/// bounds that were read, and a page.
pub(crate) fn compose(
    source: &str,
    keyword: &str,
    outline: &Outline,
    range: &DateRange,
    page: Pagination,
) -> (statement: Statement)
    ensures
        statement@ == read_statement(
            source@,
            keyword@,
            outline@,
            *range,
            page.limit as int,
            page.offset as int,
        ),
{
    let mut text = String::new();
    let mut binds: Vec<SqlValue> = Vec::new();
    push_select(&mut text, source, outline.interval);
    push_filter(&mut text, &mut binds, keyword, range);
    push_order(&mut text, outline.interval, outline.sort_by, outline.direction);
    push_pagination(&mut text, page);
    assert(text@ =~= read_statement(
        source@,
        keyword@,
        outline@,
        *range,
        page.limit as int,
        page.offset as int,
    ).text);
    Statement { text, binds }
}

/// The statement that reads the rows of `series` which a request asks for,
/// given the bounds that its date range stands for.
///
/// What goes into the text by name is checked before anything is built: a
/// request gets no statement where its interval is none of the four buckets,
/// where its sort column is no column of the series, or where its direction
/// is neither of the two keywords. The first of these that fails is the
/// error.
pub fn history_statement(params: &ApiParams, series: Series, range: &DateRange) -> (result: Result<
    Statement,
    QueryError,
>)
    ensures
        match result {
            Ok(statement) => params@.outline(series) matches Ok(outline) && names_allowed(
                outline,
                series,
            ) && statement@ == read_statement(
                table_source(series.table_name()),
                row_filter(),
                outline,
                *range,
                params@.limit(),
                params@.offset(),
            ),
            Err(error) => params@.outline(series) == Err::<OutlineView, QueryError>(error),
        },
{
    match params.outline(series) {
        Err(error) => Err(error),
        Ok(outline) => {
            let mut source = String::new();
            source.append("* FROM ");
            source.append(series.table());
            assert(source@ =~= table_source(series.table_name()));
            Ok(compose(source.as_str(), " WHERE ", &outline, range, params.pagination()))
        },
    }
}

/// The statement that reads the rows of `series` which a request asks for.
///
/// Fails exactly when the request asks for what the library does not allow,
/// before anything is built: with `InvalidInterval` when the interval is
/// none of the four buckets; else with `InvalidSortColumn` when the sort
/// column is no column of the series; else with `InvalidOrder` when the
/// direction is neither of the two keywords; else with `InvalidDate` when a
/// part of the date range is not empty and is no date.
pub fn get_history(params: &ApiParams, series: Series) -> (result: Result<Statement, QueryError>)
    ensures
        match result {
            Ok(statement) => params@.outline(series) matches Ok(outline) && resolved_range(
                params@.date_range,
            ) matches Some(range) && names_allowed(outline, series) && statement@
                == read_statement(
                table_source(series.table_name()),
                row_filter(),
                outline,
                range,
                params@.limit(),
                params@.offset(),
            ),
            Err(QueryError::InvalidDate) => params@.outline(series) is Ok && resolved_range(
                params@.date_range,
            ) is None,
            Err(error) => params@.outline(series) == Err::<OutlineView, QueryError>(error),
        },
{
    match params.outline(series) {
        Err(error) => Err(error),
        Ok(_) => match resolve_date_range(&params.date_range) {
            None => Err(QueryError::InvalidDate),
            Some(range) => history_statement(params, series, &range),
        },
    }
}

/// Every read statement ends with its page, and the page starts behind the
/// rows of the pages before it: the offset is the limit times the number of
/// pages that precede the one asked for.
pub proof fn lemma_statement_ends_with_page(
    source: Seq<char>,
    keyword: Seq<char>,
    outline: OutlineView,
    range: DateRange,
    params: ApiParamsView,
)
    ensures
        params.offset() == (params.page() - 1) * params.limit(),
        pagination_clause(params.limit(), params.offset()).is_suffix_of(
            read_statement(source, keyword, outline, range, params.limit(), params.offset()).text,
        ),
{
    let text = read_statement(
        source,
        keyword,
        outline,
        range,
        params.limit(),
        params.offset(),
    ).text;
    let page = pagination_clause(params.limit(), params.offset());
    let before = select_clause(source, outline.interval) + filter_clause(keyword, range)
        + order_clause(outline.interval, outline.sort_by, outline.direction);
    assert(text =~= before + page);
    assert(text.subrange(text.len() - page.len(), text.len() as int) =~= page);
}

/// With an interval the bucket is the first sort key and the start of the
/// row the second, whatever column and direction the request asks for: the
/// bucket stands without a direction of its own, so it sorts ascending.
pub proof fn lemma_bucket_sorts_first(
    interval: Interval,
    sort_by: Option<Seq<char>>,
    direction: Direction,
)
    ensures
        (" ORDER BY "@ + bucket_expr(interval) + ", start_time"@).is_prefix_of(
            order_clause(Some(interval), sort_by, direction),
        ),
{
    let keys = " ORDER BY "@ + bucket_expr(interval) + ", start_time"@;
    let clause = order_clause(Some(interval), sort_by, direction);
    match sort_by {
        None => {
            assert(clause =~= keys + (" "@ + direction.name()));
        },
        Some(column) => {
            assert(clause =~= keys + (", "@ + column + " "@ + direction.name()));
        },
    }
    assert(clause.subrange(0, keys.len() as int) =~= keys);
}

/// A request gets a statement only with names that the library allows: where
/// its options have an outline for a series, the sort column of the outline,
/// if there is one, is a column of that series and is the column that the
/// request named.
pub proof fn lemma_outline_names_are_allowed(params: ApiParamsView, series: Series)
    ensures
        params.outline(series) matches Ok(outline) ==> names_allowed(outline, series)
            && outline.sort_by == params.sort_by && params.interval_choice() == Ok::<
            Option<Interval>,
            QueryError,
        >(outline.interval) && params.direction_choice() == Ok::<Direction, QueryError>(
            outline.direction,
        ),
{
}

/// A statement binds one value for each bound of the date range that is
/// present.
pub proof fn lemma_one_bind_for_each_bound(range: DateRange)
    ensures
        filter_binds(range).len() == (if range.start is Some { 1int } else { 0int }) + (
        if range.end is Some {
            1int
        } else {
            0int
        }),
{
}

} // verus!
