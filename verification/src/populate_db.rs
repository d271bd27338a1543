//! The ingestion pass: the decisions that bring the four series up to date,
//! one event at a time.
//!
//! A pass reads the watermark of the depth and price series, and while that
//! watermark lies an hour or more behind the current hour it fetches and
//! inserts one window of each series, in a fixed order, and reads the
//! watermark again. The pass itself does no fetching and no inserting: it is
//! told what happened and says what to do next.

use crate::midgard_api::handlers::Series;
use crate::midgard_api::interface::{Params, ParamsView};
use crate::utils::{hour_floor, hour_start, HOUR_SECS};
use vstd::prelude::*;
use vstd::string::*;

verus! {

/// How far back a pass starts when the store holds nothing: ninety days.
pub const LOOKBACK_SECS: i64 = 7_776_000;

/// The granularity of the windows that a pass fetches.
pub const FETCH_INTERVAL: &'static str = "hour";

/// The most windows that one fetch brings.
pub const FETCH_COUNT: u16 = 400;

/// The window that a pass fetches from the instant `from` on.
pub open spec fn fetch_window(from: i64) -> ParamsView {
    ParamsView { interval: FETCH_INTERVAL@, from, count: FETCH_COUNT }
}

/// The window to fetch from the instant `start_time` on: hourly records, at
/// most four hundred of them.
pub fn midgard_params(start_time: i64) -> (params: Params)
    ensures
        params@ == fetch_window(start_time),
{
    Params { interval: String::from_str(FETCH_INTERVAL), from: start_time, count: FETCH_COUNT }
}

/// What reading the watermark of a series gave.
#[derive(Clone, Copy, Debug, PartialEq, Eq, Structural)]
pub enum Watermark {
    /// The store could not be read.
    Unavailable,
    /// The series holds no window.
    Empty,
    /// The latest end of a window that the series holds.
    At(i64),
}

/// How a pass ended.
#[derive(Clone, Copy, Debug, PartialEq, Eq, Structural)]
pub enum PassEnd {
    /// The watermark is less than an hour behind the current hour.
    CaughtUp,
    /// A fetch of the series failed.
    FetchFailed(Series),
    /// An insert into the series failed.
    InsertFailed(Series),
    /// The watermark could not be read.
    WatermarkUnavailable,
}

/// Where a pass stands: what it waits to be told.
#[derive(Clone, Copy, Debug, PartialEq, Eq, Structural)]
pub enum Stage {
    /// The first reading of the watermark.
    Opening,
    /// The outcome of fetching a window of the series.
    Fetching(Series),
    /// The outcome of inserting the window fetched of the series.
    Inserting(Series),
    /// The reading of the watermark after an iteration.
    Rereading,
    /// Nothing: the pass is over.
    Closed(PassEnd),
}

/// What a pass is told.
#[derive(Clone, Copy, Debug, PartialEq, Eq, Structural)]
pub enum Event {
    /// The watermark of the depth and price series was read, at the instant
    /// `now`.
    Watermark { read: Watermark, now: i64 },
    /// The fetch succeeded.
    Fetched,
    /// The fetch failed.
    FetchFailed,
    /// Every window of the batch was inserted.
    Inserted,
    /// An insert of the batch failed.
    InsertFailed,
}

/// What a pass asks for.
#[derive(Clone, Debug, PartialEq, Eq)]
pub enum Action {
    /// Read the watermark of the depth and price series.
    ReadWatermark,
    /// Fetch a window of the series.
    Fetch(Series, Params),
    /// Insert the window that was fetched of the series.
    Insert(Series),
    /// Stop: the pass is over.
    Stop(PassEnd),
}

/// What an action is.
pub enum ActionView {
    ReadWatermark,
    Fetch(Series, ParamsView),
    Insert(Series),
    Stop(PassEnd),
}

impl View for Action {
    type V = ActionView;

    open spec fn view(&self) -> ActionView {
        match self {
            Action::ReadWatermark => ActionView::ReadWatermark,
            Action::Fetch(series, params) => ActionView::Fetch(*series, params@),
            Action::Insert(series) => ActionView::Insert(*series),
            Action::Stop(end) => ActionView::Stop(*end),
        }
    }
}

/// Whether a series whose watermark is `anchor` has a whole hour to catch up
/// on at the instant `now`: whether the watermark lies an hour or more
/// before the start of the hour that holds `now`.
pub open spec fn behind(anchor: int, now: int) -> bool {
    anchor <= hour_floor(now) - HOUR_SECS
}

/// One ingestion pass.
#[derive(Clone, Copy, Debug, PartialEq, Eq, Structural)]
pub struct Pass {
    /// What the pass waits to be told.
    pub stage: Stage,
    /// The watermark that stands in for an empty series: the start of the
    /// hour in which the pass started, less the lookback.
    pub default_start: i64,
    /// The watermark as last read: where the next fetch starts.
    pub anchor: i64,
}

impl Pass {
    /// The pass in the stage `stage`.
    pub open spec fn at(self, stage: Stage) -> Pass {
        Pass { stage, ..self }
    }

    /// The pass with the watermark `anchor`, read at the instant `now`: it
    /// goes on with the first series while the watermark is behind, and is
    /// over once it is not.
    pub open spec fn resumed(self, anchor: i64, now: i64) -> Pass {
        Pass {
            stage: if behind(anchor as int, now as int) {
                Stage::Fetching(Series::DepthPrice)
            } else {
                Stage::Closed(PassEnd::CaughtUp)
            },
            anchor,
            ..self
        }
    }

    /// The pass once the watermark was read at the instant `now`: it goes on
    /// from the watermark, or from the default where the series is empty,
    /// and is over where the store could not be read.
    pub open spec fn read(self, read: Watermark, now: i64) -> Pass {
        match read {
            Watermark::At(end) => self.resumed(end, now),
            Watermark::Empty => self.resumed(self.default_start, now),
            Watermark::Unavailable => self.at(Stage::Closed(PassEnd::WatermarkUnavailable)),
        }
    }

    /// The pass once the series `series` is done with: on to the series
    /// that follows, or to reading the watermark after the last.
    pub open spec fn moved_on(self, series: Series) -> Pass {
        match series.following() {
            Some(next) => self.at(Stage::Fetching(next)),
            None => self.at(Stage::Rereading),
        }
    }

    /// The pass after `event`.
    ///
    /// A reading of the watermark that cannot be had ends the pass, the
    /// first one too: only a series that is known to be empty starts from the
    /// default. A failed fetch ends the pass, and so does a failed insert,
    /// but for the insert of the last series, which is passed over. An event
    /// that the pass does not wait for changes nothing.
    pub open spec fn after(self, event: Event) -> Pass {
        match (self.stage, event) {
            (Stage::Opening, Event::Watermark { read, now }) => self.read(read, now),
            (Stage::Rereading, Event::Watermark { read, now }) => self.read(read, now),
            (Stage::Fetching(series), Event::Fetched) => self.at(Stage::Inserting(series)),
            (Stage::Fetching(series), Event::FetchFailed) => self.at(
                Stage::Closed(PassEnd::FetchFailed(series)),
            ),
            (Stage::Inserting(series), Event::Inserted) => self.moved_on(series),
            (Stage::Inserting(series), Event::InsertFailed) => if series == Series::Swaps {
                self.moved_on(series)
            } else {
                self.at(Stage::Closed(PassEnd::InsertFailed(series)))
            },
            _ => self,
        }
    }

    /// What the pass asks for in its stage.
    pub open spec fn pending(self) -> ActionView {
        match self.stage {
            Stage::Opening => ActionView::ReadWatermark,
            Stage::Rereading => ActionView::ReadWatermark,
            Stage::Fetching(series) => ActionView::Fetch(series, fetch_window(self.anchor)),
            Stage::Inserting(series) => ActionView::Insert(series),
            Stage::Closed(end) => ActionView::Stop(end),
        }
    }

    /// The pass after the events `events`, in their order.
    pub open spec fn run(self, events: Seq<Event>) -> Pass
        decreases events.len(),
    {
        if events.len() == 0 {
            self
        } else {
            self.after(events[0]).run(events.drop_first())
        }
    }

    /// A pass that starts at the instant `now`.
    pub open spec fn opened(now: i64) -> Pass {
        let default_start = (hour_floor(now as int) - LOOKBACK_SECS) as i64;
        Pass { stage: Stage::Opening, default_start, anchor: default_start }
    }

    /// Starts a pass at the instant `now`. The start of its hour must lie no
    /// nearer to the least instant than the lookback.
    pub fn start(now: i64) -> (pass: Pass)
        requires
            hour_floor(now as int) - LOOKBACK_SECS >= i64::MIN,
        ensures
            pass == Pass::opened(now),
            pass.default_start == hour_floor(now as int) - LOOKBACK_SECS,
            pass.pending() == ActionView::ReadWatermark,
    {
        let default_start = (hour_start(now) - LOOKBACK_SECS as i128) as i64;
        Pass { stage: Stage::Opening, default_start, anchor: default_start }
    }

    /// Whether the pass is over.
    pub fn is_closed(&self) -> (closed: bool)
        ensures
            closed == (self.stage is Closed),
    {
        match self.stage {
            Stage::Closed(_) => true,
            _ => false,
        }
    }

    /// What the pass asks for.
    pub fn action(&self) -> (action: Action)
        ensures
            action@ == self.pending(),
    {
        match self.stage {
            Stage::Opening => Action::ReadWatermark,
            Stage::Rereading => Action::ReadWatermark,
            Stage::Fetching(series) => Action::Fetch(series, midgard_params(self.anchor)),
            Stage::Inserting(series) => Action::Insert(series),
            Stage::Closed(end) => Action::Stop(end),
        }
    }

    fn resume(&mut self, anchor: i64, now: i64)
        ensures
            *final(self) == old(self).resumed(anchor, now),
    {
        self.anchor = anchor;
        if anchor as i128 <= hour_start(now) - HOUR_SECS as i128 {
            self.stage = Stage::Fetching(Series::DepthPrice);
        } else {
            self.stage = Stage::Closed(PassEnd::CaughtUp);
        }
    }

    fn take_reading(&mut self, read: Watermark, now: i64)
        ensures
            *final(self) == old(self).read(read, now),
    {
        match read {
            Watermark::At(end) => self.resume(end, now),
            Watermark::Empty => {
                let anchor = self.default_start;
                self.resume(anchor, now)
            },
            Watermark::Unavailable => {
                self.stage = Stage::Closed(PassEnd::WatermarkUnavailable);
            },
        }
    }

    fn move_on(&mut self, series: Series)
        ensures
            *final(self) == old(self).moved_on(series),
    {
        match series.next() {
            Some(next) => {
                self.stage = Stage::Fetching(next);
            },
            None => {
                self.stage = Stage::Rereading;
            },
        }
    }

    /// Tells the pass what happened, and hands back what it asks for next.
    pub fn step(&mut self, event: Event) -> (action: Action)
        ensures
            *final(self) == old(self).after(event),
            action@ == final(self).pending(),
    {
        match (self.stage, event) {
            (Stage::Opening, Event::Watermark { read, now }) => self.take_reading(read, now),
            (Stage::Rereading, Event::Watermark { read, now }) => self.take_reading(read, now),
            (Stage::Fetching(series), Event::Fetched) => {
                self.stage = Stage::Inserting(series);
            },
            (Stage::Fetching(series), Event::FetchFailed) => {
                self.stage = Stage::Closed(PassEnd::FetchFailed(series));
            },
            (Stage::Inserting(series), Event::Inserted) => self.move_on(series),
            (Stage::Inserting(series), Event::InsertFailed) => match series {
                Series::Swaps => self.move_on(series),
                _ => {
                    self.stage = Stage::Closed(PassEnd::InsertFailed(series));
                },
            },
            _ => {},
        }
        self.action()
    }
    /// Tells the pass a run of events, one after the other, and hands back
    /// what it asks for after the last.
    pub fn feed(&mut self, events: &Vec<Event>) -> (action: Action)
        ensures
            *final(self) == old(self).run(events@),
            action@ == final(self).pending(),
    {
        let mut at: usize = 0;
        assert(events@.skip(0) =~= events@);
        while at < events.len()
            invariant
                at <= events.len(),
                self.run(events@.skip(at as int)) == old(self).run(events@),
            decreases events.len() - at,
        {
            proof {
                assert(events@.skip(at as int).drop_first() =~= events@.skip(at + 1));
            }
            self.step(events[at]);
            at = at + 1;
        }
        self.action()
    }
}

/// The watermark of a series that holds windows with the ends `ends`: the
/// latest of them.
pub open spec fn latest(ends: Seq<i64>) -> Watermark
    decreases ends.len(),
{
    if ends.len() == 0 {
        Watermark::Empty
    } else {
        match latest(ends.drop_last()) {
            Watermark::At(end) => Watermark::At(
                if end >= ends.last() {
                    end
                } else {
                    ends.last()
                },
            ),
            _ => Watermark::At(ends.last()),
        }
    }
}

/// The instant from which a pass fetches next, given a reading of the
/// watermark: the watermark, or the default where there is none.
pub open spec fn anchor_from(read: Watermark, default_start: i64) -> i64 {
    match read {
        Watermark::At(end) => end,
        _ => default_start,
    }
}

/// Whether a batch keeps the watermark within the window that was fetched
/// from `from` when it is inserted behind `stored`: none of its windows ends
/// later than the most windows of one fetch after `from`, an hour each, and
/// where the series held nothing, one of them ends at `from` or after it.
pub open spec fn within_window(stored: Seq<i64>, batch: Seq<i64>, from: i64) -> bool {
    &&& forall|i: int|
        0 <= i < batch.len() ==> #[trigger] batch[i] <= from + FETCH_COUNT * HOUR_SECS
    &&& stored.len() == 0 && batch.len() > 0 ==> exists|i: int|
        0 <= i < batch.len() && from <= #[trigger] batch[i]
}

/// Whether each batch of `batches` keeps the watermark within the window
/// fetched from the watermark that the batches before it left, the series
/// holding `stored` to begin with.
pub open spec fn iterations_within_window(
    default_start: i64,
    stored: Seq<i64>,
    batches: Seq<Seq<i64>>,
) -> bool
    decreases batches.len(),
{
    batches.len() == 0 || (within_window(
        stored,
        batches[0],
        anchor_from(latest(stored), default_start),
    ) && iterations_within_window(default_start, stored + batches[0], batches.drop_first()))
}

/// What a series holds once the batches `batches` were inserted behind
/// `stored`, in their order.
pub open spec fn stored_after(stored: Seq<i64>, batches: Seq<Seq<i64>>) -> Seq<i64>
    decreases batches.len(),
{
    if batches.len() == 0 {
        stored
    } else {
        stored_after(stored + batches[0], batches.drop_first())
    }
}

/// The watermark of a series is the end of one of its windows, and none of
/// its windows ends later. Only an empty series has none.
pub proof fn lemma_latest_is_greatest(ends: Seq<i64>)
    ensures
        latest(ends) !is Unavailable,
        latest(ends) is Empty <==> ends.len() == 0,
        latest(ends) matches Watermark::At(end) ==> ends.contains(end) && forall|i: int|
            0 <= i < ends.len() ==> ends[i] <= end,
    decreases ends.len(),
{
    if ends.len() > 0 {
        let front = ends.drop_last();
        lemma_latest_is_greatest(front);
        let end = latest(ends)->At_0;
        if end == ends.last() {
            assert(ends[ends.len() - 1] == end);
        } else {
            let at = choose|i: int| 0 <= i < front.len() && front[i] == end;
            assert(ends[at] == end);
        }
        assert forall|i: int| 0 <= i < ends.len() implies ends[i] <= end by {
            if i < front.len() {
                assert(front[i] == ends[i]);
            }
        }
    }
}

/// A closed pass stays as it is, whatever it is told.
pub proof fn lemma_closed_pass_stays_closed(pass: Pass, events: Seq<Event>)
    requires
        pass.stage is Closed,
    ensures
        pass.run(events) == pass,
    decreases events.len(),
{
    if events.len() > 0 {
        lemma_closed_pass_stays_closed(pass, events.drop_first());
    }
}

/// A pass that is run again from an unchanged watermark, at an instant at
/// which an earlier pass found that watermark caught up, asks for no fetch
/// and no insert: its first reading closes it, it leaves the watermark as it
/// was read, and nothing that it is told afterwards makes it ask for more.
pub proof fn lemma_rerun_is_idle(
    earlier: Pass,
    later: Pass,
    end: i64,
    now: i64,
    events: Seq<Event>,
)
    requires
        earlier.stage is Opening || earlier.stage is Rereading,
        earlier.after(Event::Watermark { read: Watermark::At(end), now }).stage == Stage::Closed(
            PassEnd::CaughtUp,
        ),
        later.stage is Opening,
    ensures
        later.after(Event::Watermark { read: Watermark::At(end), now }).run(events) == later.at(
            Stage::Closed(PassEnd::CaughtUp),
        ).resumed(end, now),
        later.after(Event::Watermark { read: Watermark::At(end), now }).run(events).anchor == end,
        later.after(Event::Watermark { read: Watermark::At(end), now }).run(events).pending()
            == ActionView::Stop(PassEnd::CaughtUp),
{
    let closed = later.after(Event::Watermark { read: Watermark::At(end), now });
    lemma_closed_pass_stays_closed(closed, events);
}

/// A fetch that brings nothing leaves the watermark where it was.
pub proof fn lemma_empty_batch_keeps_watermark(stored: Seq<i64>)
    ensures
        latest(stored + Seq::<i64>::empty()) == latest(stored),
{
    assert(stored + Seq::<i64>::empty() =~= stored);
}

/// A series that holds a window keeps a watermark whatever is inserted
/// behind its windows, and the watermark never moves back.
pub proof fn lemma_inserting_never_moves_watermark_back(stored: Seq<i64>, batch: Seq<i64>)
    requires
        stored.len() > 0,
    ensures
        latest(stored) is At,
        latest(stored + batch) is At,
        latest(stored)->At_0 <= latest(stored + batch)->At_0,
{
    let held = stored + batch;
    lemma_latest_is_greatest(stored);
    lemma_latest_is_greatest(held);
    let before = latest(stored)->At_0;
    let was = choose|i: int| 0 <= i < stored.len() && stored[i] == before;
    assert(held[was] == before);
}

/// Inserting a batch moves the watermark on by no more than the window that
/// was fetched, and not back, exactly when the batch keeps it within that
/// window.
pub proof fn lemma_watermark_advances_within_window(
    default_start: i64,
    stored: Seq<i64>,
    batch: Seq<i64>,
)
    ensures
        within_window(stored, batch, anchor_from(latest(stored), default_start)) <==> anchor_from(
            latest(stored),
            default_start,
        ) <= anchor_from(latest(stored + batch), default_start) <= anchor_from(
            latest(stored),
            default_start,
        ) + FETCH_COUNT * HOUR_SECS,
{
    let held = stored + batch;
    let from = anchor_from(latest(stored), default_start);
    let to = anchor_from(latest(held), default_start);
    lemma_latest_is_greatest(stored);
    lemma_latest_is_greatest(held);
    if held.len() > 0 {
        let at = choose|i: int| 0 <= i < held.len() && held[i] == to;
        if at < stored.len() {
            assert(held[at] == stored[at]);
        } else {
            assert(held[at] == batch[at - stored.len()]);
        }
        assert forall|i: int| 0 <= i < batch.len() implies #[trigger] batch[i] <= to by {
            assert(held[stored.len() + i] == batch[i]);
        }
        if stored.len() > 0 {
            lemma_inserting_never_moves_watermark_back(stored, batch);
        } else {
            assert(held =~= batch);
            if from <= to {
                assert(from <= batch[at]);
            }
        }
    }
}

/// One iteration never moves the watermark back, and moves it on by no more
/// than the most windows of one fetch, an hour each: if the pass fetched
/// from the watermark of what the series held, and the batch that it
/// inserted keeps the watermark within the window fetched, then the reading
/// after the iteration leaves the pass at or after the instant from which it
/// fetched, and no later than four hundred hours after it.
pub proof fn lemma_iteration_advances_within_window(
    pass: Pass,
    stored: Seq<i64>,
    batch: Seq<i64>,
    now: i64,
)
    requires
        pass.stage is Rereading,
        pass.anchor == anchor_from(latest(stored), pass.default_start),
        within_window(stored, batch, pass.anchor),
    ensures
        pass.after(Event::Watermark { read: latest(stored + batch), now }).anchor == anchor_from(
            latest(stored + batch),
            pass.default_start,
        ),
        pass.anchor <= pass.after(Event::Watermark { read: latest(stored + batch), now }).anchor
            <= pass.anchor + FETCH_COUNT * HOUR_SECS,
{
    lemma_watermark_advances_within_window(pass.default_start, stored, batch);
    lemma_latest_is_greatest(stored + batch);
}

/// After any number of iterations the watermark stands at or after where it
/// stood before them, and no further on than four hundred hours for each
/// iteration, provided that each batch keeps it within the window that was
/// fetched for it.
pub proof fn lemma_iterations_advance_within_windows(
    default_start: i64,
    stored: Seq<i64>,
    batches: Seq<Seq<i64>>,
)
    requires
        iterations_within_window(default_start, stored, batches),
    ensures
        anchor_from(latest(stored), default_start) <= anchor_from(
            latest(stored_after(stored, batches)),
            default_start,
        ) <= anchor_from(latest(stored), default_start) + batches.len() * (FETCH_COUNT
            * HOUR_SECS),
    decreases batches.len(),
{
    if batches.len() > 0 {
        lemma_watermark_advances_within_window(default_start, stored, batches[0]);
        lemma_iterations_advance_within_windows(
            default_start,
            stored + batches[0],
            batches.drop_first(),
        );
        assert(batches.len() * (FETCH_COUNT * HOUR_SECS) == (batches.len() - 1) * (FETCH_COUNT
            * HOUR_SECS) + FETCH_COUNT * HOUR_SECS) by (nonlinear_arith);
    }
}

} // verus!
