use midgard_history::midgard_api::{Params, Series};
use midgard_history::populate_db::{
    midgard_params, Action, Event, Pass, PassEnd, Stage, Watermark, FETCH_COUNT, FETCH_INTERVAL,
    LOOKBACK_SECS,
};
use midgard_history::scheduler::{Scheduler, PERIOD_SECS};

// 2024-01-10T12:00:00Z
const NOON: i64 = 1704888000;
// 2023-10-12T12:00:00Z
const NINETY_DAYS_BEFORE: i64 = 1697112000;

fn read(read: Watermark, now: i64) -> Event {
    Event::Watermark { read, now }
}

fn fetch(series: Series, from: i64) -> Action {
    Action::Fetch(series, Params { interval: "hour".to_string(), from, count: 400 })
}

#[test]
fn fetch_window_is_hourly_and_four_hundred_wide() {
    assert_eq!(
        midgard_params(NINETY_DAYS_BEFORE),
        Params { interval: "hour".to_string(), from: NINETY_DAYS_BEFORE, count: 400 }
    );
    assert_eq!(FETCH_INTERVAL, "hour");
    assert_eq!(FETCH_COUNT, 400);
    assert_eq!(LOOKBACK_SECS, 90 * 24 * 3600);
}

#[test]
fn empty_series_starts_ninety_days_back() {
    let hour = chrono::DateTime::parse_from_rfc3339("2024-01-10T12:00:00Z").unwrap().timestamp();
    let expected =
        chrono::DateTime::parse_from_rfc3339("2023-10-12T12:00:00Z").unwrap().timestamp();
    assert_eq!((hour, expected), (NOON, NINETY_DAYS_BEFORE));
    let mut pass = Pass::start(hour);
    assert_eq!(pass.default_start, expected);
    assert_eq!(pass.action(), Action::ReadWatermark);
    let action = pass.step(read(Watermark::Empty, hour));
    assert_eq!(action, fetch(Series::DepthPrice, expected));
    assert_eq!(pass.anchor, expected);
    match action {
        Action::Fetch(series, params) => {
            let url = series.interface(params).build_url().unwrap();
            assert_eq!(
                url,
                "https://midgard.ninerealms.com/v2/history/depths/BTC.BTC?\
                 interval=hour&from=1697112000&count=400"
            );
        }
        other => panic!("no fetch: {:?}", other),
    }
}

#[test]
fn unreadable_store_at_the_start_ends_the_pass() {
    let mut pass = Pass::start(NOON);
    let action = pass.step(read(Watermark::Unavailable, NOON));
    assert_eq!(action, Action::Stop(PassEnd::WatermarkUnavailable));
    assert!(pass.is_closed());
    assert_eq!(pass.stage, Stage::Closed(PassEnd::WatermarkUnavailable));
    assert_eq!(pass.step(Event::Fetched), Action::Stop(PassEnd::WatermarkUnavailable));
    assert_eq!(
        pass.step(read(Watermark::Empty, NOON)),
        Action::Stop(PassEnd::WatermarkUnavailable)
    );
}

#[test]
fn one_iteration_goes_through_the_four_series_in_order() {
    let from = NOON - 7200;
    let mut pass = Pass::start(NOON);
    assert_eq!(pass.step(read(Watermark::At(from), NOON)), fetch(Series::DepthPrice, from));
    assert_eq!(pass.step(Event::Fetched), Action::Insert(Series::DepthPrice));
    assert_eq!(pass.step(Event::Inserted), fetch(Series::Earnings, from));
    assert_eq!(pass.step(Event::Fetched), Action::Insert(Series::Earnings));
    assert_eq!(pass.step(Event::Inserted), fetch(Series::RunePool, from));
    assert_eq!(pass.step(Event::Fetched), Action::Insert(Series::RunePool));
    assert_eq!(pass.step(Event::Inserted), fetch(Series::Swaps, from));
    assert_eq!(pass.step(Event::Fetched), Action::Insert(Series::Swaps));
    assert_eq!(pass.step(Event::Inserted), Action::ReadWatermark);
    assert_eq!(pass.stage, Stage::Rereading);
    assert!(!pass.is_closed());
    assert_eq!(
        pass.step(read(Watermark::At(NOON - 3600), NOON)),
        fetch(Series::DepthPrice, NOON - 3600)
    );
    let events = [Event::Fetched, Event::Inserted].repeat(4);
    assert_eq!(pass.feed(&events), Action::ReadWatermark);
    assert_eq!(pass.step(read(Watermark::At(NOON), NOON)), Action::Stop(PassEnd::CaughtUp));
    assert!(pass.is_closed());
    assert_eq!(pass.anchor, NOON);
}

#[test]
fn pass_is_over_once_less_than_an_hour_is_left() {
    for (watermark, behind) in [
        (NOON - 3601, true),
        (NOON - 3600, true),
        (NOON - 3599, false),
        (NOON, false),
        (NOON + 3600, false),
    ] {
        let mut pass = Pass::start(NOON);
        let action = pass.step(read(Watermark::At(watermark), NOON));
        if behind {
            assert_eq!(action, fetch(Series::DepthPrice, watermark));
        } else {
            assert_eq!(action, Action::Stop(PassEnd::CaughtUp));
        }
        assert_eq!(pass.anchor, watermark);
    }
}

#[test]
fn the_hour_of_an_instant_is_what_counts() {
    for now in [NOON, NOON + 1, NOON + 1234, NOON + 3599] {
        let mut pass = Pass::start(now);
        assert_eq!(pass.default_start, NINETY_DAYS_BEFORE);
        assert_eq!(pass, Pass::start(NOON));
        assert_eq!(
            pass.step(read(Watermark::At(NOON - 3600), now)),
            fetch(Series::DepthPrice, NOON - 3600)
        );
        let mut other = Pass::start(now);
        assert_eq!(
            other.step(read(Watermark::At(NOON - 3599), now)),
            Action::Stop(PassEnd::CaughtUp)
        );
    }
    let mut next_hour = Pass::start(NOON + 3600);
    assert_eq!(next_hour.default_start, NINETY_DAYS_BEFORE + 3600);
    assert_eq!(
        next_hour.step(read(Watermark::At(NOON - 3599), NOON + 3600)),
        fetch(Series::DepthPrice, NOON - 3599)
    );
}

#[test]
fn earliest_hours_have_nothing_before_them() {
    let first_hour = i64::MIN.div_euclid(3600) * 3600 + 3600;
    let now = first_hour + LOOKBACK_SECS + 17;
    let mut pass = Pass::start(now);
    assert_eq!(pass.default_start, first_hour);
    assert_eq!(pass.step(read(Watermark::At(i64::MIN), i64::MIN)), Action::Stop(PassEnd::CaughtUp));
    let mut other = Pass::start(now);
    assert_eq!(
        other.step(read(Watermark::At(i64::MIN), first_hour - 1)),
        Action::Stop(PassEnd::CaughtUp)
    );
    let mut third = Pass::start(now);
    assert_eq!(
        third.step(read(Watermark::At(first_hour), first_hour + 3600)),
        fetch(Series::DepthPrice, first_hour)
    );
}

#[test]
fn failed_fetch_of_earnings_ends_the_pass_behind_the_depth_series() {
    let from = NOON - 10 * 3600;
    let mut pass = Pass::start(NOON);
    pass.step(read(Watermark::At(from), NOON));
    assert_eq!(pass.step(Event::Fetched), Action::Insert(Series::DepthPrice));
    assert_eq!(pass.step(Event::Inserted), fetch(Series::Earnings, from));
    assert_eq!(
        pass.step(Event::FetchFailed),
        Action::Stop(PassEnd::FetchFailed(Series::Earnings))
    );
    assert!(pass.is_closed());
    assert_eq!(pass.step(Event::Fetched), Action::Stop(PassEnd::FetchFailed(Series::Earnings)));
    assert_eq!(pass.step(Event::Inserted), Action::Stop(PassEnd::FetchFailed(Series::Earnings)));

    // The depth series took its batch, so the next pass starts behind it,
    // and the other three series with it.
    let advanced = NOON - 3600;
    let mut next = Pass::start(NOON);
    assert_eq!(next.step(read(Watermark::At(advanced), NOON)), fetch(Series::DepthPrice, advanced));
    next.step(Event::Fetched);
    assert_eq!(next.step(Event::Inserted), fetch(Series::Earnings, advanced));
}

#[test]
fn any_failed_fetch_ends_the_pass() {
    for (done, series) in [
        (0, Series::DepthPrice),
        (1, Series::Earnings),
        (2, Series::RunePool),
        (3, Series::Swaps),
    ] {
        let mut pass = Pass::start(NOON);
        pass.step(read(Watermark::Empty, NOON));
        pass.feed(&[Event::Fetched, Event::Inserted].repeat(done));
        assert_eq!(pass.step(Event::FetchFailed), Action::Stop(PassEnd::FetchFailed(series)));
    }
}

#[test]
fn failed_insert_ends_the_pass_except_for_swaps() {
    for (done, series) in [(0, Series::DepthPrice), (1, Series::Earnings), (2, Series::RunePool)] {
        let mut pass = Pass::start(NOON);
        pass.step(read(Watermark::Empty, NOON));
        pass.feed(&[Event::Fetched, Event::Inserted].repeat(done));
        pass.step(Event::Fetched);
        assert_eq!(pass.step(Event::InsertFailed), Action::Stop(PassEnd::InsertFailed(series)));
    }
    let mut pass = Pass::start(NOON);
    pass.step(read(Watermark::Empty, NOON));
    pass.feed(&[Event::Fetched, Event::Inserted].repeat(3));
    assert_eq!(pass.step(Event::Fetched), Action::Insert(Series::Swaps));
    assert_eq!(pass.step(Event::InsertFailed), Action::ReadWatermark);
    assert_eq!(pass.stage, Stage::Rereading);
}

#[test]
fn unreadable_store_after_an_iteration_ends_the_pass() {
    let mut pass = Pass::start(NOON);
    pass.step(read(Watermark::Empty, NOON));
    pass.feed(&[Event::Fetched, Event::Inserted].repeat(4));
    assert_eq!(
        pass.step(read(Watermark::Unavailable, NOON)),
        Action::Stop(PassEnd::WatermarkUnavailable)
    );
}

#[test]
fn empty_store_after_an_iteration_starts_from_the_default_again() {
    let mut pass = Pass::start(NOON);
    pass.step(read(Watermark::At(NOON - 7200), NOON));
    pass.feed(&[Event::Fetched, Event::Inserted].repeat(4));
    assert_eq!(
        pass.step(read(Watermark::Empty, NOON + 3600)),
        fetch(Series::DepthPrice, NINETY_DAYS_BEFORE)
    );
}

#[test]
fn events_that_are_not_waited_for_change_nothing() {
    let mut pass = Pass::start(NOON);
    assert_eq!(pass.step(Event::Fetched), Action::ReadWatermark);
    assert_eq!(pass.step(Event::InsertFailed), Action::ReadWatermark);
    assert_eq!(pass, Pass::start(NOON));
    pass.step(read(Watermark::Empty, NOON));
    let waiting = pass;
    assert_eq!(pass.step(Event::Inserted), fetch(Series::DepthPrice, NINETY_DAYS_BEFORE));
    assert_eq!(pass.step(read(Watermark::At(5), NOON)), fetch(Series::DepthPrice, NINETY_DAYS_BEFORE));
    assert_eq!(pass, waiting);
    pass.step(Event::Fetched);
    assert_eq!(pass.step(Event::Fetched), Action::Insert(Series::DepthPrice));
    assert_eq!(pass.step(Event::FetchFailed), Action::Insert(Series::DepthPrice));
}

#[test]
fn rerun_from_an_unchanged_watermark_asks_for_nothing() {
    let watermark = NOON - 1800;
    let mut first = Pass::start(NOON);
    assert_eq!(first.step(read(Watermark::At(watermark), NOON)), Action::Stop(PassEnd::CaughtUp));
    let mut again = Pass::start(NOON);
    let events = vec![
        read(Watermark::At(watermark), NOON),
        Event::Fetched,
        Event::Inserted,
        read(Watermark::At(0), NOON),
        Event::InsertFailed,
    ];
    for at in 0..events.len() {
        let action = again.step(events[at]);
        assert_eq!(action, Action::Stop(PassEnd::CaughtUp));
        assert_eq!(again.anchor, watermark);
    }
    let mut fed = Pass::start(NOON);
    assert_eq!(fed.feed(&events), Action::Stop(PassEnd::CaughtUp));
    assert_eq!(fed, again);
}

#[test]
fn watermark_moves_on_by_what_was_inserted() {
    // Three iterations that bring 400, 400 and 12 hourly windows.
    let start = NOON - 812 * 3600;
    let mut pass = Pass::start(NOON);
    let mut anchors = vec![start];
    pass.step(read(Watermark::At(start), NOON));
    for brought in [400i64, 400, 12] {
        assert_eq!(pass.feed(&[Event::Fetched, Event::Inserted].repeat(4)), Action::ReadWatermark);
        let before = pass.anchor;
        let stored_end = before + brought * 3600;
        pass.step(read(Watermark::At(stored_end), NOON));
        assert!(before <= pass.anchor && pass.anchor <= before + 400 * 3600);
        anchors.push(pass.anchor);
    }
    assert_eq!(anchors, vec![start, start + 400 * 3600, start + 800 * 3600, NOON]);
    assert_eq!(pass.stage, Stage::Closed(PassEnd::CaughtUp));
}

#[test]
fn feeding_nothing_asks_for_the_same_again() {
    let mut pass = Pass::start(NOON);
    assert_eq!(pass.feed(&Vec::new()), Action::ReadWatermark);
    assert_eq!(pass, Pass::start(NOON));
}

#[test]
fn schedule_starts_one_pass_at_a_time() {
    assert_eq!(PERIOD_SECS, 120);
    let mut scheduler = Scheduler::new();
    assert!(!scheduler.in_flight);
    assert!(scheduler.tick());
    assert!(!scheduler.tick());
    assert!(!scheduler.tick());
    scheduler.pass_finished();
    assert!(scheduler.tick());
    scheduler.pass_finished();
    scheduler.pass_finished();
    assert!(scheduler.tick());
}
