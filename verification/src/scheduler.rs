//! The schedule of the ingestion: a pass every two minutes, and never two
//! passes at once.

use vstd::prelude::*;

verus! {

/// The time between two ticks of the schedule, in seconds.
pub const PERIOD_SECS: u64 = 120;

/// What the schedule keeps between ticks: whether a pass is under way.
#[derive(Clone, Copy, Debug, PartialEq, Eq, Structural)]
pub struct Scheduler {
    pub in_flight: bool,
}

impl Scheduler {
    /// A schedule with no pass under way.
    pub fn new() -> (scheduler: Scheduler)
        ensures
            !scheduler.in_flight,
    {
        Scheduler { in_flight: false }
    }

    /// A tick of the schedule: says whether a pass is to start now. None
    /// starts while one is under way; the pass that starts is then under
    /// way until `pass_finished` is called.
    pub fn tick(&mut self) -> (start: bool)
        ensures
            start == !old(self).in_flight,
            final(self).in_flight,
    {
        let start = !self.in_flight;
        self.in_flight = true;
        start
    }

    /// The pass that was under way is over, however it ended.
    pub fn pass_finished(&mut self)
        ensures
            !final(self).in_flight,
    {
        self.in_flight = false;
    }
}

} // verus!
