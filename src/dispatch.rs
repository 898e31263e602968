//! The bookkeeping of fanning statistics out over many workflows with at most
//! a fixed number of workflow pipelines in flight, and of combining their
//! results into a grand total.
//!
//! The caller runs the pipelines: it asks which workflow to start, starts it,
//! and reports each pipeline's outcome as it completes, in any order.

use vstd::prelude::*;
use crate::stats::RunStats;

verus! {

/// The most workflow pipelines that may be in flight at once.
pub const MAX_IN_FLIGHT: usize = 20;

/// Progress of one fan-out over `len` workflows, started in their order.
#[derive(Clone, Copy, Debug, PartialEq, Eq, Structural)]
pub struct Dispatcher {
    /// How many workflows there are.
    pub len: usize,
    /// How many have been started; the next to start has this index.
    pub started: usize,
    /// How many started pipelines have not completed yet.
    pub in_flight: usize,
    /// How many pipelines failed and were left out of the total.
    pub failed: usize,
    /// Sum, in seconds, of the totals of the pipelines that succeeded
    /// (saturating at the largest `u128`).
    pub total: u128,
}

/// `a + b`, or the largest `u128` if that is smaller.
pub open spec fn saturating_sum(a: int, b: int) -> int {
    if a + b > u128::MAX { u128::MAX as int } else { a + b }
}

impl Dispatcher {
    /// The bookkeeping is consistent, and within the ceiling.
    pub open spec fn wf(self) -> bool {
        &&& self.started <= self.len
        &&& self.in_flight <= self.started
        &&& self.in_flight <= MAX_IN_FLIGHT
        &&& self.failed <= self.started - self.in_flight
    }

    /// A fan-out over `len` workflows, none started.
    pub fn new(len: usize) -> (r: Dispatcher)
        ensures
            r.wf(),
            r == (Dispatcher { len, started: 0, in_flight: 0, failed: 0, total: 0 }),
    {
        Dispatcher { len, started: 0, in_flight: 0, failed: 0, total: 0 }
    }

    /// The index of the next workflow to start, if one is left and a slot is
    /// free; it then counts as in flight.
    pub fn start_next(&mut self) -> (r: Option<usize>)
        requires
            old(self).wf(),
        ensures
            final(self).wf(),
            final(self).in_flight <= MAX_IN_FLIGHT,
            *final(self) == after_start(*old(self)),
            final(self).len == old(self).len,
            final(self).failed == old(self).failed,
            final(self).total == old(self).total,
            if old(self).in_flight < MAX_IN_FLIGHT && old(self).started < old(self).len {
                &&& r == Some(old(self).started)
                &&& final(self).started == old(self).started + 1
                &&& final(self).in_flight == old(self).in_flight + 1
            } else {
                &&& r is None
                &&& final(self).started == old(self).started
                &&& final(self).in_flight == old(self).in_flight
            },
    {
        if self.in_flight < MAX_IN_FLIGHT && self.started < self.len {
            let i = self.started;
            self.started = self.started + 1;
            self.in_flight = self.in_flight + 1;
            Some(i)
        } else {
            None
        }
    }

    /// One pipeline in flight completed with `outcome`: the statistics of a
    /// success add their total to the grand total; a failure (`None`) is
    /// counted and added to nothing.
    pub fn complete(&mut self, outcome: Option<RunStats>)
        requires
            old(self).wf(),
            old(self).in_flight > 0,
        ensures
            final(self).wf(),
            final(self).in_flight <= MAX_IN_FLIGHT,
            *final(self) == after_complete(*old(self), outcome),
            final(self).len == old(self).len,
            final(self).started == old(self).started,
            final(self).in_flight == old(self).in_flight - 1,
            match outcome {
                Some(stats) => final(self).failed == old(self).failed
                    && final(self).total == saturating_sum(old(self).total as int, stats.total as int),
                None => final(self).failed == old(self).failed + 1
                    && final(self).total == old(self).total,
            },
    {
        self.in_flight = self.in_flight - 1;
        match outcome {
            Some(stats) => {
                if self.total > u128::MAX - stats.total {
                    self.total = u128::MAX;
                } else {
                    self.total = self.total + stats.total;
                }
            },
            None => {
                self.failed = self.failed + 1;
            },
        }
    }

    /// Whether every workflow was started and every pipeline completed.
    pub fn is_finished(&self) -> (r: bool)
        ensures
            r == (self.started == self.len && self.in_flight == 0),
    {
        self.started == self.len && self.in_flight == 0
    }
}

/// The state after asking to start a workflow.
pub open spec fn after_start(d: Dispatcher) -> Dispatcher {
    if d.in_flight < MAX_IN_FLIGHT && d.started < d.len {
        Dispatcher { started: (d.started + 1) as usize, in_flight: (d.in_flight + 1) as usize, ..d }
    } else {
        d
    }
}

/// The state after a pipeline in flight completed with `outcome`.
pub open spec fn after_complete(d: Dispatcher, outcome: Option<RunStats>) -> Dispatcher {
    match outcome {
        Some(stats) => Dispatcher {
            in_flight: (d.in_flight - 1) as usize,
            total: saturating_sum(d.total as int, stats.total as int) as u128,
            ..d
        },
        None => Dispatcher { in_flight: (d.in_flight - 1) as usize, failed: (d.failed + 1) as usize, ..d },
    }
}

/// The state reached from `d` by a schedule of events: `None` asks to start
/// a workflow, `Some(outcome)` reports a completion, which is only possible
/// while some pipeline is in flight (otherwise the event is ignored).
pub open spec fn run_schedule(d: Dispatcher, events: Seq<Option<Option<RunStats>>>) -> Dispatcher
    decreases events.len(),
{
    if events.len() == 0 {
        d
    } else {
        let prev = run_schedule(d, events.drop_last());
        match events.last() {
            None => after_start(prev),
            Some(outcome) => if prev.in_flight > 0 { after_complete(prev, outcome) } else { prev },
        }
    }
}

/// Whatever the order in which workflows are started and their pipelines
/// complete, a fan-out never has more than the ceiling in flight, never more
/// in flight than started, and never more failures than completions.
pub proof fn lemma_ceiling_holds(len: usize, events: Seq<Option<Option<RunStats>>>)
    ensures
        run_schedule(Dispatcher { len, started: 0, in_flight: 0, failed: 0, total: 0 }, events).wf(),
        run_schedule(Dispatcher { len, started: 0, in_flight: 0, failed: 0, total: 0 }, events).in_flight
            <= MAX_IN_FLIGHT,
    decreases events.len(),
{
    if events.len() > 0 {
        lemma_ceiling_holds(len, events.drop_last());
    }
}

} // verus!
