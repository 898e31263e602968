//! Folding a stream of runs into count, total, least and greatest duration.

use vstd::prelude::*;
use crate::model::{Run, Timestamp, NegativeDuration, run_secs};

verus! {

/// Aggregate durations, in seconds, of the runs at or after a cutoff.
#[derive(Clone, Copy, Debug, PartialEq, Eq, Structural)]
pub struct RunStats {
    pub count: usize,
    pub total: u128,
    pub min: Option<u64>,
    pub max: Option<u64>,
}

/// Whether a run counts towards statistics taken from `since` on.
pub open spec fn counted(r: Run, since: Timestamp) -> bool {
    r.created_at.secs >= since.secs
}

/// The runs of `runs` created at or after `since`, in their order.
pub open spec fn included(runs: Seq<Run>, since: Timestamp) -> Seq<Run> {
    runs.filter(|r: Run| counted(r, since))
}

/// Sum of the durations of `runs`.
pub open spec fn total_secs(runs: Seq<Run>) -> int
    decreases runs.len(),
{
    if runs.len() == 0 {
        0
    } else {
        total_secs(runs.drop_last()) + run_secs(runs.last())
    }
}

/// Least duration among `runs` (meaningful when `runs` is not empty).
pub open spec fn min_secs(runs: Seq<Run>) -> int
    decreases runs.len(),
{
    if runs.len() <= 1 {
        run_secs(runs[0])
    } else {
        let m = min_secs(runs.drop_last());
        if run_secs(runs.last()) < m { run_secs(runs.last()) } else { m }
    }
}

/// Greatest duration among `runs` (meaningful when `runs` is not empty).
pub open spec fn max_secs(runs: Seq<Run>) -> int
    decreases runs.len(),
{
    if runs.len() <= 1 {
        run_secs(runs[0])
    } else {
        let m = max_secs(runs.drop_last());
        if run_secs(runs.last()) > m { run_secs(runs.last()) } else { m }
    }
}

/// No run of `runs` has a negative duration.
pub open spec fn durations_valid(runs: Seq<Run>) -> bool {
    forall|i: int| 0 <= i < runs.len() ==> run_secs(#[trigger] runs[i]) >= 0
}

impl RunStats {
    /// The statistics of no runs at all.
    pub open spec fn is_zero(self) -> bool {
        &&& self.count == 0
        &&& self.total == 0
        &&& self.min is None
        &&& self.max is None
    }

    /// `self` is the aggregate of exactly the runs `runs`.
    pub open spec fn summarizes(self, runs: Seq<Run>) -> bool {
        &&& self.count == runs.len()
        &&& self.total == total_secs(runs)
        &&& if runs.len() == 0 {
            self.min is None && self.max is None
        } else {
            &&& self.min matches Some(m) && m == min_secs(runs)
            &&& self.max matches Some(m) && m == max_secs(runs)
        }
    }

    /// The statistics of no runs at all.
    pub fn zero() -> (r: RunStats)
        ensures
            r.is_zero(),
            r.summarizes(Seq::empty()),
    {
        RunStats { count: 0, total: 0, min: None, max: None }
    }
}

proof fn lemma_total_bounded(runs: Seq<Run>)
    requires
        durations_valid(runs),
    ensures
        0 <= total_secs(runs) <= runs.len() * 0xffff_ffff_ffff_ffffint,
    decreases runs.len(),
{
    if runs.len() > 0 {
        let rest = runs.drop_last();
        assert forall|i: int| 0 <= i < rest.len() implies run_secs(#[trigger] rest[i]) >= 0 by {
            assert(rest[i] == runs[i]);
        }
        lemma_total_bounded(rest);
        assert(run_secs(runs[runs.len() - 1]) >= 0);
        assert(run_secs(runs.last()) <= 0xffff_ffff_ffff_ffffint);
        assert(rest.len() * 0xffff_ffff_ffff_ffffint + 0xffff_ffff_ffff_ffffint
            == runs.len() * 0xffff_ffff_ffff_ffffint) by (nonlinear_arith)
            requires rest.len() + 1 == runs.len();
    }
}

proof fn lemma_included_step(runs: Seq<Run>, since: Timestamp, i: int)
    requires
        0 <= i < runs.len(),
    ensures
        included(runs.subrange(0, i + 1), since) == (if counted(runs[i], since) {
            included(runs.subrange(0, i), since).push(runs[i])
        } else {
            included(runs.subrange(0, i), since)
        }),
{
    let pre = runs.subrange(0, i + 1);
    assert(pre.drop_last() == runs.subrange(0, i));
    assert(pre.last() == runs[i]);
    reveal(Seq::filter);
}

/// Folds `runs` into statistics over those created at or after `since`;
/// fails when one of those runs has a negative duration.
pub fn run_stats(runs: &Vec<Run>, since: Timestamp) -> (r: Result<RunStats, NegativeDuration>)
    ensures
        match r {
            Ok(s) => durations_valid(included(runs@, since)) && s.summarizes(included(runs@, since)),
            Err(e) => !durations_valid(included(runs@, since)),
        },
{
    let mut acc = RunStats::zero();
    let mut i: usize = 0;
    proof {
        reveal(Seq::filter);
        assert(runs@.subrange(0, 0) =~= Seq::<Run>::empty());
    }
    while i < runs.len()
        invariant
            i <= runs.len(),
            durations_valid(included(runs@.subrange(0, i as int), since)),
            acc.summarizes(included(runs@.subrange(0, i as int), since)),
            acc.count <= i,
        decreases runs.len() - i,
    {
        let run = &runs[i];
        let ghost before = included(runs@.subrange(0, i as int), since);
        proof {
            lemma_included_step(runs@, since, i as int);
        }
        if run.created_at.secs >= since.secs {
            let d = match run.duration() {
                Ok(d) => d,
                Err(e) => {
                    proof {
                        lemma_not_valid_grows(runs@, since, i as int);
                    }
                    return Err(e);
                },
            };
            let ghost after = before.push(*run);
            proof {
                assert(after.drop_last() == before);
                assert forall|j: int| 0 <= j < after.len() implies run_secs(#[trigger] after[j]) >= 0 by {
                    if j < before.len() {
                        assert(after[j] == before[j]);
                    }
                }
                lemma_total_bounded(before);
                assert(before.len() * 0xffff_ffff_ffff_ffffint + 0xffff_ffff_ffff_ffffint
                    < 0x1_0000_0000_0000_0000_0000_0000_0000_0000int) by (nonlinear_arith)
                    requires before.len() < 0x1_0000_0000_0000_0000int;
            }
            let min = match acc.min {
                Some(m) => if d < m { d } else { m },
                None => d,
            };
            let max = match acc.max {
                Some(m) => if d > m { d } else { m },
                None => d,
            };
            acc = RunStats { count: acc.count + 1, total: acc.total + d as u128, min: Some(min), max: Some(max) };
        }
        i = i + 1;
    }
    proof {
        assert(runs@.subrange(0, runs.len() as int) == runs@);
    }
    Ok(acc)
}

proof fn lemma_not_valid_grows(runs: Seq<Run>, since: Timestamp, i: int)
    requires
        0 <= i < runs.len(),
        counted(runs[i], since),
        run_secs(runs[i]) < 0,
    ensures
        !durations_valid(included(runs, since)),
{
    broadcast use vstd::seq_lib::group_filter_ensures;
    let pred = |r: Run| counted(r, since);
    assert(runs.filter(pred).contains(runs[i]));
}

proof fn lemma_min_max_attained(runs: Seq<Run>)
    requires
        runs.len() > 0,
    ensures
        forall|i: int| 0 <= i < runs.len() ==> min_secs(runs) <= run_secs(#[trigger] runs[i]) <= max_secs(runs),
        exists|i: int| 0 <= i < runs.len() && run_secs(#[trigger] runs[i]) == min_secs(runs),
        exists|i: int| 0 <= i < runs.len() && run_secs(#[trigger] runs[i]) == max_secs(runs),
    decreases runs.len(),
{
    if runs.len() > 1 {
        let rest = runs.drop_last();
        lemma_min_max_attained(rest);
        assert forall|i: int| 0 <= i < runs.len() implies min_secs(runs) <= run_secs(#[trigger] runs[i]) <= max_secs(runs) by {
            if i < rest.len() {
                assert(rest[i] == runs[i]);
            }
        }
        let j = choose|j: int| 0 <= j < rest.len() && run_secs(#[trigger] rest[j]) == min_secs(rest);
        let k = choose|k: int| 0 <= k < rest.len() && run_secs(#[trigger] rest[k]) == max_secs(rest);
        assert(rest[j] == runs[j]);
        assert(rest[k] == runs[k]);
        let n = runs.len() - 1;
        if run_secs(runs.last()) < min_secs(rest) {
            assert(run_secs(runs[n]) == min_secs(runs));
        } else {
            assert(run_secs(runs[j]) == min_secs(runs));
        }
        if run_secs(runs.last()) > max_secs(rest) {
            assert(run_secs(runs[n]) == max_secs(runs));
        } else {
            assert(run_secs(runs[k]) == max_secs(runs));
        }
    } else {
        assert(run_secs(runs[0]) == min_secs(runs));
        assert(run_secs(runs[0]) == max_secs(runs));
    }
}

/// Statistics over a stream in which no run is at or after the cutoff (in
/// particular, over the empty stream) are the zero value.
pub proof fn lemma_no_counted_runs_is_zero(runs: Seq<Run>, since: Timestamp, s: RunStats)
    requires
        forall|i: int| 0 <= i < runs.len() ==> !counted(#[trigger] runs[i], since),
        s.summarizes(included(runs, since)),
    ensures
        s.is_zero(),
{
    broadcast use vstd::seq_lib::group_filter_ensures;
    let pred = |r: Run| counted(r, since);
    if included(runs, since).len() > 0 {
        let r = included(runs, since)[0];
        assert(runs.filter(pred).contains(r));
        runs.lemma_filter_contains_rev(pred, r);
    }
}

/// Statistics taken from a cutoff count exactly the runs created at or after
/// it, sum their durations, and report the least and the greatest of those
/// durations, each of which some counted run has.
pub proof fn lemma_stats_are_exact(runs: Seq<Run>, since: Timestamp, s: RunStats)
    requires
        s.summarizes(included(runs, since)),
    ensures
        s.count == included(runs, since).len(),
        s.total == total_secs(included(runs, since)),
        forall|r: Run| included(runs, since).contains(r) ==> counted(r, since),
        forall|r: Run| included(runs, since).contains(r) ==> (s.min matches Some(m) && m <= run_secs(r)),
        forall|r: Run| included(runs, since).contains(r) ==> (s.max matches Some(m) && run_secs(r) <= m),
        s.min matches Some(m) ==> exists|r: Run| included(runs, since).contains(r) && run_secs(r) == m,
        s.max matches Some(m) ==> exists|r: Run| included(runs, since).contains(r) && run_secs(r) == m,
{
    let inc = included(runs, since);
    let pred = |r: Run| counted(r, since);
    broadcast use vstd::seq_lib::group_filter_ensures;
    if inc.len() > 0 {
        lemma_min_max_attained(inc);
        let j = choose|j: int| 0 <= j < inc.len() && run_secs(#[trigger] inc[j]) == min_secs(inc);
        let k = choose|k: int| 0 <= k < inc.len() && run_secs(#[trigger] inc[k]) == max_secs(inc);
        assert(inc.contains(inc[j]));
        assert(inc.contains(inc[k]));
    }
}

} // verus!
