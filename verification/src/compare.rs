//! Fan-out across several targets: per-target outcomes are collected
//! independently, successes are kept in input order, and series accumulated
//! over repeated rounds are grouped by target name.  The surrounding binary
//! launches the concurrent probes and hands the joined outcomes here.

use vstd::prelude::*;

use crate::domain::{same_measurement, ProbeResult};
use crate::error::{same_error, RkikError};
use crate::stats::{avg_ns, compute_stats, max_ns, min_ns, offsets_of, rtts_of, Stats};

verus! {

/// The successful measurements of a batch, in input order.
pub open spec fn successes_of(outcomes: Seq<Result<ProbeResult, RkikError>>) -> Seq<ProbeResult>
    decreases outcomes.len(),
{
    if outcomes.len() == 0 {
        Seq::empty()
    } else {
        successes_of(outcomes.drop_last()) + (match outcomes.last() {
            Ok(r) => seq![r],
            Err(_) => Seq::empty(),
        })
    }
}

/// Whether any outcome of the batch succeeded.
pub open spec fn any_ok(outcomes: Seq<Result<ProbeResult, RkikError>>) -> bool {
    exists|i: int| 0 <= i < outcomes.len() && outcomes[i] is Ok
}

/// `f` is the index of the first failed outcome.
pub open spec fn first_err_at(outcomes: Seq<Result<ProbeResult, RkikError>>, f: int) -> bool {
    &&& 0 <= f < outcomes.len()
    &&& outcomes[f] is Err
    &&& forall|i: int| 0 <= i < f ==> outcomes[i] is Ok
}

/// Reduce the joined outcomes of one fan-out round.  A single target's
/// failure does not abort the batch: every success is kept, in the order of
/// the input targets.  Only a batch in which nothing succeeded is an error,
/// reported as its first failure.  An empty batch is an empty success.
pub fn collect_batch(outcomes: &Vec<Result<ProbeResult, RkikError>>) -> (r: Result<
    Vec<ProbeResult>,
    RkikError,
>)
    ensures
        r is Ok <==> (outcomes@.len() == 0 || any_ok(outcomes@)),
        r matches Ok(v) ==> {
            &&& v@.len() == successes_of(outcomes@).len()
            &&& forall|k: int|
                0 <= k < v@.len() ==> same_measurement(v@[k], successes_of(outcomes@)[k])
        },
        r matches Err(e) ==> exists|f: int| #[trigger] first_err_at(outcomes@, f) && same_error(
            e,
            outcomes@[f]->Err_0,
        ),
{
    let n = outcomes.len();
    let mut kept: Vec<ProbeResult> = Vec::new();
    let mut i: usize = 0;
    while i < n
        invariant
            0 <= i <= n,
            n == outcomes@.len(),
            kept@.len() == successes_of(outcomes@.take(i as int)).len(),
            forall|k: int|
                0 <= k < kept@.len() ==> same_measurement(
                    kept@[k],
                    successes_of(outcomes@.take(i as int))[k],
                ),
        decreases n - i,
    {
        proof {
            assert(outcomes@.take(i + 1).drop_last() =~= outcomes@.take(i as int));
            assert(outcomes@.take(i + 1).last() == outcomes@[i as int]);
        }
        match &outcomes[i] {
            Ok(r) => {
                kept.push(r.clone());
            },
            Err(_) => {},
        }
        i = i + 1;
    }
    proof {
        assert(outcomes@.take(n as int) =~= outcomes@);
    }
    if n == 0 || kept.len() > 0 {
        proof {
            if n > 0 && kept@.len() > 0 {
                lemma_successes_len_ok(outcomes@);
            }
        }
        Ok(kept)
    } else {
        proof {
            lemma_successes_len_ok(outcomes@);
        }
        // Nothing succeeded: the batch as a whole failed; report its first
        // failure, which with no success anywhere is the first outcome.
        match &outcomes[0] {
            Err(e) => {
                proof {
                    assert(first_err_at(outcomes@, 0));
                }
                Err(e.clone())
            },
            Ok(_) => {
                proof {
                    assert(false);
                }
                Err(RkikError::Other(String::new()))
            },
        }
    }
}

/// A batch has a success exactly when its success list is non-empty.
proof fn lemma_successes_len_ok(outcomes: Seq<Result<ProbeResult, RkikError>>)
    ensures
        successes_of(outcomes).len() > 0 <==> any_ok(outcomes),
    decreases outcomes.len(),
{
    if outcomes.len() > 0 {
        lemma_successes_len_ok(outcomes.drop_last());
        if outcomes.last() is Ok {
            assert(outcomes[outcomes.len() - 1] is Ok);
        } else if successes_of(outcomes.drop_last()).len() > 0 {
            let i = choose|i: int|
                0 <= i < outcomes.len() - 1 && outcomes.drop_last()[i] is Ok;
            assert(outcomes[i] is Ok);
        } else {
            assert(forall|i: int|
                0 <= i < outcomes.len() - 1 ==> outcomes.drop_last()[i] == outcomes[i]);
        }
    }
}

/// Fan-out independence: in a batch of three where exactly one target
/// fails, the batch as a whole does not fail, and exactly the two
/// successful measurements remain, still in input order.
pub proof fn lemma_fanout_independence(
    outcomes: Seq<Result<ProbeResult, RkikError>>,
    f: int,
)
    requires
        outcomes.len() == 3,
        0 <= f < 3,
        outcomes[f] is Err,
        forall|i: int| 0 <= i < 3 && i != f ==> outcomes[i] is Ok,
    ensures
        any_ok(outcomes),
        successes_of(outcomes).len() == 2,
        successes_of(outcomes) == if f == 0 {
            seq![outcomes[1]->Ok_0, outcomes[2]->Ok_0]
        } else if f == 1 {
            seq![outcomes[0]->Ok_0, outcomes[2]->Ok_0]
        } else {
            seq![outcomes[0]->Ok_0, outcomes[1]->Ok_0]
        },
{
    let o2 = outcomes;
    let o1 = outcomes.drop_last();
    let o0 = o1.drop_last();
    let oe = o0.drop_last();
    assert(oe =~= Seq::<Result<ProbeResult, RkikError>>::empty());
    assert(successes_of(oe) == Seq::<ProbeResult>::empty());
    assert(o0.len() == 1 && o0.last() == outcomes[0]);
    assert(o1.len() == 2 && o1.last() == outcomes[1]);
    assert(o2.last() == outcomes[2]);
    let s0 = successes_of(o0);
    let s1 = successes_of(o1);
    let s2 = successes_of(o2);
    if f == 0 {
        assert(outcomes[1] is Ok && outcomes[2] is Ok);
        assert(s0 =~= Seq::<ProbeResult>::empty());
        assert(s1 =~= seq![outcomes[1]->Ok_0]);
        assert(s2 =~= seq![outcomes[1]->Ok_0, outcomes[2]->Ok_0]);
    } else if f == 1 {
        assert(outcomes[0] is Ok && outcomes[2] is Ok);
        assert(s0 =~= seq![outcomes[0]->Ok_0]);
        assert(s1 =~= seq![outcomes[0]->Ok_0]);
        assert(s2 =~= seq![outcomes[0]->Ok_0, outcomes[2]->Ok_0]);
    } else {
        assert(outcomes[0] is Ok && outcomes[1] is Ok);
        assert(s0 =~= seq![outcomes[0]->Ok_0]);
        assert(s1 =~= seq![outcomes[0]->Ok_0, outcomes[1]->Ok_0]);
        assert(s2 =~= seq![outcomes[0]->Ok_0, outcomes[1]->Ok_0]);
    }
}

/// The courtesy check at the comparison entry point: comparing fewer than
/// two targets is a usage error, raised before any probing.  The fan-out
/// engine itself works for any number of targets.
pub fn validate_compare_targets(n: usize) -> (r: Result<(), RkikError>)
    ensures
        r is Ok <==> n >= 2,
        r matches Err(e) ==> e matches RkikError::Usage(m) && m@
            == "Need at least 2 servers to compare"@,
{
    if n < 2 {
        Err(RkikError::Usage("Need at least 2 servers to compare".to_owned()))
    } else {
        Ok(())
    }
}

/// Per-target sample series accumulated over repeated fan-out rounds,
/// keyed by target name, in order of first appearance.
#[derive(Debug)]
pub struct SeriesMap {
    /// One entry per distinct target name.
    pub entries: Vec<(String, Vec<ProbeResult>)>,
}

impl SeriesMap {
    /// Names are pairwise distinct.
    pub open spec fn wf(&self) -> bool {
        forall|i: int, j: int|
            0 <= i < j < self.entries@.len() ==> self.entries@[i].0@ != self.entries@[j].0@
    }

    /// Every accumulated series holds at least one sample; filing only
    /// ever opens an entry with its first measurement.
    pub open spec fn all_series_nonempty(&self) -> bool {
        forall|i: int| 0 <= i < self.entries@.len() ==> self.entries@[i].1@.len() > 0
    }

    /// An empty accumulation.
    pub fn new() -> (r: Self)
        ensures
            r.wf(),
            r.all_series_nonempty(),
            r.entries@.len() == 0,
    {
        SeriesMap { entries: Vec::new() }
    }

    /// Per-target statistics, computed independently for each series, one
    /// summary per entry, in entry order.
    pub fn stats_list(&self) -> (r: Vec<(String, Stats)>)
        requires
            self.all_series_nonempty(),
        ensures
            r@.len() == self.entries@.len(),
            forall|i: int|
                0 <= i < r@.len() ==> {
                    &&& (#[trigger] r@[i]).0@ == self.entries@[i].0@
                    &&& r@[i].1.count == self.entries@[i].1@.len()
                    &&& r@[i].1.offset_avg_ns as int == avg_ns(offsets_of(self.entries@[i].1@))
                    &&& r@[i].1.offset_min_ns as int == min_ns(offsets_of(self.entries@[i].1@))
                    &&& r@[i].1.offset_max_ns as int == max_ns(offsets_of(self.entries@[i].1@))
                    &&& r@[i].1.rtt_avg_ns as int == avg_ns(rtts_of(self.entries@[i].1@))
                },
    {
        let n = self.entries.len();
        let mut out: Vec<(String, Stats)> = Vec::new();
        let mut i: usize = 0;
        while i < n
            invariant
                0 <= i <= n,
                n == self.entries@.len(),
                self.all_series_nonempty(),
                out@.len() == i,
                forall|j: int|
                    0 <= j < i ==> {
                        &&& (#[trigger] out@[j]).0@ == self.entries@[j].0@
                        &&& out@[j].1.count == self.entries@[j].1@.len()
                        &&& out@[j].1.offset_avg_ns as int == avg_ns(
                            offsets_of(self.entries@[j].1@),
                        )
                        &&& out@[j].1.offset_min_ns as int == min_ns(
                            offsets_of(self.entries@[j].1@),
                        )
                        &&& out@[j].1.offset_max_ns as int == max_ns(
                            offsets_of(self.entries@[j].1@),
                        )
                        &&& out@[j].1.rtt_avg_ns as int == avg_ns(rtts_of(self.entries@[j].1@))
                    },
            decreases n - i,
        {
            let name = self.entries[i].0.clone();
            let st = compute_stats(&self.entries[i].1);
            out.push((name, st));
            i = i + 1;
        }
        out
    }

    /// File one measurement under its target's name: appended to that
    /// name's series when the name is already present, else opening a new
    /// series at the end.  No other entry moves.
    pub fn push_result(&mut self, r: ProbeResult)
        requires
            old(self).wf(),
        ensures
            final(self).wf(),
            old(self).all_series_nonempty() ==> final(self).all_series_nonempty(),
            (exists|j: int|
                0 <= j < old(self).entries@.len() && old(self).entries@[j].0@
                    == r.target.name@) ==> {
                &&& final(self).entries@.len() == old(self).entries@.len()
                &&& forall|j: int|
                    0 <= j < old(self).entries@.len() && old(self).entries@[j].0@
                        != r.target.name@ ==> final(self).entries@[j] == old(self).entries@[j]
                &&& forall|j: int|
                    0 <= j < old(self).entries@.len() && old(self).entries@[j].0@
                        == r.target.name@ ==> final(self).entries@[j].0 == old(
                        self,
                    ).entries@[j].0 && final(self).entries@[j].1@ == old(
                        self,
                    ).entries@[j].1@.push(r)
            },
            !(exists|j: int|
                0 <= j < old(self).entries@.len() && old(self).entries@[j].0@
                    == r.target.name@) ==> {
                &&& final(self).entries@.len() == old(self).entries@.len() + 1
                &&& forall|j: int|
                    0 <= j < old(self).entries@.len() ==> final(self).entries@[j] == old(
                        self,
                    ).entries@[j]
                &&& final(self).entries@.last().0@ == r.target.name@
                &&& final(self).entries@.last().1@.len() == 1
                &&& final(self).entries@.last().1@[0] == r
            },
    {
        let n = self.entries.len();
        let mut i: usize = 0;
        while i < n
            invariant
                0 <= i <= n,
                n == self.entries@.len(),
                self.wf(),
                *self == *old(self),
                forall|j: int| 0 <= j < i ==> self.entries@[j].0@ != r.target.name@,
            decreases n - i,
        {
            if self.entries[i].0 == r.target.name {
                let ghost before = self.entries@;
                let mut entry = self.entries.remove(i);
                entry.1.push(r);
                self.entries.insert(i, entry);
                proof {
                    assert(self.entries@.len() == before.len());
                    assert(forall|j: int|
                        0 <= j < before.len() && j != i ==> self.entries@[j] == before[j]);
                    assert(self.entries@[i as int].0 == before[i as int].0);
                    assert(self.entries@[i as int].1@ == before[i as int].1@.push(r));
                    assert(forall|j: int|
                        0 <= j < before.len() && before[j].0@ == r.target.name@ ==> j == i);
                }
                return ;
            }
            i = i + 1;
        }
        let name = r.target.name.clone();
        let mut series: Vec<ProbeResult> = Vec::new();
        series.push(r);
        self.entries.push((name, series));
    }
}

} // verus!
