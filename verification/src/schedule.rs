//! Running jobs: how many workers, in what order results come out, how long a run
//! may take, what is copied for a mutant, and what is cleaned up.
use vstd::prelude::*;
use vstd::seq_lib::group_to_multiset_ensures;

use crate::number::{decimal, print_u128, print_u32, print_usize};
use crate::order::{ascending, lemma_sorted_set_ascending, sorted_set, to_sorted_set};
use crate::paths::ByPath;
use crate::records::{CleanupSummary, CleanupSummaryModel};
use crate::seqs::{lemma_take_all, lemma_take_next};
use crate::split::{join, joined, push_text};
use crate::text::{ends, ends_with, owned, same, starts, starts_with};

verus! {

// ---------------------------------------------------------------------------
// Jobs
// ---------------------------------------------------------------------------
/// How jobs were run.
#[derive(Debug, Clone, Copy, PartialEq, Eq, Structural)]
pub struct SchedulerSummary {
    pub requested_jobs: usize,
    pub max_concurrency: usize,
}

/// How many workers run some jobs: none for none, and otherwise at least one and at most
/// one for each.
pub open spec fn workers_for(jobs: int, wanted: int) -> int {
    if jobs == 0 {
        0
    } else if wanted < 1 {
        1
    } else if wanted > jobs {
        jobs
    } else {
        wanted
    }
}

/// How some jobs are run.
pub fn schedule(jobs: usize, max_concurrency: usize) -> (r: SchedulerSummary)
    ensures
        r.requested_jobs == jobs,
        r.max_concurrency == workers_for(jobs as int, max_concurrency as int),
{
    let workers: usize = if jobs == 0 {
        0
    } else if max_concurrency < 1 {
        1
    } else if max_concurrency > jobs {
        jobs
    } else {
        max_concurrency
    };
    SchedulerSummary { requested_jobs: jobs, max_concurrency: workers }
}

/// There is a worker wherever there is a job, and no worker without one.
pub proof fn law_workers_are_bounded(jobs: int, wanted: int)
    requires
        0 <= jobs,
    ensures
        0 <= workers_for(jobs, wanted) <= jobs,
        jobs > 0 ==> workers_for(jobs, wanted) >= 1,
        0 < jobs && wanted >= 1 ==> workers_for(jobs, wanted) <= wanted,
{
}

/// Puts a result behind all that do not have a higher index.
pub open spec fn placed_by_index<R>(s: Seq<(usize, R)>, x: (usize, R)) -> Seq<(usize, R)>
    decreases s.len(),
{
    if s.len() > 0 && x.0 < s.last().0 {
        placed_by_index(s.drop_last(), x).push(s.last())
    } else {
        s.push(x)
    }
}

/// Results in the order of their indices.
pub open spec fn by_index<R>(s: Seq<(usize, R)>) -> Seq<(usize, R)>
    decreases s.len(),
{
    if s.len() == 0 {
        s
    } else {
        placed_by_index(by_index(s.drop_last()), s.last())
    }
}

/// Whether no two results have the same index, and every index is below their number.
pub open spec fn complete<R>(s: Seq<(usize, R)>) -> bool {
    &&& forall|i: int| 0 <= i < s.len() ==> (#[trigger] s[i]).0 < s.len()
    &&& forall|i: int, j: int|
        0 <= i < j < s.len() ==> (#[trigger] s[i]).0 != (#[trigger] s[j]).0
}

proof fn lemma_placed_by_index_at<R>(s: Seq<(usize, R)>, x: (usize, R), at: int)
    requires
        0 <= at <= s.len(),
        forall|j: int| at <= j < s.len() ==> x.0 < (#[trigger] s[j]).0,
    ensures
        placed_by_index(s, x) == placed_by_index(s.take(at), x) + s.skip(at),
    decreases s.len() - at,
{
    if at == s.len() {
        lemma_take_all(s);
        assert(placed_by_index(s, x) =~= placed_by_index(s, x) + s.skip(at));
    } else {
        let t = s.drop_last();
        assert(x.0 < s[s.len() - 1].0);
        assert forall|j: int| at <= j < t.len() implies x.0 < (#[trigger] t[j]).0 by {
            assert(t[j] == s[j]);
        }
        lemma_placed_by_index_at(t, x, at);
        assert(t.take(at) =~= s.take(at));
        assert(placed_by_index(t, x).push(s.last()) =~= placed_by_index(s.take(at), x) + s.skip(
            at,
        ));
    }
}

proof fn lemma_placed_by_index_items<R>(s: Seq<(usize, R)>, x: (usize, R))
    ensures
        placed_by_index(s, x).to_multiset() == s.to_multiset().insert(x),
        placed_by_index(s, x).len() == s.len() + 1,
    decreases s.len(),
{
    broadcast use group_to_multiset_ensures;

    if s.len() > 0 && x.0 < s.last().0 {
        lemma_placed_by_index_items(s.drop_last(), x);
        assert(s =~= s.drop_last().push(s.last()));
        assert(placed_by_index(s, x).to_multiset() =~= s.to_multiset().insert(x));
    }
}

proof fn lemma_by_index_items<R>(s: Seq<(usize, R)>)
    ensures
        by_index(s).to_multiset() == s.to_multiset(),
        by_index(s).len() == s.len(),
    decreases s.len(),
{
    broadcast use group_to_multiset_ensures;

    if s.len() > 0 {
        lemma_by_index_items(s.drop_last());
        lemma_placed_by_index_items(by_index(s.drop_last()), s.last());
        assert(s =~= s.drop_last().push(s.last()));
    }
}

/// Whether indices ascend.
pub open spec fn indices_ascend<R>(s: Seq<(usize, R)>) -> bool {
    forall|i: int, j: int|
        0 <= i < j < s.len() ==> (#[trigger] s[i]).0 <= (#[trigger] s[j]).0
}

proof fn lemma_placed_ascends<R>(s: Seq<(usize, R)>, x: (usize, R))
    requires
        indices_ascend(s),
    ensures
        indices_ascend(placed_by_index(s, x)),
        forall|i: int|
            0 <= i < placed_by_index(s, x).len() ==> (#[trigger] placed_by_index(s, x)[i]).0 <= (
            if s.len() > 0 && x.0 < s.last().0 {
                s.last().0
            } else {
                x.0
            }),
    decreases s.len(),
{
    if s.len() > 0 && x.0 < s.last().0 {
        let t = s.drop_last();
        assert(indices_ascend(t)) by {
            assert forall|i: int, j: int| 0 <= i < j < t.len() implies (#[trigger] t[i]).0 <= (
            #[trigger] t[j]).0 by {
                assert(s[i].0 <= s[j].0);
            }
        }
        lemma_placed_ascends(t, x);
        let q = placed_by_index(t, x);
        let r = placed_by_index(s, x);
        if t.len() > 0 {
            assert(s[t.len() - 1].0 <= s[s.len() - 1].0);
        }
        assert forall|i: int| 0 <= i < r.len() implies (#[trigger] r[i]).0 <= s.last().0 by {
            if i < q.len() {
                assert(q[i].0 <= s.last().0);
            }
        }
        assert forall|i: int, j: int| 0 <= i < j < r.len() implies (#[trigger] r[i]).0 <= (
        #[trigger] r[j]).0 by {
            if j < q.len() {
                assert(q[i].0 <= q[j].0);
            } else {
                assert(r[i].0 <= s.last().0);
            }
        }
    } else {
        let r = s.push(x);
        assert forall|i: int| 0 <= i < r.len() implies (#[trigger] r[i]).0 <= x.0 by {
            if i < s.len() {
                if i < s.len() - 1 {
                    assert(s[i].0 <= s[s.len() - 1].0);
                }
            }
        }
        assert forall|i: int, j: int| 0 <= i < j < r.len() implies (#[trigger] r[i]).0 <= (
        #[trigger] r[j]).0 by {
            if j < s.len() {
                assert(s[i].0 <= s[j].0);
            }
        }
    }
}

proof fn lemma_by_index_ascends<R>(s: Seq<(usize, R)>)
    ensures
        indices_ascend(by_index(s)),
    decreases s.len(),
{
    if s.len() > 0 {
        lemma_by_index_ascends(s.drop_last());
        lemma_placed_ascends(by_index(s.drop_last()), s.last());
    }
}

/// Putting results in order loses none and adds none, and their indices ascend.
pub proof fn law_ordering_keeps_results<R>(s: Seq<(usize, R)>)
    ensures
        by_index(s).to_multiset() == s.to_multiset(),
        indices_ascend(by_index(s)),
{
    lemma_by_index_items(s);
    lemma_by_index_ascends(s);
}

/// Results of jobs that were finished in any order, each once, come out in the order of
/// the jobs: the result at a place is that of the job at that place.
pub proof fn law_results_are_in_job_order<R>(s: Seq<(usize, R)>, k: int)
    requires
        complete(s),
        0 <= k < s.len(),
    ensures
        by_index(s)[k].0 == k,
        s.contains(by_index(s)[k]),
{
    broadcast use group_to_multiset_ensures;

    lemma_by_index_items(s);
    lemma_by_index_ascends(s);
    let r = by_index(s);
    assert forall|i: int| 0 <= i < r.len() implies s.contains(#[trigger] r[i]) by {
        assert(r.contains(r[i]));
        assert(r.to_multiset().count(r[i]) > 0);
    }
    assert(r.no_duplicates()) by {
        assert(s.no_duplicates()) by {
            assert forall|i: int, j: int| 0 <= i < s.len() && 0 <= j < s.len() && i != j implies s[i]
                != s[j] by {
                if i < j {
                    assert(s[i].0 != s[j].0);
                } else {
                    assert(s[j].0 != s[i].0);
                }
            }
        }
        s.lemma_multiset_has_no_duplicates();
        r.lemma_multiset_has_no_duplicates_conv();
    }
    lemma_indices_count_up(s, r, k);
}

proof fn lemma_indices_count_up<R>(s: Seq<(usize, R)>, r: Seq<(usize, R)>, k: int)
    requires
        complete(s),
        r.len() == s.len(),
        r.no_duplicates(),
        indices_ascend(r),
        forall|i: int| 0 <= i < r.len() ==> s.contains(#[trigger] r[i]),
        0 <= k < s.len(),
    ensures
        r[k].0 == k,
{
    assert forall|i: int, j: int| 0 <= i < j < r.len() implies (#[trigger] r[i]).0 < (
    #[trigger] r[j]).0 by {
        let a = choose|a: int| 0 <= a < s.len() && s[a] == r[i];
        let b = choose|b: int| 0 <= b < s.len() && s[b] == r[j];
        assert(r[i] != r[j]);
        assert(a != b);
        if a < b {
            assert(s[a].0 != s[b].0);
        } else {
            assert(s[b].0 != s[a].0);
        }
        assert(r[i].0 <= r[j].0);
    }
    lemma_lower_bound(r, k);
    lemma_upper_bound(s, r, k);
}

proof fn lemma_lower_bound<R>(r: Seq<(usize, R)>, k: int)
    requires
        forall|i: int, j: int|
            0 <= i < j < r.len() ==> (#[trigger] r[i]).0 < (#[trigger] r[j]).0,
        0 <= k < r.len(),
    ensures
        r[k].0 >= k,
    decreases k,
{
    if k > 0 {
        lemma_lower_bound(r, k - 1);
        assert(r[k - 1].0 < r[k].0);
    }
}

proof fn lemma_upper_bound<R>(s: Seq<(usize, R)>, r: Seq<(usize, R)>, k: int)
    requires
        complete(s),
        r.len() == s.len(),
        forall|i: int, j: int|
            0 <= i < j < r.len() ==> (#[trigger] r[i]).0 < (#[trigger] r[j]).0,
        forall|i: int| 0 <= i < r.len() ==> s.contains(#[trigger] r[i]),
        0 <= k < r.len(),
    ensures
        r[k].0 <= k,
    decreases r.len() - k,
{
    if k == r.len() - 1 {
        assert(s.contains(r[k]));
        let a = choose|a: int| 0 <= a < s.len() && s[a] == r[k];
        assert(s[a].0 < s.len());
    } else {
        lemma_upper_bound(s, r, k + 1);
        assert(r[k].0 < r[k + 1].0);
    }
}

fn place_by_index<R>(items: &mut Vec<(usize, R)>, x: (usize, R))
    ensures
        final(items)@ == placed_by_index(old(items)@, x),
{
    let ghost before = items@;
    let mut at: usize = items.len();
    while at > 0
        invariant_except_break
            at <= items@.len(),
        invariant
            before == items@,
            at <= items@.len(),
            forall|j: int| at <= j < before.len() ==> x.0 < (#[trigger] before[j]).0,
        ensures
            at > 0 ==> x.0 >= before[at - 1].0,
        decreases at,
    {
        if x.0 >= items[at - 1].0 {
            break;
        }
        at = at - 1;
    }
    proof {
        lemma_placed_by_index_at(before, x, at as int);
        if at > 0 {
            assert(before.take(at as int).last() == before[at - 1]);
        }
    }
    items.insert(at, x);
    assert(items@ =~= before.take(at as int).push(x) + before.skip(at as int));
}

/// The results of jobs in the order of the jobs.
pub open spec fn ordered_results<R>(finished: Seq<(usize, R)>) -> Seq<R> {
    by_index(finished).map_values(|x: (usize, R)| x.1)
}

/// Jobs that were each run once, by however many workers and in whatever order they
/// finished, give as many results as there are jobs, in the order of the jobs: the result at
/// a place is what the runner gives for the job at that place.
pub proof fn law_parallel_jobs_give_results_in_order<J, R>(
    jobs: Seq<J>,
    runner: spec_fn(J) -> R,
    finished: Seq<(usize, R)>,
)
    requires
        finished.len() == jobs.len(),
        complete(finished),
        forall|k: int|
            0 <= k < finished.len() ==> (#[trigger] finished[k]).1 == runner(
                jobs[finished[k].0 as int],
            ),
    ensures
        ordered_results(finished).len() == jobs.len(),
        forall|i: int|
            0 <= i < jobs.len() ==> #[trigger] ordered_results(finished)[i] == runner(jobs[i]),
{
    broadcast use group_to_multiset_ensures;

    lemma_by_index_items(finished);
    assert(by_index(finished).to_multiset().len() == by_index(finished).len());
    assert(finished.to_multiset().len() == finished.len());
    assert forall|i: int| 0 <= i < jobs.len() implies #[trigger] ordered_results(finished)[i]
        == runner(jobs[i]) by {
        law_results_are_in_job_order(finished, i);
        let found = by_index(finished)[i];
        let k = choose|k: int| 0 <= k < finished.len() && finished[k] == found;
        assert(finished[k].1 == runner(jobs[finished[k].0 as int]));
    }
}

/// Runs jobs one after the other.
pub fn run_jobs<T, R, F: Fn(T) -> R>(jobs: Vec<T>, runner: F) -> (r: Vec<R>)
    requires
        forall|i: int| 0 <= i < jobs@.len() ==> call_requires(runner, (#[trigger] jobs@[i],)),
    ensures
        r@.len() == jobs@.len(),
        forall|i: int|
            0 <= i < jobs@.len() ==> call_ensures(runner, (jobs@[i],), #[trigger] r@[i]),
{
    let ghost all = jobs@;
    let mut rest = jobs;
    let mut out: Vec<R> = Vec::new();
    while rest.len() > 0
        invariant
            out@.len() + rest@.len() == all.len(),
            rest@ == all.skip(out@.len() as int),
            forall|i: int| 0 <= i < all.len() ==> call_requires(runner, (#[trigger] all[i],)),
            forall|i: int|
                0 <= i < out@.len() ==> call_ensures(runner, (all[i],), #[trigger] out@[i]),
        decreases rest@.len(),
    {
        let ghost place = out@.len() as int;
        let job = rest.remove(0);
        assert(job == all[place]);
        let result = runner(job);
        out.push(result);
        assert(rest@ =~= all.skip(place + 1));
    }
    out
}

/// Puts the results of jobs in the order of the jobs.
pub fn in_job_order<R>(results: Vec<(usize, R)>) -> (r: Vec<R>)
    ensures
        r@ == ordered_results(results@),
{
    let ghost all = results@;
    let mut rest = results;
    let mut sorted: Vec<(usize, R)> = Vec::new();
    let n: usize = rest.len();
    let mut i: usize = 0;
    assert(sorted@ =~= by_index(all.take(0)));
    while i < n
        invariant
            i <= n,
            n == all.len(),
            rest@ == all.skip(i as int),
            sorted@ == by_index(all.take(i as int)),
        decreases n - i,
    {
        let next = rest.remove(0);
        proof {
            lemma_take_next(all, i as int);
            assert(rest@ =~= all.skip(i + 1));
        }
        place_by_index(&mut sorted, next);
        i = i + 1;
    }
    proof {
        lemma_take_all(all);
    }
    let ghost done = sorted@;
    let mut out: Vec<R> = Vec::new();
    let mut k: usize = 0;
    let m: usize = sorted.len();
    while k < m
        invariant
            k <= m,
            m == done.len(),
            sorted@ == done.skip(k as int),
            out@ == done.take(k as int).map_values(|x: (usize, R)| x.1),
        decreases m - k,
    {
        let (_, value) = sorted.remove(0);
        proof {
            lemma_take_next(done, k as int);
            assert(sorted@ =~= done.skip(k + 1));
        }
        out.push(value);
        k = k + 1;
        assert(out@ =~= done.take(k as int).map_values(|x: (usize, R)| x.1));
    }
    proof {
        lemma_take_all(done);
    }
    out
}

// ---------------------------------------------------------------------------
// Workers
// ---------------------------------------------------------------------------
/// Jobs that workers share: how many were handed out, which of them are being run, and what
/// came of the others.
pub struct JobPool<R> {
    pub summary: SchedulerSummary,
    pub next: usize,
    pub active: Vec<usize>,
    pub finished: Vec<(usize, R)>,
}

impl<R> JobPool<R> {
    /// Whether each job that was handed out is either being run or finished, each once, and no
    /// more are being run than there are workers.
    pub open spec fn well_formed(&self) -> bool {
        &&& self.next <= self.summary.requested_jobs
        &&& self.active@.len() <= self.summary.max_concurrency
        &&& self.active@.len() + self.finished@.len() == self.next
        &&& forall|i: int| 0 <= i < self.active@.len() ==> #[trigger] self.active@[i] < self.next
        &&& forall|i: int|
            0 <= i < self.finished@.len() ==> (#[trigger] self.finished@[i]).0 < self.next
        &&& self.active@.no_duplicates()
        &&& forall|i: int, j: int|
            0 <= i < j < self.finished@.len() ==> (#[trigger] self.finished@[i]).0 != (
            #[trigger] self.finished@[j]).0
        &&& forall|i: int, j: int|
            0 <= i < self.active@.len() && 0 <= j < self.finished@.len()
                ==> #[trigger] self.active@[i] != (#[trigger] self.finished@[j]).0
    }

    /// Whether every job was handed out and is finished.
    pub open spec fn all_finished(&self) -> bool {
        self.next == self.summary.requested_jobs && self.active@.len() == 0
    }

    /// Jobs of which none was handed out.
    pub fn new(jobs: usize, max_concurrency: usize) -> (r: Self)
        ensures
            r.well_formed(),
            r.next == 0,
            r.summary.requested_jobs == jobs,
            r.summary.max_concurrency == workers_for(jobs as int, max_concurrency as int),
    {
        JobPool {
            summary: schedule(jobs, max_concurrency),
            next: 0,
            active: Vec::new(),
            finished: Vec::new(),
        }
    }

    /// Hands out the next job, unless there is none or every worker has one.
    pub fn take(&mut self) -> (r: Option<usize>)
        requires
            old(self).well_formed(),
        ensures
            final(self).well_formed(),
            final(self).summary == old(self).summary,
            final(self).finished@ == old(self).finished@,
            match r {
                Some(place) => place == old(self).next && final(self).next == old(self).next + 1
                    && final(self).active@ == old(self).active@.push(place),
                None => final(self).next == old(self).next && final(self).active@
                    == old(self).active@,
            },
            r is Some <==> old(self).next < old(self).summary.requested_jobs && old(
                self,
            ).active@.len() < old(self).summary.max_concurrency,
    {
        if self.next >= self.summary.requested_jobs || self.active.len()
            >= self.summary.max_concurrency {
            return None;
        }
        let place: usize = self.next;
        self.active.push(place);
        self.next = place + 1;
        Some(place)
    }

    /// Notes what came of a job that is being run; nothing where the job is not being run.
    pub fn finish(&mut self, place: usize, result: R) -> (r: bool)
        requires
            old(self).well_formed(),
        ensures
            final(self).well_formed(),
            final(self).summary == old(self).summary,
            final(self).next == old(self).next,
            r == old(self).active@.contains(place),
            r ==> final(self).finished@ == old(self).finished@.push((place, result))
                && final(self).active@.len() + 1 == old(self).active@.len(),
            !r ==> final(self).finished@ == old(self).finished@ && final(self).active@ == old(
                self,
            ).active@,
    {
        let ghost before = self.active@;
        let mut i: usize = 0;
        while i < self.active.len()
            invariant
                i <= self.active@.len(),
                self.active@ == before,
                *self == *old(self),
                old(self).well_formed(),
                before == old(self).active@,
                forall|k: int| 0 <= k < i ==> before[k] != place,
            decreases self.active@.len() - i,
        {
            if self.active[i] == place {
                self.active.remove(i);
                self.finished.push((place, result));
                proof {
                    let after = self.active@;
                    assert(before[i as int] == place);
                    assert forall|k: int| 0 <= k < after.len() implies #[trigger] after[k]
                        == before[if k < i {
                        k
                    } else {
                        k + 1
                    }] by {
                    }
                    assert(after.no_duplicates());
                    assert forall|k: int| 0 <= k < after.len() implies #[trigger] after[k]
                        != place by {
                    }
                }
                return true;
            }
            i = i + 1;
        }
        false
    }

    /// Whether every job was handed out and is finished.
    pub fn is_finished(&self) -> (r: bool)
        ensures
            r == self.all_finished(),
    {
        self.next == self.summary.requested_jobs && self.active.len() == 0
    }

    /// The results of finished jobs in the order of the jobs, and how the jobs were run.
    pub fn results(self) -> (r: (Vec<R>, SchedulerSummary))
        requires
            self.well_formed(),
            self.all_finished(),
        ensures
            r.0@ == ordered_results(self.finished@),
            r.0@.len() == self.summary.requested_jobs,
            r.1 == self.summary,
    {
        proof {
            law_finished_pools_are_complete(self);
            broadcast use group_to_multiset_ensures;

            lemma_by_index_items(self.finished@);
            assert(by_index(self.finished@).to_multiset().len() == by_index(self.finished@).len());
            assert(self.finished@.to_multiset().len() == self.finished@.len());
        }
        (in_job_order(self.finished), self.summary)
    }
}

/// Where every job of a pool is finished, each was run once: there is one result for each.
pub proof fn law_finished_pools_are_complete<R>(pool: JobPool<R>)
    requires
        pool.well_formed(),
        pool.all_finished(),
    ensures
        complete(pool.finished@),
        pool.finished@.len() == pool.summary.requested_jobs,
{
}

// ---------------------------------------------------------------------------
// Budgets of time
// ---------------------------------------------------------------------------
/// The time that a run may take, in seconds. It is never zero.
#[derive(Debug, Clone, Copy, PartialEq, Eq, Structural)]
pub struct RunBudget {
    pub total_seconds: u64,
}

/// A second in nanoseconds.
pub const NANOS_PER_SECOND: u128 = 1_000_000_000;

impl RunBudget {
    /// A budget of at least one second.
    pub fn new(seconds: u64) -> (r: Self)
        ensures
            r.total_seconds == if seconds < 1 {
                1
            } else {
                seconds
            },
    {
        RunBudget {
            total_seconds: if seconds < 1 {
                1
            } else {
                seconds
            },
        }
    }

    /// Whether the time is over.
    pub open spec fn is_spent(self, elapsed_nanos: int) -> bool {
        elapsed_nanos >= self.total_seconds * NANOS_PER_SECOND
    }

    /// Whether at most five seconds are left.
    pub open spec fn is_nearly_spent(self, elapsed_nanos: int) -> bool {
        elapsed_nanos + 5 * NANOS_PER_SECOND >= self.total_seconds * NANOS_PER_SECOND
    }

    /// Whether the time is over.
    pub fn spent(&self, elapsed_nanos: u128) -> (r: bool)
        ensures
            r == self.is_spent(elapsed_nanos as int),
    {
        elapsed_nanos >= self.total_seconds as u128 * NANOS_PER_SECOND
    }

    /// Whether at most five seconds are left.
    pub fn nearly_spent(&self, elapsed_nanos: u128) -> (r: bool)
        ensures
            r == self.is_nearly_spent(elapsed_nanos as int),
    {
        let total: u128 = self.total_seconds as u128 * NANOS_PER_SECOND;
        let reserve: u128 = 5 * NANOS_PER_SECOND;
        total <= reserve || elapsed_nanos >= total - reserve
    }
}

/// A budget that is spent is nearly spent, and stays so.
pub proof fn law_spent_budgets_stay_spent(budget: RunBudget, now: int, later: int)
    requires
        now <= later,
    ensures
        budget.is_spent(now) ==> budget.is_nearly_spent(now) && budget.is_spent(later),
        budget.is_nearly_spent(now) ==> budget.is_nearly_spent(later),
{
}

/// A budget is spent when its seconds are over, and nearly spent when no more than five of them
/// are left.
pub proof fn law_budgets_end_on_time(budget: RunBudget, elapsed_nanos: int)
    ensures
        budget.is_spent(elapsed_nanos) <==> elapsed_nanos >= budget.total_seconds * 1_000_000_000,
        budget.is_nearly_spent(elapsed_nanos) <==> budget.total_seconds * 1_000_000_000
            - elapsed_nanos <= 5_000_000_000,
{
}

// ---------------------------------------------------------------------------
// Isolation
// ---------------------------------------------------------------------------
/// A copy of a project in which a mutant is tried.
#[derive(Debug)]
pub struct IsolatedMutationRoot {
    path: String,
}

impl IsolatedMutationRoot {
    /// Where the copy is.
    pub closed spec fn location(&self) -> Seq<char> {
        self.path@
    }

    /// A copy at a path.
    pub fn at(path: String) -> (r: Self)
        ensures
            r.location() == path@,
    {
        IsolatedMutationRoot { path }
    }

    /// Where the copy is.
    pub fn path(&self) -> (r: &str)
        ensures
            r@ == self.location(),
    {
        self.path.as_str()
    }
}

/// The name of the directory in which a mutant is tried.
pub open spec fn isolated_root_name_text(
    language: Seq<char>,
    process: u32,
    index: usize,
    nanos: u128,
) -> Seq<char> {
    let t = "veritas-"@
        + language
        + "-mutation-"@
        + decimal(process as int)
        + "-"@
        + decimal(index as int)
        + "-"@
        + decimal(nanos as int);
    t
}

/// The name of the directory in which a mutant is tried.
pub fn isolated_root_name(
    language: &str,
    process: u32,
    index: usize,
    nanos: u128,
) -> (r: String)
    ensures
        r@ == isolated_root_name_text(language@, process, index, nanos),
{
    let mut out = owned("veritas-");
    out.append(language);
    out.append("-mutation-");
    out.append(print_u32(process).as_str());
    out.append("-");
    out.append(print_usize(index).as_str());
    out.append("-");
    out.append(print_u128(nanos).as_str());
    out
}

/// The entries of a project that are not copied.
pub open spec fn left_out(name: Seq<char>) -> bool {
    ||| name == ".git"@
    ||| name == ".hg"@
    ||| name == ".svn"@
    ||| name == ".veritas"@
    ||| name == "target"@
    ||| name == "node_modules"@
    ||| name == ".next"@
    ||| name == "dist"@
    ||| name == "build"@
    ||| name == ".cache"@
    ||| name == ".direnv"@
    ||| name == ".mypy_cache"@
    ||| name == ".pytest_cache"@
    ||| name == ".ruff_cache"@
    ||| name == ".tox"@
    ||| name == ".venv"@
    ||| name == "__pycache__"@
    ||| name == "coverage"@
    ||| name == "tmp"@
    ||| name == "venv"@
}

/// Whether an entry of a project is not copied.
pub fn excluded_isolation_entry(name: &str) -> (r: bool)
    ensures
        r == left_out(name@),
{
    same(name, ".git")
        || same(name, ".hg")
        || same(name, ".svn")
        || same(name, ".veritas")
        || same(name, "target")
        || same(name, "node_modules")
        || same(name, ".next")
        || same(name, "dist")
        || same(name, "build")
        || same(name, ".cache")
        || same(name, ".direnv")
        || same(name, ".mypy_cache")
        || same(name, ".pytest_cache")
        || same(name, ".ruff_cache")
        || same(name, ".tox")
        || same(name, ".venv")
        || same(name, "__pycache__")
        || same(name, "coverage")
        || same(name, "tmp")
        || same(name, "venv")
}

// ---------------------------------------------------------------------------
// Cleaning up
// ---------------------------------------------------------------------------
/// Whether a directory is not searched for generated files.
pub open spec fn unsearched(name: Seq<char>) -> bool {
    ||| name == ".git"@
    ||| name == ".veritas"@
    ||| name == "target"@
    ||| name == "vendor"@
    ||| name == "node_modules"@
}

/// Whether a directory is not searched for generated files.
pub fn should_skip_cleanup_dir(name: &str) -> (r: bool)
    ensures
        r == unsearched(name@),
{
    same(name, ".git") || same(name, ".veritas") || same(name, "target") || same(name, "vendor")
        || same(name, "node_modules")
}

/// Whether a file is a generated regression test: one of Rust in a `tests` directory, or
/// one of Go anywhere.
pub open spec fn generated_regression(name: Seq<char>, parent: Option<Seq<char>>) -> bool {
    starts(name, "veritas_regression_"@) && ((ends(name, ".rs"@) && parent == Some("tests"@))
        || ends(name, "_test.go"@))
}

fn in_tests(parent: &Option<String>) -> (r: bool)
    ensures
        r == (parent.deep_view() == Some("tests"@)),
{
    match parent {
        Some(name) => same(name.as_str(), "tests"),
        None => false,
    }
}

/// Whether a file is a generated regression test.
pub fn is_generated_regression_file(name: &str, parent: &Option<String>) -> (r: bool)
    ensures
        r == generated_regression(name@, parent.deep_view()),
{
    starts_with(name, "veritas_regression_") && ((ends_with(name, ".rs") && in_tests(parent))
        || ends_with(name, "_test.go"))
}

/// What a search for generated files does with an entry.
#[derive(Debug, Clone, Copy, PartialEq, Eq, Structural)]
pub enum CleanupStep {
    Skip,
    Take,
    Descend,
}

/// What a search for generated files does with an entry: directories of generated tests
/// and generated files are taken, other directories searched, unless they are passed
/// over, and other files left alone.
pub open spec fn step_for(
    name: Seq<char>,
    parent: Option<Seq<char>>,
    directory: bool,
) -> CleanupStep {
    if directory {
        if unsearched(name) {
            CleanupStep::Skip
        } else if (name == "veritas_generated"@ || name == "veritas_regressions"@) && parent
            == Some("tests"@) {
            CleanupStep::Take
        } else {
            CleanupStep::Descend
        }
    } else if name == "veritas_fuzz_test.go"@ || generated_regression(name, parent) || (name
        == "veritas_generated.rs"@ && parent == Some("tests"@)) {
        CleanupStep::Take
    } else {
        CleanupStep::Skip
    }
}

/// What a search for generated files does with an entry.
pub fn cleanup_step(name: &str, parent: &Option<String>, directory: bool) -> (r: CleanupStep)
    ensures
        r == step_for(name@, parent.deep_view(), directory),
{
    if directory {
        if should_skip_cleanup_dir(name) {
            CleanupStep::Skip
        } else if (same(name, "veritas_generated") || same(name, "veritas_regressions"))
            && in_tests(parent) {
            CleanupStep::Take
        } else {
            CleanupStep::Descend
        }
    } else if same(name, "veritas_fuzz_test.go") || is_generated_regression_file(name, parent) || (
    same(name, "veritas_generated.rs") && in_tests(parent)) {
        CleanupStep::Take
    } else {
        CleanupStep::Skip
    }
}

/// What a cleanup removes: the paths that were found, in order, each once.
pub fn cleanup_generated_artifacts(paths: &Vec<String>, dry_run: bool) -> (r: CleanupSummary)
    ensures
        r.deep_view() == (CleanupSummaryModel {
            dry_run,
            paths: sorted_set::<ByPath>(paths.deep_view()),
        }),
{
    CleanupSummary { dry_run, paths: to_sorted_set::<ByPath>(paths) }
}

/// An entry of a project: the names from the root to it, and whether it is a directory.
#[derive(Debug, PartialEq, Eq)]
pub struct ListedEntry {
    pub names: Vec<String>,
    pub directory: bool,
}

/// The mathematical value of a `ListedEntry`.
pub struct ListedEntryModel {
    pub names: Seq<Seq<char>>,
    pub directory: bool,
}

impl DeepView for ListedEntry {
    type V = ListedEntryModel;

    open spec fn deep_view(&self) -> ListedEntryModel {
        ListedEntryModel { names: self.names.deep_view(), directory: self.directory }
    }
}

/// The name of the directory that the name at a place is in: the root's for the first.
pub open spec fn holder(names: Seq<Seq<char>>, place: int, root: Option<Seq<char>>) -> Option<
    Seq<char>,
> {
    if place <= 0 {
        root
    } else {
        Some(names[place - 1])
    }
}

/// Whether the search comes to the name at a place: every directory before it is searched.
pub open spec fn search_reaches(
    names: Seq<Seq<char>>,
    place: int,
    root: Option<Seq<char>>,
) -> bool {
    forall|k: int|
        0 <= k < place ==> step_for(#[trigger] names[k], holder(names, k, root), true)
            == CleanupStep::Descend
}

/// Whether a cleanup takes an entry: it is the directory of the tool, or the search comes to
/// it and takes it.
pub open spec fn is_taken(entry: ListedEntryModel, root: Option<Seq<char>>) -> bool {
    let last = entry.names.len() - 1;
    ||| entry.names == seq![".veritas"@]
    ||| entry.names.len() > 0 && search_reaches(entry.names, last, root) && step_for(
        entry.names[last],
        holder(entry.names, last, root),
        entry.directory,
    ) == CleanupStep::Take
}

fn entry_step(names: &Vec<String>, place: usize, root: &Option<String>, directory: bool) -> (r:
    CleanupStep)
    requires
        place < names@.len(),
    ensures
        r == step_for(
            names.deep_view()[place as int],
            holder(names.deep_view(), place as int, root.deep_view()),
            directory,
        ),
{
    assert(names.deep_view()[place as int] == names@[place as int]@);
    if place == 0 {
        cleanup_step(names[place].as_str(), root, directory)
    } else {
        assert(names.deep_view()[place - 1] == names@[place - 1]@);
        let before = Some(owned(names[place - 1].as_str()));
        cleanup_step(names[place].as_str(), &before, directory)
    }
}

/// Whether a cleanup takes an entry.
pub fn cleanup_takes(entry: &ListedEntry, root: &Option<String>) -> (r: bool)
    ensures
        r == is_taken(entry.deep_view(), root.deep_view()),
{
    let ghost names = entry.names.deep_view();
    assert(names.len() == entry.names@.len());
    let n: usize = entry.names.len();
    if n == 0 {
        assert(seq![".veritas"@].len() == 1);
        return false;
    }
    if n == 1 {
        assert(names[0] == entry.names@[0]@);
        if same(entry.names[0].as_str(), ".veritas") {
            assert(names =~= seq![".veritas"@]);
            return true;
        }
    }
    assert(names != seq![".veritas"@]) by {
        if names == seq![".veritas"@] {
            assert(names.len() == 1 && names[0] == ".veritas"@);
        }
    }
    let mut k: usize = 0;
    while k < n - 1
        invariant
            k <= n - 1,
            n == entry.names@.len(),
            names == entry.names.deep_view(),
            names.len() == n,
            names != seq![".veritas"@],
            search_reaches(names, k as int, root.deep_view()),
        decreases n - k,
    {
        if entry_step(&entry.names, k, root, true) != CleanupStep::Descend {
            assert(!search_reaches(names, n - 1, root.deep_view())) by {
                assert(step_for(
                    names[k as int],
                    holder(names, k as int, root.deep_view()),
                    true,
                ) != CleanupStep::Descend);
            }
            return false;
        }
        k = k + 1;
    }
    entry_step(&entry.names, n - 1, root, entry.directory) == CleanupStep::Take
}

/// The paths of the entries that a cleanup takes.
pub open spec fn taken_paths(entries: Seq<ListedEntryModel>, root: Option<Seq<char>>) -> Seq<
    Seq<char>,
>
    decreases entries.len(),
{
    if entries.len() == 0 {
        Seq::empty()
    } else {
        let before = taken_paths(entries.drop_last(), root);
        if is_taken(entries.last(), root) {
            before.push(joined(entries.last().names, "/"@))
        } else {
            before
        }
    }
}

/// The paths of the entries of a project that a cleanup takes.
pub fn generated_artifact_paths(entries: &Vec<ListedEntry>, root: &Option<String>) -> (r: Vec<
    String,
>)
    ensures
        r.deep_view() == taken_paths(entries.deep_view(), root.deep_view()),
{
    let mut out: Vec<String> = Vec::new();
    let ghost all = entries.deep_view();
    let mut i: usize = 0;
    assert(out.deep_view() == taken_paths(all.take(0), root.deep_view()));
    while i < entries.len()
        invariant
            i <= entries@.len(),
            all == entries.deep_view(),
            out.deep_view() == taken_paths(all.take(i as int), root.deep_view()),
        decreases entries@.len() - i,
    {
        proof {
            lemma_take_next(all, i as int);
        }
        if cleanup_takes(&entries[i], root) {
            push_text(&mut out, join(&entries[i].names, "/"));
        }
        i = i + 1;
    }
    proof {
        lemma_take_all(all);
    }
    out
}

/// Whether an entry is at or below one that a cleanup takes.
pub open spec fn is_removed(
    entry: ListedEntryModel,
    entries: Seq<ListedEntryModel>,
    root: Option<Seq<char>>,
) -> bool {
    exists|i: int|
        0 <= i < entries.len() && is_taken(#[trigger] entries[i], root)
            && entries[i].names.is_prefix_of(entry.names)
}

/// The entries of a project after a cleanup; a dry run leaves them all.
pub open spec fn entries_after(
    entries: Seq<ListedEntryModel>,
    root: Option<Seq<char>>,
    dry_run: bool,
) -> Seq<ListedEntryModel> {
    if dry_run {
        entries
    } else {
        entries.filter(|entry: ListedEntryModel| !is_removed(entry, entries, root))
    }
}

proof fn lemma_taken_paths(entries: Seq<ListedEntryModel>, root: Option<Seq<char>>)
    ensures
        taken_paths(entries, root).len() == 0 <==> (forall|i: int|
            0 <= i < entries.len() ==> !is_taken(#[trigger] entries[i], root)),
    decreases entries.len(),
{
    if entries.len() > 0 {
        let rest = entries.drop_last();
        lemma_taken_paths(rest, root);
        assert(entries.last() == entries[entries.len() - 1]);
        assert forall|i: int| 0 <= i < rest.len() implies rest[i] == #[trigger] entries[i] by {
        }
        if taken_paths(entries, root).len() == 0 {
            assert forall|i: int| 0 <= i < entries.len() implies !is_taken(
                #[trigger] entries[i],
                root,
            ) by {
                if i < rest.len() {
                    assert(!is_taken(rest[i], root));
                }
            }
        }
        if forall|i: int| 0 <= i < entries.len() ==> !is_taken(#[trigger] entries[i], root) {
            assert forall|i: int| 0 <= i < rest.len() implies !is_taken(
                #[trigger] rest[i],
                root,
            ) by {
                assert(rest[i] == entries[i]);
            }
        }
    }
}

/// A second cleanup finds nothing, and a dry run changes nothing.
pub proof fn law_cleanup_leaves_nothing_to_clean(
    entries: Seq<ListedEntryModel>,
    root: Option<Seq<char>>,
)
    ensures
        taken_paths(entries_after(entries, root, false), root).len() == 0,
        entries_after(entries_after(entries, root, false), root, false) == entries_after(
            entries,
            root,
            false,
        ),
        entries_after(entries, root, true) == entries,
{
    broadcast use vstd::seq_lib::group_filter_ensures;

    let kept = |entry: ListedEntryModel| !is_removed(entry, entries, root);
    let left = entries.filter(kept);
    assert forall|i: int| 0 <= i < left.len() implies !is_taken(#[trigger] left[i], root) by {
        lemma_filter_adds_nothing(entries, kept, i);
        let k = choose|k: int| 0 <= k < entries.len() && entries[k] == left[i];
        assert(entries[k] == left[i]);
        if is_taken(left[i], root) {
            assert(entries[k].names.is_prefix_of(left[i].names));
            assert(is_removed(left[i], entries, root));
            assert(kept(left[i]));
        }
    }
    lemma_taken_paths(left, root);
    let kept_again = |entry: ListedEntryModel| !is_removed(entry, left, root);
    lemma_filter_keeps_all(left, kept_again);
}

proof fn lemma_filter_adds_nothing<A>(items: Seq<A>, keep: spec_fn(A) -> bool, i: int)
    requires
        0 <= i < items.filter(keep).len(),
    ensures
        items.contains(items.filter(keep)[i]),
    decreases items.len(),
{
    reveal(Seq::filter);
    if items.len() > 0 {
        let rest = items.drop_last();
        if i < rest.filter(keep).len() {
            lemma_filter_adds_nothing(rest, keep, i);
            let k = choose|k: int| 0 <= k < rest.len() && rest[k] == rest.filter(keep)[i];
            assert(items[k] == items.filter(keep)[i]);
        } else {
            assert(items[items.len() - 1] == items.filter(keep)[i]);
        }
    }
}

proof fn lemma_filter_keeps_all<A>(items: Seq<A>, keep: spec_fn(A) -> bool)
    requires
        forall|i: int| 0 <= i < items.len() ==> keep(#[trigger] items[i]),
    ensures
        items.filter(keep) == items,
    decreases items.len(),
{
    reveal(Seq::filter);
    if items.len() > 0 {
        let rest = items.drop_last();
        assert forall|i: int| 0 <= i < rest.len() implies keep(#[trigger] rest[i]) by {
            assert(rest[i] == items[i]);
        }
        lemma_filter_keeps_all(rest, keep);
        assert(keep(items[items.len() - 1]));
        assert(rest.push(items.last()) =~= items);
    }
}

/// A cleanup removes nothing but what it takes and what is below that: every other entry
/// stays, and nothing is added.
pub proof fn law_cleanup_removes_nothing_else(
    entries: Seq<ListedEntryModel>,
    root: Option<Seq<char>>,
    entry: ListedEntryModel,
)
    ensures
        entries_after(entries, root, false).contains(entry) <==> entries.contains(entry)
            && !is_removed(entry, entries, root),
{
    broadcast use vstd::seq_lib::group_filter_ensures;

    let kept = |entry: ListedEntryModel| !is_removed(entry, entries, root);
    let left = entries.filter(kept);
    if entries.contains(entry) && kept(entry) {
        let k = choose|k: int| 0 <= k < entries.len() && entries[k] == entry;
        assert(left.contains(entries[k]));
    }
    if left.contains(entry) {
        let i = choose|i: int| 0 <= i < left.len() && left[i] == entry;
        assert(kept(left[i]));
        lemma_filter_adds_nothing(entries, kept, i);
    }
}

/// Whether a listing puts nothing below a file.
pub open spec fn files_are_leaves(entries: Seq<ListedEntryModel>) -> bool {
    forall|i: int, j: int|
        0 <= i < entries.len() && 0 <= j < entries.len() && (#[trigger] entries[i]).names.len() < (
        #[trigger] entries[j]).names.len() && entries[i].names.is_prefix_of(entries[j].names)
            ==> entries[i].directory
}

/// What is below a directory of the version control, of a build or of a dependency stays,
/// wherever the search meets the directory.
pub proof fn law_cleanup_keeps_what_it_does_not_search(
    entries: Seq<ListedEntryModel>,
    root: Option<Seq<char>>,
    entry: ListedEntryModel,
    place: int,
)
    requires
        files_are_leaves(entries),
        entries.contains(entry),
        0 <= place < entry.names.len() - 1,
        search_reaches(entry.names, place, root),
        unsearched(entry.names[place]),
        entry.names[0] != ".veritas"@,
    ensures
        entries_after(entries, root, false).contains(entry),
{
    if is_removed(entry, entries, root) {
        let i = choose|i: int|
            0 <= i < entries.len() && is_taken(#[trigger] entries[i], root)
                && entries[i].names.is_prefix_of(entry.names);
        let j = choose|j: int| 0 <= j < entries.len() && entries[j] == entry;
        let taken = entries[i];
        let names = entry.names;
        assert(taken.names =~= names.take(taken.names.len() as int));
        if taken.names == seq![".veritas"@] {
            assert(taken.names[0] == names[0]);
        } else {
            let last = taken.names.len() - 1;
            assert(taken.names[last] == names[last]);
            assert(holder(taken.names, last, root) == holder(names, last, root));
            if last <= place {
                assert(entries[i].names.len() < entries[j].names.len());
                assert(taken.directory);
                if last < place {
                    assert(step_for(names[last], holder(names, last, root), true)
                        == CleanupStep::Descend);
                }
            } else {
                assert(taken.names[place] == names[place]);
                assert(holder(taken.names, place, root) == holder(names, place, root));
                assert(step_for(taken.names[place], holder(taken.names, place, root), true)
                    == CleanupStep::Descend);
            }
        }
    }
    law_cleanup_removes_nothing_else(entries, root, entry);
}

/// A dry run names the paths that the cleanup then takes, in strictly ascending order.
pub proof fn law_dry_runs_name_what_is_taken(
    entries: Seq<ListedEntryModel>,
    root: Option<Seq<char>>,
)
    ensures
        sorted_set::<ByPath>(taken_paths(entries_after(entries, root, true), root))
            == sorted_set::<ByPath>(taken_paths(entries, root)),
        ascending::<ByPath>(sorted_set::<ByPath>(taken_paths(entries, root))),
{
    law_cleanup_paths_are_ordered(taken_paths(entries, root));
}

/// A cleanup removes paths in order, and no path twice.
pub proof fn law_cleanup_paths_are_ordered(paths: Seq<Seq<char>>)
    ensures
        ascending::<ByPath>(sorted_set::<ByPath>(paths)),
{
    lemma_sorted_set_ascending::<ByPath>(paths);
}

/// A cleanup never takes a file of the version control, of the tool, of a build or of a
/// dependency, since it does not search there.
pub proof fn law_cleanup_stays_out(parent: Option<Seq<char>>)
    ensures
        step_for(".git"@, parent, true) == CleanupStep::Skip,
        step_for(".veritas"@, parent, true) == CleanupStep::Skip,
        step_for("target"@, parent, true) == CleanupStep::Skip,
        step_for("vendor"@, parent, true) == CleanupStep::Skip,
        step_for("node_modules"@, parent, true) == CleanupStep::Skip,
{
}

} // verus!
