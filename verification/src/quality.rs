//! The quality of a report, measured from its runs, artifacts and findings.
use vstd::prelude::*;

use crate::api::{
    ArtifactKind, CommandRecord, CommandRecordModel, GeneratedArtifact, GeneratedArtifactModel,
    ReproCase, RunStatus, TestRunResult, TestRunResultModel, VerificationReport,
    VerificationReportModel,
};
use crate::attribution::{
    attribute, attribution, attribution_fits, can_compute_percentages, can_compute_strength,
    entries_fit, finalize_mutation_percentages, percentages_fit, property_strength,
    property_strength_score, strength_fits, with_percentages,
};
use crate::evolution::{
    artifact_kind_in, artifacts_of_kind, candidate_metrics, evolution_metrics_from_artifacts,
    held_candidates, records_of_runs, run_records,
};
use crate::generated::{generated_failures, generated_failures_of};
use crate::json::{as_array, at, parse, parsed_json, Json, JsonModel};
use crate::metrics::{
    append_attribution_entries, clone_attribution_entries, no_mutation, AttributionEntry,
    AttributionEntryModel, BudgetMetrics, FuzzMetrics, MutationAttribution, MutationMetrics,
    MutationMetricsModel, PropertyMetrics, RegressionMetrics, ReplayMetrics, VerificationQuality,
    VerificationQualityModel,
};
use crate::records::{AssertionCandidate, CorpusEntry, EvolutionSuite};
use crate::seqs::{lemma_take_all, lemma_take_next};
use crate::text::{chars_of, clone_text, contains, find_from, find_index, has_text};

verus! {

// ---------------------------------------------------------------------------
// Counts over runs
// ---------------------------------------------------------------------------
/// A count that runs report and a report adds up.
#[derive(Clone, Copy, PartialEq, Eq, Structural)]
pub enum RunCount {
    Generated,
    Runnable,
    Executed,
    Killed,
    Survived,
    NotCovered,
    TimedOut,
    NotViable,
    Skipped,
    IsolationFailures,
    FuzzTargets,
    FuzzFailures,
    CorpusReplayed,
    CorpusPassed,
    CorpusFailed,
    CorpusSkipped,
}

/// A count of one run.
pub open spec fn count_in_run(run: TestRunResultModel, which: RunCount) -> usize {
    match which {
        RunCount::Generated => run.quality.mutation.generated,
        RunCount::Runnable => run.quality.mutation.runnable,
        RunCount::Executed => run.quality.mutation.executed,
        RunCount::Killed => run.quality.mutation.killed,
        RunCount::Survived => run.quality.mutation.survived,
        RunCount::NotCovered => run.quality.mutation.not_covered,
        RunCount::TimedOut => run.quality.mutation.timed_out,
        RunCount::NotViable => run.quality.mutation.not_viable,
        RunCount::Skipped => run.quality.mutation.skipped,
        RunCount::IsolationFailures => run.quality.mutation.isolation_failures,
        RunCount::FuzzTargets => run.quality.fuzz.targets_executed,
        RunCount::FuzzFailures => run.quality.fuzz.failures,
        RunCount::CorpusReplayed => run.quality.regression.corpus_replayed,
        RunCount::CorpusPassed => run.quality.regression.corpus_passed,
        RunCount::CorpusFailed => run.quality.regression.corpus_failed,
        RunCount::CorpusSkipped => run.quality.regression.corpus_skipped,
    }
}

fn run_count(run: &TestRunResult, which: RunCount) -> (r: usize)
    ensures
        r == count_in_run(run.deep_view(), which),
{
    match which {
        RunCount::Generated => run.quality.mutation.generated,
        RunCount::Runnable => run.quality.mutation.runnable,
        RunCount::Executed => run.quality.mutation.executed,
        RunCount::Killed => run.quality.mutation.killed,
        RunCount::Survived => run.quality.mutation.survived,
        RunCount::NotCovered => run.quality.mutation.not_covered,
        RunCount::TimedOut => run.quality.mutation.timed_out,
        RunCount::NotViable => run.quality.mutation.not_viable,
        RunCount::Skipped => run.quality.mutation.skipped,
        RunCount::IsolationFailures => run.quality.mutation.isolation_failures,
        RunCount::FuzzTargets => run.quality.fuzz.targets_executed,
        RunCount::FuzzFailures => run.quality.fuzz.failures,
        RunCount::CorpusReplayed => run.quality.regression.corpus_replayed,
        RunCount::CorpusPassed => run.quality.regression.corpus_passed,
        RunCount::CorpusFailed => run.quality.regression.corpus_failed,
        RunCount::CorpusSkipped => run.quality.regression.corpus_skipped,
    }
}

/// A count added up over runs.
pub open spec fn count_in_runs(runs: Seq<TestRunResultModel>, which: RunCount) -> int
    decreases runs.len(),
{
    if runs.len() == 0 {
        0
    } else {
        count_in_runs(runs.drop_last(), which) + count_in_run(runs.last(), which)
    }
}

/// The sum, where it fits.
pub open spec fn fitting(n: int) -> Option<usize> {
    if 0 <= n <= usize::MAX {
        Some(n as usize)
    } else {
        None
    }
}

fn fit(n: u128) -> (r: Option<usize>)
    ensures
        r == fitting(n as int),
{
    if n <= usize::MAX as u128 {
        Some(n as usize)
    } else {
        None
    }
}

/// A sum of machine integers fits 128 bits.
pub proof fn lemma_wide_sum(total: u128, i: usize, more: usize)
    requires
        total <= i * usize::MAX,
        i < usize::MAX,
    ensures
        total + more <= (i + 1) * usize::MAX,
        total + more <= u128::MAX,
{
    assert((i + 1) * usize::MAX == i * usize::MAX + usize::MAX) by (nonlinear_arith);
    assert((i + 1) * usize::MAX <= usize::MAX * usize::MAX) by (nonlinear_arith)
        requires
            i < usize::MAX,
    ;
    assert(usize::MAX * usize::MAX <= u128::MAX) by (nonlinear_arith)
        requires
            usize::MAX <= 0xffff_ffff_ffff_ffffu64,
    ;
}

fn sum_of_runs(runs: &Vec<TestRunResult>, which: RunCount) -> (r: Option<usize>)
    ensures
        r == fitting(count_in_runs(runs.deep_view(), which)),
        count_in_runs(runs.deep_view(), which) >= 0,
{
    let ghost all = runs.deep_view();
    let mut total: u128 = 0;
    let mut i: usize = 0;
    while i < runs.len()
        invariant
            i <= runs@.len(),
            all == runs.deep_view(),
            total == count_in_runs(all.take(i as int), which),
            total <= i * usize::MAX,
        decreases runs@.len() - i,
    {
        let more = run_count(&runs[i], which);
        proof {
            lemma_take_next(all, i as int);
            lemma_wide_sum(total, i, more);
        }
        total = total + more as u128;
        i = i + 1;
    }
    proof {
        lemma_take_all(all);
    }
    fit(total)
}

/// The larger of two numbers.
pub open spec fn larger(a: usize, b: usize) -> usize {
    if a >= b {
        a
    } else {
        b
    }
}

/// The most workers that a run asked for, or had.
pub open spec fn most_workers(runs: Seq<TestRunResultModel>, effective: bool) -> usize
    decreases runs.len(),
{
    if runs.len() == 0 {
        0
    } else if effective {
        larger(
            most_workers(runs.drop_last(), effective),
            runs.last().quality.mutation.effective_workers,
        )
    } else {
        larger(
            most_workers(runs.drop_last(), effective),
            runs.last().quality.mutation.requested_workers,
        )
    }
}

fn max_workers(runs: &Vec<TestRunResult>, effective: bool) -> (r: usize)
    ensures
        r == most_workers(runs.deep_view(), effective),
{
    let ghost all = runs.deep_view();
    let mut most: usize = 0;
    let mut i: usize = 0;
    while i < runs.len()
        invariant
            i <= runs@.len(),
            all == runs.deep_view(),
            most == most_workers(all.take(i as int), effective),
        decreases runs@.len() - i,
    {
        proof {
            lemma_take_next(all, i as int);
        }
        let workers: usize = if effective {
            runs[i].quality.mutation.effective_workers
        } else {
            runs[i].quality.mutation.requested_workers
        };
        if workers > most {
            most = workers;
        }
        i = i + 1;
    }
    proof {
        lemma_take_all(all);
    }
    most
}

/// How many commands were skipped.
pub open spec fn skipped_in(items: Seq<CommandRecordModel>) -> int
    decreases items.len(),
{
    if items.len() == 0 {
        0
    } else {
        skipped_in(items.drop_last()) + if items.last().status == RunStatus::Skipped {
            1int
        } else {
            0int
        }
    }
}

fn commands_skipped(items: &Vec<CommandRecord>) -> (r: usize)
    ensures
        r == skipped_in(items.deep_view()),
        r <= items@.len(),
{
    let ghost all = items.deep_view();
    let mut n: usize = 0;
    let mut i: usize = 0;
    while i < items.len()
        invariant
            i <= items@.len(),
            n <= i,
            all == items.deep_view(),
            n == skipped_in(all.take(i as int)),
        decreases items@.len() - i,
    {
        proof {
            lemma_take_next(all, i as int);
        }
        if items[i].status == RunStatus::Skipped {
            n = n + 1;
        }
        i = i + 1;
    }
    proof {
        lemma_take_all(all);
    }
    n
}

/// Whether a command ran out of time.
pub open spec fn ran_out_of_time(command: CommandRecordModel) -> bool {
    has_text(command.stderr, "timed out"@) || has_text(command.stdout, "timed out"@)
}

/// How many commands ran out of time.
pub open spec fn timed_out_in(items: Seq<CommandRecordModel>) -> int
    decreases items.len(),
{
    if items.len() == 0 {
        0
    } else {
        timed_out_in(items.drop_last()) + if ran_out_of_time(items.last()) {
            1int
        } else {
            0int
        }
    }
}

fn commands_timed_out(items: &Vec<CommandRecord>) -> (r: usize)
    ensures
        r == timed_out_in(items.deep_view()),
        r <= items@.len(),
{
    let ghost all = items.deep_view();
    let mut n: usize = 0;
    let mut i: usize = 0;
    while i < items.len()
        invariant
            i <= items@.len(),
            n <= i,
            all == items.deep_view(),
            n == timed_out_in(all.take(i as int)),
        decreases items@.len() - i,
    {
        proof {
            lemma_take_next(all, i as int);
        }
        if contains(items[i].stderr.as_str(), "timed out") || contains(items[i].stdout.as_str(), "timed out") {
            n = n + 1;
        }
        i = i + 1;
    }
    proof {
        lemma_take_all(all);
    }
    n
}

/// How many commands of all runs were skipped.
pub open spec fn skipped_in_runs(runs: Seq<TestRunResultModel>) -> int
    decreases runs.len(),
{
    if runs.len() == 0 {
        0
    } else {
        skipped_in_runs(runs.drop_last()) + skipped_in(runs.last().commands)
    }
}

fn all_skipped(runs: &Vec<TestRunResult>) -> (r: Option<usize>)
    ensures
        r == fitting(skipped_in_runs(runs.deep_view())),
        skipped_in_runs(runs.deep_view()) >= 0,
{
    let ghost all = runs.deep_view();
    let mut total: u128 = 0;
    let mut i: usize = 0;
    while i < runs.len()
        invariant
            i <= runs@.len(),
            all == runs.deep_view(),
            total == skipped_in_runs(all.take(i as int)),
            total <= i * usize::MAX,
        decreases runs@.len() - i,
    {
        let more = commands_skipped(&runs[i].commands);
        proof {
            lemma_take_next(all, i as int);
            lemma_wide_sum(total, i, more);
        }
        total = total + more as u128;
        i = i + 1;
    }
    proof {
        lemma_take_all(all);
    }
    fit(total)
}

/// How many commands of all runs ran out of time.
pub open spec fn timed_out_in_runs(runs: Seq<TestRunResultModel>) -> int
    decreases runs.len(),
{
    if runs.len() == 0 {
        0
    } else {
        timed_out_in_runs(runs.drop_last()) + timed_out_in(runs.last().commands)
    }
}

fn all_timed_out(runs: &Vec<TestRunResult>) -> (r: Option<usize>)
    ensures
        r == fitting(timed_out_in_runs(runs.deep_view())),
        timed_out_in_runs(runs.deep_view()) >= 0,
{
    let ghost all = runs.deep_view();
    let mut total: u128 = 0;
    let mut i: usize = 0;
    while i < runs.len()
        invariant
            i <= runs@.len(),
            all == runs.deep_view(),
            total == timed_out_in_runs(all.take(i as int)),
            total <= i * usize::MAX,
        decreases runs@.len() - i,
    {
        let more = commands_timed_out(&runs[i].commands);
        proof {
            lemma_take_next(all, i as int);
            lemma_wide_sum(total, i, more);
        }
        total = total + more as u128;
        i = i + 1;
    }
    proof {
        lemma_take_all(all);
    }
    fit(total)
}

// ---------------------------------------------------------------------------
// Counts over artifacts
// ---------------------------------------------------------------------------
/// How often a word stands in a text from a place on, none of them overlapping.
pub open spec fn occurrences_from(s: Seq<char>, word: Seq<char>, from: int) -> int
    decreases s.len() + 1 - from,
{
    match find_from(s, word, from) {
        Some(i) => if word.len() > 0 && from <= i && i + word.len() <= s.len() {
            1 + occurrences_from(s, word, i + word.len())
        } else {
            0
        },
        None => 0,
    }
}

/// How often a word stands in a text.
pub fn occurrences(s: &str, word: &str) -> (r: usize)
    ensures
        r == occurrences_from(s@, word@, 0),
{
    let sc = chars_of(s);
    let wc = chars_of(word);
    let w: usize = wc.len();
    let mut n: usize = 0;
    let mut from: usize = 0;
    loop
        invariant
            sc@ == s@,
            wc@ == word@,
            w == word@.len(),
            from <= sc@.len(),
            n <= from,
            n + occurrences_from(s@, word@, from as int) == occurrences_from(s@, word@, 0),
        ensures
            n == occurrences_from(s@, word@, 0),
        decreases sc@.len() + 1 - from,
    {
        match find_index(&sc, &wc, from) {
            Some(i) => {
                if w == 0 || w > sc.len() - i {
                    break;
                }
                n = n + 1;
                from = i + w;
            },
            None => {
                break;
            },
        }
    }
    n
}

/// How often a word stands in the property tests among the artifacts.
pub open spec fn property_word(items: Seq<GeneratedArtifactModel>, word: Seq<char>) -> int
    decreases items.len(),
{
    if items.len() == 0 {
        0
    } else {
        property_word(items.drop_last(), word) + if items.last().kind
            == ArtifactKind::PropertyTest {
            occurrences_from(items.last().contents, word, 0)
        } else {
            0
        }
    }
}

fn word_in_properties(items: &Vec<GeneratedArtifact>, word: &str) -> (r: Option<usize>)
    ensures
        r == fitting(property_word(items.deep_view(), word@)),
        property_word(items.deep_view(), word@) >= 0,
{
    let ghost all = items.deep_view();
    let mut total: u128 = 0;
    let mut i: usize = 0;
    while i < items.len()
        invariant
            i <= items@.len(),
            all == items.deep_view(),
            total == property_word(all.take(i as int), word@),
            total <= i * usize::MAX,
        decreases items@.len() - i,
    {
        let more: usize = if items[i].kind == ArtifactKind::PropertyTest {
            occurrences(items[i].contents.as_str(), word)
        } else {
            0
        };
        proof {
            lemma_take_next(all, i as int);
            lemma_wide_sum(total, i, more);
        }
        total = total + more as u128;
        i = i + 1;
    }
    proof {
        lemma_take_all(all);
    }
    fit(total)
}

/// What replay manifests plan: targets, and cases of all of them.
#[derive(Clone, Copy, PartialEq, Eq, Structural)]
pub struct ReplayPlan {
    pub targets: usize,
    pub cases: usize,
}

/// How many cases the targets of a replay manifest have.
pub open spec fn cases_of_targets(targets: Seq<JsonModel>) -> int
    decreases targets.len(),
{
    if targets.len() == 0 {
        0
    } else {
        cases_of_targets(targets.drop_last()) + match as_array(at(targets.last(), "cases"@)) {
            Some(cases) => cases.len() as int,
            None => 0,
        }
    }
}

/// The targets of a replay manifest.
pub open spec fn manifest_targets(contents: Seq<char>) -> Seq<JsonModel> {
    match parsed_json(contents) {
        Some(value) => match as_array(at(value, "targets"@)) {
            Some(targets) => targets,
            None => Seq::empty(),
        },
        None => Seq::empty(),
    }
}

/// How many targets the replay manifests among the artifacts have.
pub open spec fn replay_targets(items: Seq<GeneratedArtifactModel>) -> int
    decreases items.len(),
{
    if items.len() == 0 {
        0
    } else {
        replay_targets(items.drop_last()) + if items.last().kind
            == ArtifactKind::DifferentialReplay {
            manifest_targets(items.last().contents).len() as int
        } else {
            0
        }
    }
}

/// How many cases the replay manifests among the artifacts have.
pub open spec fn replay_cases(items: Seq<GeneratedArtifactModel>) -> int
    decreases items.len(),
{
    if items.len() == 0 {
        0
    } else {
        replay_cases(items.drop_last()) + if items.last().kind
            == ArtifactKind::DifferentialReplay {
            cases_of_targets(manifest_targets(items.last().contents))
        } else {
            0
        }
    }
}

proof fn lemma_cases_grow(targets: Seq<JsonModel>, i: int)
    requires
        0 <= i <= targets.len(),
    ensures
        0 <= cases_of_targets(targets.take(i)) <= cases_of_targets(targets),
    decreases targets.len(), targets.len() - i,
{
    if i == targets.len() {
        lemma_take_all(targets);
        if i > 0 {
            lemma_cases_grow(targets.drop_last(), i - 1);
            lemma_take_all(targets.drop_last());
        }
    } else {
        lemma_take_next(targets, i);
        lemma_cases_grow(targets, i + 1);
        if i > 0 {
            lemma_cases_grow(targets.take(i), i);
            lemma_take_all(targets.take(i));
        }
    }
}

/// The number of cases of targets, where it fits.
fn count_cases(targets: &Vec<Json>) -> (r: Option<usize>)
    ensures
        r == fitting(cases_of_targets(targets.deep_view())),
{
    let ghost all = targets.deep_view();
    let mut total: usize = 0;
    let mut i: usize = 0;
    while i < targets.len()
        invariant
            i <= targets@.len(),
            all == targets.deep_view(),
            total == cases_of_targets(all.take(i as int)),
        decreases targets@.len() - i,
    {
        proof {
            lemma_take_next(all, i as int);
            lemma_cases_grow(all, i + 1);
        }
        let more: usize = match targets[i].get("cases") {
            Some(cases) => match cases.as_list() {
                Some(list) => {
                    assert(list@.len() == list.deep_view().len());
                    list.len()
                },
                None => 0,
            },
            None => 0,
        };
        match total.checked_add(more) {
            Some(sum) => {
                total = sum;
            },
            None => {
                return None;
            },
        }
        i = i + 1;
    }
    proof {
        lemma_take_all(all);
        lemma_cases_grow(all, all.len() as int);
    }
    Some(total)
}

proof fn lemma_replay_grows(items: Seq<GeneratedArtifactModel>, i: int)
    requires
        0 <= i <= items.len(),
    ensures
        0 <= replay_cases(items.take(i)) <= replay_cases(items),
        0 <= replay_targets(items.take(i)) <= replay_targets(items),
    decreases items.len(), items.len() - i,
{
    if i == items.len() {
        lemma_take_all(items);
        if i > 0 {
            lemma_replay_grows(items.drop_last(), i - 1);
            lemma_take_all(items.drop_last());
            let t = manifest_targets(items.last().contents);
            lemma_cases_grow(t, 0);
            assert(t.take(0).len() == 0);
        }
    } else {
        lemma_take_next(items, i);
        lemma_replay_grows(items, i + 1);
        let t = manifest_targets(items[i].contents);
        lemma_cases_grow(t, 0);
        assert(t.take(0).len() == 0);
        if i > 0 {
            lemma_replay_grows(items.take(i), i);
            lemma_take_all(items.take(i));
        }
    }
}

/// What the replay manifests among the artifacts plan, where the numbers fit.
pub open spec fn replay_plan(items: Seq<GeneratedArtifactModel>) -> Option<ReplayPlan> {
    if replay_targets(items) <= usize::MAX && replay_cases(items) <= usize::MAX {
        Some(
            ReplayPlan {
                targets: replay_targets(items) as usize,
                cases: replay_cases(items) as usize,
            },
        )
    } else {
        None
    }
}

/// What a replay manifest plans, where the numbers fit.
fn count_manifest(contents: &str) -> (r: Option<ReplayPlan>)
    ensures
        r matches Some(plan) ==> plan.targets == manifest_targets(contents@).len() && plan.cases
            == cases_of_targets(manifest_targets(contents@)),
        r is None ==> cases_of_targets(manifest_targets(contents@)) > usize::MAX,
{
    match parse(contents) {
        Some(value) => match value.get("targets") {
            Some(targets) => match targets.as_list() {
                Some(list) => {
                    assert(list@.len() == list.deep_view().len());
                    proof {
                        lemma_cases_grow(list.deep_view(), 0);
                    }
                    match count_cases(list) {
                        Some(cases) => Some(ReplayPlan { targets: list.len(), cases }),
                        None => None,
                    }
                },
                None => Some(ReplayPlan { targets: 0, cases: 0 }),
            },
            None => Some(ReplayPlan { targets: 0, cases: 0 }),
        },
        None => Some(ReplayPlan { targets: 0, cases: 0 }),
    }
}

/// What the replay manifests among the artifacts plan, where the numbers fit.
pub fn count_replay_plan(items: &Vec<GeneratedArtifact>) -> (r: Option<ReplayPlan>)
    ensures
        r == replay_plan(items.deep_view()),
{
    let ghost all = items.deep_view();
    let mut targets: usize = 0;
    let mut cases: usize = 0;
    let mut i: usize = 0;
    while i < items.len()
        invariant
            i <= items@.len(),
            all == items.deep_view(),
            targets == replay_targets(all.take(i as int)),
            cases == replay_cases(all.take(i as int)),
        decreases items@.len() - i,
    {
        proof {
            lemma_take_next(all, i as int);
            lemma_replay_grows(all, i + 1);
        }
        if items[i].kind == ArtifactKind::DifferentialReplay {
            match count_manifest(items[i].contents.as_str()) {
                Some(plan) => {
                    match (targets.checked_add(plan.targets), cases.checked_add(plan.cases)) {
                        (Some(t), Some(c)) => {
                            targets = t;
                            cases = c;
                        },
                        _ => {
                            return None;
                        },
                    }
                },
                None => {
                    return None;
                },
            }
        }
        i = i + 1;
    }
    proof {
        lemma_take_all(all);
    }
    Some(ReplayPlan { targets, cases })
}

// ---------------------------------------------------------------------------
// Labels of surviving mutants
// ---------------------------------------------------------------------------
/// The domain and the operator that a surviving mutant is counted under.
#[derive(Debug, PartialEq, Eq)]
pub struct MutantLabels {
    pub domain: String,
    pub operator: String,
}

/// The mathematical value of a `MutantLabels`.
pub struct MutantLabelsModel {
    pub domain: Seq<char>,
    pub operator: Seq<char>,
}

impl DeepView for MutantLabels {
    type V = MutantLabelsModel;

    open spec fn deep_view(&self) -> MutantLabelsModel {
        MutantLabelsModel {
            domain: self.domain@,
            operator: self.operator@,
        }
    }
}

impl Clone for MutantLabels {
    fn clone(&self) -> (r: Self)
        ensures
            r.deep_view() == self.deep_view(),
    {
        MutantLabels {
            domain: self.domain.clone(),
            operator: self.operator.clone(),
        }
    }
}

/// One surviving mutant.
pub open spec fn one_survivor() -> MutationAttribution {
    MutationAttribution {
        generated: 0,
        runnable: 0,
        executed: 0,
        killed: 0,
        survived: 1,
        not_covered: 0,
        timed_out: 0,
        not_viable: 0,
        skipped: 0,
    }
}

/// An entry for each surviving mutant, under its domain or its operator.
pub open spec fn survivor_entries(labels: Seq<MutantLabelsModel>, by_domain: bool) -> Seq<
    AttributionEntryModel,
> {
    labels.map_values(
        |l: MutantLabelsModel|
            AttributionEntryModel {
                label: if by_domain {
                    l.domain
                } else {
                    l.operator
                },
                counts: one_survivor(),
            },
    )
}

fn entries_of_survivors(labels: &Vec<MutantLabels>, by_domain: bool) -> (r: Vec<AttributionEntry>)
    ensures
        r.deep_view() == survivor_entries(labels.deep_view(), by_domain),
{
    let ghost all = labels.deep_view();
    let mut out: Vec<AttributionEntry> = Vec::new();
    let mut i: usize = 0;
    while i < labels.len()
        invariant
            i <= labels@.len(),
            all == labels.deep_view(),
            out@.len() == i,
            forall|k: int|
                0 <= k < i ==> (#[trigger] out@[k]).deep_view() == survivor_entries(
                    all,
                    by_domain,
                )[k],
        decreases labels@.len() - i,
    {
        let label = if by_domain {
            labels[i].domain.clone()
        } else {
            labels[i].operator.clone()
        };
        let mut counts = MutationAttribution::default();
        counts.survived = 1;
        out.push(AttributionEntry { label, counts });
        i = i + 1;
    }
    assert(out.deep_view() =~= survivor_entries(all, by_domain));
    out
}

/// The entries of all runs, run by run.
pub open spec fn entries_in_runs(runs: Seq<TestRunResultModel>, by_domain: bool) -> Seq<
    AttributionEntryModel,
>
    decreases runs.len(),
{
    if runs.len() == 0 {
        Seq::empty()
    } else if by_domain {
        entries_in_runs(runs.drop_last(), by_domain) + runs.last().quality.mutation.by_domain
    } else {
        entries_in_runs(runs.drop_last(), by_domain) + runs.last().quality.mutation.by_operator
    }
}

fn entries_of_runs(runs: &Vec<TestRunResult>, by_domain: bool) -> (r: Vec<AttributionEntry>)
    ensures
        r.deep_view() == entries_in_runs(runs.deep_view(), by_domain),
{
    let mut out: Vec<AttributionEntry> = Vec::new();
    let ghost all = runs.deep_view();
    let mut i: usize = 0;
    assert(out.deep_view() == entries_in_runs(all.take(0), by_domain));
    while i < runs.len()
        invariant
            i <= runs@.len(),
            all == runs.deep_view(),
            out.deep_view() == entries_in_runs(all.take(i as int), by_domain),
        decreases runs@.len() - i,
    {
        proof {
            lemma_take_next(all, i as int);
        }
        let mut more = if by_domain {
            clone_attribution_entries(&runs[i].quality.mutation.by_domain)
        } else {
            clone_attribution_entries(&runs[i].quality.mutation.by_operator)
        };
        append_attribution_entries(&mut out, &mut more);
        i = i + 1;
    }
    proof {
        lemma_take_all(all);
    }
    out
}

/// The entries that a report counts mutants by: those of its runs, or, where no
/// run has any, one for each surviving mutant.
pub open spec fn counted_entries(
    runs: Seq<TestRunResultModel>,
    labels: Seq<MutantLabelsModel>,
    by_domain: bool,
) -> Seq<AttributionEntryModel> {
    if entries_in_runs(runs, true).len() == 0 && entries_in_runs(runs, false).len() == 0 {
        survivor_entries(labels, by_domain)
    } else {
        entries_in_runs(runs, by_domain)
    }
}

fn entries_to_count(
    runs: &Vec<TestRunResult>,
    labels: &Vec<MutantLabels>,
    by_domain: bool,
) -> (r: Vec<AttributionEntry>)
    ensures
        r.deep_view() == counted_entries(runs.deep_view(), labels.deep_view(), by_domain),
{
    let domains = entries_of_runs(runs, true);
    let operators = entries_of_runs(runs, false);
    assert(domains@.len() == domains.deep_view().len());
    assert(operators@.len() == operators.deep_view().len());
    if domains.len() == 0 && operators.len() == 0 {
        entries_of_survivors(labels, by_domain)
    } else if by_domain {
        domains
    } else {
        operators
    }
}

// ---------------------------------------------------------------------------
// The quality of a report
// ---------------------------------------------------------------------------
/// The first run, from one on, that says how long its mutants could take.
pub open spec fn timed_run_from(runs: Seq<TestRunResultModel>, from: int) -> Option<int>
    decreases runs.len() - from,
{
    if from < 0 || from >= runs.len() {
        None
    } else if runs[from].quality.mutation.computed_timeout_seconds is Some {
        Some(from)
    } else {
        timed_run_from(runs, from + 1)
    }
}

fn timed_run(runs: &Vec<TestRunResult>) -> (r: Option<usize>)
    ensures
        match r {
            Some(i) => i < runs@.len() && timed_run_from(runs.deep_view(), 0) == Some(i as int),
            None => timed_run_from(runs.deep_view(), 0) is None,
        },
{
    let ghost all = runs.deep_view();
    let mut i: usize = 0;
    while i < runs.len()
        invariant
            i <= runs@.len(),
            all == runs.deep_view(),
            timed_run_from(all, 0) == timed_run_from(all, i as int),
        decreases runs@.len() - i,
    {
        assert(all[i as int] == runs@[i as int].deep_view());
        if runs[i].quality.mutation.computed_timeout_seconds.is_some() {
            return Some(i);
        }
        i = i + 1;
    }
    None
}

/// How long the mutants of a run could take: the numbers of the first run that gives them.
pub open spec fn timed_mutation(runs: Seq<TestRunResultModel>) -> MutationMetricsModel {
    match timed_run_from(runs, 0) {
        Some(i) => MutationMetricsModel {
            baseline_duration_ms: runs[i].quality.mutation.baseline_duration_ms,
            computed_timeout_seconds: runs[i].quality.mutation.computed_timeout_seconds,
            timeout_source: runs[i].quality.mutation.timeout_source,
            ..no_mutation()
        },
        None => no_mutation(),
    }
}

fn time_mutation(runs: &Vec<TestRunResult>) -> (r: MutationMetrics)
    ensures
        r.deep_view() == timed_mutation(runs.deep_view()),
{
    let mut mutation = MutationMetrics::default();
    if let Some(i) = timed_run(runs) {
        assert(runs.deep_view()[i as int] == runs@[i as int].deep_view());
        mutation.baseline_duration_ms = runs[i].quality.mutation.baseline_duration_ms;
        mutation.computed_timeout_seconds = runs[i].quality.mutation.computed_timeout_seconds;
        mutation.timeout_source = clone_text(&runs[i].quality.mutation.timeout_source);
    }
    mutation
}

/// The mutants of the runs of a report, before the percentages.
pub open spec fn mutation_sums(
    report: VerificationReportModel,
    labels: Seq<MutantLabelsModel>,
) -> MutationMetricsModel {
    MutationMetricsModel {
        generated: count_in_runs(report.runs, RunCount::Generated) as usize,
        runnable: count_in_runs(report.runs, RunCount::Runnable) as usize,
        executed: count_in_runs(report.runs, RunCount::Executed) as usize,
        killed: count_in_runs(report.runs, RunCount::Killed) as usize,
        survived: count_in_runs(report.runs, RunCount::Survived) as usize,
        not_covered: count_in_runs(report.runs, RunCount::NotCovered) as usize,
        timed_out: count_in_runs(report.runs, RunCount::TimedOut) as usize,
        not_viable: count_in_runs(report.runs, RunCount::NotViable) as usize,
        skipped: count_in_runs(report.runs, RunCount::Skipped) as usize,
        requested_workers: most_workers(report.runs, false),
        effective_workers: most_workers(report.runs, true),
        isolation_failures: count_in_runs(report.runs, RunCount::IsolationFailures) as usize,
        records: records_of_runs(report.runs),
        by_domain: attribution(counted_entries(report.runs, labels, true)),
        by_operator: attribution(counted_entries(report.runs, labels, false)),
        ..timed_mutation(report.runs)
    }
}

/// The generated properties of a report, before their strength.
pub open spec fn property_sums(report: VerificationReportModel) -> PropertyMetrics {
    PropertyMetrics {
        generated_artifacts: artifact_kind_in(
            report.artifacts,
            ArtifactKind::PropertyTest,
        ) as usize,
        no_panic_properties: property_word(report.artifacts, "does_not_panic"@) as usize,
        deterministic_properties: property_word(report.artifacts, "is_deterministic"@) as usize,
        invariant_properties: property_word(report.artifacts, "prop_assert"@) as usize,
        failed_generated_tests: generated_failures_of(
            report.artifacts,
            report.findings,
        ).len() as usize,
        strength_score_percent: None,
    }
}

/// The quality of a report, from its runs, artifacts and findings, the labels of
/// its surviving mutants, and what its replay manifests plan.
pub open spec fn quality_of(
    report: VerificationReportModel,
    labels: Seq<MutantLabelsModel>,
    replay: ReplayPlan,
) -> VerificationQualityModel {
    let property = property_sums(report);
    VerificationQualityModel {
        mutation: with_percentages(mutation_sums(report, labels)),
        property: PropertyMetrics {
            strength_score_percent: property_strength(property),
            ..property
        },
        fuzz: FuzzMetrics {
            generated_harnesses: artifact_kind_in(
                report.artifacts,
                ArtifactKind::FuzzHarness,
            ) as usize,
            targets_executed: count_in_runs(report.runs, RunCount::FuzzTargets) as usize,
            failures: count_in_runs(report.runs, RunCount::FuzzFailures) as usize,
            persisted_repros: artifact_kind_in(report.artifacts, ArtifactKind::ReproCase) as usize,
        },
        regression: RegressionMetrics {
            assertion_candidates: artifact_kind_in(
                report.artifacts,
                ArtifactKind::AssertionCandidate,
            ) as usize,
            promoted_scaffolds: artifact_kind_in(
                report.artifacts,
                ArtifactKind::RegressionTest,
            ) as usize,
            corpus_entries: artifact_kind_in(report.artifacts, ArtifactKind::CorpusEntry) as usize,
            corpus_replayed: count_in_runs(report.runs, RunCount::CorpusReplayed) as usize,
            corpus_passed: count_in_runs(report.runs, RunCount::CorpusPassed) as usize,
            corpus_failed: count_in_runs(report.runs, RunCount::CorpusFailed) as usize,
            corpus_skipped: count_in_runs(report.runs, RunCount::CorpusSkipped) as usize,
        },
        replay: ReplayMetrics {
            manifests: artifact_kind_in(
                report.artifacts,
                ArtifactKind::DifferentialReplay,
            ) as usize,
            results: artifact_kind_in(report.artifacts, ArtifactKind::ReplayResult) as usize,
            targets: replay.targets,
            cases: replay.cases,
        },
        budget: BudgetMetrics {
            budget_plans: artifact_kind_in(report.artifacts, ArtifactKind::BudgetPlan) as usize,
            skipped_commands: skipped_in_runs(report.runs) as usize,
            timed_out_commands: timed_out_in_runs(report.runs) as usize,
        },
        evolution: candidate_metrics(
            held_candidates(report.artifacts),
            artifact_kind_in(report.artifacts, ArtifactKind::EvolutionSuite) as usize,
        ),
        performance: report.quality.performance,
    }
}

/// Whether every count of mutants fits a machine integer, added up over runs.
pub open spec fn mutant_counts_fit(runs: Seq<TestRunResultModel>) -> bool {
    &&& count_in_runs(runs, RunCount::Generated) <= usize::MAX
    &&& count_in_runs(runs, RunCount::Runnable) <= usize::MAX
    &&& count_in_runs(runs, RunCount::Executed) <= usize::MAX
    &&& count_in_runs(runs, RunCount::Killed) <= usize::MAX
    &&& count_in_runs(runs, RunCount::Survived) <= usize::MAX
    &&& count_in_runs(runs, RunCount::NotCovered) <= usize::MAX
    &&& count_in_runs(runs, RunCount::TimedOut) <= usize::MAX
    &&& count_in_runs(runs, RunCount::NotViable) <= usize::MAX
    &&& count_in_runs(runs, RunCount::Skipped) <= usize::MAX
    &&& count_in_runs(runs, RunCount::IsolationFailures) <= usize::MAX
}

/// Whether the mutants of a report can be measured: every number fits.
pub open spec fn mutants_fit(
    report: VerificationReportModel,
    labels: Seq<MutantLabelsModel>,
) -> bool {
    &&& mutant_counts_fit(report.runs)
    &&& entries_fit(counted_entries(report.runs, labels, true))
    &&& entries_fit(counted_entries(report.runs, labels, false))
    &&& percentages_fit(mutation_sums(report, labels))
}

/// Whether every count of the runs fits a machine integer, added up.
pub open spec fn run_counts_fit(runs: Seq<TestRunResultModel>) -> bool {
    &&& mutant_counts_fit(runs)
    &&& count_in_runs(runs, RunCount::FuzzTargets) <= usize::MAX
    &&& count_in_runs(runs, RunCount::FuzzFailures) <= usize::MAX
    &&& count_in_runs(runs, RunCount::CorpusReplayed) <= usize::MAX
    &&& count_in_runs(runs, RunCount::CorpusPassed) <= usize::MAX
    &&& count_in_runs(runs, RunCount::CorpusFailed) <= usize::MAX
    &&& count_in_runs(runs, RunCount::CorpusSkipped) <= usize::MAX
    &&& skipped_in_runs(runs) <= usize::MAX
    &&& timed_out_in_runs(runs) <= usize::MAX
}

/// Whether every number of the quality of a report fits a machine integer.
pub open spec fn quality_fits(
    report: VerificationReportModel,
    labels: Seq<MutantLabelsModel>,
) -> bool {
    &&& run_counts_fit(report.runs)
    &&& property_word(report.artifacts, "does_not_panic"@) <= usize::MAX
    &&& property_word(report.artifacts, "is_deterministic"@) <= usize::MAX
    &&& property_word(report.artifacts, "prop_assert"@) <= usize::MAX
    &&& mutants_fit(report, labels)
    &&& strength_fits(property_sums(report))
}

/// The counts of mutants over runs.
struct MutantSums {
    generated: usize,
    runnable: usize,
    executed: usize,
    killed: usize,
    survived: usize,
    not_covered: usize,
    timed_out: usize,
    not_viable: usize,
    skipped: usize,
    isolation_failures: usize,
}

fn sum_mutants(runs: &Vec<TestRunResult>) -> (r: Option<MutantSums>)
    ensures
        r matches Some(s) ==> {
            &&& s.generated == count_in_runs(runs.deep_view(), RunCount::Generated)
            &&& s.runnable == count_in_runs(runs.deep_view(), RunCount::Runnable)
            &&& s.executed == count_in_runs(runs.deep_view(), RunCount::Executed)
            &&& s.killed == count_in_runs(runs.deep_view(), RunCount::Killed)
            &&& s.survived == count_in_runs(runs.deep_view(), RunCount::Survived)
            &&& s.not_covered == count_in_runs(runs.deep_view(), RunCount::NotCovered)
            &&& s.timed_out == count_in_runs(runs.deep_view(), RunCount::TimedOut)
            &&& s.not_viable == count_in_runs(runs.deep_view(), RunCount::NotViable)
            &&& s.skipped == count_in_runs(runs.deep_view(), RunCount::Skipped)
            &&& s.isolation_failures == count_in_runs(runs.deep_view(), RunCount::IsolationFailures)
        },
        r is Some == mutant_counts_fit(runs.deep_view()),
{
    match (
        sum_of_runs(runs, RunCount::Generated),
        sum_of_runs(runs, RunCount::Runnable),
        sum_of_runs(runs, RunCount::Executed),
        sum_of_runs(runs, RunCount::Killed),
        sum_of_runs(runs, RunCount::Survived),
        sum_of_runs(runs, RunCount::NotCovered),
        sum_of_runs(runs, RunCount::TimedOut),
        sum_of_runs(runs, RunCount::NotViable),
        sum_of_runs(runs, RunCount::Skipped),
        sum_of_runs(runs, RunCount::IsolationFailures),
    ) {
        (
            Some(generated),
            Some(runnable),
            Some(executed),
            Some(killed),
            Some(survived),
            Some(not_covered),
            Some(timed_out),
            Some(not_viable),
            Some(skipped),
            Some(isolation_failures),
        ) => Some(
            MutantSums {
                generated,
                runnable,
                executed,
                killed,
                survived,
                not_covered,
                timed_out,
                not_viable,
                skipped,
                isolation_failures,
            },
        ),
        _ => None,
    }
}

/// The sums of the corpus and of fuzzing over runs.
struct ReplaySums {
    fuzz_targets: usize,
    fuzz_failures: usize,
    corpus_replayed: usize,
    corpus_passed: usize,
    corpus_failed: usize,
    corpus_skipped: usize,
    commands_skipped: usize,
    commands_timed_out: usize,
}

fn sum_replays(runs: &Vec<TestRunResult>) -> (r: Option<ReplaySums>)
    ensures
        r matches Some(s) ==> {
            &&& s.fuzz_targets == count_in_runs(runs.deep_view(), RunCount::FuzzTargets)
            &&& s.fuzz_failures == count_in_runs(runs.deep_view(), RunCount::FuzzFailures)
            &&& s.corpus_replayed == count_in_runs(runs.deep_view(), RunCount::CorpusReplayed)
            &&& s.corpus_passed == count_in_runs(runs.deep_view(), RunCount::CorpusPassed)
            &&& s.corpus_failed == count_in_runs(runs.deep_view(), RunCount::CorpusFailed)
            &&& s.corpus_skipped == count_in_runs(runs.deep_view(), RunCount::CorpusSkipped)
            &&& s.commands_skipped == skipped_in_runs(runs.deep_view())
            &&& s.commands_timed_out == timed_out_in_runs(runs.deep_view())
        },
        r is None ==> !run_counts_fit(runs.deep_view()),
{
    match (
        sum_of_runs(runs, RunCount::FuzzTargets),
        sum_of_runs(runs, RunCount::FuzzFailures),
        sum_of_runs(runs, RunCount::CorpusReplayed),
        sum_of_runs(runs, RunCount::CorpusPassed),
        sum_of_runs(runs, RunCount::CorpusFailed),
        sum_of_runs(runs, RunCount::CorpusSkipped),
        all_skipped(runs),
        all_timed_out(runs),
    ) {
        (
            Some(fuzz_targets),
            Some(fuzz_failures),
            Some(corpus_replayed),
            Some(corpus_passed),
            Some(corpus_failed),
            Some(corpus_skipped),
            Some(commands_skipped),
            Some(commands_timed_out),
        ) => Some(
            ReplaySums {
                fuzz_targets,
                fuzz_failures,
                corpus_replayed,
                corpus_passed,
                corpus_failed,
                corpus_skipped,
                commands_skipped,
                commands_timed_out,
            },
        ),
        _ => None,
    }
}

/// The mutants of a report with their percentages, where every number fits.
pub fn measure_mutation(report: &VerificationReport, labels: &Vec<MutantLabels>) -> (r: Option<
    MutationMetrics,
>)
    ensures
        r is Some == mutants_fit(report.deep_view(), labels.deep_view()),
        r matches Some(m) ==> m.deep_view() == with_percentages(
            mutation_sums(report.deep_view(), labels.deep_view()),
        ),
{
    let sums = match sum_mutants(&report.runs) {
        Some(sums) => sums,
        None => return None,
    };
    let domains = entries_to_count(&report.runs, labels, true);
    let operators = entries_to_count(&report.runs, labels, false);
    if !attribution_fits(&domains) || !attribution_fits(&operators) {
        return None;
    }
    let mut mutation = time_mutation(&report.runs);
    mutation.generated = sums.generated;
    mutation.runnable = sums.runnable;
    mutation.executed = sums.executed;
    mutation.killed = sums.killed;
    mutation.survived = sums.survived;
    mutation.not_covered = sums.not_covered;
    mutation.timed_out = sums.timed_out;
    mutation.not_viable = sums.not_viable;
    mutation.skipped = sums.skipped;
    mutation.isolation_failures = sums.isolation_failures;
    mutation.requested_workers = max_workers(&report.runs, false);
    mutation.effective_workers = max_workers(&report.runs, true);
    mutation.records = run_records(&report.runs);
    mutation.by_domain = attribute(&domains);
    mutation.by_operator = attribute(&operators);
    assert(mutation.deep_view() == mutation_sums(report.deep_view(), labels.deep_view()));
    if !can_compute_percentages(&mutation) {
        return None;
    }
    finalize_mutation_percentages(&mut mutation);
    Some(mutation)
}

/// The generated properties of a report with their strength, where every number
/// fits.
fn measure_property(report: &VerificationReport) -> (r: Option<PropertyMetrics>)
    ensures
        r matches Some(p) ==> p == (PropertyMetrics {
            strength_score_percent: property_strength(property_sums(report.deep_view())),
            ..property_sums(report.deep_view())
        }),
        r is Some == (strength_fits(property_sums(report.deep_view())) && property_word(
            report.deep_view().artifacts,
            "does_not_panic"@,
        ) <= usize::MAX && property_word(report.deep_view().artifacts, "is_deterministic"@)
            <= usize::MAX && property_word(report.deep_view().artifacts, "prop_assert"@)
            <= usize::MAX),
{
    let failures = generated_failures(&report.artifacts, &report.findings);
    assert(failures@.len() == failures.deep_view().len());
    match (
        word_in_properties(&report.artifacts, "does_not_panic"),
        word_in_properties(&report.artifacts, "is_deterministic"),
        word_in_properties(&report.artifacts, "prop_assert"),
    ) {
        (Some(no_panic), Some(deterministic), Some(invariant_checks)) => {
            let mut property = PropertyMetrics {
                generated_artifacts: artifacts_of_kind(
                    &report.artifacts,
                    ArtifactKind::PropertyTest,
                ),
                no_panic_properties: no_panic,
                deterministic_properties: deterministic,
                invariant_properties: invariant_checks,
                failed_generated_tests: failures.len(),
                strength_score_percent: None,
            };
            assert(property == property_sums(report.deep_view()));
            if !can_compute_strength(&property) {
                return None;
            }
            property.strength_score_percent = property_strength_score(&property);
            Some(property)
        },
        _ => None,
    }
}

/// Measures a report, where every number fits a machine integer.
pub fn measure_report(
    report: &VerificationReport,
    labels: &Vec<MutantLabels>,
    replay: ReplayPlan,
) -> (r: Option<VerificationQuality>)
    ensures
        r is Some == quality_fits(report.deep_view(), labels.deep_view()),
        r matches Some(q) ==> q.deep_view() == quality_of(
            report.deep_view(),
            labels.deep_view(),
            replay,
        ),
{
    let mutation = match measure_mutation(report, labels) {
        Some(mutation) => mutation,
        None => return None,
    };
    let property = match measure_property(report) {
        Some(property) => property,
        None => return None,
    };
    let sums = match sum_replays(&report.runs) {
        Some(sums) => sums,
        None => return None,
    };
    let artifacts = &report.artifacts;
    let quality = VerificationQuality {
        mutation,
        property,
        fuzz: FuzzMetrics {
            generated_harnesses: artifacts_of_kind(artifacts, ArtifactKind::FuzzHarness),
            targets_executed: sums.fuzz_targets,
            failures: sums.fuzz_failures,
            persisted_repros: artifacts_of_kind(artifacts, ArtifactKind::ReproCase),
        },
        regression: RegressionMetrics {
            assertion_candidates: artifacts_of_kind(artifacts, ArtifactKind::AssertionCandidate),
            promoted_scaffolds: artifacts_of_kind(artifacts, ArtifactKind::RegressionTest),
            corpus_entries: artifacts_of_kind(artifacts, ArtifactKind::CorpusEntry),
            corpus_replayed: sums.corpus_replayed,
            corpus_passed: sums.corpus_passed,
            corpus_failed: sums.corpus_failed,
            corpus_skipped: sums.corpus_skipped,
        },
        replay: ReplayMetrics {
            manifests: artifacts_of_kind(artifacts, ArtifactKind::DifferentialReplay),
            results: artifacts_of_kind(artifacts, ArtifactKind::ReplayResult),
            targets: replay.targets,
            cases: replay.cases,
        },
        budget: BudgetMetrics {
            budget_plans: artifacts_of_kind(artifacts, ArtifactKind::BudgetPlan),
            skipped_commands: sums.commands_skipped,
            timed_out_commands: sums.commands_timed_out,
        },
        evolution: evolution_metrics_from_artifacts(artifacts),
        performance: report.quality.performance,
    };
    Some(quality)
}

/// Whether the quality of a report can be measured: every number fits.
pub open spec fn measurable(
    report: VerificationReportModel,
    labels: Seq<MutantLabelsModel>,
) -> bool {
    quality_fits(report, labels) && replay_plan(report.artifacts) is Some
}

/// The report with its quality measured, where every number fits; otherwise the
/// report as it is.
pub open spec fn refreshed(
    report: VerificationReportModel,
    labels: Seq<MutantLabelsModel>,
) -> VerificationReportModel {
    if measurable(report, labels) {
        VerificationReportModel {
            quality: quality_of(report, labels, replay_plan(report.artifacts)->0),
            ..report
        }
    } else {
        report
    }
}

/// Measures the quality of a report again. Where a number does not fit a machine
/// integer, the report stays as it is and the answer is no.
pub fn refresh_report_quality(report: &mut VerificationReport, labels: &Vec<MutantLabels>) -> (r:
    bool)
    ensures
        r == measurable(old(report).deep_view(), labels.deep_view()),
        final(report).deep_view() == refreshed(old(report).deep_view(), labels.deep_view()),
{
    match count_replay_plan(&report.artifacts) {
        Some(replay) => match measure_report(report, labels, replay) {
            Some(quality) => {
                report.quality = quality;
                true
            },
            None => false,
        },
        None => false,
    }
}

/// Measuring changes the quality of a report and nothing else.
pub proof fn law_measuring_keeps_the_rest(
    report: VerificationReportModel,
    labels: Seq<MutantLabelsModel>,
)
    ensures
        refreshed(report, labels) == (VerificationReportModel {
            quality: refreshed(report, labels).quality,
            ..report
        }),
        refreshed(report, labels).quality.performance == report.quality.performance,
{
}

/// Measuring a report twice gives what measuring it once gives.
pub proof fn law_measuring_is_idempotent(
    report: VerificationReportModel,
    labels: Seq<MutantLabelsModel>,
)
    ensures
        refreshed(refreshed(report, labels), labels) == refreshed(report, labels),
{
}

proof fn lemma_counts_are_natural(runs: Seq<TestRunResultModel>, which: RunCount)
    ensures
        0 <= count_in_runs(runs, which),
    decreases runs.len(),
{
    if runs.len() > 0 {
        lemma_counts_are_natural(runs.drop_last(), which);
    }
}

proof fn lemma_unfinished_are_natural(items: Seq<CommandRecordModel>)
    ensures
        0 <= skipped_in(items),
        0 <= timed_out_in(items),
    decreases items.len(),
{
    if items.len() > 0 {
        lemma_unfinished_are_natural(items.drop_last());
    }
}

proof fn lemma_unfinished_in_runs_are_natural(runs: Seq<TestRunResultModel>)
    ensures
        0 <= skipped_in_runs(runs),
        0 <= timed_out_in_runs(runs),
    decreases runs.len(),
{
    if runs.len() > 0 {
        lemma_unfinished_are_natural(runs.last().commands);
        lemma_unfinished_in_runs_are_natural(runs.drop_last());
    }
}

proof fn lemma_kinds_are_bounded(items: Seq<GeneratedArtifactModel>, kind: ArtifactKind)
    ensures
        0 <= artifact_kind_in(items, kind) <= items.len(),
    decreases items.len(),
{
    if items.len() > 0 {
        lemma_kinds_are_bounded(items.drop_last(), kind);
    }
}

/// One more run adds its own counts to those of the report.
pub proof fn law_runs_add_up(
    report: VerificationReportModel,
    run: TestRunResultModel,
    labels: Seq<MutantLabelsModel>,
)
    requires
        measurable(report, labels),
        measurable(VerificationReportModel { runs: report.runs.push(run), ..report }, labels),
    ensures
        ({
            let before = refreshed(report, labels).quality;
            let after = refreshed(
                VerificationReportModel { runs: report.runs.push(run), ..report },
                labels,
            ).quality;
            &&& after.mutation.generated == before.mutation.generated + run.quality.mutation.generated
            &&& after.mutation.runnable == before.mutation.runnable + run.quality.mutation.runnable
            &&& after.mutation.executed == before.mutation.executed + run.quality.mutation.executed
            &&& after.mutation.killed == before.mutation.killed + run.quality.mutation.killed
            &&& after.mutation.survived == before.mutation.survived + run.quality.mutation.survived
            &&& after.mutation.not_covered == before.mutation.not_covered + run.quality.mutation.not_covered
            &&& after.mutation.timed_out == before.mutation.timed_out + run.quality.mutation.timed_out
            &&& after.mutation.not_viable == before.mutation.not_viable + run.quality.mutation.not_viable
            &&& after.mutation.skipped == before.mutation.skipped + run.quality.mutation.skipped
            &&& after.mutation.isolation_failures == before.mutation.isolation_failures + run.quality.mutation.isolation_failures
            &&& after.fuzz.targets_executed == before.fuzz.targets_executed + run.quality.fuzz.targets_executed
            &&& after.fuzz.failures == before.fuzz.failures + run.quality.fuzz.failures
            &&& after.regression.corpus_replayed == before.regression.corpus_replayed + run.quality.regression.corpus_replayed
            &&& after.regression.corpus_passed == before.regression.corpus_passed + run.quality.regression.corpus_passed
            &&& after.regression.corpus_failed == before.regression.corpus_failed + run.quality.regression.corpus_failed
            &&& after.regression.corpus_skipped == before.regression.corpus_skipped + run.quality.regression.corpus_skipped
        }),
{
    assert(report.runs.push(run).drop_last() =~= report.runs);
    lemma_counts_are_natural(report.runs, RunCount::Generated);
    lemma_counts_are_natural(report.runs, RunCount::Runnable);
    lemma_counts_are_natural(report.runs, RunCount::Executed);
    lemma_counts_are_natural(report.runs, RunCount::Killed);
    lemma_counts_are_natural(report.runs, RunCount::Survived);
    lemma_counts_are_natural(report.runs, RunCount::NotCovered);
    lemma_counts_are_natural(report.runs, RunCount::TimedOut);
    lemma_counts_are_natural(report.runs, RunCount::NotViable);
    lemma_counts_are_natural(report.runs, RunCount::Skipped);
    lemma_counts_are_natural(report.runs, RunCount::IsolationFailures);
    lemma_counts_are_natural(report.runs, RunCount::FuzzTargets);
    lemma_counts_are_natural(report.runs, RunCount::FuzzFailures);
    lemma_counts_are_natural(report.runs, RunCount::CorpusReplayed);
    lemma_counts_are_natural(report.runs, RunCount::CorpusPassed);
    lemma_counts_are_natural(report.runs, RunCount::CorpusFailed);
    lemma_counts_are_natural(report.runs, RunCount::CorpusSkipped);
}

/// A run of one command adds to the skipped commands where the command was skipped, and to
/// those that ran out of time where its output says so.
pub proof fn law_unfinished_commands_are_counted(
    report: VerificationReportModel,
    run: TestRunResultModel,
    labels: Seq<MutantLabelsModel>,
)
    requires
        measurable(report, labels),
        measurable(VerificationReportModel { runs: report.runs.push(run), ..report }, labels),
        run.commands.len() == 1,
    ensures
        ({
            let command = run.commands[0];
            let before = refreshed(report, labels).quality.budget;
            let after = refreshed(
                VerificationReportModel { runs: report.runs.push(run), ..report },
                labels,
            ).quality.budget;
            let late = has_text(command.stdout, "timed out"@) || has_text(
                command.stderr,
                "timed out"@,
            );
            &&& after.skipped_commands == before.skipped_commands + (if command.status
                == RunStatus::Skipped {
                1int
            } else {
                0
            })
            &&& after.timed_out_commands == before.timed_out_commands + (if late {
                1int
            } else {
                0
            })
        }),
{
    assert(report.runs.push(run).drop_last() =~= report.runs);
    lemma_unfinished_in_runs_are_natural(report.runs);
    reveal_with_fuel(skipped_in, 2);
    reveal_with_fuel(timed_out_in, 2);
}

/// A report without runs counts no mutants, no fuzzed targets and no replayed entries.
pub proof fn law_nothing_is_counted_without_runs(
    report: VerificationReportModel,
    labels: Seq<MutantLabelsModel>,
)
    requires
        measurable(report, labels),
        report.runs.len() == 0,
    ensures
        ({
            let q = refreshed(report, labels).quality;
            &&& q.mutation.generated == 0
            &&& q.mutation.runnable == 0
            &&& q.mutation.executed == 0
            &&& q.mutation.killed == 0
            &&& q.mutation.survived == 0
            &&& q.mutation.not_covered == 0
            &&& q.mutation.timed_out == 0
            &&& q.mutation.not_viable == 0
            &&& q.mutation.skipped == 0
            &&& q.mutation.isolation_failures == 0
            &&& q.fuzz.targets_executed == 0
            &&& q.fuzz.failures == 0
            &&& q.regression.corpus_replayed == 0
            &&& q.regression.corpus_passed == 0
            &&& q.regression.corpus_failed == 0
            &&& q.regression.corpus_skipped == 0
            &&& q.budget.skipped_commands == 0
            &&& q.budget.timed_out_commands == 0
        }),
{
}

/// One more artifact is counted as one more of its kind, and of no other kind.
pub proof fn law_artifacts_are_counted(
    report: VerificationReportModel,
    artifact: GeneratedArtifactModel,
    labels: Seq<MutantLabelsModel>,
)
    requires
        measurable(report, labels),
        measurable(
            VerificationReportModel { artifacts: report.artifacts.push(artifact), ..report },
            labels,
        ),
        report.artifacts.len() < usize::MAX,
    ensures
        ({
            let before = refreshed(report, labels).quality;
            let after = refreshed(
                VerificationReportModel { artifacts: report.artifacts.push(artifact), ..report },
                labels,
            ).quality;
            &&& after.property.generated_artifacts == before.property.generated_artifacts + (if artifact.kind
                == ArtifactKind::PropertyTest {
                1int
            } else {
                0
            })
            &&& after.fuzz.generated_harnesses == before.fuzz.generated_harnesses + (if artifact.kind
                == ArtifactKind::FuzzHarness {
                1int
            } else {
                0
            })
            &&& after.fuzz.persisted_repros == before.fuzz.persisted_repros + (if artifact.kind
                == ArtifactKind::ReproCase {
                1int
            } else {
                0
            })
            &&& after.regression.assertion_candidates == before.regression.assertion_candidates + (if artifact.kind
                == ArtifactKind::AssertionCandidate {
                1int
            } else {
                0
            })
            &&& after.regression.promoted_scaffolds == before.regression.promoted_scaffolds + (if artifact.kind
                == ArtifactKind::RegressionTest {
                1int
            } else {
                0
            })
            &&& after.regression.corpus_entries == before.regression.corpus_entries + (if artifact.kind
                == ArtifactKind::CorpusEntry {
                1int
            } else {
                0
            })
            &&& after.replay.manifests == before.replay.manifests + (if artifact.kind
                == ArtifactKind::DifferentialReplay {
                1int
            } else {
                0
            })
            &&& after.replay.results == before.replay.results + (if artifact.kind
                == ArtifactKind::ReplayResult {
                1int
            } else {
                0
            })
            &&& after.budget.budget_plans == before.budget.budget_plans + (if artifact.kind
                == ArtifactKind::BudgetPlan {
                1int
            } else {
                0
            })
        }),
{
    assert(report.artifacts.push(artifact).drop_last() =~= report.artifacts);
    lemma_kinds_are_bounded(report.artifacts, ArtifactKind::PropertyTest);
    lemma_kinds_are_bounded(report.artifacts, ArtifactKind::FuzzHarness);
    lemma_kinds_are_bounded(report.artifacts, ArtifactKind::ReproCase);
    lemma_kinds_are_bounded(report.artifacts, ArtifactKind::AssertionCandidate);
    lemma_kinds_are_bounded(report.artifacts, ArtifactKind::RegressionTest);
    lemma_kinds_are_bounded(report.artifacts, ArtifactKind::CorpusEntry);
    lemma_kinds_are_bounded(report.artifacts, ArtifactKind::DifferentialReplay);
    lemma_kinds_are_bounded(report.artifacts, ArtifactKind::ReplayResult);
    lemma_kinds_are_bounded(report.artifacts, ArtifactKind::BudgetPlan);
}

} // verus!
