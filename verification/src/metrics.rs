//! What a verification measured: mutants, properties, fuzzing, regressions,
//! replay, budgets, evolution and time.
use vstd::prelude::*;

use crate::api::LineRange;
use crate::text::clone_text;

verus! {

/// What became of a mutant.
#[derive(Debug, Clone, Copy, PartialEq, Eq, Structural)]
pub enum MutationStatus {
    Runnable,
    NotCovered,
    Killed,
    Lived,
    TimedOut,
    NotViable,
    Skipped,
}

impl MutationStatus {
    /// The name of the variant.
    pub open spec fn name_text(self) -> Seq<char> {
        match self {
            MutationStatus::Runnable => "Runnable"@,
            MutationStatus::NotCovered => "NotCovered"@,
            MutationStatus::Killed => "Killed"@,
            MutationStatus::Lived => "Lived"@,
            MutationStatus::TimedOut => "TimedOut"@,
            MutationStatus::NotViable => "NotViable"@,
            MutationStatus::Skipped => "Skipped"@,
        }
    }

    /// The name of the variant.
    pub fn name(self) -> (r: &'static str)
        ensures
            r@ == self.name_text(),
    {
        match self {
            MutationStatus::Runnable => "Runnable",
            MutationStatus::NotCovered => "NotCovered",
            MutationStatus::Killed => "Killed",
            MutationStatus::Lived => "Lived",
            MutationStatus::TimedOut => "TimedOut",
            MutationStatus::NotViable => "NotViable",
            MutationStatus::Skipped => "Skipped",
        }
    }

    /// The name in reports and configuration files.
    pub open spec fn label_text(self) -> Seq<char> {
        match self {
            MutationStatus::Runnable => "runnable"@,
            MutationStatus::NotCovered => "not_covered"@,
            MutationStatus::Killed => "killed"@,
            MutationStatus::Lived => "lived"@,
            MutationStatus::TimedOut => "timed_out"@,
            MutationStatus::NotViable => "not_viable"@,
            MutationStatus::Skipped => "skipped"@,
        }
    }

    /// The name in reports and configuration files.
    pub fn label(self) -> (r: &'static str)
        ensures
            r@ == self.label_text(),
    {
        match self {
            MutationStatus::Runnable => "runnable",
            MutationStatus::NotCovered => "not_covered",
            MutationStatus::Killed => "killed",
            MutationStatus::Lived => "lived",
            MutationStatus::TimedOut => "timed_out",
            MutationStatus::NotViable => "not_viable",
            MutationStatus::Skipped => "skipped",
        }
    }
}

/// Mutant counts of one domain or operator.
#[derive(Debug, Clone, Copy, PartialEq, Eq, Structural)]
pub struct MutationAttribution {
    pub generated: usize,
    pub runnable: usize,
    pub executed: usize,
    pub killed: usize,
    pub survived: usize,
    pub not_covered: usize,
    pub timed_out: usize,
    pub not_viable: usize,
    pub skipped: usize,
}

impl Default for MutationAttribution {
    fn default() -> (r: Self)
        ensures
            r == (MutationAttribution {
                generated: 0,
                runnable: 0,
                executed: 0,
                killed: 0,
                survived: 0,
                not_covered: 0,
                timed_out: 0,
                not_viable: 0,
                skipped: 0,
            }),
    {
        MutationAttribution {
            generated: 0,
            runnable: 0,
            executed: 0,
            killed: 0,
            survived: 0,
            not_covered: 0,
            timed_out: 0,
            not_viable: 0,
            skipped: 0,
        }
    }
}

/// The counts under one label.
#[derive(Debug, PartialEq, Eq)]
pub struct AttributionEntry {
    pub label: String,
    pub counts: MutationAttribution,
}

/// The mathematical value of an `AttributionEntry`.
pub struct AttributionEntryModel {
    pub label: Seq<char>,
    pub counts: MutationAttribution,
}

impl DeepView for AttributionEntry {
    type V = AttributionEntryModel;

    open spec fn deep_view(&self) -> AttributionEntryModel {
        AttributionEntryModel {
            label: self.label@,
            counts: self.counts,
        }
    }
}

impl Clone for AttributionEntry {
    fn clone(&self) -> (r: Self)
        ensures
            r.deep_view() == self.deep_view(),
    {
        AttributionEntry {
            label: self.label.clone(),
            counts: self.counts,
        }
    }
}

/// A copy of attribution entries.
pub fn clone_attribution_entries(items: &Vec<AttributionEntry>) -> (r: Vec<AttributionEntry>)
    ensures
        r.deep_view() == items.deep_view(),
        r@.len() == items@.len(),
{
    let mut out: Vec<AttributionEntry> = Vec::new();
    let mut i: usize = 0;
    while i < items.len()
        invariant
            i <= items@.len(),
            out@.len() == i,
            forall|j: int| 0 <= j < i ==> #[trigger] out@[j].deep_view() == items@[j].deep_view(),
        decreases items@.len() - i,
    {
        out.push(items[i].clone());
        i = i + 1;
    }
    assert(out.deep_view() == items.deep_view());
    out
}

/// Puts an item at the end of the list.
pub fn push_attribution_entry(items: &mut Vec<AttributionEntry>, item: AttributionEntry)
    ensures
        final(items).deep_view() == old(items).deep_view().push(item.deep_view()),
        final(items)@.len() == old(items)@.len() + 1,
{
    let ghost before = items.deep_view();
    items.push(item);
    assert(items.deep_view() == before.push(item.deep_view()));
}

/// Puts the items of a second list behind those of the first.
pub fn append_attribution_entries(
    items: &mut Vec<AttributionEntry>,
    more: &mut Vec<AttributionEntry>,
)
    ensures
        final(items).deep_view() == old(items).deep_view() + old(more).deep_view(),
{
    let ghost before = items.deep_view();
    let ghost tail = more.deep_view();
    items.append(more);
    assert(items.deep_view() == before + tail);
}

/// One mutant.
#[derive(Debug, PartialEq, Eq)]
pub struct MutationRecord {
    pub id: String,
    pub language: String,
    pub path: String,
    pub symbol: String,
    pub operator: String,
    pub domain: String,
    pub status: MutationStatus,
    pub from: Option<String>,
    pub to: Option<String>,
    pub line_range: Option<LineRange>,
    pub source_span: Option<LineRange>,
    pub diff: Option<String>,
    pub risk_note: Option<String>,
    pub suggested_test: Option<String>,
    pub skip_reason: Option<String>,
    pub selected_test_command: Option<String>,
    pub test_selection_hint: Option<String>,
    pub test_selection_fallback: Option<String>,
    pub brittleness_probe: bool,
    pub command: Option<String>,
    pub duration_ms: u128,
    pub diff_path: Option<String>,
    pub outcome_path: Option<String>,
    pub command_log_path: Option<String>,
    pub stdout_log_path: Option<String>,
    pub stderr_log_path: Option<String>,
}

/// The mathematical value of a `MutationRecord`.
pub struct MutationRecordModel {
    pub id: Seq<char>,
    pub language: Seq<char>,
    pub path: Seq<char>,
    pub symbol: Seq<char>,
    pub operator: Seq<char>,
    pub domain: Seq<char>,
    pub status: MutationStatus,
    pub from: Option<Seq<char>>,
    pub to: Option<Seq<char>>,
    pub line_range: Option<LineRange>,
    pub source_span: Option<LineRange>,
    pub diff: Option<Seq<char>>,
    pub risk_note: Option<Seq<char>>,
    pub suggested_test: Option<Seq<char>>,
    pub skip_reason: Option<Seq<char>>,
    pub selected_test_command: Option<Seq<char>>,
    pub test_selection_hint: Option<Seq<char>>,
    pub test_selection_fallback: Option<Seq<char>>,
    pub brittleness_probe: bool,
    pub command: Option<Seq<char>>,
    pub duration_ms: u128,
    pub diff_path: Option<Seq<char>>,
    pub outcome_path: Option<Seq<char>>,
    pub command_log_path: Option<Seq<char>>,
    pub stdout_log_path: Option<Seq<char>>,
    pub stderr_log_path: Option<Seq<char>>,
}

impl DeepView for MutationRecord {
    type V = MutationRecordModel;

    open spec fn deep_view(&self) -> MutationRecordModel {
        MutationRecordModel {
            id: self.id@,
            language: self.language@,
            path: self.path@,
            symbol: self.symbol@,
            operator: self.operator@,
            domain: self.domain@,
            status: self.status,
            from: self.from.deep_view(),
            to: self.to.deep_view(),
            line_range: self.line_range,
            source_span: self.source_span,
            diff: self.diff.deep_view(),
            risk_note: self.risk_note.deep_view(),
            suggested_test: self.suggested_test.deep_view(),
            skip_reason: self.skip_reason.deep_view(),
            selected_test_command: self.selected_test_command.deep_view(),
            test_selection_hint: self.test_selection_hint.deep_view(),
            test_selection_fallback: self.test_selection_fallback.deep_view(),
            brittleness_probe: self.brittleness_probe,
            command: self.command.deep_view(),
            duration_ms: self.duration_ms,
            diff_path: self.diff_path.deep_view(),
            outcome_path: self.outcome_path.deep_view(),
            command_log_path: self.command_log_path.deep_view(),
            stdout_log_path: self.stdout_log_path.deep_view(),
            stderr_log_path: self.stderr_log_path.deep_view(),
        }
    }
}

impl Clone for MutationRecord {
    fn clone(&self) -> (r: Self)
        ensures
            r.deep_view() == self.deep_view(),
    {
        MutationRecord {
            id: self.id.clone(),
            language: self.language.clone(),
            path: self.path.clone(),
            symbol: self.symbol.clone(),
            operator: self.operator.clone(),
            domain: self.domain.clone(),
            status: self.status,
            from: clone_text(&self.from),
            to: clone_text(&self.to),
            line_range: self.line_range,
            source_span: self.source_span,
            diff: clone_text(&self.diff),
            risk_note: clone_text(&self.risk_note),
            suggested_test: clone_text(&self.suggested_test),
            skip_reason: clone_text(&self.skip_reason),
            selected_test_command: clone_text(&self.selected_test_command),
            test_selection_hint: clone_text(&self.test_selection_hint),
            test_selection_fallback: clone_text(&self.test_selection_fallback),
            brittleness_probe: self.brittleness_probe,
            command: clone_text(&self.command),
            duration_ms: self.duration_ms,
            diff_path: clone_text(&self.diff_path),
            outcome_path: clone_text(&self.outcome_path),
            command_log_path: clone_text(&self.command_log_path),
            stdout_log_path: clone_text(&self.stdout_log_path),
            stderr_log_path: clone_text(&self.stderr_log_path),
        }
    }
}

/// A copy of mutation records.
pub fn clone_mutation_records(items: &Vec<MutationRecord>) -> (r: Vec<MutationRecord>)
    ensures
        r.deep_view() == items.deep_view(),
        r@.len() == items@.len(),
{
    let mut out: Vec<MutationRecord> = Vec::new();
    let mut i: usize = 0;
    while i < items.len()
        invariant
            i <= items@.len(),
            out@.len() == i,
            forall|j: int| 0 <= j < i ==> #[trigger] out@[j].deep_view() == items@[j].deep_view(),
        decreases items@.len() - i,
    {
        out.push(items[i].clone());
        i = i + 1;
    }
    assert(out.deep_view() == items.deep_view());
    out
}

/// Puts an item at the end of the list.
pub fn push_mutation_record(items: &mut Vec<MutationRecord>, item: MutationRecord)
    ensures
        final(items).deep_view() == old(items).deep_view().push(item.deep_view()),
        final(items)@.len() == old(items)@.len() + 1,
{
    let ghost before = items.deep_view();
    items.push(item);
    assert(items.deep_view() == before.push(item.deep_view()));
}

/// Puts the items of a second list behind those of the first.
pub fn append_mutation_records(items: &mut Vec<MutationRecord>, more: &mut Vec<MutationRecord>)
    ensures
        final(items).deep_view() == old(items).deep_view() + old(more).deep_view(),
{
    let ghost before = items.deep_view();
    let ghost tail = more.deep_view();
    items.append(more);
    assert(items.deep_view() == before + tail);
}

/// The mutants of a run or a report.
#[derive(Debug, PartialEq, Eq)]
pub struct MutationMetrics {
    pub generated: usize,
    pub runnable: usize,
    pub executed: usize,
    pub killed: usize,
    pub survived: usize,
    pub not_covered: usize,
    pub timed_out: usize,
    pub not_viable: usize,
    pub skipped: usize,
    pub requested_workers: usize,
    pub effective_workers: usize,
    pub isolation_failures: usize,
    pub isolation_setup_ms: u128,
    pub isolation_copy_ms: u128,
    pub isolation_excluded_path_count: usize,
    pub records: Vec<MutationRecord>,
    pub by_domain: Vec<AttributionEntry>,
    pub by_operator: Vec<AttributionEntry>,
    pub score_percent: Option<u8>,
    pub efficacy_percent: Option<u8>,
    pub mutant_coverage_percent: Option<u8>,
    pub correctness_executed: usize,
    pub correctness_survived: usize,
    pub brittleness_executed: usize,
    pub brittleness_killed: usize,
    pub correctness_score_percent: Option<u8>,
    pub brittleness_survival_percent: Option<u8>,
    pub baseline_duration_ms: Option<u64>,
    pub computed_timeout_seconds: Option<u64>,
    pub timeout_source: Option<String>,
}

/// The mathematical value of a `MutationMetrics`.
pub struct MutationMetricsModel {
    pub generated: usize,
    pub runnable: usize,
    pub executed: usize,
    pub killed: usize,
    pub survived: usize,
    pub not_covered: usize,
    pub timed_out: usize,
    pub not_viable: usize,
    pub skipped: usize,
    pub requested_workers: usize,
    pub effective_workers: usize,
    pub isolation_failures: usize,
    pub isolation_setup_ms: u128,
    pub isolation_copy_ms: u128,
    pub isolation_excluded_path_count: usize,
    pub records: Seq<MutationRecordModel>,
    pub by_domain: Seq<AttributionEntryModel>,
    pub by_operator: Seq<AttributionEntryModel>,
    pub score_percent: Option<u8>,
    pub efficacy_percent: Option<u8>,
    pub mutant_coverage_percent: Option<u8>,
    pub correctness_executed: usize,
    pub correctness_survived: usize,
    pub brittleness_executed: usize,
    pub brittleness_killed: usize,
    pub correctness_score_percent: Option<u8>,
    pub brittleness_survival_percent: Option<u8>,
    pub baseline_duration_ms: Option<u64>,
    pub computed_timeout_seconds: Option<u64>,
    pub timeout_source: Option<Seq<char>>,
}

impl DeepView for MutationMetrics {
    type V = MutationMetricsModel;

    open spec fn deep_view(&self) -> MutationMetricsModel {
        MutationMetricsModel {
            generated: self.generated,
            runnable: self.runnable,
            executed: self.executed,
            killed: self.killed,
            survived: self.survived,
            not_covered: self.not_covered,
            timed_out: self.timed_out,
            not_viable: self.not_viable,
            skipped: self.skipped,
            requested_workers: self.requested_workers,
            effective_workers: self.effective_workers,
            isolation_failures: self.isolation_failures,
            isolation_setup_ms: self.isolation_setup_ms,
            isolation_copy_ms: self.isolation_copy_ms,
            isolation_excluded_path_count: self.isolation_excluded_path_count,
            records: self.records.deep_view(),
            by_domain: self.by_domain.deep_view(),
            by_operator: self.by_operator.deep_view(),
            score_percent: self.score_percent,
            efficacy_percent: self.efficacy_percent,
            mutant_coverage_percent: self.mutant_coverage_percent,
            correctness_executed: self.correctness_executed,
            correctness_survived: self.correctness_survived,
            brittleness_executed: self.brittleness_executed,
            brittleness_killed: self.brittleness_killed,
            correctness_score_percent: self.correctness_score_percent,
            brittleness_survival_percent: self.brittleness_survival_percent,
            baseline_duration_ms: self.baseline_duration_ms,
            computed_timeout_seconds: self.computed_timeout_seconds,
            timeout_source: self.timeout_source.deep_view(),
        }
    }
}

impl Clone for MutationMetrics {
    fn clone(&self) -> (r: Self)
        ensures
            r.deep_view() == self.deep_view(),
    {
        MutationMetrics {
            generated: self.generated,
            runnable: self.runnable,
            executed: self.executed,
            killed: self.killed,
            survived: self.survived,
            not_covered: self.not_covered,
            timed_out: self.timed_out,
            not_viable: self.not_viable,
            skipped: self.skipped,
            requested_workers: self.requested_workers,
            effective_workers: self.effective_workers,
            isolation_failures: self.isolation_failures,
            isolation_setup_ms: self.isolation_setup_ms,
            isolation_copy_ms: self.isolation_copy_ms,
            isolation_excluded_path_count: self.isolation_excluded_path_count,
            records: clone_mutation_records(&self.records),
            by_domain: clone_attribution_entries(&self.by_domain),
            by_operator: clone_attribution_entries(&self.by_operator),
            score_percent: self.score_percent,
            efficacy_percent: self.efficacy_percent,
            mutant_coverage_percent: self.mutant_coverage_percent,
            correctness_executed: self.correctness_executed,
            correctness_survived: self.correctness_survived,
            brittleness_executed: self.brittleness_executed,
            brittleness_killed: self.brittleness_killed,
            correctness_score_percent: self.correctness_score_percent,
            brittleness_survival_percent: self.brittleness_survival_percent,
            baseline_duration_ms: self.baseline_duration_ms,
            computed_timeout_seconds: self.computed_timeout_seconds,
            timeout_source: clone_text(&self.timeout_source),
        }
    }
}

/// No mutants at all.
pub open spec fn no_mutation() -> MutationMetricsModel {
    MutationMetricsModel {
        generated: 0,
        runnable: 0,
        executed: 0,
        killed: 0,
        survived: 0,
        not_covered: 0,
        timed_out: 0,
        not_viable: 0,
        skipped: 0,
        requested_workers: 0,
        effective_workers: 0,
        isolation_failures: 0,
        isolation_setup_ms: 0,
        isolation_copy_ms: 0,
        isolation_excluded_path_count: 0,
        records: Seq::empty(),
        by_domain: Seq::empty(),
        by_operator: Seq::empty(),
        score_percent: None,
        efficacy_percent: None,
        mutant_coverage_percent: None,
        correctness_executed: 0,
        correctness_survived: 0,
        brittleness_executed: 0,
        brittleness_killed: 0,
        correctness_score_percent: None,
        brittleness_survival_percent: None,
        baseline_duration_ms: None,
        computed_timeout_seconds: None,
        timeout_source: None,
    }
}

impl Default for MutationMetrics {
    fn default() -> (r: Self)
        ensures
            r.deep_view() == no_mutation(),
    {
        let r = MutationMetrics {
            generated: 0,
            runnable: 0,
            executed: 0,
            killed: 0,
            survived: 0,
            not_covered: 0,
            timed_out: 0,
            not_viable: 0,
            skipped: 0,
            requested_workers: 0,
            effective_workers: 0,
            isolation_failures: 0,
            isolation_setup_ms: 0,
            isolation_copy_ms: 0,
            isolation_excluded_path_count: 0,
            records: Vec::new(),
            by_domain: Vec::new(),
            by_operator: Vec::new(),
            score_percent: None,
            efficacy_percent: None,
            mutant_coverage_percent: None,
            correctness_executed: 0,
            correctness_survived: 0,
            brittleness_executed: 0,
            brittleness_killed: 0,
            correctness_score_percent: None,
            brittleness_survival_percent: None,
            baseline_duration_ms: None,
            computed_timeout_seconds: None,
            timeout_source: None,
        };
        assert(r.deep_view() == no_mutation()) by {
            assert(r.records.deep_view() =~= Seq::empty());
            assert(r.by_domain.deep_view() =~= Seq::empty());
            assert(r.by_operator.deep_view() =~= Seq::empty());
        }
        r
    }
}

/// Generated properties.
#[derive(Debug, Clone, Copy, PartialEq, Eq, Structural)]
pub struct PropertyMetrics {
    pub generated_artifacts: usize,
    pub no_panic_properties: usize,
    pub deterministic_properties: usize,
    pub invariant_properties: usize,
    pub failed_generated_tests: usize,
    pub strength_score_percent: Option<u8>,
}

impl Default for PropertyMetrics {
    fn default() -> (r: Self)
        ensures
            r == (PropertyMetrics {
                generated_artifacts: 0,
                no_panic_properties: 0,
                deterministic_properties: 0,
                invariant_properties: 0,
                failed_generated_tests: 0,
                strength_score_percent: None,
            }),
    {
        PropertyMetrics {
            generated_artifacts: 0,
            no_panic_properties: 0,
            deterministic_properties: 0,
            invariant_properties: 0,
            failed_generated_tests: 0,
            strength_score_percent: None,
        }
    }
}

/// Fuzzing.
#[derive(Debug, Clone, Copy, PartialEq, Eq, Structural)]
pub struct FuzzMetrics {
    pub generated_harnesses: usize,
    pub targets_executed: usize,
    pub failures: usize,
    pub persisted_repros: usize,
}

impl Default for FuzzMetrics {
    fn default() -> (r: Self)
        ensures
            r == (FuzzMetrics {
                generated_harnesses: 0,
                targets_executed: 0,
                failures: 0,
                persisted_repros: 0,
            }),
    {
        FuzzMetrics {
            generated_harnesses: 0,
            targets_executed: 0,
            failures: 0,
            persisted_repros: 0,
        }
    }
}

/// Regressions and the corpus.
#[derive(Debug, Clone, Copy, PartialEq, Eq, Structural)]
pub struct RegressionMetrics {
    pub assertion_candidates: usize,
    pub promoted_scaffolds: usize,
    pub corpus_entries: usize,
    pub corpus_replayed: usize,
    pub corpus_passed: usize,
    pub corpus_failed: usize,
    pub corpus_skipped: usize,
}

impl Default for RegressionMetrics {
    fn default() -> (r: Self)
        ensures
            r == (RegressionMetrics {
                assertion_candidates: 0,
                promoted_scaffolds: 0,
                corpus_entries: 0,
                corpus_replayed: 0,
                corpus_passed: 0,
                corpus_failed: 0,
                corpus_skipped: 0,
            }),
    {
        RegressionMetrics {
            assertion_candidates: 0,
            promoted_scaffolds: 0,
            corpus_entries: 0,
            corpus_replayed: 0,
            corpus_passed: 0,
            corpus_failed: 0,
            corpus_skipped: 0,
        }
    }
}

/// Differential replay.
#[derive(Debug, Clone, Copy, PartialEq, Eq, Structural)]
pub struct ReplayMetrics {
    pub manifests: usize,
    pub results: usize,
    pub targets: usize,
    pub cases: usize,
}

impl Default for ReplayMetrics {
    fn default() -> (r: Self)
        ensures
            r == (ReplayMetrics {
                manifests: 0,
                results: 0,
                targets: 0,
                cases: 0,
            }),
    {
        ReplayMetrics {
            manifests: 0,
            results: 0,
            targets: 0,
            cases: 0,
        }
    }
}

/// Budgets.
#[derive(Debug, Clone, Copy, PartialEq, Eq, Structural)]
pub struct BudgetMetrics {
    pub budget_plans: usize,
    pub skipped_commands: usize,
    pub timed_out_commands: usize,
}

impl Default for BudgetMetrics {
    fn default() -> (r: Self)
        ensures
            r == (BudgetMetrics {
                budget_plans: 0,
                skipped_commands: 0,
                timed_out_commands: 0,
            }),
    {
        BudgetMetrics {
            budget_plans: 0,
            skipped_commands: 0,
            timed_out_commands: 0,
        }
    }
}

/// Evolution suites and their candidates.
#[derive(Debug, Clone, Copy, PartialEq, Eq, Structural)]
pub struct EvolutionMetrics {
    pub suites: usize,
    pub candidates: usize,
    pub selected: usize,
    pub property_candidates: usize,
    pub mutation_candidates: usize,
    pub fuzz_candidates: usize,
    pub regression_candidates: usize,
    pub replay_candidates: usize,
    pub average_fitness_percent: Option<u8>,
}

impl Default for EvolutionMetrics {
    fn default() -> (r: Self)
        ensures
            r == (EvolutionMetrics {
                suites: 0,
                candidates: 0,
                selected: 0,
                property_candidates: 0,
                mutation_candidates: 0,
                fuzz_candidates: 0,
                regression_candidates: 0,
                replay_candidates: 0,
                average_fitness_percent: None,
            }),
    {
        EvolutionMetrics {
            suites: 0,
            candidates: 0,
            selected: 0,
            property_candidates: 0,
            mutation_candidates: 0,
            fuzz_candidates: 0,
            regression_candidates: 0,
            replay_candidates: 0,
            average_fitness_percent: None,
        }
    }
}

/// Time spent, in milliseconds.
#[derive(Debug, Clone, Copy, PartialEq, Eq, Structural)]
pub struct PerformanceMetrics {
    pub discovery_ms: u128,
    pub generation_ms: u128,
    pub test_execution_ms: u128,
    pub coverage_ms: u128,
    pub replay_ms: u128,
    pub artifact_synthesis_ms: u128,
    pub total_ms: u128,
}

impl Default for PerformanceMetrics {
    fn default() -> (r: Self)
        ensures
            r == (PerformanceMetrics {
                discovery_ms: 0,
                generation_ms: 0,
                test_execution_ms: 0,
                coverage_ms: 0,
                replay_ms: 0,
                artifact_synthesis_ms: 0,
                total_ms: 0,
            }),
    {
        PerformanceMetrics {
            discovery_ms: 0,
            generation_ms: 0,
            test_execution_ms: 0,
            coverage_ms: 0,
            replay_ms: 0,
            artifact_synthesis_ms: 0,
            total_ms: 0,
        }
    }
}

/// Everything that was measured.
#[derive(Debug, PartialEq, Eq)]
pub struct VerificationQuality {
    pub mutation: MutationMetrics,
    pub property: PropertyMetrics,
    pub fuzz: FuzzMetrics,
    pub regression: RegressionMetrics,
    pub replay: ReplayMetrics,
    pub budget: BudgetMetrics,
    pub evolution: EvolutionMetrics,
    pub performance: PerformanceMetrics,
}

/// The mathematical value of a `VerificationQuality`.
pub struct VerificationQualityModel {
    pub mutation: MutationMetricsModel,
    pub property: PropertyMetrics,
    pub fuzz: FuzzMetrics,
    pub regression: RegressionMetrics,
    pub replay: ReplayMetrics,
    pub budget: BudgetMetrics,
    pub evolution: EvolutionMetrics,
    pub performance: PerformanceMetrics,
}

impl DeepView for VerificationQuality {
    type V = VerificationQualityModel;

    open spec fn deep_view(&self) -> VerificationQualityModel {
        VerificationQualityModel {
            mutation: self.mutation.deep_view(),
            property: self.property,
            fuzz: self.fuzz,
            regression: self.regression,
            replay: self.replay,
            budget: self.budget,
            evolution: self.evolution,
            performance: self.performance,
        }
    }
}

impl Clone for VerificationQuality {
    fn clone(&self) -> (r: Self)
        ensures
            r.deep_view() == self.deep_view(),
    {
        VerificationQuality {
            mutation: self.mutation.clone(),
            property: self.property,
            fuzz: self.fuzz,
            regression: self.regression,
            replay: self.replay,
            budget: self.budget,
            evolution: self.evolution,
            performance: self.performance,
        }
    }
}

/// The default value of each part.
pub open spec fn no_quality() -> VerificationQualityModel {
    VerificationQualityModel {
        mutation: no_mutation(),
        property: PropertyMetrics {
            generated_artifacts: 0,
            no_panic_properties: 0,
            deterministic_properties: 0,
            invariant_properties: 0,
            failed_generated_tests: 0,
            strength_score_percent: None,
        },
        fuzz: FuzzMetrics {
            generated_harnesses: 0,
            targets_executed: 0,
            failures: 0,
            persisted_repros: 0,
        },
        regression: RegressionMetrics {
            assertion_candidates: 0,
            promoted_scaffolds: 0,
            corpus_entries: 0,
            corpus_replayed: 0,
            corpus_passed: 0,
            corpus_failed: 0,
            corpus_skipped: 0,
        },
        replay: ReplayMetrics {
            manifests: 0,
            results: 0,
            targets: 0,
            cases: 0,
        },
        budget: BudgetMetrics {
            budget_plans: 0,
            skipped_commands: 0,
            timed_out_commands: 0,
        },
        evolution: EvolutionMetrics {
            suites: 0,
            candidates: 0,
            selected: 0,
            property_candidates: 0,
            mutation_candidates: 0,
            fuzz_candidates: 0,
            regression_candidates: 0,
            replay_candidates: 0,
            average_fitness_percent: None,
        },
        performance: PerformanceMetrics {
            discovery_ms: 0,
            generation_ms: 0,
            test_execution_ms: 0,
            coverage_ms: 0,
            replay_ms: 0,
            artifact_synthesis_ms: 0,
            total_ms: 0,
        },
    }
}

impl Default for VerificationQuality {
    fn default() -> (r: Self)
        ensures
            r.deep_view() == no_quality(),
    {
        VerificationQuality {
            mutation: MutationMetrics::default(),
            property: PropertyMetrics::default(),
            fuzz: FuzzMetrics::default(),
            regression: RegressionMetrics::default(),
            replay: ReplayMetrics::default(),
            budget: BudgetMetrics::default(),
            evolution: EvolutionMetrics::default(),
            performance: PerformanceMetrics::default(),
        }
    }
}

} // verus!
