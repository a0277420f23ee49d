//! Benchmarks: suites of projects with what a verification of each must find.
use vstd::prelude::*;

use crate::api::{
    CommandRecord, CommandRecordModel, CoverageReport, CoverageReportModel, Failure, FailureModel,
    GeneratedArtifact, GeneratedArtifactModel, RiskLevel, TargetKind, TestRunResult,
    TestRunResultModel, VerificationReport, VerificationReportModel, VerificationStrategy,
    VerificationTarget, VerificationTargetModel,
};
use crate::counts::{
    clone_label_counts, count_total, count_words, counts_document, counts_json, counts_of,
    format_counts, label_counts, sum_counts, LabelCount, LabelCountModel,
};
use crate::documents::{performance_metrics_document, performance_metrics_json};
use crate::findings::{command_line, command_words};
use crate::json::{
    big_number, number, number_or_null, optional_text, optional_u8, text, text_or_null, texts,
    texts_model, Items, Json, JsonModel, Members,
};
use crate::metrics::PerformanceMetrics;
use crate::number::{decimal, print_u128, print_u8, print_usize};
use crate::output::{gives, print_document, printed, unsupported_format, OutputFormat};
use crate::seqs::{lemma_take_all, lemma_take_next};
use crate::split::{
    joined, push_text, trim_end_of, trim_start_of, trimmed_end_of, trimmed_start_of,
};
use crate::text::{
    alnum, chars_of, clone_text, clone_texts, contains, ends, ends_with, has_text, is_alnum, owned,
    same, starts, starts_with,
};

verus! {

// ---------------------------------------------------------------------------
// Suites
// ---------------------------------------------------------------------------
/// What a benchmark is meant for.
#[derive(Debug, Clone, Copy, PartialEq, Eq, Structural)]
pub enum BenchProfile {
    Seeded,
    LargeRepo,
    Canary,
}

impl Default for BenchProfile {
    fn default() -> (r: Self)
        ensures
            r == BenchProfile::Seeded,
    {
        BenchProfile::Seeded
    }
}

impl BenchProfile {
    /// The name of the profile.
    pub open spec fn label_text(self) -> Seq<char> {
        match self {
            BenchProfile::Seeded => "seeded"@,
            BenchProfile::LargeRepo => "large-repo"@,
            BenchProfile::Canary => "canary"@,
        }
    }

    /// The name of the profile.
    pub fn label(self) -> (r: &'static str)
        ensures
            r@ == self.label_text(),
    {
        match self {
            BenchProfile::Seeded => "seeded",
            BenchProfile::LargeRepo => "large-repo",
            BenchProfile::Canary => "canary",
        }
    }
}

/// A case of a benchmark: what is verified, and what the report must hold.
#[derive(Debug, PartialEq, Eq)]
pub struct BenchCase {
    pub name: String,
    pub path: String,
    pub language: String,
    pub profile: Option<BenchProfile>,
    pub target: Option<String>,
    pub expect_findings: Vec<String>,
    pub expect_artifacts: Vec<String>,
    pub expect_commands: Vec<String>,
    pub strategies: Vec<String>,
    pub min_findings: Option<usize>,
    pub min_commands: Option<usize>,
    pub min_mutation_findings: Option<usize>,
    pub min_mutants_executed: Option<usize>,
    pub min_mutants_killed: Option<usize>,
    pub min_mutants_survived: Option<usize>,
    pub min_mutation_score: Option<u8>,
    pub min_mutation_effective_workers: Option<usize>,
    pub max_surviving_mutants: Option<usize>,
    pub min_generated_test_failures: Option<usize>,
    pub min_assertion_candidates: Option<usize>,
    pub min_corpus_entries: Option<usize>,
    pub min_replay_cases: Option<usize>,
    pub min_evolution_candidates: Option<usize>,
    pub min_evolution_selected: Option<usize>,
    pub max_duration_ms: Option<u64>,
}

/// The mathematical value of a `BenchCase`.
pub struct BenchCaseModel {
    pub name: Seq<char>,
    pub path: Seq<char>,
    pub language: Seq<char>,
    pub profile: Option<BenchProfile>,
    pub target: Option<Seq<char>>,
    pub expect_findings: Seq<Seq<char>>,
    pub expect_artifacts: Seq<Seq<char>>,
    pub expect_commands: Seq<Seq<char>>,
    pub strategies: Seq<Seq<char>>,
    pub min_findings: Option<usize>,
    pub min_commands: Option<usize>,
    pub min_mutation_findings: Option<usize>,
    pub min_mutants_executed: Option<usize>,
    pub min_mutants_killed: Option<usize>,
    pub min_mutants_survived: Option<usize>,
    pub min_mutation_score: Option<u8>,
    pub min_mutation_effective_workers: Option<usize>,
    pub max_surviving_mutants: Option<usize>,
    pub min_generated_test_failures: Option<usize>,
    pub min_assertion_candidates: Option<usize>,
    pub min_corpus_entries: Option<usize>,
    pub min_replay_cases: Option<usize>,
    pub min_evolution_candidates: Option<usize>,
    pub min_evolution_selected: Option<usize>,
    pub max_duration_ms: Option<u64>,
}

impl DeepView for BenchCase {
    type V = BenchCaseModel;

    open spec fn deep_view(&self) -> BenchCaseModel {
        BenchCaseModel {
            name: self.name@,
            path: self.path@,
            language: self.language@,
            profile: self.profile,
            target: self.target.deep_view(),
            expect_findings: self.expect_findings.deep_view(),
            expect_artifacts: self.expect_artifacts.deep_view(),
            expect_commands: self.expect_commands.deep_view(),
            strategies: self.strategies.deep_view(),
            min_findings: self.min_findings,
            min_commands: self.min_commands,
            min_mutation_findings: self.min_mutation_findings,
            min_mutants_executed: self.min_mutants_executed,
            min_mutants_killed: self.min_mutants_killed,
            min_mutants_survived: self.min_mutants_survived,
            min_mutation_score: self.min_mutation_score,
            min_mutation_effective_workers: self.min_mutation_effective_workers,
            max_surviving_mutants: self.max_surviving_mutants,
            min_generated_test_failures: self.min_generated_test_failures,
            min_assertion_candidates: self.min_assertion_candidates,
            min_corpus_entries: self.min_corpus_entries,
            min_replay_cases: self.min_replay_cases,
            min_evolution_candidates: self.min_evolution_candidates,
            min_evolution_selected: self.min_evolution_selected,
            max_duration_ms: self.max_duration_ms,
        }
    }
}

impl Clone for BenchCase {
    fn clone(&self) -> (r: Self)
        ensures
            r.deep_view() == self.deep_view(),
    {
        BenchCase {
            name: self.name.clone(),
            path: self.path.clone(),
            language: self.language.clone(),
            profile: self.profile,
            target: clone_text(&self.target),
            expect_findings: clone_texts(&self.expect_findings),
            expect_artifacts: clone_texts(&self.expect_artifacts),
            expect_commands: clone_texts(&self.expect_commands),
            strategies: clone_texts(&self.strategies),
            min_findings: self.min_findings,
            min_commands: self.min_commands,
            min_mutation_findings: self.min_mutation_findings,
            min_mutants_executed: self.min_mutants_executed,
            min_mutants_killed: self.min_mutants_killed,
            min_mutants_survived: self.min_mutants_survived,
            min_mutation_score: self.min_mutation_score,
            min_mutation_effective_workers: self.min_mutation_effective_workers,
            max_surviving_mutants: self.max_surviving_mutants,
            min_generated_test_failures: self.min_generated_test_failures,
            min_assertion_candidates: self.min_assertion_candidates,
            min_corpus_entries: self.min_corpus_entries,
            min_replay_cases: self.min_replay_cases,
            min_evolution_candidates: self.min_evolution_candidates,
            min_evolution_selected: self.min_evolution_selected,
            max_duration_ms: self.max_duration_ms,
        }
    }
}

/// The strategy that a case names.
pub open spec fn bench_strategy(value: Seq<char>) -> Option<VerificationStrategy> {
    if value == "existing"@ {
        Some(VerificationStrategy::ExistingTests)
    } else if value == "existing_tests"@ {
        Some(VerificationStrategy::ExistingTests)
    } else if value == "unit"@ {
        Some(VerificationStrategy::UnitTests)
    } else if value == "unit_tests"@ {
        Some(VerificationStrategy::UnitTests)
    } else if value == "property"@ {
        Some(VerificationStrategy::PropertyTests)
    } else if value == "property_tests"@ {
        Some(VerificationStrategy::PropertyTests)
    } else if value == "fuzz"@ {
        Some(VerificationStrategy::Fuzzing)
    } else if value == "fuzzing"@ {
        Some(VerificationStrategy::Fuzzing)
    } else if value == "differential"@ {
        Some(VerificationStrategy::DifferentialTests)
    } else if value == "differential_tests"@ {
        Some(VerificationStrategy::DifferentialTests)
    } else if value == "mutation"@ {
        Some(VerificationStrategy::MutationChecks)
    } else if value == "mutation_checks"@ {
        Some(VerificationStrategy::MutationChecks)
    } else if value == "coverage"@ {
        Some(VerificationStrategy::CoverageFeedback)
    } else if value == "coverage_feedback"@ {
        Some(VerificationStrategy::CoverageFeedback)
    } else {
        None
    }
}

/// The strategy that a case names; what is said where there is none of that name.
pub fn parse_bench_strategy(value: &str) -> (r: Result<VerificationStrategy, String>)
    ensures
        match bench_strategy(value@) {
            Some(strategy) => r == Ok::<VerificationStrategy, String>(strategy),
            None => r matches Err(message) && message@ == unknown_strategy_text(value@),
        },
{
    if same(value, "existing") {
        Ok(VerificationStrategy::ExistingTests)
    } else if same(value, "existing_tests") {
        Ok(VerificationStrategy::ExistingTests)
    } else if same(value, "unit") {
        Ok(VerificationStrategy::UnitTests)
    } else if same(value, "unit_tests") {
        Ok(VerificationStrategy::UnitTests)
    } else if same(value, "property") {
        Ok(VerificationStrategy::PropertyTests)
    } else if same(value, "property_tests") {
        Ok(VerificationStrategy::PropertyTests)
    } else if same(value, "fuzz") {
        Ok(VerificationStrategy::Fuzzing)
    } else if same(value, "fuzzing") {
        Ok(VerificationStrategy::Fuzzing)
    } else if same(value, "differential") {
        Ok(VerificationStrategy::DifferentialTests)
    } else if same(value, "differential_tests") {
        Ok(VerificationStrategy::DifferentialTests)
    } else if same(value, "mutation") {
        Ok(VerificationStrategy::MutationChecks)
    } else if same(value, "mutation_checks") {
        Ok(VerificationStrategy::MutationChecks)
    } else if same(value, "coverage") {
        Ok(VerificationStrategy::CoverageFeedback)
    } else if same(value, "coverage_feedback") {
        Ok(VerificationStrategy::CoverageFeedback)
    } else {
        Err(unknown_strategy(value))
    }
}

/// What is said where no strategy has a name.
pub open spec fn unknown_strategy_text(value: Seq<char>) -> Seq<char> {
    let t = "unknown benchmark strategy `"@ + value + "`"@;
    t
}

fn unknown_strategy(value: &str) -> (r: String)
    ensures
        r@ == unknown_strategy_text(value@),
{
    let mut out = owned("unknown benchmark strategy `");
    out.append(value);
    out.append("`");
    out
}

/// Whether an entry of a project is not copied for a benchmark.
pub open spec fn not_benched(name: Seq<char>) -> bool {
    ||| name == ".git"@
    ||| name == ".veritas"@
    ||| name == "target"@
    ||| name == "vendor"@
    ||| name == "node_modules"@
    ||| name == "veritas_fuzz_test.go"@
    ||| name == "veritas_generated"@
    ||| name == "veritas_generated.rs"@
    ||| starts(name, "veritas_regression_"@)
    ||| ends(name, ".proptest-regressions"@)
}

/// Whether an entry of a project is not copied for a benchmark.
pub fn should_skip_bench_copy_entry(name: &str) -> (r: bool)
    ensures
        r == not_benched(name@),
{
    same(name, ".git")
        || same(name, ".veritas")
        || same(name, "target")
        || same(name, "vendor")
        || same(name, "node_modules")
        || same(name, "veritas_fuzz_test.go")
        || same(name, "veritas_generated")
        || same(name, "veritas_generated.rs") || starts_with(name, "veritas_regression_") || ends_with(name, ".proptest-regressions")
}

/// A letter, digit, dash or underscore, or a dash in place of anything else.
pub open spec fn path_char(c: char) -> char {
    if is_alnum(c) || c == '-' || c == '_' {
        c
    } else {
        '-'
    }
}

/// A name that can stand in a path.
pub open spec fn path_name(name: Seq<char>) -> Seq<char> {
    trimmed_end_of(trimmed_start_of(name.map_values(|c: char| path_char(c)), '-'), '-')
}

/// A name that can stand in a path.
pub fn safe_path_name(name: &str) -> (r: String)
    ensures
        r@ == path_name(name@),
{
    let chars = chars_of(name);
    let mut out = String::new();
    let mut i: usize = 0;
    assert(out@ =~= chars@.take(0).map_values(|c: char| path_char(c)));
    while i < chars.len()
        invariant
            i <= chars@.len(),
            out@ == chars@.take(i as int).map_values(|c: char| path_char(c)),
        decreases chars@.len() - i,
    {
        proof {
            lemma_take_next(chars@, i as int);
        }
        let c = chars[i];
        out.push(
            if alnum(c) || c == '-' || c == '_' {
                c
            } else {
                '-'
            },
        );
        i = i + 1;
        assert(out@ =~= chars@.take(i as int).map_values(|c: char| path_char(c)));
    }
    proof {
        lemma_take_all(chars@);
    }
    trim_end_of(trim_start_of(out.as_str(), '-').as_str(), '-')
}

/// The directory in which a case runs.
pub open spec fn bench_directory_text(name: Seq<char>, millis: u128) -> Seq<char> {
    let t = "veritas-bench-"@ + path_name(name) + "-"@ + decimal(millis as int);
    t
}

/// The directory in which a case runs.
pub fn bench_directory(name: &str, millis: u128) -> (r: String)
    ensures
        r@ == bench_directory_text(name@, millis),
{
    let mut out = owned("veritas-bench-");
    out.append(safe_path_name(name).as_str());
    out.append("-");
    out.append(print_u128(millis).as_str());
    out
}

// ---------------------------------------------------------------------------
// What a report holds
// ---------------------------------------------------------------------------
/// Whether a finding mentions a text.
pub open spec fn mentions(finding: FailureModel, expected: Seq<char>) -> bool {
    has_text(finding.message, expected) || has_text(finding.command, expected) || has_text(
        finding.stdout_excerpt,
        expected,
    ) || has_text(finding.stderr_excerpt, expected)
}

fn is_mentioned(finding: &Failure, expected: &str) -> (r: bool)
    ensures
        r == mentions(finding.deep_view(), expected@),
{
    contains(finding.message.as_str(), expected) || contains(finding.command.as_str(), expected)
        || contains(finding.stdout_excerpt.as_str(), expected) || contains(
        finding.stderr_excerpt.as_str(),
        expected,
    )
}

/// Whether some finding mentions a text.
pub open spec fn some_mention(items: Seq<FailureModel>, expected: Seq<char>) -> bool {
    exists|k: int| 0 <= k < items.len() && mentions((#[trigger] items[k]), expected)
}

fn any_mention(items: &Vec<Failure>, expected: &str) -> (r: bool)
    ensures
        r == some_mention(items.deep_view(), expected@),
{
    let ghost all = items.deep_view();
    let mut i: usize = 0;
    while i < items.len()
        invariant
            i <= items@.len(),
            all == items.deep_view(),
            forall|k: int| 0 <= k < i ==> !(mentions((#[trigger] all[k]), (expected@))),
        decreases items@.len() - i,
    {
        assert(all[i as int] == items@[i as int].deep_view());
        if is_mentioned(&items[i], expected) {
            return true;
        }
        i = i + 1;
    }
    false
}

/// Whether some artifact is of a kind, by its label.
pub open spec fn some_of_kind(items: Seq<GeneratedArtifactModel>, expected: Seq<char>) -> bool {
    exists|k: int| 0 <= k < items.len() && (#[trigger] items[k]).kind.label_text() == expected
}

fn any_of_kind(items: &Vec<GeneratedArtifact>, expected: &str) -> (r: bool)
    ensures
        r == some_of_kind(items.deep_view(), expected@),
{
    let ghost all = items.deep_view();
    let mut i: usize = 0;
    while i < items.len()
        invariant
            i <= items@.len(),
            all == items.deep_view(),
            forall|k: int| 0 <= k < i ==> !((#[trigger] all[k]).kind.label_text() == (expected@)),
        decreases items@.len() - i,
    {
        assert(all[i as int] == items@[i as int].deep_view());
        if same(items[i].kind.label(), expected) {
            return true;
        }
        i = i + 1;
    }
    false
}

/// Whether a command mentions a text.
pub open spec fn command_mentions(command: CommandRecordModel, expected: Seq<char>) -> bool {
    has_text(command_words(command.program, command.args), expected) || has_text(
        command.program,
        expected,
    )
}

fn is_command_mention(command: &CommandRecord, expected: &str) -> (r: bool)
    ensures
        r == command_mentions(command.deep_view(), expected@),
{
    contains(command_line(command.program.as_str(), &command.args).as_str(), expected) || contains(
        command.program.as_str(),
        expected,
    )
}

/// Whether some command mentions a text.
pub open spec fn some_command_mention(items: Seq<CommandRecordModel>, expected: Seq<char>) -> bool {
    exists|k: int| 0 <= k < items.len() && command_mentions((#[trigger] items[k]), expected)
}

fn any_command_mention(items: &Vec<CommandRecord>, expected: &str) -> (r: bool)
    ensures
        r == some_command_mention(items.deep_view(), expected@),
{
    let ghost all = items.deep_view();
    let mut i: usize = 0;
    while i < items.len()
        invariant
            i <= items@.len(),
            all == items.deep_view(),
            forall|k: int| 0 <= k < i ==> !(command_mentions((#[trigger] all[k]), (expected@))),
        decreases items@.len() - i,
    {
        assert(all[i as int] == items@[i as int].deep_view());
        if is_command_mention(&items[i], expected) {
            return true;
        }
        i = i + 1;
    }
    false
}

/// Whether some run has a command that mentions a text.
pub open spec fn some_run_mention(items: Seq<TestRunResultModel>, expected: Seq<char>) -> bool {
    exists|k: int| 0 <= k < items.len() && some_command_mention((#[trigger] items[k]).commands, expected)
}

fn any_run_mention(items: &Vec<TestRunResult>, expected: &str) -> (r: bool)
    ensures
        r == some_run_mention(items.deep_view(), expected@),
{
    let ghost all = items.deep_view();
    let mut i: usize = 0;
    while i < items.len()
        invariant
            i <= items@.len(),
            all == items.deep_view(),
            forall|k: int| 0 <= k < i ==> !(some_command_mention((#[trigger] all[k]).commands, (expected@))),
        decreases items@.len() - i,
    {
        assert(all[i as int] == items@[i as int].deep_view());
        if any_command_mention(&items[i].commands, expected) {
            return true;
        }
        i = i + 1;
    }
    false
}

/// Whether a report holds a finding that mentions a text.
pub fn report_contains_finding(report: &VerificationReport, expected: &str) -> (r: bool)
    ensures
        r == some_mention(report.deep_view().findings, expected@),
{
    any_mention(&report.findings, expected)
}

/// Whether a report holds an artifact of a kind, by its label.
pub fn report_contains_artifact_kind(report: &VerificationReport, expected: &str) -> (r: bool)
    ensures
        r == some_of_kind(report.deep_view().artifacts, expected@),
{
    any_of_kind(&report.artifacts, expected)
}

/// Whether a report holds a command that mentions a text.
pub fn report_contains_command(report: &VerificationReport, expected: &str) -> (r: bool)
    ensures
        r == some_run_mention(report.deep_view().runs, expected@),
{
    any_run_mention(&report.runs, expected)
}

/// The expected findings that a report does not hold.
pub open spec fn missing_findings_of(
    report: VerificationReportModel,
    items: Seq<Seq<char>>,
) -> Seq<Seq<char>>
    decreases items.len(),
{
    if items.len() == 0 {
        Seq::empty()
    } else if !some_mention(report.findings, items.last()) {
        missing_findings_of(report, items.drop_last()).push(items.last())
    } else {
        missing_findings_of(report, items.drop_last())
    }
}

fn missing_findings(report: &VerificationReport, items: &Vec<String>) -> (r: Vec<String>)
    ensures
        r.deep_view() == missing_findings_of(report.deep_view(), items.deep_view()),
{
    let mut out: Vec<String> = Vec::new();
    let ghost all = items.deep_view();
    let mut i: usize = 0;
    assert(out.deep_view() == missing_findings_of(report.deep_view(), all.take(0)));
    while i < items.len()
        invariant
            i <= items@.len(),
            all == items.deep_view(),
            out.deep_view() == missing_findings_of(report.deep_view(), all.take(i as int)),
        decreases items@.len() - i,
    {
        proof {
            lemma_take_next(all, i as int);
        }
        if !report_contains_finding(report, items[i].as_str()) {
            push_text(&mut out, owned(items[i].as_str()));
        }
        i = i + 1;
    }
    proof {
        lemma_take_all(all);
    }
    out
}

/// The expected artifacts that a report does not hold.
pub open spec fn missing_artifacts_of(
    report: VerificationReportModel,
    items: Seq<Seq<char>>,
) -> Seq<Seq<char>>
    decreases items.len(),
{
    if items.len() == 0 {
        Seq::empty()
    } else if !some_of_kind(report.artifacts, items.last()) {
        missing_artifacts_of(report, items.drop_last()).push(items.last())
    } else {
        missing_artifacts_of(report, items.drop_last())
    }
}

fn missing_artifacts(report: &VerificationReport, items: &Vec<String>) -> (r: Vec<String>)
    ensures
        r.deep_view() == missing_artifacts_of(report.deep_view(), items.deep_view()),
{
    let mut out: Vec<String> = Vec::new();
    let ghost all = items.deep_view();
    let mut i: usize = 0;
    assert(out.deep_view() == missing_artifacts_of(report.deep_view(), all.take(0)));
    while i < items.len()
        invariant
            i <= items@.len(),
            all == items.deep_view(),
            out.deep_view() == missing_artifacts_of(report.deep_view(), all.take(i as int)),
        decreases items@.len() - i,
    {
        proof {
            lemma_take_next(all, i as int);
        }
        if !report_contains_artifact_kind(report, items[i].as_str()) {
            push_text(&mut out, owned(items[i].as_str()));
        }
        i = i + 1;
    }
    proof {
        lemma_take_all(all);
    }
    out
}

/// The expected commands that a report does not hold.
pub open spec fn missing_commands_of(
    report: VerificationReportModel,
    items: Seq<Seq<char>>,
) -> Seq<Seq<char>>
    decreases items.len(),
{
    if items.len() == 0 {
        Seq::empty()
    } else if !some_run_mention(report.runs, items.last()) {
        missing_commands_of(report, items.drop_last()).push(items.last())
    } else {
        missing_commands_of(report, items.drop_last())
    }
}

fn missing_commands(report: &VerificationReport, items: &Vec<String>) -> (r: Vec<String>)
    ensures
        r.deep_view() == missing_commands_of(report.deep_view(), items.deep_view()),
{
    let mut out: Vec<String> = Vec::new();
    let ghost all = items.deep_view();
    let mut i: usize = 0;
    assert(out.deep_view() == missing_commands_of(report.deep_view(), all.take(0)));
    while i < items.len()
        invariant
            i <= items@.len(),
            all == items.deep_view(),
            out.deep_view() == missing_commands_of(report.deep_view(), all.take(i as int)),
        decreases items@.len() - i,
    {
        proof {
            lemma_take_next(all, i as int);
        }
        if !report_contains_command(report, items[i].as_str()) {
            push_text(&mut out, owned(items[i].as_str()));
        }
        i = i + 1;
    }
    proof {
        lemma_take_all(all);
    }
    out
}

/// The severities of findings.
pub open spec fn severities_of(items: Seq<FailureModel>) -> Seq<Seq<char>>
    decreases items.len(),
{
    if items.len() == 0 {
        Seq::empty()
    } else {
        severities_of(items.drop_last()).push(items.last().severity.label_text())
    }
}

fn severity_labels(items: &Vec<Failure>) -> (r: Vec<String>)
    ensures
        r.deep_view() == severities_of(items.deep_view()),
{
    let mut out: Vec<String> = Vec::new();
    let ghost all = items.deep_view();
    let mut i: usize = 0;
    assert(out.deep_view() == severities_of(all.take(0)));
    while i < items.len()
        invariant
            i <= items@.len(),
            all == items.deep_view(),
            out.deep_view() == severities_of(all.take(i as int)),
        decreases items@.len() - i,
    {
        proof {
            lemma_take_next(all, i as int);
        }
        push_text(&mut out, owned(items[i].severity.label()));
        i = i + 1;
    }
    proof {
        lemma_take_all(all);
    }
    out
}

/// The kinds of artifacts.
pub open spec fn kinds_of(items: Seq<GeneratedArtifactModel>) -> Seq<Seq<char>>
    decreases items.len(),
{
    if items.len() == 0 {
        Seq::empty()
    } else {
        kinds_of(items.drop_last()).push(items.last().kind.label_text())
    }
}

fn kind_labels(items: &Vec<GeneratedArtifact>) -> (r: Vec<String>)
    ensures
        r.deep_view() == kinds_of(items.deep_view()),
{
    let mut out: Vec<String> = Vec::new();
    let ghost all = items.deep_view();
    let mut i: usize = 0;
    assert(out.deep_view() == kinds_of(all.take(0)));
    while i < items.len()
        invariant
            i <= items@.len(),
            all == items.deep_view(),
            out.deep_view() == kinds_of(all.take(i as int)),
        decreases items@.len() - i,
    {
        proof {
            lemma_take_next(all, i as int);
        }
        push_text(&mut out, owned(items[i].kind.label()));
        i = i + 1;
    }
    proof {
        lemma_take_all(all);
    }
    out
}

// ---------------------------------------------------------------------------
// Metrics
// ---------------------------------------------------------------------------
/// What is measured of the report of a case.
#[derive(Debug, PartialEq, Eq)]
pub struct BenchMetrics {
    pub target_count: usize,
    pub function_targets: usize,
    pub package_targets: usize,
    pub high_risk_targets: usize,
    pub coverage_files: usize,
    pub command_count: usize,
    pub findings_by_severity: Vec<LabelCount>,
    pub artifacts_by_kind: Vec<LabelCount>,
    pub mutants_generated: usize,
    pub mutants_executed: usize,
    pub mutants_killed: usize,
    pub mutants_survived: usize,
    pub mutants_skipped: usize,
    pub mutation_requested_workers: usize,
    pub mutation_effective_workers: usize,
    pub mutation_isolation_failures: usize,
    pub mutation_isolation_setup_ms: u128,
    pub mutation_isolation_copy_ms: u128,
    pub mutation_isolation_excluded_path_count: usize,
    pub mutation_score_percent: Option<u8>,
    pub mutation_findings: usize,
    pub property_artifacts: usize,
    pub generated_test_failures: usize,
    pub fuzz_harnesses: usize,
    pub fuzz_targets_executed: usize,
    pub fuzz_failures: usize,
    pub persisted_repros: usize,
    pub property_no_panic: usize,
    pub property_deterministic: usize,
    pub property_strength_score_percent: Option<u8>,
    pub assertion_candidates: usize,
    pub corpus_entries: usize,
    pub corpus_replayed: usize,
    pub corpus_failed: usize,
    pub replay_cases: usize,
    pub budget_skipped_commands: usize,
    pub budget_timed_out_commands: usize,
    pub evolution_suites: usize,
    pub evolution_candidates: usize,
    pub evolution_selected: usize,
    pub evolution_average_fitness_percent: Option<u8>,
    pub phase_timings: PerformanceMetrics,
}

/// The mathematical value of a `BenchMetrics`.
pub struct BenchMetricsModel {
    pub target_count: usize,
    pub function_targets: usize,
    pub package_targets: usize,
    pub high_risk_targets: usize,
    pub coverage_files: usize,
    pub command_count: usize,
    pub findings_by_severity: Seq<LabelCountModel>,
    pub artifacts_by_kind: Seq<LabelCountModel>,
    pub mutants_generated: usize,
    pub mutants_executed: usize,
    pub mutants_killed: usize,
    pub mutants_survived: usize,
    pub mutants_skipped: usize,
    pub mutation_requested_workers: usize,
    pub mutation_effective_workers: usize,
    pub mutation_isolation_failures: usize,
    pub mutation_isolation_setup_ms: u128,
    pub mutation_isolation_copy_ms: u128,
    pub mutation_isolation_excluded_path_count: usize,
    pub mutation_score_percent: Option<u8>,
    pub mutation_findings: usize,
    pub property_artifacts: usize,
    pub generated_test_failures: usize,
    pub fuzz_harnesses: usize,
    pub fuzz_targets_executed: usize,
    pub fuzz_failures: usize,
    pub persisted_repros: usize,
    pub property_no_panic: usize,
    pub property_deterministic: usize,
    pub property_strength_score_percent: Option<u8>,
    pub assertion_candidates: usize,
    pub corpus_entries: usize,
    pub corpus_replayed: usize,
    pub corpus_failed: usize,
    pub replay_cases: usize,
    pub budget_skipped_commands: usize,
    pub budget_timed_out_commands: usize,
    pub evolution_suites: usize,
    pub evolution_candidates: usize,
    pub evolution_selected: usize,
    pub evolution_average_fitness_percent: Option<u8>,
    pub phase_timings: PerformanceMetrics,
}

impl DeepView for BenchMetrics {
    type V = BenchMetricsModel;

    open spec fn deep_view(&self) -> BenchMetricsModel {
        BenchMetricsModel {
            target_count: self.target_count,
            function_targets: self.function_targets,
            package_targets: self.package_targets,
            high_risk_targets: self.high_risk_targets,
            coverage_files: self.coverage_files,
            command_count: self.command_count,
            findings_by_severity: self.findings_by_severity.deep_view(),
            artifacts_by_kind: self.artifacts_by_kind.deep_view(),
            mutants_generated: self.mutants_generated,
            mutants_executed: self.mutants_executed,
            mutants_killed: self.mutants_killed,
            mutants_survived: self.mutants_survived,
            mutants_skipped: self.mutants_skipped,
            mutation_requested_workers: self.mutation_requested_workers,
            mutation_effective_workers: self.mutation_effective_workers,
            mutation_isolation_failures: self.mutation_isolation_failures,
            mutation_isolation_setup_ms: self.mutation_isolation_setup_ms,
            mutation_isolation_copy_ms: self.mutation_isolation_copy_ms,
            mutation_isolation_excluded_path_count: self.mutation_isolation_excluded_path_count,
            mutation_score_percent: self.mutation_score_percent,
            mutation_findings: self.mutation_findings,
            property_artifacts: self.property_artifacts,
            generated_test_failures: self.generated_test_failures,
            fuzz_harnesses: self.fuzz_harnesses,
            fuzz_targets_executed: self.fuzz_targets_executed,
            fuzz_failures: self.fuzz_failures,
            persisted_repros: self.persisted_repros,
            property_no_panic: self.property_no_panic,
            property_deterministic: self.property_deterministic,
            property_strength_score_percent: self.property_strength_score_percent,
            assertion_candidates: self.assertion_candidates,
            corpus_entries: self.corpus_entries,
            corpus_replayed: self.corpus_replayed,
            corpus_failed: self.corpus_failed,
            replay_cases: self.replay_cases,
            budget_skipped_commands: self.budget_skipped_commands,
            budget_timed_out_commands: self.budget_timed_out_commands,
            evolution_suites: self.evolution_suites,
            evolution_candidates: self.evolution_candidates,
            evolution_selected: self.evolution_selected,
            evolution_average_fitness_percent: self.evolution_average_fitness_percent,
            phase_timings: self.phase_timings,
        }
    }
}

impl Clone for BenchMetrics {
    fn clone(&self) -> (r: Self)
        ensures
            r.deep_view() == self.deep_view(),
    {
        BenchMetrics {
            target_count: self.target_count,
            function_targets: self.function_targets,
            package_targets: self.package_targets,
            high_risk_targets: self.high_risk_targets,
            coverage_files: self.coverage_files,
            command_count: self.command_count,
            findings_by_severity: clone_label_counts(&self.findings_by_severity),
            artifacts_by_kind: clone_label_counts(&self.artifacts_by_kind),
            mutants_generated: self.mutants_generated,
            mutants_executed: self.mutants_executed,
            mutants_killed: self.mutants_killed,
            mutants_survived: self.mutants_survived,
            mutants_skipped: self.mutants_skipped,
            mutation_requested_workers: self.mutation_requested_workers,
            mutation_effective_workers: self.mutation_effective_workers,
            mutation_isolation_failures: self.mutation_isolation_failures,
            mutation_isolation_setup_ms: self.mutation_isolation_setup_ms,
            mutation_isolation_copy_ms: self.mutation_isolation_copy_ms,
            mutation_isolation_excluded_path_count: self.mutation_isolation_excluded_path_count,
            mutation_score_percent: self.mutation_score_percent,
            mutation_findings: self.mutation_findings,
            property_artifacts: self.property_artifacts,
            generated_test_failures: self.generated_test_failures,
            fuzz_harnesses: self.fuzz_harnesses,
            fuzz_targets_executed: self.fuzz_targets_executed,
            fuzz_failures: self.fuzz_failures,
            persisted_repros: self.persisted_repros,
            property_no_panic: self.property_no_panic,
            property_deterministic: self.property_deterministic,
            property_strength_score_percent: self.property_strength_score_percent,
            assertion_candidates: self.assertion_candidates,
            corpus_entries: self.corpus_entries,
            corpus_replayed: self.corpus_replayed,
            corpus_failed: self.corpus_failed,
            replay_cases: self.replay_cases,
            budget_skipped_commands: self.budget_skipped_commands,
            budget_timed_out_commands: self.budget_timed_out_commands,
            evolution_suites: self.evolution_suites,
            evolution_candidates: self.evolution_candidates,
            evolution_selected: self.evolution_selected,
            evolution_average_fitness_percent: self.evolution_average_fitness_percent,
            phase_timings: self.phase_timings,
        }
    }
}

/// How many targets are of a kind.
pub open spec fn targets_of_kind(items: Seq<VerificationTargetModel>, kind: TargetKind) -> int
    decreases items.len(),
{
    if items.len() == 0 {
        0
    } else {
        targets_of_kind(items.drop_last(), kind) + if items.last().kind == kind {
            1int
        } else {
            0int
        }
    }
}

/// How many targets are of a kind.
pub fn count_kind(items: &Vec<VerificationTarget>, kind: TargetKind) -> (r: usize)
    ensures
        r == targets_of_kind(items.deep_view(), kind),
        r <= items@.len(),
{
    let ghost all = items.deep_view();
    let mut n: usize = 0;
    let mut i: usize = 0;
    while i < items.len()
        invariant
            i <= items@.len(),
            n <= i,
            all == items.deep_view(),
            n == targets_of_kind(all.take(i as int), kind),
        decreases items@.len() - i,
    {
        proof {
            lemma_take_next(all, i as int);
        }
        if items[i].kind == kind {
            n = n + 1;
        }
        i = i + 1;
    }
    proof {
        lemma_take_all(all);
    }
    n
}

/// How many targets are of high risk.
pub open spec fn targets_of_high_risk(items: Seq<VerificationTargetModel>) -> int
    decreases items.len(),
{
    if items.len() == 0 {
        0
    } else {
        targets_of_high_risk(items.drop_last()) + if items.last().risk == RiskLevel::High {
            1int
        } else {
            0int
        }
    }
}

fn count_high_risk(items: &Vec<VerificationTarget>) -> (r: usize)
    ensures
        r == targets_of_high_risk(items.deep_view()),
        r <= items@.len(),
{
    let ghost all = items.deep_view();
    let mut n: usize = 0;
    let mut i: usize = 0;
    while i < items.len()
        invariant
            i <= items@.len(),
            n <= i,
            all == items.deep_view(),
            n == targets_of_high_risk(all.take(i as int)),
        decreases items@.len() - i,
    {
        proof {
            lemma_take_next(all, i as int);
        }
        if items[i].risk == RiskLevel::High {
            n = n + 1;
        }
        i = i + 1;
    }
    proof {
        lemma_take_all(all);
    }
    n
}

/// How many findings say that a mutant survived.
pub open spec fn survivors_in(items: Seq<FailureModel>) -> int
    decreases items.len(),
{
    if items.len() == 0 {
        0
    } else {
        survivors_in(items.drop_last()) + if has_text(items.last().message, "mutation survived"@) {
            1int
        } else {
            0int
        }
    }
}

fn count_survivors(items: &Vec<Failure>) -> (r: usize)
    ensures
        r == survivors_in(items.deep_view()),
        r <= items@.len(),
{
    let ghost all = items.deep_view();
    let mut n: usize = 0;
    let mut i: usize = 0;
    while i < items.len()
        invariant
            i <= items@.len(),
            n <= i,
            all == items.deep_view(),
            n == survivors_in(all.take(i as int)),
        decreases items@.len() - i,
    {
        proof {
            lemma_take_next(all, i as int);
        }
        if contains(items[i].message.as_str(), "mutation survived") {
            n = n + 1;
        }
        i = i + 1;
    }
    proof {
        lemma_take_all(all);
    }
    n
}

/// How many files the coverage is about.
pub open spec fn coverage_file_total(items: Seq<CoverageReportModel>) -> int
    decreases items.len(),
{
    if items.len() == 0 {
        0
    } else {
        coverage_file_total(items.drop_last()) + items.last().files.len()
    }
}

proof fn lemma_coverage_file_total_grows(items: Seq<CoverageReportModel>, n: int)
    requires
        0 <= n <= items.len(),
    ensures
        0 <= coverage_file_total(items.take(n)) <= coverage_file_total(items),
    decreases items.len() - n,
{
    if n == items.len() {
        lemma_take_all(items);
        lemma_coverage_file_total_is_not_negative(items);
    } else {
        lemma_coverage_file_total_grows(items, n + 1);
        lemma_take_next(items, n);
        assert(items.take(n + 1).drop_last() =~= items.take(n));
        lemma_coverage_file_total_is_not_negative(items.take(n));
    }
}

proof fn lemma_coverage_file_total_is_not_negative(items: Seq<CoverageReportModel>)
    ensures
        0 <= coverage_file_total(items),
    decreases items.len(),
{
    if items.len() > 0 {
        lemma_coverage_file_total_is_not_negative(items.drop_last());
    }
}

fn sum_coverage_files(items: &Vec<CoverageReport>) -> (r: Option<usize>)
    ensures
        r matches Some(n) ==> n == coverage_file_total(items.deep_view()),
        r is None ==> coverage_file_total(items.deep_view()) > usize::MAX,
{
    let ghost all = items.deep_view();
    let mut total: usize = 0;
    let mut i: usize = 0;
    assert(all.take(0).len() == 0);
    while i < items.len()
        invariant
            i <= items@.len(),
            all == items.deep_view(),
            total == coverage_file_total(all.take(i as int)),
        decreases items@.len() - i,
    {
        proof {
            lemma_take_next(all, i as int);
            assert(all[i as int] == items@[i as int].deep_view());
        }
        assert(items@[i as int].files@.len() == items@[i as int].files.deep_view().len());
        match total.checked_add(items[i].files.len()) {
            Some(sum) => {
                total = sum;
            },
            None => {
                proof {
                    lemma_coverage_file_total_grows(all, i + 1);
                }
                return None;
            },
        }
        i = i + 1;
    }
    proof {
        lemma_take_all(all);
    }
    Some(total)
}

/// How many commands runs have.
pub open spec fn command_total(items: Seq<TestRunResultModel>) -> int
    decreases items.len(),
{
    if items.len() == 0 {
        0
    } else {
        command_total(items.drop_last()) + items.last().commands.len()
    }
}

proof fn lemma_command_total_grows(items: Seq<TestRunResultModel>, n: int)
    requires
        0 <= n <= items.len(),
    ensures
        0 <= command_total(items.take(n)) <= command_total(items),
    decreases items.len() - n,
{
    if n == items.len() {
        lemma_take_all(items);
        lemma_command_total_is_not_negative(items);
    } else {
        lemma_command_total_grows(items, n + 1);
        lemma_take_next(items, n);
        assert(items.take(n + 1).drop_last() =~= items.take(n));
        lemma_command_total_is_not_negative(items.take(n));
    }
}

proof fn lemma_command_total_is_not_negative(items: Seq<TestRunResultModel>)
    ensures
        0 <= command_total(items),
    decreases items.len(),
{
    if items.len() > 0 {
        lemma_command_total_is_not_negative(items.drop_last());
    }
}

fn sum_commands(items: &Vec<TestRunResult>) -> (r: Option<usize>)
    ensures
        r matches Some(n) ==> n == command_total(items.deep_view()),
        r is None ==> command_total(items.deep_view()) > usize::MAX,
{
    let ghost all = items.deep_view();
    let mut total: usize = 0;
    let mut i: usize = 0;
    assert(all.take(0).len() == 0);
    while i < items.len()
        invariant
            i <= items@.len(),
            all == items.deep_view(),
            total == command_total(all.take(i as int)),
        decreases items@.len() - i,
    {
        proof {
            lemma_take_next(all, i as int);
            assert(all[i as int] == items@[i as int].deep_view());
        }
        assert(items@[i as int].commands@.len() == items@[i as int].commands.deep_view().len());
        match total.checked_add(items[i].commands.len()) {
            Some(sum) => {
                total = sum;
            },
            None => {
                proof {
                    lemma_command_total_grows(all, i + 1);
                }
                return None;
            },
        }
        i = i + 1;
    }
    proof {
        lemma_take_all(all);
    }
    Some(total)
}

/// What is measured of a report.
pub open spec fn metrics_of(report: VerificationReportModel) -> BenchMetricsModel {
    BenchMetricsModel {
        target_count: report.targets.len() as usize,
        function_targets: targets_of_kind(report.targets, TargetKind::Function) as usize,
        package_targets: targets_of_kind(report.targets, TargetKind::Package) as usize,
        high_risk_targets: targets_of_high_risk(report.targets) as usize,
        coverage_files: coverage_file_total(report.coverage) as usize,
        command_count: command_total(report.runs) as usize,
        findings_by_severity: counts_of(severities_of(report.findings)),
        artifacts_by_kind: counts_of(kinds_of(report.artifacts)),
        mutants_generated: report.quality.mutation.generated,
        mutants_executed: report.quality.mutation.executed,
        mutants_killed: report.quality.mutation.killed,
        mutants_survived: report.quality.mutation.survived,
        mutants_skipped: report.quality.mutation.skipped,
        mutation_requested_workers: report.quality.mutation.requested_workers,
        mutation_effective_workers: report.quality.mutation.effective_workers,
        mutation_isolation_failures: report.quality.mutation.isolation_failures,
        mutation_isolation_setup_ms: report.quality.mutation.isolation_setup_ms,
        mutation_isolation_copy_ms: report.quality.mutation.isolation_copy_ms,
        mutation_isolation_excluded_path_count: report.quality.mutation.isolation_excluded_path_count,
        mutation_score_percent: report.quality.mutation.score_percent,
        mutation_findings: survivors_in(report.findings) as usize,
        property_artifacts: report.quality.property.generated_artifacts,
        generated_test_failures: report.quality.property.failed_generated_tests,
        fuzz_harnesses: report.quality.fuzz.generated_harnesses,
        fuzz_targets_executed: report.quality.fuzz.targets_executed,
        fuzz_failures: report.quality.fuzz.failures,
        persisted_repros: report.quality.fuzz.persisted_repros,
        property_no_panic: report.quality.property.no_panic_properties,
        property_deterministic: report.quality.property.deterministic_properties,
        property_strength_score_percent: report.quality.property.strength_score_percent,
        assertion_candidates: report.quality.regression.assertion_candidates,
        corpus_entries: report.quality.regression.corpus_entries,
        corpus_replayed: report.quality.regression.corpus_replayed,
        corpus_failed: report.quality.regression.corpus_failed,
        replay_cases: report.quality.replay.cases,
        budget_skipped_commands: report.quality.budget.skipped_commands,
        budget_timed_out_commands: report.quality.budget.timed_out_commands,
        evolution_suites: report.quality.evolution.suites,
        evolution_candidates: report.quality.evolution.candidates,
        evolution_selected: report.quality.evolution.selected,
        evolution_average_fitness_percent: report.quality.evolution.average_fitness_percent,
        phase_timings: report.quality.performance,
    }
}

/// Whether what is measured of a report fits machine integers.
pub open spec fn metrics_fit(report: VerificationReportModel) -> bool {
    coverage_file_total(report.coverage) <= usize::MAX && command_total(report.runs) <= usize::MAX
}

/// What is measured of a report; nothing where a number does not fit a machine integer.
pub fn bench_metrics(report: &VerificationReport) -> (r: Option<BenchMetrics>)
    ensures
        r is Some == metrics_fit(report.deep_view()),
        r matches Some(metrics) ==> metrics.deep_view() == metrics_of(report.deep_view()),
{
    assert(report.targets@.len() == report.targets.deep_view().len());
    match (sum_coverage_files(&report.coverage), sum_commands(&report.runs)) {
        (Some(coverage_files), Some(command_count)) => Some(
            BenchMetrics {
                target_count: report.targets.len(),
                function_targets: count_kind(&report.targets, TargetKind::Function),
                package_targets: count_kind(&report.targets, TargetKind::Package),
                high_risk_targets: count_high_risk(&report.targets),
                coverage_files,
                command_count,
                findings_by_severity: label_counts(&severity_labels(&report.findings)),
                artifacts_by_kind: label_counts(&kind_labels(&report.artifacts)),
                mutants_generated: report.quality.mutation.generated,
                mutants_executed: report.quality.mutation.executed,
                mutants_killed: report.quality.mutation.killed,
                mutants_survived: report.quality.mutation.survived,
                mutants_skipped: report.quality.mutation.skipped,
                mutation_requested_workers: report.quality.mutation.requested_workers,
                mutation_effective_workers: report.quality.mutation.effective_workers,
                mutation_isolation_failures: report.quality.mutation.isolation_failures,
                mutation_isolation_setup_ms: report.quality.mutation.isolation_setup_ms,
                mutation_isolation_copy_ms: report.quality.mutation.isolation_copy_ms,
                mutation_isolation_excluded_path_count: report.quality.mutation.isolation_excluded_path_count,
                mutation_score_percent: report.quality.mutation.score_percent,
                mutation_findings: count_survivors(&report.findings),
                property_artifacts: report.quality.property.generated_artifacts,
                generated_test_failures: report.quality.property.failed_generated_tests,
                fuzz_harnesses: report.quality.fuzz.generated_harnesses,
                fuzz_targets_executed: report.quality.fuzz.targets_executed,
                fuzz_failures: report.quality.fuzz.failures,
                persisted_repros: report.quality.fuzz.persisted_repros,
                property_no_panic: report.quality.property.no_panic_properties,
                property_deterministic: report.quality.property.deterministic_properties,
                property_strength_score_percent: report.quality.property.strength_score_percent,
                assertion_candidates: report.quality.regression.assertion_candidates,
                corpus_entries: report.quality.regression.corpus_entries,
                corpus_replayed: report.quality.regression.corpus_replayed,
                corpus_failed: report.quality.regression.corpus_failed,
                replay_cases: report.quality.replay.cases,
                budget_skipped_commands: report.quality.budget.skipped_commands,
                budget_timed_out_commands: report.quality.budget.timed_out_commands,
                evolution_suites: report.quality.evolution.suites,
                evolution_candidates: report.quality.evolution.candidates,
                evolution_selected: report.quality.evolution.selected,
                evolution_average_fitness_percent: report.quality.evolution.average_fitness_percent,
                phase_timings: report.quality.performance,
            },
        ),
        _ => None,
    }
}

// ---------------------------------------------------------------------------
// Thresholds
// ---------------------------------------------------------------------------
/// What is said of a number below its limit.
pub open spec fn too_low_text(
    name: Seq<char>,
    actual: int,
    limit_name: Seq<char>,
    limit: int,
) -> Seq<char> {
    let t = name + " "@ + decimal(actual) + " < "@ + limit_name + " "@ + decimal(limit);
    t
}

fn too_low(name: &str, actual: u128, limit_name: &str, limit: u128) -> (r: String)
    ensures
        r@ == too_low_text(name@, actual as int, limit_name@, limit as int),
{
    let mut out = owned(name);
    out.append(" ");
    out.append(print_u128(actual).as_str());
    out.append(" < ");
    out.append(limit_name);
    out.append(" ");
    out.append(print_u128(limit).as_str());
    out
}

/// What is said of a number above its limit.
pub open spec fn too_high_text(
    name: Seq<char>,
    actual: int,
    limit_name: Seq<char>,
    limit: int,
) -> Seq<char> {
    let t = name + " "@ + decimal(actual) + " > "@ + limit_name + " "@ + decimal(limit);
    t
}

fn too_high(name: &str, actual: u128, limit_name: &str, limit: u128) -> (r: String)
    ensures
        r@ == too_high_text(name@, actual as int, limit_name@, limit as int),
{
    let mut out = owned(name);
    out.append(" ");
    out.append(print_u128(actual).as_str());
    out.append(" > ");
    out.append(limit_name);
    out.append(" ");
    out.append(print_u128(limit).as_str());
    out
}

/// A limit as a number, where there is one.
pub open spec fn limit_of(limit: Option<usize>) -> Option<int> {
    match limit {
        Some(n) => Some(n as int),
        None => None,
    }
}

/// What is said of a number and its lower limit: nothing where it is kept, or there is
/// none.
pub open spec fn below(
    name: Seq<char>,
    actual: int,
    limit_name: Seq<char>,
    limit: Option<int>,
) -> Seq<Seq<char>> {
    match limit {
        Some(n) => if actual < n {
            seq![too_low_text(name, actual, limit_name, n)]
        } else {
            Seq::empty()
        },
        None => Seq::empty(),
    }
}

/// What is said of a number and its upper limit: nothing where it is kept, or there is
/// none.
pub open spec fn above(
    name: Seq<char>,
    actual: int,
    limit_name: Seq<char>,
    limit: Option<int>,
) -> Seq<Seq<char>> {
    match limit {
        Some(n) => if actual > n {
            seq![too_high_text(name, actual, limit_name, n)]
        } else {
            Seq::empty()
        },
        None => Seq::empty(),
    }
}

fn push_below(
    failures: &mut Vec<String>,
    name: &str,
    actual: u128,
    limit_name: &str,
    limit: Option<usize>,
)
    ensures
        final(failures).deep_view() == old(failures).deep_view() + below(
            name@,
            actual as int,
            limit_name@,
            limit_of(limit),
        ),
{
    let ghost before = failures.deep_view();
    if let Some(n) = limit {
        if actual < n as u128 {
            push_text(failures, too_low(name, actual, limit_name, n as u128));
        }
    }
    assert(failures.deep_view() =~= before + below(
        name@,
        actual as int,
        limit_name@,
        limit_of(limit),
    ));
}

fn push_above(
    failures: &mut Vec<String>,
    name: &str,
    actual: u128,
    limit_name: &str,
    limit: Option<u64>,
)
    ensures
        final(failures).deep_view() == old(failures).deep_view() + above(
            name@,
            actual as int,
            limit_name@,
            match limit {
                Some(n) => Some(n as int),
                None => None,
            },
        ),
{
    let ghost before = failures.deep_view();
    if let Some(n) = limit {
        if actual > n as u128 {
            push_text(failures, too_high(name, actual, limit_name, n as u128));
        }
    }
    assert(failures.deep_view() =~= before + above(
        name@,
        actual as int,
        limit_name@,
        match limit {
            Some(n) => Some(n as int),
            None => None,
        },
    ));
}

/// A percentage, or zero where it is not known.
pub open spec fn known_percent(percent: Option<u8>) -> int {
    match percent {
        Some(n) => n as int,
        None => 0,
    }
}

/// A limit of a percentage as a number, where there is one.
pub open spec fn percent_limit(limit: Option<u8>) -> Option<int> {
    match limit {
        Some(n) => Some(n as int),
        None => None,
    }
}

/// A limit of a duration as a number, where there is one.
pub open spec fn duration_limit(limit: Option<u64>) -> Option<int> {
    match limit {
        Some(n) => Some(n as int),
        None => None,
    }
}

fn widen_percent(limit: Option<u8>) -> (r: Option<usize>)
    ensures
        limit_of(r) == percent_limit(limit),
{
    match limit {
        Some(n) => Some(n as usize),
        None => None,
    }
}

fn widen_limit(limit: Option<usize>) -> (r: Option<u64>)
    ensures
        duration_limit(r) == limit_of(limit),
{
    match limit {
        Some(n) => Some(n as u64),
        None => None,
    }
}

/// What is said of the limits of a case that a report does not keep, in order.
pub open spec fn broken_limits(
    case: BenchCaseModel,
    metrics: BenchMetricsModel,
    duration_ms: u128,
) -> Seq<Seq<char>> {
    Seq::<Seq<char>>::empty()
        + below("findings"@, count_total(metrics.findings_by_severity), "min_findings"@, limit_of(case.min_findings))
        + below("commands"@, (metrics.command_count) as int, "min_commands"@, limit_of(case.min_commands))
        + below("mutation_findings"@, (metrics.mutation_findings) as int, "min_mutation_findings"@, limit_of(case.min_mutation_findings))
        + below("mutants_executed"@, (metrics.mutants_executed) as int, "min_mutants_executed"@, limit_of(case.min_mutants_executed))
        + below("mutants_killed"@, (metrics.mutants_killed) as int, "min_mutants_killed"@, limit_of(case.min_mutants_killed))
        + below("mutants_survived"@, (metrics.mutants_survived) as int, "min_mutants_survived"@, limit_of(case.min_mutants_survived))
        + below("mutation_score_percent"@, known_percent(metrics.mutation_score_percent), "min_mutation_score"@, percent_limit(case.min_mutation_score))
        + below("mutation_effective_workers"@, (metrics.mutation_effective_workers) as int, "min_mutation_effective_workers"@, limit_of(case.min_mutation_effective_workers))
        + above("mutants_survived"@, (metrics.mutants_survived) as int, "max_surviving_mutants"@, limit_of(case.max_surviving_mutants))
        + below("generated_test_failures"@, (metrics.generated_test_failures) as int, "min_generated_test_failures"@, limit_of(case.min_generated_test_failures))
        + below("assertion_candidates"@, (metrics.assertion_candidates) as int, "min_assertion_candidates"@, limit_of(case.min_assertion_candidates))
        + below("corpus_entries"@, (metrics.corpus_entries) as int, "min_corpus_entries"@, limit_of(case.min_corpus_entries))
        + below("replay_cases"@, (metrics.replay_cases) as int, "min_replay_cases"@, limit_of(case.min_replay_cases))
        + below("evolution_candidates"@, (metrics.evolution_candidates) as int, "min_evolution_candidates"@, limit_of(case.min_evolution_candidates))
        + below("evolution_selected"@, (metrics.evolution_selected) as int, "min_evolution_selected"@, limit_of(case.min_evolution_selected))
        + above("duration_ms"@, (duration_ms) as int, "max_duration_ms"@, duration_limit(case.max_duration_ms))
}

/// What is said of the limits of a case that a report does not keep, in order.
pub fn bench_threshold_failures(
    case: &BenchCase,
    metrics: &BenchMetrics,
    duration_ms: u128,
) -> (r: Vec<String>)
    ensures
        r.deep_view() == broken_limits(case.deep_view(), metrics.deep_view(), duration_ms),
{
    let score: u8 = match metrics.mutation_score_percent {
        Some(n) => n,
        None => 0,
    };
    let mut failures: Vec<String> = Vec::new();
    assert(failures.deep_view() =~= Seq::<Seq<char>>::empty());
    push_below(&mut failures, "findings", sum_counts(&metrics.findings_by_severity), "min_findings", case.min_findings);
    push_below(&mut failures, "commands", metrics.command_count as u128, "min_commands", case.min_commands);
    push_below(&mut failures, "mutation_findings", metrics.mutation_findings as u128, "min_mutation_findings", case.min_mutation_findings);
    push_below(&mut failures, "mutants_executed", metrics.mutants_executed as u128, "min_mutants_executed", case.min_mutants_executed);
    push_below(&mut failures, "mutants_killed", metrics.mutants_killed as u128, "min_mutants_killed", case.min_mutants_killed);
    push_below(&mut failures, "mutants_survived", metrics.mutants_survived as u128, "min_mutants_survived", case.min_mutants_survived);
    push_below(&mut failures, "mutation_score_percent", score as u128, "min_mutation_score", widen_percent(case.min_mutation_score));
    push_below(&mut failures, "mutation_effective_workers", metrics.mutation_effective_workers as u128, "min_mutation_effective_workers", case.min_mutation_effective_workers);
    push_above(&mut failures, "mutants_survived", metrics.mutants_survived as u128, "max_surviving_mutants", widen_limit(case.max_surviving_mutants));
    push_below(&mut failures, "generated_test_failures", metrics.generated_test_failures as u128, "min_generated_test_failures", case.min_generated_test_failures);
    push_below(&mut failures, "assertion_candidates", metrics.assertion_candidates as u128, "min_assertion_candidates", case.min_assertion_candidates);
    push_below(&mut failures, "corpus_entries", metrics.corpus_entries as u128, "min_corpus_entries", case.min_corpus_entries);
    push_below(&mut failures, "replay_cases", metrics.replay_cases as u128, "min_replay_cases", case.min_replay_cases);
    push_below(&mut failures, "evolution_candidates", metrics.evolution_candidates as u128, "min_evolution_candidates", case.min_evolution_candidates);
    push_below(&mut failures, "evolution_selected", metrics.evolution_selected as u128, "min_evolution_selected", case.min_evolution_selected);
    push_above(&mut failures, "duration_ms", duration_ms, "max_duration_ms", case.max_duration_ms);
    failures
}

/// A case without limits breaks none.
pub proof fn law_no_limits_no_failures(
    case: BenchCaseModel,
    metrics: BenchMetricsModel,
    duration_ms: u128,
)
    requires
        case.min_findings is None,
        case.min_commands is None,
        case.min_mutation_findings is None,
        case.min_mutants_executed is None,
        case.min_mutants_killed is None,
        case.min_mutants_survived is None,
        case.min_mutation_score is None,
        case.min_mutation_effective_workers is None,
        case.max_surviving_mutants is None,
        case.min_generated_test_failures is None,
        case.min_assertion_candidates is None,
        case.min_corpus_entries is None,
        case.min_replay_cases is None,
        case.min_evolution_candidates is None,
        case.min_evolution_selected is None,
        case.max_duration_ms is None,
    ensures
        broken_limits(case, metrics, duration_ms).len() == 0,
{
}

/// A case breaks a limit exactly where a number is below its least value, the share of killed
/// mutants is lower than asked for or unknown, or more mutants survived or more time passed
/// than allowed.
#[verifier::spinoff_prover]
#[verifier::rlimit(60)]
pub proof fn law_limits_are_broken_by_numbers_beyond_them(
    case: BenchCaseModel,
    metrics: BenchMetricsModel,
    duration_ms: u128,
)
    ensures
        broken_limits(case, metrics, duration_ms).len() > 0 <==> {
            ||| case.min_findings is Some && count_total(metrics.findings_by_severity) < case.min_findings->0
            ||| case.min_commands is Some && metrics.command_count < case.min_commands->0
            ||| case.min_mutation_findings is Some && metrics.mutation_findings < case.min_mutation_findings->0
            ||| case.min_mutants_executed is Some && metrics.mutants_executed < case.min_mutants_executed->0
            ||| case.min_mutants_killed is Some && metrics.mutants_killed < case.min_mutants_killed->0
            ||| case.min_mutants_survived is Some && metrics.mutants_survived < case.min_mutants_survived->0
            ||| case.min_mutation_effective_workers is Some && metrics.mutation_effective_workers < case.min_mutation_effective_workers->0
            ||| case.min_generated_test_failures is Some && metrics.generated_test_failures < case.min_generated_test_failures->0
            ||| case.min_assertion_candidates is Some && metrics.assertion_candidates < case.min_assertion_candidates->0
            ||| case.min_corpus_entries is Some && metrics.corpus_entries < case.min_corpus_entries->0
            ||| case.min_replay_cases is Some && metrics.replay_cases < case.min_replay_cases->0
            ||| case.min_evolution_candidates is Some && metrics.evolution_candidates < case.min_evolution_candidates->0
            ||| case.min_evolution_selected is Some && metrics.evolution_selected < case.min_evolution_selected->0
            ||| case.min_mutation_score is Some && case.min_mutation_score->0 > 0 && (
            metrics.mutation_score_percent is None || metrics.mutation_score_percent->0
                < case.min_mutation_score->0)
            ||| case.max_surviving_mutants is Some && metrics.mutants_survived
                > case.max_surviving_mutants->0
            ||| case.max_duration_ms is Some && duration_ms > case.max_duration_ms->0
        },
{
}

// ---------------------------------------------------------------------------
// Reports
// ---------------------------------------------------------------------------
/// What came of a case.
#[derive(Debug, PartialEq, Eq)]
pub struct BenchCaseReport {
    pub name: String,
    pub language: String,
    pub profile: BenchProfile,
    pub source: String,
    pub passed: bool,
    pub metrics: BenchMetrics,
    pub findings: usize,
    pub artifacts: usize,
    pub missing_findings: Vec<String>,
    pub missing_artifacts: Vec<String>,
    pub missing_commands: Vec<String>,
    pub threshold_failures: Vec<String>,
    pub duration_ms: u128,
}

/// The mathematical value of a `BenchCaseReport`.
pub struct BenchCaseReportModel {
    pub name: Seq<char>,
    pub language: Seq<char>,
    pub profile: BenchProfile,
    pub source: Seq<char>,
    pub passed: bool,
    pub metrics: BenchMetricsModel,
    pub findings: usize,
    pub artifacts: usize,
    pub missing_findings: Seq<Seq<char>>,
    pub missing_artifacts: Seq<Seq<char>>,
    pub missing_commands: Seq<Seq<char>>,
    pub threshold_failures: Seq<Seq<char>>,
    pub duration_ms: u128,
}

impl DeepView for BenchCaseReport {
    type V = BenchCaseReportModel;

    open spec fn deep_view(&self) -> BenchCaseReportModel {
        BenchCaseReportModel {
            name: self.name@,
            language: self.language@,
            profile: self.profile,
            source: self.source@,
            passed: self.passed,
            metrics: self.metrics.deep_view(),
            findings: self.findings,
            artifacts: self.artifacts,
            missing_findings: self.missing_findings.deep_view(),
            missing_artifacts: self.missing_artifacts.deep_view(),
            missing_commands: self.missing_commands.deep_view(),
            threshold_failures: self.threshold_failures.deep_view(),
            duration_ms: self.duration_ms,
        }
    }
}

impl Clone for BenchCaseReport {
    fn clone(&self) -> (r: Self)
        ensures
            r.deep_view() == self.deep_view(),
    {
        BenchCaseReport {
            name: self.name.clone(),
            language: self.language.clone(),
            profile: self.profile,
            source: self.source.clone(),
            passed: self.passed,
            metrics: self.metrics.clone(),
            findings: self.findings,
            artifacts: self.artifacts,
            missing_findings: clone_texts(&self.missing_findings),
            missing_artifacts: clone_texts(&self.missing_artifacts),
            missing_commands: clone_texts(&self.missing_commands),
            threshold_failures: clone_texts(&self.threshold_failures),
            duration_ms: self.duration_ms,
        }
    }
}

/// A copy of bench case reports.
pub fn clone_bench_case_reports(items: &Vec<BenchCaseReport>) -> (r: Vec<BenchCaseReport>)
    ensures
        r.deep_view() == items.deep_view(),
        r@.len() == items@.len(),
{
    let mut out: Vec<BenchCaseReport> = Vec::new();
    let mut i: usize = 0;
    while i < items.len()
        invariant
            i <= items@.len(),
            out@.len() == i,
            forall|j: int| 0 <= j < i ==> #[trigger] out@[j].deep_view() == items@[j].deep_view(),
        decreases items@.len() - i,
    {
        out.push(items[i].clone());
        i = i + 1;
    }
    assert(out.deep_view() == items.deep_view());
    out
}

/// What came of a case: it passed where everything expected is there and every limit is
/// kept.
pub open spec fn case_report(
    profile: BenchProfile,
    case: BenchCaseModel,
    source: Seq<char>,
    report: VerificationReportModel,
    duration_ms: u128,
) -> BenchCaseReportModel {
    let findings = missing_findings_of(report, case.expect_findings);
    let artifacts = missing_artifacts_of(report, case.expect_artifacts);
    let commands = missing_commands_of(report, case.expect_commands);
    let limits = broken_limits(case, metrics_of(report), duration_ms);
    BenchCaseReportModel {
        name: case.name,
        language: case.language,
        profile: match case.profile {
            Some(own) => own,
            None => profile,
        },
        source,
        passed: findings.len() == 0 && artifacts.len() == 0 && commands.len() == 0 && limits.len()
            == 0,
        metrics: metrics_of(report),
        findings: report.findings.len() as usize,
        artifacts: report.artifacts.len() as usize,
        missing_findings: findings,
        missing_artifacts: artifacts,
        missing_commands: commands,
        threshold_failures: limits,
        duration_ms,
    }
}

/// What came of a case; nothing where a number does not fit a machine integer.
pub fn run_bench_case(
    profile: BenchProfile,
    case: &BenchCase,
    source: &str,
    report: &VerificationReport,
    duration_ms: u128,
) -> (r: Option<BenchCaseReport>)
    ensures
        r is Some == metrics_fit(report.deep_view()),
        r matches Some(result) ==> result.deep_view() == case_report(
            profile,
            case.deep_view(),
            source@,
            report.deep_view(),
            duration_ms,
        ),
{
    let metrics = match bench_metrics(report) {
        Some(metrics) => metrics,
        None => return None,
    };
    let findings = missing_findings(report, &case.expect_findings);
    let artifacts = missing_artifacts(report, &case.expect_artifacts);
    let commands = missing_commands(report, &case.expect_commands);
    let limits = bench_threshold_failures(case, &metrics, duration_ms);
    assert(findings@.len() == findings.deep_view().len());
    assert(artifacts@.len() == artifacts.deep_view().len());
    assert(commands@.len() == commands.deep_view().len());
    assert(limits@.len() == limits.deep_view().len());
    assert(report.findings@.len() == report.findings.deep_view().len());
    assert(report.artifacts@.len() == report.artifacts.deep_view().len());
    let passed = findings.len() == 0 && artifacts.len() == 0 && commands.len() == 0 && limits.len()
        == 0;
    Some(
        BenchCaseReport {
            name: owned(case.name.as_str()),
            language: owned(case.language.as_str()),
            profile: match case.profile {
                Some(own) => own,
                None => profile,
            },
            source: owned(source),
            passed,
            metrics,
            findings: report.findings.len(),
            artifacts: report.artifacts.len(),
            missing_findings: findings,
            missing_artifacts: artifacts,
            missing_commands: commands,
            threshold_failures: limits,
            duration_ms,
        },
    )
}

/// All cases together.
#[derive(Debug, PartialEq, Eq)]
pub struct BenchSummary {
    pub total_cases: usize,
    pub passed_cases: usize,
    pub large_repo_cases: usize,
    pub total_duration_ms: u128,
    pub total_targets: usize,
    pub high_risk_targets: usize,
    pub total_commands: usize,
    pub total_findings: usize,
    pub total_artifacts: usize,
    pub total_mutants_executed: usize,
    pub total_replay_cases: usize,
    pub total_evolution_selected: usize,
    pub slowest_case: Option<String>,
}

/// The mathematical value of a `BenchSummary`.
pub struct BenchSummaryModel {
    pub total_cases: usize,
    pub passed_cases: usize,
    pub large_repo_cases: usize,
    pub total_duration_ms: u128,
    pub total_targets: usize,
    pub high_risk_targets: usize,
    pub total_commands: usize,
    pub total_findings: usize,
    pub total_artifacts: usize,
    pub total_mutants_executed: usize,
    pub total_replay_cases: usize,
    pub total_evolution_selected: usize,
    pub slowest_case: Option<Seq<char>>,
}

impl DeepView for BenchSummary {
    type V = BenchSummaryModel;

    open spec fn deep_view(&self) -> BenchSummaryModel {
        BenchSummaryModel {
            total_cases: self.total_cases,
            passed_cases: self.passed_cases,
            large_repo_cases: self.large_repo_cases,
            total_duration_ms: self.total_duration_ms,
            total_targets: self.total_targets,
            high_risk_targets: self.high_risk_targets,
            total_commands: self.total_commands,
            total_findings: self.total_findings,
            total_artifacts: self.total_artifacts,
            total_mutants_executed: self.total_mutants_executed,
            total_replay_cases: self.total_replay_cases,
            total_evolution_selected: self.total_evolution_selected,
            slowest_case: self.slowest_case.deep_view(),
        }
    }
}

impl Clone for BenchSummary {
    fn clone(&self) -> (r: Self)
        ensures
            r.deep_view() == self.deep_view(),
    {
        BenchSummary {
            total_cases: self.total_cases,
            passed_cases: self.passed_cases,
            large_repo_cases: self.large_repo_cases,
            total_duration_ms: self.total_duration_ms,
            total_targets: self.total_targets,
            high_risk_targets: self.high_risk_targets,
            total_commands: self.total_commands,
            total_findings: self.total_findings,
            total_artifacts: self.total_artifacts,
            total_mutants_executed: self.total_mutants_executed,
            total_replay_cases: self.total_replay_cases,
            total_evolution_selected: self.total_evolution_selected,
            slowest_case: clone_text(&self.slowest_case),
        }
    }
}

/// How many cases passed.
pub open spec fn passed_count(items: Seq<BenchCaseReportModel>) -> int
    decreases items.len(),
{
    if items.len() == 0 {
        0
    } else {
        passed_count(items.drop_last()) + if items.last().passed {
            1int
        } else {
            0int
        }
    }
}

/// How many cases passed.
pub fn count_passed(items: &Vec<BenchCaseReport>) -> (r: usize)
    ensures
        r == passed_count(items.deep_view()),
        r <= items@.len(),
{
    let ghost all = items.deep_view();
    let mut n: usize = 0;
    let mut i: usize = 0;
    while i < items.len()
        invariant
            i <= items@.len(),
            n <= i,
            all == items.deep_view(),
            n == passed_count(all.take(i as int)),
        decreases items@.len() - i,
    {
        proof {
            lemma_take_next(all, i as int);
        }
        if items[i].passed {
            n = n + 1;
        }
        i = i + 1;
    }
    proof {
        lemma_take_all(all);
    }
    n
}

/// How many cases are of large projects.
pub open spec fn large_count(items: Seq<BenchCaseReportModel>) -> int
    decreases items.len(),
{
    if items.len() == 0 {
        0
    } else {
        large_count(items.drop_last()) + if items.last().profile == BenchProfile::LargeRepo {
            1int
        } else {
            0int
        }
    }
}

fn count_large(items: &Vec<BenchCaseReport>) -> (r: usize)
    ensures
        r == large_count(items.deep_view()),
        r <= items@.len(),
{
    let ghost all = items.deep_view();
    let mut n: usize = 0;
    let mut i: usize = 0;
    while i < items.len()
        invariant
            i <= items@.len(),
            n <= i,
            all == items.deep_view(),
            n == large_count(all.take(i as int)),
        decreases items@.len() - i,
    {
        proof {
            lemma_take_next(all, i as int);
        }
        if items[i].profile == BenchProfile::LargeRepo {
            n = n + 1;
        }
        i = i + 1;
    }
    proof {
        lemma_take_all(all);
    }
    n
}

/// How long the cases took.
pub open spec fn total_duration_ms_in(items: Seq<BenchCaseReportModel>) -> int
    decreases items.len(),
{
    if items.len() == 0 {
        0
    } else {
        total_duration_ms_in(items.drop_last()) + items.last().duration_ms
    }
}

proof fn lemma_total_duration_ms_in_grows(items: Seq<BenchCaseReportModel>, n: int)
    requires
        0 <= n <= items.len(),
    ensures
        0 <= total_duration_ms_in(items.take(n)) <= total_duration_ms_in(items),
    decreases items.len() - n,
{
    if n == items.len() {
        lemma_take_all(items);
        lemma_total_duration_ms_in_is_not_negative(items);
    } else {
        lemma_total_duration_ms_in_grows(items, n + 1);
        lemma_take_next(items, n);
        assert(items.take(n + 1).drop_last() =~= items.take(n));
        lemma_total_duration_ms_in_is_not_negative(items.take(n));
    }
}

proof fn lemma_total_duration_ms_in_is_not_negative(items: Seq<BenchCaseReportModel>)
    ensures
        0 <= total_duration_ms_in(items),
    decreases items.len(),
{
    if items.len() > 0 {
        lemma_total_duration_ms_in_is_not_negative(items.drop_last());
    }
}

fn sum_total_duration_ms(items: &Vec<BenchCaseReport>) -> (r: Option<u128>)
    ensures
        r matches Some(n) ==> n == total_duration_ms_in(items.deep_view()),
        r is None ==> total_duration_ms_in(items.deep_view()) > u128::MAX,
{
    let ghost all = items.deep_view();
    let mut total: u128 = 0;
    let mut i: usize = 0;
    assert(all.take(0).len() == 0);
    while i < items.len()
        invariant
            i <= items@.len(),
            all == items.deep_view(),
            total == total_duration_ms_in(all.take(i as int)),
        decreases items@.len() - i,
    {
        proof {
            lemma_take_next(all, i as int);
            assert(all[i as int] == items@[i as int].deep_view());
        }
        match total.checked_add(items[i].duration_ms) {
            Some(sum) => {
                total = sum;
            },
            None => {
                proof {
                    lemma_total_duration_ms_in_grows(all, i + 1);
                }
                return None;
            },
        }
        i = i + 1;
    }
    proof {
        lemma_take_all(all);
    }
    Some(total)
}

/// How many targets the cases have.
pub open spec fn total_targets_in(items: Seq<BenchCaseReportModel>) -> int
    decreases items.len(),
{
    if items.len() == 0 {
        0
    } else {
        total_targets_in(items.drop_last()) + items.last().metrics.target_count
    }
}

proof fn lemma_total_targets_in_grows(items: Seq<BenchCaseReportModel>, n: int)
    requires
        0 <= n <= items.len(),
    ensures
        0 <= total_targets_in(items.take(n)) <= total_targets_in(items),
    decreases items.len() - n,
{
    if n == items.len() {
        lemma_take_all(items);
        lemma_total_targets_in_is_not_negative(items);
    } else {
        lemma_total_targets_in_grows(items, n + 1);
        lemma_take_next(items, n);
        assert(items.take(n + 1).drop_last() =~= items.take(n));
        lemma_total_targets_in_is_not_negative(items.take(n));
    }
}

proof fn lemma_total_targets_in_is_not_negative(items: Seq<BenchCaseReportModel>)
    ensures
        0 <= total_targets_in(items),
    decreases items.len(),
{
    if items.len() > 0 {
        lemma_total_targets_in_is_not_negative(items.drop_last());
    }
}

fn sum_total_targets(items: &Vec<BenchCaseReport>) -> (r: Option<usize>)
    ensures
        r matches Some(n) ==> n == total_targets_in(items.deep_view()),
        r is None ==> total_targets_in(items.deep_view()) > usize::MAX,
{
    let ghost all = items.deep_view();
    let mut total: usize = 0;
    let mut i: usize = 0;
    assert(all.take(0).len() == 0);
    while i < items.len()
        invariant
            i <= items@.len(),
            all == items.deep_view(),
            total == total_targets_in(all.take(i as int)),
        decreases items@.len() - i,
    {
        proof {
            lemma_take_next(all, i as int);
            assert(all[i as int] == items@[i as int].deep_view());
        }
        match total.checked_add(items[i].metrics.target_count) {
            Some(sum) => {
                total = sum;
            },
            None => {
                proof {
                    lemma_total_targets_in_grows(all, i + 1);
                }
                return None;
            },
        }
        i = i + 1;
    }
    proof {
        lemma_take_all(all);
    }
    Some(total)
}

/// How many targets of high risk the cases have.
pub open spec fn high_risk_targets_in(items: Seq<BenchCaseReportModel>) -> int
    decreases items.len(),
{
    if items.len() == 0 {
        0
    } else {
        high_risk_targets_in(items.drop_last()) + items.last().metrics.high_risk_targets
    }
}

proof fn lemma_high_risk_targets_in_grows(items: Seq<BenchCaseReportModel>, n: int)
    requires
        0 <= n <= items.len(),
    ensures
        0 <= high_risk_targets_in(items.take(n)) <= high_risk_targets_in(items),
    decreases items.len() - n,
{
    if n == items.len() {
        lemma_take_all(items);
        lemma_high_risk_targets_in_is_not_negative(items);
    } else {
        lemma_high_risk_targets_in_grows(items, n + 1);
        lemma_take_next(items, n);
        assert(items.take(n + 1).drop_last() =~= items.take(n));
        lemma_high_risk_targets_in_is_not_negative(items.take(n));
    }
}

proof fn lemma_high_risk_targets_in_is_not_negative(items: Seq<BenchCaseReportModel>)
    ensures
        0 <= high_risk_targets_in(items),
    decreases items.len(),
{
    if items.len() > 0 {
        lemma_high_risk_targets_in_is_not_negative(items.drop_last());
    }
}

fn sum_high_risk_targets(items: &Vec<BenchCaseReport>) -> (r: Option<usize>)
    ensures
        r matches Some(n) ==> n == high_risk_targets_in(items.deep_view()),
        r is None ==> high_risk_targets_in(items.deep_view()) > usize::MAX,
{
    let ghost all = items.deep_view();
    let mut total: usize = 0;
    let mut i: usize = 0;
    assert(all.take(0).len() == 0);
    while i < items.len()
        invariant
            i <= items@.len(),
            all == items.deep_view(),
            total == high_risk_targets_in(all.take(i as int)),
        decreases items@.len() - i,
    {
        proof {
            lemma_take_next(all, i as int);
            assert(all[i as int] == items@[i as int].deep_view());
        }
        match total.checked_add(items[i].metrics.high_risk_targets) {
            Some(sum) => {
                total = sum;
            },
            None => {
                proof {
                    lemma_high_risk_targets_in_grows(all, i + 1);
                }
                return None;
            },
        }
        i = i + 1;
    }
    proof {
        lemma_take_all(all);
    }
    Some(total)
}

/// How many commands the cases have.
pub open spec fn total_commands_in(items: Seq<BenchCaseReportModel>) -> int
    decreases items.len(),
{
    if items.len() == 0 {
        0
    } else {
        total_commands_in(items.drop_last()) + items.last().metrics.command_count
    }
}

proof fn lemma_total_commands_in_grows(items: Seq<BenchCaseReportModel>, n: int)
    requires
        0 <= n <= items.len(),
    ensures
        0 <= total_commands_in(items.take(n)) <= total_commands_in(items),
    decreases items.len() - n,
{
    if n == items.len() {
        lemma_take_all(items);
        lemma_total_commands_in_is_not_negative(items);
    } else {
        lemma_total_commands_in_grows(items, n + 1);
        lemma_take_next(items, n);
        assert(items.take(n + 1).drop_last() =~= items.take(n));
        lemma_total_commands_in_is_not_negative(items.take(n));
    }
}

proof fn lemma_total_commands_in_is_not_negative(items: Seq<BenchCaseReportModel>)
    ensures
        0 <= total_commands_in(items),
    decreases items.len(),
{
    if items.len() > 0 {
        lemma_total_commands_in_is_not_negative(items.drop_last());
    }
}

fn sum_total_commands(items: &Vec<BenchCaseReport>) -> (r: Option<usize>)
    ensures
        r matches Some(n) ==> n == total_commands_in(items.deep_view()),
        r is None ==> total_commands_in(items.deep_view()) > usize::MAX,
{
    let ghost all = items.deep_view();
    let mut total: usize = 0;
    let mut i: usize = 0;
    assert(all.take(0).len() == 0);
    while i < items.len()
        invariant
            i <= items@.len(),
            all == items.deep_view(),
            total == total_commands_in(all.take(i as int)),
        decreases items@.len() - i,
    {
        proof {
            lemma_take_next(all, i as int);
            assert(all[i as int] == items@[i as int].deep_view());
        }
        match total.checked_add(items[i].metrics.command_count) {
            Some(sum) => {
                total = sum;
            },
            None => {
                proof {
                    lemma_total_commands_in_grows(all, i + 1);
                }
                return None;
            },
        }
        i = i + 1;
    }
    proof {
        lemma_take_all(all);
    }
    Some(total)
}

/// How many findings the cases have.
pub open spec fn total_findings_in(items: Seq<BenchCaseReportModel>) -> int
    decreases items.len(),
{
    if items.len() == 0 {
        0
    } else {
        total_findings_in(items.drop_last()) + items.last().findings
    }
}

proof fn lemma_total_findings_in_grows(items: Seq<BenchCaseReportModel>, n: int)
    requires
        0 <= n <= items.len(),
    ensures
        0 <= total_findings_in(items.take(n)) <= total_findings_in(items),
    decreases items.len() - n,
{
    if n == items.len() {
        lemma_take_all(items);
        lemma_total_findings_in_is_not_negative(items);
    } else {
        lemma_total_findings_in_grows(items, n + 1);
        lemma_take_next(items, n);
        assert(items.take(n + 1).drop_last() =~= items.take(n));
        lemma_total_findings_in_is_not_negative(items.take(n));
    }
}

proof fn lemma_total_findings_in_is_not_negative(items: Seq<BenchCaseReportModel>)
    ensures
        0 <= total_findings_in(items),
    decreases items.len(),
{
    if items.len() > 0 {
        lemma_total_findings_in_is_not_negative(items.drop_last());
    }
}

fn sum_total_findings(items: &Vec<BenchCaseReport>) -> (r: Option<usize>)
    ensures
        r matches Some(n) ==> n == total_findings_in(items.deep_view()),
        r is None ==> total_findings_in(items.deep_view()) > usize::MAX,
{
    let ghost all = items.deep_view();
    let mut total: usize = 0;
    let mut i: usize = 0;
    assert(all.take(0).len() == 0);
    while i < items.len()
        invariant
            i <= items@.len(),
            all == items.deep_view(),
            total == total_findings_in(all.take(i as int)),
        decreases items@.len() - i,
    {
        proof {
            lemma_take_next(all, i as int);
            assert(all[i as int] == items@[i as int].deep_view());
        }
        match total.checked_add(items[i].findings) {
            Some(sum) => {
                total = sum;
            },
            None => {
                proof {
                    lemma_total_findings_in_grows(all, i + 1);
                }
                return None;
            },
        }
        i = i + 1;
    }
    proof {
        lemma_take_all(all);
    }
    Some(total)
}

/// How many artifacts the cases have.
pub open spec fn total_artifacts_in(items: Seq<BenchCaseReportModel>) -> int
    decreases items.len(),
{
    if items.len() == 0 {
        0
    } else {
        total_artifacts_in(items.drop_last()) + items.last().artifacts
    }
}

proof fn lemma_total_artifacts_in_grows(items: Seq<BenchCaseReportModel>, n: int)
    requires
        0 <= n <= items.len(),
    ensures
        0 <= total_artifacts_in(items.take(n)) <= total_artifacts_in(items),
    decreases items.len() - n,
{
    if n == items.len() {
        lemma_take_all(items);
        lemma_total_artifacts_in_is_not_negative(items);
    } else {
        lemma_total_artifacts_in_grows(items, n + 1);
        lemma_take_next(items, n);
        assert(items.take(n + 1).drop_last() =~= items.take(n));
        lemma_total_artifacts_in_is_not_negative(items.take(n));
    }
}

proof fn lemma_total_artifacts_in_is_not_negative(items: Seq<BenchCaseReportModel>)
    ensures
        0 <= total_artifacts_in(items),
    decreases items.len(),
{
    if items.len() > 0 {
        lemma_total_artifacts_in_is_not_negative(items.drop_last());
    }
}

fn sum_total_artifacts(items: &Vec<BenchCaseReport>) -> (r: Option<usize>)
    ensures
        r matches Some(n) ==> n == total_artifacts_in(items.deep_view()),
        r is None ==> total_artifacts_in(items.deep_view()) > usize::MAX,
{
    let ghost all = items.deep_view();
    let mut total: usize = 0;
    let mut i: usize = 0;
    assert(all.take(0).len() == 0);
    while i < items.len()
        invariant
            i <= items@.len(),
            all == items.deep_view(),
            total == total_artifacts_in(all.take(i as int)),
        decreases items@.len() - i,
    {
        proof {
            lemma_take_next(all, i as int);
            assert(all[i as int] == items@[i as int].deep_view());
        }
        match total.checked_add(items[i].artifacts) {
            Some(sum) => {
                total = sum;
            },
            None => {
                proof {
                    lemma_total_artifacts_in_grows(all, i + 1);
                }
                return None;
            },
        }
        i = i + 1;
    }
    proof {
        lemma_take_all(all);
    }
    Some(total)
}

/// How many mutants were executed in the cases.
pub open spec fn total_mutants_executed_in(items: Seq<BenchCaseReportModel>) -> int
    decreases items.len(),
{
    if items.len() == 0 {
        0
    } else {
        total_mutants_executed_in(items.drop_last()) + items.last().metrics.mutants_executed
    }
}

proof fn lemma_total_mutants_executed_in_grows(items: Seq<BenchCaseReportModel>, n: int)
    requires
        0 <= n <= items.len(),
    ensures
        0 <= total_mutants_executed_in(items.take(n)) <= total_mutants_executed_in(items),
    decreases items.len() - n,
{
    if n == items.len() {
        lemma_take_all(items);
        lemma_total_mutants_executed_in_is_not_negative(items);
    } else {
        lemma_total_mutants_executed_in_grows(items, n + 1);
        lemma_take_next(items, n);
        assert(items.take(n + 1).drop_last() =~= items.take(n));
        lemma_total_mutants_executed_in_is_not_negative(items.take(n));
    }
}

proof fn lemma_total_mutants_executed_in_is_not_negative(items: Seq<BenchCaseReportModel>)
    ensures
        0 <= total_mutants_executed_in(items),
    decreases items.len(),
{
    if items.len() > 0 {
        lemma_total_mutants_executed_in_is_not_negative(items.drop_last());
    }
}

fn sum_total_mutants_executed(items: &Vec<BenchCaseReport>) -> (r: Option<usize>)
    ensures
        r matches Some(n) ==> n == total_mutants_executed_in(items.deep_view()),
        r is None ==> total_mutants_executed_in(items.deep_view()) > usize::MAX,
{
    let ghost all = items.deep_view();
    let mut total: usize = 0;
    let mut i: usize = 0;
    assert(all.take(0).len() == 0);
    while i < items.len()
        invariant
            i <= items@.len(),
            all == items.deep_view(),
            total == total_mutants_executed_in(all.take(i as int)),
        decreases items@.len() - i,
    {
        proof {
            lemma_take_next(all, i as int);
            assert(all[i as int] == items@[i as int].deep_view());
        }
        match total.checked_add(items[i].metrics.mutants_executed) {
            Some(sum) => {
                total = sum;
            },
            None => {
                proof {
                    lemma_total_mutants_executed_in_grows(all, i + 1);
                }
                return None;
            },
        }
        i = i + 1;
    }
    proof {
        lemma_take_all(all);
    }
    Some(total)
}

/// How many replay cases the cases have.
pub open spec fn total_replay_cases_in(items: Seq<BenchCaseReportModel>) -> int
    decreases items.len(),
{
    if items.len() == 0 {
        0
    } else {
        total_replay_cases_in(items.drop_last()) + items.last().metrics.replay_cases
    }
}

proof fn lemma_total_replay_cases_in_grows(items: Seq<BenchCaseReportModel>, n: int)
    requires
        0 <= n <= items.len(),
    ensures
        0 <= total_replay_cases_in(items.take(n)) <= total_replay_cases_in(items),
    decreases items.len() - n,
{
    if n == items.len() {
        lemma_take_all(items);
        lemma_total_replay_cases_in_is_not_negative(items);
    } else {
        lemma_total_replay_cases_in_grows(items, n + 1);
        lemma_take_next(items, n);
        assert(items.take(n + 1).drop_last() =~= items.take(n));
        lemma_total_replay_cases_in_is_not_negative(items.take(n));
    }
}

proof fn lemma_total_replay_cases_in_is_not_negative(items: Seq<BenchCaseReportModel>)
    ensures
        0 <= total_replay_cases_in(items),
    decreases items.len(),
{
    if items.len() > 0 {
        lemma_total_replay_cases_in_is_not_negative(items.drop_last());
    }
}

fn sum_total_replay_cases(items: &Vec<BenchCaseReport>) -> (r: Option<usize>)
    ensures
        r matches Some(n) ==> n == total_replay_cases_in(items.deep_view()),
        r is None ==> total_replay_cases_in(items.deep_view()) > usize::MAX,
{
    let ghost all = items.deep_view();
    let mut total: usize = 0;
    let mut i: usize = 0;
    assert(all.take(0).len() == 0);
    while i < items.len()
        invariant
            i <= items@.len(),
            all == items.deep_view(),
            total == total_replay_cases_in(all.take(i as int)),
        decreases items@.len() - i,
    {
        proof {
            lemma_take_next(all, i as int);
            assert(all[i as int] == items@[i as int].deep_view());
        }
        match total.checked_add(items[i].metrics.replay_cases) {
            Some(sum) => {
                total = sum;
            },
            None => {
                proof {
                    lemma_total_replay_cases_in_grows(all, i + 1);
                }
                return None;
            },
        }
        i = i + 1;
    }
    proof {
        lemma_take_all(all);
    }
    Some(total)
}

/// How many evolution candidates were selected in the cases.
pub open spec fn total_evolution_selected_in(items: Seq<BenchCaseReportModel>) -> int
    decreases items.len(),
{
    if items.len() == 0 {
        0
    } else {
        total_evolution_selected_in(items.drop_last()) + items.last().metrics.evolution_selected
    }
}

proof fn lemma_total_evolution_selected_in_grows(items: Seq<BenchCaseReportModel>, n: int)
    requires
        0 <= n <= items.len(),
    ensures
        0 <= total_evolution_selected_in(items.take(n)) <= total_evolution_selected_in(items),
    decreases items.len() - n,
{
    if n == items.len() {
        lemma_take_all(items);
        lemma_total_evolution_selected_in_is_not_negative(items);
    } else {
        lemma_total_evolution_selected_in_grows(items, n + 1);
        lemma_take_next(items, n);
        assert(items.take(n + 1).drop_last() =~= items.take(n));
        lemma_total_evolution_selected_in_is_not_negative(items.take(n));
    }
}

proof fn lemma_total_evolution_selected_in_is_not_negative(items: Seq<BenchCaseReportModel>)
    ensures
        0 <= total_evolution_selected_in(items),
    decreases items.len(),
{
    if items.len() > 0 {
        lemma_total_evolution_selected_in_is_not_negative(items.drop_last());
    }
}

fn sum_total_evolution_selected(items: &Vec<BenchCaseReport>) -> (r: Option<usize>)
    ensures
        r matches Some(n) ==> n == total_evolution_selected_in(items.deep_view()),
        r is None ==> total_evolution_selected_in(items.deep_view()) > usize::MAX,
{
    let ghost all = items.deep_view();
    let mut total: usize = 0;
    let mut i: usize = 0;
    assert(all.take(0).len() == 0);
    while i < items.len()
        invariant
            i <= items@.len(),
            all == items.deep_view(),
            total == total_evolution_selected_in(all.take(i as int)),
        decreases items@.len() - i,
    {
        proof {
            lemma_take_next(all, i as int);
            assert(all[i as int] == items@[i as int].deep_view());
        }
        match total.checked_add(items[i].metrics.evolution_selected) {
            Some(sum) => {
                total = sum;
            },
            None => {
                proof {
                    lemma_total_evolution_selected_in_grows(all, i + 1);
                }
                return None;
            },
        }
        i = i + 1;
    }
    proof {
        lemma_take_all(all);
    }
    Some(total)
}

/// The slowest case among the first so many: the last of those that took longest.
pub open spec fn slowest_before(cases: Seq<BenchCaseReportModel>, n: int) -> Option<int>
    decreases n,
{
    if n <= 0 || n > cases.len() {
        None
    } else {
        match slowest_before(cases, n - 1) {
            Some(k) => if cases[n - 1].duration_ms >= cases[k].duration_ms {
                Some(n - 1)
            } else {
                Some(k)
            },
            None => Some(n - 1),
        }
    }
}

fn find_slowest(cases: &Vec<BenchCaseReport>) -> (r: Option<usize>)
    ensures
        r matches Some(k) ==> k < cases@.len() && slowest_before(
            cases.deep_view(),
            cases@.len() as int,
        ) == Some(k as int),
        r is None ==> slowest_before(cases.deep_view(), cases@.len() as int) is None,
{
    let ghost all = cases.deep_view();
    let mut best: Option<usize> = None;
    let mut i: usize = 0;
    while i < cases.len()
        invariant
            i <= cases@.len(),
            all == cases.deep_view(),
            best matches Some(k) ==> k < i && slowest_before(all, i as int) == Some(k as int),
            best is None ==> slowest_before(all, i as int) is None,
        decreases cases@.len() - i,
    {
        assert(all[i as int] == cases@[i as int].deep_view());
        match best {
            Some(k) => {
                assert(all[k as int] == cases@[k as int].deep_view());
                if cases[i].duration_ms >= cases[k].duration_ms {
                    best = Some(i);
                }
            },
            None => {
                best = Some(i);
            },
        }
        i = i + 1;
    }
    best
}

/// The slowest case takes at least as long as any other.
pub proof fn law_slowest_case_is_slowest(cases: Seq<BenchCaseReportModel>, n: int, i: int)
    requires
        0 <= i < n <= cases.len(),
    ensures
        slowest_before(cases, n) matches Some(k) && 0 <= k < n && cases[i].duration_ms
            <= cases[k].duration_ms,
    decreases n,
{
    reveal_with_fuel(slowest_before, 2);
    if n > 1 {
        law_slowest_case_is_slowest(cases, n - 1, if i < n - 1 { i } else { 0 });
    }
}

/// All cases together.
pub open spec fn summary_of(cases: Seq<BenchCaseReportModel>) -> BenchSummaryModel {
    BenchSummaryModel {
        total_cases: cases.len() as usize,
        passed_cases: passed_count(cases) as usize,
        large_repo_cases: large_count(cases) as usize,
        total_duration_ms: total_duration_ms_in(cases) as u128,
        total_targets: total_targets_in(cases) as usize,
        high_risk_targets: high_risk_targets_in(cases) as usize,
        total_commands: total_commands_in(cases) as usize,
        total_findings: total_findings_in(cases) as usize,
        total_artifacts: total_artifacts_in(cases) as usize,
        total_mutants_executed: total_mutants_executed_in(cases) as usize,
        total_replay_cases: total_replay_cases_in(cases) as usize,
        total_evolution_selected: total_evolution_selected_in(cases) as usize,
        slowest_case: match slowest_before(cases, cases.len() as int) {
            Some(k) => Some(cases[k].name),
            None => None,
        },
    }
}

/// Whether the sums over cases fit machine integers.
pub open spec fn summary_fits(cases: Seq<BenchCaseReportModel>) -> bool {
    &&& total_duration_ms_in(cases) <= u128::MAX
    &&& total_targets_in(cases) <= usize::MAX
    &&& high_risk_targets_in(cases) <= usize::MAX
    &&& total_commands_in(cases) <= usize::MAX
    &&& total_findings_in(cases) <= usize::MAX
    &&& total_artifacts_in(cases) <= usize::MAX
    &&& total_mutants_executed_in(cases) <= usize::MAX
    &&& total_replay_cases_in(cases) <= usize::MAX
    &&& total_evolution_selected_in(cases) <= usize::MAX
}

/// All cases together; nothing where a sum does not fit a machine integer.
pub fn bench_summary(cases: &Vec<BenchCaseReport>) -> (r: Option<BenchSummary>)
    ensures
        r is Some == summary_fits(cases.deep_view()),
        r matches Some(summary) ==> summary.deep_view() == summary_of(cases.deep_view()),
{
    assert(cases@.len() == cases.deep_view().len());
    let total_duration_ms: u128 = match sum_total_duration_ms(cases) {
        Some(n) => n,
        None => return None,
    };
    let total_targets: usize = match sum_total_targets(cases) {
        Some(n) => n,
        None => return None,
    };
    let high_risk_targets: usize = match sum_high_risk_targets(cases) {
        Some(n) => n,
        None => return None,
    };
    let total_commands: usize = match sum_total_commands(cases) {
        Some(n) => n,
        None => return None,
    };
    let total_findings: usize = match sum_total_findings(cases) {
        Some(n) => n,
        None => return None,
    };
    let total_artifacts: usize = match sum_total_artifacts(cases) {
        Some(n) => n,
        None => return None,
    };
    let total_mutants_executed: usize = match sum_total_mutants_executed(cases) {
        Some(n) => n,
        None => return None,
    };
    let total_replay_cases: usize = match sum_total_replay_cases(cases) {
        Some(n) => n,
        None => return None,
    };
    let total_evolution_selected: usize = match sum_total_evolution_selected(cases) {
        Some(n) => n,
        None => return None,
    };
    let slowest_case = match find_slowest(cases) {
        Some(k) => {
            assert(cases.deep_view()[k as int] == cases@[k as int].deep_view());
            Some(owned(cases[k].name.as_str()))
        },
        None => None,
    };
    Some(
        BenchSummary {
            total_cases: cases.len(),
            passed_cases: count_passed(cases),
            large_repo_cases: count_large(cases),
            total_duration_ms,
            total_targets,
            high_risk_targets,
            total_commands,
            total_findings,
            total_artifacts,
            total_mutants_executed,
            total_replay_cases,
            total_evolution_selected,
            slowest_case,
        },
    )
}

/// What came of a suite.
#[derive(Debug, PartialEq, Eq)]
pub struct BenchReport {
    pub suite: String,
    pub profile: BenchProfile,
    pub passed: bool,
    pub summary: BenchSummary,
    pub cases: Vec<BenchCaseReport>,
}

/// The mathematical value of a `BenchReport`.
pub struct BenchReportModel {
    pub suite: Seq<char>,
    pub profile: BenchProfile,
    pub passed: bool,
    pub summary: BenchSummaryModel,
    pub cases: Seq<BenchCaseReportModel>,
}

impl DeepView for BenchReport {
    type V = BenchReportModel;

    open spec fn deep_view(&self) -> BenchReportModel {
        BenchReportModel {
            suite: self.suite@,
            profile: self.profile,
            passed: self.passed,
            summary: self.summary.deep_view(),
            cases: self.cases.deep_view(),
        }
    }
}

impl Clone for BenchReport {
    fn clone(&self) -> (r: Self)
        ensures
            r.deep_view() == self.deep_view(),
    {
        BenchReport {
            suite: self.suite.clone(),
            profile: self.profile,
            passed: self.passed,
            summary: self.summary.clone(),
            cases: clone_bench_case_reports(&self.cases),
        }
    }
}

/// What came of a suite: it passed where every case did.
pub open spec fn suite_report(
    suite: Seq<char>,
    profile: BenchProfile,
    cases: Seq<BenchCaseReportModel>,
) -> BenchReportModel {
    BenchReportModel {
        suite,
        profile,
        passed: passed_count(cases) == cases.len(),
        summary: summary_of(cases),
        cases,
    }
}

/// What came of a suite; nothing where a sum does not fit a machine integer.
pub fn run_bench_suite(
    suite: &str,
    profile: BenchProfile,
    cases: Vec<BenchCaseReport>,
) -> (r: Option<BenchReport>)
    ensures
        r is Some == summary_fits(cases.deep_view()),
        r matches Some(report) ==> report.deep_view() == suite_report(
            suite@,
            profile,
            cases.deep_view(),
        ),
{
    assert(cases@.len() == cases.deep_view().len());
    match bench_summary(&cases) {
        Some(summary) => {
            let passed = count_passed(&cases) == cases.len();
            Some(BenchReport { suite: owned(suite), profile, passed, summary, cases })
        },
        None => None,
    }
}

// ---------------------------------------------------------------------------
// Text
// ---------------------------------------------------------------------------
/// A percentage, where it is known.
pub open spec fn percent_text(percent: Option<u8>) -> Seq<char> {
    let t = Seq::<char>::empty();
    let t = match percent {
        Some(n) => {
            let t = t + decimal(n as int) + "%"@;
            t
        },
        None => {
            let t = t + "n/a"@;
            t
        },
    };
    t
}

/// A percentage, where it is known.
pub fn percent_or_na(percent: Option<u8>) -> (r: String)
    ensures
        r@ == percent_text(percent),
{
    let mut out = String::new();
    match &percent {
        Some(n) => {
            out.append(print_u8(*n).as_str());
            out.append("%");
        },
        None => {
            out.append("n/a");
        },
    }
    out
}

/// How long the phases of a case took.
#[verifier::opaque]
pub open spec fn timings_line_text(case: BenchCaseReportModel) -> Seq<char> {
    let t = Seq::<char>::empty();
    let t = if case.metrics.phase_timings.total_ms > 0 {
        let t = t
            + "- Phase timings: total `"@
            + decimal(case.metrics.phase_timings.total_ms as int)
            + "` ms, discovery `"@
            + decimal(case.metrics.phase_timings.discovery_ms as int)
            + "`, generation `"@
            + decimal(case.metrics.phase_timings.generation_ms as int)
            + "`, tests `"@
            + decimal(case.metrics.phase_timings.test_execution_ms as int)
            + "`, coverage `"@
            + decimal(case.metrics.phase_timings.coverage_ms as int)
            + "`, replay `"@
            + decimal(case.metrics.phase_timings.replay_ms as int)
            + "`, synthesis `"@
            + decimal(case.metrics.phase_timings.artifact_synthesis_ms as int)
            + "`\n"@;
        t
    } else {
        t
    };
    t
}

fn timings_line(case: &BenchCaseReport) -> (r: String)
    ensures
        r@ == timings_line_text(case.deep_view()),
{
    proof {
        reveal(timings_line_text);
    }
    let mut out = String::new();
    assert(out@ =~= Seq::<char>::empty());
    if case.metrics.phase_timings.total_ms > 0 {
        out.append("- Phase timings: total `");
        out.append(print_u128(case.metrics.phase_timings.total_ms).as_str());
        out.append("` ms, discovery `");
        out.append(print_u128(case.metrics.phase_timings.discovery_ms).as_str());
        out.append("`, generation `");
        out.append(print_u128(case.metrics.phase_timings.generation_ms).as_str());
        out.append("`, tests `");
        out.append(print_u128(case.metrics.phase_timings.test_execution_ms).as_str());
        out.append("`, coverage `");
        out.append(print_u128(case.metrics.phase_timings.coverage_ms).as_str());
        out.append("`, replay `");
        out.append(print_u128(case.metrics.phase_timings.replay_ms).as_str());
        out.append("`, synthesis `");
        out.append(print_u128(case.metrics.phase_timings.artifact_synthesis_ms).as_str());
        out.append("`\n");
    }
    out
}

/// How the mutants of a case were run.
#[verifier::opaque]
pub open spec fn workers_line_text(case: BenchCaseReportModel) -> Seq<char> {
    let t = Seq::<char>::empty();
    let t = if case.metrics.mutation_requested_workers > 0 || case.metrics.mutation_effective_workers > 0 || case.metrics.mutation_isolation_failures > 0 || case.metrics.mutation_isolation_copy_ms > 0 {
        let t = t
            + "- Mutation workers: requested `"@
            + decimal(case.metrics.mutation_requested_workers as int)
            + "`, effective `"@
            + decimal(case.metrics.mutation_effective_workers as int)
            + "`, isolation failures `"@
            + decimal(case.metrics.mutation_isolation_failures as int)
            + "`, setup `"@
            + decimal(case.metrics.mutation_isolation_setup_ms as int)
            + "` ms, copy `"@
            + decimal(case.metrics.mutation_isolation_copy_ms as int)
            + "` ms, excluded paths `"@
            + decimal(case.metrics.mutation_isolation_excluded_path_count as int)
            + "`\n"@;
        t
    } else {
        t
    };
    t
}

fn workers_line(case: &BenchCaseReport) -> (r: String)
    ensures
        r@ == workers_line_text(case.deep_view()),
{
    proof {
        reveal(workers_line_text);
    }
    let mut out = String::new();
    assert(out@ =~= Seq::<char>::empty());
    if case.metrics.mutation_requested_workers > 0 || case.metrics.mutation_effective_workers > 0 || case.metrics.mutation_isolation_failures > 0 || case.metrics.mutation_isolation_copy_ms > 0 {
        out.append("- Mutation workers: requested `");
        out.append(print_usize(case.metrics.mutation_requested_workers).as_str());
        out.append("`, effective `");
        out.append(print_usize(case.metrics.mutation_effective_workers).as_str());
        out.append("`, isolation failures `");
        out.append(print_usize(case.metrics.mutation_isolation_failures).as_str());
        out.append("`, setup `");
        out.append(print_u128(case.metrics.mutation_isolation_setup_ms).as_str());
        out.append("` ms, copy `");
        out.append(print_u128(case.metrics.mutation_isolation_copy_ms).as_str());
        out.append("` ms, excluded paths `");
        out.append(print_usize(case.metrics.mutation_isolation_excluded_path_count).as_str());
        out.append("`\n");
    }
    out
}

/// The first lines of a case.
#[verifier::opaque]
pub open spec fn case_head_text(case: BenchCaseReportModel) -> Seq<char> {
    let t = "\n## "@
        + case.name
        + "\n- Language: `"@
        + case.language
        + "`\n- Profile: `"@
        + case.profile.label_text()
        + "`\n- Targets: `"@
        + decimal(case.metrics.target_count as int)
        + "` (functions `"@
        + decimal(case.metrics.function_targets as int)
        + "`, packages `"@
        + decimal(case.metrics.package_targets as int)
        + "`, high-risk `"@
        + decimal(case.metrics.high_risk_targets as int)
        + "`)\n- Findings: `"@
        + decimal(case.findings as int)
        + "`\n- Artifacts: `"@
        + decimal(case.artifacts as int)
        + "`\n- Coverage files: `"@
        + decimal(case.metrics.coverage_files as int)
        + "`\n- Commands: `"@
        + decimal(case.metrics.command_count as int)
        + "`\n"@;
    t
}

fn case_head(case: &BenchCaseReport) -> (r: String)
    ensures
        r@ == case_head_text(case.deep_view()),
{
    proof {
        reveal(case_head_text);
    }
    let mut out = owned("\n## ");
    out.append(case.name.as_str());
    out.append("\n- Language: `");
    out.append(case.language.as_str());
    out.append("`\n- Profile: `");
    out.append(case.profile.label());
    out.append("`\n- Targets: `");
    out.append(print_usize(case.metrics.target_count).as_str());
    out.append("` (functions `");
    out.append(print_usize(case.metrics.function_targets).as_str());
    out.append("`, packages `");
    out.append(print_usize(case.metrics.package_targets).as_str());
    out.append("`, high-risk `");
    out.append(print_usize(case.metrics.high_risk_targets).as_str());
    out.append("`)\n- Findings: `");
    out.append(print_usize(case.findings).as_str());
    out.append("`\n- Artifacts: `");
    out.append(print_usize(case.artifacts).as_str());
    out.append("`\n- Coverage files: `");
    out.append(print_usize(case.metrics.coverage_files).as_str());
    out.append("`\n- Commands: `");
    out.append(print_usize(case.metrics.command_count).as_str());
    out.append("`\n");
    out
}

/// The mutants of a case.
#[verifier::opaque]
pub open spec fn mutants_lines_text(case: BenchCaseReportModel) -> Seq<char> {
    let t = "- Mutation score: `"@
        + percent_text(case.metrics.mutation_score_percent)
        + "`\n- Mutants: generated `"@
        + decimal(case.metrics.mutants_generated as int)
        + "`, executed `"@
        + decimal(case.metrics.mutants_executed as int)
        + "`, killed `"@
        + decimal(case.metrics.mutants_killed as int)
        + "`, survived `"@
        + decimal(case.metrics.mutants_survived as int)
        + "`, skipped `"@
        + decimal(case.metrics.mutants_skipped as int)
        + "`\n"@;
    t
}

fn mutants_lines(case: &BenchCaseReport) -> (r: String)
    ensures
        r@ == mutants_lines_text(case.deep_view()),
{
    proof {
        reveal(mutants_lines_text);
    }
    let mut out = owned("- Mutation score: `");
    out.append(percent_or_na(case.metrics.mutation_score_percent).as_str());
    out.append("`\n- Mutants: generated `");
    out.append(print_usize(case.metrics.mutants_generated).as_str());
    out.append("`, executed `");
    out.append(print_usize(case.metrics.mutants_executed).as_str());
    out.append("`, killed `");
    out.append(print_usize(case.metrics.mutants_killed).as_str());
    out.append("`, survived `");
    out.append(print_usize(case.metrics.mutants_survived).as_str());
    out.append("`, skipped `");
    out.append(print_usize(case.metrics.mutants_skipped).as_str());
    out.append("`\n");
    out
}

/// The properties and fuzz targets of a case.
#[verifier::opaque]
pub open spec fn property_lines_text(case: BenchCaseReportModel) -> Seq<char> {
    let t = "- Mutation findings: `"@
        + decimal(case.metrics.mutation_findings as int)
        + "`\n- Property artifacts: `"@
        + decimal(case.metrics.property_artifacts as int)
        + "`\n- Property strength: `"@
        + percent_text(case.metrics.property_strength_score_percent)
        + "` (no-panic `"@
        + decimal(case.metrics.property_no_panic as int)
        + "`, deterministic `"@
        + decimal(case.metrics.property_deterministic as int)
        + "`)\n- Generated test failures: `"@
        + decimal(case.metrics.generated_test_failures as int)
        + "`\n- Fuzz harnesses: `"@
        + decimal(case.metrics.fuzz_harnesses as int)
        + "`\n- Fuzz targets executed: `"@
        + decimal(case.metrics.fuzz_targets_executed as int)
        + "`\n- Fuzz failures: `"@
        + decimal(case.metrics.fuzz_failures as int)
        + "`\n- Persisted repros: `"@
        + decimal(case.metrics.persisted_repros as int)
        + "`\n"@;
    t
}

fn property_lines(case: &BenchCaseReport) -> (r: String)
    ensures
        r@ == property_lines_text(case.deep_view()),
{
    proof {
        reveal(property_lines_text);
    }
    let mut out = owned("- Mutation findings: `");
    out.append(print_usize(case.metrics.mutation_findings).as_str());
    out.append("`\n- Property artifacts: `");
    out.append(print_usize(case.metrics.property_artifacts).as_str());
    out.append("`\n- Property strength: `");
    out.append(percent_or_na(case.metrics.property_strength_score_percent).as_str());
    out.append("` (no-panic `");
    out.append(print_usize(case.metrics.property_no_panic).as_str());
    out.append("`, deterministic `");
    out.append(print_usize(case.metrics.property_deterministic).as_str());
    out.append("`)\n- Generated test failures: `");
    out.append(print_usize(case.metrics.generated_test_failures).as_str());
    out.append("`\n- Fuzz harnesses: `");
    out.append(print_usize(case.metrics.fuzz_harnesses).as_str());
    out.append("`\n- Fuzz targets executed: `");
    out.append(print_usize(case.metrics.fuzz_targets_executed).as_str());
    out.append("`\n- Fuzz failures: `");
    out.append(print_usize(case.metrics.fuzz_failures).as_str());
    out.append("`\n- Persisted repros: `");
    out.append(print_usize(case.metrics.persisted_repros).as_str());
    out.append("`\n");
    out
}

/// The corpus, the replays and the evolution of a case.
#[verifier::opaque]
pub open spec fn replay_lines_text(case: BenchCaseReportModel) -> Seq<char> {
    let t = "- Assertion candidates: `"@
        + decimal(case.metrics.assertion_candidates as int)
        + "`\n- Corpus entries: `"@
        + decimal(case.metrics.corpus_entries as int)
        + "`\n- Corpus replayed/failed: `"@
        + decimal(case.metrics.corpus_replayed as int)
        + "/"@
        + decimal(case.metrics.corpus_failed as int)
        + "`\n- Replay cases: `"@
        + decimal(case.metrics.replay_cases as int)
        + "`\n- Budget skips/timeouts: `"@
        + decimal(case.metrics.budget_skipped_commands as int)
        + "/"@
        + decimal(case.metrics.budget_timed_out_commands as int)
        + "`\n- Evolution: suites `"@
        + decimal(case.metrics.evolution_suites as int)
        + "`, candidates `"@
        + decimal(case.metrics.evolution_candidates as int)
        + "`, selected `"@
        + decimal(case.metrics.evolution_selected as int)
        + "`, average fitness `"@
        + percent_text(case.metrics.evolution_average_fitness_percent)
        + "`\n"@;
    t
}

fn replay_lines(case: &BenchCaseReport) -> (r: String)
    ensures
        r@ == replay_lines_text(case.deep_view()),
{
    proof {
        reveal(replay_lines_text);
    }
    let mut out = owned("- Assertion candidates: `");
    out.append(print_usize(case.metrics.assertion_candidates).as_str());
    out.append("`\n- Corpus entries: `");
    out.append(print_usize(case.metrics.corpus_entries).as_str());
    out.append("`\n- Corpus replayed/failed: `");
    out.append(print_usize(case.metrics.corpus_replayed).as_str());
    out.append("/");
    out.append(print_usize(case.metrics.corpus_failed).as_str());
    out.append("`\n- Replay cases: `");
    out.append(print_usize(case.metrics.replay_cases).as_str());
    out.append("`\n- Budget skips/timeouts: `");
    out.append(print_usize(case.metrics.budget_skipped_commands).as_str());
    out.append("/");
    out.append(print_usize(case.metrics.budget_timed_out_commands).as_str());
    out.append("`\n- Evolution: suites `");
    out.append(print_usize(case.metrics.evolution_suites).as_str());
    out.append("`, candidates `");
    out.append(print_usize(case.metrics.evolution_candidates).as_str());
    out.append("`, selected `");
    out.append(print_usize(case.metrics.evolution_selected).as_str());
    out.append("`, average fitness `");
    out.append(percent_or_na(case.metrics.evolution_average_fitness_percent).as_str());
    out.append("`\n");
    out
}

/// The counts and the status of a case.
#[verifier::opaque]
pub open spec fn case_counts_text(case: BenchCaseReportModel) -> Seq<char> {
    let t = Seq::<char>::empty();
    let t = if case.metrics.findings_by_severity.len() > 0 {
        let t = t
            + "- Findings by severity: `"@
            + joined(count_words(case.metrics.findings_by_severity), ", "@)
            + "`\n"@;
        t
    } else {
        t
    };
    let t = if case.metrics.artifacts_by_kind.len() > 0 {
        let t = t
            + "- Artifacts by kind: `"@
            + joined(count_words(case.metrics.artifacts_by_kind), ", "@)
            + "`\n"@;
        t
    } else {
        t
    };
    let t = t + "- Duration: `"@ + decimal(case.duration_ms as int) + "ms`\n- Status: `"@;
    let t = if case.passed {
        let t = t + "passed"@;
        t
    } else {
        let t = t + "failed"@;
        t
    };
    let t = t + "`\n"@;
    t
}

fn case_counts(case: &BenchCaseReport) -> (r: String)
    ensures
        r@ == case_counts_text(case.deep_view()),
{
    proof {
        reveal(case_counts_text);
    }
    let mut out = String::new();
    assert(out@ =~= Seq::<char>::empty());
    assert(case.metrics.findings_by_severity@.len() == case.metrics.findings_by_severity.deep_view().len());
    assert(case.metrics.artifacts_by_kind@.len() == case.metrics.artifacts_by_kind.deep_view().len());
    if case.metrics.findings_by_severity.len() > 0 {
        out.append("- Findings by severity: `");
        out.append(format_counts(&case.metrics.findings_by_severity).as_str());
        out.append("`\n");
    }
    if case.metrics.artifacts_by_kind.len() > 0 {
        out.append("- Artifacts by kind: `");
        out.append(format_counts(&case.metrics.artifacts_by_kind).as_str());
        out.append("`\n");
    }
    out.append("- Duration: `");
    out.append(print_u128(case.duration_ms).as_str());
    out.append("ms`\n- Status: `");
    if case.passed {
        out.append("passed");
    } else {
        out.append("failed");
    }
    out.append("`\n");
    out
}

/// Lines with a label before each.
pub open spec fn labelled_lines(items: Seq<Seq<char>>, label: Seq<char>) -> Seq<char>
    decreases items.len(),
{
    if items.len() == 0 {
        Seq::empty()
    } else {
        labelled_lines(items.drop_last(), label) + (label + items.last() + "`\n"@)
    }
}

fn push_lines(out: &mut String, items: &Vec<String>, label: &str)
    ensures
        final(out)@ == old(out)@ + labelled_lines(items.deep_view(), label@),
{
    let ghost before = out@;
    let ghost all = items.deep_view();
    let mut i: usize = 0;
    assert(out@ == before + labelled_lines(all.take(0), label@));
    while i < items.len()
        invariant
            i <= items@.len(),
            all == items.deep_view(),
            out@ == before + labelled_lines(all.take(i as int), label@),
        decreases items@.len() - i,
    {
        proof {
            lemma_take_next(all, i as int);
        }
        let ghost so_far = out@;
        out.append(label);
        out.append(items[i].as_str());
        out.append("`\n");
        assert(out@ =~= before + (labelled_lines(all.take(i as int), label@) + (label@ + all[i as int] + "`\n"@)));
        i = i + 1;
        assert(out@ == before + labelled_lines(all.take(i as int), label@));
    }
    proof {
        lemma_take_all(all);
    }
}

/// What is missing in a case.
pub open spec fn missing_lines(case: BenchCaseReportModel) -> Seq<char> {
    labelled_lines(case.missing_findings, "- Missing finding: `"@) + labelled_lines(
        case.missing_artifacts,
        "- Missing artifact: `"@,
    ) + labelled_lines(case.missing_commands, "- Missing command: `"@) + labelled_lines(
        case.threshold_failures,
        "- Threshold failure: `"@,
    )
}

/// A case in words.
#[verifier::opaque]
pub open spec fn case_words(case: BenchCaseReportModel) -> Seq<char> {
    case_head_text(case) + timings_line_text(case) + mutants_lines_text(case) + workers_line_text(
        case,
    ) + property_lines_text(case) + replay_lines_text(case) + case_counts_text(case)
        + missing_lines(case)
}

fn push_case(out: &mut String, case: &BenchCaseReport)
    ensures
        final(out)@ == old(out)@ + case_words(case.deep_view()),
{
    proof {
        reveal(case_words);
    }
    let ghost before = out@;
    out.append(case_head(case).as_str());
    out.append(timings_line(case).as_str());
    out.append(mutants_lines(case).as_str());
    out.append(workers_line(case).as_str());
    out.append(property_lines(case).as_str());
    out.append(replay_lines(case).as_str());
    out.append(case_counts(case).as_str());
    push_lines(out, &case.missing_findings, "- Missing finding: `");
    push_lines(out, &case.missing_artifacts, "- Missing artifact: `");
    push_lines(out, &case.missing_commands, "- Missing command: `");
    push_lines(out, &case.threshold_failures, "- Threshold failure: `");
    assert(out@ =~= before + case_words(case.deep_view()));
}

/// Cases in words.
pub open spec fn all_case_words(items: Seq<BenchCaseReportModel>) -> Seq<char>
    decreases items.len(),
{
    if items.len() == 0 {
        Seq::empty()
    } else {
        all_case_words(items.drop_last()) + case_words(items.last())
    }
}

fn push_cases(out: &mut String, items: &Vec<BenchCaseReport>)
    ensures
        final(out)@ == old(out)@ + all_case_words(items.deep_view()),
{
    let ghost before = out@;
    let ghost all = items.deep_view();
    let mut i: usize = 0;
    assert(out@ == before + all_case_words(all.take(0)));
    while i < items.len()
        invariant
            i <= items@.len(),
            all == items.deep_view(),
            out@ == before + all_case_words(all.take(i as int)),
        decreases items@.len() - i,
    {
        proof {
            lemma_take_next(all, i as int);
        }
        let ghost so_far = out@;
        push_case(out, &items[i]);
        assert(so_far + case_words(all[i as int]) =~= before + (all_case_words(all.take(i as int)) + case_words(all[i as int])));
        i = i + 1;
        assert(out@ == before + all_case_words(all.take(i as int)));
    }
    proof {
        lemma_take_all(all);
    }
}

/// The first lines of the report of a suite.
pub open spec fn bench_head_text(report: BenchReportModel) -> Seq<char> {
    let t = "# veritas bench\n\n- Suite: `"@
        + report.suite
        + "`\n- Profile: `"@
        + report.profile.label_text()
        + "`\n- Cases: `"@
        + decimal(passed_count(report.cases))
        + "/"@
        + decimal(report.cases.len() as int)
        + "` passed\n- Status: `"@;
    let t = if report.passed {
        let t = t + "passed"@;
        t
    } else {
        let t = t + "failed"@;
        t
    };
    let t = t
        + "`\n\n## Summary\n\n- Totals: cases `"@
        + decimal(report.summary.total_cases as int)
        + "`, targets `"@
        + decimal(report.summary.total_targets as int)
        + "`, high-risk targets `"@
        + decimal(report.summary.high_risk_targets as int)
        + "`, commands `"@
        + decimal(report.summary.total_commands as int)
        + "`, findings `"@
        + decimal(report.summary.total_findings as int)
        + "`, artifacts `"@
        + decimal(report.summary.total_artifacts as int)
        + "`\n- Verification signal: mutants executed `"@
        + decimal(report.summary.total_mutants_executed as int)
        + "`, replay cases `"@
        + decimal(report.summary.total_replay_cases as int)
        + "`, selected evolution candidates `"@
        + decimal(report.summary.total_evolution_selected as int)
        + "`\n- Large-repo cases: `"@
        + decimal(report.summary.large_repo_cases as int)
        + "`\n"@;
    let t = match report.summary.slowest_case {
        Some(name) => {
            let t = t + "- Slowest case: `"@ + name + "`\n"@;
            t
        },
        None => {
            t
        },
    };
    let t = t
        + "- Total duration: `"@
        + decimal(report.summary.total_duration_ms as int)
        + "ms`\n"@;
    t
}

fn bench_head(report: &BenchReport) -> (r: String)
    ensures
        r@ == bench_head_text(report.deep_view()),
{
    assert(report.cases@.len() == report.cases.deep_view().len());
    let mut out = owned("# veritas bench\n\n- Suite: `");
    out.append(report.suite.as_str());
    out.append("`\n- Profile: `");
    out.append(report.profile.label());
    out.append("`\n- Cases: `");
    out.append(print_usize(count_passed(&report.cases)).as_str());
    out.append("/");
    out.append(print_usize(report.cases.len()).as_str());
    out.append("` passed\n- Status: `");
    if report.passed {
        out.append("passed");
    } else {
        out.append("failed");
    }
    out.append("`\n\n## Summary\n\n- Totals: cases `");
    out.append(print_usize(report.summary.total_cases).as_str());
    out.append("`, targets `");
    out.append(print_usize(report.summary.total_targets).as_str());
    out.append("`, high-risk targets `");
    out.append(print_usize(report.summary.high_risk_targets).as_str());
    out.append("`, commands `");
    out.append(print_usize(report.summary.total_commands).as_str());
    out.append("`, findings `");
    out.append(print_usize(report.summary.total_findings).as_str());
    out.append("`, artifacts `");
    out.append(print_usize(report.summary.total_artifacts).as_str());
    out.append("`\n- Verification signal: mutants executed `");
    out.append(print_usize(report.summary.total_mutants_executed).as_str());
    out.append("`, replay cases `");
    out.append(print_usize(report.summary.total_replay_cases).as_str());
    out.append("`, selected evolution candidates `");
    out.append(print_usize(report.summary.total_evolution_selected).as_str());
    out.append("`\n- Large-repo cases: `");
    out.append(print_usize(report.summary.large_repo_cases).as_str());
    out.append("`\n");
    if let Some(name) = &report.summary.slowest_case {
        out.append("- Slowest case: `");
        out.append(name.as_str());
        out.append("`\n");
    }
    out.append("- Total duration: `");
    out.append(print_u128(report.summary.total_duration_ms).as_str());
    out.append("ms`\n");
    out
}

/// The report of a suite in words.
pub open spec fn bench_words(report: BenchReportModel) -> Seq<char> {
    bench_head_text(report) + all_case_words(report.cases)
}

/// The report of a suite in words.
fn render_bench_report(report: &BenchReport) -> (r: String)
    ensures
        r@ == bench_words(report.deep_view()),
{
    let mut out = bench_head(report);
    push_cases(&mut out, &report.cases);
    out
}

// ---------------------------------------------------------------------------
// Documents
// ---------------------------------------------------------------------------
/// A bench metrics as a JSON document.
pub open spec fn bench_metrics_document(v: BenchMetricsModel) -> JsonModel {
    JsonModel::Object(
        seq![
            ("target_count"@, JsonModel::Number(decimal(v.target_count as int))),
            ("function_targets"@, JsonModel::Number(decimal(v.function_targets as int))),
            ("package_targets"@, JsonModel::Number(decimal(v.package_targets as int))),
            ("high_risk_targets"@, JsonModel::Number(decimal(v.high_risk_targets as int))),
            ("coverage_files"@, JsonModel::Number(decimal(v.coverage_files as int))),
            ("command_count"@, JsonModel::Number(decimal(v.command_count as int))),
            ("findings_by_severity"@, counts_document(v.findings_by_severity)),
            ("artifacts_by_kind"@, counts_document(v.artifacts_by_kind)),
            ("mutants_generated"@, JsonModel::Number(decimal(v.mutants_generated as int))),
            ("mutants_executed"@, JsonModel::Number(decimal(v.mutants_executed as int))),
            ("mutants_killed"@, JsonModel::Number(decimal(v.mutants_killed as int))),
            ("mutants_survived"@, JsonModel::Number(decimal(v.mutants_survived as int))),
            ("mutants_skipped"@, JsonModel::Number(decimal(v.mutants_skipped as int))),
            ("mutation_requested_workers"@, JsonModel::Number(decimal(v.mutation_requested_workers as int))),
            ("mutation_effective_workers"@, JsonModel::Number(decimal(v.mutation_effective_workers as int))),
            ("mutation_isolation_failures"@, JsonModel::Number(decimal(v.mutation_isolation_failures as int))),
            ("mutation_isolation_setup_ms"@, JsonModel::Number(decimal(v.mutation_isolation_setup_ms as int))),
            ("mutation_isolation_copy_ms"@, JsonModel::Number(decimal(v.mutation_isolation_copy_ms as int))),
            ("mutation_isolation_excluded_path_count"@, JsonModel::Number(decimal(v.mutation_isolation_excluded_path_count as int))),
            ("mutation_score_percent"@, number_or_null(match v.mutation_score_percent {
                    Some(n) => Some(n as int),
                    None => None,
                })),
            ("mutation_findings"@, JsonModel::Number(decimal(v.mutation_findings as int))),
            ("property_artifacts"@, JsonModel::Number(decimal(v.property_artifacts as int))),
            ("generated_test_failures"@, JsonModel::Number(decimal(v.generated_test_failures as int))),
            ("fuzz_harnesses"@, JsonModel::Number(decimal(v.fuzz_harnesses as int))),
            ("fuzz_targets_executed"@, JsonModel::Number(decimal(v.fuzz_targets_executed as int))),
            ("fuzz_failures"@, JsonModel::Number(decimal(v.fuzz_failures as int))),
            ("persisted_repros"@, JsonModel::Number(decimal(v.persisted_repros as int))),
            ("property_no_panic"@, JsonModel::Number(decimal(v.property_no_panic as int))),
            ("property_deterministic"@, JsonModel::Number(decimal(v.property_deterministic as int))),
            ("property_strength_score_percent"@, number_or_null(match v.property_strength_score_percent {
                    Some(n) => Some(n as int),
                    None => None,
                })),
            ("assertion_candidates"@, JsonModel::Number(decimal(v.assertion_candidates as int))),
            ("corpus_entries"@, JsonModel::Number(decimal(v.corpus_entries as int))),
            ("corpus_replayed"@, JsonModel::Number(decimal(v.corpus_replayed as int))),
            ("corpus_failed"@, JsonModel::Number(decimal(v.corpus_failed as int))),
            ("replay_cases"@, JsonModel::Number(decimal(v.replay_cases as int))),
            ("budget_skipped_commands"@, JsonModel::Number(decimal(v.budget_skipped_commands as int))),
            ("budget_timed_out_commands"@, JsonModel::Number(decimal(v.budget_timed_out_commands as int))),
            ("evolution_suites"@, JsonModel::Number(decimal(v.evolution_suites as int))),
            ("evolution_candidates"@, JsonModel::Number(decimal(v.evolution_candidates as int))),
            ("evolution_selected"@, JsonModel::Number(decimal(v.evolution_selected as int))),
            ("evolution_average_fitness_percent"@, number_or_null(match v.evolution_average_fitness_percent {
                    Some(n) => Some(n as int),
                    None => None,
                })),
            ("phase_timings"@, performance_metrics_document(v.phase_timings)),
        ],
    )
}

/// A bench metrics as a JSON value.
#[verifier::rlimit(80)]
pub fn bench_metrics_json(v: &BenchMetrics) -> (r: Json)
    ensures
        r.deep_view() == bench_metrics_document(v.deep_view()),
{
    let mut members = Members::new();
    members.put("target_count", number(v.target_count as u64));
    members.put("function_targets", number(v.function_targets as u64));
    members.put("package_targets", number(v.package_targets as u64));
    members.put("high_risk_targets", number(v.high_risk_targets as u64));
    members.put("coverage_files", number(v.coverage_files as u64));
    members.put("command_count", number(v.command_count as u64));
    members.put("findings_by_severity", counts_json(&v.findings_by_severity));
    members.put("artifacts_by_kind", counts_json(&v.artifacts_by_kind));
    members.put("mutants_generated", number(v.mutants_generated as u64));
    members.put("mutants_executed", number(v.mutants_executed as u64));
    members.put("mutants_killed", number(v.mutants_killed as u64));
    members.put("mutants_survived", number(v.mutants_survived as u64));
    members.put("mutants_skipped", number(v.mutants_skipped as u64));
    members.put("mutation_requested_workers", number(v.mutation_requested_workers as u64));
    members.put("mutation_effective_workers", number(v.mutation_effective_workers as u64));
    members.put("mutation_isolation_failures", number(v.mutation_isolation_failures as u64));
    members.put("mutation_isolation_setup_ms", big_number(v.mutation_isolation_setup_ms));
    members.put("mutation_isolation_copy_ms", big_number(v.mutation_isolation_copy_ms));
    members.put("mutation_isolation_excluded_path_count", number(v.mutation_isolation_excluded_path_count as u64));
    members.put("mutation_score_percent", optional_u8(v.mutation_score_percent));
    members.put("mutation_findings", number(v.mutation_findings as u64));
    members.put("property_artifacts", number(v.property_artifacts as u64));
    members.put("generated_test_failures", number(v.generated_test_failures as u64));
    members.put("fuzz_harnesses", number(v.fuzz_harnesses as u64));
    members.put("fuzz_targets_executed", number(v.fuzz_targets_executed as u64));
    members.put("fuzz_failures", number(v.fuzz_failures as u64));
    members.put("persisted_repros", number(v.persisted_repros as u64));
    members.put("property_no_panic", number(v.property_no_panic as u64));
    members.put("property_deterministic", number(v.property_deterministic as u64));
    members.put("property_strength_score_percent", optional_u8(v.property_strength_score_percent));
    members.put("assertion_candidates", number(v.assertion_candidates as u64));
    members.put("corpus_entries", number(v.corpus_entries as u64));
    members.put("corpus_replayed", number(v.corpus_replayed as u64));
    members.put("corpus_failed", number(v.corpus_failed as u64));
    members.put("replay_cases", number(v.replay_cases as u64));
    members.put("budget_skipped_commands", number(v.budget_skipped_commands as u64));
    members.put("budget_timed_out_commands", number(v.budget_timed_out_commands as u64));
    members.put("evolution_suites", number(v.evolution_suites as u64));
    members.put("evolution_candidates", number(v.evolution_candidates as u64));
    members.put("evolution_selected", number(v.evolution_selected as u64));
    members.put("evolution_average_fitness_percent", optional_u8(v.evolution_average_fitness_percent));
    members.put("phase_timings", performance_metrics_json(&v.phase_timings));
    assert(members.model() =~= bench_metrics_document(v.deep_view())->Object_0);
    members.finish()
}

/// A bench case report as a JSON document.
pub open spec fn bench_case_report_document(v: BenchCaseReportModel) -> JsonModel {
    JsonModel::Object(
        seq![
            ("name"@, JsonModel::Text(v.name)),
            ("language"@, JsonModel::Text(v.language)),
            ("profile"@, JsonModel::Text(v.profile.label_text())),
            ("source"@, JsonModel::Text(v.source)),
            ("passed"@, JsonModel::Bool(v.passed)),
            ("metrics"@, bench_metrics_document(v.metrics)),
            ("findings"@, JsonModel::Number(decimal(v.findings as int))),
            ("artifacts"@, JsonModel::Number(decimal(v.artifacts as int))),
            ("missing_findings"@, texts_model(v.missing_findings)),
            ("missing_artifacts"@, texts_model(v.missing_artifacts)),
            ("missing_commands"@, texts_model(v.missing_commands)),
            ("threshold_failures"@, texts_model(v.threshold_failures)),
            ("duration_ms"@, JsonModel::Number(decimal(v.duration_ms as int))),
        ],
    )
}

/// A bench case report as a JSON value.
pub fn bench_case_report_json(v: &BenchCaseReport) -> (r: Json)
    ensures
        r.deep_view() == bench_case_report_document(v.deep_view()),
{
    let mut members = Members::new();
    members.put("name", text(v.name.as_str()));
    members.put("language", text(v.language.as_str()));
    members.put("profile", text(v.profile.label()));
    members.put("source", text(v.source.as_str()));
    members.put("passed", Json::Bool(v.passed));
    members.put("metrics", bench_metrics_json(&v.metrics));
    members.put("findings", number(v.findings as u64));
    members.put("artifacts", number(v.artifacts as u64));
    members.put("missing_findings", texts(&v.missing_findings));
    members.put("missing_artifacts", texts(&v.missing_artifacts));
    members.put("missing_commands", texts(&v.missing_commands));
    members.put("threshold_failures", texts(&v.threshold_failures));
    members.put("duration_ms", big_number(v.duration_ms));
    assert(members.model() =~= bench_case_report_document(v.deep_view())->Object_0);
    members.finish()
}

/// The JSON documents of bench case report records.
pub open spec fn bench_case_report_documents(items: Seq<BenchCaseReportModel>) -> Seq<JsonModel> {
    items.map_values(|v: BenchCaseReportModel| bench_case_report_document(v))
}

/// A JSON array of bench case report records.
pub fn bench_case_report_list(items: &Vec<BenchCaseReport>) -> (r: Json)
    ensures
        r.deep_view() == JsonModel::Array(bench_case_report_documents(items.deep_view())),
{
    let mut out = Items::new();
    let ghost all = items.deep_view();
    let mut i: usize = 0;
    assert(out.model() =~= bench_case_report_documents(all.take(0)));
    while i < items.len()
        invariant
            i <= items@.len(),
            all == items.deep_view(),
            out.model() == bench_case_report_documents(all.take(i as int)),
        decreases items@.len() - i,
    {
        out.put(bench_case_report_json(&items[i]));
        proof {
            lemma_take_next(all, i as int);
        }
        assert(out.model() =~= bench_case_report_documents(all.take(i + 1)));
        i = i + 1;
    }
    proof {
        lemma_take_all(all);
    }
    out.finish()
}

/// A bench summary as a JSON document.
pub open spec fn bench_summary_document(v: BenchSummaryModel) -> JsonModel {
    JsonModel::Object(
        seq![
            ("total_cases"@, JsonModel::Number(decimal(v.total_cases as int))),
            ("passed_cases"@, JsonModel::Number(decimal(v.passed_cases as int))),
            ("large_repo_cases"@, JsonModel::Number(decimal(v.large_repo_cases as int))),
            ("total_duration_ms"@, JsonModel::Number(decimal(v.total_duration_ms as int))),
            ("total_targets"@, JsonModel::Number(decimal(v.total_targets as int))),
            ("high_risk_targets"@, JsonModel::Number(decimal(v.high_risk_targets as int))),
            ("total_commands"@, JsonModel::Number(decimal(v.total_commands as int))),
            ("total_findings"@, JsonModel::Number(decimal(v.total_findings as int))),
            ("total_artifacts"@, JsonModel::Number(decimal(v.total_artifacts as int))),
            ("total_mutants_executed"@, JsonModel::Number(decimal(v.total_mutants_executed as int))),
            ("total_replay_cases"@, JsonModel::Number(decimal(v.total_replay_cases as int))),
            ("total_evolution_selected"@, JsonModel::Number(decimal(v.total_evolution_selected as int))),
            ("slowest_case"@, text_or_null(v.slowest_case)),
        ],
    )
}

/// A bench summary as a JSON value.
pub fn bench_summary_json(v: &BenchSummary) -> (r: Json)
    ensures
        r.deep_view() == bench_summary_document(v.deep_view()),
{
    let mut members = Members::new();
    members.put("total_cases", number(v.total_cases as u64));
    members.put("passed_cases", number(v.passed_cases as u64));
    members.put("large_repo_cases", number(v.large_repo_cases as u64));
    members.put("total_duration_ms", big_number(v.total_duration_ms));
    members.put("total_targets", number(v.total_targets as u64));
    members.put("high_risk_targets", number(v.high_risk_targets as u64));
    members.put("total_commands", number(v.total_commands as u64));
    members.put("total_findings", number(v.total_findings as u64));
    members.put("total_artifacts", number(v.total_artifacts as u64));
    members.put("total_mutants_executed", number(v.total_mutants_executed as u64));
    members.put("total_replay_cases", number(v.total_replay_cases as u64));
    members.put("total_evolution_selected", number(v.total_evolution_selected as u64));
    members.put("slowest_case", optional_text(&v.slowest_case));
    assert(members.model() =~= bench_summary_document(v.deep_view())->Object_0);
    members.finish()
}

/// A bench report as a JSON document.
pub open spec fn bench_report_document(v: BenchReportModel) -> JsonModel {
    JsonModel::Object(
        seq![
            ("suite"@, JsonModel::Text(v.suite)),
            ("profile"@, JsonModel::Text(v.profile.label_text())),
            ("passed"@, JsonModel::Bool(v.passed)),
            ("summary"@, bench_summary_document(v.summary)),
            ("cases"@, JsonModel::Array(bench_case_report_documents(v.cases))),
        ],
    )
}

/// A bench report as a JSON value.
pub fn bench_report_json(v: &BenchReport) -> (r: Json)
    ensures
        r.deep_view() == bench_report_document(v.deep_view()),
{
    let mut members = Members::new();
    members.put("suite", text(v.suite.as_str()));
    members.put("profile", text(v.profile.label()));
    members.put("passed", Json::Bool(v.passed));
    members.put("summary", bench_summary_json(&v.summary));
    members.put("cases", bench_case_report_list(&v.cases));
    assert(members.model() =~= bench_report_document(v.deep_view())->Object_0);
    members.finish()
}

/// What a benchmark prints.
pub fn print_bench_report(report: &BenchReport, format: OutputFormat) -> (r: Result<String, String>)
    ensures
        gives(
            r,
            printed(
                format,
                bench_words(report.deep_view()),
                bench_report_document(report.deep_view()),
                "bench"@,
            ),
        ),
{
    match format {
        OutputFormat::Markdown => Ok(render_bench_report(report)),
        OutputFormat::Json => Ok(print_document(&bench_report_json(report))),
        OutputFormat::Sarif => Err(unsupported_format("bench")),
        OutputFormat::Junit => Err(unsupported_format("bench")),
    }
}

proof fn lemma_no_missing_findings(report: VerificationReportModel, items: Seq<Seq<char>>)
    ensures
        missing_findings_of(report, items).len() == 0 <==> forall|i: int|
            0 <= i < items.len() ==> some_mention(report.findings, #[trigger] items[i]),
    decreases items.len(),
{
    if items.len() > 0 {
        lemma_no_missing_findings(report, items.drop_last());
        assert(items[items.len() - 1] == items.last());
        assert forall|i: int| 0 <= i < items.len() - 1 implies #[trigger] items[i]
            == items.drop_last()[i] by {}
    }
}

proof fn lemma_no_missing_artifacts(report: VerificationReportModel, items: Seq<Seq<char>>)
    ensures
        missing_artifacts_of(report, items).len() == 0 <==> forall|i: int|
            0 <= i < items.len() ==> some_of_kind(report.artifacts, #[trigger] items[i]),
    decreases items.len(),
{
    if items.len() > 0 {
        lemma_no_missing_artifacts(report, items.drop_last());
        assert(items[items.len() - 1] == items.last());
        assert forall|i: int| 0 <= i < items.len() - 1 implies #[trigger] items[i]
            == items.drop_last()[i] by {}
    }
}

proof fn lemma_no_missing_commands(report: VerificationReportModel, items: Seq<Seq<char>>)
    ensures
        missing_commands_of(report, items).len() == 0 <==> forall|i: int|
            0 <= i < items.len() ==> some_run_mention(report.runs, #[trigger] items[i]),
    decreases items.len(),
{
    if items.len() > 0 {
        lemma_no_missing_commands(report, items.drop_last());
        assert(items[items.len() - 1] == items.last());
        assert forall|i: int| 0 <= i < items.len() - 1 implies #[trigger] items[i]
            == items.drop_last()[i] by {}
    }
}

/// Whether a report holds what a case expects: a finding that has each expected text in its
/// message, its command or its output, an artifact of each expected kind, and a command that
/// has each expected text.
pub open spec fn holds_expected(case: BenchCaseModel, report: VerificationReportModel) -> bool {
    &&& forall|i: int|
        0 <= i < case.expect_findings.len() ==> exists|f: int|
            0 <= f < report.findings.len() && (has_text(
                (#[trigger] report.findings[f]).message,
                #[trigger] case.expect_findings[i],
            ) || has_text(report.findings[f].command, case.expect_findings[i]) || has_text(
                report.findings[f].stdout_excerpt,
                case.expect_findings[i],
            ) || has_text(report.findings[f].stderr_excerpt, case.expect_findings[i]))
    &&& forall|i: int|
        0 <= i < case.expect_artifacts.len() ==> exists|a: int|
            0 <= a < report.artifacts.len() && (#[trigger] report.artifacts[a]).kind.label_text()
                == #[trigger] case.expect_artifacts[i]
    &&& forall|i: int|
        0 <= i < case.expect_commands.len() ==> some_run_mention(
            report.runs,
            #[trigger] case.expect_commands[i],
        )
}

/// A case passes exactly where the report holds what it expects and no limit is broken.
pub proof fn law_cases_pass_with_what_they_expect(
    profile: BenchProfile,
    case: BenchCaseModel,
    source: Seq<char>,
    report: VerificationReportModel,
    duration_ms: u128,
)
    ensures
        ({
            let r = case_report(profile, case, source, report, duration_ms);
            &&& r.passed <==> holds_expected(case, report) && r.threshold_failures.len() == 0
            &&& r.findings == report.findings.len() as usize
            &&& r.artifacts == report.artifacts.len() as usize
            &&& r.duration_ms == duration_ms
        }),
{
    lemma_no_missing_findings(report, case.expect_findings);
    lemma_no_missing_artifacts(report, case.expect_artifacts);
    lemma_no_missing_commands(report, case.expect_commands);
    assert forall|i: int|
        0 <= i < case.expect_findings.len() && some_mention(
            report.findings,
            #[trigger] case.expect_findings[i],
        ) implies exists|f: int|
        0 <= f < report.findings.len() && (has_text(
            (#[trigger] report.findings[f]).message,
            case.expect_findings[i],
        ) || has_text(report.findings[f].command, case.expect_findings[i]) || has_text(
            report.findings[f].stdout_excerpt,
            case.expect_findings[i],
        ) || has_text(report.findings[f].stderr_excerpt, case.expect_findings[i])) by {
        let f = choose|f: int|
            0 <= f < report.findings.len() && mentions(
                #[trigger] report.findings[f],
                case.expect_findings[i],
            );
        assert(mentions(report.findings[f], case.expect_findings[i]));
    }
}

proof fn lemma_all_passed(items: Seq<BenchCaseReportModel>)
    ensures
        0 <= passed_count(items) <= items.len(),
        passed_count(items) == items.len() <==> forall|i: int|
            0 <= i < items.len() ==> (#[trigger] items[i]).passed,
    decreases items.len(),
{
    if items.len() > 0 {
        lemma_all_passed(items.drop_last());
        assert(items[items.len() - 1] == items.last());
        assert forall|i: int| 0 <= i < items.len() - 1 implies #[trigger] items[i]
            == items.drop_last()[i] by {}
    }
}

/// A suite passes exactly where every case does.
pub proof fn law_suites_pass_with_their_cases(
    suite: Seq<char>,
    profile: BenchProfile,
    cases: Seq<BenchCaseReportModel>,
)
    ensures
        suite_report(suite, profile, cases).passed <==> forall|i: int|
            0 <= i < cases.len() ==> (#[trigger] cases[i]).passed,
{
    lemma_all_passed(cases);
}

/// One more case adds its own numbers to the summary.
pub proof fn law_cases_add_up(cases: Seq<BenchCaseReportModel>, case: BenchCaseReportModel)
    requires
        summary_fits(cases.push(case)),
        cases.len() < usize::MAX,
    ensures
        ({
            let before = summary_of(cases);
            let after = summary_of(cases.push(case));
            &&& after.total_cases == before.total_cases + 1
            &&& after.passed_cases == before.passed_cases + (if case.passed {
                1int
            } else {
                0
            })
            &&& after.total_duration_ms == before.total_duration_ms + case.duration_ms
            &&& after.total_targets == before.total_targets + case.metrics.target_count
            &&& after.high_risk_targets == before.high_risk_targets + case.metrics.high_risk_targets
            &&& after.total_commands == before.total_commands + case.metrics.command_count
            &&& after.total_findings == before.total_findings + case.findings
            &&& after.total_artifacts == before.total_artifacts + case.artifacts
            &&& after.total_mutants_executed == before.total_mutants_executed + case.metrics.mutants_executed
            &&& after.total_replay_cases == before.total_replay_cases + case.metrics.replay_cases
            &&& after.total_evolution_selected == before.total_evolution_selected + case.metrics.evolution_selected
        }),
{
    assert(cases.push(case).drop_last() =~= cases);
    lemma_all_passed(cases);
    lemma_total_duration_ms_in_is_not_negative(cases);
    lemma_total_targets_in_is_not_negative(cases);
    lemma_high_risk_targets_in_is_not_negative(cases);
    lemma_total_commands_in_is_not_negative(cases);
    lemma_total_findings_in_is_not_negative(cases);
    lemma_total_artifacts_in_is_not_negative(cases);
    lemma_total_mutants_executed_in_is_not_negative(cases);
    lemma_total_replay_cases_in_is_not_negative(cases);
    lemma_total_evolution_selected_in_is_not_negative(cases);
}

} // verus!
