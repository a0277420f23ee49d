//! The records that plugins, the engine and the command line share: projects,
//! targets, plans, artifacts, runs, findings and reports.
use vstd::prelude::*;

use crate::cache::TargetCache;
use crate::corpus::CorpusReplay;
use crate::metrics::{no_quality, VerificationQuality, VerificationQualityModel};
use crate::records::{AssertionCandidate, CorpusEntry, EvolutionSuite};
use crate::text::{clone_text, clone_texts};

verus! {

/// What a verification target covers.
#[derive(Debug, Clone, Copy, PartialEq, Eq, Structural)]
pub enum TargetKind {
    Project,
    Package,
    File,
    Function,
}

impl TargetKind {
    /// The name of the variant.
    pub open spec fn name_text(self) -> Seq<char> {
        match self {
            TargetKind::Project => "Project"@,
            TargetKind::Package => "Package"@,
            TargetKind::File => "File"@,
            TargetKind::Function => "Function"@,
        }
    }

    /// The name of the variant.
    pub fn name(self) -> (r: &'static str)
        ensures
            r@ == self.name_text(),
    {
        match self {
            TargetKind::Project => "Project",
            TargetKind::Package => "Package",
            TargetKind::File => "File",
            TargetKind::Function => "Function",
        }
    }

    /// The name in reports and configuration files.
    pub open spec fn label_text(self) -> Seq<char> {
        match self {
            TargetKind::Project => "project"@,
            TargetKind::Package => "package"@,
            TargetKind::File => "file"@,
            TargetKind::Function => "function"@,
        }
    }

    /// The name in reports and configuration files.
    pub fn label(self) -> (r: &'static str)
        ensures
            r@ == self.label_text(),
    {
        match self {
            TargetKind::Project => "project",
            TargetKind::Package => "package",
            TargetKind::File => "file",
            TargetKind::Function => "function",
        }
    }
}

/// How much harm a defect in a target would do.
#[derive(Debug, Clone, Copy, PartialEq, Eq, PartialOrd, Ord, Structural)]
pub enum RiskLevel {
    Low,
    Medium,
    High,
}

impl RiskLevel {
    /// The name of the variant.
    pub open spec fn name_text(self) -> Seq<char> {
        match self {
            RiskLevel::Low => "Low"@,
            RiskLevel::Medium => "Medium"@,
            RiskLevel::High => "High"@,
        }
    }

    /// The name of the variant.
    pub fn name(self) -> (r: &'static str)
        ensures
            r@ == self.name_text(),
    {
        match self {
            RiskLevel::Low => "Low",
            RiskLevel::Medium => "Medium",
            RiskLevel::High => "High",
        }
    }

    /// The name in reports and configuration files.
    pub open spec fn label_text(self) -> Seq<char> {
        match self {
            RiskLevel::Low => "low"@,
            RiskLevel::Medium => "medium"@,
            RiskLevel::High => "high"@,
        }
    }

    /// The name in reports and configuration files.
    pub fn label(self) -> (r: &'static str)
        ensures
            r@ == self.label_text(),
    {
        match self {
            RiskLevel::Low => "low",
            RiskLevel::Medium => "medium",
            RiskLevel::High => "high",
        }
    }

    /// The place of the level in the order, lowest first.
    pub open spec fn rank(self) -> int {
        match self {
            RiskLevel::Low => 0,
            RiskLevel::Medium => 1,
            RiskLevel::High => 2,
        }
    }

    /// Whether this level is lower than another.
    pub fn below(self, other: Self) -> (r: bool)
        ensures
            r == (self.rank() < other.rank()),
    {
        self.rank_number() < other.rank_number()
    }

    fn rank_number(self) -> (r: u8)
        ensures
            r == self.rank(),
    {
        match self {
            RiskLevel::Low => 0,
            RiskLevel::Medium => 1,
            RiskLevel::High => 2,
        }
    }
}

/// A copy of risk levels.
pub fn clone_risk_levels(items: &Vec<RiskLevel>) -> (r: Vec<RiskLevel>)
    ensures
        r@ == items@,
{
    let mut out: Vec<RiskLevel> = Vec::new();
    let mut i: usize = 0;
    while i < items.len()
        invariant
            i <= items@.len(),
            out@ == items@.take(i as int),
        decreases items@.len() - i,
    {
        out.push(items[i]);
        i = i + 1;
        assert(out@ == items@.take(i as int));
    }
    assert(items@.take(items@.len() as int) == items@);
    out
}

/// How serious a finding is.
#[derive(Debug, Clone, Copy, PartialEq, Eq, PartialOrd, Ord, Structural)]
pub enum FailureSeverity {
    Info,
    Warning,
    Error,
    Critical,
}

impl FailureSeverity {
    /// The name of the variant.
    pub open spec fn name_text(self) -> Seq<char> {
        match self {
            FailureSeverity::Info => "Info"@,
            FailureSeverity::Warning => "Warning"@,
            FailureSeverity::Error => "Error"@,
            FailureSeverity::Critical => "Critical"@,
        }
    }

    /// The name of the variant.
    pub fn name(self) -> (r: &'static str)
        ensures
            r@ == self.name_text(),
    {
        match self {
            FailureSeverity::Info => "Info",
            FailureSeverity::Warning => "Warning",
            FailureSeverity::Error => "Error",
            FailureSeverity::Critical => "Critical",
        }
    }

    /// The name in reports and configuration files.
    pub open spec fn label_text(self) -> Seq<char> {
        match self {
            FailureSeverity::Info => "info"@,
            FailureSeverity::Warning => "warning"@,
            FailureSeverity::Error => "error"@,
            FailureSeverity::Critical => "critical"@,
        }
    }

    /// The name in reports and configuration files.
    pub fn label(self) -> (r: &'static str)
        ensures
            r@ == self.label_text(),
    {
        match self {
            FailureSeverity::Info => "info",
            FailureSeverity::Warning => "warning",
            FailureSeverity::Error => "error",
            FailureSeverity::Critical => "critical",
        }
    }

    /// The place of the level in the order, lowest first.
    pub open spec fn rank(self) -> int {
        match self {
            FailureSeverity::Info => 0,
            FailureSeverity::Warning => 1,
            FailureSeverity::Error => 2,
            FailureSeverity::Critical => 3,
        }
    }

    /// Whether this level is lower than another.
    pub fn below(self, other: Self) -> (r: bool)
        ensures
            r == (self.rank() < other.rank()),
    {
        self.rank_number() < other.rank_number()
    }

    fn rank_number(self) -> (r: u8)
        ensures
            r == self.rank(),
    {
        match self {
            FailureSeverity::Info => 0,
            FailureSeverity::Warning => 1,
            FailureSeverity::Error => 2,
            FailureSeverity::Critical => 3,
        }
    }
}

/// The severity of a finding that states none.
pub fn default_failure_severity() -> (r: FailureSeverity)
    ensures
        r == FailureSeverity::Error,
{
    FailureSeverity::Error
}

/// A way to look for defects.
#[derive(Debug, Clone, Copy, PartialEq, Eq, PartialOrd, Ord, Structural)]
pub enum VerificationStrategy {
    ExistingTests,
    UnitTests,
    PropertyTests,
    Fuzzing,
    DifferentialTests,
    MutationChecks,
    CoverageFeedback,
}

impl VerificationStrategy {
    /// The name of the variant.
    pub open spec fn name_text(self) -> Seq<char> {
        match self {
            VerificationStrategy::ExistingTests => "ExistingTests"@,
            VerificationStrategy::UnitTests => "UnitTests"@,
            VerificationStrategy::PropertyTests => "PropertyTests"@,
            VerificationStrategy::Fuzzing => "Fuzzing"@,
            VerificationStrategy::DifferentialTests => "DifferentialTests"@,
            VerificationStrategy::MutationChecks => "MutationChecks"@,
            VerificationStrategy::CoverageFeedback => "CoverageFeedback"@,
        }
    }

    /// The name of the variant.
    pub fn name(self) -> (r: &'static str)
        ensures
            r@ == self.name_text(),
    {
        match self {
            VerificationStrategy::ExistingTests => "ExistingTests",
            VerificationStrategy::UnitTests => "UnitTests",
            VerificationStrategy::PropertyTests => "PropertyTests",
            VerificationStrategy::Fuzzing => "Fuzzing",
            VerificationStrategy::DifferentialTests => "DifferentialTests",
            VerificationStrategy::MutationChecks => "MutationChecks",
            VerificationStrategy::CoverageFeedback => "CoverageFeedback",
        }
    }

    /// The name in reports and configuration files.
    pub open spec fn label_text(self) -> Seq<char> {
        match self {
            VerificationStrategy::ExistingTests => "existing_tests"@,
            VerificationStrategy::UnitTests => "unit_tests"@,
            VerificationStrategy::PropertyTests => "property_tests"@,
            VerificationStrategy::Fuzzing => "fuzzing"@,
            VerificationStrategy::DifferentialTests => "differential_tests"@,
            VerificationStrategy::MutationChecks => "mutation_checks"@,
            VerificationStrategy::CoverageFeedback => "coverage_feedback"@,
        }
    }

    /// The name in reports and configuration files.
    pub fn label(self) -> (r: &'static str)
        ensures
            r@ == self.label_text(),
    {
        match self {
            VerificationStrategy::ExistingTests => "existing_tests",
            VerificationStrategy::UnitTests => "unit_tests",
            VerificationStrategy::PropertyTests => "property_tests",
            VerificationStrategy::Fuzzing => "fuzzing",
            VerificationStrategy::DifferentialTests => "differential_tests",
            VerificationStrategy::MutationChecks => "mutation_checks",
            VerificationStrategy::CoverageFeedback => "coverage_feedback",
        }
    }
}

/// A copy of verification strategies.
pub fn clone_verification_strategies(
    items: &Vec<VerificationStrategy>,
) -> (r: Vec<VerificationStrategy>)
    ensures
        r@ == items@,
{
    let mut out: Vec<VerificationStrategy> = Vec::new();
    let mut i: usize = 0;
    while i < items.len()
        invariant
            i <= items@.len(),
            out@ == items@.take(i as int),
        decreases items@.len() - i,
    {
        out.push(items[i]);
        i = i + 1;
        assert(out@ == items@.take(i as int));
    }
    assert(items@.take(items@.len() as int) == items@);
    out
}

/// What a generated artifact is for.
#[derive(Debug, Clone, Copy, PartialEq, Eq, Structural)]
pub enum ArtifactKind {
    UnitTest,
    PropertyTest,
    FuzzHarness,
    HarnessIndex,
    MutationCheck,
    CoverageFeedback,
    DifferentialBaseline,
    ReproCase,
    PackageAwareness,
    PackageGraph,
    SymbolGraph,
    ChangeDigest,
    AiFeedback,
    CandidatePatch,
    FindingBaseline,
    RegressionTest,
    DifferentialReplay,
    TargetCache,
    EvolutionCandidate,
    EvolutionPlan,
    EvolutionSuite,
    AssertionCandidate,
    CorpusEntry,
    CorpusReplay,
    ReplayResult,
    BudgetPlan,
    MutationTrend,
    MutationCampaign,
}

impl ArtifactKind {
    /// The name of the variant.
    pub open spec fn name_text(self) -> Seq<char> {
        match self {
            ArtifactKind::UnitTest => "UnitTest"@,
            ArtifactKind::PropertyTest => "PropertyTest"@,
            ArtifactKind::FuzzHarness => "FuzzHarness"@,
            ArtifactKind::HarnessIndex => "HarnessIndex"@,
            ArtifactKind::MutationCheck => "MutationCheck"@,
            ArtifactKind::CoverageFeedback => "CoverageFeedback"@,
            ArtifactKind::DifferentialBaseline => "DifferentialBaseline"@,
            ArtifactKind::ReproCase => "ReproCase"@,
            ArtifactKind::PackageAwareness => "PackageAwareness"@,
            ArtifactKind::PackageGraph => "PackageGraph"@,
            ArtifactKind::SymbolGraph => "SymbolGraph"@,
            ArtifactKind::ChangeDigest => "ChangeDigest"@,
            ArtifactKind::AiFeedback => "AiFeedback"@,
            ArtifactKind::CandidatePatch => "CandidatePatch"@,
            ArtifactKind::FindingBaseline => "FindingBaseline"@,
            ArtifactKind::RegressionTest => "RegressionTest"@,
            ArtifactKind::DifferentialReplay => "DifferentialReplay"@,
            ArtifactKind::TargetCache => "TargetCache"@,
            ArtifactKind::EvolutionCandidate => "EvolutionCandidate"@,
            ArtifactKind::EvolutionPlan => "EvolutionPlan"@,
            ArtifactKind::EvolutionSuite => "EvolutionSuite"@,
            ArtifactKind::AssertionCandidate => "AssertionCandidate"@,
            ArtifactKind::CorpusEntry => "CorpusEntry"@,
            ArtifactKind::CorpusReplay => "CorpusReplay"@,
            ArtifactKind::ReplayResult => "ReplayResult"@,
            ArtifactKind::BudgetPlan => "BudgetPlan"@,
            ArtifactKind::MutationTrend => "MutationTrend"@,
            ArtifactKind::MutationCampaign => "MutationCampaign"@,
        }
    }

    /// The name of the variant.
    pub fn name(self) -> (r: &'static str)
        ensures
            r@ == self.name_text(),
    {
        match self {
            ArtifactKind::UnitTest => "UnitTest",
            ArtifactKind::PropertyTest => "PropertyTest",
            ArtifactKind::FuzzHarness => "FuzzHarness",
            ArtifactKind::HarnessIndex => "HarnessIndex",
            ArtifactKind::MutationCheck => "MutationCheck",
            ArtifactKind::CoverageFeedback => "CoverageFeedback",
            ArtifactKind::DifferentialBaseline => "DifferentialBaseline",
            ArtifactKind::ReproCase => "ReproCase",
            ArtifactKind::PackageAwareness => "PackageAwareness",
            ArtifactKind::PackageGraph => "PackageGraph",
            ArtifactKind::SymbolGraph => "SymbolGraph",
            ArtifactKind::ChangeDigest => "ChangeDigest",
            ArtifactKind::AiFeedback => "AiFeedback",
            ArtifactKind::CandidatePatch => "CandidatePatch",
            ArtifactKind::FindingBaseline => "FindingBaseline",
            ArtifactKind::RegressionTest => "RegressionTest",
            ArtifactKind::DifferentialReplay => "DifferentialReplay",
            ArtifactKind::TargetCache => "TargetCache",
            ArtifactKind::EvolutionCandidate => "EvolutionCandidate",
            ArtifactKind::EvolutionPlan => "EvolutionPlan",
            ArtifactKind::EvolutionSuite => "EvolutionSuite",
            ArtifactKind::AssertionCandidate => "AssertionCandidate",
            ArtifactKind::CorpusEntry => "CorpusEntry",
            ArtifactKind::CorpusReplay => "CorpusReplay",
            ArtifactKind::ReplayResult => "ReplayResult",
            ArtifactKind::BudgetPlan => "BudgetPlan",
            ArtifactKind::MutationTrend => "MutationTrend",
            ArtifactKind::MutationCampaign => "MutationCampaign",
        }
    }

    /// The name in reports and configuration files.
    pub open spec fn label_text(self) -> Seq<char> {
        match self {
            ArtifactKind::UnitTest => "unit_test"@,
            ArtifactKind::PropertyTest => "property_test"@,
            ArtifactKind::FuzzHarness => "fuzz_harness"@,
            ArtifactKind::HarnessIndex => "harness_index"@,
            ArtifactKind::MutationCheck => "mutation_check"@,
            ArtifactKind::CoverageFeedback => "coverage_feedback"@,
            ArtifactKind::DifferentialBaseline => "differential_baseline"@,
            ArtifactKind::ReproCase => "repro_case"@,
            ArtifactKind::PackageAwareness => "package_awareness"@,
            ArtifactKind::PackageGraph => "package_graph"@,
            ArtifactKind::SymbolGraph => "symbol_graph"@,
            ArtifactKind::ChangeDigest => "change_digest"@,
            ArtifactKind::AiFeedback => "ai_feedback"@,
            ArtifactKind::CandidatePatch => "candidate_patch"@,
            ArtifactKind::FindingBaseline => "finding_baseline"@,
            ArtifactKind::RegressionTest => "regression_test"@,
            ArtifactKind::DifferentialReplay => "differential_replay"@,
            ArtifactKind::TargetCache => "target_cache"@,
            ArtifactKind::EvolutionCandidate => "evolution_candidate"@,
            ArtifactKind::EvolutionPlan => "evolution_plan"@,
            ArtifactKind::EvolutionSuite => "evolution_suite"@,
            ArtifactKind::AssertionCandidate => "assertion_candidate"@,
            ArtifactKind::CorpusEntry => "corpus_entry"@,
            ArtifactKind::CorpusReplay => "corpus_replay"@,
            ArtifactKind::ReplayResult => "replay_result"@,
            ArtifactKind::BudgetPlan => "budget_plan"@,
            ArtifactKind::MutationTrend => "mutation_trend"@,
            ArtifactKind::MutationCampaign => "mutation_campaign"@,
        }
    }

    /// The name in reports and configuration files.
    pub fn label(self) -> (r: &'static str)
        ensures
            r@ == self.label_text(),
    {
        match self {
            ArtifactKind::UnitTest => "unit_test",
            ArtifactKind::PropertyTest => "property_test",
            ArtifactKind::FuzzHarness => "fuzz_harness",
            ArtifactKind::HarnessIndex => "harness_index",
            ArtifactKind::MutationCheck => "mutation_check",
            ArtifactKind::CoverageFeedback => "coverage_feedback",
            ArtifactKind::DifferentialBaseline => "differential_baseline",
            ArtifactKind::ReproCase => "repro_case",
            ArtifactKind::PackageAwareness => "package_awareness",
            ArtifactKind::PackageGraph => "package_graph",
            ArtifactKind::SymbolGraph => "symbol_graph",
            ArtifactKind::ChangeDigest => "change_digest",
            ArtifactKind::AiFeedback => "ai_feedback",
            ArtifactKind::CandidatePatch => "candidate_patch",
            ArtifactKind::FindingBaseline => "finding_baseline",
            ArtifactKind::RegressionTest => "regression_test",
            ArtifactKind::DifferentialReplay => "differential_replay",
            ArtifactKind::TargetCache => "target_cache",
            ArtifactKind::EvolutionCandidate => "evolution_candidate",
            ArtifactKind::EvolutionPlan => "evolution_plan",
            ArtifactKind::EvolutionSuite => "evolution_suite",
            ArtifactKind::AssertionCandidate => "assertion_candidate",
            ArtifactKind::CorpusEntry => "corpus_entry",
            ArtifactKind::CorpusReplay => "corpus_replay",
            ArtifactKind::ReplayResult => "replay_result",
            ArtifactKind::BudgetPlan => "budget_plan",
            ArtifactKind::MutationTrend => "mutation_trend",
            ArtifactKind::MutationCampaign => "mutation_campaign",
        }
    }
}

/// What became of a generated artifact.
#[derive(Debug, Clone, Copy, PartialEq, Eq, Structural)]
pub enum ArtifactStatus {
    Planned,
    Written,
    Skipped,
}

impl ArtifactStatus {
    /// The name of the variant.
    pub open spec fn name_text(self) -> Seq<char> {
        match self {
            ArtifactStatus::Planned => "Planned"@,
            ArtifactStatus::Written => "Written"@,
            ArtifactStatus::Skipped => "Skipped"@,
        }
    }

    /// The name of the variant.
    pub fn name(self) -> (r: &'static str)
        ensures
            r@ == self.name_text(),
    {
        match self {
            ArtifactStatus::Planned => "Planned",
            ArtifactStatus::Written => "Written",
            ArtifactStatus::Skipped => "Skipped",
        }
    }

    /// The name in reports and configuration files.
    pub open spec fn label_text(self) -> Seq<char> {
        match self {
            ArtifactStatus::Planned => "planned"@,
            ArtifactStatus::Written => "written"@,
            ArtifactStatus::Skipped => "skipped"@,
        }
    }

    /// The name in reports and configuration files.
    pub fn label(self) -> (r: &'static str)
        ensures
            r@ == self.label_text(),
    {
        match self {
            ArtifactStatus::Planned => "planned",
            ArtifactStatus::Written => "written",
            ArtifactStatus::Skipped => "skipped",
        }
    }
}

/// How a run or a command ended.
#[derive(Debug, Clone, Copy, PartialEq, Eq, Structural)]
pub enum RunStatus {
    Passed,
    Failed,
    Skipped,
}

impl RunStatus {
    /// The name of the variant.
    pub open spec fn name_text(self) -> Seq<char> {
        match self {
            RunStatus::Passed => "Passed"@,
            RunStatus::Failed => "Failed"@,
            RunStatus::Skipped => "Skipped"@,
        }
    }

    /// The name of the variant.
    pub fn name(self) -> (r: &'static str)
        ensures
            r@ == self.name_text(),
    {
        match self {
            RunStatus::Passed => "Passed",
            RunStatus::Failed => "Failed",
            RunStatus::Skipped => "Skipped",
        }
    }

    /// The name in reports and configuration files.
    pub open spec fn label_text(self) -> Seq<char> {
        match self {
            RunStatus::Passed => "passed"@,
            RunStatus::Failed => "failed"@,
            RunStatus::Skipped => "skipped"@,
        }
    }

    /// The name in reports and configuration files.
    pub fn label(self) -> (r: &'static str)
        ensures
            r@ == self.label_text(),
    {
        match self {
            RunStatus::Passed => "passed",
            RunStatus::Failed => "failed",
            RunStatus::Skipped => "skipped",
        }
    }
}

/// Source lines, first and last included, counted from one.
#[derive(Debug, Clone, Copy, PartialEq, Eq, Structural)]
pub struct LineRange {
    pub start: usize,
    pub end: usize,
}

/// Whether two ranges share a line, where both hold at least one.
pub open spec fn ranges_overlap(a: LineRange, b: LineRange) -> bool {
    a.start <= b.end && b.start <= a.end
}

impl LineRange {
    /// Whether the two ranges share a line.
    pub fn overlaps(&self, other: &LineRange) -> (r: bool)
        ensures
            r == ranges_overlap(*self, *other),
    {
        self.start <= other.end && other.start <= self.end
    }
}

/// Overlap does not depend on which range is named first.
pub proof fn law_overlap_symmetric(a: LineRange, b: LineRange)
    ensures
        ranges_overlap(a, b) == ranges_overlap(b, a),
{
}

/// Ranges that are not empty overlap exactly where some line is in both.
pub proof fn law_overlap_is_common_line(a: LineRange, b: LineRange)
    requires
        a.start <= a.end,
        b.start <= b.end,
    ensures
        ranges_overlap(a, b) == exists|line: int|
            a.start <= line <= a.end && #[trigger] in_range(b, line),
{
    if ranges_overlap(a, b) {
        let line: int = if a.start <= b.start {
            b.start as int
        } else {
            a.start as int
        };
        assert(a.start <= line <= a.end && in_range(b, line));
    }
}

/// Whether a line is in a range.
pub open spec fn in_range(range: LineRange, line: int) -> bool {
    range.start <= line <= range.end
}

/// A copy of line ranges.
pub fn clone_line_ranges(items: &Vec<LineRange>) -> (r: Vec<LineRange>)
    ensures
        r@ == items@,
{
    let mut out: Vec<LineRange> = Vec::new();
    let mut i: usize = 0;
    while i < items.len()
        invariant
            i <= items@.len(),
            out@ == items@.take(i as int),
        decreases items@.len() - i,
    {
        out.push(items[i]);
        i = i + 1;
        assert(out@ == items@.take(i as int));
    }
    assert(items@.take(items@.len() as int) == items@);
    out
}

/// A project that a plugin found.
#[derive(Debug, PartialEq, Eq)]
pub struct ProjectInfo {
    pub language: String,
    pub name: String,
    pub root: String,
    pub manifests: Vec<String>,
}

/// The mathematical value of a `ProjectInfo`.
pub struct ProjectInfoModel {
    pub language: Seq<char>,
    pub name: Seq<char>,
    pub root: Seq<char>,
    pub manifests: Seq<Seq<char>>,
}

impl DeepView for ProjectInfo {
    type V = ProjectInfoModel;

    open spec fn deep_view(&self) -> ProjectInfoModel {
        ProjectInfoModel {
            language: self.language@,
            name: self.name@,
            root: self.root@,
            manifests: self.manifests.deep_view(),
        }
    }
}

impl Clone for ProjectInfo {
    fn clone(&self) -> (r: Self)
        ensures
            r.deep_view() == self.deep_view(),
    {
        ProjectInfo {
            language: self.language.clone(),
            name: self.name.clone(),
            root: self.root.clone(),
            manifests: clone_texts(&self.manifests),
        }
    }
}

/// A copy of project infos.
pub fn clone_project_infos(items: &Vec<ProjectInfo>) -> (r: Vec<ProjectInfo>)
    ensures
        r.deep_view() == items.deep_view(),
        r@.len() == items@.len(),
{
    let mut out: Vec<ProjectInfo> = Vec::new();
    let mut i: usize = 0;
    while i < items.len()
        invariant
            i <= items@.len(),
            out@.len() == i,
            forall|j: int| 0 <= j < i ==> #[trigger] out@[j].deep_view() == items@[j].deep_view(),
        decreases items@.len() - i,
    {
        out.push(items[i].clone());
        i = i + 1;
    }
    assert(out.deep_view() == items.deep_view());
    out
}

/// A copy of project info.
pub fn clone_project_info(item: &Option<ProjectInfo>) -> (r: Option<ProjectInfo>)
    ensures
        r.deep_view() == item.deep_view(),
{
    match item {
        Some(value) => Some(value.clone()),
        None => None,
    }
}

/// A piece of a project that can be verified.
#[derive(Debug, PartialEq, Eq)]
pub struct VerificationTarget {
    pub id: String,
    pub language: String,
    pub kind: TargetKind,
    pub path: String,
    pub symbol: Option<String>,
    pub signature: Option<String>,
    pub line_range: Option<LineRange>,
    pub description: String,
    pub risk: RiskLevel,
}

/// The mathematical value of a `VerificationTarget`.
pub struct VerificationTargetModel {
    pub id: Seq<char>,
    pub language: Seq<char>,
    pub kind: TargetKind,
    pub path: Seq<char>,
    pub symbol: Option<Seq<char>>,
    pub signature: Option<Seq<char>>,
    pub line_range: Option<LineRange>,
    pub description: Seq<char>,
    pub risk: RiskLevel,
}

impl DeepView for VerificationTarget {
    type V = VerificationTargetModel;

    open spec fn deep_view(&self) -> VerificationTargetModel {
        VerificationTargetModel {
            id: self.id@,
            language: self.language@,
            kind: self.kind,
            path: self.path@,
            symbol: self.symbol.deep_view(),
            signature: self.signature.deep_view(),
            line_range: self.line_range,
            description: self.description@,
            risk: self.risk,
        }
    }
}

impl Clone for VerificationTarget {
    fn clone(&self) -> (r: Self)
        ensures
            r.deep_view() == self.deep_view(),
    {
        VerificationTarget {
            id: self.id.clone(),
            language: self.language.clone(),
            kind: self.kind,
            path: self.path.clone(),
            symbol: clone_text(&self.symbol),
            signature: clone_text(&self.signature),
            line_range: self.line_range,
            description: self.description.clone(),
            risk: self.risk,
        }
    }
}

/// A copy of verification targets.
pub fn clone_verification_targets(items: &Vec<VerificationTarget>) -> (r: Vec<VerificationTarget>)
    ensures
        r.deep_view() == items.deep_view(),
        r@.len() == items@.len(),
{
    let mut out: Vec<VerificationTarget> = Vec::new();
    let mut i: usize = 0;
    while i < items.len()
        invariant
            i <= items@.len(),
            out@.len() == i,
            forall|j: int| 0 <= j < i ==> #[trigger] out@[j].deep_view() == items@[j].deep_view(),
        decreases items@.len() - i,
    {
        out.push(items[i].clone());
        i = i + 1;
    }
    assert(out.deep_view() == items.deep_view());
    out
}

/// Puts an item at the end of the list.
pub fn push_verification_target(items: &mut Vec<VerificationTarget>, item: VerificationTarget)
    ensures
        final(items).deep_view() == old(items).deep_view().push(item.deep_view()),
        final(items)@.len() == old(items)@.len() + 1,
{
    let ghost before = items.deep_view();
    items.push(item);
    assert(items.deep_view() == before.push(item.deep_view()));
}

/// Puts the items of a second list behind those of the first.
pub fn append_verification_targets(
    items: &mut Vec<VerificationTarget>,
    more: &mut Vec<VerificationTarget>,
)
    ensures
        final(items).deep_view() == old(items).deep_view() + old(more).deep_view(),
{
    let ghost before = items.deep_view();
    let ghost tail = more.deep_view();
    items.append(more);
    assert(items.deep_view() == before + tail);
}

/// What to do for one target.
#[derive(Debug, PartialEq, Eq)]
pub struct VerificationPlan {
    pub target_id: String,
    pub strategies: Vec<VerificationStrategy>,
    pub budget_seconds: u64,
    pub write_generated_tests: bool,
    pub run_existing_tests: bool,
    pub run_generated_tests: bool,
    pub fail_on_generated_test_failure: bool,
}

/// The mathematical value of a `VerificationPlan`.
pub struct VerificationPlanModel {
    pub target_id: Seq<char>,
    pub strategies: Seq<VerificationStrategy>,
    pub budget_seconds: u64,
    pub write_generated_tests: bool,
    pub run_existing_tests: bool,
    pub run_generated_tests: bool,
    pub fail_on_generated_test_failure: bool,
}

impl DeepView for VerificationPlan {
    type V = VerificationPlanModel;

    open spec fn deep_view(&self) -> VerificationPlanModel {
        VerificationPlanModel {
            target_id: self.target_id@,
            strategies: self.strategies@,
            budget_seconds: self.budget_seconds,
            write_generated_tests: self.write_generated_tests,
            run_existing_tests: self.run_existing_tests,
            run_generated_tests: self.run_generated_tests,
            fail_on_generated_test_failure: self.fail_on_generated_test_failure,
        }
    }
}

impl Clone for VerificationPlan {
    fn clone(&self) -> (r: Self)
        ensures
            r.deep_view() == self.deep_view(),
    {
        VerificationPlan {
            target_id: self.target_id.clone(),
            strategies: clone_verification_strategies(&self.strategies),
            budget_seconds: self.budget_seconds,
            write_generated_tests: self.write_generated_tests,
            run_existing_tests: self.run_existing_tests,
            run_generated_tests: self.run_generated_tests,
            fail_on_generated_test_failure: self.fail_on_generated_test_failure,
        }
    }
}

/// A copy of verification plan.
pub fn clone_verification_plan(item: &Option<VerificationPlan>) -> (r: Option<VerificationPlan>)
    ensures
        r.deep_view() == item.deep_view(),
{
    match item {
        Some(value) => Some(value.clone()),
        None => None,
    }
}

/// A file that verification writes for review.
#[derive(Debug, PartialEq, Eq)]
pub struct GeneratedArtifact {
    pub id: String,
    pub language: String,
    pub kind: ArtifactKind,
    pub target_id: String,
    pub path: String,
    pub contents: String,
    pub description: String,
    pub status: ArtifactStatus,
}

/// The mathematical value of a `GeneratedArtifact`.
pub struct GeneratedArtifactModel {
    pub id: Seq<char>,
    pub language: Seq<char>,
    pub kind: ArtifactKind,
    pub target_id: Seq<char>,
    pub path: Seq<char>,
    pub contents: Seq<char>,
    pub description: Seq<char>,
    pub status: ArtifactStatus,
}

impl DeepView for GeneratedArtifact {
    type V = GeneratedArtifactModel;

    open spec fn deep_view(&self) -> GeneratedArtifactModel {
        GeneratedArtifactModel {
            id: self.id@,
            language: self.language@,
            kind: self.kind,
            target_id: self.target_id@,
            path: self.path@,
            contents: self.contents@,
            description: self.description@,
            status: self.status,
        }
    }
}

impl Clone for GeneratedArtifact {
    fn clone(&self) -> (r: Self)
        ensures
            r.deep_view() == self.deep_view(),
    {
        GeneratedArtifact {
            id: self.id.clone(),
            language: self.language.clone(),
            kind: self.kind,
            target_id: self.target_id.clone(),
            path: self.path.clone(),
            contents: self.contents.clone(),
            description: self.description.clone(),
            status: self.status,
        }
    }
}

/// A copy of generated artifacts.
pub fn clone_generated_artifacts(items: &Vec<GeneratedArtifact>) -> (r: Vec<GeneratedArtifact>)
    ensures
        r.deep_view() == items.deep_view(),
        r@.len() == items@.len(),
{
    let mut out: Vec<GeneratedArtifact> = Vec::new();
    let mut i: usize = 0;
    while i < items.len()
        invariant
            i <= items@.len(),
            out@.len() == i,
            forall|j: int| 0 <= j < i ==> #[trigger] out@[j].deep_view() == items@[j].deep_view(),
        decreases items@.len() - i,
    {
        out.push(items[i].clone());
        i = i + 1;
    }
    assert(out.deep_view() == items.deep_view());
    out
}

/// Puts an item at the end of the list.
pub fn push_generated_artifact(items: &mut Vec<GeneratedArtifact>, item: GeneratedArtifact)
    ensures
        final(items).deep_view() == old(items).deep_view().push(item.deep_view()),
        final(items)@.len() == old(items)@.len() + 1,
{
    let ghost before = items.deep_view();
    items.push(item);
    assert(items.deep_view() == before.push(item.deep_view()));
}

/// Puts the items of a second list behind those of the first.
pub fn append_generated_artifacts(
    items: &mut Vec<GeneratedArtifact>,
    more: &mut Vec<GeneratedArtifact>,
)
    ensures
        final(items).deep_view() == old(items).deep_view() + old(more).deep_view(),
{
    let ghost before = items.deep_view();
    let ghost tail = more.deep_view();
    items.append(more);
    assert(items.deep_view() == before + tail);
}

/// A command that was run.
#[derive(Debug, PartialEq, Eq)]
pub struct CommandRecord {
    pub program: String,
    pub args: Vec<String>,
    pub cwd: String,
    pub exit_code: Option<i32>,
    pub status: RunStatus,
    pub stdout: String,
    pub stderr: String,
    pub duration_ms: u128,
}

/// The mathematical value of a `CommandRecord`.
pub struct CommandRecordModel {
    pub program: Seq<char>,
    pub args: Seq<Seq<char>>,
    pub cwd: Seq<char>,
    pub exit_code: Option<i32>,
    pub status: RunStatus,
    pub stdout: Seq<char>,
    pub stderr: Seq<char>,
    pub duration_ms: u128,
}

impl DeepView for CommandRecord {
    type V = CommandRecordModel;

    open spec fn deep_view(&self) -> CommandRecordModel {
        CommandRecordModel {
            program: self.program@,
            args: self.args.deep_view(),
            cwd: self.cwd@,
            exit_code: self.exit_code,
            status: self.status,
            stdout: self.stdout@,
            stderr: self.stderr@,
            duration_ms: self.duration_ms,
        }
    }
}

impl Clone for CommandRecord {
    fn clone(&self) -> (r: Self)
        ensures
            r.deep_view() == self.deep_view(),
    {
        CommandRecord {
            program: self.program.clone(),
            args: clone_texts(&self.args),
            cwd: self.cwd.clone(),
            exit_code: self.exit_code,
            status: self.status,
            stdout: self.stdout.clone(),
            stderr: self.stderr.clone(),
            duration_ms: self.duration_ms,
        }
    }
}

/// A copy of command records.
pub fn clone_command_records(items: &Vec<CommandRecord>) -> (r: Vec<CommandRecord>)
    ensures
        r.deep_view() == items.deep_view(),
        r@.len() == items@.len(),
{
    let mut out: Vec<CommandRecord> = Vec::new();
    let mut i: usize = 0;
    while i < items.len()
        invariant
            i <= items@.len(),
            out@.len() == i,
            forall|j: int| 0 <= j < i ==> #[trigger] out@[j].deep_view() == items@[j].deep_view(),
        decreases items@.len() - i,
    {
        out.push(items[i].clone());
        i = i + 1;
    }
    assert(out.deep_view() == items.deep_view());
    out
}

/// Puts an item at the end of the list.
pub fn push_command_record(items: &mut Vec<CommandRecord>, item: CommandRecord)
    ensures
        final(items).deep_view() == old(items).deep_view().push(item.deep_view()),
        final(items)@.len() == old(items)@.len() + 1,
{
    let ghost before = items.deep_view();
    items.push(item);
    assert(items.deep_view() == before.push(item.deep_view()));
}

/// Puts the items of a second list behind those of the first.
pub fn append_command_records(items: &mut Vec<CommandRecord>, more: &mut Vec<CommandRecord>)
    ensures
        final(items).deep_view() == old(items).deep_view() + old(more).deep_view(),
{
    let ghost before = items.deep_view();
    let ghost tail = more.deep_view();
    items.append(more);
    assert(items.deep_view() == before + tail);
}

/// How to see a finding again.
#[derive(Debug, PartialEq, Eq)]
pub struct ReproCase {
    pub command: String,
    pub input: Option<String>,
    pub path: Option<String>,
}

/// The mathematical value of a `ReproCase`.
pub struct ReproCaseModel {
    pub command: Seq<char>,
    pub input: Option<Seq<char>>,
    pub path: Option<Seq<char>>,
}

impl DeepView for ReproCase {
    type V = ReproCaseModel;

    open spec fn deep_view(&self) -> ReproCaseModel {
        ReproCaseModel {
            command: self.command@,
            input: self.input.deep_view(),
            path: self.path.deep_view(),
        }
    }
}

impl Clone for ReproCase {
    fn clone(&self) -> (r: Self)
        ensures
            r.deep_view() == self.deep_view(),
    {
        ReproCase {
            command: self.command.clone(),
            input: clone_text(&self.input),
            path: clone_text(&self.path),
        }
    }
}

/// A copy of repro case.
pub fn clone_repro_case(item: &Option<ReproCase>) -> (r: Option<ReproCase>)
    ensures
        r.deep_view() == item.deep_view(),
{
    match item {
        Some(value) => Some(value.clone()),
        None => None,
    }
}

/// A finding.
#[derive(Debug, PartialEq, Eq)]
pub struct Failure {
    pub id: Option<String>,
    pub message: String,
    pub severity: FailureSeverity,
    pub target_id: Option<String>,
    pub artifact_id: Option<String>,
    pub command: String,
    pub stdout_excerpt: String,
    pub stderr_excerpt: String,
    pub repro: Option<ReproCase>,
}

/// The mathematical value of a `Failure`.
pub struct FailureModel {
    pub id: Option<Seq<char>>,
    pub message: Seq<char>,
    pub severity: FailureSeverity,
    pub target_id: Option<Seq<char>>,
    pub artifact_id: Option<Seq<char>>,
    pub command: Seq<char>,
    pub stdout_excerpt: Seq<char>,
    pub stderr_excerpt: Seq<char>,
    pub repro: Option<ReproCaseModel>,
}

impl DeepView for Failure {
    type V = FailureModel;

    open spec fn deep_view(&self) -> FailureModel {
        FailureModel {
            id: self.id.deep_view(),
            message: self.message@,
            severity: self.severity,
            target_id: self.target_id.deep_view(),
            artifact_id: self.artifact_id.deep_view(),
            command: self.command@,
            stdout_excerpt: self.stdout_excerpt@,
            stderr_excerpt: self.stderr_excerpt@,
            repro: self.repro.deep_view(),
        }
    }
}

impl Clone for Failure {
    fn clone(&self) -> (r: Self)
        ensures
            r.deep_view() == self.deep_view(),
    {
        Failure {
            id: clone_text(&self.id),
            message: self.message.clone(),
            severity: self.severity,
            target_id: clone_text(&self.target_id),
            artifact_id: clone_text(&self.artifact_id),
            command: self.command.clone(),
            stdout_excerpt: self.stdout_excerpt.clone(),
            stderr_excerpt: self.stderr_excerpt.clone(),
            repro: clone_repro_case(&self.repro),
        }
    }
}

/// A copy of failures.
pub fn clone_failures(items: &Vec<Failure>) -> (r: Vec<Failure>)
    ensures
        r.deep_view() == items.deep_view(),
        r@.len() == items@.len(),
{
    let mut out: Vec<Failure> = Vec::new();
    let mut i: usize = 0;
    while i < items.len()
        invariant
            i <= items@.len(),
            out@.len() == i,
            forall|j: int| 0 <= j < i ==> #[trigger] out@[j].deep_view() == items@[j].deep_view(),
        decreases items@.len() - i,
    {
        out.push(items[i].clone());
        i = i + 1;
    }
    assert(out.deep_view() == items.deep_view());
    out
}

/// Puts an item at the end of the list.
pub fn push_failure(items: &mut Vec<Failure>, item: Failure)
    ensures
        final(items).deep_view() == old(items).deep_view().push(item.deep_view()),
        final(items)@.len() == old(items)@.len() + 1,
{
    let ghost before = items.deep_view();
    items.push(item);
    assert(items.deep_view() == before.push(item.deep_view()));
}

/// Puts the items of a second list behind those of the first.
pub fn append_failures(items: &mut Vec<Failure>, more: &mut Vec<Failure>)
    ensures
        final(items).deep_view() == old(items).deep_view() + old(more).deep_view(),
{
    let ghost before = items.deep_view();
    let ghost tail = more.deep_view();
    items.append(more);
    assert(items.deep_view() == before + tail);
}

/// The coverage of one file.
#[derive(Debug, PartialEq, Eq)]
pub struct CoverageFile {
    pub path: String,
    pub line_coverage_percent: Option<u8>,
    pub uncovered_ranges: Vec<String>,
}

/// The mathematical value of a `CoverageFile`.
pub struct CoverageFileModel {
    pub path: Seq<char>,
    pub line_coverage_percent: Option<u8>,
    pub uncovered_ranges: Seq<Seq<char>>,
}

impl DeepView for CoverageFile {
    type V = CoverageFileModel;

    open spec fn deep_view(&self) -> CoverageFileModel {
        CoverageFileModel {
            path: self.path@,
            line_coverage_percent: self.line_coverage_percent,
            uncovered_ranges: self.uncovered_ranges.deep_view(),
        }
    }
}

impl Clone for CoverageFile {
    fn clone(&self) -> (r: Self)
        ensures
            r.deep_view() == self.deep_view(),
    {
        CoverageFile {
            path: self.path.clone(),
            line_coverage_percent: self.line_coverage_percent,
            uncovered_ranges: clone_texts(&self.uncovered_ranges),
        }
    }
}

/// A copy of coverage files.
pub fn clone_coverage_files(items: &Vec<CoverageFile>) -> (r: Vec<CoverageFile>)
    ensures
        r.deep_view() == items.deep_view(),
        r@.len() == items@.len(),
{
    let mut out: Vec<CoverageFile> = Vec::new();
    let mut i: usize = 0;
    while i < items.len()
        invariant
            i <= items@.len(),
            out@.len() == i,
            forall|j: int| 0 <= j < i ==> #[trigger] out@[j].deep_view() == items@[j].deep_view(),
        decreases items@.len() - i,
    {
        out.push(items[i].clone());
        i = i + 1;
    }
    assert(out.deep_view() == items.deep_view());
    out
}

/// Puts an item at the end of the list.
pub fn push_coverage_file(items: &mut Vec<CoverageFile>, item: CoverageFile)
    ensures
        final(items).deep_view() == old(items).deep_view().push(item.deep_view()),
        final(items)@.len() == old(items)@.len() + 1,
{
    let ghost before = items.deep_view();
    items.push(item);
    assert(items.deep_view() == before.push(item.deep_view()));
}

/// Puts the items of a second list behind those of the first.
pub fn append_coverage_files(items: &mut Vec<CoverageFile>, more: &mut Vec<CoverageFile>)
    ensures
        final(items).deep_view() == old(items).deep_view() + old(more).deep_view(),
{
    let ghost before = items.deep_view();
    let ghost tail = more.deep_view();
    items.append(more);
    assert(items.deep_view() == before + tail);
}

/// What a coverage tool said.
#[derive(Debug, PartialEq, Eq)]
pub struct CoverageReport {
    pub tool: String,
    pub summary: String,
    pub files: Vec<CoverageFile>,
}

/// The mathematical value of a `CoverageReport`.
pub struct CoverageReportModel {
    pub tool: Seq<char>,
    pub summary: Seq<char>,
    pub files: Seq<CoverageFileModel>,
}

impl DeepView for CoverageReport {
    type V = CoverageReportModel;

    open spec fn deep_view(&self) -> CoverageReportModel {
        CoverageReportModel {
            tool: self.tool@,
            summary: self.summary@,
            files: self.files.deep_view(),
        }
    }
}

impl Clone for CoverageReport {
    fn clone(&self) -> (r: Self)
        ensures
            r.deep_view() == self.deep_view(),
    {
        CoverageReport {
            tool: self.tool.clone(),
            summary: self.summary.clone(),
            files: clone_coverage_files(&self.files),
        }
    }
}

/// A copy of coverage reports.
pub fn clone_coverage_reports(items: &Vec<CoverageReport>) -> (r: Vec<CoverageReport>)
    ensures
        r.deep_view() == items.deep_view(),
        r@.len() == items@.len(),
{
    let mut out: Vec<CoverageReport> = Vec::new();
    let mut i: usize = 0;
    while i < items.len()
        invariant
            i <= items@.len(),
            out@.len() == i,
            forall|j: int| 0 <= j < i ==> #[trigger] out@[j].deep_view() == items@[j].deep_view(),
        decreases items@.len() - i,
    {
        out.push(items[i].clone());
        i = i + 1;
    }
    assert(out.deep_view() == items.deep_view());
    out
}

/// Puts an item at the end of the list.
pub fn push_coverage_report(items: &mut Vec<CoverageReport>, item: CoverageReport)
    ensures
        final(items).deep_view() == old(items).deep_view().push(item.deep_view()),
        final(items)@.len() == old(items)@.len() + 1,
{
    let ghost before = items.deep_view();
    items.push(item);
    assert(items.deep_view() == before.push(item.deep_view()));
}

/// Puts the items of a second list behind those of the first.
pub fn append_coverage_reports(items: &mut Vec<CoverageReport>, more: &mut Vec<CoverageReport>)
    ensures
        final(items).deep_view() == old(items).deep_view() + old(more).deep_view(),
{
    let ghost before = items.deep_view();
    let ghost tail = more.deep_view();
    items.append(more);
    assert(items.deep_view() == before + tail);
}

/// What a plugin's test run gave.
#[derive(Debug, PartialEq, Eq)]
pub struct TestRunResult {
    pub language: String,
    pub status: RunStatus,
    pub commands: Vec<CommandRecord>,
    pub failures: Vec<Failure>,
    pub duration_ms: u128,
    pub quality: VerificationQuality,
}

/// The mathematical value of a `TestRunResult`.
pub struct TestRunResultModel {
    pub language: Seq<char>,
    pub status: RunStatus,
    pub commands: Seq<CommandRecordModel>,
    pub failures: Seq<FailureModel>,
    pub duration_ms: u128,
    pub quality: VerificationQualityModel,
}

impl DeepView for TestRunResult {
    type V = TestRunResultModel;

    open spec fn deep_view(&self) -> TestRunResultModel {
        TestRunResultModel {
            language: self.language@,
            status: self.status,
            commands: self.commands.deep_view(),
            failures: self.failures.deep_view(),
            duration_ms: self.duration_ms,
            quality: self.quality.deep_view(),
        }
    }
}

impl Clone for TestRunResult {
    fn clone(&self) -> (r: Self)
        ensures
            r.deep_view() == self.deep_view(),
    {
        TestRunResult {
            language: self.language.clone(),
            status: self.status,
            commands: clone_command_records(&self.commands),
            failures: clone_failures(&self.failures),
            duration_ms: self.duration_ms,
            quality: self.quality.clone(),
        }
    }
}

/// A copy of test run results.
pub fn clone_test_run_results(items: &Vec<TestRunResult>) -> (r: Vec<TestRunResult>)
    ensures
        r.deep_view() == items.deep_view(),
        r@.len() == items@.len(),
{
    let mut out: Vec<TestRunResult> = Vec::new();
    let mut i: usize = 0;
    while i < items.len()
        invariant
            i <= items@.len(),
            out@.len() == i,
            forall|j: int| 0 <= j < i ==> #[trigger] out@[j].deep_view() == items@[j].deep_view(),
        decreases items@.len() - i,
    {
        out.push(items[i].clone());
        i = i + 1;
    }
    assert(out.deep_view() == items.deep_view());
    out
}

/// Puts an item at the end of the list.
pub fn push_test_run_result(items: &mut Vec<TestRunResult>, item: TestRunResult)
    ensures
        final(items).deep_view() == old(items).deep_view().push(item.deep_view()),
        final(items)@.len() == old(items)@.len() + 1,
{
    let ghost before = items.deep_view();
    items.push(item);
    assert(items.deep_view() == before.push(item.deep_view()));
}

/// The result of a verification.
#[derive(Debug, PartialEq, Eq)]
pub struct VerificationReport {
    pub project: Option<ProjectInfo>,
    pub targets: Vec<VerificationTarget>,
    pub plan: Option<VerificationPlan>,
    pub artifacts: Vec<GeneratedArtifact>,
    pub runs: Vec<TestRunResult>,
    pub coverage: Vec<CoverageReport>,
    pub findings: Vec<Failure>,
    pub quality: VerificationQuality,
    pub suggested_next_steps: Vec<String>,
}

/// The mathematical value of a `VerificationReport`.
pub struct VerificationReportModel {
    pub project: Option<ProjectInfoModel>,
    pub targets: Seq<VerificationTargetModel>,
    pub plan: Option<VerificationPlanModel>,
    pub artifacts: Seq<GeneratedArtifactModel>,
    pub runs: Seq<TestRunResultModel>,
    pub coverage: Seq<CoverageReportModel>,
    pub findings: Seq<FailureModel>,
    pub quality: VerificationQualityModel,
    pub suggested_next_steps: Seq<Seq<char>>,
}

impl DeepView for VerificationReport {
    type V = VerificationReportModel;

    open spec fn deep_view(&self) -> VerificationReportModel {
        VerificationReportModel {
            project: self.project.deep_view(),
            targets: self.targets.deep_view(),
            plan: self.plan.deep_view(),
            artifacts: self.artifacts.deep_view(),
            runs: self.runs.deep_view(),
            coverage: self.coverage.deep_view(),
            findings: self.findings.deep_view(),
            quality: self.quality.deep_view(),
            suggested_next_steps: self.suggested_next_steps.deep_view(),
        }
    }
}

impl Clone for VerificationReport {
    fn clone(&self) -> (r: Self)
        ensures
            r.deep_view() == self.deep_view(),
    {
        VerificationReport {
            project: clone_project_info(&self.project),
            targets: clone_verification_targets(&self.targets),
            plan: clone_verification_plan(&self.plan),
            artifacts: clone_generated_artifacts(&self.artifacts),
            runs: clone_test_run_results(&self.runs),
            coverage: clone_coverage_reports(&self.coverage),
            findings: clone_failures(&self.findings),
            quality: self.quality.clone(),
            suggested_next_steps: clone_texts(&self.suggested_next_steps),
        }
    }
}

/// The report of a verification that has done nothing.
pub open spec fn empty_report() -> VerificationReportModel {
    VerificationReportModel {
        project: None,
        targets: Seq::empty(),
        plan: None,
        artifacts: Seq::empty(),
        runs: Seq::empty(),
        coverage: Seq::empty(),
        findings: Seq::empty(),
        quality: crate::metrics::no_quality(),
        suggested_next_steps: Seq::empty(),
    }
}

impl VerificationReport {
    /// A report that holds nothing.
    pub fn empty() -> (r: Self)
        ensures
            r.deep_view() == empty_report(),
    {
        let r = VerificationReport {
            project: None,
            targets: Vec::new(),
            plan: None,
            artifacts: Vec::new(),
            runs: Vec::new(),
            coverage: Vec::new(),
            findings: Vec::new(),
            quality: VerificationQuality::default(),
            suggested_next_steps: Vec::new(),
        };
        assert(r.deep_view() == empty_report()) by {
            assert(r.targets.deep_view() =~= Seq::empty());
            assert(r.artifacts.deep_view() =~= Seq::empty());
            assert(r.runs.deep_view() =~= Seq::empty());
            assert(r.coverage.deep_view() =~= Seq::empty());
            assert(r.findings.deep_view() =~= Seq::empty());
            assert(r.suggested_next_steps.deep_view() =~= Seq::empty());
        }
        r
    }
}

} // verus!
