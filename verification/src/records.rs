//! The records of what follows from findings: assertion candidates, corpus
//! entries, evolution candidates, baselines and scores.
use vstd::prelude::*;

use crate::api::{VerificationReport, VerificationReportModel};
use crate::metrics::{VerificationQuality, VerificationQualityModel};
use crate::text::{clone_text, clone_texts};

verus! {

/// What a finding is about.
#[derive(Debug, Clone, Copy, PartialEq, Eq, Structural)]
pub enum AssertionDomain {
    AuthPermission,
    Money,
    Parsing,
    Serialization,
    ErrorHandling,
    Boundary,
    General,
}

impl AssertionDomain {
    /// The name of the variant.
    pub open spec fn name_text(self) -> Seq<char> {
        match self {
            AssertionDomain::AuthPermission => "AuthPermission"@,
            AssertionDomain::Money => "Money"@,
            AssertionDomain::Parsing => "Parsing"@,
            AssertionDomain::Serialization => "Serialization"@,
            AssertionDomain::ErrorHandling => "ErrorHandling"@,
            AssertionDomain::Boundary => "Boundary"@,
            AssertionDomain::General => "General"@,
        }
    }

    /// The name of the variant.
    pub fn name(self) -> (r: &'static str)
        ensures
            r@ == self.name_text(),
    {
        match self {
            AssertionDomain::AuthPermission => "AuthPermission",
            AssertionDomain::Money => "Money",
            AssertionDomain::Parsing => "Parsing",
            AssertionDomain::Serialization => "Serialization",
            AssertionDomain::ErrorHandling => "ErrorHandling",
            AssertionDomain::Boundary => "Boundary",
            AssertionDomain::General => "General",
        }
    }

    /// The name in reports and configuration files.
    pub open spec fn label_text(self) -> Seq<char> {
        match self {
            AssertionDomain::AuthPermission => "auth_permission"@,
            AssertionDomain::Money => "money"@,
            AssertionDomain::Parsing => "parsing"@,
            AssertionDomain::Serialization => "serialization"@,
            AssertionDomain::ErrorHandling => "error_handling"@,
            AssertionDomain::Boundary => "boundary"@,
            AssertionDomain::General => "general"@,
        }
    }

    /// The name in reports and configuration files.
    pub fn label(self) -> (r: &'static str)
        ensures
            r@ == self.label_text(),
    {
        match self {
            AssertionDomain::AuthPermission => "auth_permission",
            AssertionDomain::Money => "money",
            AssertionDomain::Parsing => "parsing",
            AssertionDomain::Serialization => "serialization",
            AssertionDomain::ErrorHandling => "error_handling",
            AssertionDomain::Boundary => "boundary",
            AssertionDomain::General => "general",
        }
    }
}

/// Where an assertion candidate comes from.
#[derive(Debug, Clone, Copy, PartialEq, Eq, Structural)]
pub enum AssertionSource {
    MutationSurvivor,
    FuzzRepro,
    GeneratedTestFailure,
    DifferentialReplay,
    CoverageGap,
}

impl AssertionSource {
    /// The name of the variant.
    pub open spec fn name_text(self) -> Seq<char> {
        match self {
            AssertionSource::MutationSurvivor => "MutationSurvivor"@,
            AssertionSource::FuzzRepro => "FuzzRepro"@,
            AssertionSource::GeneratedTestFailure => "GeneratedTestFailure"@,
            AssertionSource::DifferentialReplay => "DifferentialReplay"@,
            AssertionSource::CoverageGap => "CoverageGap"@,
        }
    }

    /// The name of the variant.
    pub fn name(self) -> (r: &'static str)
        ensures
            r@ == self.name_text(),
    {
        match self {
            AssertionSource::MutationSurvivor => "MutationSurvivor",
            AssertionSource::FuzzRepro => "FuzzRepro",
            AssertionSource::GeneratedTestFailure => "GeneratedTestFailure",
            AssertionSource::DifferentialReplay => "DifferentialReplay",
            AssertionSource::CoverageGap => "CoverageGap",
        }
    }

    /// The name in reports and configuration files.
    pub open spec fn label_text(self) -> Seq<char> {
        match self {
            AssertionSource::MutationSurvivor => "mutation_survivor"@,
            AssertionSource::FuzzRepro => "fuzz_repro"@,
            AssertionSource::GeneratedTestFailure => "generated_test_failure"@,
            AssertionSource::DifferentialReplay => "differential_replay"@,
            AssertionSource::CoverageGap => "coverage_gap"@,
        }
    }

    /// The name in reports and configuration files.
    pub fn label(self) -> (r: &'static str)
        ensures
            r@ == self.label_text(),
    {
        match self {
            AssertionSource::MutationSurvivor => "mutation_survivor",
            AssertionSource::FuzzRepro => "fuzz_repro",
            AssertionSource::GeneratedTestFailure => "generated_test_failure",
            AssertionSource::DifferentialReplay => "differential_replay",
            AssertionSource::CoverageGap => "coverage_gap",
        }
    }
}

/// An assertion to write for a finding.
#[derive(Debug, PartialEq, Eq)]
pub struct AssertionCandidate {
    pub language: String,
    pub target_id: String,
    pub finding_id: Option<String>,
    pub source: AssertionSource,
    pub domain: AssertionDomain,
    pub semantic_packs: Vec<String>,
    pub title: String,
    pub seed_inputs: Vec<String>,
    pub expected_behavior: String,
    pub replay_command: Option<String>,
}

/// The mathematical value of an `AssertionCandidate`.
pub struct AssertionCandidateModel {
    pub language: Seq<char>,
    pub target_id: Seq<char>,
    pub finding_id: Option<Seq<char>>,
    pub source: AssertionSource,
    pub domain: AssertionDomain,
    pub semantic_packs: Seq<Seq<char>>,
    pub title: Seq<char>,
    pub seed_inputs: Seq<Seq<char>>,
    pub expected_behavior: Seq<char>,
    pub replay_command: Option<Seq<char>>,
}

impl DeepView for AssertionCandidate {
    type V = AssertionCandidateModel;

    open spec fn deep_view(&self) -> AssertionCandidateModel {
        AssertionCandidateModel {
            language: self.language@,
            target_id: self.target_id@,
            finding_id: self.finding_id.deep_view(),
            source: self.source,
            domain: self.domain,
            semantic_packs: self.semantic_packs.deep_view(),
            title: self.title@,
            seed_inputs: self.seed_inputs.deep_view(),
            expected_behavior: self.expected_behavior@,
            replay_command: self.replay_command.deep_view(),
        }
    }
}

impl Clone for AssertionCandidate {
    fn clone(&self) -> (r: Self)
        ensures
            r.deep_view() == self.deep_view(),
    {
        AssertionCandidate {
            language: self.language.clone(),
            target_id: self.target_id.clone(),
            finding_id: clone_text(&self.finding_id),
            source: self.source,
            domain: self.domain,
            semantic_packs: clone_texts(&self.semantic_packs),
            title: self.title.clone(),
            seed_inputs: clone_texts(&self.seed_inputs),
            expected_behavior: self.expected_behavior.clone(),
            replay_command: clone_text(&self.replay_command),
        }
    }
}

/// An input to keep for replay.
#[derive(Debug, PartialEq, Eq)]
pub struct CorpusEntry {
    pub language: String,
    pub target_id: String,
    pub finding_id: Option<String>,
    pub source: AssertionSource,
    pub input: Option<String>,
    pub path: Option<String>,
    pub replay_command: String,
}

/// The mathematical value of a `CorpusEntry`.
pub struct CorpusEntryModel {
    pub language: Seq<char>,
    pub target_id: Seq<char>,
    pub finding_id: Option<Seq<char>>,
    pub source: AssertionSource,
    pub input: Option<Seq<char>>,
    pub path: Option<Seq<char>>,
    pub replay_command: Seq<char>,
}

impl DeepView for CorpusEntry {
    type V = CorpusEntryModel;

    open spec fn deep_view(&self) -> CorpusEntryModel {
        CorpusEntryModel {
            language: self.language@,
            target_id: self.target_id@,
            finding_id: self.finding_id.deep_view(),
            source: self.source,
            input: self.input.deep_view(),
            path: self.path.deep_view(),
            replay_command: self.replay_command@,
        }
    }
}

impl Clone for CorpusEntry {
    fn clone(&self) -> (r: Self)
        ensures
            r.deep_view() == self.deep_view(),
    {
        CorpusEntry {
            language: self.language.clone(),
            target_id: self.target_id.clone(),
            finding_id: clone_text(&self.finding_id),
            source: self.source,
            input: clone_text(&self.input),
            path: clone_text(&self.path),
            replay_command: self.replay_command.clone(),
        }
    }
}

/// What a verification may spend.
#[derive(Debug, PartialEq, Eq)]
pub struct CommandBudget {
    pub language: String,
    pub target_id: String,
    pub budget_seconds: u64,
    pub max_concurrency: usize,
    pub resource_limits: Vec<String>,
}

/// The mathematical value of a `CommandBudget`.
pub struct CommandBudgetModel {
    pub language: Seq<char>,
    pub target_id: Seq<char>,
    pub budget_seconds: u64,
    pub max_concurrency: usize,
    pub resource_limits: Seq<Seq<char>>,
}

impl DeepView for CommandBudget {
    type V = CommandBudgetModel;

    open spec fn deep_view(&self) -> CommandBudgetModel {
        CommandBudgetModel {
            language: self.language@,
            target_id: self.target_id@,
            budget_seconds: self.budget_seconds,
            max_concurrency: self.max_concurrency,
            resource_limits: self.resource_limits.deep_view(),
        }
    }
}

impl Clone for CommandBudget {
    fn clone(&self) -> (r: Self)
        ensures
            r.deep_view() == self.deep_view(),
    {
        CommandBudget {
            language: self.language.clone(),
            target_id: self.target_id.clone(),
            budget_seconds: self.budget_seconds,
            max_concurrency: self.max_concurrency,
            resource_limits: clone_texts(&self.resource_limits),
        }
    }
}

/// What an evolution candidate adds.
#[derive(Debug, Clone, Copy, PartialEq, Eq, Structural)]
pub enum EvolutionCandidateKind {
    Property,
    Mutation,
    Fuzz,
    Regression,
    Replay,
    Budget,
}

impl EvolutionCandidateKind {
    /// The name of the variant.
    pub open spec fn name_text(self) -> Seq<char> {
        match self {
            EvolutionCandidateKind::Property => "Property"@,
            EvolutionCandidateKind::Mutation => "Mutation"@,
            EvolutionCandidateKind::Fuzz => "Fuzz"@,
            EvolutionCandidateKind::Regression => "Regression"@,
            EvolutionCandidateKind::Replay => "Replay"@,
            EvolutionCandidateKind::Budget => "Budget"@,
        }
    }

    /// The name of the variant.
    pub fn name(self) -> (r: &'static str)
        ensures
            r@ == self.name_text(),
    {
        match self {
            EvolutionCandidateKind::Property => "Property",
            EvolutionCandidateKind::Mutation => "Mutation",
            EvolutionCandidateKind::Fuzz => "Fuzz",
            EvolutionCandidateKind::Regression => "Regression",
            EvolutionCandidateKind::Replay => "Replay",
            EvolutionCandidateKind::Budget => "Budget",
        }
    }

    /// The name in reports and configuration files.
    pub open spec fn label_text(self) -> Seq<char> {
        match self {
            EvolutionCandidateKind::Property => "property"@,
            EvolutionCandidateKind::Mutation => "mutation"@,
            EvolutionCandidateKind::Fuzz => "fuzz"@,
            EvolutionCandidateKind::Regression => "regression"@,
            EvolutionCandidateKind::Replay => "replay"@,
            EvolutionCandidateKind::Budget => "budget"@,
        }
    }

    /// The name in reports and configuration files.
    pub fn label(self) -> (r: &'static str)
        ensures
            r@ == self.label_text(),
    {
        match self {
            EvolutionCandidateKind::Property => "property",
            EvolutionCandidateKind::Mutation => "mutation",
            EvolutionCandidateKind::Fuzz => "fuzz",
            EvolutionCandidateKind::Regression => "regression",
            EvolutionCandidateKind::Replay => "replay",
            EvolutionCandidateKind::Budget => "budget",
        }
    }
}

/// How an evolution candidate helps.
#[derive(Debug, Clone, Copy, PartialEq, Eq, Structural)]
pub enum EvolutionStrategy {
    AddAssertion,
    PromoteCorpus,
    NarrowTarget,
    ReduceBudgetRisk,
    StrengthenProperty,
}

impl EvolutionStrategy {
    /// The name of the variant.
    pub open spec fn name_text(self) -> Seq<char> {
        match self {
            EvolutionStrategy::AddAssertion => "AddAssertion"@,
            EvolutionStrategy::PromoteCorpus => "PromoteCorpus"@,
            EvolutionStrategy::NarrowTarget => "NarrowTarget"@,
            EvolutionStrategy::ReduceBudgetRisk => "ReduceBudgetRisk"@,
            EvolutionStrategy::StrengthenProperty => "StrengthenProperty"@,
        }
    }

    /// The name of the variant.
    pub fn name(self) -> (r: &'static str)
        ensures
            r@ == self.name_text(),
    {
        match self {
            EvolutionStrategy::AddAssertion => "AddAssertion",
            EvolutionStrategy::PromoteCorpus => "PromoteCorpus",
            EvolutionStrategy::NarrowTarget => "NarrowTarget",
            EvolutionStrategy::ReduceBudgetRisk => "ReduceBudgetRisk",
            EvolutionStrategy::StrengthenProperty => "StrengthenProperty",
        }
    }

    /// The name in reports and configuration files.
    pub open spec fn label_text(self) -> Seq<char> {
        match self {
            EvolutionStrategy::AddAssertion => "add_assertion"@,
            EvolutionStrategy::PromoteCorpus => "promote_corpus"@,
            EvolutionStrategy::NarrowTarget => "narrow_target"@,
            EvolutionStrategy::ReduceBudgetRisk => "reduce_budget_risk"@,
            EvolutionStrategy::StrengthenProperty => "strengthen_property"@,
        }
    }

    /// The name in reports and configuration files.
    pub fn label(self) -> (r: &'static str)
        ensures
            r@ == self.label_text(),
    {
        match self {
            EvolutionStrategy::AddAssertion => "add_assertion",
            EvolutionStrategy::PromoteCorpus => "promote_corpus",
            EvolutionStrategy::NarrowTarget => "narrow_target",
            EvolutionStrategy::ReduceBudgetRisk => "reduce_budget_risk",
            EvolutionStrategy::StrengthenProperty => "strengthen_property",
        }
    }
}

/// What became of an evolution candidate.
#[derive(Debug, Clone, Copy, PartialEq, Eq, Structural)]
pub enum EvolutionCandidateStatus {
    Proposed,
    Selected,
    Applied,
    Kept,
    Rejected,
}

impl EvolutionCandidateStatus {
    /// The name of the variant.
    pub open spec fn name_text(self) -> Seq<char> {
        match self {
            EvolutionCandidateStatus::Proposed => "Proposed"@,
            EvolutionCandidateStatus::Selected => "Selected"@,
            EvolutionCandidateStatus::Applied => "Applied"@,
            EvolutionCandidateStatus::Kept => "Kept"@,
            EvolutionCandidateStatus::Rejected => "Rejected"@,
        }
    }

    /// The name of the variant.
    pub fn name(self) -> (r: &'static str)
        ensures
            r@ == self.name_text(),
    {
        match self {
            EvolutionCandidateStatus::Proposed => "Proposed",
            EvolutionCandidateStatus::Selected => "Selected",
            EvolutionCandidateStatus::Applied => "Applied",
            EvolutionCandidateStatus::Kept => "Kept",
            EvolutionCandidateStatus::Rejected => "Rejected",
        }
    }

    /// The name in reports and configuration files.
    pub open spec fn label_text(self) -> Seq<char> {
        match self {
            EvolutionCandidateStatus::Proposed => "proposed"@,
            EvolutionCandidateStatus::Selected => "selected"@,
            EvolutionCandidateStatus::Applied => "applied"@,
            EvolutionCandidateStatus::Kept => "kept"@,
            EvolutionCandidateStatus::Rejected => "rejected"@,
        }
    }

    /// The name in reports and configuration files.
    pub fn label(self) -> (r: &'static str)
        ensures
            r@ == self.label_text(),
    {
        match self {
            EvolutionCandidateStatus::Proposed => "proposed",
            EvolutionCandidateStatus::Selected => "selected",
            EvolutionCandidateStatus::Applied => "applied",
            EvolutionCandidateStatus::Kept => "kept",
            EvolutionCandidateStatus::Rejected => "rejected",
        }
    }
}

/// What applying candidates did to the report.
#[derive(Debug, Clone, Copy, PartialEq, Eq, Structural)]
pub enum EvolutionOutcome {
    Improved,
    Neutral,
    Regressed,
    FailedToEvaluate,
}

impl EvolutionOutcome {
    /// The name of the variant.
    pub open spec fn name_text(self) -> Seq<char> {
        match self {
            EvolutionOutcome::Improved => "Improved"@,
            EvolutionOutcome::Neutral => "Neutral"@,
            EvolutionOutcome::Regressed => "Regressed"@,
            EvolutionOutcome::FailedToEvaluate => "FailedToEvaluate"@,
        }
    }

    /// The name of the variant.
    pub fn name(self) -> (r: &'static str)
        ensures
            r@ == self.name_text(),
    {
        match self {
            EvolutionOutcome::Improved => "Improved",
            EvolutionOutcome::Neutral => "Neutral",
            EvolutionOutcome::Regressed => "Regressed",
            EvolutionOutcome::FailedToEvaluate => "FailedToEvaluate",
        }
    }

    /// The name in reports and configuration files.
    pub open spec fn label_text(self) -> Seq<char> {
        match self {
            EvolutionOutcome::Improved => "improved"@,
            EvolutionOutcome::Neutral => "neutral"@,
            EvolutionOutcome::Regressed => "regressed"@,
            EvolutionOutcome::FailedToEvaluate => "failed_to_evaluate"@,
        }
    }

    /// The name in reports and configuration files.
    pub fn label(self) -> (r: &'static str)
        ensures
            r@ == self.label_text(),
    {
        match self {
            EvolutionOutcome::Improved => "improved",
            EvolutionOutcome::Neutral => "neutral",
            EvolutionOutcome::Regressed => "regressed",
            EvolutionOutcome::FailedToEvaluate => "failed_to_evaluate",
        }
    }
}

/// How much a candidate is expected to help.
#[derive(Debug, PartialEq, Eq)]
pub struct EvolutionFitness {
    pub score_percent: u8,
    pub mutation_delta: i16,
    pub finding_delta: i16,
    pub replay_delta: i16,
    pub confidence_delta: i16,
    pub rationale: String,
}

/// The mathematical value of an `EvolutionFitness`.
pub struct EvolutionFitnessModel {
    pub score_percent: u8,
    pub mutation_delta: i16,
    pub finding_delta: i16,
    pub replay_delta: i16,
    pub confidence_delta: i16,
    pub rationale: Seq<char>,
}

impl DeepView for EvolutionFitness {
    type V = EvolutionFitnessModel;

    open spec fn deep_view(&self) -> EvolutionFitnessModel {
        EvolutionFitnessModel {
            score_percent: self.score_percent,
            mutation_delta: self.mutation_delta,
            finding_delta: self.finding_delta,
            replay_delta: self.replay_delta,
            confidence_delta: self.confidence_delta,
            rationale: self.rationale@,
        }
    }
}

impl Clone for EvolutionFitness {
    fn clone(&self) -> (r: Self)
        ensures
            r.deep_view() == self.deep_view(),
    {
        EvolutionFitness {
            score_percent: self.score_percent,
            mutation_delta: self.mutation_delta,
            finding_delta: self.finding_delta,
            replay_delta: self.replay_delta,
            confidence_delta: self.confidence_delta,
            rationale: self.rationale.clone(),
        }
    }
}

/// One step that may improve the tests.
#[derive(Debug, PartialEq, Eq)]
pub struct EvolutionCandidateRecord {
    pub id: String,
    pub language: String,
    pub target_id: String,
    pub kind: EvolutionCandidateKind,
    pub strategy: EvolutionStrategy,
    pub status: EvolutionCandidateStatus,
    pub source_artifact: Option<String>,
    pub source_finding_id: Option<String>,
    pub domain: Option<String>,
    pub semantic_packs: Vec<String>,
    pub fitness: EvolutionFitness,
    pub proposed_action: String,
    pub keep_if: String,
    pub proof_commands: Vec<String>,
    pub done_when: Vec<String>,
}

/// The mathematical value of an `EvolutionCandidateRecord`.
pub struct EvolutionCandidateRecordModel {
    pub id: Seq<char>,
    pub language: Seq<char>,
    pub target_id: Seq<char>,
    pub kind: EvolutionCandidateKind,
    pub strategy: EvolutionStrategy,
    pub status: EvolutionCandidateStatus,
    pub source_artifact: Option<Seq<char>>,
    pub source_finding_id: Option<Seq<char>>,
    pub domain: Option<Seq<char>>,
    pub semantic_packs: Seq<Seq<char>>,
    pub fitness: EvolutionFitnessModel,
    pub proposed_action: Seq<char>,
    pub keep_if: Seq<char>,
    pub proof_commands: Seq<Seq<char>>,
    pub done_when: Seq<Seq<char>>,
}

impl DeepView for EvolutionCandidateRecord {
    type V = EvolutionCandidateRecordModel;

    open spec fn deep_view(&self) -> EvolutionCandidateRecordModel {
        EvolutionCandidateRecordModel {
            id: self.id@,
            language: self.language@,
            target_id: self.target_id@,
            kind: self.kind,
            strategy: self.strategy,
            status: self.status,
            source_artifact: self.source_artifact.deep_view(),
            source_finding_id: self.source_finding_id.deep_view(),
            domain: self.domain.deep_view(),
            semantic_packs: self.semantic_packs.deep_view(),
            fitness: self.fitness.deep_view(),
            proposed_action: self.proposed_action@,
            keep_if: self.keep_if@,
            proof_commands: self.proof_commands.deep_view(),
            done_when: self.done_when.deep_view(),
        }
    }
}

impl Clone for EvolutionCandidateRecord {
    fn clone(&self) -> (r: Self)
        ensures
            r.deep_view() == self.deep_view(),
    {
        EvolutionCandidateRecord {
            id: self.id.clone(),
            language: self.language.clone(),
            target_id: self.target_id.clone(),
            kind: self.kind,
            strategy: self.strategy,
            status: self.status,
            source_artifact: clone_text(&self.source_artifact),
            source_finding_id: clone_text(&self.source_finding_id),
            domain: clone_text(&self.domain),
            semantic_packs: clone_texts(&self.semantic_packs),
            fitness: self.fitness.clone(),
            proposed_action: self.proposed_action.clone(),
            keep_if: self.keep_if.clone(),
            proof_commands: clone_texts(&self.proof_commands),
            done_when: clone_texts(&self.done_when),
        }
    }
}

/// A copy of evolution candidate records.
pub fn clone_evolution_candidate_records(
    items: &Vec<EvolutionCandidateRecord>,
) -> (r: Vec<EvolutionCandidateRecord>)
    ensures
        r.deep_view() == items.deep_view(),
        r@.len() == items@.len(),
{
    let mut out: Vec<EvolutionCandidateRecord> = Vec::new();
    let mut i: usize = 0;
    while i < items.len()
        invariant
            i <= items@.len(),
            out@.len() == i,
            forall|j: int| 0 <= j < i ==> #[trigger] out@[j].deep_view() == items@[j].deep_view(),
        decreases items@.len() - i,
    {
        out.push(items[i].clone());
        i = i + 1;
    }
    assert(out.deep_view() == items.deep_view());
    out
}

/// Puts an item at the end of the list.
pub fn push_evolution_candidate_record(
    items: &mut Vec<EvolutionCandidateRecord>,
    item: EvolutionCandidateRecord,
)
    ensures
        final(items).deep_view() == old(items).deep_view().push(item.deep_view()),
        final(items)@.len() == old(items)@.len() + 1,
{
    let ghost before = items.deep_view();
    items.push(item);
    assert(items.deep_view() == before.push(item.deep_view()));
}

/// Puts the items of a second list behind those of the first.
pub fn append_evolution_candidate_records(
    items: &mut Vec<EvolutionCandidateRecord>,
    more: &mut Vec<EvolutionCandidateRecord>,
)
    ensures
        final(items).deep_view() == old(items).deep_view() + old(more).deep_view(),
{
    let ghost before = items.deep_view();
    let ghost tail = more.deep_view();
    items.append(more);
    assert(items.deep_view() == before + tail);
}

/// The candidates of one generation.
#[derive(Debug, PartialEq, Eq)]
pub struct EvolutionSuite {
    pub version: u8,
    pub language: String,
    pub generation: u32,
    pub selection_budget: usize,
    pub fitness_signals: Vec<String>,
    pub candidates: Vec<EvolutionCandidateRecord>,
}

/// The mathematical value of an `EvolutionSuite`.
pub struct EvolutionSuiteModel {
    pub version: u8,
    pub language: Seq<char>,
    pub generation: u32,
    pub selection_budget: usize,
    pub fitness_signals: Seq<Seq<char>>,
    pub candidates: Seq<EvolutionCandidateRecordModel>,
}

impl DeepView for EvolutionSuite {
    type V = EvolutionSuiteModel;

    open spec fn deep_view(&self) -> EvolutionSuiteModel {
        EvolutionSuiteModel {
            version: self.version,
            language: self.language@,
            generation: self.generation,
            selection_budget: self.selection_budget,
            fitness_signals: self.fitness_signals.deep_view(),
            candidates: self.candidates.deep_view(),
        }
    }
}

impl Clone for EvolutionSuite {
    fn clone(&self) -> (r: Self)
        ensures
            r.deep_view() == self.deep_view(),
    {
        EvolutionSuite {
            version: self.version,
            language: self.language.clone(),
            generation: self.generation,
            selection_budget: self.selection_budget,
            fitness_signals: clone_texts(&self.fitness_signals),
            candidates: clone_evolution_candidate_records(&self.candidates),
        }
    }
}

/// The difference between two reports.
#[derive(Debug, Clone, Copy, PartialEq, Eq, Structural)]
pub struct EvolutionQualityDelta {
    pub mutation_score_delta: Option<i16>,
    pub killed_mutants_delta: i64,
    pub surviving_mutants_delta: i64,
    pub not_covered_mutants_delta: i64,
    pub findings_delta: i64,
    pub replay_cases_delta: i64,
    pub corpus_failed_delta: i64,
    pub budget_timed_out_delta: i64,
    pub budget_skipped_delta: i64,
    pub confidence_delta: i16,
}

impl Default for EvolutionQualityDelta {
    fn default() -> (r: Self)
        ensures
            r == (EvolutionQualityDelta {
                mutation_score_delta: None,
                killed_mutants_delta: 0,
                surviving_mutants_delta: 0,
                not_covered_mutants_delta: 0,
                findings_delta: 0,
                replay_cases_delta: 0,
                corpus_failed_delta: 0,
                budget_timed_out_delta: 0,
                budget_skipped_delta: 0,
                confidence_delta: 0,
            }),
    {
        EvolutionQualityDelta {
            mutation_score_delta: None,
            killed_mutants_delta: 0,
            surviving_mutants_delta: 0,
            not_covered_mutants_delta: 0,
            findings_delta: 0,
            replay_cases_delta: 0,
            corpus_failed_delta: 0,
            budget_timed_out_delta: 0,
            budget_skipped_delta: 0,
            confidence_delta: 0,
        }
    }
}

/// What a generation did with one candidate.
#[derive(Debug, PartialEq, Eq)]
pub struct EvolutionGenerationCandidate {
    pub id: String,
    pub target_id: String,
    pub previous_status: EvolutionCandidateStatus,
    pub status: EvolutionCandidateStatus,
    pub outcome: EvolutionOutcome,
    pub applied: bool,
    pub written_paths: Vec<String>,
    pub skipped_reason: Option<String>,
}

/// The mathematical value of an `EvolutionGenerationCandidate`.
pub struct EvolutionGenerationCandidateModel {
    pub id: Seq<char>,
    pub target_id: Seq<char>,
    pub previous_status: EvolutionCandidateStatus,
    pub status: EvolutionCandidateStatus,
    pub outcome: EvolutionOutcome,
    pub applied: bool,
    pub written_paths: Seq<Seq<char>>,
    pub skipped_reason: Option<Seq<char>>,
}

impl DeepView for EvolutionGenerationCandidate {
    type V = EvolutionGenerationCandidateModel;

    open spec fn deep_view(&self) -> EvolutionGenerationCandidateModel {
        EvolutionGenerationCandidateModel {
            id: self.id@,
            target_id: self.target_id@,
            previous_status: self.previous_status,
            status: self.status,
            outcome: self.outcome,
            applied: self.applied,
            written_paths: self.written_paths.deep_view(),
            skipped_reason: self.skipped_reason.deep_view(),
        }
    }
}

impl Clone for EvolutionGenerationCandidate {
    fn clone(&self) -> (r: Self)
        ensures
            r.deep_view() == self.deep_view(),
    {
        EvolutionGenerationCandidate {
            id: self.id.clone(),
            target_id: self.target_id.clone(),
            previous_status: self.previous_status,
            status: self.status,
            outcome: self.outcome,
            applied: self.applied,
            written_paths: clone_texts(&self.written_paths),
            skipped_reason: clone_text(&self.skipped_reason),
        }
    }
}

/// A copy of evolution generation candidates.
pub fn clone_evolution_generation_candidates(
    items: &Vec<EvolutionGenerationCandidate>,
) -> (r: Vec<EvolutionGenerationCandidate>)
    ensures
        r.deep_view() == items.deep_view(),
        r@.len() == items@.len(),
{
    let mut out: Vec<EvolutionGenerationCandidate> = Vec::new();
    let mut i: usize = 0;
    while i < items.len()
        invariant
            i <= items@.len(),
            out@.len() == i,
            forall|j: int| 0 <= j < i ==> #[trigger] out@[j].deep_view() == items@[j].deep_view(),
        decreases items@.len() - i,
    {
        out.push(items[i].clone());
        i = i + 1;
    }
    assert(out.deep_view() == items.deep_view());
    out
}

/// Puts an item at the end of the list.
pub fn push_evolution_generation_candidate(
    items: &mut Vec<EvolutionGenerationCandidate>,
    item: EvolutionGenerationCandidate,
)
    ensures
        final(items).deep_view() == old(items).deep_view().push(item.deep_view()),
        final(items)@.len() == old(items)@.len() + 1,
{
    let ghost before = items.deep_view();
    items.push(item);
    assert(items.deep_view() == before.push(item.deep_view()));
}

/// A generation and its outcome.
#[derive(Debug, PartialEq, Eq)]
pub struct EvolutionGeneration {
    pub version: u8,
    pub language: String,
    pub generation: u32,
    pub parent_suite: String,
    pub created_unix_seconds: u64,
    pub outcome: EvolutionOutcome,
    pub candidates: Vec<EvolutionGenerationCandidate>,
    pub delta: Option<EvolutionQualityDelta>,
    pub written_paths: Vec<String>,
}

/// The mathematical value of an `EvolutionGeneration`.
pub struct EvolutionGenerationModel {
    pub version: u8,
    pub language: Seq<char>,
    pub generation: u32,
    pub parent_suite: Seq<char>,
    pub created_unix_seconds: u64,
    pub outcome: EvolutionOutcome,
    pub candidates: Seq<EvolutionGenerationCandidateModel>,
    pub delta: Option<EvolutionQualityDelta>,
    pub written_paths: Seq<Seq<char>>,
}

impl DeepView for EvolutionGeneration {
    type V = EvolutionGenerationModel;

    open spec fn deep_view(&self) -> EvolutionGenerationModel {
        EvolutionGenerationModel {
            version: self.version,
            language: self.language@,
            generation: self.generation,
            parent_suite: self.parent_suite@,
            created_unix_seconds: self.created_unix_seconds,
            outcome: self.outcome,
            candidates: self.candidates.deep_view(),
            delta: self.delta,
            written_paths: self.written_paths.deep_view(),
        }
    }
}

impl Clone for EvolutionGeneration {
    fn clone(&self) -> (r: Self)
        ensures
            r.deep_view() == self.deep_view(),
    {
        EvolutionGeneration {
            version: self.version,
            language: self.language.clone(),
            generation: self.generation,
            parent_suite: self.parent_suite.clone(),
            created_unix_seconds: self.created_unix_seconds,
            outcome: self.outcome,
            candidates: clone_evolution_generation_candidates(&self.candidates),
            delta: self.delta,
            written_paths: clone_texts(&self.written_paths),
        }
    }
}

/// A confidence score in words.
#[derive(Debug, Clone, Copy, PartialEq, Eq, Structural)]
pub enum ConfidenceGrade {
    High,
    Medium,
    Low,
}

impl ConfidenceGrade {
    /// The name of the variant.
    pub open spec fn name_text(self) -> Seq<char> {
        match self {
            ConfidenceGrade::High => "High"@,
            ConfidenceGrade::Medium => "Medium"@,
            ConfidenceGrade::Low => "Low"@,
        }
    }

    /// The name of the variant.
    pub fn name(self) -> (r: &'static str)
        ensures
            r@ == self.name_text(),
    {
        match self {
            ConfidenceGrade::High => "High",
            ConfidenceGrade::Medium => "Medium",
            ConfidenceGrade::Low => "Low",
        }
    }

    /// The name in reports and configuration files.
    pub open spec fn label_text(self) -> Seq<char> {
        match self {
            ConfidenceGrade::High => "high"@,
            ConfidenceGrade::Medium => "medium"@,
            ConfidenceGrade::Low => "low"@,
        }
    }

    /// The name in reports and configuration files.
    pub fn label(self) -> (r: &'static str)
        ensures
            r@ == self.label_text(),
    {
        match self {
            ConfidenceGrade::High => "high",
            ConfidenceGrade::Medium => "medium",
            ConfidenceGrade::Low => "low",
        }
    }
}

/// The difference from a quality baseline.
#[derive(Debug, Clone, Copy, PartialEq, Eq, Structural)]
pub struct QualityDelta {
    pub mutation_score_delta: Option<i16>,
    pub confidence_delta: i16,
    pub surviving_mutants_delta: i64,
    pub corpus_entries_delta: i64,
}

impl Default for QualityDelta {
    fn default() -> (r: Self)
        ensures
            r == (QualityDelta {
                mutation_score_delta: None,
                confidence_delta: 0,
                surviving_mutants_delta: 0,
                corpus_entries_delta: 0,
            }),
    {
        QualityDelta {
            mutation_score_delta: None,
            confidence_delta: 0,
            surviving_mutants_delta: 0,
            corpus_entries_delta: 0,
        }
    }
}

/// A quality to compare with.
#[derive(Debug, PartialEq, Eq)]
pub struct QualityBaseline {
    pub version: u8,
    pub quality: VerificationQuality,
    pub confidence: u8,
}

/// The mathematical value of a `QualityBaseline`.
pub struct QualityBaselineModel {
    pub version: u8,
    pub quality: VerificationQualityModel,
    pub confidence: u8,
}

impl DeepView for QualityBaseline {
    type V = QualityBaselineModel;

    open spec fn deep_view(&self) -> QualityBaselineModel {
        QualityBaselineModel {
            version: self.version,
            quality: self.quality.deep_view(),
            confidence: self.confidence,
        }
    }
}

impl Clone for QualityBaseline {
    fn clone(&self) -> (r: Self)
        ensures
            r.deep_view() == self.deep_view(),
    {
        QualityBaseline {
            version: self.version,
            quality: self.quality.clone(),
            confidence: self.confidence,
        }
    }
}

/// How far a report can be trusted.
#[derive(Debug, PartialEq, Eq)]
pub struct ConfidenceScore {
    pub score: u8,
    pub grade: ConfidenceGrade,
    pub summary: String,
    pub positive_signals: Vec<String>,
    pub risks: Vec<String>,
    pub recommended_next_steps: Vec<String>,
    pub baseline_delta: Option<QualityDelta>,
}

/// The mathematical value of a `ConfidenceScore`.
pub struct ConfidenceScoreModel {
    pub score: u8,
    pub grade: ConfidenceGrade,
    pub summary: Seq<char>,
    pub positive_signals: Seq<Seq<char>>,
    pub risks: Seq<Seq<char>>,
    pub recommended_next_steps: Seq<Seq<char>>,
    pub baseline_delta: Option<QualityDelta>,
}

impl DeepView for ConfidenceScore {
    type V = ConfidenceScoreModel;

    open spec fn deep_view(&self) -> ConfidenceScoreModel {
        ConfidenceScoreModel {
            score: self.score,
            grade: self.grade,
            summary: self.summary@,
            positive_signals: self.positive_signals.deep_view(),
            risks: self.risks.deep_view(),
            recommended_next_steps: self.recommended_next_steps.deep_view(),
            baseline_delta: self.baseline_delta,
        }
    }
}

impl Clone for ConfidenceScore {
    fn clone(&self) -> (r: Self)
        ensures
            r.deep_view() == self.deep_view(),
    {
        ConfidenceScore {
            score: self.score,
            grade: self.grade,
            summary: self.summary.clone(),
            positive_signals: clone_texts(&self.positive_signals),
            risks: clone_texts(&self.risks),
            recommended_next_steps: clone_texts(&self.recommended_next_steps),
            baseline_delta: self.baseline_delta,
        }
    }
}

/// What an evolution did with one candidate.
#[derive(Debug, PartialEq, Eq)]
pub struct EvolveCandidateSummary {
    pub index: usize,
    pub id: String,
    pub target_id: String,
    pub kind: EvolutionCandidateKind,
    pub strategy: EvolutionStrategy,
    pub status: EvolutionCandidateStatus,
    pub fitness_percent: u8,
    pub proposed_action: String,
    pub keep_if: String,
    pub proof_commands: Vec<String>,
    pub done_when: Vec<String>,
    pub applied: bool,
    pub skipped_reason: Option<String>,
    pub written_paths: Vec<String>,
}

/// The mathematical value of an `EvolveCandidateSummary`.
pub struct EvolveCandidateSummaryModel {
    pub index: usize,
    pub id: Seq<char>,
    pub target_id: Seq<char>,
    pub kind: EvolutionCandidateKind,
    pub strategy: EvolutionStrategy,
    pub status: EvolutionCandidateStatus,
    pub fitness_percent: u8,
    pub proposed_action: Seq<char>,
    pub keep_if: Seq<char>,
    pub proof_commands: Seq<Seq<char>>,
    pub done_when: Seq<Seq<char>>,
    pub applied: bool,
    pub skipped_reason: Option<Seq<char>>,
    pub written_paths: Seq<Seq<char>>,
}

impl DeepView for EvolveCandidateSummary {
    type V = EvolveCandidateSummaryModel;

    open spec fn deep_view(&self) -> EvolveCandidateSummaryModel {
        EvolveCandidateSummaryModel {
            index: self.index,
            id: self.id@,
            target_id: self.target_id@,
            kind: self.kind,
            strategy: self.strategy,
            status: self.status,
            fitness_percent: self.fitness_percent,
            proposed_action: self.proposed_action@,
            keep_if: self.keep_if@,
            proof_commands: self.proof_commands.deep_view(),
            done_when: self.done_when.deep_view(),
            applied: self.applied,
            skipped_reason: self.skipped_reason.deep_view(),
            written_paths: self.written_paths.deep_view(),
        }
    }
}

impl Clone for EvolveCandidateSummary {
    fn clone(&self) -> (r: Self)
        ensures
            r.deep_view() == self.deep_view(),
    {
        EvolveCandidateSummary {
            index: self.index,
            id: self.id.clone(),
            target_id: self.target_id.clone(),
            kind: self.kind,
            strategy: self.strategy,
            status: self.status,
            fitness_percent: self.fitness_percent,
            proposed_action: self.proposed_action.clone(),
            keep_if: self.keep_if.clone(),
            proof_commands: clone_texts(&self.proof_commands),
            done_when: clone_texts(&self.done_when),
            applied: self.applied,
            skipped_reason: clone_text(&self.skipped_reason),
            written_paths: clone_texts(&self.written_paths),
        }
    }
}

/// A copy of evolve candidate summaries.
pub fn clone_evolve_candidate_summaries(
    items: &Vec<EvolveCandidateSummary>,
) -> (r: Vec<EvolveCandidateSummary>)
    ensures
        r.deep_view() == items.deep_view(),
        r@.len() == items@.len(),
{
    let mut out: Vec<EvolveCandidateSummary> = Vec::new();
    let mut i: usize = 0;
    while i < items.len()
        invariant
            i <= items@.len(),
            out@.len() == i,
            forall|j: int| 0 <= j < i ==> #[trigger] out@[j].deep_view() == items@[j].deep_view(),
        decreases items@.len() - i,
    {
        out.push(items[i].clone());
        i = i + 1;
    }
    assert(out.deep_view() == items.deep_view());
    out
}

/// Puts an item at the end of the list.
pub fn push_evolve_candidate_summary(
    items: &mut Vec<EvolveCandidateSummary>,
    item: EvolveCandidateSummary,
)
    ensures
        final(items).deep_view() == old(items).deep_view().push(item.deep_view()),
        final(items)@.len() == old(items)@.len() + 1,
{
    let ghost before = items.deep_view();
    items.push(item);
    assert(items.deep_view() == before.push(item.deep_view()));
}

/// What the verification after an evolution said.
#[derive(Debug, PartialEq, Eq)]
pub struct EvolveEvaluationSummary {
    pub outcome: EvolutionOutcome,
    pub delta: EvolutionQualityDelta,
    pub before_confidence: u8,
    pub after_confidence: u8,
    pub report_path: String,
    pub error: Option<String>,
}

/// The mathematical value of an `EvolveEvaluationSummary`.
pub struct EvolveEvaluationSummaryModel {
    pub outcome: EvolutionOutcome,
    pub delta: EvolutionQualityDelta,
    pub before_confidence: u8,
    pub after_confidence: u8,
    pub report_path: Seq<char>,
    pub error: Option<Seq<char>>,
}

impl DeepView for EvolveEvaluationSummary {
    type V = EvolveEvaluationSummaryModel;

    open spec fn deep_view(&self) -> EvolveEvaluationSummaryModel {
        EvolveEvaluationSummaryModel {
            outcome: self.outcome,
            delta: self.delta,
            before_confidence: self.before_confidence,
            after_confidence: self.after_confidence,
            report_path: self.report_path@,
            error: self.error.deep_view(),
        }
    }
}

impl Clone for EvolveEvaluationSummary {
    fn clone(&self) -> (r: Self)
        ensures
            r.deep_view() == self.deep_view(),
    {
        EvolveEvaluationSummary {
            outcome: self.outcome,
            delta: self.delta,
            before_confidence: self.before_confidence,
            after_confidence: self.after_confidence,
            report_path: self.report_path.clone(),
            error: clone_text(&self.error),
        }
    }
}

/// A copy of evolve evaluation summary.
pub fn clone_evolve_evaluation_summary(
    item: &Option<EvolveEvaluationSummary>,
) -> (r: Option<EvolveEvaluationSummary>)
    ensures
        r.deep_view() == item.deep_view(),
{
    match item {
        Some(value) => Some(value.clone()),
        None => None,
    }
}

/// What an evolution did.
#[derive(Debug, PartialEq, Eq)]
pub struct EvolveSummary {
    pub dry_run: bool,
    pub language: String,
    pub suite_path: String,
    pub candidates: Vec<EvolveCandidateSummary>,
    pub written_paths: Vec<String>,
    pub evaluation: Option<EvolveEvaluationSummary>,
}

/// The mathematical value of an `EvolveSummary`.
pub struct EvolveSummaryModel {
    pub dry_run: bool,
    pub language: Seq<char>,
    pub suite_path: Seq<char>,
    pub candidates: Seq<EvolveCandidateSummaryModel>,
    pub written_paths: Seq<Seq<char>>,
    pub evaluation: Option<EvolveEvaluationSummaryModel>,
}

impl DeepView for EvolveSummary {
    type V = EvolveSummaryModel;

    open spec fn deep_view(&self) -> EvolveSummaryModel {
        EvolveSummaryModel {
            dry_run: self.dry_run,
            language: self.language@,
            suite_path: self.suite_path@,
            candidates: self.candidates.deep_view(),
            written_paths: self.written_paths.deep_view(),
            evaluation: self.evaluation.deep_view(),
        }
    }
}

impl Clone for EvolveSummary {
    fn clone(&self) -> (r: Self)
        ensures
            r.deep_view() == self.deep_view(),
    {
        EvolveSummary {
            dry_run: self.dry_run,
            language: self.language.clone(),
            suite_path: self.suite_path.clone(),
            candidates: clone_evolve_candidate_summaries(&self.candidates),
            written_paths: clone_texts(&self.written_paths),
            evaluation: clone_evolve_evaluation_summary(&self.evaluation),
        }
    }
}

/// What a cleanup removes.
#[derive(Debug, PartialEq, Eq)]
pub struct CleanupSummary {
    pub dry_run: bool,
    pub paths: Vec<String>,
}

/// The mathematical value of a `CleanupSummary`.
pub struct CleanupSummaryModel {
    pub dry_run: bool,
    pub paths: Seq<Seq<char>>,
}

impl DeepView for CleanupSummary {
    type V = CleanupSummaryModel;

    open spec fn deep_view(&self) -> CleanupSummaryModel {
        CleanupSummaryModel {
            dry_run: self.dry_run,
            paths: self.paths.deep_view(),
        }
    }
}

impl Clone for CleanupSummary {
    fn clone(&self) -> (r: Self)
        ensures
            r.deep_view() == self.deep_view(),
    {
        CleanupSummary {
            dry_run: self.dry_run,
            paths: clone_texts(&self.paths),
        }
    }
}

/// What a promotion writes.
#[derive(Debug, PartialEq, Eq)]
pub struct PromotionSummary {
    pub dry_run: bool,
    pub paths: Vec<String>,
}

/// The mathematical value of a `PromotionSummary`.
pub struct PromotionSummaryModel {
    pub dry_run: bool,
    pub paths: Seq<Seq<char>>,
}

impl DeepView for PromotionSummary {
    type V = PromotionSummaryModel;

    open spec fn deep_view(&self) -> PromotionSummaryModel {
        PromotionSummaryModel {
            dry_run: self.dry_run,
            paths: self.paths.deep_view(),
        }
    }
}

impl Clone for PromotionSummary {
    fn clone(&self) -> (r: Self)
        ensures
            r.deep_view() == self.deep_view(),
    {
        PromotionSummary {
            dry_run: self.dry_run,
            paths: clone_texts(&self.paths),
        }
    }
}

/// What an acceptance of findings wrote.
#[derive(Debug, PartialEq, Eq)]
pub struct BaselineSummary {
    pub path: String,
    pub accepted_ids: Vec<String>,
}

/// The mathematical value of a `BaselineSummary`.
pub struct BaselineSummaryModel {
    pub path: Seq<char>,
    pub accepted_ids: Seq<Seq<char>>,
}

impl DeepView for BaselineSummary {
    type V = BaselineSummaryModel;

    open spec fn deep_view(&self) -> BaselineSummaryModel {
        BaselineSummaryModel {
            path: self.path@,
            accepted_ids: self.accepted_ids.deep_view(),
        }
    }
}

impl Clone for BaselineSummary {
    fn clone(&self) -> (r: Self)
        ensures
            r.deep_view() == self.deep_view(),
    {
        BaselineSummary {
            path: self.path.clone(),
            accepted_ids: clone_texts(&self.accepted_ids),
        }
    }
}

/// What an acceptance of quality wrote.
#[derive(Debug, PartialEq, Eq)]
pub struct QualityBaselineSummary {
    pub path: String,
    pub confidence: u8,
    pub mutation_score: Option<u8>,
}

/// The mathematical value of a `QualityBaselineSummary`.
pub struct QualityBaselineSummaryModel {
    pub path: Seq<char>,
    pub confidence: u8,
    pub mutation_score: Option<u8>,
}

impl DeepView for QualityBaselineSummary {
    type V = QualityBaselineSummaryModel;

    open spec fn deep_view(&self) -> QualityBaselineSummaryModel {
        QualityBaselineSummaryModel {
            path: self.path@,
            confidence: self.confidence,
            mutation_score: self.mutation_score,
        }
    }
}

impl Clone for QualityBaselineSummary {
    fn clone(&self) -> (r: Self)
        ensures
            r.deep_view() == self.deep_view(),
    {
        QualityBaselineSummary {
            path: self.path.clone(),
            confidence: self.confidence,
            mutation_score: self.mutation_score,
        }
    }
}

/// What a replay of the corpus gave.
#[derive(Debug, PartialEq, Eq)]
pub struct CorpusReplaySummary {
    pub dry_run: bool,
    pub report: VerificationReport,
}

/// The mathematical value of a `CorpusReplaySummary`.
pub struct CorpusReplaySummaryModel {
    pub dry_run: bool,
    pub report: VerificationReportModel,
}

impl DeepView for CorpusReplaySummary {
    type V = CorpusReplaySummaryModel;

    open spec fn deep_view(&self) -> CorpusReplaySummaryModel {
        CorpusReplaySummaryModel {
            dry_run: self.dry_run,
            report: self.report.deep_view(),
        }
    }
}

impl Clone for CorpusReplaySummary {
    fn clone(&self) -> (r: Self)
        ensures
            r.deep_view() == self.deep_view(),
    {
        CorpusReplaySummary {
            dry_run: self.dry_run,
            report: self.report.clone(),
        }
    }
}

} // verus!
