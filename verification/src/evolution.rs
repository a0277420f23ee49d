//! Evolution: the candidates that may improve the tests, ranked, and the suite
//! that holds them.
use vstd::prelude::*;
use vstd::seq_lib::group_to_multiset_ensures;

use crate::api::{
    append_generated_artifacts, clone_generated_artifacts, ArtifactKind, Failure, FailureModel,
    GeneratedArtifact, GeneratedArtifactModel, TestRunResult, TestRunResultModel,
    VerificationReport, VerificationReportModel,
};
use crate::documents::{
    assertion_candidate_in, evolution_metrics_document, evolution_metrics_json,
    evolution_suite_document, evolution_suite_in, evolution_suite_json, read_assertion_candidate,
    read_evolution_suite,
};
use crate::evolve::suite_in_text;
use crate::fields::unsigned_at;
use crate::findings::{
    assertion_domain, assertion_domain_name, blank_separators, domain_named, domain_of,
    domain_packs, known_target, plan_artifact, planned, semantic_packs_for_domain,
    semantic_packs_for_domain_name, target_or_unknown, texts_of2, texts_of3,
};
use crate::generated::{
    finding_is_generated_test_failure, generated_failures, generated_failures_of,
    generated_test_failure, slug, stable_slug,
};
use crate::json::{
    at, distinct_names, exact_json, formatted, formatted_json, is_plain,
    lemma_plain_values_are_exact, member, parse, parse_exact, parsed_json, pretty, pretty_json,
    text, Json, JsonModel, Members,
};
use crate::metrics::{
    append_mutation_records, clone_mutation_records, EvolutionMetrics, MutationRecord,
    MutationRecordModel, MutationStatus,
};
use crate::number::{decimal, print_u8, print_usize};
use crate::order::{lemma_text_lt_asymmetric, lemma_text_order_is_weak, text_less, text_lt};
use crate::ranking::{law_ranked_is_a_sorted_permutation, rank, ranked, Ranked};
use crate::readback::{
    lemma_evolution_metrics_is_plain, lemma_evolution_suite_is_plain, lemma_evolution_suite_reads,
    lemma_member_is_found, lemma_name_is_missing,
};
use crate::records::{
    append_evolution_candidate_records, push_evolution_candidate_record, AssertionCandidate,
    AssertionDomain, CorpusEntry, EvolutionCandidateKind, EvolutionCandidateRecord,
    EvolutionCandidateRecordModel, EvolutionCandidateStatus, EvolutionFitness,
    EvolutionFitnessModel, EvolutionStrategy, EvolutionSuite, EvolutionSuiteModel,
};
use crate::regressions::{all_survivor_lines, push_survivor_lines, surviving_mutants, survivors};
use crate::seqs::{cat2, cat3, cat5, lemma_take_all, lemma_take_next};
use crate::text::{clone_text, contains, has_text, owned, same};

verus! {

// ---------------------------------------------------------------------------
// What a candidate promises
// ---------------------------------------------------------------------------
/// The command that verifies a target again.
pub open spec fn verify_target_command_text(language: Seq<char>) -> Seq<char> {
    let t = "veritas verify --lang "@ + language + " --target <target>"@;
    t
}

fn verify_target_command(language: &str) -> (r: String)
    ensures
        r@ == verify_target_command_text(language@),
{
    let mut out = owned("veritas verify --lang ");
    out.append(language);
    out.append(" --target <target>");
    out
}

/// The commands that prove a candidate.
pub open spec fn proof_commands_for(language: Seq<char>) -> Seq<Seq<char>> {
    seq![verify_target_command_text(language), "veritas score"@, "veritas evolve --dry-run"@]
}

/// The commands that prove a candidate.
pub fn evolution_proof_commands(language: &str) -> (r: Vec<String>)
    ensures
        r.deep_view() == proof_commands_for(language@),
{
    texts_of3(
        verify_target_command(language).as_str(),
        "veritas score",
        "veritas evolve --dry-run",
    )
}

/// The fitness that the next evaluation keeps.
pub open spec fn kept_fitness_text(score: u8) -> Seq<char> {
    let t = "the next evaluation keeps fitness at or above "@
        + decimal(score as int)
        + "%"@;
    t
}

fn kept_fitness(score: u8) -> (r: String)
    ensures
        r@ == kept_fitness_text(score),
{
    let mut out = owned("the next evaluation keeps fitness at or above ");
    out.append(print_u8(score).as_str());
    out.append("%");
    out
}

/// When a candidate of no known kind is done.
pub open spec fn done_for_score(score: u8) -> Seq<Seq<char>> {
    seq!["the candidate produces a measurable verification signal"@, kept_fitness_text(score)]
}

/// When a candidate of no known kind is done.
pub fn evolution_done_when_for_score(score: u8) -> (r: Vec<String>)
    ensures
        r.deep_view() == done_for_score(score),
{
    texts_of2(
        "the candidate produces a measurable verification signal",
        kept_fitness(score).as_str(),
    )
}

/// When a candidate for a mutant is done.
pub open spec fn done_for_mutant(status: MutationStatus, score: u8) -> Seq<Seq<char>> {
    match status {
        MutationStatus::Lived => seq![
            "the mutant moves from lived to killed in the next campaign"@,
            "the new assertion fails against the mutant and passes against production code"@,
            "the confidence score improves or explains why it is unchanged"@,
        ],
        MutationStatus::NotCovered => seq![
            "mutant coverage improves for the target"@,
            "the new test asserts behavior rather than implementation details"@,
        ],
        MutationStatus::TimedOut => seq![
            "the command finishes inside the configured budget"@,
            "the mutant receives a concrete killed, lived, or not viable status"@,
        ],
        _ => done_for_score(score),
    }
}

/// When a candidate for a mutant is done.
pub fn evolution_done_when(status: MutationStatus, score: u8) -> (r: Vec<String>)
    ensures
        r.deep_view() == done_for_mutant(status, score),
{
    match status {
        MutationStatus::Lived => texts_of3(
            "the mutant moves from lived to killed in the next campaign",
            "the new assertion fails against the mutant and passes against production code",
            "the confidence score improves or explains why it is unchanged",
        ),
        MutationStatus::NotCovered => texts_of2(
            "mutant coverage improves for the target",
            "the new test asserts behavior rather than implementation details",
        ),
        MutationStatus::TimedOut => texts_of2(
            "the command finishes inside the configured budget",
            "the mutant receives a concrete killed, lived, or not viable status",
        ),
        _ => evolution_done_when_for_score(score),
    }
}

/// When a candidate of a kind is done.
pub open spec fn done_for_kind(kind: EvolutionCandidateKind, score: u8) -> Seq<Seq<char>> {
    match kind {
        EvolutionCandidateKind::Property => seq![
            "property strength increases without adding flaky assumptions"@,
            "generated property tests pass under the normal verification command"@,
        ],
        EvolutionCandidateKind::Fuzz => seq![
            "the fuzz seed is persisted or promoted into the corpus"@,
            "the seed replays deterministically before acceptance"@,
        ],
        EvolutionCandidateKind::Replay => seq![
            "the replay case captures the expected old/new behavior"@,
            "any accepted behavior drift is documented or baselined"@,
        ],
        EvolutionCandidateKind::Regression => seq![
            "the regression test fails before the fix and passes after it"@,
            "the original finding disappears from the next Veritas report"@,
        ],
        EvolutionCandidateKind::Budget => seq![
            "the skipped or timed-out command now produces useful signal"@,
            "runtime remains inside the configured profile budget"@,
        ],
        EvolutionCandidateKind::Mutation => done_for_mutant(MutationStatus::Lived, score),
    }
}

/// When a candidate of a kind is done.
pub fn evolution_done_when_for_kind(kind: EvolutionCandidateKind, score: u8) -> (r: Vec<String>)
    ensures
        r.deep_view() == done_for_kind(kind, score),
{
    match kind {
        EvolutionCandidateKind::Property => texts_of2(
            "property strength increases without adding flaky assumptions",
            "generated property tests pass under the normal verification command",
        ),
        EvolutionCandidateKind::Fuzz => texts_of2(
            "the fuzz seed is persisted or promoted into the corpus",
            "the seed replays deterministically before acceptance",
        ),
        EvolutionCandidateKind::Replay => texts_of2(
            "the replay case captures the expected old/new behavior",
            "any accepted behavior drift is documented or baselined",
        ),
        EvolutionCandidateKind::Regression => texts_of2(
            "the regression test fails before the fix and passes after it",
            "the original finding disappears from the next Veritas report",
        ),
        EvolutionCandidateKind::Budget => texts_of2(
            "the skipped or timed-out command now produces useful signal",
            "runtime remains inside the configured profile budget",
        ),
        EvolutionCandidateKind::Mutation => evolution_done_when(MutationStatus::Lived, score),
    }
}

/// A candidate is selected where its score is at least 70.
pub open spec fn status_for(score: u8) -> EvolutionCandidateStatus {
    if score >= 70 {
        EvolutionCandidateStatus::Selected
    } else {
        EvolutionCandidateStatus::Proposed
    }
}

/// A candidate is selected where its score is at least 70.
pub fn candidate_selection_status(score: u8) -> (r: EvolutionCandidateStatus)
    ensures
        r == status_for(score),
{
    if score >= 70 {
        EvolutionCandidateStatus::Selected
    } else {
        EvolutionCandidateStatus::Proposed
    }
}

/// The confidence that a score is expected to add: what it has above 50.
pub open spec fn expected_confidence(score: u8) -> i16 {
    if score > 50 {
        (score - 50) as i16
    } else {
        0
    }
}

fn confidence_gain(score: u8) -> (r: i16)
    ensures
        r == expected_confidence(score),
{
    if score > 50 {
        (score - 50) as i16
    } else {
        0
    }
}

/// How much a candidate is expected to help.
pub fn evolution_fitness(
    score_percent: u8,
    mutation_delta: i16,
    finding_delta: i16,
    replay_delta: i16,
    confidence_delta: i16,
    rationale: String,
) -> (r: EvolutionFitness)
    ensures
        r.deep_view() == (EvolutionFitnessModel {
            score_percent,
            mutation_delta,
            finding_delta,
            replay_delta,
            confidence_delta,
            rationale: rationale@,
        }),
{
    EvolutionFitness {
        score_percent,
        mutation_delta,
        finding_delta,
        replay_delta,
        confidence_delta,
        rationale,
    }
}

// ---------------------------------------------------------------------------
// Candidates from artifacts
// ---------------------------------------------------------------------------
/// What artifacts of a kind are worth as evolution candidates.
pub struct Role {
    pub kind: EvolutionCandidateKind,
    pub strategy: EvolutionStrategy,
    pub score: u8,
    pub action: &'static str,
    pub keep_if: &'static str,
}

/// The mathematical value of a `Role`.
pub struct RoleModel {
    pub kind: EvolutionCandidateKind,
    pub strategy: EvolutionStrategy,
    pub score: u8,
    pub action: Seq<char>,
    pub keep_if: Seq<char>,
}

impl DeepView for Role {
    type V = RoleModel;

    open spec fn deep_view(&self) -> RoleModel {
        RoleModel {
            kind: self.kind,
            strategy: self.strategy,
            score: self.score,
            action: self.action@,
            keep_if: self.keep_if@,
        }
    }
}

/// The role that artifacts of a kind have in an evolution.
pub open spec fn role_of(kind: ArtifactKind) -> Option<RoleModel> {
    match kind {
        ArtifactKind::AssertionCandidate => Some(
            RoleModel {
                kind: EvolutionCandidateKind::Property,
                strategy: EvolutionStrategy::AddAssertion,
                score: 78,
                action: "Turn this assertion candidate into an owned test with explicit expected behavior."@,
                keep_if: "the assertion kills a survivor, locks a repro, or increases confidence score"@,
            },
        ),
        ArtifactKind::CorpusEntry => Some(
            RoleModel {
                kind: EvolutionCandidateKind::Fuzz,
                strategy: EvolutionStrategy::PromoteCorpus,
                score: 72,
                action: "Persist this repro input as a corpus seed and add a named regression assertion."@,
                keep_if: "the corpus replay passes and the corresponding finding does not recur"@,
            },
        ),
        ArtifactKind::ReplayResult | ArtifactKind::DifferentialReplay => Some(
            RoleModel {
                kind: EvolutionCandidateKind::Replay,
                strategy: EvolutionStrategy::NarrowTarget,
                score: 61,
                action: "Use replay cases to generate focused before/after behavior assertions."@,
                keep_if: "the replay set catches incompatible behavior changes without broadening runtime"@,
            },
        ),
        ArtifactKind::BudgetPlan => Some(
            RoleModel {
                kind: EvolutionCandidateKind::Budget,
                strategy: EvolutionStrategy::ReduceBudgetRisk,
                score: 45,
                action: "Reduce verification cost by narrowing generated work to high-risk targets first."@,
                keep_if: "budget skips or timeouts drop without losing mutation or replay signal"@,
            },
        ),
        _ => None,
    }
}

fn artifact_role(kind: ArtifactKind) -> (r: Option<Role>)
    ensures
        r.deep_view() == role_of(kind),
{
    match kind {
        ArtifactKind::AssertionCandidate => Some(
            Role {
                kind: EvolutionCandidateKind::Property,
                strategy: EvolutionStrategy::AddAssertion,
                score: 78,
                action: "Turn this assertion candidate into an owned test with explicit expected behavior.",
                keep_if: "the assertion kills a survivor, locks a repro, or increases confidence score",
            },
        ),
        ArtifactKind::CorpusEntry => Some(
            Role {
                kind: EvolutionCandidateKind::Fuzz,
                strategy: EvolutionStrategy::PromoteCorpus,
                score: 72,
                action: "Persist this repro input as a corpus seed and add a named regression assertion.",
                keep_if: "the corpus replay passes and the corresponding finding does not recur",
            },
        ),
        ArtifactKind::ReplayResult | ArtifactKind::DifferentialReplay => Some(
            Role {
                kind: EvolutionCandidateKind::Replay,
                strategy: EvolutionStrategy::NarrowTarget,
                score: 61,
                action: "Use replay cases to generate focused before/after behavior assertions.",
                keep_if: "the replay set catches incompatible behavior changes without broadening runtime",
            },
        ),
        ArtifactKind::BudgetPlan => Some(
            Role {
                kind: EvolutionCandidateKind::Budget,
                strategy: EvolutionStrategy::ReduceBudgetRisk,
                score: 45,
                action: "Reduce verification cost by narrowing generated work to high-risk targets first.",
                keep_if: "budget skips or timeouts drop without losing mutation or replay signal",
            },
        ),
        _ => None,
    }
}

/// The domain that an assertion candidate states.
pub open spec fn stated_domain(artifact: GeneratedArtifactModel) -> Option<Seq<char>> {
    if artifact.kind != ArtifactKind::AssertionCandidate {
        None
    } else {
        match exact_json(artifact.contents) {
            Some(value) => match assertion_candidate_in(value) {
                Some(candidate) => Some(candidate.domain.label_text()),
                None => None,
            },
            None => None,
        }
    }
}

/// The domain that an assertion candidate states.
pub fn assertion_candidate_domain(artifact: &GeneratedArtifact) -> (r: Option<String>)
    ensures
        r.deep_view() == stated_domain(artifact.deep_view()),
{
    if artifact.kind != ArtifactKind::AssertionCandidate {
        return None;
    }
    match parse_exact(artifact.contents.as_str()) {
        Some(value) => match read_assertion_candidate(&value) {
            Some(candidate) => Some(assertion_domain_name(candidate.domain)),
            None => None,
        },
        None => None,
    }
}

/// The kinds of test that fit a domain, where one is stated.
pub open spec fn packs_for(domain: Option<Seq<char>>) -> Seq<Seq<char>> {
    match domain {
        Some(name) => domain_packs(domain_named(blank_separators(name))),
        None => domain_packs(AssertionDomain::General),
    }
}

/// Why an artifact makes a candidate.
pub open spec fn artifact_rationale_text(kind: ArtifactKind) -> Seq<char> {
    let t = "Candidate derived from "@ + kind.name_text() + " artifact"@;
    t
}

fn artifact_rationale(kind: ArtifactKind) -> (r: String)
    ensures
        r@ == artifact_rationale_text(kind),
{
    let mut out = owned("Candidate derived from ");
    out.append(kind.name());
    out.append(" artifact");
    out
}

/// One where a condition holds, and zero where not.
pub open spec fn one_if(condition: bool) -> i16 {
    if condition {
        1
    } else {
        0
    }
}

/// The candidate that an artifact makes in its role.
pub open spec fn candidate_from_artifact(
    language: Seq<char>,
    artifact: GeneratedArtifactModel,
    domain: Option<Seq<char>>,
    role: RoleModel,
) -> EvolutionCandidateRecordModel {
    EvolutionCandidateRecordModel {
        id: "evolve-"@ + slug(artifact.id),
        language,
        target_id: artifact.target_id,
        kind: role.kind,
        strategy: role.strategy,
        status: status_for(role.score),
        source_artifact: Some(artifact.path),
        source_finding_id: None,
        domain,
        semantic_packs: packs_for(domain),
        fitness: EvolutionFitnessModel {
            score_percent: role.score,
            mutation_delta: one_if(role.kind == EvolutionCandidateKind::Property),
            finding_delta: if role.kind == EvolutionCandidateKind::Regression {
                (-1) as i16
            } else {
                0
            },
            replay_delta: one_if(
                role.kind == EvolutionCandidateKind::Replay || role.kind
                    == EvolutionCandidateKind::Fuzz,
            ),
            confidence_delta: expected_confidence(role.score),
            rationale: artifact_rationale_text(artifact.kind),
        },
        proposed_action: role.action,
        keep_if: role.keep_if,
        proof_commands: proof_commands_for(language),
        done_when: done_for_kind(role.kind, role.score),
    }
}

/// The candidate that an artifact makes in its role, with the domain that it
/// states.
pub fn evolution_candidate_from_artifact(
    language: &str,
    artifact: &GeneratedArtifact,
    domain: Option<String>,
    role: Role,
) -> (r: EvolutionCandidateRecord)
    ensures
        r.deep_view() == candidate_from_artifact(
            language@,
            artifact.deep_view(),
            domain.deep_view(),
            role.deep_view(),
        ),
{
    let semantic_packs = match &domain {
        Some(name) => semantic_packs_for_domain_name(name.as_str()),
        None => semantic_packs_for_domain(AssertionDomain::General),
    };
    let kind = role.kind;
    let mutation_delta: i16 = if kind == EvolutionCandidateKind::Property {
        1
    } else {
        0
    };
    let finding_delta: i16 = if kind == EvolutionCandidateKind::Regression {
        -1
    } else {
        0
    };
    let replay_delta: i16 = if kind == EvolutionCandidateKind::Replay || kind
        == EvolutionCandidateKind::Fuzz {
        1
    } else {
        0
    };
    EvolutionCandidateRecord {
        id: cat2("evolve-", stable_slug(artifact.id.as_str()).as_str()),
        language: owned(language),
        target_id: artifact.target_id.clone(),
        kind,
        strategy: role.strategy,
        status: candidate_selection_status(role.score),
        source_artifact: Some(artifact.path.clone()),
        source_finding_id: None,
        domain,
        semantic_packs,
        fitness: evolution_fitness(
            role.score,
            mutation_delta,
            finding_delta,
            replay_delta,
            confidence_gain(role.score),
            artifact_rationale(artifact.kind),
        ),
        proposed_action: owned(role.action),
        keep_if: owned(role.keep_if),
        proof_commands: evolution_proof_commands(language),
        done_when: evolution_done_when_for_kind(kind, role.score),
    }
}

/// The candidate that an artifact makes, where its kind has a role.
pub open spec fn artifact_candidate(
    language: Seq<char>,
    artifact: GeneratedArtifactModel,
) -> Option<EvolutionCandidateRecordModel> {
    match role_of(artifact.kind) {
        Some(role) => Some(
            candidate_from_artifact(language, artifact, stated_domain(artifact), role),
        ),
        None => None,
    }
}

fn candidate_of_artifact(language: &str, artifact: &GeneratedArtifact) -> (r: Option<
    EvolutionCandidateRecord,
>)
    ensures
        r.deep_view() == artifact_candidate(language@, artifact.deep_view()),
{
    match artifact_role(artifact.kind) {
        Some(role) => Some(
            evolution_candidate_from_artifact(
                language,
                artifact,
                assertion_candidate_domain(artifact),
                role,
            ),
        ),
        None => None,
    }
}

/// The candidates that artifacts make.
pub open spec fn artifact_candidates(
    language: Seq<char>,
    items: Seq<GeneratedArtifactModel>,
) -> Seq<EvolutionCandidateRecordModel>
    decreases items.len(),
{
    if items.len() == 0 {
        Seq::empty()
    } else {
        let before = artifact_candidates(language, items.drop_last());
        match artifact_candidate(language, items.last()) {
            Some(one) => before.push(one),
            None => before,
        }
    }
}

fn candidates_of_artifacts(
    language: &str,
    items: &Vec<GeneratedArtifact>,
) -> (r: Vec<EvolutionCandidateRecord>)
    ensures
        r.deep_view() == artifact_candidates(language@, items.deep_view()),
{
    let mut out: Vec<EvolutionCandidateRecord> = Vec::new();
    let ghost all = items.deep_view();
    let mut i: usize = 0;
    assert(out.deep_view() == artifact_candidates(language@, all.take(0)));
    while i < items.len()
        invariant
            i <= items@.len(),
            all == items.deep_view(),
            out.deep_view() == artifact_candidates(language@, all.take(i as int)),
        decreases items@.len() - i,
    {
        proof {
            lemma_take_next(all, i as int);
        }
        match candidate_of_artifact(language, &items[i]) {
            Some(one) => {
                push_evolution_candidate_record(&mut out, one);
            },
            None => {},
        }
        i = i + 1;
    }
    proof {
        lemma_take_all(all);
    }
    out
}

// ---------------------------------------------------------------------------
// Candidates from mutants
// ---------------------------------------------------------------------------
/// What a mutant is worth as an evolution candidate.
pub open spec fn mutant_role_of(status: MutationStatus) -> Option<RoleModel> {
    match status {
        MutationStatus::Lived => Some(
            RoleModel {
                kind: EvolutionCandidateKind::Mutation,
                strategy: EvolutionStrategy::AddAssertion,
                score: 95,
                action: "Add the smallest assertion that fails under this surviving mutant."@,
                keep_if: "the mutant moves from lived to killed in the next campaign"@,
            },
        ),
        MutationStatus::NotCovered => Some(
            RoleModel {
                kind: EvolutionCandidateKind::Mutation,
                strategy: EvolutionStrategy::StrengthenProperty,
                score: 84,
                action: "Generate a property or regression test that executes the uncovered target."@,
                keep_if: "mutant coverage improves without adding brittle implementation checks"@,
            },
        ),
        MutationStatus::TimedOut => Some(
            RoleModel {
                kind: EvolutionCandidateKind::Mutation,
                strategy: EvolutionStrategy::NarrowTarget,
                score: 58,
                action: "Split or narrow the test command for this mutant to isolate useful signal."@,
                keep_if: "the mutant is classified as killed, lived, or not viable without timing out"@,
            },
        ),
        MutationStatus::NotViable => Some(
            RoleModel {
                kind: EvolutionCandidateKind::Mutation,
                strategy: EvolutionStrategy::NarrowTarget,
                score: 35,
                action: "Deprioritize this non-viable mutation unless nearby operators remain weak."@,
                keep_if: "operator quality improves or future campaigns stop producing equivalent mutants"@,
            },
        ),
        _ => None,
    }
}

fn mutant_role(status: MutationStatus) -> (r: Option<Role>)
    ensures
        r.deep_view() == mutant_role_of(status),
{
    match status {
        MutationStatus::Lived => Some(
            Role {
                kind: EvolutionCandidateKind::Mutation,
                strategy: EvolutionStrategy::AddAssertion,
                score: 95,
                action: "Add the smallest assertion that fails under this surviving mutant.",
                keep_if: "the mutant moves from lived to killed in the next campaign",
            },
        ),
        MutationStatus::NotCovered => Some(
            Role {
                kind: EvolutionCandidateKind::Mutation,
                strategy: EvolutionStrategy::StrengthenProperty,
                score: 84,
                action: "Generate a property or regression test that executes the uncovered target.",
                keep_if: "mutant coverage improves without adding brittle implementation checks",
            },
        ),
        MutationStatus::TimedOut => Some(
            Role {
                kind: EvolutionCandidateKind::Mutation,
                strategy: EvolutionStrategy::NarrowTarget,
                score: 58,
                action: "Split or narrow the test command for this mutant to isolate useful signal.",
                keep_if: "the mutant is classified as killed, lived, or not viable without timing out",
            },
        ),
        MutationStatus::NotViable => Some(
            Role {
                kind: EvolutionCandidateKind::Mutation,
                strategy: EvolutionStrategy::NarrowTarget,
                score: 35,
                action: "Deprioritize this non-viable mutation unless nearby operators remain weak.",
                keep_if: "operator quality improves or future campaigns stop producing equivalent mutants",
            },
        ),
        _ => None,
    }
}

/// Why a mutant makes a candidate.
pub open spec fn mutant_rationale_text(record: MutationRecordModel) -> Seq<char> {
    let t = record.status.name_text()
        + " mutant in `"@
        + record.symbol
        + "` via `"@
        + record.operator
        + "` operator"@;
    t
}

fn mutant_rationale(record: &MutationRecord) -> (r: String)
    ensures
        r@ == mutant_rationale_text(record.deep_view()),
{
    let mut out = owned(record.status.name());
    out.append(" mutant in `");
    out.append(record.symbol.as_str());
    out.append("` via `");
    out.append(record.operator.as_str());
    out.append("` operator");
    out
}

/// The candidate that a mutant of a language makes, where its status has a role.
pub open spec fn mutant_candidate(language: Seq<char>, record: MutationRecordModel) -> Option<
    EvolutionCandidateRecordModel,
> {
    match mutant_role_of(record.status) {
        Some(role) => if record.language == language {
            Some(
                EvolutionCandidateRecordModel {
                    id: "evolve-mutant-"@ + slug(record.id),
                    language,
                    target_id: language + ":"@ + record.path + ":"@ + record.symbol,
                    kind: role.kind,
                    strategy: role.strategy,
                    status: status_for(role.score),
                    source_artifact: None,
                    source_finding_id: None,
                    domain: Some(record.domain),
                    semantic_packs: packs_for(Some(record.domain)),
                    fitness: EvolutionFitnessModel {
                        score_percent: role.score,
                        mutation_delta: one_if(record.status == MutationStatus::Lived),
                        finding_delta: 0,
                        replay_delta: 0,
                        confidence_delta: expected_confidence(role.score),
                        rationale: mutant_rationale_text(record),
                    },
                    proposed_action: role.action,
                    keep_if: role.keep_if,
                    proof_commands: proof_commands_for(language),
                    done_when: done_for_mutant(record.status, role.score),
                },
            )
        } else {
            None
        },
        None => None,
    }
}

fn candidate_of_mutant(language: &str, record: &MutationRecord) -> (r: Option<
    EvolutionCandidateRecord,
>)
    ensures
        r.deep_view() == mutant_candidate(language@, record.deep_view()),
{
    if !same(record.language.as_str(), language) {
        return None;
    }
    match mutant_role(record.status) {
        Some(role) => {
            let mutation_delta: i16 = if record.status == MutationStatus::Lived {
                1
            } else {
                0
            };
            Some(
                EvolutionCandidateRecord {
                    id: cat2("evolve-mutant-", stable_slug(record.id.as_str()).as_str()),
                    language: owned(language),
                    target_id: cat5(
                        language,
                        ":",
                        record.path.as_str(),
                        ":",
                        record.symbol.as_str(),
                    ),
                    kind: role.kind,
                    strategy: role.strategy,
                    status: candidate_selection_status(role.score),
                    source_artifact: None,
                    source_finding_id: None,
                    domain: Some(record.domain.clone()),
                    semantic_packs: semantic_packs_for_domain_name(record.domain.as_str()),
                    fitness: evolution_fitness(
                        role.score,
                        mutation_delta,
                        0,
                        0,
                        confidence_gain(role.score),
                        mutant_rationale(record),
                    ),
                    proposed_action: owned(role.action),
                    keep_if: owned(role.keep_if),
                    proof_commands: evolution_proof_commands(language),
                    done_when: evolution_done_when(record.status, role.score),
                },
            )
        },
        None => None,
    }
}

/// The candidates that mutants make.
pub open spec fn mutant_candidates(
    language: Seq<char>,
    items: Seq<MutationRecordModel>,
) -> Seq<EvolutionCandidateRecordModel>
    decreases items.len(),
{
    if items.len() == 0 {
        Seq::empty()
    } else {
        let before = mutant_candidates(language, items.drop_last());
        match mutant_candidate(language, items.last()) {
            Some(one) => before.push(one),
            None => before,
        }
    }
}

fn candidates_of_mutants(
    language: &str,
    items: &Vec<MutationRecord>,
) -> (r: Vec<EvolutionCandidateRecord>)
    ensures
        r.deep_view() == mutant_candidates(language@, items.deep_view()),
{
    let mut out: Vec<EvolutionCandidateRecord> = Vec::new();
    let ghost all = items.deep_view();
    let mut i: usize = 0;
    assert(out.deep_view() == mutant_candidates(language@, all.take(0)));
    while i < items.len()
        invariant
            i <= items@.len(),
            all == items.deep_view(),
            out.deep_view() == mutant_candidates(language@, all.take(i as int)),
        decreases items@.len() - i,
    {
        proof {
            lemma_take_next(all, i as int);
        }
        match candidate_of_mutant(language, &items[i]) {
            Some(one) => {
                push_evolution_candidate_record(&mut out, one);
            },
            None => {},
        }
        i = i + 1;
    }
    proof {
        lemma_take_all(all);
    }
    out
}

/// The mutants of all runs, run by run.
pub open spec fn records_of_runs(runs: Seq<TestRunResultModel>) -> Seq<MutationRecordModel>
    decreases runs.len(),
{
    if runs.len() == 0 {
        Seq::empty()
    } else {
        records_of_runs(runs.drop_last()) + runs.last().quality.mutation.records
    }
}

/// The mutants of all runs, run by run.
pub fn run_records(runs: &Vec<TestRunResult>) -> (r: Vec<MutationRecord>)
    ensures
        r.deep_view() == records_of_runs(runs.deep_view()),
{
    let mut out: Vec<MutationRecord> = Vec::new();
    let ghost all = runs.deep_view();
    let mut i: usize = 0;
    assert(out.deep_view() == records_of_runs(all.take(0)));
    while i < runs.len()
        invariant
            i <= runs@.len(),
            all == runs.deep_view(),
            out.deep_view() == records_of_runs(all.take(i as int)),
        decreases runs@.len() - i,
    {
        proof {
            lemma_take_next(all, i as int);
        }
        let mut more = clone_mutation_records(&runs[i].quality.mutation.records);
        append_mutation_records(&mut out, &mut more);
        i = i + 1;
    }
    proof {
        lemma_take_all(all);
    }
    out
}

/// The mutants of a report: those of its runs, and its own.
pub open spec fn all_records(report: VerificationReportModel) -> Seq<MutationRecordModel> {
    records_of_runs(report.runs) + report.quality.mutation.records
}

fn report_records(report: &VerificationReport) -> (r: Vec<MutationRecord>)
    ensures
        r.deep_view() == all_records(report.deep_view()),
{
    let mut out = run_records(&report.runs);
    let mut more = clone_mutation_records(&report.quality.mutation.records);
    append_mutation_records(&mut out, &mut more);
    out
}

// ---------------------------------------------------------------------------
// Candidates from findings
// ---------------------------------------------------------------------------
/// Whether a finding makes a candidate.
pub open spec fn finding_evolves(
    artifacts: Seq<GeneratedArtifactModel>,
    finding: FailureModel,
) -> bool {
    generated_test_failure(artifacts, finding) || has_text(
        finding.message,
        "minimal failing input"@,
    ) || has_text(finding.message, "fuzz"@)
}

/// The candidate that a finding makes.
pub open spec fn finding_candidate(
    language: Seq<char>,
    artifacts: Seq<GeneratedArtifactModel>,
    finding: FailureModel,
    index: int,
) -> Option<EvolutionCandidateRecordModel> {
    if !finding_evolves(artifacts, finding) {
        None
    } else {
        Some(
            EvolutionCandidateRecordModel {
                id: language + "-evolve-finding-"@ + decimal(index),
                language,
                target_id: target_or_unknown(finding.target_id, language),
                kind: EvolutionCandidateKind::Regression,
                strategy: EvolutionStrategy::PromoteCorpus,
                status: EvolutionCandidateStatus::Selected,
                source_artifact: None,
                source_finding_id: finding.id,
                domain: Some(domain_of(finding).label_text()),
                semantic_packs: domain_packs(domain_of(finding)),
                fitness: EvolutionFitnessModel {
                    score_percent: 88,
                    mutation_delta: 0,
                    finding_delta: (-1) as i16,
                    replay_delta: 1,
                    confidence_delta: 30,
                    rationale:
                        "Generated harness or fuzz failure can become a stable regression"@,
                },
                proposed_action:
                    "Minimize the failing input and promote it into an owned regression test."@,
                keep_if:
                    "the promoted regression passes normally and prevents the finding from recurring"@,
                proof_commands: proof_commands_for(language),
                done_when: seq![
                    "the promoted regression is owned by the target package"@,
                    "the original generated-test or fuzz finding no longer appears"@,
                    "the confidence score is stable or improved"@,
                ],
            },
        )
    }
}

fn candidate_of_finding(
    language: &str,
    artifacts: &Vec<GeneratedArtifact>,
    finding: &Failure,
    index: usize,
) -> (r: Option<EvolutionCandidateRecord>)
    ensures
        r.deep_view() == finding_candidate(
            language@,
            artifacts.deep_view(),
            finding.deep_view(),
            index as int,
        ),
{
    if !finding_is_generated_test_failure(artifacts, finding) && !contains(
        finding.message.as_str(),
        "minimal failing input",
    ) && !contains(finding.message.as_str(), "fuzz") {
        return None;
    }
    let domain = assertion_domain(finding);
    Some(
        EvolutionCandidateRecord {
            id: cat3(language, "-evolve-finding-", print_usize(index).as_str()),
            language: owned(language),
            target_id: known_target(&finding.target_id, language),
            kind: EvolutionCandidateKind::Regression,
            strategy: EvolutionStrategy::PromoteCorpus,
            status: EvolutionCandidateStatus::Selected,
            source_artifact: None,
            source_finding_id: clone_text(&finding.id),
            domain: Some(assertion_domain_name(domain)),
            semantic_packs: semantic_packs_for_domain(domain),
            fitness: evolution_fitness(
                88,
                0,
                -1,
                1,
                30,
                owned("Generated harness or fuzz failure can become a stable regression"),
            ),
            proposed_action: owned(
                "Minimize the failing input and promote it into an owned regression test.",
            ),
            keep_if: owned(
                "the promoted regression passes normally and prevents the finding from recurring",
            ),
            proof_commands: evolution_proof_commands(language),
            done_when: texts_of3(
                "the promoted regression is owned by the target package",
                "the original generated-test or fuzz finding no longer appears",
                "the confidence score is stable or improved",
            ),
        },
    )
}

/// The candidates that findings make.
pub open spec fn finding_candidates(
    language: Seq<char>,
    artifacts: Seq<GeneratedArtifactModel>,
    items: Seq<FailureModel>,
) -> Seq<EvolutionCandidateRecordModel>
    decreases items.len(),
{
    if items.len() == 0 {
        Seq::empty()
    } else {
        let before = finding_candidates(language, artifacts, items.drop_last());
        match finding_candidate(language, artifacts, items.last(), (items.len() - 1) as int) {
            Some(one) => before.push(one),
            None => before,
        }
    }
}

fn candidates_of_findings(
    language: &str,
    artifacts: &Vec<GeneratedArtifact>,
    items: &Vec<Failure>,
) -> (r: Vec<EvolutionCandidateRecord>)
    ensures
        r.deep_view() == finding_candidates(language@, artifacts.deep_view(), items.deep_view()),
{
    let mut out: Vec<EvolutionCandidateRecord> = Vec::new();
    let ghost all = items.deep_view();
    let mut i: usize = 0;
    assert(out.deep_view() == finding_candidates(language@, artifacts.deep_view(), all.take(0)));
    while i < items.len()
        invariant
            i <= items@.len(),
            all == items.deep_view(),
            out.deep_view() == finding_candidates(language@, artifacts.deep_view(), all.take(i as int)),
        decreases items@.len() - i,
    {
        proof {
            lemma_take_next(all, i as int);
        }
        match candidate_of_finding(language, artifacts, &items[i], i) {
            Some(one) => {
                push_evolution_candidate_record(&mut out, one);
            },
            None => {},
        }
        i = i + 1;
    }
    proof {
        lemma_take_all(all);
    }
    out
}

// ---------------------------------------------------------------------------
// All candidates
// ---------------------------------------------------------------------------
impl Ranked for EvolutionCandidateRecord {
    /// Candidates rank by score, highest first, and then by id.
    open spec fn ranks_before(
        a: EvolutionCandidateRecordModel,
        b: EvolutionCandidateRecordModel,
    ) -> bool {
        a.fitness.score_percent > b.fitness.score_percent || (a.fitness.score_percent
            == b.fitness.score_percent && text_lt(a.id, b.id))
    }

    proof fn before_is_transitive(
        a: EvolutionCandidateRecordModel,
        b: EvolutionCandidateRecordModel,
        c: EvolutionCandidateRecordModel,
    ) {
        if Self::ranks_before(c, a) {
            lemma_text_order_is_weak(a.id, b.id, c.id);
        }
    }

    proof fn before_is_asymmetric(
        a: EvolutionCandidateRecordModel,
        b: EvolutionCandidateRecordModel,
    ) {
        lemma_text_lt_asymmetric(a.id, b.id);
    }

    fn goes_before(&self, other: &Self) -> bool {
        self.fitness.score_percent > other.fitness.score_percent || (self.fitness.score_percent
            == other.fitness.score_percent && text_less(self.id.as_str(), other.id.as_str()))
    }
}

/// The candidates of a report and of artifacts that it is about to get, best
/// first.
pub open spec fn candidates_for(
    language: Seq<char>,
    report: VerificationReportModel,
    pending: Seq<GeneratedArtifactModel>,
) -> Seq<EvolutionCandidateRecordModel> {
    ranked::<EvolutionCandidateRecord>(
        artifact_candidates(language, report.artifacts + pending) + mutant_candidates(
            language,
            all_records(report),
        ) + finding_candidates(language, report.artifacts, report.findings),
    )
}

/// The candidates of a report and of artifacts that it is about to get, best
/// first.
pub fn evolution_candidates(
    language: &str,
    report: &VerificationReport,
    pending: &Vec<GeneratedArtifact>,
) -> (r: Vec<EvolutionCandidateRecord>)
    ensures
        r.deep_view() == candidates_for(language@, report.deep_view(), pending.deep_view()),
{
    let mut artifacts = clone_generated_artifacts(&report.artifacts);
    let mut more = clone_generated_artifacts(pending);
    append_generated_artifacts(&mut artifacts, &mut more);
    let mut out = candidates_of_artifacts(language, &artifacts);
    let mut mutants = candidates_of_mutants(language, &report_records(report));
    append_evolution_candidate_records(&mut out, &mut mutants);
    let mut findings = candidates_of_findings(language, &report.artifacts, &report.findings);
    append_evolution_candidate_records(&mut out, &mut findings);
    rank(out)
}

/// Of two candidates the one with the higher score comes first.
pub proof fn law_best_candidates_come_first(
    language: Seq<char>,
    report: VerificationReportModel,
    pending: Seq<GeneratedArtifactModel>,
    i: int,
    j: int,
)
    requires
        0 <= i < j < candidates_for(language, report, pending).len(),
    ensures
        candidates_for(language, report, pending)[i].fitness.score_percent >= candidates_for(
            language,
            report,
            pending,
        )[j].fitness.score_percent,
{
    let all = artifact_candidates(language, report.artifacts + pending) + mutant_candidates(
        language,
        all_records(report),
    ) + finding_candidates(language, report.artifacts, report.findings);
    law_ranked_is_a_sorted_permutation::<EvolutionCandidateRecord>(all);
    let r = ranked::<EvolutionCandidateRecord>(all);
    assert(!EvolutionCandidateRecord::ranks_before(r[j], r[i]));
}

proof fn lemma_artifact_scores_select(language: Seq<char>, items: Seq<GeneratedArtifactModel>)
    ensures
        forall|i: int|
            0 <= i < artifact_candidates(language, items).len() ==> score_selects(
                #[trigger] artifact_candidates(language, items)[i],
            ),
    decreases items.len(),
{
    if items.len() > 0 {
        lemma_artifact_scores_select(language, items.drop_last());
        let before = artifact_candidates(language, items.drop_last());
        assert forall|i: int| 0 <= i < artifact_candidates(language, items).len() implies score_selects(
            #[trigger] artifact_candidates(language, items)[i],
        ) by {
            if i < before.len() {
                assert(score_selects(before[i]));
            }
        }
    }
}

proof fn lemma_mutant_scores_select(language: Seq<char>, items: Seq<MutationRecordModel>)
    ensures
        forall|i: int|
            0 <= i < mutant_candidates(language, items).len() ==> score_selects(
                #[trigger] mutant_candidates(language, items)[i],
            ),
    decreases items.len(),
{
    if items.len() > 0 {
        lemma_mutant_scores_select(language, items.drop_last());
        let before = mutant_candidates(language, items.drop_last());
        assert forall|i: int| 0 <= i < mutant_candidates(language, items).len() implies score_selects(
            #[trigger] mutant_candidates(language, items)[i],
        ) by {
            if i < before.len() {
                assert(score_selects(before[i]));
            }
        }
    }
}

proof fn lemma_finding_scores_select(
    language: Seq<char>,
    artifacts: Seq<GeneratedArtifactModel>,
    items: Seq<FailureModel>,
)
    ensures
        forall|i: int|
            0 <= i < finding_candidates(language, artifacts, items).len() ==> score_selects(
                #[trigger] finding_candidates(language, artifacts, items)[i],
            ),
    decreases items.len(),
{
    if items.len() > 0 {
        lemma_finding_scores_select(language, artifacts, items.drop_last());
        let before = finding_candidates(language, artifacts, items.drop_last());
        assert forall|i: int| 0 <= i < finding_candidates(language, artifacts, items).len() implies score_selects(
            #[trigger] finding_candidates(language, artifacts, items)[i],
        ) by {
            if i < before.len() {
                assert(score_selects(before[i]));
            }
        }
    }
}

/// Whether a candidate is selected exactly where its score is at least 70, and
/// proposed otherwise.
pub open spec fn score_selects(candidate: EvolutionCandidateRecordModel) -> bool {
    candidate.status == status_for(candidate.fitness.score_percent)
}

/// Every candidate is selected exactly where its score is at least 70, and proposed
/// otherwise.
pub proof fn law_selection_follows_the_score(
    language: Seq<char>,
    report: VerificationReportModel,
    pending: Seq<GeneratedArtifactModel>,
    i: int,
)
    requires
        0 <= i < candidates_for(language, report, pending).len(),
    ensures
        score_selects(candidates_for(language, report, pending)[i]),
        ({
            let candidate = candidates_for(language, report, pending)[i];
            &&& candidate.status == EvolutionCandidateStatus::Selected
                <==> candidate.fitness.score_percent >= 70
            &&& candidate.status == EvolutionCandidateStatus::Proposed
                <==> candidate.fitness.score_percent < 70
        }),
{
    let a = artifact_candidates(language, report.artifacts + pending);
    let m = mutant_candidates(language, all_records(report));
    let f = finding_candidates(language, report.artifacts, report.findings);
    lemma_artifact_scores_select(language, report.artifacts + pending);
    lemma_mutant_scores_select(language, all_records(report));
    lemma_finding_scores_select(language, report.artifacts, report.findings);
    let all = a + m + f;
    law_ranked_is_a_sorted_permutation::<EvolutionCandidateRecord>(all);
    let r = ranked::<EvolutionCandidateRecord>(all);
    let x = r[i];
    broadcast use group_to_multiset_ensures;

    assert(r.contains(x));
    assert(r.to_multiset().count(x) > 0);
    assert(all.contains(x));
    let k = choose|k: int| 0 <= k < all.len() && all[k] == x;
    if k < a.len() {
        assert(a[k] == x);
    } else if k < a.len() + m.len() {
        assert(m[k - a.len()] == x);
    } else {
        assert(f[k - a.len() - m.len()] == x);
    }
}

proof fn lemma_mutant_is_listed(language: Seq<char>, items: Seq<MutationRecordModel>, k: int)
    requires
        0 <= k < items.len(),
        mutant_candidate(language, items[k]) is Some,
    ensures
        mutant_candidates(language, items).contains(mutant_candidate(language, items[k])->0),
    decreases items.len(),
{
    let all = mutant_candidates(language, items);
    let before = mutant_candidates(language, items.drop_last());
    let one = mutant_candidate(language, items[k])->0;
    if k < items.len() - 1 {
        lemma_mutant_is_listed(language, items.drop_last(), k);
        let j = choose|j: int| 0 <= j < before.len() && before[j] == one;
        assert(all[j] == one);
    } else {
        assert(all[all.len() - 1] == one);
    }
}

/// Every surviving mutant of a language is a selected candidate: to add an assertion to its
/// function that fails under the mutant. So is every mutant that no test reached: to write a
/// test that reaches it. A mutant that was killed or skipped makes no candidate.
pub proof fn law_surviving_mutants_are_candidates(
    language: Seq<char>,
    report: VerificationReportModel,
    pending: Seq<GeneratedArtifactModel>,
    k: int,
)
    requires
        0 <= k < all_records(report).len(),
        all_records(report)[k].language == language,
    ensures
        ({
            let record = all_records(report)[k];
            let all = candidates_for(language, report, pending);
            &&& record.status == MutationStatus::Lived ==> exists|c: int|
                0 <= c < all.len() && (#[trigger] all[c]).kind == EvolutionCandidateKind::Mutation
                    && all[c].strategy == EvolutionStrategy::AddAssertion && all[c].status
                    == EvolutionCandidateStatus::Selected && all[c].target_id == language + ":"@
                    + record.path + ":"@ + record.symbol && all[c].fitness.mutation_delta == 1
            &&& record.status == MutationStatus::NotCovered ==> exists|c: int|
                0 <= c < all.len() && (#[trigger] all[c]).kind == EvolutionCandidateKind::Mutation
                    && all[c].strategy == EvolutionStrategy::StrengthenProperty && all[c].status
                    == EvolutionCandidateStatus::Selected && all[c].target_id == language + ":"@
                    + record.path + ":"@ + record.symbol
            &&& record.status == MutationStatus::Killed || record.status == MutationStatus::Skipped
                ==> mutant_candidate(language, record) is None
        }),
{
    let record = all_records(report)[k];
    if record.status == MutationStatus::Lived || record.status == MutationStatus::NotCovered {
        let a = artifact_candidates(language, report.artifacts + pending);
        let m = mutant_candidates(language, all_records(report));
        let f = finding_candidates(language, report.artifacts, report.findings);
        let all = a + m + f;
        let one = mutant_candidate(language, record)->0;
        lemma_mutant_is_listed(language, all_records(report), k);
        let j = choose|j: int| 0 <= j < m.len() && m[j] == one;
        assert(all[a.len() + j] == one);
        law_ranked_is_a_sorted_permutation::<EvolutionCandidateRecord>(all);
        let r = ranked::<EvolutionCandidateRecord>(all);
        broadcast use group_to_multiset_ensures;

        assert(all.contains(one));
        assert(all.to_multiset().count(one) > 0);
        assert(r.contains(one));
        let c = choose|c: int| 0 <= c < r.len() && r[c] == one;
        let listed = candidates_for(language, report, pending);
        assert(listed[c] == one);
        assert(listed[c].kind == EvolutionCandidateKind::Mutation);
    }
}

// ---------------------------------------------------------------------------
// Metrics
// ---------------------------------------------------------------------------
/// The sum of the scores of candidates.
pub open spec fn total_fitness(items: Seq<EvolutionCandidateRecordModel>) -> int
    decreases items.len(),
{
    if items.len() == 0 {
        0
    } else {
        total_fitness(items.drop_last()) + items.last().fitness.score_percent
    }
}

/// The average score of candidates, rounded down.
pub open spec fn average_fitness(items: Seq<EvolutionCandidateRecordModel>) -> Option<u8> {
    if items.len() == 0 {
        None
    } else {
        Some((total_fitness(items) / items.len() as int) as u8)
    }
}

/// The average score of candidates, rounded down.
pub fn average_evolution_fitness(items: &Vec<EvolutionCandidateRecord>) -> (r: Option<u8>)
    ensures
        r == average_fitness(items.deep_view()),
{
    if items.len() == 0 {
        return None;
    }
    let ghost all = items.deep_view();
    let mut total: u128 = 0;
    let mut i: usize = 0;
    while i < items.len()
        invariant
            i <= items@.len(),
            all == items.deep_view(),
            total == total_fitness(all.take(i as int)),
            total <= 255 * i,
        decreases items@.len() - i,
    {
        proof {
            lemma_take_next(all, i as int);
        }
        total = total + items[i].fitness.score_percent as u128;
        i = i + 1;
    }
    proof {
        lemma_take_all(all);
    }
    let n: u128 = items.len() as u128;
    assert(total / n <= 255) by (nonlinear_arith)
        requires
            total <= 255 * n,
            n > 0,
    ;
    Some((total / n) as u8)
}

/// How many candidates are selected.
pub open spec fn selected_in(items: Seq<EvolutionCandidateRecordModel>) -> int
    decreases items.len(),
{
    if items.len() == 0 {
        0
    } else {
        selected_in(items.drop_last()) + if items.last().status == EvolutionCandidateStatus::Selected {
            1int
        } else {
            0int
        }
    }
}

fn selected_candidates(items: &Vec<EvolutionCandidateRecord>) -> (r: usize)
    ensures
        r == selected_in(items.deep_view()),
        r <= items@.len(),
{
    let ghost all = items.deep_view();
    let mut n: usize = 0;
    let mut i: usize = 0;
    while i < items.len()
        invariant
            i <= items@.len(),
            n <= i,
            all == items.deep_view(),
            n == selected_in(all.take(i as int)),
        decreases items@.len() - i,
    {
        proof {
            lemma_take_next(all, i as int);
        }
        if items[i].status == EvolutionCandidateStatus::Selected {
            n = n + 1;
        }
        i = i + 1;
    }
    proof {
        lemma_take_all(all);
    }
    n
}

/// How many candidates are of a kind.
pub open spec fn kind_in(
    items: Seq<EvolutionCandidateRecordModel>,
    kind: EvolutionCandidateKind,
) -> int
    decreases items.len(),
{
    if items.len() == 0 {
        0
    } else {
        kind_in(items.drop_last(), kind) + if items.last().kind == kind {
            1int
        } else {
            0int
        }
    }
}

fn candidates_of_kind(
    items: &Vec<EvolutionCandidateRecord>,
    kind: EvolutionCandidateKind,
) -> (r: usize)
    ensures
        r == kind_in(items.deep_view(), kind),
        r <= items@.len(),
{
    let ghost all = items.deep_view();
    let mut n: usize = 0;
    let mut i: usize = 0;
    while i < items.len()
        invariant
            i <= items@.len(),
            n <= i,
            all == items.deep_view(),
            n == kind_in(all.take(i as int), kind),
        decreases items@.len() - i,
    {
        proof {
            lemma_take_next(all, i as int);
        }
        if items[i].kind == kind {
            n = n + 1;
        }
        i = i + 1;
    }
    proof {
        lemma_take_all(all);
    }
    n
}

/// The metrics of candidates, with or without the suite that holds them.
pub open spec fn candidate_metrics(
    items: Seq<EvolutionCandidateRecordModel>,
    suites: usize,
) -> EvolutionMetrics {
    EvolutionMetrics {
        suites,
        candidates: items.len() as usize,
        selected: selected_in(items) as usize,
        property_candidates: kind_in(items, EvolutionCandidateKind::Property) as usize,
        mutation_candidates: kind_in(items, EvolutionCandidateKind::Mutation) as usize,
        fuzz_candidates: kind_in(items, EvolutionCandidateKind::Fuzz) as usize,
        regression_candidates: kind_in(items, EvolutionCandidateKind::Regression) as usize,
        replay_candidates: kind_in(items, EvolutionCandidateKind::Replay) as usize,
        average_fitness_percent: average_fitness(items),
    }
}

/// The metrics of candidates, with or without the suite that holds them.
pub fn evolution_metrics_from_candidates(
    items: &Vec<EvolutionCandidateRecord>,
    with_suite: bool,
) -> (r: EvolutionMetrics)
    ensures
        r == candidate_metrics(
            items.deep_view(),
            if with_suite {
                1
            } else {
                0
            },
        ),
{
    let suites: usize = if with_suite {
        1
    } else {
        0
    };
    EvolutionMetrics {
        suites,
        candidates: items.len(),
        selected: selected_candidates(items),
        property_candidates: candidates_of_kind(items, EvolutionCandidateKind::Property),
        mutation_candidates: candidates_of_kind(items, EvolutionCandidateKind::Mutation),
        fuzz_candidates: candidates_of_kind(items, EvolutionCandidateKind::Fuzz),
        regression_candidates: candidates_of_kind(items, EvolutionCandidateKind::Regression),
        replay_candidates: candidates_of_kind(items, EvolutionCandidateKind::Replay),
        average_fitness_percent: average_evolution_fitness(items),
    }
}

/// The suite that a document of a suite artifact holds: itself, or under `suite`.
pub open spec fn suite_under(contents: Seq<char>, name: Option<Seq<char>>) -> Option<
    EvolutionSuiteModel,
> {
    match name {
        Some(member) => match parsed_json(contents) {
            Some(value) => evolution_suite_in(at(value, member)),
            None => None,
        },
        None => match exact_json(contents) {
            Some(value) => evolution_suite_in(value),
            None => None,
        },
    }
}

pub(crate) fn read_suite_under(contents: &str) -> (r: Option<EvolutionSuite>)
    ensures
        r.deep_view() == suite_under(contents@, Some("suite"@)),
{
    match parse(contents) {
        Some(value) => match value.get("suite") {
            Some(suite) => read_evolution_suite(suite),
            None => read_evolution_suite(&Json::Null),
        },
        None => None,
    }
}

pub(crate) fn read_whole_suite(contents: &str) -> (r: Option<EvolutionSuite>)
    ensures
        r.deep_view() == suite_under(contents@, None),
{
    match parse_exact(contents) {
        Some(value) => read_evolution_suite(&value),
        None => None,
    }
}

/// The candidates of the suites that artifacts of a kind hold.
pub open spec fn suite_candidates(
    items: Seq<GeneratedArtifactModel>,
    kind: ArtifactKind,
    name: Option<Seq<char>>,
) -> Seq<EvolutionCandidateRecordModel>
    decreases items.len(),
{
    if items.len() == 0 {
        Seq::empty()
    } else {
        let before = suite_candidates(items.drop_last(), kind, name);
        match suite_under(items.last().contents, name) {
            Some(suite) => if items.last().kind == kind {
                before + suite.candidates
            } else {
                before
            },
            None => before,
        }
    }
}

fn candidates_in_suites(items: &Vec<GeneratedArtifact>, whole: bool) -> (r: Vec<
    EvolutionCandidateRecord,
>)
    ensures
        r.deep_view() == if whole {
            suite_candidates(items.deep_view(), ArtifactKind::EvolutionCandidate, None)
        } else {
            suite_candidates(items.deep_view(), ArtifactKind::EvolutionSuite, Some("suite"@))
        },
{
    let kind = if whole {
        ArtifactKind::EvolutionCandidate
    } else {
        ArtifactKind::EvolutionSuite
    };
    let ghost name = if whole {
        None
    } else {
        Some("suite"@)
    };
    let mut out: Vec<EvolutionCandidateRecord> = Vec::new();
    let ghost all = items.deep_view();
    let mut i: usize = 0;
    assert(out.deep_view() == suite_candidates(all.take(0), kind, name));
    while i < items.len()
        invariant
            i <= items@.len(),
            all == items.deep_view(),
            name == if whole {
                None
            } else {
                Some("suite"@)
            },
            out.deep_view() == suite_candidates(all.take(i as int), kind, name),
        decreases items@.len() - i,
    {
        proof {
            lemma_take_next(all, i as int);
        }
        if items[i].kind == kind {
            let suite = if whole {
                read_whole_suite(items[i].contents.as_str())
            } else {
                read_suite_under(items[i].contents.as_str())
            };
            match suite {
                Some(suite) => {
                    let mut more = suite.candidates;
                    append_evolution_candidate_records(&mut out, &mut more);
                },
                None => {},
            }
        }
        i = i + 1;
    }
    proof {
        lemma_take_all(all);
    }
    out
}

/// The candidates that artifacts hold: those of the suites, or, where there is
/// none, those of the candidate lists.
pub open spec fn held_candidates(artifacts: Seq<GeneratedArtifactModel>) -> Seq<
    EvolutionCandidateRecordModel,
> {
    let suites = suite_candidates(artifacts, ArtifactKind::EvolutionSuite, Some("suite"@));
    if suites.len() > 0 {
        suites
    } else {
        suite_candidates(artifacts, ArtifactKind::EvolutionCandidate, None)
    }
}

/// How many artifacts are of a kind.
pub open spec fn artifact_kind_in(items: Seq<GeneratedArtifactModel>, kind: ArtifactKind) -> int
    decreases items.len(),
{
    if items.len() == 0 {
        0
    } else {
        artifact_kind_in(items.drop_last(), kind) + if items.last().kind == kind {
            1int
        } else {
            0int
        }
    }
}

/// How many artifacts are of a kind.
pub fn artifacts_of_kind(items: &Vec<GeneratedArtifact>, kind: ArtifactKind) -> (r: usize)
    ensures
        r == artifact_kind_in(items.deep_view(), kind),
        r <= items@.len(),
{
    let ghost all = items.deep_view();
    let mut n: usize = 0;
    let mut i: usize = 0;
    while i < items.len()
        invariant
            i <= items@.len(),
            n <= i,
            all == items.deep_view(),
            n == artifact_kind_in(all.take(i as int), kind),
        decreases items@.len() - i,
    {
        proof {
            lemma_take_next(all, i as int);
        }
        if items[i].kind == kind {
            n = n + 1;
        }
        i = i + 1;
    }
    proof {
        lemma_take_all(all);
    }
    n
}

/// The evolution metrics of the artifacts of a report.
pub fn evolution_metrics_from_artifacts(artifacts: &Vec<GeneratedArtifact>) -> (r:
    EvolutionMetrics)
    ensures
        r == candidate_metrics(
            held_candidates(artifacts.deep_view()),
            artifact_kind_in(artifacts.deep_view(), ArtifactKind::EvolutionSuite) as usize,
        ),
{
    let suites = artifacts_of_kind(artifacts, ArtifactKind::EvolutionSuite);
    let mut candidates = candidates_in_suites(artifacts, false);
    assert(candidates@.len() == candidates.deep_view().len());
    if candidates.len() == 0 {
        candidates = candidates_in_suites(artifacts, true);
    }
    let mut metrics = evolution_metrics_from_candidates(&candidates, false);
    metrics.suites = suites;
    metrics
}

// ---------------------------------------------------------------------------
// The plan and the suite
// ---------------------------------------------------------------------------
/// The lines on a failure of a generated test.
pub open spec fn failure_lines_text(finding: FailureModel) -> Seq<char> {
    let t = "- "@ + finding.message + "\n  - Command: `"@ + finding.command + "`\n"@;
    t
}

fn failure_lines(finding: &Failure) -> (r: String)
    ensures
        r@ == failure_lines_text(finding.deep_view()),
{
    let mut out = owned("- ");
    out.append(finding.message.as_str());
    out.append("\n  - Command: `");
    out.append(finding.command.as_str());
    out.append("`\n");
    out
}

/// The lines on the failures of generated tests.
pub open spec fn all_failure_lines(items: Seq<FailureModel>) -> Seq<char>
    decreases items.len(),
{
    if items.len() == 0 {
        Seq::empty()
    } else {
        all_failure_lines(items.drop_last()) + failure_lines_text(items.last())
    }
}

fn push_failure_lines(out: &mut String, items: &Vec<Failure>)
    ensures
        final(out)@ == old(out)@ + all_failure_lines(items.deep_view()),
{
    let ghost before = out@;
    let ghost all = items.deep_view();
    let mut i: usize = 0;
    assert(out@ == before + all_failure_lines(all.take(0)));
    while i < items.len()
        invariant
            i <= items@.len(),
            all == items.deep_view(),
            out@ == before + all_failure_lines(all.take(i as int)),
        decreases items@.len() - i,
    {
        proof {
            lemma_take_next(all, i as int);
        }
        let ghost so_far = out@;
        out.append(failure_lines(&items[i]).as_str());
        i = i + 1;
        assert(out@ == before + all_failure_lines(all.take(i as int)));
    }
    proof {
        lemma_take_all(all);
    }
}

/// The average score of candidates in words.
pub open spec fn average_text(items: Seq<EvolutionCandidateRecordModel>) -> Seq<char> {
    match average_fitness(items) {
        Some(score) => decimal(score as int) + "%"@,
        None => "n/a"@,
    }
}

fn average_words(items: &Vec<EvolutionCandidateRecord>) -> (r: String)
    ensures
        r@ == average_text(items.deep_view()),
{
    match average_evolution_fitness(items) {
        Some(score) => cat2(print_u8(score).as_str(), "%"),
        None => owned("n/a"),
    }
}

/// The section on surviving mutants.
pub open spec fn survivor_section(found: Seq<FailureModel>) -> Seq<char> {
    if found.len() == 0 {
        Seq::empty()
    } else {
        "## Surviving Mutants\n\nGenerate or promote assertions that kill these surviving behavioral changes:\n\n"@
            + all_survivor_lines(found) + "\n"@
    }
}

fn survivor_words(found: &Vec<Failure>) -> (r: String)
    ensures
        r@ == survivor_section(found.deep_view()),
{
    assert(found@.len() == found.deep_view().len());
    if found.len() == 0 {
        let out = String::new();
        assert(out@ =~= Seq::<char>::empty());
        return out;
    }
    let mut out = owned(
        "## Surviving Mutants\n\nGenerate or promote assertions that kill these surviving behavioral changes:\n\n",
    );
    push_survivor_lines(&mut out, found);
    out.append("\n");
    out
}

/// The section on failures of generated tests.
pub open spec fn harness_section(found: Seq<FailureModel>) -> Seq<char> {
    if found.len() == 0 {
        Seq::empty()
    } else {
        "## Generated Harness Failures\n\nMinimize these generated-test or fuzz failures, then promote them into owned regression tests:\n\n"@
            + all_failure_lines(found) + "\n"@
    }
}

fn harness_words(found: &Vec<Failure>) -> (r: String)
    ensures
        r@ == harness_section(found.deep_view()),
{
    assert(found@.len() == found.deep_view().len());
    if found.len() == 0 {
        let out = String::new();
        assert(out@ =~= Seq::<char>::empty());
        return out;
    }
    let mut out = owned(
        "## Generated Harness Failures\n\nMinimize these generated-test or fuzz failures, then promote them into owned regression tests:\n\n",
    );
    push_failure_lines(&mut out, found);
    out.append("\n");
    out
}

/// The section on the mix of candidates.
pub open spec fn candidate_mix_text(items: Seq<EvolutionCandidateRecordModel>) -> Seq<char> {
    let t = "\n## Candidate Mix\n\n- Total candidates: `"@
        + decimal(items.len() as int)
        + "`\n- Selected for next generation: `"@
        + decimal(selected_in(items))
        + "`\n- Average fitness: `"@
        + average_text(items)
        + "`\n"@;
    t
}

fn candidate_mix(items: &Vec<EvolutionCandidateRecord>) -> (r: String)
    ensures
        r@ == candidate_mix_text(items.deep_view()),
{
    assert(items@.len() == items.deep_view().len());
    let mut out = owned("\n## Candidate Mix\n\n- Total candidates: `");
    out.append(print_usize(items.len()).as_str());
    out.append("`\n- Selected for next generation: `");
    out.append(print_usize(selected_candidates(items)).as_str());
    out.append("`\n- Average fitness: `");
    out.append(average_words(items).as_str());
    out.append("`\n");
    out
}

/// The plan for the next generation.
pub open spec fn evolution_plan_text(
    survivors: Seq<FailureModel>,
    failures: Seq<FailureModel>,
    items: Seq<EvolutionCandidateRecordModel>,
) -> Seq<char> {
    let t = "# Evolution Plan\n\nGenerated by veritas. Use this as the next candidate-generation loop for AI-assisted verification.\n\n"@
        + survivor_section(survivors)
        + harness_section(failures)
        + "## Next Generation\n\n- Prefer one new assertion per survivor or minimized input.\n- Select high-fitness candidates first; keep the search small enough to review.\n- Re-run `veritas verify` and compare mutation score, generated-test failures, and fuzz repro counts.\n- Keep candidates that raise score or convert a finding into a stable regression test.\n"@;
    let t = if items.len() > 0 {
        let t = t + candidate_mix_text(items);
        t
    } else {
        t
    };
    t
}

fn evolution_plan(
    survivors: &Vec<Failure>,
    failures: &Vec<Failure>,
    items: &Vec<EvolutionCandidateRecord>,
) -> (r: String)
    ensures
        r@ == evolution_plan_text(survivors.deep_view(), failures.deep_view(), items.deep_view()),
{
    assert(items@.len() == items.deep_view().len());
    let mut out = owned("# Evolution Plan\n\nGenerated by veritas. Use this as the next candidate-generation loop for AI-assisted verification.\n\n");
    out.append(survivor_words(survivors).as_str());
    out.append(harness_words(failures).as_str());
    out.append("## Next Generation\n\n- Prefer one new assertion per survivor or minimized input.\n- Select high-fitness candidates first; keep the search small enough to review.\n- Re-run `veritas verify` and compare mutation score, generated-test failures, and fuzz repro counts.\n- Keep candidates that raise score or convert a finding into a stable regression test.\n");
    if items.len() > 0 {
        out.append(candidate_mix(items).as_str());
    }
    out
}

/// The signals that fitness is measured by.
pub open spec fn fitness_signals() -> Seq<Seq<char>> {
    seq![
        "mutation_score_delta"@,
        "surviving_mutants_delta"@,
        "not_covered_mutants_delta"@,
        "corpus_replay_pass_rate"@,
        "confidence_score_delta"@,
        "review_cost"@,
    ]
}

fn signals() -> (r: Vec<String>)
    ensures
        r.deep_view() == fitness_signals(),
{
    let mut out: Vec<String> = Vec::new();
    out.push(owned("mutation_score_delta"));
    out.push(owned("surviving_mutants_delta"));
    out.push(owned("not_covered_mutants_delta"));
    out.push(owned("corpus_replay_pass_rate"));
    out.push(owned("confidence_score_delta"));
    out.push(owned("review_cost"));
    assert(out.deep_view() =~= fitness_signals());
    out
}

/// The suite of the first generation.
pub open spec fn suite_of(
    language: Seq<char>,
    items: Seq<EvolutionCandidateRecordModel>,
) -> EvolutionSuiteModel {
    EvolutionSuiteModel {
        version: 1,
        language,
        generation: 1,
        selection_budget: selected_in(items) as usize,
        fitness_signals: fitness_signals(),
        candidates: items,
    }
}

fn first_suite(language: &str, items: Vec<EvolutionCandidateRecord>) -> (r: EvolutionSuite)
    ensures
        r.deep_view() == suite_of(language@, items.deep_view()),
{
    let selection_budget = selected_candidates(&items);
    EvolutionSuite {
        version: 1,
        language: owned(language),
        generation: 1,
        selection_budget,
        fitness_signals: signals(),
        candidates: items,
    }
}

/// What to do with a suite.
pub open spec fn next_loop_document() -> JsonModel {
    JsonModel::Object(
        seq![
            ("apply"@, JsonModel::Text("Promote selected candidates into handwritten tests or focused generated harnesses."@)),
            ("evaluate"@, JsonModel::Text("Run veritas verify and compare mutation, replay, fuzz, and confidence deltas."@)),
            ("select"@, JsonModel::Text("Keep candidates with positive fitness and reject candidates that only add brittle coverage."@)),
        ],
    )
}

fn next_loop_json() -> (r: Json)
    ensures
        r.deep_view() == next_loop_document(),
{
    let mut members = Members::new();
    members.put("apply", text("Promote selected candidates into handwritten tests or focused generated harnesses."));
    members.put("evaluate", text("Run veritas verify and compare mutation, replay, fuzz, and confidence deltas."));
    members.put("select", text("Keep candidates with positive fitness and reject candidates that only add brittle coverage."));
    assert(members.model() =~= next_loop_document()->Object_0);
    members.finish()
}

/// A suite with its metrics.
pub open spec fn suite_report_document(suite: EvolutionSuiteModel) -> JsonModel {
    JsonModel::Object(
        seq![
            ("suite"@, evolution_suite_document(suite)),
            ("metrics"@, evolution_metrics_document(candidate_metrics(suite.candidates, 1))),
            ("next_loop"@, next_loop_document()),
        ],
    )
}

fn suite_report_json(suite: &EvolutionSuite) -> (r: Json)
    ensures
        r.deep_view() == suite_report_document(suite.deep_view()),
{
    let mut members = Members::new();
    members.put("suite", evolution_suite_json(suite));
    members.put("metrics", evolution_metrics_json(&evolution_metrics_from_candidates(&suite.candidates, true)));
    members.put("next_loop", next_loop_json());
    assert(members.model() =~= suite_report_document(suite.deep_view())->Object_0);
    members.finish()
}

proof fn lemma_suite_report_names(suite: EvolutionSuiteModel)
    ensures
        distinct_names(suite_report_document(suite)->Object_0),
        member(suite_report_document(suite), "suite"@) == Some(evolution_suite_document(suite)),
        member(suite_report_document(suite), "version"@) is None,
{
    let members = suite_report_document(suite)->Object_0;
    reveal_strlit("suite");
    reveal_strlit("metrics");
    reveal_strlit("next_loop");
    reveal_strlit("version");
    assert("suite"@.len() == 5 && "metrics"@.len() == 7 && "next_loop"@.len() == 9);
    assert("version"@.len() == 7 && "version"@[0] == 'v' && "metrics"@[0] == 'm');
    lemma_member_is_found(members, 0);
    lemma_name_is_missing(members, "version"@);
}

proof fn lemma_suite_report_reads(suite: EvolutionSuiteModel)
    ensures
        evolution_suite_in(suite_report_document(suite)) is None,
        evolution_suite_in(at(suite_report_document(suite), "suite"@)) == Some(suite),
{
    lemma_suite_report_names(suite);
    lemma_evolution_suite_reads(suite);
    assert(unsigned_at(suite_report_document(suite), "version"@, u8::MAX as int) is None);
    assert(evolution_suite_in(suite_report_document(suite)) is None);
}

proof fn lemma_suite_report_is_plain(suite: EvolutionSuiteModel)
    ensures
        is_plain(suite_report_document(suite), 100),
{
    lemma_suite_report_names(suite);
    let members = suite_report_document(suite)->Object_0;
    let steps = next_loop_document()->Object_0;
    reveal_strlit("apply");
    reveal_strlit("evaluate");
    reveal_strlit("select");
    assert("apply"@.len() == 5 && "evaluate"@.len() == 8 && "select"@.len() == 6);
    assert(distinct_names(steps));
    assert forall|i: int| 0 <= i < steps.len() implies is_plain((#[trigger] steps[i]).1, 98) by {
    }
    assert(is_plain(next_loop_document(), 99));
    lemma_evolution_suite_is_plain(suite, 99);
    lemma_evolution_metrics_is_plain(candidate_metrics(suite.candidates, 1), 99);
    assert forall|i: int| 0 <= i < members.len() implies is_plain((#[trigger] members[i]).1, 99) by {
    }
}

/// The artifacts of an evolution: the plan, and, where there are candidates, the
/// candidate list and the suite.
pub open spec fn evolution_of(
    language: Seq<char>,
    report: VerificationReportModel,
    pending: Seq<GeneratedArtifactModel>,
) -> Seq<GeneratedArtifactModel> {
    let items = candidates_for(language, report, pending);
    let found = survivors(report.findings);
    let failed = generated_failures_of(report.artifacts, report.findings);
    let plan = planned(
        language + "-evolution-plan"@,
        language,
        ArtifactKind::EvolutionPlan,
        language + ":evolution"@,
        ".veritas/evolution/"@ + language + ".md"@,
        evolution_plan_text(found, failed, items),
        "Next-generation verification candidate plan from current findings"@,
    );
    let suite = suite_of(language, items);
    if items.len() == 0 && found.len() == 0 && failed.len() == 0 {
        Seq::empty()
    } else if items.len() == 0 {
        seq![plan]
    } else {
        seq![
            plan,
            planned(
                language + "-evolution-candidates"@,
                language,
                ArtifactKind::EvolutionCandidate,
                language + ":evolution"@,
                ".veritas/evolution/"@ + language + "_candidates.json"@,
                formatted_json(evolution_suite_document(suite)),
                "Structured evolutionary candidate queue for the next verification loop"@,
            ),
            planned(
                language + "-evolution-suite"@,
                language,
                ArtifactKind::EvolutionSuite,
                language + ":evolution"@,
                ".veritas/evolution/"@ + language + "_suite.json"@,
                pretty_json(suite_report_document(suite)),
                "Full evolutionary verification suite with candidate fitness and selection"@,
            ),
        ]
    }
}

/// The text of a suite, which is read back as it was.
fn suite_text(suite: &EvolutionSuite) -> (r: String)
    ensures
        r@ == formatted_json(evolution_suite_document(suite.deep_view())),
        suite_in_text(r@) == Some(suite.deep_view()),
{
    proof {
        lemma_evolution_suite_reads(suite.deep_view());
        lemma_evolution_suite_is_plain(suite.deep_view(), 100);
        lemma_plain_values_are_exact(100);
    }
    formatted(&evolution_suite_json(suite))
}

/// The text of the report of a suite, from which the suite is read back as it was.
fn suite_report_text(suite: &EvolutionSuite) -> (r: String)
    ensures
        r@ == pretty_json(suite_report_document(suite.deep_view())),
        suite_in_text(r@) == Some(suite.deep_view()),
{
    proof {
        lemma_suite_report_reads(suite.deep_view());
        lemma_suite_report_is_plain(suite.deep_view());
    }
    pretty(&suite_report_json(suite))
}

/// The artifacts of an evolution: the plan, and, where there are candidates, the
/// candidate list and the suite. The suite is read back as it was from both.
pub fn evolution_artifacts(
    language: &str,
    report: &VerificationReport,
    pending: &Vec<GeneratedArtifact>,
) -> (r: Vec<GeneratedArtifact>)
    ensures
        r.deep_view() == evolution_of(language@, report.deep_view(), pending.deep_view()),
        candidates_for(language@, report.deep_view(), pending.deep_view()).len() > 0 ==> {
            let suite = suite_of(
                language@,
                candidates_for(language@, report.deep_view(), pending.deep_view()),
            );
            &&& r@.len() == 3
            &&& suite_in_text(r@[1].contents@) == Some(suite)
            &&& suite_in_text(r@[2].contents@) == Some(suite)
        },
{
    let items = evolution_candidates(language, report, pending);
    let found = surviving_mutants(&report.findings);
    let failed = generated_failures(&report.artifacts, &report.findings);
    let mut out: Vec<GeneratedArtifact> = Vec::new();
    assert(items@.len() == items.deep_view().len());
    assert(found@.len() == found.deep_view().len());
    assert(failed@.len() == failed.deep_view().len());
    if items.len() == 0 && found.len() == 0 && failed.len() == 0 {
        assert(out.deep_view() =~= Seq::<GeneratedArtifactModel>::empty());
        return out;
    }
    out.push(
        plan_artifact(
            cat2(language, "-evolution-plan"),
            language,
            ArtifactKind::EvolutionPlan,
            cat2(language, ":evolution"),
            cat3(".veritas/evolution/", language, ".md"),
            evolution_plan(&found, &failed, &items),
            "Next-generation verification candidate plan from current findings",
        ),
    );
    if items.len() > 0 {
        let suite = first_suite(language, items);
        out.push(
            plan_artifact(
                cat2(language, "-evolution-candidates"),
                language,
                ArtifactKind::EvolutionCandidate,
                cat2(language, ":evolution"),
                cat3(".veritas/evolution/", language, "_candidates.json"),
                suite_text(&suite),
                "Structured evolutionary candidate queue for the next verification loop",
            ),
        );
        out.push(
            plan_artifact(
                cat2(language, "-evolution-suite"),
                language,
                ArtifactKind::EvolutionSuite,
                cat2(language, ":evolution"),
                cat3(".veritas/evolution/", language, "_suite.json"),
                suite_report_text(&suite),
                "Full evolutionary verification suite with candidate fitness and selection",
            ),
        );
    }
    assert(out.deep_view() =~= evolution_of(language@, report.deep_view(), pending.deep_view()));
    out
}

} // verus!
