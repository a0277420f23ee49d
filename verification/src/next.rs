//! What to do next about the findings of a report.
use vstd::prelude::*;
use vstd::seq_lib::group_to_multiset_ensures;

use crate::api::{
    ArtifactKind, Failure, FailureModel, FailureSeverity, GeneratedArtifact,
    GeneratedArtifactModel, RiskLevel, VerificationReport, VerificationReportModel,
};
use crate::documents::{evolution_suite_in, read_evolution_suite};
use crate::findings::{texts_of1, texts_of2, texts_of3};
use crate::json::{
    exact_json, number, optional_text, parse_exact, signed, text, text_or_null, texts, texts_model,
    Items, Json, JsonModel, Members,
};
use crate::number::{decimal, plus_decimal, print_plus, print_u8, print_usize, signed_decimal};
use crate::order::{lemma_text_lt_asymmetric, lemma_text_order_is_weak, text_less, text_lt};
use crate::output::{gives, print_document, printed, unsupported_format, OutputFormat};
use crate::policy::{finding_target_risk, risk_in_report};
use crate::ranking::{law_ranked_is_a_sorted_permutation, rank, ranked, Ranked};
use crate::records::{
    append_evolution_candidate_records, push_evolution_candidate_record, EvolutionCandidateKind,
    EvolutionCandidateRecord, EvolutionCandidateRecordModel, EvolutionCandidateStatus,
    EvolutionFitness, EvolutionFitnessModel, EvolutionSuite,
};
use crate::seqs::{cat2, lemma_take_all, lemma_take_next};
use crate::split::{at_most, join, joined, push_text, trim, trimmed};
use crate::text::{
    clone_text, clone_texts, contains, has_text, list_has, lower, or_text, owned, text_or,
    to_lower,
};

verus! {

// ---------------------------------------------------------------------------
// Selected candidates
// ---------------------------------------------------------------------------
/// The candidates that are selected.
pub open spec fn selected_in(
    items: Seq<EvolutionCandidateRecordModel>,
) -> Seq<EvolutionCandidateRecordModel>
    decreases items.len(),
{
    if items.len() == 0 {
        Seq::empty()
    } else if items.last().status == EvolutionCandidateStatus::Selected {
        selected_in(items.drop_last()).push(items.last())
    } else {
        selected_in(items.drop_last())
    }
}

fn selected_of(items: &Vec<EvolutionCandidateRecord>) -> (r: Vec<EvolutionCandidateRecord>)
    ensures
        r.deep_view() == selected_in(items.deep_view()),
{
    let mut out: Vec<EvolutionCandidateRecord> = Vec::new();
    let ghost all = items.deep_view();
    let mut i: usize = 0;
    assert(out.deep_view() == selected_in(all.take(0)));
    while i < items.len()
        invariant
            i <= items@.len(),
            all == items.deep_view(),
            out.deep_view() == selected_in(all.take(i as int)),
        decreases items@.len() - i,
    {
        proof {
            lemma_take_next(all, i as int);
        }
        if items[i].status == EvolutionCandidateStatus::Selected {
            push_evolution_candidate_record(&mut out, items[i].clone());
        }
        i = i + 1;
    }
    proof {
        lemma_take_all(all);
    }
    out
}

/// The selected candidates of the suite that an artifact of evolution holds.
pub open spec fn selected_in_artifact(artifact: GeneratedArtifactModel) -> Seq<
    EvolutionCandidateRecordModel,
> {
    if artifact.kind == ArtifactKind::EvolutionSuite || artifact.kind
        == ArtifactKind::EvolutionCandidate {
        match exact_json(artifact.contents) {
            Some(value) => match evolution_suite_in(value) {
                Some(suite) => selected_in(suite.candidates),
                None => Seq::empty(),
            },
            None => Seq::empty(),
        }
    } else {
        Seq::empty()
    }
}

fn push_selected(out: &mut Vec<EvolutionCandidateRecord>, artifact: &GeneratedArtifact)
    ensures
        final(out).deep_view() == old(out).deep_view() + selected_in_artifact(artifact.deep_view()),
{
    let ghost before = out.deep_view();
    if artifact.kind == ArtifactKind::EvolutionSuite || artifact.kind
        == ArtifactKind::EvolutionCandidate {
        if let Some(value) = parse_exact(artifact.contents.as_str()) {
            if let Some(suite) = read_evolution_suite(&value) {
                let mut more = selected_of(&suite.candidates);
                append_evolution_candidate_records(out, &mut more);
            }
        }
    }
    assert(out.deep_view() =~= before + selected_in_artifact(artifact.deep_view()));
}

/// The selected candidates of the suites that artifacts hold.
pub open spec fn selected_in_artifacts(
    items: Seq<GeneratedArtifactModel>,
) -> Seq<EvolutionCandidateRecordModel>
    decreases items.len(),
{
    if items.len() == 0 {
        Seq::empty()
    } else {
        selected_in_artifacts(items.drop_last()) + selected_in_artifact(items.last())
    }
}

fn push_all_selected(out: &mut Vec<EvolutionCandidateRecord>, items: &Vec<GeneratedArtifact>)
    ensures
        final(out).deep_view() == old(out).deep_view() + selected_in_artifacts(items.deep_view()),
{
    let ghost before = out.deep_view();
    let ghost all = items.deep_view();
    let mut i: usize = 0;
    assert(out.deep_view() =~= before + selected_in_artifacts(all.take(0)));
    while i < items.len()
        invariant
            i <= items@.len(),
            all == items.deep_view(),
            out.deep_view() == before + selected_in_artifacts(all.take(i as int)),
        decreases items@.len() - i,
    {
        proof {
            lemma_take_next(all, i as int);
            assert(all[i as int] == items@[i as int].deep_view());
        }
        push_selected(out, &items[i]);
        i = i + 1;
        assert(out.deep_view() =~= before + selected_in_artifacts(all.take(i as int)));
    }
    proof {
        lemma_take_all(all);
    }
}

/// The selected candidates of a report, best first.
pub open spec fn selected_candidates(report: VerificationReportModel) -> Seq<
    EvolutionCandidateRecordModel,
> {
    ranked::<EvolutionCandidateRecord>(selected_in_artifacts(report.artifacts))
}

/// The selected candidates of a report, best first.
pub fn selected_evolution_candidates(report: &VerificationReport) -> (r: Vec<
    EvolutionCandidateRecord,
>)
    ensures
        r.deep_view() == selected_candidates(report.deep_view()),
{
    let mut out: Vec<EvolutionCandidateRecord> = Vec::new();
    assert(out.deep_view() =~= Seq::<EvolutionCandidateRecordModel>::empty());
    push_all_selected(&mut out, &report.artifacts);
    assert(out.deep_view() =~= selected_in_artifacts(report.artifacts.deep_view()));
    rank(out)
}

// ---------------------------------------------------------------------------
// Items
// ---------------------------------------------------------------------------
/// Something to do next.
#[derive(Debug, PartialEq, Eq)]
pub struct NextItem {
    pub rank: usize,
    pub source: String,
    pub id: String,
    pub target_id: Option<String>,
    pub tier: u8,
    pub estimated_confidence_impact: i16,
    pub reason_codes: Vec<String>,
    pub title: String,
    pub action: String,
    pub proof_commands: Vec<String>,
    pub done_when: Vec<String>,
    pub explanation: Vec<String>,
}

/// The mathematical value of a `NextItem`.
pub struct NextItemModel {
    pub rank: usize,
    pub source: Seq<char>,
    pub id: Seq<char>,
    pub target_id: Option<Seq<char>>,
    pub tier: u8,
    pub estimated_confidence_impact: i16,
    pub reason_codes: Seq<Seq<char>>,
    pub title: Seq<char>,
    pub action: Seq<char>,
    pub proof_commands: Seq<Seq<char>>,
    pub done_when: Seq<Seq<char>>,
    pub explanation: Seq<Seq<char>>,
}

impl DeepView for NextItem {
    type V = NextItemModel;

    open spec fn deep_view(&self) -> NextItemModel {
        NextItemModel {
            rank: self.rank,
            source: self.source@,
            id: self.id@,
            target_id: self.target_id.deep_view(),
            tier: self.tier,
            estimated_confidence_impact: self.estimated_confidence_impact,
            reason_codes: self.reason_codes.deep_view(),
            title: self.title@,
            action: self.action@,
            proof_commands: self.proof_commands.deep_view(),
            done_when: self.done_when.deep_view(),
            explanation: self.explanation.deep_view(),
        }
    }
}

impl Clone for NextItem {
    fn clone(&self) -> (r: Self)
        ensures
            r.deep_view() == self.deep_view(),
    {
        NextItem {
            rank: self.rank,
            source: self.source.clone(),
            id: self.id.clone(),
            target_id: clone_text(&self.target_id),
            tier: self.tier,
            estimated_confidence_impact: self.estimated_confidence_impact,
            reason_codes: clone_texts(&self.reason_codes),
            title: self.title.clone(),
            action: self.action.clone(),
            proof_commands: clone_texts(&self.proof_commands),
            done_when: clone_texts(&self.done_when),
            explanation: clone_texts(&self.explanation),
        }
    }
}

/// A copy of next items.
pub fn clone_next_items(items: &Vec<NextItem>) -> (r: Vec<NextItem>)
    ensures
        r.deep_view() == items.deep_view(),
        r@.len() == items@.len(),
{
    let mut out: Vec<NextItem> = Vec::new();
    let mut i: usize = 0;
    while i < items.len()
        invariant
            i <= items@.len(),
            out@.len() == i,
            forall|j: int| 0 <= j < i ==> #[trigger] out@[j].deep_view() == items@[j].deep_view(),
        decreases items@.len() - i,
    {
        out.push(items[i].clone());
        i = i + 1;
    }
    assert(out.deep_view() == items.deep_view());
    out
}

/// Puts an item at the end of the list.
pub fn push_next_item(items: &mut Vec<NextItem>, item: NextItem)
    ensures
        final(items).deep_view() == old(items).deep_view().push(item.deep_view()),
        final(items)@.len() == old(items)@.len() + 1,
{
    let ghost before = items.deep_view();
    items.push(item);
    assert(items.deep_view() == before.push(item.deep_view()));
}

/// Puts the items of a second list behind those of the first.
pub fn append_next_items(items: &mut Vec<NextItem>, more: &mut Vec<NextItem>)
    ensures
        final(items).deep_view() == old(items).deep_view() + old(more).deep_view(),
{
    let ghost before = items.deep_view();
    let ghost tail = more.deep_view();
    items.append(more);
    assert(items.deep_view() == before + tail);
}

impl Ranked for NextItem {
    /// Items rank by tier and by impact, highest first, and last by id.
    open spec fn ranks_before(a: NextItemModel, b: NextItemModel) -> bool {
        a.tier > b.tier || (a.tier == b.tier && (a.estimated_confidence_impact
            > b.estimated_confidence_impact || (a.estimated_confidence_impact
            == b.estimated_confidence_impact && text_lt(a.id, b.id))))
    }

    proof fn before_is_transitive(a: NextItemModel, b: NextItemModel, c: NextItemModel) {
        if Self::ranks_before(c, a) {
            lemma_text_order_is_weak(a.id, b.id, c.id);
        }
    }

    proof fn before_is_asymmetric(a: NextItemModel, b: NextItemModel) {
        lemma_text_lt_asymmetric(a.id, b.id);
    }

    fn goes_before(&self, other: &Self) -> bool {
        self.tier > other.tier || (self.tier == other.tier && (self.estimated_confidence_impact
            > other.estimated_confidence_impact || (self.estimated_confidence_impact
            == other.estimated_confidence_impact && text_less(self.id.as_str(), other.id.as_str()))))
    }
}

/// How much a severity weighs.
pub open spec fn severity_weight(severity: FailureSeverity) -> int {
    match severity {
        FailureSeverity::Critical => 4,
        FailureSeverity::Error => 3,
        FailureSeverity::Warning => 2,
        FailureSeverity::Info => 1,
    }
}

/// How much a severity weighs.
pub fn severity_rank(severity: FailureSeverity) -> (r: u8)
    ensures
        r == severity_weight(severity),
{
    match severity {
        FailureSeverity::Critical => 4,
        FailureSeverity::Error => 3,
        FailureSeverity::Warning => 2,
        FailureSeverity::Info => 1,
    }
}

/// Whether a message tells of a mutant that survived.
pub open spec fn tells_of_survivor(message: Seq<char>) -> bool {
    has_text(lower(message), "mutation survived"@)
}

/// Whether a message tells of an input that can be replayed.
pub open spec fn tells_of_input(message: Seq<char>) -> bool {
    has_text(lower(message), "fuzz"@) || has_text(lower(message), "minimal failing input"@)
}

/// Whether a message tells of a test that failed.
pub open spec fn tells_of_test(message: Seq<char>) -> bool {
    has_text(lower(message), "test failed"@)
}

/// What to do about a finding.
pub open spec fn action_for(message: Seq<char>) -> Seq<char> {
    if tells_of_survivor(message) {
        "Add the smallest owned assertion that fails under the mutant, then rerun the mutation campaign."@
    } else if tells_of_input(message) {
        "Persist the failing input as a corpus seed and add a named regression assertion."@
    } else if tells_of_test(message) {
        "Promote the generated failing case into an owned regression test with explicit expected behavior."@
    } else {
        "Address this verification finding with the smallest behavior-preserving patch and proof command."@
    }
}

/// What to do about a finding.
pub fn finding_action(finding: &Failure) -> (r: String)
    ensures
        r@ == action_for(finding.deep_view().message),
{
    let message = to_lower(finding.message.as_str());
    if contains(message.as_str(), "mutation survived") {
        owned(
            "Add the smallest owned assertion that fails under the mutant, then rerun the mutation campaign.",
        )
    } else if contains(message.as_str(), "fuzz") || contains(
        message.as_str(),
        "minimal failing input",
    ) {
        owned("Persist the failing input as a corpus seed and add a named regression assertion.")
    } else if contains(message.as_str(), "test failed") {
        owned(
            "Promote the generated failing case into an owned regression test with explicit expected behavior.",
        )
    } else {
        owned(
            "Address this verification finding with the smallest behavior-preserving patch and proof command.",
        )
    }
}

/// The commands that show whether a finding is gone: the one that reproduces it, the one
/// that found it, a verification and the score.
pub open spec fn proof_commands_for(finding: FailureModel) -> Seq<Seq<char>> {
    let first = match finding.repro {
        Some(repro) => seq![repro.command],
        None => Seq::empty(),
    };
    let second = if trimmed(finding.command).len() > 0 && !first.contains(finding.command) {
        first.push(finding.command)
    } else {
        first
    };
    second.push("veritas verify --changed --profile ci"@).push("veritas score"@)
}

/// The commands that show whether a finding is gone.
pub fn finding_proof_commands(finding: &Failure) -> (r: Vec<String>)
    ensures
        r.deep_view() == proof_commands_for(finding.deep_view()),
{
    let mut commands: Vec<String> = Vec::new();
    assert(commands.deep_view() =~= Seq::<Seq<char>>::empty());
    if let Some(repro) = &finding.repro {
        push_text(&mut commands, owned(repro.command.as_str()));
        assert(commands.deep_view() =~= seq![repro.command@]);
    }
    let command = trim(finding.command.as_str());
    if command.as_str().unicode_len() > 0 && !list_has(&commands, finding.command.as_str()) {
        push_text(&mut commands, owned(finding.command.as_str()));
    }
    push_text(&mut commands, owned("veritas verify --changed --profile ci"));
    push_text(&mut commands, owned("veritas score"));
    commands
}

/// How much the confidence is expected to gain from a finding that goes away.
pub open spec fn finding_impact(finding: FailureModel, risk: Option<RiskLevel>) -> int {
    4 + severity_weight(finding.severity) * 3 + (if tells_of_survivor(finding.message) {
        14int
    } else {
        0
    }) + (if tells_of_input(finding.message) {
        10int
    } else {
        0
    }) + (if tells_of_test(finding.message) {
        8int
    } else {
        0
    }) + (if risk == Some(RiskLevel::High) {
        6int
    } else {
        0
    })
}

/// Why a finding is worth something, in short.
pub open spec fn finding_reasons(finding: FailureModel, risk: Option<RiskLevel>) -> Seq<Seq<char>> {
    let reasons = seq![lower("severity:"@ + finding.severity.name_text())];
    let reasons = if tells_of_survivor(finding.message) {
        reasons.push("mutation_survivor"@)
    } else {
        reasons
    };
    let reasons = if tells_of_input(finding.message) {
        reasons.push("replayable_input"@)
    } else {
        reasons
    };
    let reasons = if tells_of_test(finding.message) {
        reasons.push("generated_test_failure"@)
    } else {
        reasons
    };
    if risk == Some(RiskLevel::High) {
        reasons.push("high_risk_target"@)
    } else {
        reasons
    }
}

/// How urgent a finding is.
pub open spec fn finding_tier(finding: FailureModel, risk: Option<RiskLevel>) -> u8 {
    if finding.severity == FailureSeverity::Critical || finding.severity == FailureSeverity::Error
        || risk == Some(RiskLevel::High) {
        4
    } else if tells_of_survivor(finding.message) || has_text(lower(finding.message), "fuzz"@) {
        3
    } else {
        2
    }
}

/// Why a finding is as urgent as it is.
pub open spec fn tier_note_text(
    tier: u8,
    severity: FailureSeverity,
    risk: Option<RiskLevel>,
) -> Seq<char> {
    let t = "tier "@
        + decimal(tier as int)
        + " from severity "@
        + severity.name_text()
        + " and target risk "@;
    let t = match risk {
        Some(level) => {
            let t = t + level.name_text();
            t
        },
        None => {
            let t = t + "unknown"@;
            t
        },
    };
    t
}

fn tier_note(tier: u8, severity: FailureSeverity, risk: Option<RiskLevel>) -> (r: String)
    ensures
        r@ == tier_note_text(tier, severity, risk),
{
    let mut out = owned("tier ");
    out.append(print_u8(tier).as_str());
    out.append(" from severity ");
    out.append(severity.name());
    out.append(" and target risk ");
    match &risk {
        Some(level) => {
            out.append((*level).name());
        },
        None => {
            out.append("unknown");
        },
    }
    out
}

/// How an impact comes about.
pub open spec fn impact_note_text(impact: int, reasons: Seq<Seq<char>>) -> Seq<char> {
    let t = "estimated confidence impact "@
        + plus_decimal(impact)
        + " from "@
        + joined(reasons, ", "@);
    t
}

fn impact_note(impact: i16, reasons: &Vec<String>) -> (r: String)
    ensures
        r@ == impact_note_text(impact as int, reasons.deep_view()),
{
    let mut out = owned("estimated confidence impact ");
    out.append(print_plus(impact as i64).as_str());
    out.append(" from ");
    out.append(join(reasons, ", ").as_str());
    out
}

/// What there is to do about a finding.
pub open spec fn item_for_finding(
    report: VerificationReportModel,
    finding: FailureModel,
    explain: bool,
) -> NextItemModel {
    let risk = risk_in_report(report, finding);
    let impact = finding_impact(finding, risk);
    let reasons = finding_reasons(finding, risk);
    let tier = finding_tier(finding, risk);
    NextItemModel {
        rank: 0,
        source: "finding"@,
        id: or_text(finding.id, "unassigned-finding"@),
        target_id: finding.target_id,
        tier,
        estimated_confidence_impact: impact as i16,
        reason_codes: reasons,
        title: finding.message,
        action: action_for(finding.message),
        proof_commands: proof_commands_for(finding),
        done_when: seq![
            "the finding no longer appears in `.veritas/report.json`"@,
            "the proof command passes against production code"@,
            "the next `veritas score` is stable or improved"@,
        ],
        explanation: if explain {
            seq![tier_note_text(tier, finding.severity, risk), impact_note_text(impact, reasons)]
        } else {
            Seq::empty()
        },
    }
}

/// What there is to do about a finding.
pub fn next_item_from_finding(
    report: &VerificationReport,
    finding: &Failure,
    explain: bool,
) -> (r: NextItem)
    ensures
        r.deep_view() == item_for_finding(report.deep_view(), finding.deep_view(), explain),
{
    let risk = finding_target_risk(report, finding);
    let high = match risk {
        Some(RiskLevel::High) => true,
        _ => false,
    };
    let message = to_lower(finding.message.as_str());
    let survivor = contains(message.as_str(), "mutation survived");
    let fuzz = contains(message.as_str(), "fuzz");
    let mut impact: i16 = 4 + (severity_rank(finding.severity) as i16) * 3;
    let mut reasons: Vec<String> = Vec::new();
    push_text(&mut reasons, to_lower(cat2("severity:", finding.severity.name()).as_str()));
    assert(reasons.deep_view() =~= seq![lower("severity:"@ + finding.severity.name_text())]);
    if survivor {
        impact = impact + 14;
        push_text(&mut reasons, owned("mutation_survivor"));
    }
    if fuzz || contains(message.as_str(), "minimal failing input") {
        impact = impact + 10;
        push_text(&mut reasons, owned("replayable_input"));
    }
    if contains(message.as_str(), "test failed") {
        impact = impact + 8;
        push_text(&mut reasons, owned("generated_test_failure"));
    }
    if high {
        impact = impact + 6;
        push_text(&mut reasons, owned("high_risk_target"));
    }
    let tier: u8 = if finding.severity == FailureSeverity::Critical || finding.severity
        == FailureSeverity::Error || high {
        4
    } else if survivor || fuzz {
        3
    } else {
        2
    };
    let explanation = if explain {
        let first = tier_note(tier, finding.severity, risk);
        let second = impact_note(impact, &reasons);
        texts_of2(first.as_str(), second.as_str())
    } else {
        Vec::new()
    };
    let item = NextItem {
        rank: 0,
        source: owned("finding"),
        id: text_or(&finding.id, "unassigned-finding"),
        target_id: clone_text(&finding.target_id),
        tier,
        estimated_confidence_impact: impact,
        reason_codes: reasons,
        title: owned(finding.message.as_str()),
        action: finding_action(finding),
        proof_commands: finding_proof_commands(finding),
        done_when: texts_of3(
            "the finding no longer appears in `.veritas/report.json`",
            "the proof command passes against production code",
            "the next `veritas score` is stable or improved",
        ),
        explanation,
    };
    assert(item.explanation.deep_view() =~= item_for_finding(
        report.deep_view(),
        finding.deep_view(),
        explain,
    ).explanation);
    item
}

/// A number, or zero in place of a negative one.
pub open spec fn gain(n: int) -> int {
    if n > 0 {
        n
    } else {
        0
    }
}

/// How much the confidence is expected to gain from a candidate, in 16 bits; nothing where
/// a step of the sum does not fit them.
pub open spec fn candidate_impact(fitness: EvolutionFitnessModel) -> Option<int> {
    let mutants = gain(fitness.mutation_delta as int) * 3;
    let replays = gain(fitness.replay_delta as int) * 2;
    let findings = gain(fitness.finding_delta as int) * 2;
    let base = gain(fitness.confidence_delta as int) + fitness.score_percent / 5;
    if findings <= i16::MAX && base + mutants + replays <= i16::MAX {
        Some(base + mutants + replays - findings)
    } else {
        None
    }
}

fn positive(n: i16) -> (r: i64)
    ensures
        r == gain(n as int),
        0 <= r <= i16::MAX,
{
    if n > 0 {
        n as i64
    } else {
        0
    }
}

fn find_candidate_impact(fitness: &EvolutionFitness) -> (r: Option<i16>)
    ensures
        match candidate_impact(fitness.deep_view()) {
            Some(n) => r matches Some(k) && k == n,
            None => r is None,
        },
{
    let mutants: i64 = positive(fitness.mutation_delta) * 3;
    let replays: i64 = positive(fitness.replay_delta) * 2;
    let findings: i64 = positive(fitness.finding_delta) * 2;
    let base: i64 = positive(fitness.confidence_delta) + (fitness.score_percent / 5) as i64;
    if findings <= 32767 && base + mutants + replays <= 32767 {
        Some((base + mutants + replays - findings) as i16)
    } else {
        None
    }
}

/// How urgent candidates of a kind are.
pub open spec fn candidate_tier(kind: EvolutionCandidateKind) -> u8 {
    match kind {
        EvolutionCandidateKind::Mutation => 4,
        EvolutionCandidateKind::Regression => 4,
        EvolutionCandidateKind::Fuzz => 3,
        EvolutionCandidateKind::Replay => 3,
        EvolutionCandidateKind::Property => 3,
        EvolutionCandidateKind::Budget => 2,
    }
}

fn tier_of_candidate(kind: EvolutionCandidateKind) -> (r: u8)
    ensures
        r == candidate_tier(kind),
{
    match kind {
        EvolutionCandidateKind::Mutation => 4,
        EvolutionCandidateKind::Regression => 4,
        EvolutionCandidateKind::Fuzz => 3,
        EvolutionCandidateKind::Replay => 3,
        EvolutionCandidateKind::Property => 3,
        EvolutionCandidateKind::Budget => 2,
    }
}

/// How fit a candidate is, in short.
pub open spec fn fitness_reason_text(score: u8) -> Seq<char> {
    let t = "fitness:"@ + decimal(score as int) + "%"@;
    t
}

fn fitness_reason(score: u8) -> (r: String)
    ensures
        r@ == fitness_reason_text(score),
{
    let mut out = owned("fitness:");
    out.append(print_u8(score).as_str());
    out.append("%");
    out
}

/// What a candidate is worth and when it stays.
pub open spec fn keep_note_text(impact: int, keep_if: Seq<char>) -> Seq<char> {
    let t = "estimated confidence impact "@
        + plus_decimal(impact)
        + "; keep if "@
        + keep_if;
    t
}

fn keep_note(impact: i16, keep_if: &str) -> (r: String)
    ensures
        r@ == keep_note_text(impact as int, keep_if@),
{
    let mut out = owned("estimated confidence impact ");
    out.append(print_plus(impact as i64).as_str());
    out.append("; keep if ");
    out.append(keep_if);
    out
}

/// Why a candidate is worth something, in short.
pub open spec fn candidate_reasons(candidate: EvolutionCandidateRecordModel) -> Seq<Seq<char>> {
    let reasons = seq![
        lower("candidate:"@ + candidate.kind.name_text()),
        fitness_reason_text(candidate.fitness.score_percent),
    ];
    let reasons = if candidate.fitness.mutation_delta > 0 {
        reasons.push("mutation_delta"@)
    } else {
        reasons
    };
    let reasons = if candidate.fitness.replay_delta > 0 {
        reasons.push("replay_delta"@)
    } else {
        reasons
    };
    if candidate.fitness.confidence_delta > 0 {
        reasons.push("confidence_delta"@)
    } else {
        reasons
    }
}

fn reasons_of_candidate(candidate: &EvolutionCandidateRecord) -> (r: Vec<String>)
    ensures
        r.deep_view() == candidate_reasons(candidate.deep_view()),
{
    let first = to_lower(cat2("candidate:", candidate.kind.name()).as_str());
    let second = fitness_reason(candidate.fitness.score_percent);
    let mut reasons = texts_of2(first.as_str(), second.as_str());
    if candidate.fitness.mutation_delta > 0 {
        push_text(&mut reasons, owned("mutation_delta"));
    }
    if candidate.fitness.replay_delta > 0 {
        push_text(&mut reasons, owned("replay_delta"));
    }
    if candidate.fitness.confidence_delta > 0 {
        push_text(&mut reasons, owned("confidence_delta"));
    }
    reasons
}

/// What there is to do about a candidate; nothing where its impact does not fit 16 bits.
pub open spec fn item_for_candidate(
    candidate: EvolutionCandidateRecordModel,
    explain: bool,
) -> Option<NextItemModel> {
    match candidate_impact(candidate.fitness) {
        Some(impact) => Some(
            NextItemModel {
                rank: 0,
                source: "evolution_candidate"@,
                id: candidate.id,
                target_id: Some(candidate.target_id),
                tier: candidate_tier(candidate.kind),
                estimated_confidence_impact: impact as i16,
                reason_codes: candidate_reasons(candidate),
                title: candidate.kind.name_text() + " candidate"@,
                action: candidate.proposed_action,
                proof_commands: candidate.proof_commands,
                done_when: if candidate.done_when.len() == 0 {
                    seq![candidate.keep_if]
                } else {
                    candidate.done_when
                },
                explanation: if explain {
                    seq![candidate.fitness.rationale, keep_note_text(impact, candidate.keep_if)]
                } else {
                    Seq::empty()
                },
            },
        ),
        None => None,
    }
}

/// What there is to do about a candidate; nothing where its impact does not fit 16 bits.
pub fn next_item_from_candidate(candidate: &EvolutionCandidateRecord, explain: bool) -> (r: Option<
    NextItem,
>)
    ensures
        r.deep_view() == item_for_candidate(candidate.deep_view(), explain),
{
    let impact: i16 = match find_candidate_impact(&candidate.fitness) {
        Some(n) => n,
        None => return None,
    };
    assert(candidate.done_when@.len() == candidate.done_when.deep_view().len());
    let explanation = if explain {
        let note = keep_note(impact, candidate.keep_if.as_str());
        texts_of2(candidate.fitness.rationale.as_str(), note.as_str())
    } else {
        Vec::new()
    };
    let done_when = if candidate.done_when.len() == 0 {
        texts_of1(candidate.keep_if.as_str())
    } else {
        clone_texts(&candidate.done_when)
    };
    let ghost model = item_for_candidate(candidate.deep_view(), explain)->0;
    assert(explanation.deep_view() =~= model.explanation);
    assert(done_when.deep_view() =~= model.done_when);
    Some(
        NextItem {
            rank: 0,
            source: owned("evolution_candidate"),
            id: owned(candidate.id.as_str()),
            target_id: Some(owned(candidate.target_id.as_str())),
            tier: tier_of_candidate(candidate.kind),
            estimated_confidence_impact: impact,
            reason_codes: reasons_of_candidate(candidate),
            title: cat2(candidate.kind.name(), " candidate"),
            action: owned(candidate.proposed_action.as_str()),
            proof_commands: clone_texts(&candidate.proof_commands),
            done_when,
            explanation,
        },
    )
}

// ---------------------------------------------------------------------------
// The queue
// ---------------------------------------------------------------------------
/// What there is to do next, most worthwhile first.
#[derive(Debug, PartialEq, Eq)]
pub struct NextQueue {
    pub source: String,
    pub total_candidates: usize,
    pub returned: usize,
    pub items: Vec<NextItem>,
}

/// The mathematical value of a `NextQueue`.
pub struct NextQueueModel {
    pub source: Seq<char>,
    pub total_candidates: usize,
    pub returned: usize,
    pub items: Seq<NextItemModel>,
}

impl DeepView for NextQueue {
    type V = NextQueueModel;

    open spec fn deep_view(&self) -> NextQueueModel {
        NextQueueModel {
            source: self.source@,
            total_candidates: self.total_candidates,
            returned: self.returned,
            items: self.items.deep_view(),
        }
    }
}

impl Clone for NextQueue {
    fn clone(&self) -> (r: Self)
        ensures
            r.deep_view() == self.deep_view(),
    {
        NextQueue {
            source: self.source.clone(),
            total_candidates: self.total_candidates,
            returned: self.returned,
            items: clone_next_items(&self.items),
        }
    }
}

/// What there is to do about findings.
pub open spec fn finding_items(
    report: VerificationReportModel,
    explain: bool,
    items: Seq<FailureModel>,
) -> Seq<NextItemModel>
    decreases items.len(),
{
    if items.len() == 0 {
        Seq::empty()
    } else {
        finding_items(report, explain, items.drop_last()).push(item_for_finding(report, items.last(), explain))
    }
}

fn items_from_findings(
    report: &VerificationReport,
    explain: bool,
    items: &Vec<Failure>,
) -> (r: Vec<NextItem>)
    ensures
        r.deep_view() == finding_items(report.deep_view(), explain, items.deep_view()),
{
    let mut out: Vec<NextItem> = Vec::new();
    let ghost all = items.deep_view();
    let mut i: usize = 0;
    assert(out.deep_view() == finding_items(report.deep_view(), explain, all.take(0)));
    while i < items.len()
        invariant
            i <= items@.len(),
            all == items.deep_view(),
            out.deep_view() == finding_items(report.deep_view(), explain, all.take(i as int)),
        decreases items@.len() - i,
    {
        proof {
            lemma_take_next(all, i as int);
        }
        push_next_item(&mut out, next_item_from_finding(report, &items[i], explain));
        i = i + 1;
    }
    proof {
        lemma_take_all(all);
    }
    out
}

/// What there is to do about candidates; nothing where an impact does not fit 16 bits.
pub open spec fn candidate_items(
    candidates: Seq<EvolutionCandidateRecordModel>,
    explain: bool,
) -> Option<Seq<NextItemModel>>
    decreases candidates.len(),
{
    if candidates.len() == 0 {
        Some(Seq::empty())
    } else {
        match (
            candidate_items(candidates.drop_last(), explain),
            item_for_candidate(candidates.last(), explain),
        ) {
            (Some(items), Some(item)) => Some(items.push(item)),
            _ => None,
        }
    }
}

proof fn lemma_no_items_before(
    candidates: Seq<EvolutionCandidateRecordModel>,
    explain: bool,
    n: int,
)
    requires
        0 <= n <= candidates.len(),
        candidate_items(candidates.take(n), explain) is None,
    ensures
        candidate_items(candidates, explain) is None,
    decreases candidates.len() - n,
{
    if n < candidates.len() {
        lemma_take_next(candidates, n);
        lemma_no_items_before(candidates, explain, n + 1);
    } else {
        lemma_take_all(candidates);
    }
}

fn items_from_candidates(candidates: &Vec<EvolutionCandidateRecord>, explain: bool) -> (r: Option<
    Vec<NextItem>,
>)
    ensures
        r.deep_view() == candidate_items(candidates.deep_view(), explain),
{
    let ghost all = candidates.deep_view();
    let mut out: Vec<NextItem> = Vec::new();
    let mut i: usize = 0;
    assert(all.take(0).len() == 0);
    assert(out.deep_view() =~= Seq::<NextItemModel>::empty());
    while i < candidates.len()
        invariant
            i <= candidates@.len(),
            all == candidates.deep_view(),
            candidate_items(all.take(i as int), explain) == Some(out.deep_view()),
        decreases candidates@.len() - i,
    {
        proof {
            lemma_take_next(all, i as int);
            assert(all[i as int] == candidates@[i as int].deep_view());
        }
        match next_item_from_candidate(&candidates[i], explain) {
            Some(item) => {
                push_next_item(&mut out, item);
            },
            None => {
                proof {
                    lemma_no_items_before(all, explain, i + 1);
                }
                return None;
            },
        }
        i = i + 1;
    }
    proof {
        lemma_take_all(all);
    }
    Some(out)
}

/// Items with their places in the queue, from one on.
pub open spec fn numbered(items: Seq<NextItemModel>) -> Seq<NextItemModel> {
    Seq::new(items.len(), |i: int| NextItemModel { rank: (i + 1) as usize, ..items[i] })
}

fn first_numbered(items: &Vec<NextItem>, count: usize) -> (r: Vec<NextItem>)
    ensures
        r.deep_view() == numbered(at_most(items.deep_view(), count as int)),
{
    let ghost all = items.deep_view();
    let mut out: Vec<NextItem> = Vec::new();
    let mut i: usize = 0;
    assert(out.deep_view() =~= numbered(all.take(0)));
    while i < items.len() && i < count
        invariant
            i <= items@.len(),
            i <= count,
            all == items.deep_view(),
            out.deep_view() == numbered(all.take(i as int)),
        decreases items@.len() - i,
    {
        assert(all[i as int] == items@[i as int].deep_view());
        let mut item = items[i].clone();
        item.rank = i + 1;
        push_next_item(&mut out, item);
        i = i + 1;
        assert(out.deep_view() =~= numbered(all.take(i as int)));
    }
    assert(all.take(i as int) =~= at_most(all, count as int));
    out
}

/// Everything that there is to do, most worthwhile first; nothing where an impact does not
/// fit 16 bits.
pub open spec fn ranked_items(report: VerificationReportModel, explain: bool) -> Option<
    Seq<NextItemModel>,
> {
    match candidate_items(selected_candidates(report), explain) {
        Some(items) => Some(
            ranked::<NextItem>(finding_items(report, explain, report.findings) + items),
        ),
        None => None,
    }
}

/// How many items a queue shows: at least one.
pub open spec fn shown(count: int) -> int {
    if count > 1 {
        count
    } else {
        1
    }
}

/// What there is to do next: the findings of a report and its selected candidates, most
/// worthwhile first, so many of them; nothing where an impact does not fit 16 bits.
pub open spec fn queue_of(report: VerificationReportModel, count: int, explain: bool) -> Option<
    NextQueueModel,
> {
    match ranked_items(report, explain) {
        Some(items) => {
            let first = numbered(at_most(items, shown(count)));
            Some(
                NextQueueModel {
                    source: ".veritas/report.json"@,
                    total_candidates: items.len() as usize,
                    returned: first.len() as usize,
                    items: first,
                },
            )
        },
        None => None,
    }
}

/// What there is to do next; nothing where an impact does not fit 16 bits.
pub fn next_queue(
    report: &VerificationReport,
    count: usize,
    explain: bool,
) -> (r: Option<NextQueue>)
    ensures
        r.deep_view() == queue_of(report.deep_view(), count as int, explain),
{
    let mut items = items_from_findings(report, explain, &report.findings);
    let candidates = selected_evolution_candidates(report);
    let mut more = match items_from_candidates(&candidates, explain) {
        Some(more) => more,
        None => return None,
    };
    append_next_items(&mut items, &mut more);
    let sorted = rank(items);
    assert(sorted@.len() == sorted.deep_view().len());
    let first = first_numbered(
        &sorted,
        if count > 1 {
            count
        } else {
            1
        },
    );
    assert(first@.len() == first.deep_view().len());
    Some(
        NextQueue {
            source: owned(".veritas/report.json"),
            total_candidates: sorted.len(),
            returned: first.len(),
            items: first,
        },
    )
}

/// The items of a queue are in the order of their ranks, from one on: a later one is in no
/// higher tier than an earlier one, of the same tier it has no higher impact, and of the same
/// impact no smaller id.
pub proof fn law_queue_is_in_order(
    report: VerificationReportModel,
    count: int,
    explain: bool,
    i: int,
    j: int,
)
    requires
        queue_of(report, count, explain) is Some,
        0 <= i < j < (queue_of(report, count, explain)->0).items.len(),
    ensures
        ({
            let items = (queue_of(report, count, explain)->0).items;
            &&& items[i].rank == (i + 1) as usize
            &&& items[i].tier >= items[j].tier
            &&& items[i].tier == items[j].tier ==> items[i].estimated_confidence_impact
                >= items[j].estimated_confidence_impact
            &&& items[i].tier == items[j].tier && items[i].estimated_confidence_impact
                == items[j].estimated_confidence_impact ==> !text_lt(items[j].id, items[i].id)
        }),
{
    let all = finding_items(report, explain, report.findings) + candidate_items(
        selected_candidates(report),
        explain,
    )->0;
    law_ranked_is_a_sorted_permutation::<NextItem>(all);
    let sorted = ranked::<NextItem>(all);
    assert(!NextItem::ranks_before(sorted[j], sorted[i]));
}

proof fn lemma_finding_has_an_item(
    report: VerificationReportModel,
    explain: bool,
    items: Seq<FailureModel>,
    f: int,
)
    requires
        0 <= f < items.len(),
    ensures
        finding_items(report, explain, items).contains(item_for_finding(report, items[f], explain)),
    decreases items.len(),
{
    let all = finding_items(report, explain, items);
    let before = finding_items(report, explain, items.drop_last());
    let one = item_for_finding(report, items[f], explain);
    if f < items.len() - 1 {
        lemma_finding_has_an_item(report, explain, items.drop_last(), f);
        let k = choose|k: int| 0 <= k < before.len() && before[k] == one;
        assert(all[k] == one);
    } else {
        assert(all[all.len() - 1] == one);
    }
}

/// Every finding is in a queue that has room for everything, under its id and message, and one
/// that is an error, is critical or is about a target of high risk is in the highest tier.
pub proof fn law_every_finding_is_queued(
    report: VerificationReportModel,
    count: int,
    explain: bool,
    f: int,
)
    requires
        queue_of(report, count, explain) is Some,
        0 <= f < report.findings.len(),
        ranked_items(report, explain)->0.len() <= count,
    ensures
        ({
            let items = (queue_of(report, count, explain)->0).items;
            let finding = report.findings[f];
            let urgent = finding.severity == FailureSeverity::Critical || finding.severity
                == FailureSeverity::Error || risk_in_report(report, finding) == Some(
                RiskLevel::High,
            );
            exists|i: int|
                0 <= i < items.len() && (#[trigger] items[i]).title == finding.message
                    && items[i].target_id == finding.target_id && (finding.id matches Some(id)
                    ==> items[i].id == id) && (urgent <==> items[i].tier == 4)
        }),
{
    let all = finding_items(report, explain, report.findings) + candidate_items(
        selected_candidates(report),
        explain,
    )->0;
    let one = item_for_finding(report, report.findings[f], explain);
    lemma_finding_has_an_item(report, explain, report.findings, f);
    let found = finding_items(report, explain, report.findings);
    let k = choose|k: int| 0 <= k < found.len() && found[k] == one;
    assert(all[k] == one);
    law_ranked_is_a_sorted_permutation::<NextItem>(all);
    let sorted = ranked::<NextItem>(all);
    broadcast use group_to_multiset_ensures;

    assert(all.contains(one));
    assert(all.to_multiset().count(one) > 0);
    assert(sorted.contains(one));
    let i = choose|i: int| 0 <= i < sorted.len() && sorted[i] == one;
    let items = (queue_of(report, count, explain)->0).items;
    assert(items[i].title == one.title);
}

/// Of two findings that differ in their severity alone, the more severe one is in no lower tier
/// and has the higher impact.
pub proof fn law_more_severe_findings_weigh_more(
    report: VerificationReportModel,
    finding: FailureModel,
    severity: FailureSeverity,
    explain: bool,
)
    requires
        (finding.severity == FailureSeverity::Info && severity != FailureSeverity::Info) || (
        finding.severity == FailureSeverity::Warning && (severity == FailureSeverity::Error
            || severity == FailureSeverity::Critical)) || (finding.severity
            == FailureSeverity::Error && severity == FailureSeverity::Critical),
    ensures
        ({
            let more = item_for_finding(report, FailureModel { severity, ..finding }, explain);
            let less = item_for_finding(report, finding, explain);
            &&& more.tier >= less.tier
            &&& more.estimated_confidence_impact > less.estimated_confidence_impact
        }),
{
}

// ---------------------------------------------------------------------------
// Text
// ---------------------------------------------------------------------------
/// Texts as a list of code, below an item.
pub open spec fn quoted_lines(items: Seq<Seq<char>>) -> Seq<char>
    decreases items.len(),
{
    if items.len() == 0 {
        Seq::empty()
    } else {
        quoted_lines(items.drop_last()) + ("  - `"@ + items.last() + "`\n"@)
    }
}

/// Texts as a list of code, below an item.
pub fn push_quoted(out: &mut String, items: &Vec<String>)
    ensures
        final(out)@ == old(out)@ + quoted_lines(items.deep_view()),
{
    let ghost before = out@;
    let ghost all = items.deep_view();
    let mut i: usize = 0;
    assert(out@ == before + quoted_lines(all.take(0)));
    while i < items.len()
        invariant
            i <= items@.len(),
            all == items.deep_view(),
            out@ == before + quoted_lines(all.take(i as int)),
        decreases items@.len() - i,
    {
        proof {
            lemma_take_next(all, i as int);
        }
        let ghost so_far = out@;
        out.append("  - `");
        out.append(items[i].as_str());
        out.append("`\n");
        assert(out@ =~= before + (quoted_lines(all.take(i as int)) + ("  - `"@ + all[i as int] + "`\n"@)));
        i = i + 1;
        assert(out@ == before + quoted_lines(all.take(i as int)));
    }
    proof {
        lemma_take_all(all);
    }
}

/// Texts as a list, below an item.
pub open spec fn plain_lines(items: Seq<Seq<char>>) -> Seq<char>
    decreases items.len(),
{
    if items.len() == 0 {
        Seq::empty()
    } else {
        plain_lines(items.drop_last()) + ("  - "@ + items.last() + "\n"@)
    }
}

/// Texts as a list, below an item.
pub fn push_plain(out: &mut String, items: &Vec<String>)
    ensures
        final(out)@ == old(out)@ + plain_lines(items.deep_view()),
{
    let ghost before = out@;
    let ghost all = items.deep_view();
    let mut i: usize = 0;
    assert(out@ == before + plain_lines(all.take(0)));
    while i < items.len()
        invariant
            i <= items@.len(),
            all == items.deep_view(),
            out@ == before + plain_lines(all.take(i as int)),
        decreases items@.len() - i,
    {
        proof {
            lemma_take_next(all, i as int);
        }
        let ghost so_far = out@;
        out.append("  - ");
        out.append(items[i].as_str());
        out.append("\n");
        assert(out@ =~= before + (plain_lines(all.take(i as int)) + ("  - "@ + all[i as int] + "\n"@)));
        i = i + 1;
        assert(out@ == before + plain_lines(all.take(i as int)));
    }
    proof {
        lemma_take_all(all);
    }
}

/// A list under a title; nothing where the list is empty.
pub open spec fn titled(title: Seq<char>, items: Seq<Seq<char>>, lines: Seq<char>) -> Seq<char> {
    if items.len() == 0 {
        Seq::empty()
    } else {
        title + lines
    }
}

/// A list of code under a title; nothing where the list is empty.
pub fn push_titled_quoted(out: &mut String, title: &str, items: &Vec<String>)
    ensures
        final(out)@ == old(out)@ + titled(title@, items.deep_view(), quoted_lines(items.deep_view())),
{
    let ghost before = out@;
    assert(items@.len() == items.deep_view().len());
    if items.len() > 0 {
        out.append(title);
        push_quoted(out, items);
    }
    assert(out@ =~= before + titled(
        title@,
        items.deep_view(),
        quoted_lines(items.deep_view()),
    ));
}

/// A list under a title; nothing where the list is empty.
pub fn push_titled_plain(out: &mut String, title: &str, items: &Vec<String>)
    ensures
        final(out)@ == old(out)@ + titled(title@, items.deep_view(), plain_lines(items.deep_view())),
{
    let ghost before = out@;
    assert(items@.len() == items.deep_view().len());
    if items.len() > 0 {
        out.append(title);
        push_plain(out, items);
    }
    assert(out@ =~= before + titled(
        title@,
        items.deep_view(),
        plain_lines(items.deep_view()),
    ));
}

/// The first lines of an item.
#[verifier::opaque]
pub open spec fn item_head_text(item: NextItemModel) -> Seq<char> {
    let t = "\n## ["@
        + decimal(item.rank as int)
        + "] "@
        + item.title
        + "\n- Source: `"@
        + item.source
        + "`\n- ID: `"@
        + item.id
        + "`\n"@;
    let t = match item.target_id {
        Some(id) => {
            let t = t + "- Target: `"@ + id + "`\n"@;
            t
        },
        None => {
            t
        },
    };
    let t = t
        + "- Tier: `T"@
        + decimal(item.tier as int)
        + "`\n- Estimated confidence impact: `"@
        + plus_decimal(item.estimated_confidence_impact as int)
        + "`\n- Reason codes: `"@
        + joined(item.reason_codes, ", "@)
        + "`\n- Action: "@
        + item.action
        + "\n"@;
    t
}

fn item_head(item: &NextItem) -> (r: String)
    ensures
        r@ == item_head_text(item.deep_view()),
{
    proof {
        reveal(item_head_text);
    }
    let mut out = owned("\n## [");
    out.append(print_usize(item.rank).as_str());
    out.append("] ");
    out.append(item.title.as_str());
    out.append("\n- Source: `");
    out.append(item.source.as_str());
    out.append("`\n- ID: `");
    out.append(item.id.as_str());
    out.append("`\n");
    if let Some(id) = &item.target_id {
        out.append("- Target: `");
        out.append(id.as_str());
        out.append("`\n");
    }
    out.append("- Tier: `T");
    out.append(print_u8(item.tier).as_str());
    out.append("`\n- Estimated confidence impact: `");
    out.append(print_plus(item.estimated_confidence_impact as i64).as_str());
    out.append("`\n- Reason codes: `");
    out.append(join(&item.reason_codes, ", ").as_str());
    out.append("`\n- Action: ");
    out.append(item.action.as_str());
    out.append("\n");
    out
}

/// An item in words.
pub open spec fn item_words(item: NextItemModel) -> Seq<char> {
    item_head_text(item) + titled(
        "- Proof commands:\n"@,
        item.proof_commands,
        quoted_lines(item.proof_commands),
    ) + titled("- Done when:\n"@, item.done_when, plain_lines(item.done_when)) + titled(
        "- Why this is next:\n"@,
        item.explanation,
        plain_lines(item.explanation),
    )
}

fn push_item(out: &mut String, item: &NextItem)
    ensures
        final(out)@ == old(out)@ + item_words(item.deep_view()),
{
    let ghost before = out@;
    out.append(item_head(item).as_str());
    push_titled_quoted(out, "- Proof commands:\n", &item.proof_commands);
    push_titled_plain(out, "- Done when:\n", &item.done_when);
    push_titled_plain(out, "- Why this is next:\n", &item.explanation);
    assert(out@ =~= before + item_words(item.deep_view()));
}

/// Items in words.
pub open spec fn all_item_words(items: Seq<NextItemModel>) -> Seq<char>
    decreases items.len(),
{
    if items.len() == 0 {
        Seq::empty()
    } else {
        all_item_words(items.drop_last()) + item_words(items.last())
    }
}

fn push_items(out: &mut String, items: &Vec<NextItem>)
    ensures
        final(out)@ == old(out)@ + all_item_words(items.deep_view()),
{
    let ghost before = out@;
    let ghost all = items.deep_view();
    let mut i: usize = 0;
    assert(out@ == before + all_item_words(all.take(0)));
    while i < items.len()
        invariant
            i <= items@.len(),
            all == items.deep_view(),
            out@ == before + all_item_words(all.take(i as int)),
        decreases items@.len() - i,
    {
        proof {
            lemma_take_next(all, i as int);
        }
        let ghost so_far = out@;
        push_item(out, &items[i]);
        assert(out@ =~= before + (all_item_words(all.take(i as int)) + item_words(all[i as int])));
        i = i + 1;
        assert(out@ == before + all_item_words(all.take(i as int)));
    }
    proof {
        lemma_take_all(all);
    }
}

/// The first lines of a queue.
#[verifier::opaque]
pub open spec fn queue_head_text(queue: NextQueueModel) -> Seq<char> {
    let t = "# veritas next\n\n- Source: `"@
        + queue.source
        + "`\n- Queue size: `"@
        + decimal(queue.total_candidates as int)
        + "`\n- Returned: `"@
        + decimal(queue.returned as int)
        + "`\n"@;
    let t = if queue.items.len() == 0 {
        let t = t
            + "\nNo active findings or selected evolution candidates. Run `veritas verify` or keep this report as the current baseline.\n"@;
        t
    } else {
        t
    };
    t
}

fn queue_head(queue: &NextQueue) -> (r: String)
    ensures
        r@ == queue_head_text(queue.deep_view()),
{
    proof {
        reveal(queue_head_text);
    }
    assert(queue.items@.len() == queue.items.deep_view().len());
    let mut out = owned("# veritas next\n\n- Source: `");
    out.append(queue.source.as_str());
    out.append("`\n- Queue size: `");
    out.append(print_usize(queue.total_candidates).as_str());
    out.append("`\n- Returned: `");
    out.append(print_usize(queue.returned).as_str());
    out.append("`\n");
    if queue.items.len() == 0 {
        out.append("\nNo active findings or selected evolution candidates. Run `veritas verify` or keep this report as the current baseline.\n");
    }
    out
}

/// A queue in words.
pub open spec fn queue_words(queue: NextQueueModel) -> Seq<char> {
    queue_head_text(queue) + all_item_words(queue.items)
}

fn render_queue(queue: &NextQueue) -> (r: String)
    ensures
        r@ == queue_words(queue.deep_view()),
{
    let mut out = queue_head(queue);
    push_items(&mut out, &queue.items);
    out
}

/// An item as a JSON document; an explanation that is not there is left out.
pub open spec fn next_item_document(v: NextItemModel) -> JsonModel {
    let members = seq![
        ("rank"@, JsonModel::Number(decimal(v.rank as int))),
        ("source"@, JsonModel::Text(v.source)),
        ("id"@, JsonModel::Text(v.id)),
        ("target_id"@, text_or_null(v.target_id)),
        ("tier"@, JsonModel::Number(decimal(v.tier as int))),
        (
            "estimated_confidence_impact"@,
            JsonModel::Number(signed_decimal(v.estimated_confidence_impact as int)),
        ),
        ("reason_codes"@, texts_model(v.reason_codes)),
        ("title"@, JsonModel::Text(v.title)),
        ("action"@, JsonModel::Text(v.action)),
        ("proof_commands"@, texts_model(v.proof_commands)),
        ("done_when"@, texts_model(v.done_when)),
    ];
    JsonModel::Object(
        if v.explanation.len() == 0 {
            members
        } else {
            members.push(("explanation"@, texts_model(v.explanation)))
        },
    )
}

/// A next item as a JSON value.
pub fn next_item_json(v: &NextItem) -> (r: Json)
    ensures
        r.deep_view() == next_item_document(v.deep_view()),
{
    let mut members = Members::new();
    members.put("rank", number(v.rank as u64));
    members.put("source", text(v.source.as_str()));
    members.put("id", text(v.id.as_str()));
    members.put("target_id", optional_text(&v.target_id));
    members.put("tier", number(v.tier as u64));
    members.put("estimated_confidence_impact", signed(v.estimated_confidence_impact as i64));
    members.put("reason_codes", texts(&v.reason_codes));
    members.put("title", text(v.title.as_str()));
    members.put("action", text(v.action.as_str()));
    members.put("proof_commands", texts(&v.proof_commands));
    members.put("done_when", texts(&v.done_when));
    assert(v.explanation@.len() == v.explanation.deep_view().len());
    if v.explanation.len() > 0 {
        members.put("explanation", texts(&v.explanation));
    }
    assert(members.model() =~= next_item_document(v.deep_view())->Object_0);
    members.finish()
}

/// The JSON documents of next item records.
pub open spec fn next_item_documents(items: Seq<NextItemModel>) -> Seq<JsonModel> {
    items.map_values(|v: NextItemModel| next_item_document(v))
}

/// A JSON array of next item records.
pub fn next_item_list(items: &Vec<NextItem>) -> (r: Json)
    ensures
        r.deep_view() == JsonModel::Array(next_item_documents(items.deep_view())),
{
    let mut out = Items::new();
    let ghost all = items.deep_view();
    let mut i: usize = 0;
    assert(out.model() =~= next_item_documents(all.take(0)));
    while i < items.len()
        invariant
            i <= items@.len(),
            all == items.deep_view(),
            out.model() == next_item_documents(all.take(i as int)),
        decreases items@.len() - i,
    {
        out.put(next_item_json(&items[i]));
        proof {
            lemma_take_next(all, i as int);
        }
        assert(out.model() =~= next_item_documents(all.take(i + 1)));
        i = i + 1;
    }
    proof {
        lemma_take_all(all);
    }
    out.finish()
}

/// A next queue as a JSON document.
pub open spec fn next_queue_document(v: NextQueueModel) -> JsonModel {
    JsonModel::Object(
        seq![
            ("source"@, JsonModel::Text(v.source)),
            ("total_candidates"@, JsonModel::Number(decimal(v.total_candidates as int))),
            ("returned"@, JsonModel::Number(decimal(v.returned as int))),
            ("items"@, JsonModel::Array(next_item_documents(v.items))),
        ],
    )
}

/// A next queue as a JSON value.
pub fn next_queue_json(v: &NextQueue) -> (r: Json)
    ensures
        r.deep_view() == next_queue_document(v.deep_view()),
{
    let mut members = Members::new();
    members.put("source", text(v.source.as_str()));
    members.put("total_candidates", number(v.total_candidates as u64));
    members.put("returned", number(v.returned as u64));
    members.put("items", next_item_list(&v.items));
    assert(members.model() =~= next_queue_document(v.deep_view())->Object_0);
    members.finish()
}

/// What a queue prints.
pub fn print_next_queue(queue: &NextQueue, format: OutputFormat) -> (r: Result<String, String>)
    ensures
        gives(
            r,
            printed(
                format,
                queue_words(queue.deep_view()),
                next_queue_document(queue.deep_view()),
                "next"@,
            ),
        ),
{
    match format {
        OutputFormat::Markdown => Ok(render_queue(queue)),
        OutputFormat::Json => Ok(print_document(&next_queue_json(queue))),
        OutputFormat::Sarif => Err(unsupported_format("next")),
        OutputFormat::Junit => Err(unsupported_format("next")),
    }
}

} // verus!
