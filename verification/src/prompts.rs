//! Texts for those who repair what a report found.
use vstd::prelude::*;

use crate::api::{
    push_failure, push_generated_artifact, ArtifactKind, Failure, FailureModel, GeneratedArtifact,
    GeneratedArtifactModel, VerificationReport, VerificationReportModel,
};
use crate::corpus::CorpusReplay;
use crate::json::{
    as_signed, as_text, as_unsigned, at, clone_json, parse, parsed_json, Json, JsonModel,
};
use crate::next::{
    plain_lines, push_plain, push_quoted, quoted_lines, selected_candidates,
    selected_evolution_candidates, titled,
};
use crate::number::{decimal, plus_decimal, print_plus, print_u128, print_u64, print_u8};
use crate::records::{
    push_evolution_candidate_record, AssertionCandidate, CorpusEntry, EvolutionCandidateRecord,
    EvolutionCandidateRecordModel, EvolutionSuite,
};
use crate::seqs::{cat2, cat3, lemma_take_all, lemma_take_next};
use crate::split::{at_most, first_texts, push_text};
use crate::text::{or_text, owned, text_or};

verus! {

// ---------------------------------------------------------------------------
// Trends of mutation
// ---------------------------------------------------------------------------
fn child(value: &Json, name: &str) -> (r: Json)
    ensures
        r.deep_view() == at(value.deep_view(), name@),
{
    match value.get(name) {
        Some(part) => clone_json(part),
        None => Json::Null,
    }
}

fn number_below(value: &Json, name: &str) -> (r: Option<u64>)
    ensures
        match as_unsigned(at(value.deep_view(), name@)) {
            Some(n) => r matches Some(k) && k == n,
            None => r is None,
        },
{
    child(value, name).as_u64()
}

fn signed_below(value: &Json, name: &str) -> (r: Option<i64>)
    ensures
        match as_signed(at(value.deep_view(), name@)) {
            Some(n) => r matches Some(k) && k == n,
            None => r is None,
        },
{
    child(value, name).as_i64()
}

/// A number, or zero where there is none.
pub open spec fn or_zero(n: Option<int>) -> int {
    match n {
        Some(k) => k,
        None => 0,
    }
}

fn count_below(value: &Json, name: &str) -> (r: u64)
    ensures
        r == or_zero(as_unsigned(at(value.deep_view(), name@))),
{
    match number_below(value, name) {
        Some(n) => n,
        None => 0,
    }
}

/// The score of the mutants of a trend.
pub open spec fn trend_score(mutation: JsonModel) -> Seq<char> {
    match as_unsigned(at(mutation, "score_percent"@)) {
        Some(score) => decimal(score) + "%"@,
        None => "n/a"@,
    }
}

fn score_of_trend(mutation: &Json) -> (r: String)
    ensures
        r@ == trend_score(mutation.deep_view()),
{
    match number_below(mutation, "score_percent") {
        Some(score) => cat2(print_u64(score).as_str(), "%"),
        None => owned("n/a"),
    }
}

/// The score of the mutants of a trend that matter for correctness, where it is known.
pub open spec fn trend_correctness(mutation: JsonModel) -> Seq<char> {
    match as_unsigned(at(mutation, "correctness_score_percent"@)) {
        Some(score) => ", correctness "@ + decimal(score) + "%"@,
        None => Seq::empty(),
    }
}

fn correctness_of_trend(mutation: &Json) -> (r: String)
    ensures
        r@ == trend_correctness(mutation.deep_view()),
{
    match number_below(mutation, "correctness_score_percent") {
        Some(score) => cat3(", correctness ", print_u64(score).as_str(), "%"),
        None => {
            let none = String::new();
            assert(none@ =~= Seq::<char>::empty());
            none
        },
    }
}

/// How many probes for brittle tests of a trend survived, where it is known.
pub open spec fn trend_brittleness(mutation: JsonModel) -> Seq<char> {
    match as_unsigned(at(mutation, "brittleness_survival_percent"@)) {
        Some(score) => ", brittleness survival "@ + decimal(score) + "% (killed "@ + decimal(
            or_zero(as_unsigned(at(mutation, "brittleness_killed"@))),
        ) + "/"@ + decimal(or_zero(as_unsigned(at(mutation, "brittleness_executed"@)))) + ")"@,
        None => Seq::empty(),
    }
}

fn brittleness_of_trend(mutation: &Json) -> (r: String)
    ensures
        r@ == trend_brittleness(mutation.deep_view()),
{
    match number_below(mutation, "brittleness_survival_percent") {
        Some(score) => {
            let mut out = owned(", brittleness survival ");
            out.append(print_u64(score).as_str());
            out.append("% (killed ");
            out.append(print_u64(count_below(mutation, "brittleness_killed")).as_str());
            out.append("/");
            out.append(print_u64(count_below(mutation, "brittleness_executed")).as_str());
            out.append(")");
            out
        },
        None => {
            let none = String::new();
            assert(none@ =~= Seq::<char>::empty());
            none
        },
    }
}

/// How the score of a trend differs from its baseline, where that is known.
pub open spec fn trend_baseline(value: JsonModel) -> Seq<char> {
    match as_signed(at(at(value, "baseline_delta"@), "mutation_score_delta"@)) {
        Some(delta) => ", baseline score delta "@ + plus_decimal(delta),
        None => Seq::empty(),
    }
}

fn baseline_of_trend(value: &Json) -> (r: String)
    ensures
        r@ == trend_baseline(value.deep_view()),
{
    match signed_below(&child(value, "baseline_delta"), "mutation_score_delta") {
        Some(delta) => cat2(", baseline score delta ", print_plus(delta).as_str()),
        None => {
            let none = String::new();
            assert(none@ =~= Seq::<char>::empty());
            none
        },
    }
}

/// A trend of mutation in words.
pub open spec fn trend_words(artifact: GeneratedArtifactModel, value: JsonModel) -> Seq<char> {
    let mutation = at(value, "mutation"@);
    "`"@ + or_text(as_text(at(value, "language"@)), artifact.language) + "` mutation score `"@
        + trend_score(mutation) + "` over `"@ + decimal(
        or_zero(as_unsigned(at(mutation, "executed"@))),
    ) + "` executed mutants, survivors `"@ + decimal(
        or_zero(as_unsigned(at(mutation, "survived"@))),
    ) + "`"@ + trend_correctness(mutation) + trend_brittleness(mutation) + trend_baseline(value)
        + "; artifact `"@ + artifact.path + "`"@
}

fn describe_trend(artifact: &GeneratedArtifact, value: &Json) -> (r: String)
    ensures
        r@ == trend_words(artifact.deep_view(), value.deep_view()),
{
    let mutation = child(value, "mutation");
    let mut out = owned("`");
    match child(value, "language").as_str() {
        Some(language) => {
            out.append(language.as_str());
        },
        None => {
            out.append(artifact.language.as_str());
        },
    }
    out.append("` mutation score `");
    out.append(score_of_trend(&mutation).as_str());
    out.append("` over `");
    out.append(print_u64(count_below(&mutation, "executed")).as_str());
    out.append("` executed mutants, survivors `");
    out.append(print_u64(count_below(&mutation, "survived")).as_str());
    out.append("`");
    out.append(correctness_of_trend(&mutation).as_str());
    out.append(brittleness_of_trend(&mutation).as_str());
    out.append(baseline_of_trend(value).as_str());
    out.append("; artifact `");
    out.append(artifact.path.as_str());
    out.append("`");
    out
}

/// What an artifact says of the trend of mutation, where it is about that.
pub open spec fn trend_of(artifact: GeneratedArtifactModel) -> Option<Seq<char>> {
    if artifact.kind == ArtifactKind::MutationTrend {
        match parsed_json(artifact.contents) {
            Some(value) => Some(trend_words(artifact, value)),
            None => None,
        }
    } else {
        None
    }
}

fn find_trend(artifact: &GeneratedArtifact) -> (r: Option<String>)
    ensures
        r.deep_view() == trend_of(artifact.deep_view()),
{
    if artifact.kind == ArtifactKind::MutationTrend {
        match parse(artifact.contents.as_str()) {
            Some(value) => Some(describe_trend(artifact, &value)),
            None => None,
        }
    } else {
        None
    }
}

/// What artifacts say of the trend of mutation.
pub open spec fn trends_in(items: Seq<GeneratedArtifactModel>) -> Seq<Seq<char>>
    decreases items.len(),
{
    if items.len() == 0 {
        Seq::empty()
    } else {
        let before = trends_in(items.drop_last());
        match trend_of(items.last()) {
            Some(one) => before.push(one),
            None => before,
        }
    }
}

fn trends_of_artifacts(items: &Vec<GeneratedArtifact>) -> (r: Vec<String>)
    ensures
        r.deep_view() == trends_in(items.deep_view()),
{
    let mut out: Vec<String> = Vec::new();
    let ghost all = items.deep_view();
    let mut i: usize = 0;
    assert(out.deep_view() == trends_in(all.take(0)));
    while i < items.len()
        invariant
            i <= items@.len(),
            all == items.deep_view(),
            out.deep_view() == trends_in(all.take(i as int)),
        decreases items@.len() - i,
    {
        proof {
            lemma_take_next(all, i as int);
        }
        match find_trend(&items[i]) {
            Some(one) => {
                push_text(&mut out, one);
            },
            None => {},
        }
        i = i + 1;
    }
    proof {
        lemma_take_all(all);
    }
    out
}

/// What a report says of the trend of mutation.
pub fn mutation_trend_summaries(report: &VerificationReport) -> (r: Vec<String>)
    ensures
        r.deep_view() == trends_in(report.deep_view().artifacts),
{
    trends_of_artifacts(&report.artifacts)
}

// ---------------------------------------------------------------------------
// Repair prompt
// ---------------------------------------------------------------------------
/// The lines of a finding.
#[verifier::opaque]
pub open spec fn finding_lines_text(finding: FailureModel) -> Seq<char> {
    let t = "- `"@
        + or_text(finding.id, "unassigned"@)
        + "` "@
        + finding.severity.name_text()
        + ": "@
        + finding.message
        + "\n"@;
    let t = match finding.target_id {
        Some(id) => {
            let t = t + "  Target: `"@ + id + "`\n"@;
            t
        },
        None => {
            t
        },
    };
    let t = t + "  Command: `"@ + finding.command + "`\n"@;
    let t = match finding.repro {
        Some(repro) => {
            let t = t + "  Repro: `"@ + repro.command + "`\n"@;
            let t = match repro.path {
                Some(path) => {
                    let t = t + "  Path: `"@ + path + "`\n"@;
                    t
                },
                None => {
                    t
                },
            };
            t
        },
        None => {
            t
        },
    };
    t
}

fn finding_lines(finding: &Failure) -> (r: String)
    ensures
        r@ == finding_lines_text(finding.deep_view()),
{
    proof {
        reveal(finding_lines_text);
    }
    let mut out = owned("- `");
    out.append(text_or(&finding.id, "unassigned").as_str());
    out.append("` ");
    out.append(finding.severity.name());
    out.append(": ");
    out.append(finding.message.as_str());
    out.append("\n");
    if let Some(id) = &finding.target_id {
        out.append("  Target: `");
        out.append(id.as_str());
        out.append("`\n");
    }
    out.append("  Command: `");
    out.append(finding.command.as_str());
    out.append("`\n");
    if let Some(repro) = &finding.repro {
        out.append("  Repro: `");
        out.append(repro.command.as_str());
        out.append("`\n");
        if let Some(path) = &repro.path {
            out.append("  Path: `");
            out.append(path.as_str());
            out.append("`\n");
        }
    }
    out
}

/// The lines of findings.
pub open spec fn all_finding_lines(items: Seq<FailureModel>) -> Seq<char>
    decreases items.len(),
{
    if items.len() == 0 {
        Seq::empty()
    } else {
        all_finding_lines(items.drop_last()) + finding_lines_text(items.last())
    }
}

fn push_findings(out: &mut String, items: &Vec<Failure>)
    ensures
        final(out)@ == old(out)@ + all_finding_lines(items.deep_view()),
{
    let ghost before = out@;
    let ghost all = items.deep_view();
    let mut i: usize = 0;
    assert(out@ == before + all_finding_lines(all.take(0)));
    while i < items.len()
        invariant
            i <= items@.len(),
            all == items.deep_view(),
            out@ == before + all_finding_lines(all.take(i as int)),
        decreases items@.len() - i,
    {
        proof {
            lemma_take_next(all, i as int);
        }
        let ghost so_far = out@;
        out.append(finding_lines(&items[i]).as_str());
        assert(out@ =~= before + (all_finding_lines(all.take(i as int)) + finding_lines_text(all[i as int])));
        i = i + 1;
        assert(out@ == before + all_finding_lines(all.take(i as int)));
    }
    proof {
        lemma_take_all(all);
    }
}

/// Whether artifacts of a kind are of use in a repair.
pub open spec fn helps_repair(kind: ArtifactKind) -> bool {
    match kind {
        ArtifactKind::AssertionCandidate => true,
        ArtifactKind::CorpusEntry => true,
        ArtifactKind::CorpusReplay => true,
        ArtifactKind::DifferentialReplay => true,
        ArtifactKind::ReplayResult => true,
        ArtifactKind::EvolutionCandidate => true,
        ArtifactKind::EvolutionSuite => true,
        ArtifactKind::RegressionTest => true,
        ArtifactKind::MutationCampaign => true,
        ArtifactKind::BudgetPlan => true,
        _ => false,
    }
}

fn is_repair_kind(kind: ArtifactKind) -> (r: bool)
    ensures
        r == helps_repair(kind),
{
    match kind {
        ArtifactKind::AssertionCandidate => true,
        ArtifactKind::CorpusEntry => true,
        ArtifactKind::CorpusReplay => true,
        ArtifactKind::DifferentialReplay => true,
        ArtifactKind::ReplayResult => true,
        ArtifactKind::EvolutionCandidate => true,
        ArtifactKind::EvolutionSuite => true,
        ArtifactKind::RegressionTest => true,
        ArtifactKind::MutationCampaign => true,
        ArtifactKind::BudgetPlan => true,
        _ => false,
    }
}

/// The artifacts that are of use in a repair.
pub open spec fn repair_artifacts_in(
    items: Seq<GeneratedArtifactModel>,
) -> Seq<GeneratedArtifactModel>
    decreases items.len(),
{
    if items.len() == 0 {
        Seq::empty()
    } else if helps_repair(items.last().kind) {
        repair_artifacts_in(items.drop_last()).push(items.last())
    } else {
        repair_artifacts_in(items.drop_last())
    }
}

fn repair_artifacts(items: &Vec<GeneratedArtifact>) -> (r: Vec<GeneratedArtifact>)
    ensures
        r.deep_view() == repair_artifacts_in(items.deep_view()),
{
    let mut out: Vec<GeneratedArtifact> = Vec::new();
    let ghost all = items.deep_view();
    let mut i: usize = 0;
    assert(out.deep_view() == repair_artifacts_in(all.take(0)));
    while i < items.len()
        invariant
            i <= items@.len(),
            all == items.deep_view(),
            out.deep_view() == repair_artifacts_in(all.take(i as int)),
        decreases items@.len() - i,
    {
        proof {
            lemma_take_next(all, i as int);
        }
        if is_repair_kind(items[i].kind) {
            push_generated_artifact(&mut out, items[i].clone());
        }
        i = i + 1;
    }
    proof {
        lemma_take_all(all);
    }
    out
}

/// The line of an artifact.
pub open spec fn artifact_line_text(artifact: GeneratedArtifactModel) -> Seq<char> {
    let t = "- `"@
        + artifact.kind.name_text()
        + "` `"@
        + artifact.path
        + "`: "@
        + artifact.description
        + "\n"@;
    t
}

fn artifact_line(artifact: &GeneratedArtifact) -> (r: String)
    ensures
        r@ == artifact_line_text(artifact.deep_view()),
{
    let mut out = owned("- `");
    out.append(artifact.kind.name());
    out.append("` `");
    out.append(artifact.path.as_str());
    out.append("`: ");
    out.append(artifact.description.as_str());
    out.append("\n");
    out
}

/// The lines of artifacts.
pub open spec fn all_artifact_lines(items: Seq<GeneratedArtifactModel>) -> Seq<char>
    decreases items.len(),
{
    if items.len() == 0 {
        Seq::empty()
    } else {
        all_artifact_lines(items.drop_last()) + artifact_line_text(items.last())
    }
}

fn push_artifacts(out: &mut String, items: &Vec<GeneratedArtifact>)
    ensures
        final(out)@ == old(out)@ + all_artifact_lines(items.deep_view()),
{
    let ghost before = out@;
    let ghost all = items.deep_view();
    let mut i: usize = 0;
    assert(out@ == before + all_artifact_lines(all.take(0)));
    while i < items.len()
        invariant
            i <= items@.len(),
            all == items.deep_view(),
            out@ == before + all_artifact_lines(all.take(i as int)),
        decreases items@.len() - i,
    {
        proof {
            lemma_take_next(all, i as int);
        }
        let ghost so_far = out@;
        out.append(artifact_line(&items[i]).as_str());
        assert(out@ =~= before + (all_artifact_lines(all.take(i as int)) + artifact_line_text(all[i as int])));
        i = i + 1;
        assert(out@ == before + all_artifact_lines(all.take(i as int)));
    }
    proof {
        lemma_take_all(all);
    }
}

fn first_findings(items: &Vec<Failure>, n: usize) -> (r: Vec<Failure>)
    ensures
        r.deep_view() == at_most(items.deep_view(), n as int),
{
    let ghost all = items.deep_view();
    let mut out: Vec<Failure> = Vec::new();
    let mut i: usize = 0;
    assert(out.deep_view() =~= all.take(0));
    while i < items.len() && i < n
        invariant
            i <= items@.len(),
            i <= n,
            all == items.deep_view(),
            out.deep_view() == all.take(i as int),
        decreases items@.len() - i,
    {
        assert(all[i as int] == items@[i as int].deep_view());
        push_failure(&mut out, items[i].clone());
        i = i + 1;
        assert(out.deep_view() =~= all.take(i as int));
    }
    assert(all.take(i as int) =~= at_most(all, n as int));
    out
}

fn first_artifacts(items: &Vec<GeneratedArtifact>, n: usize) -> (r: Vec<GeneratedArtifact>)
    ensures
        r.deep_view() == at_most(items.deep_view(), n as int),
{
    let ghost all = items.deep_view();
    let mut out: Vec<GeneratedArtifact> = Vec::new();
    let mut i: usize = 0;
    assert(out.deep_view() =~= all.take(0));
    while i < items.len() && i < n
        invariant
            i <= items@.len(),
            i <= n,
            all == items.deep_view(),
            out.deep_view() == all.take(i as int),
        decreases items@.len() - i,
    {
        assert(all[i as int] == items@[i as int].deep_view());
        push_generated_artifact(&mut out, items[i].clone());
        i = i + 1;
        assert(out.deep_view() =~= all.take(i as int));
    }
    assert(all.take(i as int) =~= at_most(all, n as int));
    out
}

fn first_candidates(
    items: &Vec<EvolutionCandidateRecord>,
    n: usize,
) -> (r: Vec<EvolutionCandidateRecord>)
    ensures
        r.deep_view() == at_most(items.deep_view(), n as int),
{
    let ghost all = items.deep_view();
    let mut out: Vec<EvolutionCandidateRecord> = Vec::new();
    let mut i: usize = 0;
    assert(out.deep_view() =~= all.take(0));
    while i < items.len() && i < n
        invariant
            i <= items@.len(),
            i <= n,
            all == items.deep_view(),
            out.deep_view() == all.take(i as int),
        decreases items@.len() - i,
    {
        assert(all[i as int] == items@[i as int].deep_view());
        push_evolution_candidate_record(&mut out, items[i].clone());
        i = i + 1;
        assert(out.deep_view() =~= all.take(i as int));
    }
    assert(all.take(i as int) =~= at_most(all, n as int));
    out
}

/// The first lines of a candidate.
#[verifier::opaque]
pub open spec fn candidate_head_text(candidate: EvolutionCandidateRecordModel) -> Seq<char> {
    let t = "- `"@
        + candidate.id
        + "` `"@
        + candidate.kind.name_text()
        + "` fitness `"@
        + decimal(candidate.fitness.score_percent as int)
        + "%`: "@
        + candidate.proposed_action
        + "\n  Target: `"@
        + candidate.target_id
        + "`\n"@;
    t
}

fn candidate_head(candidate: &EvolutionCandidateRecord) -> (r: String)
    ensures
        r@ == candidate_head_text(candidate.deep_view()),
{
    proof {
        reveal(candidate_head_text);
    }
    let mut out = owned("- `");
    out.append(candidate.id.as_str());
    out.append("` `");
    out.append(candidate.kind.name());
    out.append("` fitness `");
    out.append(print_u8(candidate.fitness.score_percent).as_str());
    out.append("%`: ");
    out.append(candidate.proposed_action.as_str());
    out.append("\n  Target: `");
    out.append(candidate.target_id.as_str());
    out.append("`\n");
    out
}

/// A candidate in words.
pub open spec fn candidate_words(candidate: EvolutionCandidateRecordModel) -> Seq<char> {
    candidate_head_text(candidate) + titled(
        "  Proof commands:\n"@,
        candidate.proof_commands,
        quoted_lines(at_most(candidate.proof_commands, 3)),
    ) + if candidate.done_when.len() > 0 {
        "  Done when:\n"@ + plain_lines(at_most(candidate.done_when, 3))
    } else {
        "  Done when: "@ + candidate.keep_if + "\n"@
    }
}

fn push_candidate(out: &mut String, candidate: &EvolutionCandidateRecord)
    ensures
        final(out)@ == old(out)@ + candidate_words(candidate.deep_view()),
{
    let ghost before = out@;
    assert(candidate.proof_commands@.len() == candidate.proof_commands.deep_view().len());
    assert(candidate.done_when@.len() == candidate.done_when.deep_view().len());
    out.append(candidate_head(candidate).as_str());
    if candidate.proof_commands.len() > 0 {
        out.append("  Proof commands:\n");
        push_quoted(out, &first_texts(&candidate.proof_commands, 3));
    }
    if candidate.done_when.len() > 0 {
        out.append("  Done when:\n");
        push_plain(out, &first_texts(&candidate.done_when, 3));
    } else {
        out.append("  Done when: ");
        out.append(candidate.keep_if.as_str());
        out.append("\n");
    }
    assert(out@ =~= before + candidate_words(candidate.deep_view()));
}

/// Candidates in words.
pub open spec fn all_candidate_words(items: Seq<EvolutionCandidateRecordModel>) -> Seq<char>
    decreases items.len(),
{
    if items.len() == 0 {
        Seq::empty()
    } else {
        all_candidate_words(items.drop_last()) + candidate_words(items.last())
    }
}

fn push_candidates(out: &mut String, items: &Vec<EvolutionCandidateRecord>)
    ensures
        final(out)@ == old(out)@ + all_candidate_words(items.deep_view()),
{
    let ghost before = out@;
    let ghost all = items.deep_view();
    let mut i: usize = 0;
    assert(out@ == before + all_candidate_words(all.take(0)));
    while i < items.len()
        invariant
            i <= items@.len(),
            all == items.deep_view(),
            out@ == before + all_candidate_words(all.take(i as int)),
        decreases items@.len() - i,
    {
        proof {
            lemma_take_next(all, i as int);
        }
        let ghost so_far = out@;
        push_candidate(out, &items[i]);
        assert(out@ =~= before + (all_candidate_words(all.take(i as int)) + candidate_words(all[i as int])));
        i = i + 1;
        assert(out@ == before + all_candidate_words(all.take(i as int)));
    }
    proof {
        lemma_take_all(all);
    }
}

/// The lines of trends.
pub open spec fn dashed_lines(items: Seq<Seq<char>>) -> Seq<char>
    decreases items.len(),
{
    if items.len() == 0 {
        Seq::empty()
    } else {
        dashed_lines(items.drop_last()) + ("- "@ + items.last() + "\n"@)
    }
}

/// The lines of trends.
pub fn push_dashed(out: &mut String, items: &Vec<String>)
    ensures
        final(out)@ == old(out)@ + dashed_lines(items.deep_view()),
{
    let ghost before = out@;
    let ghost all = items.deep_view();
    let mut i: usize = 0;
    assert(out@ == before + dashed_lines(all.take(0)));
    while i < items.len()
        invariant
            i <= items@.len(),
            all == items.deep_view(),
            out@ == before + dashed_lines(all.take(i as int)),
        decreases items@.len() - i,
    {
        proof {
            lemma_take_next(all, i as int);
        }
        let ghost so_far = out@;
        out.append("- ");
        out.append(items[i].as_str());
        out.append("\n");
        assert(out@ =~= before + (dashed_lines(all.take(i as int)) + ("- "@ + all[i as int] + "\n"@)));
        i = i + 1;
        assert(out@ == before + dashed_lines(all.take(i as int)));
    }
    proof {
        lemma_take_all(all);
    }
}

/// The findings to repair, ten at most.
#[verifier::opaque]
pub open spec fn findings_section(report: VerificationReportModel) -> Seq<char> {
    "# veritas AI repair prompt\n\nUse this as the next verification repair loop for the current repo.\n\n## Commands\n\n```bash\nveritas verify --changed --profile ci\nveritas next --explain\nveritas score\nveritas replay-corpus --dry-run\nveritas evolve --dry-run\n```\n\n## Findings\n\n"@ + if report.findings.len() == 0 {
        "- No active findings. Focus on improving coverage, replay, and mutation score without broad rewrites.\n"@
    } else {
        all_finding_lines(at_most(report.findings, 10))
    }
}

fn push_findings_section(out: &mut String, report: &VerificationReport)
    ensures
        final(out)@ == old(out)@ + findings_section(report.deep_view()),
{
    proof {
        reveal(findings_section);
    }
    let ghost before = out@;
    let findings = &report.findings;
    assert(findings@.len() == findings.deep_view().len());
    out.append("# veritas AI repair prompt\n\nUse this as the next verification repair loop for the current repo.\n\n## Commands\n\n```bash\nveritas verify --changed --profile ci\nveritas next --explain\nveritas score\nveritas replay-corpus --dry-run\nveritas evolve --dry-run\n```\n\n## Findings\n\n");
    if findings.len() == 0 {
        out.append("- No active findings. Focus on improving coverage, replay, and mutation score without broad rewrites.\n");
    } else {
        push_findings(out, &first_findings(findings, 10));
    }
    assert(out@ =~= before + findings_section(report.deep_view()));
}

/// The artifacts that are of use in a repair, sixteen at most.
#[verifier::opaque]
pub open spec fn artifacts_section(report: VerificationReportModel) -> Seq<char> {
    "\n## Artifacts To Inspect\n\n"@ + if repair_artifacts_in(report.artifacts).len() == 0 {
        "- No AI-facing verification artifacts were recorded in the latest report.\n"@
    } else {
        all_artifact_lines(at_most(repair_artifacts_in(report.artifacts), 16))
    }
}

fn push_artifacts_section(out: &mut String, report: &VerificationReport)
    ensures
        final(out)@ == old(out)@ + artifacts_section(report.deep_view()),
{
    proof {
        reveal(artifacts_section);
    }
    let ghost before = out@;
    let artifacts = repair_artifacts(&report.artifacts);
    assert(artifacts@.len() == artifacts.deep_view().len());
    out.append("\n## Artifacts To Inspect\n\n");
    if artifacts.len() == 0 {
        out.append("- No AI-facing verification artifacts were recorded in the latest report.\n");
    } else {
        push_artifacts(out, &first_artifacts(&artifacts, 16));
    }
    assert(out@ =~= before + artifacts_section(report.deep_view()));
}

/// The selected candidates, eight at most.
#[verifier::opaque]
pub open spec fn candidates_section(report: VerificationReportModel) -> Seq<char> {
    "\n## Selected Evolution Candidates\n\n"@ + if selected_candidates(report).len() == 0 {
        "- No selected evolution candidates were recorded. Use `veritas evolve --dry-run` after the next verification run.\n"@
    } else {
        all_candidate_words(at_most(selected_candidates(report), 8))
    }
}

fn push_candidates_section(out: &mut String, report: &VerificationReport)
    ensures
        final(out)@ == old(out)@ + candidates_section(report.deep_view()),
{
    proof {
        reveal(candidates_section);
    }
    let ghost before = out@;
    let candidates = selected_evolution_candidates(report);
    assert(candidates@.len() == candidates.deep_view().len());
    out.append("\n## Selected Evolution Candidates\n\n");
    if candidates.len() == 0 {
        out.append("- No selected evolution candidates were recorded. Use `veritas evolve --dry-run` after the next verification run.\n");
    } else {
        push_candidates(out, &first_candidates(&candidates, 8));
    }
    assert(out@ =~= before + candidates_section(report.deep_view()));
}

/// How to go about a repair, and the trends of mutation.
#[verifier::opaque]
pub open spec fn trends_section(report: VerificationReportModel) -> Seq<char> {
    "\n## Patch Plan\n\n1. Start with the highest-fitness selected evolution candidate or the highest-severity finding.\n2. Add the smallest owned test, property, fuzz seed, replay assertion, or regression scaffold that proves the behavior.\n3. Run the proof command named by the candidate, then `veritas verify --changed --profile ci` and `veritas score`.\n4. Keep the patch only when the done-when criteria pass, the finding disappears, the mutant dies, or the confidence score improves.\n5. Stop if the next step requires broad production rewrites without a failing proof artifact.\n\n## Mutation Trend\n\n"@ + if trends_in(report.artifacts).len() == 0 {
        "- No mutation trend artifact was recorded in the latest report.\n"@
    } else {
        dashed_lines(trends_in(report.artifacts))
    }
}

fn push_trends_section(out: &mut String, report: &VerificationReport)
    ensures
        final(out)@ == old(out)@ + trends_section(report.deep_view()),
{
    proof {
        reveal(trends_section);
    }
    let ghost before = out@;
    let trends = mutation_trend_summaries(report);
    assert(trends@.len() == trends.deep_view().len());
    out.append("\n## Patch Plan\n\n1. Start with the highest-fitness selected evolution candidate or the highest-severity finding.\n2. Add the smallest owned test, property, fuzz seed, replay assertion, or regression scaffold that proves the behavior.\n3. Run the proof command named by the candidate, then `veritas verify --changed --profile ci` and `veritas score`.\n4. Keep the patch only when the done-when criteria pass, the finding disappears, the mutant dies, or the confidence score improves.\n5. Stop if the next step requires broad production rewrites without a failing proof artifact.\n\n## Mutation Trend\n\n");
    if trends.len() == 0 {
        out.append("- No mutation trend artifact was recorded in the latest report.\n");
    } else {
        push_dashed(out, &trends);
    }
    assert(out@ =~= before + trends_section(report.deep_view()));
}

/// What to keep to in a repair.
#[verifier::opaque]
pub open spec fn rules_section(report: VerificationReportModel) -> Seq<char> {
    "\n## Repair Rules\n\n- Prefer adding the smallest owned regression, property, fuzz seed, or replay assertion before changing production code.\n- Use `.veritas/assertions`, `.veritas/corpus`, `.veritas/differential`, and `.veritas/evolution` as the work queue.\n- Keep a candidate only if the next `veritas score` improves or explains why confidence is unchanged.\n"@ + if report.quality.performance.total_ms > 0 {
        "- Current verification runtime was `"@ + decimal(
            report.quality.performance.total_ms as int,
        ) + "` ms; tune budgets if replay, coverage, or mutation dominates.\n"@
    } else {
        Seq::empty()
    }
}

fn push_rules_section(out: &mut String, report: &VerificationReport)
    ensures
        final(out)@ == old(out)@ + rules_section(report.deep_view()),
{
    proof {
        reveal(rules_section);
    }
    let ghost before = out@;
    out.append("\n## Repair Rules\n\n- Prefer adding the smallest owned regression, property, fuzz seed, or replay assertion before changing production code.\n- Use `.veritas/assertions`, `.veritas/corpus`, `.veritas/differential`, and `.veritas/evolution` as the work queue.\n- Keep a candidate only if the next `veritas score` improves or explains why confidence is unchanged.\n");
    if report.quality.performance.total_ms > 0 {
        out.append("- Current verification runtime was `");
        out.append(print_u128(report.quality.performance.total_ms).as_str());
        out.append("` ms; tune budgets if replay, coverage, or mutation dominates.\n");
    }
    assert(out@ =~= before + rules_section(report.deep_view()));
}

/// What an agent is told that is to repair what a report found.
pub open spec fn repair_prompt(report: VerificationReportModel) -> Seq<char> {
    findings_section(report) + artifacts_section(report) + candidates_section(report)
        + trends_section(report) + rules_section(report)
}

/// What an agent is told that is to repair what a report found.
pub fn render_ai_repair_prompt(report: &VerificationReport) -> (r: String)
    ensures
        r@ == repair_prompt(report.deep_view()),
{
    let mut out = String::new();
    assert(out@ =~= Seq::<char>::empty());
    push_findings_section(&mut out, report);
    push_artifacts_section(&mut out, report);
    push_candidates_section(&mut out, report);
    push_trends_section(&mut out, report);
    push_rules_section(&mut out, report);
    assert(out@ =~= repair_prompt(report.deep_view()));
    out
}

} // verus!
