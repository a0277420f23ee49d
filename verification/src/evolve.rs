//! Applying evolution candidates: which are asked for, what is written for them,
//! how the result is evaluated, and the record of each generation.
use vstd::prelude::*;

use crate::api::{
    append_generated_artifacts, clone_generated_artifacts, push_generated_artifact, ArtifactKind,
    Failure, FailureModel, GeneratedArtifact, GeneratedArtifactModel, VerificationReport,
    VerificationReportModel, VerificationTarget, VerificationTargetModel,
};
use crate::documents::{
    evolution_generation_document, evolution_generation_in, evolution_generation_json,
    read_evolution_generation,
};
use crate::evolution::{read_suite_under, read_whole_suite, suite_under};
use crate::findings::{finding_language, plan_artifact, planned, target_language};
use crate::json::{
    exact_json, formatted, formatted_json, lemma_plain_values_are_exact, parse_exact,
};
use crate::number::{
    decimal, parsed, plus_decimal, print_plus, print_u32, print_u8, print_usize, read_u32,
};
use crate::paths::{file_name, name_in_path};
use crate::readback::{lemma_evolution_generation_is_plain, lemma_evolution_generation_reads};
use crate::records::{
    push_evolution_generation_candidate, push_evolve_candidate_summary, EvolutionCandidateKind,
    EvolutionCandidateRecord, EvolutionCandidateRecordModel, EvolutionCandidateStatus,
    EvolutionGeneration, EvolutionGenerationCandidate, EvolutionGenerationCandidateModel,
    EvolutionGenerationModel, EvolutionOutcome, EvolutionQualityDelta, EvolutionSuite,
    EvolutionSuiteModel, EvolveCandidateSummary, EvolveCandidateSummaryModel,
    EvolveEvaluationSummary, EvolveEvaluationSummaryModel, EvolveSummary, EvolveSummaryModel,
    PromotionSummary, PromotionSummaryModel,
};
use crate::regressions::{
    artifact_paths, generic_promotion, generic_regression_promotion_artifact, paths_of,
};
use crate::score::{
    classify_evolution_outcome, confidence_score, counts_are_held, evolution_quality_delta,
    got_worse, law_outcome_follows_the_numbers, outcome_of, report_delta, reports_comparable,
    score_of,
};
use crate::seqs::{cat2, cat3, cat5, lemma_take_all, lemma_take_next};
use crate::split::push_text;
use crate::text::{
    clone_text, clone_texts, ends, ends_with, owned, rcut_text, rsplit_once_text, same,
    same_option, strip_prefix, strip_suffix, without_prefix, without_suffix,
};

verus! {

// ---------------------------------------------------------------------------
// What plugins do
// ---------------------------------------------------------------------------
/// What a plugin made of a finding that it was asked to promote.
#[derive(Debug)]
pub enum PluginWork {
    Artifacts(Vec<GeneratedArtifact>),
    Declined,
}

/// The mathematical value of a `PluginWork`.
pub enum PluginWorkModel {
    Artifacts(Seq<GeneratedArtifactModel>),
    Declined,
}

impl DeepView for PluginWork {
    type V = PluginWorkModel;

    open spec fn deep_view(&self) -> PluginWorkModel {
        match self {
            PluginWork::Artifacts(list) => PluginWorkModel::Artifacts(list.deep_view()),
            PluginWork::Declined => PluginWorkModel::Declined,
        }
    }
}

/// The artifacts that promote a finding: those of the plugin, or, where it
/// declined, general guidance.
pub open spec fn promotion_of(
    language: Seq<char>,
    finding: FailureModel,
    index: int,
    work: PluginWorkModel,
) -> Seq<GeneratedArtifactModel> {
    match work {
        PluginWorkModel::Artifacts(list) => list,
        PluginWorkModel::Declined => seq![generic_promotion(language, finding, index)],
    }
}

/// The artifacts that promote a finding.
pub fn promote_finding(
    language: &str,
    finding: &Failure,
    index: usize,
    work: &PluginWork,
) -> (r: Vec<GeneratedArtifact>)
    ensures
        r.deep_view() == promotion_of(
            language@,
            finding.deep_view(),
            index as int,
            work.deep_view(),
        ),
{
    match work {
        PluginWork::Artifacts(list) => clone_generated_artifacts(list),
        PluginWork::Declined => {
            let mut out: Vec<GeneratedArtifact> = Vec::new();
            out.push(generic_regression_promotion_artifact(language, finding, index));
            assert(out.deep_view() =~= seq![
                generic_promotion(language@, finding.deep_view(), index as int),
            ]);
            out
        },
    }
}

/// The work of a plugin for the finding at an index; nothing was done where the
/// list does not reach so far.
pub open spec fn work_at(work: Seq<PluginWorkModel>, i: int) -> PluginWorkModel {
    if 0 <= i < work.len() {
        work[i]
    } else {
        PluginWorkModel::Declined
    }
}

/// The language of a finding, or another where it has none.
pub open spec fn language_or(finding: FailureModel, other: Seq<char>) -> Seq<char> {
    match target_language(finding.target_id) {
        Some(language) => language,
        None => other,
    }
}

/// The language of a finding, or another where it has none.
pub fn language_of_finding(finding: &Failure, other: &str) -> (r: String)
    ensures
        r@ == language_or(finding.deep_view(), other@),
{
    match finding_language(finding) {
        Some(language) => language,
        None => owned(other),
    }
}

/// The promotions of the findings that were asked for, with what the plugins made
/// of each.
pub open spec fn promoted_regressions(
    selected: Option<usize>,
    work: Seq<PluginWorkModel>,
    items: Seq<FailureModel>,
) -> Seq<GeneratedArtifactModel>
    decreases items.len(),
{
    if items.len() == 0 {
        Seq::empty()
    } else {
        let i = items.len() - 1;
        let before = promoted_regressions(selected, work, items.drop_last());
        if selected matches Some(wanted) && wanted != i {
            before
        } else {
            before + promotion_of(
                language_or(items.last(), "unknown"@),
                items.last(),
                i,
                work_at(work, i),
            )
        }
    }
}

/// Promotes the findings of a report that were asked for: the artifacts, and what
/// is written. `work` holds what the plugins made of each finding.
pub fn promote_regressions(
    report: &VerificationReport,
    dry_run: bool,
    index: Option<usize>,
    work: &Vec<PluginWork>,
) -> (r: (Vec<GeneratedArtifact>, PromotionSummary))
    ensures
        r.0.deep_view() == promoted_regressions(
            index,
            work.deep_view(),
            report.deep_view().findings,
        ),
        r.1.deep_view() == (PromotionSummaryModel {
            dry_run,
            paths: artifact_paths(
                promoted_regressions(index, work.deep_view(), report.deep_view().findings),
            ),
        }),
{
    let items = &report.findings;
    let ghost all = items.deep_view();
    let ghost done = work.deep_view();
    let mut out: Vec<GeneratedArtifact> = Vec::new();
    let mut i: usize = 0;
    assert(out.deep_view() =~= promoted_regressions(index, done, all.take(0)));
    while i < items.len()
        invariant
            i <= items@.len(),
            all == items.deep_view(),
            done == work.deep_view(),
            out.deep_view() == promoted_regressions(index, done, all.take(i as int)),
        decreases items@.len() - i,
    {
        proof {
            lemma_take_next(all, i as int);
        }
        let wanted = match index {
            Some(n) => n == i,
            None => true,
        };
        if wanted {
            let language = language_of_finding(&items[i], "unknown");
            let mut more = if i < work.len() {
                promote_finding(language.as_str(), &items[i], i, &work[i])
            } else {
                promote_finding(language.as_str(), &items[i], i, &PluginWork::Declined)
            };
            append_generated_artifacts(&mut out, &mut more);
        }
        i = i + 1;
    }
    proof {
        lemma_take_all(all);
    }
    let paths = paths_of(&out);
    (out, PromotionSummary { dry_run, paths })
}

// ---------------------------------------------------------------------------
// The request
// ---------------------------------------------------------------------------
/// What is wrong with a request to evolve.
pub open spec fn request_error(dry_run: bool, index: Option<usize>, all_selected: bool) -> Option<
    Seq<char>,
> {
    if index is Some && all_selected {
        Some("--index cannot be combined with --all-selected"@)
    } else if !dry_run && index is None && !all_selected {
        Some("pass --index <n>, --all-selected, or --dry-run"@)
    } else {
        None
    }
}

/// Checks a request to evolve.
pub fn check_evolve_request(dry_run: bool, index: Option<usize>, all_selected: bool) -> (r: Result<
    (),
    String,
>)
    ensures
        r is Ok == (request_error(dry_run, index, all_selected) is None),
        r matches Err(message) ==> request_error(dry_run, index, all_selected) == Some(message@),
{
    if index.is_some() && all_selected {
        return Err(owned("--index cannot be combined with --all-selected"));
    }
    if !dry_run && index.is_none() && !all_selected {
        return Err(owned("pass --index <n>, --all-selected, or --dry-run"));
    }
    Ok(())
}

/// Whether a candidate was asked for: by its index, as one that is selected, or, in
/// a dry run that names none, like all others.
pub open spec fn asked_for(
    dry_run: bool,
    index: Option<usize>,
    all_selected: bool,
    i: int,
    status: EvolutionCandidateStatus,
) -> bool {
    ||| index matches Some(wanted) && wanted == i
    ||| all_selected && status == EvolutionCandidateStatus::Selected
    ||| dry_run && index is None && !all_selected
}

/// Whether a candidate was asked for.
pub fn is_asked_for(
    dry_run: bool,
    index: Option<usize>,
    all_selected: bool,
    i: usize,
    status: EvolutionCandidateStatus,
) -> (r: bool)
    ensures
        r == asked_for(dry_run, index, all_selected, i as int, status),
{
    let named = match index {
        Some(wanted) => wanted == i,
        None => false,
    };
    named || (all_selected && status == EvolutionCandidateStatus::Selected) || (dry_run
        && index.is_none() && !all_selected)
}

// ---------------------------------------------------------------------------
// Applying a candidate
// ---------------------------------------------------------------------------
/// A candidate that nothing was done with yet.
pub open spec fn summary_of_candidate(
    index: int,
    c: EvolutionCandidateRecordModel,
) -> EvolveCandidateSummaryModel {
    EvolveCandidateSummaryModel {
        index: index as usize,
        id: c.id,
        target_id: c.target_id,
        kind: c.kind,
        strategy: c.strategy,
        status: c.status,
        fitness_percent: c.fitness.score_percent,
        proposed_action: c.proposed_action,
        keep_if: c.keep_if,
        proof_commands: c.proof_commands,
        done_when: c.done_when,
        applied: false,
        skipped_reason: None,
        written_paths: Seq::empty(),
    }
}

/// A candidate that nothing was done with yet.
pub fn evolve_candidate_summary(index: usize, candidate: &EvolutionCandidateRecord) -> (r:
    EvolveCandidateSummary)
    ensures
        r.deep_view() == summary_of_candidate(index as int, candidate.deep_view()),
{
    let r = EvolveCandidateSummary {
        index,
        id: candidate.id.clone(),
        target_id: candidate.target_id.clone(),
        kind: candidate.kind,
        strategy: candidate.strategy,
        status: candidate.status,
        fitness_percent: candidate.fitness.score_percent,
        proposed_action: candidate.proposed_action.clone(),
        keep_if: candidate.keep_if.clone(),
        proof_commands: clone_texts(&candidate.proof_commands),
        done_when: clone_texts(&candidate.done_when),
        applied: false,
        skipped_reason: None,
        written_paths: Vec::new(),
    };
    assert(r.written_paths.deep_view() =~= Seq::empty());
    r
}

/// Whether a finding is the one that a candidate is about: by its target, or by its
/// id.
pub open spec fn candidate_matches(
    c: EvolutionCandidateRecordModel,
    finding: FailureModel,
) -> bool {
    finding.target_id == Some(c.target_id) || (c.source_finding_id is Some && finding.id
        == c.source_finding_id)
}

fn matches_candidate(candidate: &EvolutionCandidateRecord, finding: &Failure) -> (r: bool)
    ensures
        r == candidate_matches(candidate.deep_view(), finding.deep_view()),
{
    let by_target = match &finding.target_id {
        Some(id) => same(id.as_str(), candidate.target_id.as_str()),
        None => false,
    };
    by_target || (candidate.source_finding_id.is_some() && same_option(
        &finding.id,
        &candidate.source_finding_id,
    ))
}

/// The place of the first finding that a candidate is about.
pub open spec fn matching_from(
    items: Seq<FailureModel>,
    candidate: EvolutionCandidateRecordModel,
    from: int,
) -> Option<int>
    decreases items.len() - from,
{
    if from < 0 || from >= items.len() {
        None
    } else if candidate_matches(candidate, items[from]) {
        Some(from)
    } else {
        matching_from(items, candidate, from + 1)
    }
}

fn find_matching(items: &Vec<Failure>, candidate: &EvolutionCandidateRecord) -> (r: Option<usize>)
    ensures
        r matches Some(i) ==> i < items@.len() && matching_from(items.deep_view(), candidate.deep_view(), 0) == Some(
            i as int,
        ),
        r is None ==> matching_from(items.deep_view(), candidate.deep_view(), 0) is None,
{
    let ghost all = items.deep_view();
    let mut i: usize = 0;
    while i < items.len()
        invariant
            i <= items@.len(),
            all == items.deep_view(),
            matching_from(all, candidate.deep_view(), 0) == matching_from(all, candidate.deep_view(), i as int),
        decreases items@.len() - i,
    {
        assert(all[i as int] == items@[i as int].deep_view());
        if matches_candidate(candidate, &items[i]) {
            return Some(i);
        }
        i = i + 1;
    }
    None
}

/// The place of the first finding that a candidate is about.
pub fn matching_evolution_finding(
    report: &VerificationReport,
    candidate: &EvolutionCandidateRecord,
) -> (r: Option<usize>)
    ensures
        r matches Some(i) ==> i < report.findings@.len() && matching_from(
            report.deep_view().findings,
            candidate.deep_view(),
            0,
        ) == Some(i as int),
        r is None ==> matching_from(
            report.deep_view().findings,
            candidate.deep_view(),
            0,
        ) is None,
{
    find_matching(&report.findings, candidate)
}

/// Commands as a list.
pub open spec fn command_items(items: Seq<Seq<char>>) -> Seq<char>
    decreases items.len(),
{
    if items.len() == 0 {
        Seq::empty()
    } else {
        command_items(items.drop_last()) + command_item_text(items.last())
    }
}

fn push_commands(out: &mut String, items: &Vec<String>)
    ensures
        final(out)@ == old(out)@ + command_items(items.deep_view()),
{
    let ghost before = out@;
    let ghost all = items.deep_view();
    let mut i: usize = 0;
    assert(out@ == before + command_items(all.take(0)));
    while i < items.len()
        invariant
            i <= items@.len(),
            all == items.deep_view(),
            out@ == before + command_items(all.take(i as int)),
        decreases items@.len() - i,
    {
        proof {
            lemma_take_next(all, i as int);
        }
        let ghost so_far = out@;
        out.append(command_item(items[i].as_str()).as_str());
        i = i + 1;
        assert(out@ == before + command_items(all.take(i as int)));
    }
    proof {
        lemma_take_all(all);
    }
}

/// A command in a list.
pub open spec fn command_item_text(command: Seq<char>) -> Seq<char> {
    let t = "- `"@ + command + "`\n"@;
    t
}

fn command_item(command: &str) -> (r: String)
    ensures
        r@ == command_item_text(command@),
{
    let mut out = owned("- `");
    out.append(command);
    out.append("`\n");
    out
}

/// Criteria as a list.
pub open spec fn criterion_items(items: Seq<Seq<char>>) -> Seq<char>
    decreases items.len(),
{
    if items.len() == 0 {
        Seq::empty()
    } else {
        criterion_items(items.drop_last()) + criterion_item_text(items.last())
    }
}

fn push_criteria(out: &mut String, items: &Vec<String>)
    ensures
        final(out)@ == old(out)@ + criterion_items(items.deep_view()),
{
    let ghost before = out@;
    let ghost all = items.deep_view();
    let mut i: usize = 0;
    assert(out@ == before + criterion_items(all.take(0)));
    while i < items.len()
        invariant
            i <= items@.len(),
            all == items.deep_view(),
            out@ == before + criterion_items(all.take(i as int)),
        decreases items@.len() - i,
    {
        proof {
            lemma_take_next(all, i as int);
        }
        let ghost so_far = out@;
        out.append(criterion_item(items[i].as_str()).as_str());
        i = i + 1;
        assert(out@ == before + criterion_items(all.take(i as int)));
    }
    proof {
        lemma_take_all(all);
    }
}

/// A criterion in a list.
pub open spec fn criterion_item_text(criterion: Seq<char>) -> Seq<char> {
    let t = "- "@ + criterion + "\n"@;
    t
}

fn criterion_item(criterion: &str) -> (r: String)
    ensures
        r@ == criterion_item_text(criterion@),
{
    let mut out = owned("- ");
    out.append(criterion);
    out.append("\n");
    out
}

/// The proof commands of a candidate as a section.
pub open spec fn proof_section(commands: Seq<Seq<char>>) -> Seq<char> {
    if commands.len() == 0 {
        Seq::empty()
    } else {
        "\n## Proof Commands\n\n"@ + command_items(commands)
    }
}

fn proof_words(commands: &Vec<String>) -> (r: String)
    ensures
        r@ == proof_section(commands.deep_view()),
{
    assert(commands@.len() == commands.deep_view().len());
    let mut out = String::new();
    if commands.len() > 0 {
        out = owned("\n## Proof Commands\n\n");
        push_commands(&mut out, commands);
    }
    assert(out@ =~= proof_section(commands.deep_view()));
    out
}

/// The criteria of a candidate as a section.
pub open spec fn done_section(criteria: Seq<Seq<char>>) -> Seq<char> {
    if criteria.len() == 0 {
        Seq::empty()
    } else {
        "\n## Done When\n\n"@ + criterion_items(criteria)
    }
}

fn done_words(criteria: &Vec<String>) -> (r: String)
    ensures
        r@ == done_section(criteria.deep_view()),
{
    assert(criteria@.len() == criteria.deep_view().len());
    let mut out = String::new();
    if criteria.len() > 0 {
        out = owned("\n## Done When\n\n");
        push_criteria(&mut out, criteria);
    }
    assert(out@ =~= done_section(criteria.deep_view()));
    out
}

/// The note on an applied candidate.
pub open spec fn applied_note_text(candidate: EvolutionCandidateRecordModel) -> Seq<char> {
    let t = "# Applied Evolution Candidate\n\nGenerated by veritas. Review before committing.\n\n- Candidate: `"@
        + candidate.id
        + "`\n- Target: `"@
        + candidate.target_id
        + "`\n- Kind: `"@
        + candidate.kind.name_text()
        + "`\n- Strategy: `"@
        + candidate.strategy.name_text()
        + "`\n- Fitness: `"@
        + decimal(candidate.fitness.score_percent as int)
        + "%`\n"@;
    let t = match candidate.source_artifact {
        Some(source) => {
            let t = t + "- Source artifact: `"@ + source + "`\n"@;
            t
        },
        None => {
            t
        },
    };
    let t = t
        + "\n## Proposed Action\n\n"@
        + candidate.proposed_action
        + "\n\n## Keep If\n\n"@
        + candidate.keep_if
        + "\n"@
        + proof_section(candidate.proof_commands)
        + done_section(candidate.done_when);
    t
}

fn applied_note(candidate: &EvolutionCandidateRecord) -> (r: String)
    ensures
        r@ == applied_note_text(candidate.deep_view()),
{
    let mut out = owned("# Applied Evolution Candidate\n\nGenerated by veritas. Review before committing.\n\n- Candidate: `");
    out.append(candidate.id.as_str());
    out.append("`\n- Target: `");
    out.append(candidate.target_id.as_str());
    out.append("`\n- Kind: `");
    out.append(candidate.kind.name());
    out.append("`\n- Strategy: `");
    out.append(candidate.strategy.name());
    out.append("`\n- Fitness: `");
    out.append(print_u8(candidate.fitness.score_percent).as_str());
    out.append("%`\n");
    if let Some(source) = &candidate.source_artifact {
        out.append("- Source artifact: `");
        out.append(source.as_str());
        out.append("`\n");
    }
    out.append("\n## Proposed Action\n\n");
    out.append(candidate.proposed_action.as_str());
    out.append("\n\n## Keep If\n\n");
    out.append(candidate.keep_if.as_str());
    out.append("\n");
    out.append(proof_words(&candidate.proof_commands).as_str());
    out.append(done_words(&candidate.done_when).as_str());
    out
}

/// The artifact of an applied candidate.
pub open spec fn applied_artifact(
    index: int,
    candidate: EvolutionCandidateRecordModel,
) -> GeneratedArtifactModel {
    planned(
        candidate.language + "-evolution-applied-"@ + decimal(index),
        candidate.language,
        ArtifactKind::EvolutionCandidate,
        candidate.target_id,
        ".veritas/evolution/applied/"@ + candidate.language + "_"@ + decimal(index) + ".md"@,
        applied_note_text(candidate),
        "Reviewable applied evolution candidate guidance"@,
    )
}

/// The artifact of an applied candidate.
pub fn applied_evolution_candidate_artifact(
    index: usize,
    candidate: &EvolutionCandidateRecord,
) -> (r: GeneratedArtifact)
    ensures
        r.deep_view() == applied_artifact(index as int, candidate.deep_view()),
{
    let number = print_usize(index);
    let language = candidate.language.as_str();
    plan_artifact(
        cat3(language, "-evolution-applied-", number.as_str()),
        language,
        ArtifactKind::EvolutionCandidate,
        candidate.target_id.clone(),
        cat5(".veritas/evolution/applied/", language, "_", number.as_str(), ".md"),
        applied_note(candidate),
        "Reviewable applied evolution candidate guidance",
    )
}

/// The finding that a plugin is asked to promote for a candidate.
pub open spec fn finding_to_promote(
    report: Option<VerificationReportModel>,
    candidate: EvolutionCandidateRecordModel,
) -> Option<int> {
    match report {
        Some(known) => if candidate.kind == EvolutionCandidateKind::Mutation || candidate.kind
            == EvolutionCandidateKind::Regression {
            matching_from(known.findings, candidate, 0)
        } else {
            None
        },
        None => None,
    }
}

/// The artifacts that apply a candidate: the promotion of its finding, or a note, or
/// nothing where candidates of its kind cannot be applied.
pub open spec fn applied_artifacts(
    report: Option<VerificationReportModel>,
    index: int,
    candidate: EvolutionCandidateRecordModel,
    work: PluginWorkModel,
) -> Seq<GeneratedArtifactModel> {
    match finding_to_promote(report, candidate) {
        Some(i) => promotion_of(
            language_or(report->0.findings[i], candidate.language),
            report->0.findings[i],
            i,
            work,
        ),
        None => match candidate.kind {
            EvolutionCandidateKind::Mutation | EvolutionCandidateKind::Budget => Seq::empty(),
            _ => seq![applied_artifact(index, candidate)],
        },
    }
}

/// The finding that a plugin is asked to promote for a candidate.
pub fn promotion_index(
    report: Option<&VerificationReport>,
    candidate: &EvolutionCandidateRecord,
) -> (r: Option<usize>)
    ensures
        r matches Some(i) ==> report is Some && i < report->0.findings@.len()
            && finding_to_promote(Some(report->0.deep_view()), candidate.deep_view()) == Some(
            i as int,
        ),
        r is None ==> finding_to_promote(
            match report {
                Some(known) => Some(known.deep_view()),
                None => None,
            },
            candidate.deep_view(),
        ) is None,
{
    match report {
        Some(known) => if candidate.kind == EvolutionCandidateKind::Mutation || candidate.kind
            == EvolutionCandidateKind::Regression {
            matching_evolution_finding(known, candidate)
        } else {
            None
        },
        None => None,
    }
}

/// The artifacts that apply a candidate. `work` is what the plugin made of the
/// finding that it was asked to promote.
pub fn evolution_candidate_artifacts(
    report: Option<&VerificationReport>,
    index: usize,
    candidate: &EvolutionCandidateRecord,
    work: &PluginWork,
) -> (r: Vec<GeneratedArtifact>)
    ensures
        r.deep_view() == applied_artifacts(
            match report {
                Some(known) => Some(known.deep_view()),
                None => None,
            },
            index as int,
            candidate.deep_view(),
            work.deep_view(),
        ),
{
    match promotion_index(report, candidate) {
        Some(i) => {
            let finding = &report.unwrap().findings[i];
            assert(report->0.deep_view().findings[i as int] == finding.deep_view());
            let language = language_of_finding(finding, candidate.language.as_str());
            promote_finding(language.as_str(), finding, i, work)
        },
        None => {
            let mut out: Vec<GeneratedArtifact> = Vec::new();
            match candidate.kind {
                EvolutionCandidateKind::Mutation | EvolutionCandidateKind::Budget => {
                    assert(out.deep_view() =~= Seq::<GeneratedArtifactModel>::empty());
                },
                _ => {
                    out.push(applied_evolution_candidate_artifact(index, candidate));
                    assert(out.deep_view() =~= seq![
                        applied_artifact(index as int, candidate.deep_view()),
                    ]);
                },
            }
            out
        },
    }
}

/// A candidate with what was done with it.
pub open spec fn after_applying(
    summary: EvolveCandidateSummaryModel,
    artifacts: Seq<GeneratedArtifactModel>,
) -> EvolveCandidateSummaryModel {
    if artifacts.len() == 0 {
        EvolveCandidateSummaryModel {
            skipped_reason: Some("candidate kind is not safely applyable yet"@),
            ..summary
        }
    } else {
        EvolveCandidateSummaryModel {
            applied: true,
            written_paths: artifact_paths(artifacts),
            ..summary
        }
    }
}

fn note_applied(summary: EvolveCandidateSummary, artifacts: &Vec<GeneratedArtifact>) -> (r:
    EvolveCandidateSummary)
    ensures
        r.deep_view() == after_applying(summary.deep_view(), artifacts.deep_view()),
{
    let mut noted = summary;
    assert(artifacts@.len() == artifacts.deep_view().len());
    if artifacts.len() == 0 {
        noted.skipped_reason = Some(owned("candidate kind is not safely applyable yet"));
    } else {
        noted.applied = true;
        noted.written_paths = paths_of(artifacts);
    }
    noted
}

// ---------------------------------------------------------------------------
// Evolving
// ---------------------------------------------------------------------------
/// A request to evolve.
#[derive(Clone, Copy, PartialEq, Eq, Structural)]
pub struct EvolveRequest {
    pub dry_run: bool,
    pub index: Option<usize>,
    pub all_selected: bool,
}

/// What an evolution does with the candidates that were asked for.
pub open spec fn evolved_summaries(
    request: EvolveRequest,
    report: Option<VerificationReportModel>,
    work: Seq<PluginWorkModel>,
    items: Seq<EvolutionCandidateRecordModel>,
) -> Seq<EvolveCandidateSummaryModel>
    decreases items.len(),
{
    if items.len() == 0 {
        Seq::empty()
    } else {
        let i = items.len() - 1;
        let c = items.last();
        let before = evolved_summaries(request, report, work, items.drop_last());
        if !asked_for(request.dry_run, request.index, request.all_selected, i, c.status) {
            before
        } else if request.dry_run {
            before.push(summary_of_candidate(i, c))
        } else {
            before.push(
                after_applying(
                    summary_of_candidate(i, c),
                    applied_artifacts(report, i, c, work_at(work, i)),
                ),
            )
        }
    }
}

/// What an evolution writes for the candidates that were asked for; nothing in a
/// dry run.
pub open spec fn evolved_artifacts(
    request: EvolveRequest,
    report: Option<VerificationReportModel>,
    work: Seq<PluginWorkModel>,
    items: Seq<EvolutionCandidateRecordModel>,
) -> Seq<GeneratedArtifactModel>
    decreases items.len(),
{
    if items.len() == 0 {
        Seq::empty()
    } else {
        let i = items.len() - 1;
        let c = items.last();
        let before = evolved_artifacts(request, report, work, items.drop_last());
        if request.dry_run || !asked_for(
            request.dry_run,
            request.index,
            request.all_selected,
            i,
            c.status,
        ) {
            before
        } else {
            before + applied_artifacts(report, i, c, work_at(work, i))
        }
    }
}

/// Evolves: what is done with each candidate that was asked for, and the artifacts
/// to write. `work` holds what the plugins made of the finding of each candidate.
/// It fails where the request names no candidate.
pub fn evolve_candidates(
    request: EvolveRequest,
    report: Option<&VerificationReport>,
    work: &Vec<PluginWork>,
    items: &Vec<EvolutionCandidateRecord>,
) -> (r: Result<(Vec<EvolveCandidateSummary>, Vec<GeneratedArtifact>), String>)
    ensures
        ({
            let known = match report {
                Some(known) => Some(known.deep_view()),
                None => None,
            };
            let summaries = evolved_summaries(
                request,
                known,
                work.deep_view(),
                items.deep_view(),
            );
            &&& r is Ok == (summaries.len() > 0)
            &&& r matches Ok(done) ==> done.0.deep_view() == summaries && done.1.deep_view()
                == evolved_artifacts(request, known, work.deep_view(), items.deep_view())
            &&& r matches Err(message) ==> message@
                == "no evolution candidates matched the requested selection"@
        }),
{
    let ghost all = items.deep_view();
    let ghost done = work.deep_view();
    let ghost known = match report {
        Some(known) => Some(known.deep_view()),
        None => None,
    };
    let mut summaries: Vec<EvolveCandidateSummary> = Vec::new();
    let mut artifacts: Vec<GeneratedArtifact> = Vec::new();
    let mut i: usize = 0;
    assert(summaries.deep_view() =~= evolved_summaries(request, known, done, all.take(0)));
    assert(artifacts.deep_view() =~= evolved_artifacts(request, known, done, all.take(0)));
    while i < items.len()
        invariant
            i <= items@.len(),
            all == items.deep_view(),
            done == work.deep_view(),
            known == match report {
                Some(known) => Some(known.deep_view()),
                None => None,
            },
            summaries.deep_view() == evolved_summaries(request, known, done, all.take(i as int)),
            artifacts.deep_view() == evolved_artifacts(request, known, done, all.take(i as int)),
        decreases items@.len() - i,
    {
        proof {
            lemma_take_next(all, i as int);
        }
        let candidate = &items[i];
        if is_asked_for(
            request.dry_run,
            request.index,
            request.all_selected,
            i,
            candidate.status,
        ) {
            let summary = evolve_candidate_summary(i, candidate);
            if request.dry_run {
                push_evolve_candidate_summary(&mut summaries, summary);
            } else {
                let mut more = if i < work.len() {
                    evolution_candidate_artifacts(report, i, candidate, &work[i])
                } else {
                    evolution_candidate_artifacts(report, i, candidate, &PluginWork::Declined)
                };
                push_evolve_candidate_summary(&mut summaries, note_applied(summary, &more));
                append_generated_artifacts(&mut artifacts, &mut more);
            }
        }
        i = i + 1;
    }
    proof {
        lemma_take_all(all);
    }
    assert(summaries@.len() == summaries.deep_view().len());
    if summaries.len() == 0 {
        return Err(owned("no evolution candidates matched the requested selection"));
    }
    Ok((summaries, artifacts))
}

/// A dry run writes nothing.
pub proof fn law_dry_run_writes_nothing(
    request: EvolveRequest,
    report: Option<VerificationReportModel>,
    work: Seq<PluginWorkModel>,
    items: Seq<EvolutionCandidateRecordModel>,
)
    requires
        request.dry_run,
    ensures
        evolved_artifacts(request, report, work, items).len() == 0,
        forall|k: int|
            0 <= k < evolved_summaries(request, report, work, items).len() ==> !(
            #[trigger] evolved_summaries(request, report, work, items)[k]).applied,
    decreases items.len(),
{
    if items.len() > 0 {
        law_dry_run_writes_nothing(request, report, work, items.drop_last());
        let before = evolved_summaries(request, report, work, items.drop_last());
        let now = evolved_summaries(request, report, work, items);
        assert forall|k: int| 0 <= k < now.len() implies !(#[trigger] now[k]).applied by {
            if k < before.len() {
                assert(!before[k].applied);
            }
        }
    }
}

// ---------------------------------------------------------------------------
// Evaluation
// ---------------------------------------------------------------------------
/// The place of the first target with this id.
pub open spec fn target_from(
    items: Seq<VerificationTargetModel>,
    id: Seq<char>,
    from: int,
) -> Option<int>
    decreases items.len() - from,
{
    if from < 0 || from >= items.len() {
        None
    } else if items[from].id == id {
        Some(from)
    } else {
        target_from(items, id, from + 1)
    }
}

/// The place of the first target with this id.
pub fn find_target(items: &Vec<VerificationTarget>, id: &str) -> (r: Option<usize>)
    ensures
        r matches Some(i) ==> i < items@.len() && target_from(items.deep_view(), id@, 0) == Some(
            i as int,
        ),
        r is None ==> target_from(items.deep_view(), id@, 0) is None,
{
    let ghost all = items.deep_view();
    let mut i: usize = 0;
    while i < items.len()
        invariant
            i <= items@.len(),
            all == items.deep_view(),
            target_from(all, id@, 0) == target_from(all, id@, i as int),
        decreases items@.len() - i,
    {
        assert(all[i as int] == items@[i as int].deep_view());
        if same(items[i].id.as_str(), id) {
            return Some(i);
        }
        i = i + 1;
    }
    None
}

/// The path of the first applied candidate, from one on, whose target is known.
pub open spec fn applied_path_from(
    targets: Seq<VerificationTargetModel>,
    items: Seq<EvolveCandidateSummaryModel>,
    from: int,
) -> Option<Seq<char>>
    decreases items.len() - from,
{
    if from < 0 || from >= items.len() {
        None
    } else {
        match target_from(targets, items[from].target_id, 0) {
            Some(t) => if items[from].applied {
                Some(targets[t].path)
            } else {
                applied_path_from(targets, items, from + 1)
            },
            None => applied_path_from(targets, items, from + 1),
        }
    }
}

/// The path to verify again after an evolution: that of the first applied candidate
/// whose target is known.
pub fn evaluation_path(
    targets: &Vec<VerificationTarget>,
    items: &Vec<EvolveCandidateSummary>,
) -> (r:
    Option<String>)
    ensures
        r.deep_view() == applied_path_from(targets.deep_view(), items.deep_view(), 0),
{
    let ghost tv = targets.deep_view();
    let ghost all = items.deep_view();
    let mut i: usize = 0;
    while i < items.len()
        invariant
            i <= items@.len(),
            tv == targets.deep_view(),
            all == items.deep_view(),
            applied_path_from(tv, all, 0) == applied_path_from(tv, all, i as int),
        decreases items@.len() - i,
    {
        assert(all[i as int] == items@[i as int].deep_view());
        if items[i].applied {
            if let Some(t) = find_target(targets, items[i].target_id.as_str()) {
                assert(tv[t as int] == targets@[t as int].deep_view());
                return Some(targets[t].path.clone());
            }
        }
        i = i + 1;
    }
    None
}

/// An evolution that could not be evaluated.
pub open spec fn failed_evaluation(error: Seq<char>) -> EvolveEvaluationSummaryModel {
    EvolveEvaluationSummaryModel {
        outcome: EvolutionOutcome::FailedToEvaluate,
        delta: EvolutionQualityDelta {
            mutation_score_delta: None,
            killed_mutants_delta: 0,
            surviving_mutants_delta: 0,
            not_covered_mutants_delta: 0,
            findings_delta: 0,
            replay_cases_delta: 0,
            corpus_failed_delta: 0,
            budget_timed_out_delta: 0,
            budget_skipped_delta: 0,
            confidence_delta: 0,
        },
        before_confidence: 0,
        after_confidence: 0,
        report_path: ".veritas/report.json"@,
        error: Some(error),
    }
}

/// An evolution that could not be evaluated.
pub fn failed_evolution_evaluation(error: &str) -> (r: EvolveEvaluationSummary)
    ensures
        r.deep_view() == failed_evaluation(error@),
{
    EvolveEvaluationSummary {
        outcome: EvolutionOutcome::FailedToEvaluate,
        delta: EvolutionQualityDelta::default(),
        before_confidence: 0,
        after_confidence: 0,
        report_path: owned(".veritas/report.json"),
        error: Some(owned(error)),
    }
}

/// What the verification after an evolution says.
pub open spec fn evaluation_of(
    before: VerificationReportModel,
    after: VerificationReportModel,
) -> EvolveEvaluationSummaryModel {
    EvolveEvaluationSummaryModel {
        outcome: outcome_of(report_delta(before, after)),
        delta: report_delta(before, after),
        before_confidence: score_of(before),
        after_confidence: score_of(after),
        report_path: ".veritas/report.json"@,
        error: None,
    }
}

/// Evaluates an evolution: by the report before it and the one after it, or by the
/// error that kept the second from being made.
pub fn evaluate_evolution(
    before: Option<&VerificationReport>,
    after: Result<&VerificationReport, &String>,
) -> (r: EvolveEvaluationSummary)
    requires
        before is Some && after is Ok ==> reports_comparable(
            before->0.deep_view(),
            after->Ok_0.deep_view(),
        ),
    ensures
        before is None ==> r.deep_view() == failed_evaluation(
            "no saved .veritas/report.json was available"@,
        ),
        before is Some && after is Err ==> r.deep_view() == failed_evaluation(after->Err_0@),
        before is Some && after is Ok ==> r.deep_view() == evaluation_of(
            before->0.deep_view(),
            after->Ok_0.deep_view(),
        ),
{
    match before {
        Some(first) => match after {
            Ok(second) => {
                let delta = evolution_quality_delta(first, second);
                EvolveEvaluationSummary {
                    outcome: classify_evolution_outcome(&delta),
                    delta,
                    before_confidence: confidence_score(first).score,
                    after_confidence: confidence_score(second).score,
                    report_path: owned(".veritas/report.json"),
                    error: None,
                }
            },
            Err(error) => failed_evolution_evaluation(error.as_str()),
        },
        None => failed_evolution_evaluation("no saved .veritas/report.json was available"),
    }
}

/// Whether the artifacts of an evolution stay: only where the report improved.
pub open spec fn keeps(outcome: EvolutionOutcome) -> bool {
    outcome == EvolutionOutcome::Improved
}

/// Whether the artifacts of an evolution stay.
pub fn evolution_evaluation_keeps_candidates(outcome: EvolutionOutcome) -> (r: bool)
    ensures
        r == keeps(outcome),
{
    outcome == EvolutionOutcome::Improved
}

/// What an evolution decides, in words.
pub open spec fn decision_of(outcome: EvolutionOutcome) -> Seq<char> {
    if keeps(outcome) {
        "kept"@
    } else {
        "rejected"@
    }
}

fn decision_word(outcome: EvolutionOutcome) -> (r: &'static str)
    ensures
        r@ == decision_of(outcome),
{
    if evolution_evaluation_keeps_candidates(outcome) {
        "kept"
    } else {
        "rejected"
    }
}

/// Nothing is kept of an evolution after which something is worse than before.
pub proof fn law_nothing_worse_is_kept(
    before: VerificationReportModel,
    after: VerificationReportModel,
)
    ensures
        keeps(evaluation_of(before, after).outcome) ==> !got_worse(report_delta(before, after)),
        got_worse(report_delta(before, after)) ==> decision_of(
            evaluation_of(before, after).outcome,
        ) == "rejected"@,
{
}

/// The candidates of an evolution are kept exactly where the report after it is worse in no
/// number than the one before it and better in one; otherwise they are rejected.
pub proof fn law_only_better_reports_keep_candidates(
    before: VerificationReportModel,
    after: VerificationReportModel,
)
    requires
        counts_are_held(before),
        counts_are_held(after),
    ensures
        ({
            let outcome = evaluation_of(before, after).outcome;
            let worse = {
                ||| after.quality.mutation.score_percent is Some && before.quality.mutation.score_percent is Some && after.quality.mutation.score_percent->0 < before.quality.mutation.score_percent->0
                ||| score_of(after) < score_of(before)
                ||| after.quality.mutation.survived > before.quality.mutation.survived
                ||| after.quality.mutation.not_covered > before.quality.mutation.not_covered
                ||| after.findings.len() > before.findings.len()
                ||| after.quality.regression.corpus_failed > before.quality.regression.corpus_failed
                ||| after.quality.budget.timed_out_commands > before.quality.budget.timed_out_commands
                ||| after.quality.budget.skipped_commands > before.quality.budget.skipped_commands
            };
            let better = !worse && {
                ||| before.quality.mutation.score_percent is Some && after.quality.mutation.score_percent is Some && before.quality.mutation.score_percent->0 < after.quality.mutation.score_percent->0
                ||| score_of(before) < score_of(after)
                ||| before.quality.mutation.survived > after.quality.mutation.survived
                ||| before.quality.mutation.not_covered > after.quality.mutation.not_covered
                ||| before.findings.len() > after.findings.len()
                ||| before.quality.regression.corpus_failed > after.quality.regression.corpus_failed
                ||| before.quality.budget.timed_out_commands > after.quality.budget.timed_out_commands
                ||| before.quality.budget.skipped_commands > after.quality.budget.skipped_commands
                ||| after.quality.mutation.killed > before.quality.mutation.killed
                ||| after.quality.replay.cases > before.quality.replay.cases
            };
            &&& keeps(outcome) == better
            &&& decision_of(outcome) == if better {
                "kept"@
            } else {
                "rejected"@
            }
        }),
        !keeps(EvolutionOutcome::FailedToEvaluate),
{
    law_outcome_follows_the_numbers(before, after);
}

/// What was decided on one candidate.
pub open spec fn decision_line_text(
    decision: Seq<char>,
    candidate: EvolveCandidateSummaryModel,
) -> Seq<char> {
    let t = "- `["@ + decimal(candidate.index as int) + "]` `"@ + candidate.id + "`: "@;
    let t = if candidate.applied {
        let t = t + decision;
        t
    } else {
        let t = t + "skipped"@;
        t
    };
    let t = match candidate.skipped_reason {
        Some(reason) => {
            let t = t + " ("@ + reason + ")"@;
            t
        },
        None => {
            t
        },
    };
    let t = t + "\n"@;
    t
}

fn decision_line(decision: &str, candidate: &EvolveCandidateSummary) -> (r: String)
    ensures
        r@ == decision_line_text(decision@, candidate.deep_view()),
{
    let mut out = owned("- `[");
    out.append(print_usize(candidate.index).as_str());
    out.append("]` `");
    out.append(candidate.id.as_str());
    out.append("`: ");
    if candidate.applied {
        out.append(decision);
    } else {
        out.append("skipped");
    }
    if let Some(reason) = &candidate.skipped_reason {
        out.append(" (");
        out.append(reason.as_str());
        out.append(")");
    }
    out.append("\n");
    out
}

/// What was decided on each candidate.
pub open spec fn decision_lines(
    items: Seq<EvolveCandidateSummaryModel>,
    decision: Seq<char>,
) -> Seq<char>
    decreases items.len(),
{
    if items.len() == 0 {
        Seq::empty()
    } else {
        decision_lines(items.drop_last(), decision) + decision_line_text(decision, items.last())
    }
}

fn push_decision_lines(out: &mut String, items: &Vec<EvolveCandidateSummary>, decision: &str)
    ensures
        final(out)@ == old(out)@ + decision_lines(items.deep_view(), decision@),
{
    let ghost before = out@;
    let ghost all = items.deep_view();
    let mut i: usize = 0;
    assert(out@ == before + decision_lines(all.take(0), decision@));
    while i < items.len()
        invariant
            i <= items@.len(),
            all == items.deep_view(),
            out@ == before + decision_lines(all.take(i as int), decision@),
        decreases items@.len() - i,
    {
        proof {
            lemma_take_next(all, i as int);
        }
        let ghost so_far = out@;
        out.append(decision_line(decision, &items[i]).as_str());
        i = i + 1;
        assert(out@ == before + decision_lines(all.take(i as int), decision@));
    }
    proof {
        lemma_take_all(all);
    }
}

/// The note on an evaluation.
pub open spec fn evaluation_note_text(
    evaluation: EvolveEvaluationSummaryModel,
    candidates: Seq<EvolveCandidateSummaryModel>,
) -> Seq<char> {
    let t = "# Evolution Evaluation\n\nGenerated by veritas after applying selected candidates and rerunning verification.\n\n- Outcome: `"@
        + evaluation.outcome.name_text()
        + "`\n- Decision: `"@
        + decision_of(evaluation.outcome)
        + "`\n- Confidence: `"@
        + decimal(evaluation.before_confidence as int)
        + "` -> `"@
        + decimal(evaluation.after_confidence as int)
        + "` (`"@
        + plus_decimal(evaluation.delta.confidence_delta as int)
        + "`)\n"@;
    let t = match evaluation.delta.mutation_score_delta {
        Some(d) => {
            let t = t + "- Mutation score delta: `"@ + plus_decimal(d as int) + "`\n"@;
            t
        },
        None => {
            t
        },
    };
    let t = t
        + "- Surviving mutant delta: `"@
        + plus_decimal(evaluation.delta.surviving_mutants_delta as int)
        + "`\n- Finding delta: `"@
        + plus_decimal(evaluation.delta.findings_delta as int)
        + "`\n- Replay case delta: `"@
        + plus_decimal(evaluation.delta.replay_cases_delta as int)
        + "`\n"@;
    let t = match evaluation.error {
        Some(error) => {
            let t = t + "- Error: "@ + error + "\n"@;
            t
        },
        None => {
            t
        },
    };
    let t = t
        + "\n## Candidate Decisions\n\n"@
        + decision_lines(candidates, decision_of(evaluation.outcome))
        + "\n## Keep Rule\n\nVeritas keeps generated evolution artifacts only when the evaluated report improves. Rejected artifacts are removed and the previous report is restored for review.\n"@;
    t
}

fn evaluation_note(
    evaluation: &EvolveEvaluationSummary,
    candidates: &Vec<EvolveCandidateSummary>,
) -> (r: String)
    ensures
        r@ == evaluation_note_text(evaluation.deep_view(), candidates.deep_view()),
{
    let mut out = owned("# Evolution Evaluation\n\nGenerated by veritas after applying selected candidates and rerunning verification.\n\n- Outcome: `");
    out.append(evaluation.outcome.name());
    out.append("`\n- Decision: `");
    out.append(decision_word(evaluation.outcome));
    out.append("`\n- Confidence: `");
    out.append(print_u8(evaluation.before_confidence).as_str());
    out.append("` -> `");
    out.append(print_u8(evaluation.after_confidence).as_str());
    out.append("` (`");
    out.append(print_plus(evaluation.delta.confidence_delta as i64).as_str());
    out.append("`)\n");
    if let Some(d) = &evaluation.delta.mutation_score_delta {
        out.append("- Mutation score delta: `");
        out.append(print_plus(*d as i64).as_str());
        out.append("`\n");
    }
    out.append("- Surviving mutant delta: `");
    out.append(print_plus(evaluation.delta.surviving_mutants_delta as i64).as_str());
    out.append("`\n- Finding delta: `");
    out.append(print_plus(evaluation.delta.findings_delta as i64).as_str());
    out.append("`\n- Replay case delta: `");
    out.append(print_plus(evaluation.delta.replay_cases_delta as i64).as_str());
    out.append("`\n");
    if let Some(error) = &evaluation.error {
        out.append("- Error: ");
        out.append(error.as_str());
        out.append("\n");
    }
    out.append("\n## Candidate Decisions\n\n");
    push_decision_lines(&mut out, candidates, decision_word(evaluation.outcome));
    out.append("\n## Keep Rule\n\nVeritas keeps generated evolution artifacts only when the evaluated report improves. Rejected artifacts are removed and the previous report is restored for review.\n");
    out
}

/// The artifact of an evaluation.
pub open spec fn evaluation_artifact_of(
    language: Seq<char>,
    generation: int,
    evaluation: EvolveEvaluationSummaryModel,
    candidates: Seq<EvolveCandidateSummaryModel>,
) -> GeneratedArtifactModel {
    planned(
        language + "-evolution-evaluation-"@ + decimal(generation),
        language,
        ArtifactKind::EvolutionCandidate,
        language + ":evolution"@,
        ".veritas/evolution/"@ + language + "_evaluation_"@ + decimal(generation) + ".md"@,
        evaluation_note_text(evaluation, candidates),
        "Before/after proof and keep-or-reject decision for an evolution generation"@,
    )
}

/// The artifact of an evaluation.
pub fn evolution_evaluation_artifact(
    language: &str,
    generation: u32,
    evaluation: &EvolveEvaluationSummary,
    candidates: &Vec<EvolveCandidateSummary>,
) -> (r: GeneratedArtifact)
    ensures
        r.deep_view() == evaluation_artifact_of(
            language@,
            generation as int,
            evaluation.deep_view(),
            candidates.deep_view(),
        ),
{
    let number = print_u32(generation);
    plan_artifact(
        cat3(language, "-evolution-evaluation-", number.as_str()),
        language,
        ArtifactKind::EvolutionCandidate,
        cat2(language, ":evolution"),
        cat5(".veritas/evolution/", language, "_evaluation_", number.as_str(), ".md"),
        evaluation_note(evaluation, candidates),
        "Before/after proof and keep-or-reject decision for an evolution generation",
    )
}

// ---------------------------------------------------------------------------
// Generations
// ---------------------------------------------------------------------------
/// What became of a candidate in a generation: rejected where it was not applied or
/// the report regressed, kept where it improved, and applied otherwise.
pub open spec fn status_after(
    applied: bool,
    outcome: EvolutionOutcome,
) -> EvolutionCandidateStatus {
    if !applied {
        EvolutionCandidateStatus::Rejected
    } else {
        match outcome {
            EvolutionOutcome::Improved => EvolutionCandidateStatus::Kept,
            EvolutionOutcome::Neutral => EvolutionCandidateStatus::Applied,
            EvolutionOutcome::FailedToEvaluate => EvolutionCandidateStatus::Applied,
            EvolutionOutcome::Regressed => EvolutionCandidateStatus::Rejected,
        }
    }
}

/// What became of a candidate in a generation.
pub fn generation_candidate_status(
    candidate: &EvolveCandidateSummary,
    outcome: EvolutionOutcome,
) -> (r: EvolutionCandidateStatus)
    ensures
        r == status_after(candidate.applied, outcome),
{
    if !candidate.applied {
        return EvolutionCandidateStatus::Rejected;
    }
    match outcome {
        EvolutionOutcome::Improved => EvolutionCandidateStatus::Kept,
        EvolutionOutcome::Neutral => EvolutionCandidateStatus::Applied,
        EvolutionOutcome::FailedToEvaluate => EvolutionCandidateStatus::Applied,
        EvolutionOutcome::Regressed => EvolutionCandidateStatus::Rejected,
    }
}

/// A candidate is kept only where it was applied and the report improved.
pub proof fn law_kept_means_improved(applied: bool, outcome: EvolutionOutcome)
    ensures
        (status_after(applied, outcome) == EvolutionCandidateStatus::Kept) == (applied && keeps(
            outcome,
        )),
{
}

/// What a generation did with a candidate.
pub open spec fn generation_entry(
    c: EvolveCandidateSummaryModel,
    outcome: EvolutionOutcome,
) -> EvolutionGenerationCandidateModel {
    EvolutionGenerationCandidateModel {
        id: c.id,
        target_id: c.target_id,
        previous_status: c.status,
        status: status_after(c.applied, outcome),
        outcome: if c.applied {
            outcome
        } else {
            EvolutionOutcome::FailedToEvaluate
        },
        applied: c.applied,
        written_paths: c.written_paths,
        skipped_reason: c.skipped_reason,
    }
}

fn entry_of_candidate(c: &EvolveCandidateSummary, outcome: EvolutionOutcome) -> (r:
    EvolutionGenerationCandidate)
    ensures
        r.deep_view() == generation_entry(c.deep_view(), outcome),
{
    EvolutionGenerationCandidate {
        id: c.id.clone(),
        target_id: c.target_id.clone(),
        previous_status: c.status,
        status: generation_candidate_status(c, outcome),
        outcome: if c.applied {
            outcome
        } else {
            EvolutionOutcome::FailedToEvaluate
        },
        applied: c.applied,
        written_paths: clone_texts(&c.written_paths),
        skipped_reason: clone_text(&c.skipped_reason),
    }
}

/// What a generation did with each candidate.
pub open spec fn generation_entries(
    outcome: EvolutionOutcome,
    items: Seq<EvolveCandidateSummaryModel>,
) -> Seq<EvolutionGenerationCandidateModel>
    decreases items.len(),
{
    if items.len() == 0 {
        Seq::empty()
    } else {
        generation_entries(outcome, items.drop_last()).push(generation_entry(items.last(), outcome))
    }
}

fn entries_of_candidates(
    outcome: EvolutionOutcome,
    items: &Vec<EvolveCandidateSummary>,
) -> (r: Vec<EvolutionGenerationCandidate>)
    ensures
        r.deep_view() == generation_entries(outcome, items.deep_view()),
{
    let mut out: Vec<EvolutionGenerationCandidate> = Vec::new();
    let ghost all = items.deep_view();
    let mut i: usize = 0;
    assert(out.deep_view() == generation_entries(outcome, all.take(0)));
    while i < items.len()
        invariant
            i <= items@.len(),
            all == items.deep_view(),
            out.deep_view() == generation_entries(outcome, all.take(i as int)),
        decreases items@.len() - i,
    {
        proof {
            lemma_take_next(all, i as int);
        }
        push_evolution_generation_candidate(&mut out, entry_of_candidate(&items[i], outcome));
        i = i + 1;
    }
    proof {
        lemma_take_all(all);
    }
    out
}

/// Whether a candidate was applied.
pub open spec fn some_applied(items: Seq<EvolveCandidateSummaryModel>) -> bool {
    exists|k: int| 0 <= k < items.len() && (#[trigger] items[k]).applied
}

fn any_applied(items: &Vec<EvolveCandidateSummary>) -> (r: bool)
    ensures
        r == some_applied(items.deep_view()),
{
    let ghost all = items.deep_view();
    let mut i: usize = 0;
    while i < items.len()
        invariant
            i <= items@.len(),
            all == items.deep_view(),
            forall|k: int| 0 <= k < i ==> !((#[trigger] all[k]).applied),
        decreases items@.len() - i,
    {
        assert(all[i as int] == items@[i as int].deep_view());
        if items[i].applied {
            return true;
        }
        i = i + 1;
    }
    false
}

/// The outcome of a generation: that of its evaluation, or, where it had none,
/// neutral if a candidate was applied.
pub open spec fn generation_outcome(
    evaluation: Option<EvolveEvaluationSummaryModel>,
    candidates: Seq<EvolveCandidateSummaryModel>,
) -> EvolutionOutcome {
    match evaluation {
        Some(known) => known.outcome,
        None => if some_applied(candidates) {
            EvolutionOutcome::Neutral
        } else {
            EvolutionOutcome::FailedToEvaluate
        },
    }
}

/// The record of a generation.
pub open spec fn generation_of(
    language: Seq<char>,
    generation: u32,
    parent_suite: Seq<char>,
    created_unix_seconds: u64,
    candidates: Seq<EvolveCandidateSummaryModel>,
    evaluation: Option<EvolveEvaluationSummaryModel>,
    written_paths: Seq<Seq<char>>,
) -> EvolutionGenerationModel {
    let outcome = generation_outcome(evaluation, candidates);
    EvolutionGenerationModel {
        version: 1,
        language,
        generation,
        parent_suite,
        created_unix_seconds,
        outcome,
        candidates: generation_entries(outcome, candidates),
        delta: match evaluation {
            Some(known) => Some(known.delta),
            None => None,
        },
        written_paths,
    }
}

/// The artifact of a generation.
pub open spec fn generation_artifact_of(
    language: Seq<char>,
    generation: EvolutionGenerationModel,
) -> GeneratedArtifactModel {
    planned(
        language + "-evolution-generation-"@ + decimal(generation.generation as int),
        language,
        ArtifactKind::EvolutionCandidate,
        language + ":evolution"@,
        ".veritas/evolution/"@ + language + "_generation_"@ + decimal(generation.generation as int)
            + ".json"@,
        formatted_json(evolution_generation_document(generation)),
        "Persisted evolutionary generation outcome and quality deltas"@,
    )
}

/// The generation that a text holds; nothing where it holds none.
pub open spec fn generation_in_text(contents: Seq<char>) -> Option<EvolutionGenerationModel> {
    match exact_json(contents) {
        Some(value) => evolution_generation_in(value),
        None => None,
    }
}

/// Reads the generation of a text; nothing where the text holds none.
pub fn parse_evolution_generation(contents: &str) -> (r: Option<EvolutionGeneration>)
    ensures
        r.deep_view() == generation_in_text(contents@),
{
    match parse_exact(contents) {
        Some(value) => read_evolution_generation(&value),
        None => None,
    }
}

/// The artifact of a generation, from which the generation is read back as it was.
pub fn evolution_generation_artifact(
    language: &str,
    number: u32,
    suite_path: &str,
    created_unix_seconds: u64,
    candidates: &Vec<EvolveCandidateSummary>,
    evaluation: &Option<EvolveEvaluationSummary>,
    written_paths: &Vec<String>,
) -> (r: GeneratedArtifact)
    ensures
        r.deep_view() == generation_artifact_of(
            language@,
            generation_of(
                language@,
                number,
                suite_path@,
                created_unix_seconds,
                candidates.deep_view(),
                evaluation.deep_view(),
                written_paths.deep_view(),
            ),
        ),
        generation_in_text(r.contents@) == Some(
            generation_of(
                language@,
                number,
                suite_path@,
                created_unix_seconds,
                candidates.deep_view(),
                evaluation.deep_view(),
                written_paths.deep_view(),
            ),
        ),
{
    let outcome = match evaluation {
        Some(known) => known.outcome,
        None => if any_applied(candidates) {
            EvolutionOutcome::Neutral
        } else {
            EvolutionOutcome::FailedToEvaluate
        },
    };
    let generation = EvolutionGeneration {
        version: 1,
        language: owned(language),
        generation: number,
        parent_suite: owned(suite_path),
        created_unix_seconds,
        outcome,
        candidates: entries_of_candidates(outcome, candidates),
        delta: match evaluation {
            Some(known) => Some(known.delta),
            None => None,
        },
        written_paths: clone_texts(written_paths),
    };
    proof {
        lemma_evolution_generation_reads(generation.deep_view());
        lemma_evolution_generation_is_plain(generation.deep_view(), 100);
        lemma_plain_values_are_exact(100);
    }
    let digits = print_u32(number);
    plan_artifact(
        cat3(language, "-evolution-generation-", digits.as_str()),
        language,
        ArtifactKind::EvolutionCandidate,
        cat2(language, ":evolution"),
        cat5(".veritas/evolution/", language, "_generation_", digits.as_str(), ".json"),
        formatted(&evolution_generation_json(&generation)),
        "Persisted evolutionary generation outcome and quality deltas",
    )
}

/// The generation that a file of a language holds, by the name of the file.
pub open spec fn generation_in_name(language: Seq<char>, name: Seq<char>) -> Option<int> {
    match without_prefix(name, language + "_generation_"@) {
        Some(rest) => match without_suffix(rest, ".json"@) {
            Some(digits) => parsed(digits, u32::MAX as int),
            None => None,
        },
        None => None,
    }
}

fn read_generation(language: &str, name: &str) -> (r: Option<u32>)
    ensures
        r matches Some(n) ==> generation_in_name(language@, name@) == Some(n as int),
        r is None ==> generation_in_name(language@, name@) is None,
{
    match strip_prefix(name, cat2(language, "_generation_").as_str()) {
        Some(rest) => match strip_suffix(rest.as_str(), ".json") {
            Some(digits) => read_u32(digits.as_str()),
            None => None,
        },
        None => None,
    }
}

/// The highest generation of a language that the names of files hold, or zero.
pub open spec fn highest_generation(language: Seq<char>, names: Seq<Seq<char>>) -> int
    decreases names.len(),
{
    if names.len() == 0 {
        0
    } else {
        let before = highest_generation(language, names.drop_last());
        match generation_in_name(language, names.last()) {
            Some(n) => if n > before {
                n
            } else {
                before
            },
            None => before,
        }
    }
}

/// The highest generation of a language that the names of files hold, or zero.
pub fn last_generation(language: &str, names: &Vec<String>) -> (r: u32)
    ensures
        r == highest_generation(language@, names.deep_view()),
{
    let ghost all = names.deep_view();
    let mut highest: u32 = 0;
    let mut i: usize = 0;
    while i < names.len()
        invariant
            i <= names@.len(),
            all == names.deep_view(),
            highest == highest_generation(language@, all.take(i as int)),
        decreases names@.len() - i,
    {
        proof {
            lemma_take_next(all, i as int);
        }
        if let Some(n) = read_generation(language, names[i].as_str()) {
            if n > highest {
                highest = n;
            }
        }
        i = i + 1;
    }
    proof {
        lemma_take_all(all);
    }
    highest
}

/// The number of the next generation of a language, from the names of the files of
/// those before it.
pub fn next_evolution_generation(language: &str, names: &Vec<String>) -> (r: u32)
    requires
        highest_generation(language@, names.deep_view()) < u32::MAX,
    ensures
        r == highest_generation(language@, names.deep_view()) + 1,
{
    last_generation(language, names) + 1
}

/// The next generation is above every one before it.
pub proof fn law_next_generation_is_new(language: Seq<char>, names: Seq<Seq<char>>, i: int)
    requires
        0 <= i < names.len(),
    ensures
        generation_in_name(language, names[i]) matches Some(n) ==> n < highest_generation(
            language,
            names,
        ) + 1,
    decreases names.len(),
{
    if i < names.len() - 1 {
        law_next_generation_is_new(language, names.drop_last(), i);
    }
}

/// The generation that a file holds, of whatever language, by its name.
pub open spec fn generation_number(name: Seq<char>) -> Option<int> {
    match rcut_text(name, "_generation_"@) {
        Some(sides) => match without_suffix(sides.1, ".json"@) {
            Some(digits) => parsed(digits, u32::MAX as int),
            None => None,
        },
        None => None,
    }
}

fn read_generation_number(name: &str) -> (r: Option<u32>)
    ensures
        r matches Some(n) ==> generation_number(name@) == Some(n as int),
        r is None ==> generation_number(name@) is None,
{
    match rsplit_once_text(name, "_generation_") {
        Some(sides) => match strip_suffix(sides.1.as_str(), ".json") {
            Some(digits) => read_u32(digits.as_str()),
            None => None,
        },
        None => None,
    }
}

/// The place of the name with the highest generation, the first of them where there
/// are several.
pub open spec fn latest_in(names: Seq<Seq<char>>) -> Option<int>
    decreases names.len(),
{
    if names.len() == 0 {
        None
    } else {
        let before = latest_in(names.drop_last());
        match (generation_number(names.last()), before) {
            (Some(n), Some(at)) => if n > generation_number(names[at])->0 {
                Some(names.len() - 1)
            } else {
                before
            },
            (Some(n), None) => Some(names.len() - 1),
            (None, _) => before,
        }
    }
}

proof fn lemma_latest_is_named(names: Seq<Seq<char>>)
    ensures
        latest_in(names) matches Some(at) ==> 0 <= at < names.len() && generation_number(
            names[at],
        ) is Some,
    decreases names.len(),
{
    if names.len() > 0 {
        lemma_latest_is_named(names.drop_last());
    }
}

/// The place of the name with the highest generation.
pub fn latest_generation_name(names: &Vec<String>) -> (r: Option<usize>)
    ensures
        r matches Some(at) ==> at < names@.len() && latest_in(names.deep_view()) == Some(at as int),
        r is None ==> latest_in(names.deep_view()) is None,
{
    let ghost all = names.deep_view();
    let mut latest: Option<(usize, u32)> = None;
    let mut i: usize = 0;
    while i < names.len()
        invariant
            i <= names@.len(),
            all == names.deep_view(),
            latest matches Some(found) ==> found.0 < i && latest_in(all.take(i as int)) == Some(
                found.0 as int,
            ) && generation_number(all[found.0 as int]) == Some(found.1 as int),
            latest is None ==> latest_in(all.take(i as int)) is None,
        decreases names@.len() - i,
    {
        proof {
            lemma_take_next(all, i as int);
            lemma_latest_is_named(all.take(i as int));
        }
        if let Some(n) = read_generation_number(names[i].as_str()) {
            let newer = match latest {
                Some(found) => n > found.1,
                None => true,
            };
            if newer {
                latest = Some((i, n));
            }
        }
        i = i + 1;
    }
    proof {
        lemma_take_all(all);
    }
    match latest {
        Some(found) => Some(found.0),
        None => None,
    }
}

/// No name holds a higher generation than the latest.
pub proof fn law_latest_is_highest(names: Seq<Seq<char>>, i: int)
    requires
        0 <= i < names.len(),
        generation_number(names[i]) is Some,
    ensures
        latest_in(names) is Some,
        generation_number(names[i])->0 <= generation_number(names[latest_in(names)->0])->0,
    decreases names.len(),
{
    lemma_latest_is_named(names.drop_last());
    if i < names.len() - 1 {
        law_latest_is_highest(names.drop_last(), i);
    }
}

// ---------------------------------------------------------------------------
// Suites
// ---------------------------------------------------------------------------
/// The path of the suite of a language.
pub open spec fn suite_path_of(language: Seq<char>) -> Seq<char> {
    ".veritas/evolution/"@ + language + "_suite.json"@
}

/// The path of the suite of a language.
pub fn suite_path(language: &str) -> (r: String)
    ensures
        r@ == suite_path_of(language@),
{
    cat3(".veritas/evolution/", language, "_suite.json")
}

/// Whether a path is that of a suite.
pub open spec fn is_suite_path(path: Seq<char>) -> bool {
    name_in_path(path) matches Some(name) && ends(name, "_suite.json"@)
}

fn suite_named(path: &str) -> (r: bool)
    ensures
        r == is_suite_path(path@),
{
    match file_name(path) {
        Some(name) => ends_with(name.as_str(), "_suite.json"),
        None => false,
    }
}

/// The paths that are those of suites.
pub open spec fn suite_paths(paths: Seq<Seq<char>>) -> Seq<Seq<char>>
    decreases paths.len(),
{
    if paths.len() == 0 {
        Seq::empty()
    } else if is_suite_path(paths.last()) {
        suite_paths(paths.drop_last()).push(paths.last())
    } else {
        suite_paths(paths.drop_last())
    }
}

/// The one suite among the paths. It fails where there is none and where there are
/// several.
pub fn discover_single_evolution_suite(paths: &Vec<String>) -> (r: Result<String, String>)
    ensures
        r matches Ok(path) ==> suite_paths(paths.deep_view()) == seq![path@],
        r matches Err(message) ==> suite_paths(paths.deep_view()).len() != 1 && message@ == (
        if suite_paths(paths.deep_view()).len() == 0 {
            "no evolution suite found under .veritas/evolution; run veritas verify first"@
        } else {
            "multiple evolution suites found; pass --lang <language>"@
        }),
{
    let ghost all = paths.deep_view();
    let mut suites: Vec<String> = Vec::new();
    let mut i: usize = 0;
    assert(suites.deep_view() =~= suite_paths(all.take(0)));
    while i < paths.len()
        invariant
            i <= paths@.len(),
            all == paths.deep_view(),
            suites.deep_view() == suite_paths(all.take(i as int)),
        decreases paths@.len() - i,
    {
        proof {
            lemma_take_next(all, i as int);
        }
        if suite_named(paths[i].as_str()) {
            push_text(&mut suites, paths[i].clone());
        }
        i = i + 1;
    }
    proof {
        lemma_take_all(all);
    }
    assert(suites@.len() == suites.deep_view().len());
    if suites.len() == 0 {
        Err(owned("no evolution suite found under .veritas/evolution; run veritas verify first"))
    } else if suites.len() == 1 {
        let path = suites[0].clone();
        assert(suites.deep_view() =~= seq![path@]);
        Ok(path)
    } else {
        Err(owned("multiple evolution suites found; pass --lang <language>"))
    }
}

/// The suite that a text holds: the record that the text is, or what the document has under
/// `suite`; nothing where it holds none.
pub open spec fn suite_in_text(contents: Seq<char>) -> Option<EvolutionSuiteModel> {
    match suite_under(contents, None) {
        Some(suite) => Some(suite),
        None => suite_under(contents, Some("suite"@)),
    }
}

/// Reads the suite of a text; nothing where the text holds none.
pub fn parse_evolution_suite(contents: &str) -> (r: Option<EvolutionSuite>)
    ensures
        r.deep_view() == suite_in_text(contents@),
{
    match read_whole_suite(contents) {
        Some(suite) => Some(suite),
        None => read_suite_under(contents),
    }
}

/// What an evolution did.
pub fn evolve_summary(
    request: EvolveRequest,
    language: &str,
    suite_path: &str,
    candidates: Vec<EvolveCandidateSummary>,
    written_paths: Vec<String>,
    evaluation: Option<EvolveEvaluationSummary>,
) -> (r: EvolveSummary)
    ensures
        r.deep_view() == (EvolveSummaryModel {
            dry_run: request.dry_run,
            language: language@,
            suite_path: suite_path@,
            candidates: candidates.deep_view(),
            written_paths: written_paths.deep_view(),
            evaluation: evaluation.deep_view(),
        }),
{
    EvolveSummary {
        dry_run: request.dry_run,
        language: owned(language),
        suite_path: owned(suite_path),
        candidates,
        written_paths,
        evaluation,
    }
}

// ---------------------------------------------------------------------------
// The end of an evolution
// ---------------------------------------------------------------------------
/// What is left to do after an evolution: the paths to remove, whether the report before it
/// comes back, the artifacts to write, and the summary.
#[derive(Debug, PartialEq, Eq)]
pub struct EvolveEnd {
    pub remove: Vec<String>,
    pub restore_report: bool,
    pub artifacts: Vec<GeneratedArtifact>,
    pub summary: EvolveSummary,
}

/// The mathematical value of an `EvolveEnd`.
pub struct EvolveEndModel {
    pub remove: Seq<Seq<char>>,
    pub restore_report: bool,
    pub artifacts: Seq<GeneratedArtifactModel>,
    pub summary: EvolveSummaryModel,
}

impl DeepView for EvolveEnd {
    type V = EvolveEndModel;

    open spec fn deep_view(&self) -> EvolveEndModel {
        EvolveEndModel {
            remove: self.remove.deep_view(),
            restore_report: self.restore_report,
            artifacts: self.artifacts.deep_view(),
            summary: self.summary.deep_view(),
        }
    }
}

/// Whether an evolution was evaluated and is not kept.
pub open spec fn is_rejected(evaluation: Option<EvolveEvaluationSummaryModel>) -> bool {
    match evaluation {
        Some(known) => !keeps(known.outcome),
        None => false,
    }
}

/// The artifact of the evaluation, where there is one.
pub open spec fn evaluation_artifacts_of(
    language: Seq<char>,
    generation: u32,
    candidates: Seq<EvolveCandidateSummaryModel>,
    evaluation: Option<EvolveEvaluationSummaryModel>,
) -> Seq<GeneratedArtifactModel> {
    match evaluation {
        Some(known) => seq![
            evaluation_artifact_of(language, generation as int, known, candidates),
        ],
        None => Seq::empty(),
    }
}

/// The paths that an evolution wrote before its generation is recorded.
pub open spec fn paths_before_record(
    language: Seq<char>,
    generation: u32,
    candidates: Seq<EvolveCandidateSummaryModel>,
    written: Seq<Seq<char>>,
    evaluation: Option<EvolveEvaluationSummaryModel>,
) -> Seq<Seq<char>> {
    written + evaluation_artifacts_of(language, generation, candidates, evaluation).map_values(
        |artifact: GeneratedArtifactModel| artifact.path,
    )
}

/// What is left to do after an evolution. A dry run leaves nothing. Else the generation is
/// recorded, with the evaluation where there is one; what was written is removed, and the
/// report before it comes back, where the evaluation does not keep it.
pub open spec fn evolution_end(
    request: EvolveRequest,
    language: Seq<char>,
    suite_path: Seq<char>,
    candidates: Seq<EvolveCandidateSummaryModel>,
    written: Seq<Seq<char>>,
    evaluation: Option<EvolveEvaluationSummaryModel>,
    generation: u32,
    created_unix_seconds: u64,
) -> EvolveEndModel {
    let before = paths_before_record(language, generation, candidates, written, evaluation);
    let record = generation_artifact_of(
        language,
        generation_of(
            language,
            generation,
            suite_path,
            created_unix_seconds,
            candidates,
            evaluation,
            before,
        ),
    );
    let summary = EvolveSummaryModel {
        dry_run: request.dry_run,
        language,
        suite_path,
        candidates,
        written_paths: if request.dry_run {
            written
        } else {
            before.push(record.path)
        },
        evaluation,
    };
    if request.dry_run {
        EvolveEndModel {
            remove: Seq::empty(),
            restore_report: false,
            artifacts: Seq::empty(),
            summary,
        }
    } else {
        EvolveEndModel {
            remove: if is_rejected(evaluation) {
                written
            } else {
                Seq::empty()
            },
            restore_report: is_rejected(evaluation),
            artifacts: evaluation_artifacts_of(
                language,
                generation,
                candidates,
                evaluation,
            ).push(record),
            summary,
        }
    }
}

/// Ends an evolution whose artifacts were written and, where that was asked for, evaluated.
/// `generation` is the number of the next generation.
pub fn evolve(
    request: EvolveRequest,
    language: &str,
    suite_path: &str,
    candidates: Vec<EvolveCandidateSummary>,
    written: Vec<String>,
    evaluation: Option<EvolveEvaluationSummary>,
    generation: u32,
    created_unix_seconds: u64,
) -> (r: EvolveEnd)
    ensures
        r.deep_view() == evolution_end(
            request,
            language@,
            suite_path@,
            candidates.deep_view(),
            written.deep_view(),
            evaluation.deep_view(),
            generation,
            created_unix_seconds,
        ),
{
    let mut remove: Vec<String> = Vec::new();
    let mut artifacts: Vec<GeneratedArtifact> = Vec::new();
    assert(remove.deep_view() =~= Seq::<Seq<char>>::empty());
    assert(artifacts.deep_view() =~= Seq::<GeneratedArtifactModel>::empty());
    if request.dry_run {
        let summary = evolve_summary(
            request,
            language,
            suite_path,
            candidates,
            written,
            evaluation,
        );
        return EvolveEnd { remove, restore_report: false, artifacts, summary };
    }
    let rejected = match &evaluation {
        Some(known) => !evolution_evaluation_keeps_candidates(known.outcome),
        None => false,
    };
    if rejected {
        remove = clone_texts(&written);
    }
    let ghost before = written.deep_view();
    let mut paths = written;
    match &evaluation {
        Some(known) => {
            let artifact = evolution_evaluation_artifact(
                language,
                generation,
                known,
                &candidates,
            );
            push_text(&mut paths, artifact.path.clone());
            push_generated_artifact(&mut artifacts, artifact);
        },
        None => {},
    }
    proof {
        let first = evaluation_artifacts_of(
            language@,
            generation,
            candidates.deep_view(),
            evaluation.deep_view(),
        );
        assert(artifacts.deep_view() =~= first);
        assert(paths.deep_view() =~= paths_before_record(
            language@,
            generation,
            candidates.deep_view(),
            before,
            evaluation.deep_view(),
        ));
    }
    let record = evolution_generation_artifact(
        language,
        generation,
        suite_path,
        created_unix_seconds,
        &candidates,
        &evaluation,
        &paths,
    );
    push_text(&mut paths, record.path.clone());
    push_generated_artifact(&mut artifacts, record);
    let summary = evolve_summary(request, language, suite_path, candidates, paths, evaluation);
    EvolveEnd { remove, restore_report: rejected, artifacts, summary }
}

/// Of an evolution that made something worse nothing stays: every path that it wrote is
/// removed, and the report before it comes back.
pub proof fn law_rejected_work_is_undone(
    request: EvolveRequest,
    language: Seq<char>,
    suite_path: Seq<char>,
    candidates: Seq<EvolveCandidateSummaryModel>,
    written: Seq<Seq<char>>,
    evaluation: EvolveEvaluationSummaryModel,
    generation: u32,
    created_unix_seconds: u64,
)
    requires
        !request.dry_run,
        evaluation.outcome != EvolutionOutcome::Improved,
    ensures
        evolution_end(
            request,
            language,
            suite_path,
            candidates,
            written,
            Some(evaluation),
            generation,
            created_unix_seconds,
        ).remove == written,
        evolution_end(
            request,
            language,
            suite_path,
            candidates,
            written,
            Some(evaluation),
            generation,
            created_unix_seconds,
        ).restore_report,
{
}

} // verus!
