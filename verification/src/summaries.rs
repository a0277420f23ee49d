//! What commands say of what they did.
use vstd::prelude::*;

use crate::api::{
    ArtifactKind, CommandRecord, CommandRecordModel, Failure, FailureModel, GeneratedArtifact,
    GeneratedArtifactModel, TestRunResult, TestRunResultModel, VerificationReport,
    VerificationReportModel,
};
use crate::bench::{percent_or_na, percent_text};
use crate::documents::{verification_report_document, verification_report_json};
use crate::json::Json;
use crate::next::{plain_lines, push_titled_plain, push_titled_quoted, quoted_lines, titled};
use crate::number::{decimal, plus_decimal, print_plus, print_u8, print_usize};
use crate::output::{gives, print_document, printed, unsupported_format, OutputFormat};
use crate::records::{
    BaselineSummary, BaselineSummaryModel, CleanupSummary, CorpusReplaySummary,
    CorpusReplaySummaryModel, EvolveCandidateSummary, EvolveCandidateSummaryModel,
    EvolveEvaluationSummary, EvolveEvaluationSummaryModel, EvolveSummary, EvolveSummaryModel,
    PromotionSummary, QualityBaselineSummary, QualityBaselineSummaryModel,
};
use crate::review::{code_lines, push_code};
use crate::seqs::{lemma_take_all, lemma_take_next};
use crate::split::{join, joined, push_text};
use crate::text::{owned, same};

verus! {

// ---------------------------------------------------------------------------
// Files
// ---------------------------------------------------------------------------
/// The words of a command that leaves files behind: that there are none, or which they are.
pub open spec fn file_words(
    command: Seq<char>,
    dry_run: bool,
    paths: Seq<Seq<char>>,
    none: Seq<char>,
    planned: Seq<char>,
    done: Seq<char>,
) -> Seq<char> {
    "# veritas "@ + command + (if dry_run {
        " (dry run)\n\n"@
    } else {
        "\n\n"@
    }) + (if paths.len() == 0 {
        none
    } else if dry_run {
        planned + code_lines(paths)
    } else {
        done + code_lines(paths)
    })
}

fn render_files(
    command: &str,
    dry_run: bool,
    paths: &Vec<String>,
    none: &str,
    planned: &str,
    done: &str,
) -> (r: String)
    ensures
        r@ == file_words(command@, dry_run, paths.deep_view(), none@, planned@, done@),
{
    assert(paths@.len() == paths.deep_view().len());
    let mut out = owned("# veritas ");
    out.append(command);
    out.append(
        if dry_run {
            " (dry run)\n\n"
        } else {
            "\n\n"
        },
    );
    if paths.len() == 0 {
        out.append(none);
    } else {
        out.append(
            if dry_run {
                planned
            } else {
                done
            },
        );
        push_code(&mut out, paths);
    }
    assert(out@ =~= file_words(command@, dry_run, paths.deep_view(), none@, planned@, done@));
    out
}

/// What is said of findings that were promoted by a command.
pub fn print_named_promotion_summary(command: &str, summary: &PromotionSummary) -> (r: String)
    ensures
        r@ == file_words(
            command@,
            summary.dry_run,
            summary.deep_view().paths,
            "No saved findings were available to promote.\n"@,
            "Would write promotion artifacts:\n"@,
            "Wrote promotion artifacts:\n"@,
        ),
{
    render_files(
        command,
        summary.dry_run,
        &summary.paths,
        "No saved findings were available to promote.\n",
        "Would write promotion artifacts:\n",
        "Wrote promotion artifacts:\n",
    )
}

/// What is said of repros that were promoted.
pub fn print_promotion_summary(summary: &PromotionSummary) -> (r: String)
    ensures
        r@ == file_words(
            "promote-repro"@,
            summary.dry_run,
            summary.deep_view().paths,
            "No saved findings were available to promote.\n"@,
            "Would write promotion artifacts:\n"@,
            "Wrote promotion artifacts:\n"@,
        ),
{
    print_named_promotion_summary("promote-repro", summary)
}

/// What is said of generated files that were removed.
pub fn print_cleanup_summary(summary: &CleanupSummary) -> (r: String)
    ensures
        r@ == file_words(
            "cleanup"@,
            summary.dry_run,
            summary.deep_view().paths,
            "No generated veritas artifacts found.\n"@,
            "Would remove generated artifacts:\n"@,
            "Removed generated artifacts:\n"@,
        ),
{
    render_files(
        "cleanup",
        summary.dry_run,
        &summary.paths,
        "No generated veritas artifacts found.\n",
        "Would remove generated artifacts:\n",
        "Removed generated artifacts:\n",
    )
}

// ---------------------------------------------------------------------------
// Evolution
// ---------------------------------------------------------------------------
/// The lines of an evaluation.
#[verifier::opaque]
pub open spec fn evaluation_lines_text(evaluation: EvolveEvaluationSummaryModel) -> Seq<char> {
    let t = "- Evaluation: `"@
        + evaluation.outcome.name_text()
        + "`\n- Confidence delta: `"@
        + decimal(evaluation.before_confidence as int)
        + "` -> `"@
        + decimal(evaluation.after_confidence as int)
        + "` (`"@
        + plus_decimal(evaluation.delta.confidence_delta as int)
        + "`)\n"@;
    let t = match evaluation.delta.mutation_score_delta {
        Some(n) => {
            let t = t + "- Mutation score delta: `"@ + plus_decimal(n as int) + "`\n"@;
            t
        },
        None => {
            t
        },
    };
    let t = t
        + "- Survivor/findings delta: `"@
        + plus_decimal(evaluation.delta.surviving_mutants_delta as int)
        + "` / `"@
        + plus_decimal(evaluation.delta.findings_delta as int)
        + "`\n"@;
    let t = match evaluation.error {
        Some(error) => {
            let t = t + "- Evaluation error: "@ + error + "\n"@;
            t
        },
        None => {
            t
        },
    };
    t
}

fn evaluation_lines(evaluation: &EvolveEvaluationSummary) -> (r: String)
    ensures
        r@ == evaluation_lines_text(evaluation.deep_view()),
{
    proof {
        reveal(evaluation_lines_text);
    }
    let mut out = owned("- Evaluation: `");
    out.append(evaluation.outcome.name());
    out.append("`\n- Confidence delta: `");
    out.append(print_u8(evaluation.before_confidence).as_str());
    out.append("` -> `");
    out.append(print_u8(evaluation.after_confidence).as_str());
    out.append("` (`");
    out.append(print_plus(evaluation.delta.confidence_delta as i64).as_str());
    out.append("`)\n");
    if let Some(n) = &evaluation.delta.mutation_score_delta {
        out.append("- Mutation score delta: `");
        out.append(print_plus(*n as i64).as_str());
        out.append("`\n");
    }
    out.append("- Survivor/findings delta: `");
    out.append(print_plus(evaluation.delta.surviving_mutants_delta as i64).as_str());
    out.append("` / `");
    out.append(print_plus(evaluation.delta.findings_delta as i64).as_str());
    out.append("`\n");
    if let Some(error) = &evaluation.error {
        out.append("- Evaluation error: ");
        out.append(error.as_str());
        out.append("\n");
    }
    out
}

/// The first lines of an evolution.
#[verifier::opaque]
pub open spec fn evolve_head_text(summary: EvolveSummaryModel) -> Seq<char> {
    let t = Seq::<char>::empty();
    let t = if summary.dry_run {
        let t = t + "# veritas evolve (dry run)\n\n"@;
        t
    } else {
        let t = t + "# veritas evolve\n\n"@;
        t
    };
    let t = t
        + "- Language: `"@
        + summary.language
        + "`\n- Suite: `"@
        + summary.suite_path
        + "`\n- Candidates: `"@
        + decimal(summary.candidates.len() as int)
        + "`\n"@;
    let t = if summary.written_paths.len() > 0 {
        let t = t
            + "- Written artifacts: `"@
            + decimal(summary.written_paths.len() as int)
            + "`\n"@;
        t
    } else {
        t
    };
    let t = match summary.evaluation {
        Some(evaluation) => {
            let t = t + evaluation_lines_text(evaluation);
            t
        },
        None => {
            t
        },
    };
    let t = t + "\n"@;
    t
}

fn evolve_head(summary: &EvolveSummary) -> (r: String)
    ensures
        r@ == evolve_head_text(summary.deep_view()),
{
    proof {
        reveal(evolve_head_text);
    }
    assert(summary.candidates@.len() == summary.candidates.deep_view().len());
    assert(summary.written_paths@.len() == summary.written_paths.deep_view().len());
    let mut out = String::new();
    assert(out@ =~= Seq::<char>::empty());
    if summary.dry_run {
        out.append("# veritas evolve (dry run)\n\n");
    } else {
        out.append("# veritas evolve\n\n");
    }
    out.append("- Language: `");
    out.append(summary.language.as_str());
    out.append("`\n- Suite: `");
    out.append(summary.suite_path.as_str());
    out.append("`\n- Candidates: `");
    out.append(print_usize(summary.candidates.len()).as_str());
    out.append("`\n");
    if summary.written_paths.len() > 0 {
        out.append("- Written artifacts: `");
        out.append(print_usize(summary.written_paths.len()).as_str());
        out.append("`\n");
    }
    if let Some(evaluation) = &summary.evaluation {
        out.append(evaluation_lines(evaluation).as_str());
    }
    out.append("\n");
    out
}

/// The first lines of a candidate.
#[verifier::opaque]
pub open spec fn candidate_lines_text(candidate: EvolveCandidateSummaryModel) -> Seq<char> {
    let t = "## ["@
        + decimal(candidate.index as int)
        + "] "@
        + candidate.id
        + " ("@
        + candidate.kind.name_text()
        + ", "@
        + candidate.status.name_text()
        + ")\n- Target: `"@
        + candidate.target_id
        + "`\n- Fitness: `"@
        + decimal(candidate.fitness_percent as int)
        + "%`\n- Action: "@
        + candidate.proposed_action
        + "\n- Keep if: "@
        + candidate.keep_if
        + "\n"@;
    t
}

fn candidate_lines(candidate: &EvolveCandidateSummary) -> (r: String)
    ensures
        r@ == candidate_lines_text(candidate.deep_view()),
{
    proof {
        reveal(candidate_lines_text);
    }
    let mut out = owned("## [");
    out.append(print_usize(candidate.index).as_str());
    out.append("] ");
    out.append(candidate.id.as_str());
    out.append(" (");
    out.append(candidate.kind.name());
    out.append(", ");
    out.append(candidate.status.name());
    out.append(")\n- Target: `");
    out.append(candidate.target_id.as_str());
    out.append("`\n- Fitness: `");
    out.append(print_u8(candidate.fitness_percent).as_str());
    out.append("%`\n- Action: ");
    out.append(candidate.proposed_action.as_str());
    out.append("\n- Keep if: ");
    out.append(candidate.keep_if.as_str());
    out.append("\n");
    out
}

/// What came of a candidate.
#[verifier::opaque]
pub open spec fn result_line_text(
    candidate: EvolveCandidateSummaryModel,
    dry_run: bool,
) -> Seq<char> {
    let t = Seq::<char>::empty();
    let t = if candidate.applied {
        let t = t + "- Result: `applied`\n"@;
        t
    } else {
        let t = match candidate.skipped_reason {
            Some(reason) => {
                let t = t + "- Result: `skipped` - "@ + reason + "\n"@;
                t
            },
            None => {
                let t = if dry_run {
                    let t = t + "- Result: `would apply or inspect`\n"@;
                    t
                } else {
                    t
                };
                t
            },
        };
        t
    };
    t
}

fn result_line(candidate: &EvolveCandidateSummary, dry_run: bool) -> (r: String)
    ensures
        r@ == result_line_text(candidate.deep_view(), dry_run),
{
    proof {
        reveal(result_line_text);
    }
    let mut out = String::new();
    assert(out@ =~= Seq::<char>::empty());
    if candidate.applied {
        out.append("- Result: `applied`\n");
    } else {
        match &candidate.skipped_reason {
            Some(reason) => {
                out.append("- Result: `skipped` - ");
                out.append(reason.as_str());
                out.append("\n");
            },
            None => {
                if dry_run {
                    out.append("- Result: `would apply or inspect`\n");
                }
            },
        }
    }
    out
}

/// A candidate in words.
pub open spec fn summary_words(candidate: EvolveCandidateSummaryModel, dry_run: bool) -> Seq<char> {
    candidate_lines_text(candidate) + titled(
        "- Proof commands:\n"@,
        candidate.proof_commands,
        quoted_lines(candidate.proof_commands),
    ) + titled("- Done when:\n"@, candidate.done_when, plain_lines(candidate.done_when))
        + result_line_text(candidate, dry_run) + titled(
        "- Wrote:\n"@,
        candidate.written_paths,
        quoted_lines(candidate.written_paths),
    ) + "\n"@
}

fn push_summary(out: &mut String, candidate: &EvolveCandidateSummary, dry_run: bool)
    ensures
        final(out)@ == old(out)@ + summary_words(candidate.deep_view(), dry_run),
{
    let ghost before = out@;
    out.append(candidate_lines(candidate).as_str());
    push_titled_quoted(out, "- Proof commands:\n", &candidate.proof_commands);
    push_titled_plain(out, "- Done when:\n", &candidate.done_when);
    out.append(result_line(candidate, dry_run).as_str());
    push_titled_quoted(out, "- Wrote:\n", &candidate.written_paths);
    out.append("\n");
    assert(out@ =~= before + summary_words(candidate.deep_view(), dry_run));
}

/// Candidates in words.
pub open spec fn all_summary_words(
    items: Seq<EvolveCandidateSummaryModel>,
    dry_run: bool,
) -> Seq<char>
    decreases items.len(),
{
    if items.len() == 0 {
        Seq::empty()
    } else {
        all_summary_words(items.drop_last(), dry_run) + summary_words(items.last(), dry_run)
    }
}

fn push_summaries(out: &mut String, items: &Vec<EvolveCandidateSummary>, dry_run: bool)
    ensures
        final(out)@ == old(out)@ + all_summary_words(items.deep_view(), dry_run),
{
    let ghost before = out@;
    let ghost all = items.deep_view();
    let mut i: usize = 0;
    assert(out@ == before + all_summary_words(all.take(0), dry_run));
    while i < items.len()
        invariant
            i <= items@.len(),
            all == items.deep_view(),
            out@ == before + all_summary_words(all.take(i as int), dry_run),
        decreases items@.len() - i,
    {
        proof {
            lemma_take_next(all, i as int);
        }
        let ghost so_far = out@;
        push_summary(out, &items[i], dry_run);
        assert(out@ =~= before + (all_summary_words(all.take(i as int), dry_run) + summary_words(all[i as int], dry_run)));
        i = i + 1;
        assert(out@ == before + all_summary_words(all.take(i as int), dry_run));
    }
    proof {
        lemma_take_all(all);
    }
}

/// An evolution in words.
pub open spec fn evolve_words(summary: EvolveSummaryModel) -> Seq<char> {
    evolve_head_text(summary) + all_summary_words(summary.candidates, summary.dry_run)
}

/// What is said of an evolution.
pub fn print_evolve_summary(summary: &EvolveSummary) -> (r: String)
    ensures
        r@ == evolve_words(summary.deep_view()),
{
    let mut out = evolve_head(summary);
    push_summaries(&mut out, &summary.candidates, summary.dry_run);
    out
}

// ---------------------------------------------------------------------------
// Baselines
// ---------------------------------------------------------------------------
/// What is said of findings that were accepted.
pub open spec fn baseline_words(summary: BaselineSummaryModel) -> Seq<char> {
    let t = "# veritas accept-baseline\n\n- Baseline: `"@
        + summary.path
        + "`\n- Accepted findings: `"@
        + decimal(summary.accepted_ids.len() as int)
        + "`\n"@;
    t
}

/// What is said of findings that were accepted.
pub fn print_baseline_summary(summary: &BaselineSummary) -> (r: String)
    ensures
        r@ == baseline_words(summary.deep_view()),
{
    assert(summary.accepted_ids@.len() == summary.accepted_ids.deep_view().len());
    let mut out = owned("# veritas accept-baseline\n\n- Baseline: `");
    out.append(summary.path.as_str());
    out.append("`\n- Accepted findings: `");
    out.append(print_usize(summary.accepted_ids.len()).as_str());
    out.append("`\n");
    out
}

/// What is said of a quality that was accepted.
pub open spec fn quality_baseline_words(summary: QualityBaselineSummaryModel) -> Seq<char> {
    let t = "# veritas accept-quality-baseline\n\n- Baseline: `"@
        + summary.path
        + "`\n- Confidence: `"@
        + decimal(summary.confidence as int)
        + "`\n- Mutation score: `"@
        + percent_text(summary.mutation_score)
        + "`\n"@;
    t
}

/// What is said of a quality that was accepted.
pub fn print_quality_baseline_summary(summary: &QualityBaselineSummary) -> (r: String)
    ensures
        r@ == quality_baseline_words(summary.deep_view()),
{
    let mut out = owned("# veritas accept-quality-baseline\n\n- Baseline: `");
    out.append(summary.path.as_str());
    out.append("`\n- Confidence: `");
    out.append(print_u8(summary.confidence).as_str());
    out.append("`\n- Mutation score: `");
    out.append(percent_or_na(summary.mutation_score).as_str());
    out.append("`\n");
    out
}

// ---------------------------------------------------------------------------
// Findings
// ---------------------------------------------------------------------------
fn has_finding_id(finding: &Failure, id: &str) -> (r: bool)
    ensures
        r == (finding.deep_view().id == Some(id@)),
{
    match &finding.id {
        Some(own) => same(own.as_str(), id),
        None => false,
    }
}

/// The place of the first finding with this id.
pub open spec fn finding_from(items: Seq<FailureModel>, id: Seq<char>, from: int) -> Option<int>
    decreases items.len() - from,
{
    if from < 0 || from >= items.len() {
        None
    } else if items[from].id == Some(id) {
        Some(from)
    } else {
        finding_from(items, id, from + 1)
    }
}

fn find_finding(items: &Vec<Failure>, id: &str) -> (r: Option<usize>)
    ensures
        r matches Some(i) ==> i < items@.len() && finding_from(items.deep_view(), id@, 0) == Some(
            i as int,
        ),
        r is None ==> finding_from(items.deep_view(), id@, 0) is None,
{
    let ghost all = items.deep_view();
    let mut i: usize = 0;
    while i < items.len()
        invariant
            i <= items@.len(),
            all == items.deep_view(),
            finding_from(all, id@, 0) == finding_from(all, id@, i as int),
        decreases items@.len() - i,
    {
        assert(all[i as int] == items@[i as int].deep_view());
        if has_finding_id(&items[i], id) {
            return Some(i);
        }
        i = i + 1;
    }
    None
}

/// The paths of the patches for a target.
pub open spec fn patch_paths_in(
    target_id: Option<Seq<char>>,
    items: Seq<GeneratedArtifactModel>,
) -> Seq<Seq<char>>
    decreases items.len(),
{
    if items.len() == 0 {
        Seq::empty()
    } else {
        let before = patch_paths_in(target_id, items.drop_last());
        match (if items.last().kind == ArtifactKind::CandidatePatch && target_id == Some(items.last().target_id) { Some(items.last().path) } else { None }) {
            Some(one) => before.push(one),
            None => before,
        }
    }
}

fn patch_paths(target_id: &Option<String>, items: &Vec<GeneratedArtifact>) -> (r: Vec<String>)
    ensures
        r.deep_view() == patch_paths_in(target_id.deep_view(), items.deep_view()),
{
    let mut out: Vec<String> = Vec::new();
    let ghost all = items.deep_view();
    let mut i: usize = 0;
    assert(out.deep_view() == patch_paths_in(target_id.deep_view(), all.take(0)));
    while i < items.len()
        invariant
            i <= items@.len(),
            all == items.deep_view(),
            out.deep_view() == patch_paths_in(target_id.deep_view(), all.take(i as int)),
        decreases items@.len() - i,
    {
        proof {
            lemma_take_next(all, i as int);
        }
        match find_patch_path(target_id, &items[i]) {
            Some(one) => {
                push_text(&mut out, one);
            },
            None => {},
        }
        i = i + 1;
    }
    proof {
        lemma_take_all(all);
    }
    out
}

fn find_patch_path(target_id: &Option<String>, artifact: &GeneratedArtifact) -> (r: Option<String>)
    ensures
        r.deep_view() == (if artifact.kind == ArtifactKind::CandidatePatch && target_id.deep_view()
            == Some(artifact.deep_view().target_id) {
            Some(artifact.deep_view().path)
        } else {
            None
        }),
{
    match target_id {
        Some(id) => if artifact.kind == ArtifactKind::CandidatePatch && same(
            id.as_str(),
            artifact.target_id.as_str(),
        ) {
            Some(owned(artifact.path.as_str()))
        } else {
            None
        },
        None => None,
    }
}

/// The first lines on a finding.
#[verifier::opaque]
pub open spec fn explanation_head_text(finding: FailureModel, id: Seq<char>) -> Seq<char> {
    let t = "# veritas finding `"@
        + id
        + "`\n\n- Message: "@
        + finding.message
        + "\n- Severity: "@
        + finding.severity.name_text()
        + "\n"@;
    let t = match finding.target_id {
        Some(target) => {
            let t = t + "- Target: `"@ + target + "`\n"@;
            t
        },
        None => {
            t
        },
    };
    let t = t + "- Command: `"@ + finding.command + "`\n"@;
    let t = match finding.repro {
        Some(repro) => {
            let t = t + "- Repro: `"@ + repro.command + "`\n"@;
            t
        },
        None => {
            t
        },
    };
    t
}

fn explanation_head(finding: &Failure, id: &str) -> (r: String)
    ensures
        r@ == explanation_head_text(finding.deep_view(), id@),
{
    proof {
        reveal(explanation_head_text);
    }
    let mut out = owned("# veritas finding `");
    out.append(id);
    out.append("`\n\n- Message: ");
    out.append(finding.message.as_str());
    out.append("\n- Severity: ");
    out.append(finding.severity.name());
    out.append("\n");
    if let Some(target) = &finding.target_id {
        out.append("- Target: `");
        out.append(target.as_str());
        out.append("`\n");
    }
    out.append("- Command: `");
    out.append(finding.command.as_str());
    out.append("`\n");
    if let Some(repro) = &finding.repro {
        out.append("- Repro: `");
        out.append(repro.command.as_str());
        out.append("`\n");
    }
    out
}

/// What is said where there is no finding of a name.
pub open spec fn not_found_text(id: Seq<char>) -> Seq<char> {
    let t = "finding `"@ + id + "` was not found in the saved report"@;
    t
}

fn not_found(id: &str) -> (r: String)
    ensures
        r@ == not_found_text(id@),
{
    let mut out = owned("finding `");
    out.append(id);
    out.append("` was not found in the saved report");
    out
}

/// What a report says of a finding: the patches for its target too. What is said where
/// there is none of that name.
pub open spec fn explanation(report: VerificationReportModel, id: Seq<char>) -> Result<
    Seq<char>,
    Seq<char>,
> {
    match finding_from(report.findings, id, 0) {
        Some(i) => {
            let finding = report.findings[i];
            let patches = patch_paths_in(finding.target_id, report.artifacts);
            Ok(
                explanation_head_text(finding, id) + titled(
                    "\nCandidate verification patch artifacts:\n"@,
                    patches,
                    code_lines(patches),
                ),
            )
        },
        None => Err(not_found_text(id)),
    }
}

/// What a report says of a finding; what is said where there is none of that name.
pub fn print_explanation(report: &VerificationReport, id: &str) -> (r: Result<String, String>)
    ensures
        gives(r, explanation(report.deep_view(), id@)),
{
    match find_finding(&report.findings, id) {
        Some(i) => {
            assert(report.findings.deep_view()[i as int] == report.findings@[i as int].deep_view());
            let finding = &report.findings[i];
            let patches = patch_paths(&finding.target_id, &report.artifacts);
            assert(patches@.len() == patches.deep_view().len());
            let mut out = explanation_head(finding, id);
            if patches.len() > 0 {
                out.append("\nCandidate verification patch artifacts:\n");
                push_code(&mut out, &patches);
            }
            assert(out@ =~= explanation(report.deep_view(), id@)->Ok_0);
            Ok(out)
        },
        None => Err(not_found(id)),
    }
}

// ---------------------------------------------------------------------------
// Corpus
// ---------------------------------------------------------------------------
/// The line of a command.
pub open spec fn command_item_text(command: CommandRecordModel) -> Seq<char> {
    let t = "- `"@
        + command.program
        + " "@
        + joined(command.args, " "@)
        + "` -> "@
        + command.status.name_text()
        + "\n"@;
    t
}

fn command_item(command: &CommandRecord) -> (r: String)
    ensures
        r@ == command_item_text(command.deep_view()),
{
    let mut out = owned("- `");
    out.append(command.program.as_str());
    out.append(" ");
    out.append(join(&command.args, " ").as_str());
    out.append("` -> ");
    out.append(command.status.name());
    out.append("\n");
    out
}

/// The lines of commands.
pub open spec fn command_items(items: Seq<CommandRecordModel>) -> Seq<char>
    decreases items.len(),
{
    if items.len() == 0 {
        Seq::empty()
    } else {
        command_items(items.drop_last()) + command_item_text(items.last())
    }
}

fn push_command_items(out: &mut String, items: &Vec<CommandRecord>)
    ensures
        final(out)@ == old(out)@ + command_items(items.deep_view()),
{
    let ghost before = out@;
    let ghost all = items.deep_view();
    let mut i: usize = 0;
    assert(out@ == before + command_items(all.take(0)));
    while i < items.len()
        invariant
            i <= items@.len(),
            all == items.deep_view(),
            out@ == before + command_items(all.take(i as int)),
        decreases items@.len() - i,
    {
        proof {
            lemma_take_next(all, i as int);
        }
        let ghost so_far = out@;
        out.append(command_item(&items[i]).as_str());
        assert(out@ =~= before + (command_items(all.take(i as int)) + command_item_text(all[i as int])));
        i = i + 1;
        assert(out@ == before + command_items(all.take(i as int)));
    }
    proof {
        lemma_take_all(all);
    }
}

/// The lines of the commands of runs.
pub open spec fn run_items(items: Seq<TestRunResultModel>) -> Seq<char>
    decreases items.len(),
{
    if items.len() == 0 {
        Seq::empty()
    } else {
        run_items(items.drop_last()) + command_items(items.last().commands)
    }
}

fn push_run_items(out: &mut String, items: &Vec<TestRunResult>)
    ensures
        final(out)@ == old(out)@ + run_items(items.deep_view()),
{
    let ghost before = out@;
    let ghost all = items.deep_view();
    let mut i: usize = 0;
    assert(out@ == before + run_items(all.take(0)));
    while i < items.len()
        invariant
            i <= items@.len(),
            all == items.deep_view(),
            out@ == before + run_items(all.take(i as int)),
        decreases items@.len() - i,
    {
        proof {
            lemma_take_next(all, i as int);
        }
        let ghost so_far = out@;
        push_command_items(out, &items[i].commands);
        assert(all[i as int] == items@[i as int].deep_view());
        assert(out@ =~= before + (run_items(all.take(i as int)) + command_items(all[i as int].commands)));
        i = i + 1;
        assert(out@ == before + run_items(all.take(i as int)));
    }
    proof {
        lemma_take_all(all);
    }
}

/// The first lines of a replay.
#[verifier::opaque]
pub open spec fn corpus_head_text(summary: CorpusReplaySummaryModel) -> Seq<char> {
    let t = "# veritas replay-corpus"@;
    let t = if summary.dry_run {
        let t = t + " (dry run)"@;
        t
    } else {
        t
    };
    let t = t
        + "\n\n- Replayed: `"@
        + decimal(summary.report.quality.regression.corpus_replayed as int)
        + "`\n- Passed: `"@
        + decimal(summary.report.quality.regression.corpus_passed as int)
        + "`\n- Failed: `"@
        + decimal(summary.report.quality.regression.corpus_failed as int)
        + "`\n- Skipped: `"@
        + decimal(summary.report.quality.regression.corpus_skipped as int)
        + "`\n"@;
    t
}

fn corpus_head(summary: &CorpusReplaySummary) -> (r: String)
    ensures
        r@ == corpus_head_text(summary.deep_view()),
{
    proof {
        reveal(corpus_head_text);
    }
    let mut out = owned("# veritas replay-corpus");
    if summary.dry_run {
        out.append(" (dry run)");
    }
    out.append("\n\n- Replayed: `");
    out.append(print_usize(summary.report.quality.regression.corpus_replayed).as_str());
    out.append("`\n- Passed: `");
    out.append(print_usize(summary.report.quality.regression.corpus_passed).as_str());
    out.append("`\n- Failed: `");
    out.append(print_usize(summary.report.quality.regression.corpus_failed).as_str());
    out.append("`\n- Skipped: `");
    out.append(print_usize(summary.report.quality.regression.corpus_skipped).as_str());
    out.append("`\n");
    out
}

/// A replay in words.
pub open spec fn corpus_words(summary: CorpusReplaySummaryModel) -> Seq<char> {
    corpus_head_text(summary) + run_items(summary.report.runs)
}

fn render_corpus(summary: &CorpusReplaySummary) -> (r: String)
    ensures
        r@ == corpus_words(summary.deep_view()),
{
    let mut out = corpus_head(summary);
    push_run_items(&mut out, &summary.report.runs);
    out
}

/// What a replay prints.
pub fn print_corpus_replay_summary(summary: &CorpusReplaySummary, format: OutputFormat) -> (r:
    Result<String, String>)
    ensures
        gives(
            r,
            printed(
                format,
                corpus_words(summary.deep_view()),
                verification_report_document(summary.deep_view().report),
                "replay-corpus"@,
            ),
        ),
{
    match format {
        OutputFormat::Markdown => Ok(render_corpus(summary)),
        OutputFormat::Json => Ok(print_document(&verification_report_json(&summary.report))),
        OutputFormat::Sarif => Err(unsupported_format("replay-corpus")),
        OutputFormat::Junit => Err(unsupported_format("replay-corpus")),
    }
}

} // verus!
