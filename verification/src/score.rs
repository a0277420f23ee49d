//! Confidence: how far a report can be trusted, how it compares with a baseline
//! or with another report, and what an evolution amounts to.
use vstd::prelude::*;

use crate::api::{
    CoverageReport, CoverageReportModel, RunStatus, TestRunResult, TestRunResultModel,
    VerificationReport, VerificationReportModel, VerificationStrategy,
};
use crate::findings::{texts_of1, texts_of3};
use crate::metrics::{
    no_quality, BudgetMetrics, EvolutionMetrics, FuzzMetrics, MutationMetricsModel,
    PropertyMetrics, RegressionMetrics, ReplayMetrics, VerificationQuality,
    VerificationQualityModel,
};
use crate::number::{
    decimal, print_i64, print_u32, print_u64, print_u8, print_usize, signed_decimal,
};
use crate::records::{
    ConfidenceGrade, ConfidenceScore, ConfidenceScoreModel, EvolutionGeneration,
    EvolutionGenerationCandidate, EvolutionGenerationCandidateModel, EvolutionGenerationModel,
    EvolutionOutcome, EvolutionQualityDelta, QualityBaseline, QualityBaselineModel,
    QualityBaselineSummary, QualityBaselineSummaryModel, QualityDelta,
};
use crate::seqs::{cat2, cat3, lemma_take_all, lemma_take_next};
use crate::split::push_text;
use crate::text::{owned, same};

verus! {

// ---------------------------------------------------------------------------
// Signals and risks
// ---------------------------------------------------------------------------
/// A list of one text where a condition holds, and an empty one where not.
pub open spec fn when(condition: bool, text: Seq<char>) -> Seq<Seq<char>> {
    if condition {
        seq![text]
    } else {
        Seq::empty()
    }
}

/// Puts a text at the end of a list where a condition holds.
pub fn push_when(items: &mut Vec<String>, condition: bool, text: String)
    ensures
        final(items).deep_view() == old(items).deep_view() + when(condition, text@),
{
    let ghost before = items.deep_view();
    if condition {
        push_text(items, text);
    }
    assert(items.deep_view() =~= before + when(condition, text@));
}

/// A count and what it is a count of.
pub open spec fn counted(n: int, what: Seq<char>) -> Seq<char> {
    decimal(n) + what
}

fn count_of(n: usize, what: &str) -> (r: String)
    ensures
        r@ == counted(n as int, what@),
{
    cat2(print_usize(n).as_str(), what)
}

/// The score of mutants in words.
pub open spec fn mutation_signal(score: Option<u8>) -> Seq<char> {
    match score {
        Some(percent) => "mutation score is "@ + decimal(percent as int) + "%"@,
        None => "mutation checks did not execute"@,
    }
}

fn mutation_words(score: Option<u8>) -> (r: String)
    ensures
        r@ == mutation_signal(score),
{
    match score {
        Some(percent) => cat3("mutation score is ", print_u8(percent).as_str(), "%"),
        None => owned("mutation checks did not execute"),
    }
}

/// What speaks for a report.
pub open spec fn signals_of(report: VerificationReportModel) -> Seq<Seq<char>> {
    let q = report.quality;
    when(q.mutation.score_percent is Some, mutation_signal(q.mutation.score_percent))
        + when(q.property.generated_artifacts > 0, counted(q.property.generated_artifacts as int, " generated property artifact(s)"@))
        + when(q.fuzz.targets_executed > 0, counted(q.fuzz.targets_executed as int, " fuzz target(s) executed"@))
        + when(q.regression.assertion_candidates > 0, counted(q.regression.assertion_candidates as int, " assertion candidate(s) ready for promotion"@))
        + when(q.replay.cases > 0, counted(q.replay.cases as int, " differential replay case(s) planned"@))
        + when(q.evolution.selected > 0, counted(q.evolution.selected as int, " selected evolutionary candidate(s)"@))
        + when(report.findings.len() == 0, "no active findings"@)
}

fn positive_signals(report: &VerificationReport) -> (r: Vec<String>)
    ensures
        r.deep_view() == signals_of(report.deep_view()),
{
    let q = &report.quality;
    let mut out: Vec<String> = Vec::new();
    assert(out.deep_view() =~= Seq::<Seq<char>>::empty());
    assert(report.findings@.len() == report.findings.deep_view().len());
    push_when(
        &mut out,
        q.mutation.score_percent.is_some(),
        mutation_words(q.mutation.score_percent),
    );
    push_when(&mut out, q.property.generated_artifacts > 0, count_of(q.property.generated_artifacts, " generated property artifact(s)"));
    push_when(&mut out, q.fuzz.targets_executed > 0, count_of(q.fuzz.targets_executed, " fuzz target(s) executed"));
    push_when(&mut out, q.regression.assertion_candidates > 0, count_of(q.regression.assertion_candidates, " assertion candidate(s) ready for promotion"));
    push_when(&mut out, q.replay.cases > 0, count_of(q.replay.cases, " differential replay case(s) planned"));
    push_when(&mut out, q.evolution.selected > 0, count_of(q.evolution.selected, " selected evolutionary candidate(s)"));
    push_when(&mut out, report.findings.len() == 0, owned("no active findings"));
    assert(out.deep_view() =~= signals_of(report.deep_view()));
    out
}

/// What speaks against a report.
pub open spec fn risks_of(report: VerificationReportModel) -> Seq<Seq<char>> {
    let q = report.quality;
    when(q.mutation.score_percent is None, mutation_signal(q.mutation.score_percent))
        + when(q.mutation.survived > 0, counted(q.mutation.survived as int, " surviving mutant(s) still need assertions"@))
        + when(q.budget.timed_out_commands > 0, counted(q.budget.timed_out_commands as int, " command(s) timed out"@))
        + when(q.budget.skipped_commands > 0, counted(q.budget.skipped_commands as int, " command(s) were skipped by budget"@))
        + when(
        report.findings.len() > 0,
        counted(report.findings.len() as int, " active finding(s)"@),
    )
}

fn report_risks(report: &VerificationReport) -> (r: Vec<String>)
    ensures
        r.deep_view() == risks_of(report.deep_view()),
{
    let q = &report.quality;
    let mut out: Vec<String> = Vec::new();
    assert(out.deep_view() =~= Seq::<Seq<char>>::empty());
    assert(report.findings@.len() == report.findings.deep_view().len());
    push_when(
        &mut out,
        q.mutation.score_percent.is_none(),
        mutation_words(q.mutation.score_percent),
    );
    push_when(&mut out, q.mutation.survived > 0, count_of(q.mutation.survived, " surviving mutant(s) still need assertions"));
    push_when(&mut out, q.budget.timed_out_commands > 0, count_of(q.budget.timed_out_commands, " command(s) timed out"));
    push_when(&mut out, q.budget.skipped_commands > 0, count_of(q.budget.skipped_commands, " command(s) were skipped by budget"));
    push_when(
        &mut out,
        report.findings.len() > 0,
        count_of(report.findings.len(), " active finding(s)"),
    );
    assert(out.deep_view() =~= risks_of(report.deep_view()));
    out
}

// ---------------------------------------------------------------------------
// The score
// ---------------------------------------------------------------------------
/// A penalty for a count: so much for each, up to a limit. The count is taken in
/// sixteen bits.
pub open spec fn penalty(count: int, each: int, limit: int) -> int {
    if (count as i16) * each < limit {
        (count as i16) * each
    } else {
        limit
    }
}

/// Whether a penalty can be computed in sixteen bits.
pub open spec fn penalty_fits(count: int, each: int) -> bool {
    in_sixteen_bits((count as i16) * each)
}

/// Whether a number fits sixteen bits with a sign.
pub open spec fn in_sixteen_bits(n: int) -> bool {
    i16::MIN <= n <= i16::MAX
}

fn count_penalty(count: usize, each: i16, limit: i16) -> (r: i16)
    requires
        penalty_fits(count as int, each as int),
    ensures
        r == penalty(count as int, each as int, limit as int),
{
    let value: i16 = (#[verifier::truncate]
    (count as i16)) * each;
    if value < limit {
        value
    } else {
        limit
    }
}

/// So much where a count is above zero, and nothing where it is not.
pub open spec fn worth(count: usize, points: int) -> int {
    if count > 0 {
        points
    } else {
        0
    }
}

fn points_for(count: usize, points: i16) -> (r: i16)
    ensures
        r == worth(count, points as int),
{
    if count > 0 {
        points
    } else {
        0
    }
}

/// The score after the mutants: 45, and a third of the mutation score, less six
/// for each survivor, up to 24.
pub open spec fn score_after_mutants(report: VerificationReportModel) -> int {
    let m = report.quality.mutation;
    let base = match m.score_percent {
        Some(percent) => 45 + percent as int / 3,
        None => 45,
    };
    if m.survived > 0 {
        base - penalty(m.survived as int, 6, 24)
    } else {
        base
    }
}

/// The points for generated and planned work.
pub open spec fn points_for_work(report: VerificationReportModel) -> int {
    let q = report.quality;
    worth(q.property.generated_artifacts, 8) + worth(q.fuzz.targets_executed, 8) + worth(q.regression.assertion_candidates, 6) + worth(q.replay.cases, 5) + worth(q.evolution.selected, 4)
}

/// The points taken off for commands that did not run to their end.
pub open spec fn points_off_for_budget(report: VerificationReportModel) -> int {
    let q = report.quality;
    worth(q.budget.timed_out_commands, 12) + worth(q.budget.skipped_commands, 6)
}

/// The points for a report without findings, or, less two for each finding, up to
/// 20.
pub open spec fn points_for_findings(report: VerificationReportModel) -> int {
    if report.findings.len() == 0 {
        10
    } else {
        -penalty(report.findings.len() as int, 2, 20)
    }
}

/// The score before it is brought between 0 and 100.
pub open spec fn raw_score(report: VerificationReportModel) -> int {
    score_after_mutants(report) + points_for_work(report) - points_off_for_budget(report)
        + points_for_findings(report)
}

/// The score of a report.
pub open spec fn score_of(report: VerificationReportModel) -> u8 {
    if raw_score(report) < 0 {
        0
    } else if raw_score(report) > 100 {
        100
    } else {
        raw_score(report) as u8
    }
}

/// Whether the score can be computed in sixteen bits: the penalties fit, and so
/// does what they leave.
pub open spec fn scorable(report: VerificationReportModel) -> bool {
    &&& report.quality.mutation.survived > 0 ==> penalty_fits(
        report.quality.mutation.survived as int,
        6,
    )
    &&& report.findings.len() > 0 ==> penalty_fits(report.findings.len() as int, 2)
    &&& in_sixteen_bits(score_after_mutants(report))
    &&& in_sixteen_bits(score_after_mutants(report) + points_for_work(report))
    &&& in_sixteen_bits(
        score_after_mutants(report) + points_for_work(report) - points_off_for_budget(report),
    )
    &&& in_sixteen_bits(raw_score(report))
}

/// Reports with at most 5461 survivors and 16383 findings can be scored.
pub proof fn law_ordinary_reports_can_be_scored(report: VerificationReportModel)
    requires
        report.quality.mutation.survived <= 5461,
        report.findings.len() <= 16383,
    ensures
        scorable(report),
{
}

/// A penalty as a wide number, and whether it fits sixteen bits.
fn wide_penalty(count: usize, each: i64, limit: i64) -> (r: (i64, bool))
    requires
        0 <= each <= 100,
    ensures
        r.0 == penalty(count as int, each as int, limit as int),
        r.1 == penalty_fits(count as int, each as int),
{
    let short: i16 = #[verifier::truncate]
    (count as i16);
    let wide: i64 = short as i64;
    assert(-32768 * each <= wide * each <= 32767 * each) by (nonlinear_arith)
        requires
            -32768 <= wide <= 32767,
            0 <= each,
    ;
    let value: i64 = wide * each;
    (
        if value < limit {
            value
        } else {
            limit
        },
        -32768 <= value && value <= 32767,
    )
}

/// Whether a report can be scored.
#[verifier::spinoff_prover]
#[verifier::rlimit(50)]
pub fn can_be_scored(report: &VerificationReport) -> (r: bool)
    ensures
        r == scorable(report.deep_view()),
{
    let q = &report.quality;
    assert(report.findings@.len() == report.findings.deep_view().len());
    let mutants = wide_penalty(q.mutation.survived, 6, 24);
    let findings = wide_penalty(report.findings.len(), 2, 20);
    if (q.mutation.survived > 0 && !mutants.1) || (report.findings.len() > 0 && !findings.1) {
        return false;
    }
    let base: i64 = match q.mutation.score_percent {
        Some(percent) => 45 + (percent / 3) as i64,
        None => 45,
    };
    let first: i64 = if q.mutation.survived > 0 {
        base - mutants.0
    } else {
        base
    };
    let second: i64 = first
        + points_for(q.property.generated_artifacts, 8) as i64
        + points_for(q.fuzz.targets_executed, 8) as i64
        + points_for(q.regression.assertion_candidates, 6) as i64
        + points_for(q.replay.cases, 5) as i64
        + points_for(q.evolution.selected, 4) as i64;
    let third: i64 = second - points_for(q.budget.timed_out_commands, 12) as i64 - points_for(
        q.budget.skipped_commands,
        6,
    ) as i64;
    let last: i64 = if report.findings.len() == 0 {
        third + 10
    } else {
        third - findings.0
    };
    -32768 <= first && first <= 32767 && -32768 <= second && second <= 32767 && -32768 <= third
        && third <= 32767 && -32768 <= last && last <= 32767
}

fn score_mutants(report: &VerificationReport) -> (r: i16)
    requires
        scorable(report.deep_view()),
    ensures
        r == score_after_mutants(report.deep_view()),
{
    let m = &report.quality.mutation;
    let base: i16 = match m.score_percent {
        Some(percent) => 45 + (percent / 3) as i16,
        None => 45,
    };
    if m.survived > 0 {
        let off = count_penalty(m.survived, 6, 24);
        base - off
    } else {
        base
    }
}

fn score_work(report: &VerificationReport) -> (r: i16)
    ensures
        r == points_for_work(report.deep_view()),
        0 <= r <= 31,
{
    let q = &report.quality;
    points_for(q.property.generated_artifacts, 8) + points_for(q.fuzz.targets_executed, 8) + points_for(q.regression.assertion_candidates, 6) + points_for(q.replay.cases, 5) + points_for(q.evolution.selected, 4)
}

fn score_budget(report: &VerificationReport) -> (r: i16)
    ensures
        r == points_off_for_budget(report.deep_view()),
        0 <= r <= 18,
{
    let q = &report.quality;
    points_for(q.budget.timed_out_commands, 12) + points_for(q.budget.skipped_commands, 6)
}

fn report_score(report: &VerificationReport) -> (r: u8)
    requires
        scorable(report.deep_view()),
    ensures
        r == score_of(report.deep_view()),
{
    assert(report.findings@.len() == report.findings.deep_view().len());
    let before: i16 = score_mutants(report) + score_work(report);
    let worked: i16 = before - score_budget(report);
    let raw: i16 = if report.findings.len() == 0 {
        worked + 10
    } else {
        worked - count_penalty(report.findings.len(), 2, 20)
    };
    if raw < 0 {
        0
    } else if raw > 100 {
        100
    } else {
        raw as u8
    }
}

/// The grade of a score: high from 80, medium from 55, and otherwise low.
pub open spec fn grade_of(score: u8) -> ConfidenceGrade {
    if score >= 80 {
        ConfidenceGrade::High
    } else if score >= 55 {
        ConfidenceGrade::Medium
    } else {
        ConfidenceGrade::Low
    }
}

fn score_grade(score: u8) -> (r: ConfidenceGrade)
    ensures
        r == grade_of(score),
{
    if score >= 80 {
        ConfidenceGrade::High
    } else if score >= 55 {
        ConfidenceGrade::Medium
    } else {
        ConfidenceGrade::Low
    }
}

/// A grade in words.
pub open spec fn summary_of(grade: ConfidenceGrade) -> Seq<char> {
    match grade {
        ConfidenceGrade::High => "strong verification signal for the current scope"@,
        ConfidenceGrade::Medium => "useful signal with remaining promotion or replay work"@,
        ConfidenceGrade::Low => "limited confidence; close findings or expand verification"@,
    }
}

fn grade_words(grade: ConfidenceGrade) -> (r: &'static str)
    ensures
        r@ == summary_of(grade),
{
    match grade {
        ConfidenceGrade::High => "strong verification signal for the current scope",
        ConfidenceGrade::Medium => "useful signal with remaining promotion or replay work",
        ConfidenceGrade::Low => "limited confidence; close findings or expand verification",
    }
}

/// What the numbers of a report ask for.
pub open spec fn asked_steps(q: VerificationQualityModel) -> Seq<Seq<char>> {
    when(q.mutation.survived > 0, "Promote assertion candidates for surviving mutants."@)
        + when(q.regression.corpus_entries > 0, "Replay persisted corpus entries before accepting the AI change."@)
        + when(q.replay.cases > 0, "Compare differential replay cases across old/new behavior."@)
        + when(q.evolution.selected > 0, "Apply selected evolution-suite candidates one at a time and keep score-improving tests."@)
        + when(q.budget.timed_out_commands > 0 || q.budget.skipped_commands > 0, "Increase budgets or narrow changed-scope verification."@)
}

/// What to do next, after a score.
pub open spec fn steps_after_score(q: VerificationQualityModel) -> Seq<Seq<char>> {
    if asked_steps(q).len() == 0 {
        seq!["Keep the report as a baseline and rerun Veritas after the next AI change."@]
    } else {
        asked_steps(q)
    }
}

/// What to do next, after a score.
pub fn confidence_next_steps(report: &VerificationReport) -> (r: Vec<String>)
    ensures
        r.deep_view() == steps_after_score(report.deep_view().quality),
{
    let q = &report.quality;
    let mut steps: Vec<String> = Vec::new();
    assert(steps.deep_view() =~= Seq::<Seq<char>>::empty());
    push_when(
        &mut steps,
        q.mutation.survived > 0,
        owned("Promote assertion candidates for surviving mutants."),
    );
    push_when(
        &mut steps,
        q.regression.corpus_entries > 0,
        owned("Replay persisted corpus entries before accepting the AI change."),
    );
    push_when(
        &mut steps,
        q.replay.cases > 0,
        owned("Compare differential replay cases across old/new behavior."),
    );
    push_when(
        &mut steps,
        q.evolution.selected > 0,
        owned("Apply selected evolution-suite candidates one at a time and keep score-improving tests."),
    );
    push_when(
        &mut steps,
        q.budget.timed_out_commands > 0 || q.budget.skipped_commands > 0,
        owned("Increase budgets or narrow changed-scope verification."),
    );
    assert(steps.deep_view() =~= asked_steps(report.deep_view().quality));
    assert(steps@.len() == steps.deep_view().len());
    if steps.len() == 0 {
        return texts_of1(
            "Keep the report as a baseline and rerun Veritas after the next AI change.",
        );
    }
    steps
}

// ---------------------------------------------------------------------------
// Deltas
// ---------------------------------------------------------------------------
/// The difference of two shares, where both are known.
pub open spec fn share_delta(now: Option<u8>, before: Option<u8>) -> Option<i16> {
    match (now, before) {
        (Some(n), Some(b)) => Some((n - b) as i16),
        _ => None,
    }
}

fn delta_of_shares(now: Option<u8>, before: Option<u8>) -> (r: Option<i16>)
    ensures
        r == share_delta(now, before),
{
    match (now, before) {
        (Some(n), Some(b)) => Some(n as i16 - b as i16),
        _ => None,
    }
}

/// The difference of two counts, each taken in 64 bits with a sign.
pub open spec fn count_delta(now: int, before: int) -> int {
    (now as i64) - (before as i64)
}

/// Whether the difference of two counts fits 64 bits.
pub open spec fn delta_fits(now: int, before: int) -> bool {
    i64::MIN <= count_delta(now, before) <= i64::MAX
}

fn delta_of_counts(now: usize, before: usize) -> (r: i64)
    requires
        delta_fits(now as int, before as int),
    ensures
        r == count_delta(now as int, before as int),
{
    let n: i64 = #[verifier::truncate]
    (now as i64);
    let b: i64 = #[verifier::truncate]
    (before as i64);
    n - b
}

/// Whether the difference of two counts fits 64 bits.
pub fn counts_compare(now: usize, before: usize) -> (r: bool)
    ensures
        r == delta_fits(now as int, before as int),
{
    let n: i64 = #[verifier::truncate]
    (now as i64);
    let b: i64 = #[verifier::truncate]
    (before as i64);
    let d: i128 = n as i128 - b as i128;
    -9223372036854775808 <= d && d <= 9223372036854775807
}

/// The difference of a quality and a confidence from a baseline.
pub open spec fn delta_from_baseline(
    quality: VerificationQualityModel,
    confidence: int,
    baseline: QualityBaselineModel,
) -> QualityDelta {
    QualityDelta {
        mutation_score_delta: share_delta(
            quality.mutation.score_percent,
            baseline.quality.mutation.score_percent,
        ),
        confidence_delta: (confidence - baseline.confidence) as i16,
        surviving_mutants_delta: count_delta(
            quality.mutation.survived as int,
            baseline.quality.mutation.survived as int,
        ) as i64,
        corpus_entries_delta: count_delta(
            quality.regression.corpus_entries as int,
            baseline.quality.regression.corpus_entries as int,
        ) as i64,
    }
}

/// Whether a quality can be compared with a baseline.
pub open spec fn comparable(
    quality: VerificationQualityModel,
    baseline: QualityBaselineModel,
) -> bool {
    &&& delta_fits(
        quality.mutation.survived as int,
        baseline.quality.mutation.survived as int,
    )
    &&& delta_fits(
        quality.regression.corpus_entries as int,
        baseline.quality.regression.corpus_entries as int,
    )
}

/// The difference of a quality and a confidence from a baseline.
pub fn quality_delta(
    quality: &VerificationQuality,
    confidence: u8,
    baseline: &QualityBaseline,
) -> (r: QualityDelta)
    requires
        comparable(quality.deep_view(), baseline.deep_view()),
    ensures
        r == delta_from_baseline(quality.deep_view(), confidence as int, baseline.deep_view()),
{
    QualityDelta {
        mutation_score_delta: delta_of_shares(
            quality.mutation.score_percent,
            baseline.quality.mutation.score_percent,
        ),
        confidence_delta: confidence as i16 - baseline.confidence as i16,
        surviving_mutants_delta: delta_of_counts(
            quality.mutation.survived,
            baseline.quality.mutation.survived,
        ),
        corpus_entries_delta: delta_of_counts(
            quality.regression.corpus_entries,
            baseline.quality.regression.corpus_entries,
        ),
    }
}

/// How far the mutation score moved.
pub open spec fn mutation_move(delta: QualityDelta) -> int {
    match delta.mutation_score_delta {
        Some(d) => d as int,
        None => 0,
    }
}

fn mutation_moved(delta: &QualityDelta) -> (r: i16)
    ensures
        r == mutation_move(*delta),
{
    match delta.mutation_score_delta {
        Some(d) => d,
        None => 0,
    }
}

/// What speaks for a report, compared with a baseline.
pub open spec fn delta_signals(delta: QualityDelta) -> Seq<Seq<char>> {
    when(
        mutation_move(delta) > 0,
        "mutation score improved by "@ + signed_decimal(mutation_move(delta))
            + " point(s) from baseline"@,
    )
}

/// A number without its sign.
pub open spec fn magnitude(n: int) -> int {
    if n < 0 {
        -n
    } else {
        n
    }
}

fn print_magnitude(n: i16) -> (r: String)
    ensures
        r@ == decimal(magnitude(n as int)),
{
    let wide: i64 = n as i64;
    if wide < 0 {
        print_u64((-wide) as u64)
    } else {
        print_u64(wide as u64)
    }
}

/// What speaks against a report, compared with a baseline.
pub open spec fn delta_risks(delta: QualityDelta) -> Seq<Seq<char>> {
    when(
        mutation_move(delta) < 0,
        "mutation score regressed by "@ + decimal(magnitude(mutation_move(delta)))
            + " point(s) from baseline"@,
    ) + when(
        delta.surviving_mutants_delta > 0,
        signed_decimal(delta.surviving_mutants_delta as int)
            + " more surviving mutant(s) than baseline"@,
    ) + when(
        delta.confidence_delta < 0,
        "confidence score regressed by "@ + decimal(magnitude(delta.confidence_delta as int))
            + " point(s) from baseline"@,
    )
}

fn push_delta_signals(out: &mut Vec<String>, delta: &QualityDelta)
    ensures
        final(out).deep_view() == old(out).deep_view() + delta_signals(*delta),
{
    let moved = mutation_moved(delta);
    push_when(
        out,
        moved > 0,
        cat3(
            "mutation score improved by ",
            print_i64(moved as i64).as_str(),
            " point(s) from baseline",
        ),
    );
}

fn push_delta_risks(out: &mut Vec<String>, delta: &QualityDelta)
    ensures
        final(out).deep_view() == old(out).deep_view() + delta_risks(*delta),
{
    let ghost before = out.deep_view();
    let moved = mutation_moved(delta);
    push_when(
        out,
        moved < 0,
        cat3(
            "mutation score regressed by ",
            print_magnitude(moved).as_str(),
            " point(s) from baseline",
        ),
    );
    push_when(
        out,
        delta.surviving_mutants_delta > 0,
        cat2(
            print_i64(delta.surviving_mutants_delta).as_str(),
            " more surviving mutant(s) than baseline",
        ),
    );
    push_when(
        out,
        delta.confidence_delta < 0,
        cat3(
            "confidence score regressed by ",
            print_magnitude(delta.confidence_delta).as_str(),
            " point(s) from baseline",
        ),
    );
    assert(out.deep_view() =~= before + delta_risks(*delta));
}

// ---------------------------------------------------------------------------
// Confidence
// ---------------------------------------------------------------------------
/// The difference of a report from a baseline, where there is one.
pub open spec fn baseline_delta_of(
    report: VerificationReportModel,
    baseline: Option<QualityBaselineModel>,
) -> Option<QualityDelta> {
    match baseline {
        Some(known) => Some(
            delta_from_baseline(report.quality, score_of(report) as int, known),
        ),
        None => None,
    }
}

/// How far a report can be trusted, compared with a baseline.
pub open spec fn confidence_with(
    report: VerificationReportModel,
    baseline: Option<QualityBaselineModel>,
) -> ConfidenceScoreModel {
    let score = score_of(report);
    let delta = baseline_delta_of(report, baseline);
    ConfidenceScoreModel {
        score,
        grade: grade_of(score),
        summary: summary_of(grade_of(score)),
        positive_signals: match delta {
            Some(d) => signals_of(report) + delta_signals(d),
            None => signals_of(report),
        },
        risks: match delta {
            Some(d) => risks_of(report) + delta_risks(d),
            None => risks_of(report),
        },
        recommended_next_steps: steps_after_score(report.quality),
        baseline_delta: delta,
    }
}

/// How far a report can be trusted, compared with a baseline.
pub fn confidence_score_with_baseline(
    report: &VerificationReport,
    baseline: Option<&QualityBaseline>,
) -> (r: ConfidenceScore)
    requires
        scorable(report.deep_view()),
        baseline matches Some(known) ==> comparable(
            report.deep_view().quality,
            known.deep_view(),
        ),
    ensures
        r.deep_view() == confidence_with(
            report.deep_view(),
            match baseline {
                Some(known) => Some(known.deep_view()),
                None => None,
            },
        ),
{
    let score = report_score(report);
    let mut signals = positive_signals(report);
    let mut risks = report_risks(report);
    let delta = match baseline {
        Some(known) => Some(quality_delta(&report.quality, score, known)),
        None => None,
    };
    if let Some(d) = &delta {
        push_delta_signals(&mut signals, d);
        push_delta_risks(&mut risks, d);
    }
    let grade = score_grade(score);
    ConfidenceScore {
        score,
        grade,
        summary: owned(grade_words(grade)),
        positive_signals: signals,
        risks,
        recommended_next_steps: confidence_next_steps(report),
        baseline_delta: delta,
    }
}

/// How far a report can be trusted.
pub fn confidence_score(report: &VerificationReport) -> (r: ConfidenceScore)
    requires
        scorable(report.deep_view()),
    ensures
        r.deep_view() == confidence_with(report.deep_view(), None),
{
    confidence_score_with_baseline(report, None)
}

/// The score is at most 100, and the grade follows from it.
pub proof fn law_score_and_grade(
    report: VerificationReportModel,
    baseline: Option<QualityBaselineModel>,
)
    ensures
        confidence_with(report, baseline).score <= 100,
        confidence_with(report, baseline).grade == grade_of(
            confidence_with(report, baseline).score,
        ),
{
}

/// The score does not depend on the baseline.
pub proof fn law_score_ignores_the_baseline(
    report: VerificationReportModel,
    baseline: Option<QualityBaselineModel>,
)
    ensures
        confidence_with(report, baseline).score == confidence_with(report, None).score,
{
}

/// A survivor more does not raise the score.
pub proof fn law_survivors_do_not_raise_the_score(
    report: VerificationReportModel,
    survived: usize,
)
    requires
        report.quality.mutation.survived <= survived <= 5461,
    ensures
        score_of(
            VerificationReportModel {
                quality: VerificationQualityModel {
                    mutation: MutationMetricsModel { survived, ..report.quality.mutation },
                    ..report.quality
                },
                ..report
            },
        ) <= score_of(report),
{
}

/// The grade is high from 80 points on, medium from 55 on and low below.
pub proof fn law_grades_have_their_points(
    report: VerificationReportModel,
    baseline: Option<QualityBaselineModel>,
)
    ensures
        ({
            let r = confidence_with(report, baseline);
            &&& r.grade == ConfidenceGrade::High <==> r.score >= 80
            &&& r.grade == ConfidenceGrade::Medium <==> 55 <= r.score < 80
            &&& r.grade == ConfidenceGrade::Low <==> r.score < 55
        }),
{
}

/// A report that is as good as another one everywhere has no lower score: a mutation score
/// that is as high, no more survivors, no more findings, no more commands that ran out of time
/// or were skipped, and properties, fuzzing, assertion candidates, replay cases and selected
/// candidates wherever the other one has them.
pub proof fn law_better_reports_score_no_lower(
    report: VerificationReportModel,
    other: VerificationReportModel,
)
    requires
        report.quality.mutation.survived <= other.quality.mutation.survived <= 5461,
        report.findings.len() <= other.findings.len() <= 16383,
        other.quality.mutation.score_percent matches Some(known) ==> (
        report.quality.mutation.score_percent matches Some(own) && own >= known),
        report.quality.budget.timed_out_commands <= other.quality.budget.timed_out_commands,
        report.quality.budget.skipped_commands <= other.quality.budget.skipped_commands,
        report.quality.property.generated_artifacts >= other.quality.property.generated_artifacts,
        report.quality.fuzz.targets_executed >= other.quality.fuzz.targets_executed,
        report.quality.regression.assertion_candidates
            >= other.quality.regression.assertion_candidates,
        report.quality.replay.cases >= other.quality.replay.cases,
        report.quality.evolution.selected >= other.quality.evolution.selected,
    ensures
        confidence_with(report, None).score >= confidence_with(other, None).score,
{
}

/// What a report is told to have changed from a baseline is the difference of the two, the
/// report less the baseline; a mutation score that one of them lacks has no difference.
pub proof fn law_changes_from_a_baseline_are_differences(
    report: VerificationReportModel,
    baseline: QualityBaselineModel,
)
    requires
        report.quality.mutation.survived <= i64::MAX,
        baseline.quality.mutation.survived <= i64::MAX,
        report.quality.regression.corpus_entries <= i64::MAX,
        baseline.quality.regression.corpus_entries <= i64::MAX,
    ensures
        ({
            let r = confidence_with(report, Some(baseline));
            let q = report.quality;
            let b = baseline.quality;
            &&& r.baseline_delta matches Some(delta) && delta.surviving_mutants_delta
                == q.mutation.survived - b.mutation.survived && delta.corpus_entries_delta
                == q.regression.corpus_entries - b.regression.corpus_entries
                && delta.confidence_delta == r.score - baseline.confidence
                && delta.mutation_score_delta is Some == (q.mutation.score_percent is Some
                && b.mutation.score_percent is Some) && (delta.mutation_score_delta matches Some(
                moved,
            ) ==> moved == q.mutation.score_percent->0 - b.mutation.score_percent->0)
        }),
{
}

/// A baseline adds a signal where the mutation score is higher than it was, and a risk for each
/// of these: it is lower, more mutants survive, the score is lower.
pub proof fn law_baselines_tell_what_got_better_or_worse(
    report: VerificationReportModel,
    baseline: QualityBaselineModel,
)
    requires
        report.quality.mutation.survived <= i64::MAX,
        baseline.quality.mutation.survived <= i64::MAX,
    ensures
        ({
            let r = confidence_with(report, Some(baseline));
            let alone = confidence_with(report, None);
            let now = report.quality.mutation.score_percent;
            let then = baseline.quality.mutation.score_percent;
            let known = now is Some && then is Some;
            &&& r.positive_signals.len() == alone.positive_signals.len() + (if known && now->0
                > then->0 {
                1int
            } else {
                0
            })
            &&& r.risks.len() == alone.risks.len() + (if known && now->0 < then->0 {
                1int
            } else {
                0
            }) + (if report.quality.mutation.survived > baseline.quality.mutation.survived {
                1int
            } else {
                0
            }) + (if r.score < baseline.confidence {
                1int
            } else {
                0
            })
        }),
{
}

/// Whether the score of a report is so many points above that of another one, unless one of
/// the two is at the bottom or at the top.
pub open spec fn is_ahead(
    report: VerificationReportModel,
    other: VerificationReportModel,
    points: int,
) -> bool {
    let ahead = confidence_with(report, None).score;
    let behind = confidence_with(other, None).score;
    0 < ahead < 100 && 0 < behind < 100 ==> ahead - behind == points
}

/// A report with other quality numbers.
pub open spec fn with_quality(
    report: VerificationReportModel,
    quality: VerificationQualityModel,
) -> VerificationReportModel {
    VerificationReportModel { quality, ..report }
}

/// Every survivor costs six points, up to the fourth; the survivors after it cost nothing.
/// Three percent more of killed mutants are worth a point.
pub proof fn law_survivors_cost_points(
    report: VerificationReportModel,
    survived: usize,
    percent: u8,
)
    requires
        survived < 5461,
        percent <= 97,
    ensures
        ({
            let q = report.quality;
            let fewer = with_quality(
                report,
                (VerificationQualityModel {
                    mutation: MutationMetricsModel { survived, ..q.mutation },
                    ..q
                }),
            );
            let more = with_quality(
                report,
                (VerificationQualityModel {
                    mutation: MutationMetricsModel {
                        survived: (survived + 1) as usize,
                        ..q.mutation
                    },
                    ..q
                }),
            );
            if survived < 4 {
                is_ahead(fewer, more, 6)
            } else {
                is_ahead(fewer, more, 0)
            }
        }),
        ({
            let q = report.quality;
            let higher = with_quality(
                report,
                (VerificationQualityModel {
                    mutation: MutationMetricsModel {
                        score_percent: Some((percent + 3) as u8),
                        ..q.mutation
                    },
                    ..q
                }),
            );
            let lower = with_quality(
                report,
                (VerificationQualityModel {
                    mutation: MutationMetricsModel { score_percent: Some(percent), ..q.mutation },
                    ..q
                }),
            );
            is_ahead(higher, lower, 1)
        }),
{
}

/// Every finding costs two points, up to the tenth, and a report without findings has ten more
/// points than one whose findings cost nothing.
pub proof fn law_findings_cost_points(
    report: VerificationReportModel,
    other: VerificationReportModel,
)
    requires
        report.quality == other.quality,
        report.findings.len() < other.findings.len() <= 16383,
    ensures
        report.findings.len() == 0 && other.findings.len() == 1 ==> is_ahead(report, other, 12),
        0 < report.findings.len() && other.findings.len() == report.findings.len() + 1
            && report.findings.len() < 10 ==> is_ahead(report, other, 2),
        10 <= report.findings.len() ==> is_ahead(report, other, 0),
{
}

/// Generated properties and fuzzed targets are worth eight points each, assertion candidates
/// six, replay cases five and selected candidates four, however many there are.
pub proof fn law_work_is_worth_points(report: VerificationReportModel, some: usize)
    requires
        some > 0,
    ensures
        ({
            let q = report.quality;
            let with = |n: usize|
                with_quality(
                    report,
                    VerificationQualityModel {
                        property: PropertyMetrics { generated_artifacts: n, ..q.property },
                        ..q
                    },
                );
            is_ahead(with(some), with(0), 8)
        }),
        ({
            let q = report.quality;
            let with = |n: usize|
                with_quality(
                    report,
                    VerificationQualityModel {
                        fuzz: FuzzMetrics { targets_executed: n, ..q.fuzz },
                        ..q
                    },
                );
            is_ahead(with(some), with(0), 8)
        }),
        ({
            let q = report.quality;
            let with = |n: usize|
                with_quality(
                    report,
                    VerificationQualityModel {
                        regression: RegressionMetrics {
                            assertion_candidates: n,
                            ..q.regression
                        },
                        ..q
                    },
                );
            is_ahead(with(some), with(0), 6)
        }),
        ({
            let q = report.quality;
            let with = |n: usize|
                with_quality(
                    report,
                    VerificationQualityModel {
                        replay: ReplayMetrics { cases: n, ..q.replay },
                        ..q
                    },
                );
            is_ahead(with(some), with(0), 5)
        }),
        ({
            let q = report.quality;
            let with = |n: usize|
                with_quality(
                    report,
                    VerificationQualityModel {
                        evolution: EvolutionMetrics { selected: n, ..q.evolution },
                        ..q
                    },
                );
            is_ahead(with(some), with(0), 4)
        }),
{
}

/// Commands that ran out of time cost twelve points and skipped commands six, however many
/// there are.
pub proof fn law_unfinished_commands_cost_points(report: VerificationReportModel, some: usize)
    requires
        some > 0,
    ensures
        ({
            let q = report.quality;
            let with = |n: usize|
                with_quality(
                    report,
                    VerificationQualityModel {
                        budget: BudgetMetrics { timed_out_commands: n, ..q.budget },
                        ..q
                    },
                );
            is_ahead(with(0), with(some), 12)
        }),
        ({
            let q = report.quality;
            let with = |n: usize|
                with_quality(
                    report,
                    VerificationQualityModel {
                        budget: BudgetMetrics { skipped_commands: n, ..q.budget },
                        ..q
                    },
                );
            is_ahead(with(0), with(some), 6)
        }),
{
}

/// How many candidates of a generation were applied.
pub open spec fn applied_in(items: Seq<EvolutionGenerationCandidateModel>) -> int
    decreases items.len(),
{
    if items.len() == 0 {
        0
    } else {
        applied_in(items.drop_last()) + if items.last().applied {
            1int
        } else {
            0int
        }
    }
}

fn applied_candidates(items: &Vec<EvolutionGenerationCandidate>) -> (r: usize)
    ensures
        r == applied_in(items.deep_view()),
        r <= items@.len(),
{
    let ghost all = items.deep_view();
    let mut n: usize = 0;
    let mut i: usize = 0;
    while i < items.len()
        invariant
            i <= items@.len(),
            n <= i,
            all == items.deep_view(),
            n == applied_in(all.take(i as int)),
        decreases items@.len() - i,
    {
        proof {
            lemma_take_next(all, i as int);
        }
        if items[i].applied {
            n = n + 1;
        }
        i = i + 1;
    }
    proof {
        lemma_take_all(all);
    }
    n
}

/// What the last generation says.
pub open spec fn generation_signal_text(generation: EvolutionGenerationModel) -> Seq<char> {
    let t = "latest evolution generation "@
        + decimal(generation.generation as int)
        + " ended as "@
        + generation.outcome.name_text()
        + " with "@
        + decimal(applied_in(generation.candidates))
        + " applied candidate(s)"@;
    t
}

fn generation_signal(generation: &EvolutionGeneration) -> (r: String)
    ensures
        r@ == generation_signal_text(generation.deep_view()),
{
    let mut out = owned("latest evolution generation ");
    out.append(print_u32(generation.generation).as_str());
    out.append(" ended as ");
    out.append(generation.outcome.name());
    out.append(" with ");
    out.append(print_usize(applied_candidates(&generation.candidates)).as_str());
    out.append(" applied candidate(s)");
    out
}

/// A score with what the last evolution generation says: for the report where it
/// improved, against it where it regressed or was not evaluated, and a step to
/// take otherwise.
pub open spec fn confidence_after(
    score: ConfidenceScoreModel,
    generation: Option<EvolutionGenerationModel>,
) -> ConfidenceScoreModel {
    match generation {
        Some(last) => {
            let signal = generation_signal_text(last);
            match last.outcome {
                EvolutionOutcome::Improved => ConfidenceScoreModel {
                    positive_signals: score.positive_signals.push(signal),
                    ..score
                },
                EvolutionOutcome::Neutral => ConfidenceScoreModel {
                    recommended_next_steps: score.recommended_next_steps.push(signal),
                    ..score
                },
                _ => ConfidenceScoreModel { risks: score.risks.push(signal), ..score },
            }
        },
        None => score,
    }
}

/// How far a report can be trusted, with the baseline and the last evolution
/// generation of its project.
pub fn confidence_score_for_root(
    report: &VerificationReport,
    baseline: Option<&QualityBaseline>,
    generation: Option<&EvolutionGeneration>,
) -> (r: ConfidenceScore)
    requires
        scorable(report.deep_view()),
        baseline matches Some(known) ==> comparable(
            report.deep_view().quality,
            known.deep_view(),
        ),
    ensures
        r.deep_view() == confidence_after(
            confidence_with(
                report.deep_view(),
                match baseline {
                    Some(known) => Some(known.deep_view()),
                    None => None,
                },
            ),
            match generation {
                Some(last) => Some(last.deep_view()),
                None => None,
            },
        ),
{
    let mut score = confidence_score_with_baseline(report, baseline);
    if let Some(last) = generation {
        let signal = generation_signal(last);
        match last.outcome {
            EvolutionOutcome::Improved => {
                push_text(&mut score.positive_signals, signal);
            },
            EvolutionOutcome::Neutral => {
                push_text(&mut score.recommended_next_steps, signal);
            },
            _ => {
                push_text(&mut score.risks, signal);
            },
        }
    }
    score
}

/// Whether a report can be scored and compared with a baseline.
pub fn can_be_compared(report: &VerificationReport, baseline: Option<&QualityBaseline>) -> (r: bool)
    ensures
        r == (scorable(report.deep_view()) && (baseline matches Some(known) ==> comparable(
            report.deep_view().quality,
            known.deep_view(),
        ))),
{
    let compares = match baseline {
        Some(known) => counts_compare(
            report.quality.mutation.survived,
            known.quality.mutation.survived,
        ) && counts_compare(
            report.quality.regression.corpus_entries,
            known.quality.regression.corpus_entries,
        ),
        None => true,
    };
    compares && can_be_scored(report)
}

/// The baseline that a report with a score makes.
pub open spec fn baseline_of(report: VerificationReportModel, score: u8) -> QualityBaselineModel {
    QualityBaselineModel { version: 1, quality: report.quality, confidence: score }
}

/// Accepts the quality of a report as a baseline: the baseline, and where it goes.
pub fn accept_quality_baseline(
    report: &VerificationReport,
    baseline: Option<&QualityBaseline>,
    generation: Option<&EvolutionGeneration>,
) -> (r: (QualityBaseline, QualityBaselineSummary))
    requires
        scorable(report.deep_view()),
        baseline matches Some(known) ==> comparable(
            report.deep_view().quality,
            known.deep_view(),
        ),
    ensures
        r.0.deep_view() == baseline_of(report.deep_view(), score_of(report.deep_view())),
        r.1.deep_view() == (QualityBaselineSummaryModel {
            path: ".veritas/baselines/quality.json"@,
            confidence: score_of(report.deep_view()),
            mutation_score: report.deep_view().quality.mutation.score_percent,
        }),
{
    let score = confidence_score_for_root(report, baseline, generation);
    (
        QualityBaseline { version: 1, quality: report.quality.clone(), confidence: score.score },
        QualityBaselineSummary {
            path: owned(".veritas/baselines/quality.json"),
            confidence: score.score,
            mutation_score: report.quality.mutation.score_percent,
        },
    )
}

/// A report that is compared with the baseline made of it has not moved.
pub proof fn law_own_baseline_shows_no_change(report: VerificationReportModel)
    ensures
        baseline_delta_of(report, Some(baseline_of(report, score_of(report)))) matches Some(d)
            && d.confidence_delta == 0 && d.surviving_mutants_delta == 0 && d.corpus_entries_delta
            == 0 && mutation_move(d) == 0,
        delta_signals(
            baseline_delta_of(report, Some(baseline_of(report, score_of(report))))->0,
        ).len() == 0,
        delta_risks(
            baseline_delta_of(report, Some(baseline_of(report, score_of(report))))->0,
        ).len() == 0,
{
}

// ---------------------------------------------------------------------------
// What an evolution did
// ---------------------------------------------------------------------------
/// The difference between two reports.
pub open spec fn report_delta(
    before: VerificationReportModel,
    after: VerificationReportModel,
) -> EvolutionQualityDelta {
    EvolutionQualityDelta {
        mutation_score_delta: share_delta(
            after.quality.mutation.score_percent,
            before.quality.mutation.score_percent,
        ),
        killed_mutants_delta: count_delta(after.quality.mutation.killed as int, before.quality.mutation.killed as int) as i64,
        surviving_mutants_delta: count_delta(after.quality.mutation.survived as int, before.quality.mutation.survived as int) as i64,
        not_covered_mutants_delta: count_delta(after.quality.mutation.not_covered as int, before.quality.mutation.not_covered as int) as i64,
        findings_delta: count_delta(after.findings.len() as int, before.findings.len() as int) as i64,
        replay_cases_delta: count_delta(after.quality.replay.cases as int, before.quality.replay.cases as int) as i64,
        corpus_failed_delta: count_delta(after.quality.regression.corpus_failed as int, before.quality.regression.corpus_failed as int) as i64,
        budget_timed_out_delta: count_delta(after.quality.budget.timed_out_commands as int, before.quality.budget.timed_out_commands as int) as i64,
        budget_skipped_delta: count_delta(after.quality.budget.skipped_commands as int, before.quality.budget.skipped_commands as int) as i64,
        confidence_delta: (score_of(after) - score_of(before)) as i16,
    }
}

/// Whether two reports can be compared.
pub open spec fn reports_comparable(
    before: VerificationReportModel,
    after: VerificationReportModel,
) -> bool {
    &&& scorable(before)
    &&& scorable(after)
    &&& delta_fits(after.quality.mutation.killed as int, before.quality.mutation.killed as int)
    &&& delta_fits(after.quality.mutation.survived as int, before.quality.mutation.survived as int)
    &&& delta_fits(after.quality.mutation.not_covered as int, before.quality.mutation.not_covered as int)
    &&& delta_fits(after.findings.len() as int, before.findings.len() as int)
    &&& delta_fits(after.quality.replay.cases as int, before.quality.replay.cases as int)
    &&& delta_fits(after.quality.regression.corpus_failed as int, before.quality.regression.corpus_failed as int)
    &&& delta_fits(after.quality.budget.timed_out_commands as int, before.quality.budget.timed_out_commands as int)
    &&& delta_fits(after.quality.budget.skipped_commands as int, before.quality.budget.skipped_commands as int)
}

/// Whether two reports can be compared.
pub fn can_compare_reports(before: &VerificationReport, after: &VerificationReport) -> (r: bool)
    ensures
        r == reports_comparable(before.deep_view(), after.deep_view()),
{
    assert(before.findings@.len() == before.findings.deep_view().len());
    assert(after.findings@.len() == after.findings.deep_view().len());
    can_be_scored(before) && can_be_scored(after)
        && counts_compare(after.quality.mutation.killed, before.quality.mutation.killed)
        && counts_compare(after.quality.mutation.survived, before.quality.mutation.survived)
        && counts_compare(after.quality.mutation.not_covered, before.quality.mutation.not_covered)
        && counts_compare(after.findings.len(), before.findings.len())
        && counts_compare(after.quality.replay.cases, before.quality.replay.cases)
        && counts_compare(after.quality.regression.corpus_failed, before.quality.regression.corpus_failed)
        && counts_compare(after.quality.budget.timed_out_commands, before.quality.budget.timed_out_commands)
        && counts_compare(after.quality.budget.skipped_commands, before.quality.budget.skipped_commands)
}

/// The difference between two reports.
pub fn evolution_quality_delta(
    before: &VerificationReport,
    after: &VerificationReport,
) -> (r: EvolutionQualityDelta)
    requires
        reports_comparable(before.deep_view(), after.deep_view()),
    ensures
        r == report_delta(before.deep_view(), after.deep_view()),
{
    assert(before.findings@.len() == before.findings.deep_view().len());
    assert(after.findings@.len() == after.findings.deep_view().len());
    EvolutionQualityDelta {
        mutation_score_delta: delta_of_shares(
            after.quality.mutation.score_percent,
            before.quality.mutation.score_percent,
        ),
        killed_mutants_delta: delta_of_counts(after.quality.mutation.killed, before.quality.mutation.killed),
        surviving_mutants_delta: delta_of_counts(after.quality.mutation.survived, before.quality.mutation.survived),
        not_covered_mutants_delta: delta_of_counts(after.quality.mutation.not_covered, before.quality.mutation.not_covered),
        findings_delta: delta_of_counts(after.findings.len(), before.findings.len()),
        replay_cases_delta: delta_of_counts(after.quality.replay.cases, before.quality.replay.cases),
        corpus_failed_delta: delta_of_counts(after.quality.regression.corpus_failed, before.quality.regression.corpus_failed),
        budget_timed_out_delta: delta_of_counts(after.quality.budget.timed_out_commands, before.quality.budget.timed_out_commands),
        budget_skipped_delta: delta_of_counts(after.quality.budget.skipped_commands, before.quality.budget.skipped_commands),
        confidence_delta: report_score(after) as i16 - report_score(before) as i16,
    }
}

/// Whether something got worse.
pub open spec fn got_worse(delta: EvolutionQualityDelta) -> bool {
    ||| delta.mutation_score_delta matches Some(d) && d < 0
    ||| delta.surviving_mutants_delta > 0
    ||| delta.not_covered_mutants_delta > 0
    ||| delta.findings_delta > 0
    ||| delta.corpus_failed_delta > 0
    ||| delta.budget_timed_out_delta > 0
    ||| delta.budget_skipped_delta > 0
    ||| delta.confidence_delta < 0
}

/// Whether something got better.
pub open spec fn got_better(delta: EvolutionQualityDelta) -> bool {
    ||| delta.mutation_score_delta matches Some(d) && d > 0
    ||| delta.killed_mutants_delta > 0
    ||| delta.surviving_mutants_delta < 0
    ||| delta.not_covered_mutants_delta < 0
    ||| delta.findings_delta < 0
    ||| delta.replay_cases_delta > 0
    ||| delta.corpus_failed_delta < 0
    ||| delta.budget_timed_out_delta < 0
    ||| delta.budget_skipped_delta < 0
    ||| delta.confidence_delta > 0
}

/// What a difference amounts to: regressed where anything got worse, improved
/// where something got better and nothing worse, and neutral otherwise.
pub open spec fn outcome_of(delta: EvolutionQualityDelta) -> EvolutionOutcome {
    if got_worse(delta) {
        EvolutionOutcome::Regressed
    } else if got_better(delta) {
        EvolutionOutcome::Improved
    } else {
        EvolutionOutcome::Neutral
    }
}

/// What a difference amounts to.
pub fn classify_evolution_outcome(delta: &EvolutionQualityDelta) -> (r: EvolutionOutcome)
    ensures
        r == outcome_of(*delta),
{
    let moved: i16 = match delta.mutation_score_delta {
        Some(d) => d,
        None => 0,
    };
    if moved < 0 || delta.surviving_mutants_delta > 0 || delta.not_covered_mutants_delta > 0
        || delta.findings_delta > 0 || delta.corpus_failed_delta > 0 || delta.budget_timed_out_delta
        > 0 || delta.budget_skipped_delta > 0 || delta.confidence_delta < 0 {
        return EvolutionOutcome::Regressed;
    }
    if moved > 0 || delta.killed_mutants_delta > 0 || delta.surviving_mutants_delta < 0
        || delta.not_covered_mutants_delta < 0 || delta.findings_delta < 0
        || delta.replay_cases_delta > 0 || delta.corpus_failed_delta < 0
        || delta.budget_timed_out_delta < 0 || delta.budget_skipped_delta < 0
        || delta.confidence_delta > 0 {
        EvolutionOutcome::Improved
    } else {
        EvolutionOutcome::Neutral
    }
}

/// A report compared with itself is neutral.
pub proof fn law_no_change_is_neutral(report: VerificationReportModel)
    ensures
        outcome_of(report_delta(report, report)) == EvolutionOutcome::Neutral,
{
}

/// Where something got worse the outcome is a regression, whatever got better.
pub proof fn law_regression_outweighs_improvement(delta: EvolutionQualityDelta)
    ensures
        got_worse(delta) == (outcome_of(delta) == EvolutionOutcome::Regressed),
        outcome_of(delta) == EvolutionOutcome::Improved ==> !got_worse(delta) && got_better(delta),
{
}

/// Whether the counts of a report are those of things that a machine can hold.
pub open spec fn counts_are_held(report: VerificationReportModel) -> bool {
    &&& report.quality.mutation.killed <= i64::MAX
    &&& report.quality.mutation.survived <= i64::MAX
    &&& report.quality.mutation.not_covered <= i64::MAX
    &&& report.findings.len() <= i64::MAX
    &&& report.quality.replay.cases <= i64::MAX
    &&& report.quality.regression.corpus_failed <= i64::MAX
    &&& report.quality.budget.timed_out_commands <= i64::MAX
    &&& report.quality.budget.skipped_commands <= i64::MAX
}

/// An evolution regressed exactly where some number is worse after it than before: fewer of the
/// mutants killed in percent, where both reports know it, or a lower confidence, or more
/// surviving mutants, mutants that no test reached, findings, failed corpus entries, commands
/// that ran out of time or commands that were skipped. It improved exactly where that is not
/// so, and one of these is better, or more mutants were killed or more cases replayed.
pub proof fn law_outcome_follows_the_numbers(
    before: VerificationReportModel,
    after: VerificationReportModel,
)
    requires
        counts_are_held(before),
        counts_are_held(after),
    ensures
        ({
            let outcome = outcome_of(report_delta(before, after));
            let worse = {
                ||| after.quality.mutation.score_percent is Some && before.quality.mutation.score_percent is Some && after.quality.mutation.score_percent->0 < before.quality.mutation.score_percent->0
                ||| score_of(after) < score_of(before)
                ||| after.quality.mutation.survived > before.quality.mutation.survived
                ||| after.quality.mutation.not_covered > before.quality.mutation.not_covered
                ||| after.findings.len() > before.findings.len()
                ||| after.quality.regression.corpus_failed > before.quality.regression.corpus_failed
                ||| after.quality.budget.timed_out_commands > before.quality.budget.timed_out_commands
                ||| after.quality.budget.skipped_commands > before.quality.budget.skipped_commands
            };
            let better = {
                ||| before.quality.mutation.score_percent is Some && after.quality.mutation.score_percent is Some && before.quality.mutation.score_percent->0 < after.quality.mutation.score_percent->0
                ||| score_of(before) < score_of(after)
                ||| before.quality.mutation.survived > after.quality.mutation.survived
                ||| before.quality.mutation.not_covered > after.quality.mutation.not_covered
                ||| before.findings.len() > after.findings.len()
                ||| before.quality.regression.corpus_failed > after.quality.regression.corpus_failed
                ||| before.quality.budget.timed_out_commands > after.quality.budget.timed_out_commands
                ||| before.quality.budget.skipped_commands > after.quality.budget.skipped_commands
                ||| after.quality.mutation.killed > before.quality.mutation.killed
                ||| after.quality.replay.cases > before.quality.replay.cases
            };
            &&& outcome == EvolutionOutcome::Regressed <==> worse
            &&& outcome == EvolutionOutcome::Improved <==> better && !worse
            &&& outcome == EvolutionOutcome::Neutral <==> !better && !worse
        }),
{
}

/// Where one report is better than another somewhere and worse nowhere, going from the worse
/// one to the better one improves, and going back regresses.
pub proof fn law_swapped_improvements_regress(
    before: VerificationReportModel,
    after: VerificationReportModel,
)
    requires
        counts_are_held(before),
        counts_are_held(after),
        ({
            ||| before.quality.mutation.score_percent is Some && after.quality.mutation.score_percent is Some && before.quality.mutation.score_percent->0 < after.quality.mutation.score_percent->0
            ||| score_of(before) < score_of(after)
            ||| before.quality.mutation.survived > after.quality.mutation.survived
            ||| before.quality.mutation.not_covered > after.quality.mutation.not_covered
            ||| before.findings.len() > after.findings.len()
            ||| before.quality.regression.corpus_failed > after.quality.regression.corpus_failed
            ||| before.quality.budget.timed_out_commands > after.quality.budget.timed_out_commands
            ||| before.quality.budget.skipped_commands > after.quality.budget.skipped_commands
        }),
        !({
            ||| after.quality.mutation.score_percent is Some && before.quality.mutation.score_percent is Some && after.quality.mutation.score_percent->0 < before.quality.mutation.score_percent->0
            ||| score_of(after) < score_of(before)
            ||| after.quality.mutation.survived > before.quality.mutation.survived
            ||| after.quality.mutation.not_covered > before.quality.mutation.not_covered
            ||| after.findings.len() > before.findings.len()
            ||| after.quality.regression.corpus_failed > before.quality.regression.corpus_failed
            ||| after.quality.budget.timed_out_commands > before.quality.budget.timed_out_commands
            ||| after.quality.budget.skipped_commands > before.quality.budget.skipped_commands
        }),
    ensures
        outcome_of(report_delta(before, after)) == EvolutionOutcome::Improved,
        outcome_of(report_delta(after, before)) == EvolutionOutcome::Regressed,
{
    law_outcome_follows_the_numbers(before, after);
    law_outcome_follows_the_numbers(after, before);
}

// ---------------------------------------------------------------------------
// Small reports
// ---------------------------------------------------------------------------
/// The run of a language whose tests were not run.
pub open spec fn skipped_run_of(language: Seq<char>) -> TestRunResultModel {
    TestRunResultModel {
        language,
        status: RunStatus::Skipped,
        commands: Seq::empty(),
        failures: Seq::empty(),
        duration_ms: 0,
        quality: no_quality(),
    }
}

/// The run of a language whose tests were not run.
pub fn skipped_run(language: &str) -> (r: TestRunResult)
    ensures
        r.deep_view() == skipped_run_of(language@),
{
    let r = TestRunResult {
        language: owned(language),
        status: RunStatus::Skipped,
        commands: Vec::new(),
        failures: Vec::new(),
        duration_ms: 0,
        quality: VerificationQuality::default(),
    };
    assert(r.commands.deep_view() =~= Seq::empty());
    assert(r.failures.deep_view() =~= Seq::empty());
    r
}

/// The coverage of a language for which no time was left.
pub open spec fn uncollected_coverage(language: Seq<char>) -> CoverageReportModel {
    CoverageReportModel {
        tool: language + " coverage"@,
        summary: "not collected: global budget nearly exhausted"@,
        files: Seq::empty(),
    }
}

/// The coverage of a language for which no time was left.
pub fn budget_skipped_coverage(language: &str) -> (r: CoverageReport)
    ensures
        r.deep_view() == uncollected_coverage(language@),
{
    let r = CoverageReport {
        tool: cat2(language, " coverage"),
        summary: owned("not collected: global budget nearly exhausted"),
        files: Vec::new(),
    };
    assert(r.files.deep_view() =~= Seq::empty());
    r
}

/// What to do after a verification.
pub open spec fn next_steps_for(language: Seq<char>) -> Seq<Seq<char>> {
    seq![
        "Review generated "@ + language + " artifacts before committing them."@,
        "Keep generated regression tests that reproduce real defects."@,
        "Increase the time budget for fuzzing when targeting parsers or input-heavy APIs."@,
    ]
}

/// What to do after a verification.
pub fn suggested_next_steps(language: &str) -> (r: Vec<String>)
    ensures
        r.deep_view() == next_steps_for(language@),
{
    texts_of3(
        cat3("Review generated ", language, " artifacts before committing them.").as_str(),
        "Keep generated regression tests that reproduce real defects.",
        "Increase the time budget for fuzzing when targeting parsers or input-heavy APIs.",
    )
}

/// The strategy that a kind of generation stands for.
pub open spec fn strategy_named(kind: Seq<char>) -> Option<VerificationStrategy> {
    if kind == "unit"@ {
        Some(VerificationStrategy::UnitTests)
    } else if kind == "property"@ {
        Some(VerificationStrategy::PropertyTests)
    } else if kind == "fuzz"@ {
        Some(VerificationStrategy::Fuzzing)
    } else if kind == "differential"@ {
        Some(VerificationStrategy::DifferentialTests)
    } else if kind == "mutation"@ {
        Some(VerificationStrategy::MutationChecks)
    } else {
        None
    }
}

/// The strategy that a kind of generation stands for, or what is wrong with it.
pub fn strategy_from_kind(kind: &str) -> (r: Result<VerificationStrategy, String>)
    ensures
        r matches Ok(strategy) ==> strategy_named(kind@) == Some(strategy),
        r matches Err(message) ==> strategy_named(kind@) is None && message@
            == "unsupported generation kind `"@ + kind@ + "`"@,
{
    if same(kind, "unit") {
        Ok(VerificationStrategy::UnitTests)
    } else if same(kind, "property") {
        Ok(VerificationStrategy::PropertyTests)
    } else if same(kind, "fuzz") {
        Ok(VerificationStrategy::Fuzzing)
    } else if same(kind, "differential") {
        Ok(VerificationStrategy::DifferentialTests)
    } else if same(kind, "mutation") {
        Ok(VerificationStrategy::MutationChecks)
    } else {
        Err(cat3("unsupported generation kind `", kind, "`"))
    }
}

} // verus!
