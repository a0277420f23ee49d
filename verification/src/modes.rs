//! The score of a report, in several modes.
use vstd::prelude::*;

use crate::api::{VerificationReport, VerificationReportModel};
use crate::bench::{percent_or_na, percent_text};
use crate::documents::{confidence_score_document, confidence_score_json};
use crate::findings::texts_of1;
use crate::json::{number, signed, text, texts, texts_model, Items, Json, JsonModel, Members};
use crate::metrics::{
    BudgetMetrics, MutationMetrics, MutationMetricsModel, RegressionMetrics,
    VerificationQualityModel,
};
use crate::next::{plain_lines, push_plain, titled};
use crate::number::{
    decimal, plus_decimal, print_i64, print_plus, print_u8, print_usize, signed_decimal,
};
use crate::output::{gives, print_document, printed, unsupported_format, OutputFormat};
use crate::prompts::{dashed_lines, push_dashed};
use crate::records::{ConfidenceScore, ConfidenceScoreModel, QualityDelta};
use crate::seqs::{cat3, lemma_take_all, lemma_take_next};
use crate::split::push_text;
use crate::text::{clone_texts, owned};

verus! {

/// How strictly the confidence in a project is scored.
#[derive(Debug, Clone, Copy, PartialEq, Eq, Structural)]
pub enum ScoreMode {
    Current,
    Strict,
    Verified,
    All,
}

impl ScoreMode {
    /// The name of the mode.
    pub open spec fn name_text(self) -> Seq<char> {
        match self {
            ScoreMode::Current => "Current"@,
            ScoreMode::Strict => "Strict"@,
            ScoreMode::Verified => "Verified"@,
            ScoreMode::All => "All"@,
        }
    }

    /// The name of the mode.
    pub fn name(self) -> (r: &'static str)
        ensures
            r@ == self.name_text(),
    {
        match self {
            ScoreMode::Current => "Current",
            ScoreMode::Strict => "Strict",
            ScoreMode::Verified => "Verified",
            ScoreMode::All => "All",
        }
    }

    /// The name of the mode in documents.
    pub open spec fn label_text(self) -> Seq<char> {
        match self {
            ScoreMode::Current => "current"@,
            ScoreMode::Strict => "strict"@,
            ScoreMode::Verified => "verified"@,
            ScoreMode::All => "all"@,
        }
    }

    /// The name of the mode in documents.
    pub fn label(self) -> (r: &'static str)
        ensures
            r@ == self.label_text(),
    {
        match self {
            ScoreMode::Current => "current",
            ScoreMode::Strict => "strict",
            ScoreMode::Verified => "verified",
            ScoreMode::All => "all",
        }
    }

    /// What the mode takes into account.
    pub open spec fn summary_text(self) -> Seq<char> {
        match self {
            ScoreMode::Current => "current confidence from the latest report"@,
            ScoreMode::Strict => "current confidence plus accepted-finding and skipped-command debt"@,
            ScoreMode::Verified => "strict confidence plus unpromoted candidate and surviving-mutant proof debt"@,
            ScoreMode::All => "all score modes"@,
        }
    }

    /// What the mode takes into account.
    pub fn summary(self) -> (r: &'static str)
        ensures
            r@ == self.summary_text(),
    {
        match self {
            ScoreMode::Current => "current confidence from the latest report",
            ScoreMode::Strict => "current confidence plus accepted-finding and skipped-command debt",
            ScoreMode::Verified => "strict confidence plus unpromoted candidate and surviving-mutant proof debt",
            ScoreMode::All => "all score modes",
        }
    }

    /// Whether debts count in the mode.
    pub open spec fn counts_debts(self) -> bool {
        self == ScoreMode::Strict || self == ScoreMode::Verified
    }
}

/// The score in a mode.
#[derive(Debug, PartialEq, Eq)]
pub struct ScoreModeView {
    pub mode: ScoreMode,
    pub score: u8,
    pub grade: String,
    pub delta_from_current: i16,
    pub summary: String,
    pub adjustments: Vec<String>,
    pub risks: Vec<String>,
    pub positive_signals: Vec<String>,
    pub recommended_next_steps: Vec<String>,
}

/// The mathematical value of a `ScoreModeView`.
pub struct ScoreModeViewModel {
    pub mode: ScoreMode,
    pub score: u8,
    pub grade: Seq<char>,
    pub delta_from_current: i16,
    pub summary: Seq<char>,
    pub adjustments: Seq<Seq<char>>,
    pub risks: Seq<Seq<char>>,
    pub positive_signals: Seq<Seq<char>>,
    pub recommended_next_steps: Seq<Seq<char>>,
}

impl DeepView for ScoreModeView {
    type V = ScoreModeViewModel;

    open spec fn deep_view(&self) -> ScoreModeViewModel {
        ScoreModeViewModel {
            mode: self.mode,
            score: self.score,
            grade: self.grade@,
            delta_from_current: self.delta_from_current,
            summary: self.summary@,
            adjustments: self.adjustments.deep_view(),
            risks: self.risks.deep_view(),
            positive_signals: self.positive_signals.deep_view(),
            recommended_next_steps: self.recommended_next_steps.deep_view(),
        }
    }
}

impl Clone for ScoreModeView {
    fn clone(&self) -> (r: Self)
        ensures
            r.deep_view() == self.deep_view(),
    {
        ScoreModeView {
            mode: self.mode,
            score: self.score,
            grade: self.grade.clone(),
            delta_from_current: self.delta_from_current,
            summary: self.summary.clone(),
            adjustments: clone_texts(&self.adjustments),
            risks: clone_texts(&self.risks),
            positive_signals: clone_texts(&self.positive_signals),
            recommended_next_steps: clone_texts(&self.recommended_next_steps),
        }
    }
}

/// A copy of score mode views.
pub fn clone_score_mode_views(items: &Vec<ScoreModeView>) -> (r: Vec<ScoreModeView>)
    ensures
        r.deep_view() == items.deep_view(),
        r@.len() == items@.len(),
{
    let mut out: Vec<ScoreModeView> = Vec::new();
    let mut i: usize = 0;
    while i < items.len()
        invariant
            i <= items@.len(),
            out@.len() == i,
            forall|j: int| 0 <= j < i ==> #[trigger] out@[j].deep_view() == items@[j].deep_view(),
        decreases items@.len() - i,
    {
        out.push(items[i].clone());
        i = i + 1;
    }
    assert(out.deep_view() == items.deep_view());
    out
}

/// Puts an item at the end of the list.
pub fn push_score_mode_view(items: &mut Vec<ScoreModeView>, item: ScoreModeView)
    ensures
        final(items).deep_view() == old(items).deep_view().push(item.deep_view()),
        final(items)@.len() == old(items)@.len() + 1,
{
    let ghost before = items.deep_view();
    items.push(item);
    assert(items.deep_view() == before.push(item.deep_view()));
}

/// The score in several modes.
#[derive(Debug, PartialEq, Eq)]
pub struct ScoreModeReport {
    pub source: String,
    pub modes: Vec<ScoreModeView>,
}

/// The mathematical value of a `ScoreModeReport`.
pub struct ScoreModeReportModel {
    pub source: Seq<char>,
    pub modes: Seq<ScoreModeViewModel>,
}

impl DeepView for ScoreModeReport {
    type V = ScoreModeReportModel;

    open spec fn deep_view(&self) -> ScoreModeReportModel {
        ScoreModeReportModel {
            source: self.source@,
            modes: self.modes.deep_view(),
        }
    }
}

impl Clone for ScoreModeReport {
    fn clone(&self) -> (r: Self)
        ensures
            r.deep_view() == self.deep_view(),
    {
        ScoreModeReport {
            source: self.source.clone(),
            modes: clone_score_mode_views(&self.modes),
        }
    }
}

// ---------------------------------------------------------------------------
// Debts
// ---------------------------------------------------------------------------
/// The low 16 bits of a number, as a signed number.
pub open spec fn low_bits(n: int) -> int {
    let low = n % 65536;
    if low >= 32768 {
        low - 65536
    } else {
        low
    }
}

fn take_low_bits(n: usize) -> (r: i64)
    ensures
        r == low_bits(n as int),
        -32768 <= r <= 32767,
{
    let low = (n % 65536) as i64;
    if low >= 32768 {
        low - 65536
    } else {
        low
    }
}

/// A score while debts are taken from it, and what was taken.
pub struct ModeScore {
    pub score: i64,
    pub notes: Vec<String>,
}

/// The mathematical value of a `ModeScore`.
pub struct ModeScoreModel {
    pub score: int,
    pub notes: Seq<Seq<char>>,
}

impl DeepView for ModeScore {
    type V = ModeScoreModel;

    open spec fn deep_view(&self) -> ModeScoreModel {
        ModeScoreModel { score: self.score as int, notes: self.notes.deep_view() }
    }
}

/// Whether a number fits 16 bits with a sign.
pub open spec fn fits_short(n: int) -> bool {
    i16::MIN <= n <= i16::MAX
}

/// The smaller of two numbers.
pub open spec fn lesser(a: int, b: int) -> int {
    if a < b {
        a
    } else {
        b
    }
}

/// What is left of a score when a debt is taken from it: so much for each, up to a limit.
/// The sums are done in 16 bits, where a count loses its higher bits; nothing where a sum
/// does not fit them.
pub open spec fn charged(
    before: Option<ModeScoreModel>,
    count: int,
    each: int,
    most: int,
    note: Seq<char>,
) -> Option<ModeScoreModel> {
    match before {
        Some(b) => if count == 0 {
            Some(b)
        } else {
            let debt = low_bits(count) * each;
            let penalty = lesser(debt, most);
            if fits_short(debt) && fits_short(b.score - penalty) {
                Some(
                    ModeScoreModel {
                        score: b.score - penalty,
                        notes: b.notes.push(note + ": -"@ + signed_decimal(penalty)),
                    },
                )
            } else {
                None
            }
        },
        None => None,
    }
}

fn charge(before: Option<ModeScore>, count: usize, each: i64, most: i64, note: &str) -> (r: Option<
    ModeScore,
>)
    requires
        before matches Some(b) ==> fits_short(b.score as int),
        1 <= each <= 3,
        0 <= most <= 100,
    ensures
        r.deep_view() == charged(before.deep_view(), count as int, each as int, most as int, note@),
        r matches Some(s) ==> fits_short(s.score as int),
{
    match before {
        Some(b) => {
            if count == 0 {
                return Some(b);
            }
            let low: i64 = take_low_bits(count);
            assert(-32768 * 3 <= low * each <= 32767 * 3) by (nonlinear_arith)
                requires
                    -32768 <= low <= 32767,
                    1 <= each <= 3,
            ;
            let debt: i64 = low * each;
            let penalty: i64 = if debt < most {
                debt
            } else {
                most
            };
            let left: i64 = b.score - penalty;
            if debt < -32768 || debt > 32767 || left < -32768 || left > 32767 {
                return None;
            }
            let mut notes = b.notes;
            push_text(&mut notes, cat3(note, ": -", print_i64(penalty).as_str()));
            Some(ModeScore { score: left, notes })
        },
        None => None,
    }
}

/// The mutants that survived, of those that matter for correctness where that is known.
pub open spec fn survivors_counted(mutation: MutationMetricsModel) -> usize {
    if mutation.correctness_executed > 0 || mutation.brittleness_executed > 0 {
        mutation.correctness_survived
    } else {
        mutation.survived
    }
}

/// What is left of a score when accepted findings and skipped commands are taken from it.
pub open spec fn after_strict_debts(
    before: Option<ModeScoreModel>,
    report: VerificationReportModel,
    accepted: int,
) -> Option<ModeScoreModel> {
    let s = charged(before, (accepted) as int, 3, 15, "accepted findings remain score debt"@);
    let s = charged(s, (report.quality.budget.skipped_commands) as int, 2, 10, "skipped verification commands"@);
    s
}

/// What is left of a score when what is not proved yet is taken from it too.
pub open spec fn after_proof_debts(
    before: Option<ModeScoreModel>,
    report: VerificationReportModel,
) -> Option<ModeScoreModel> {
    let s = charged(before, (report.quality.regression.promoted_scaffolds) as int, 2, 12, "unreviewed generated regression scaffolds need proof"@);
    let s = charged(s, (report.quality.regression.assertion_candidates) as int, 1, 10, "assertion candidates are not owned tests yet"@);
    let s = charged(s, (survivors_counted(report.quality.mutation)) as int, 2, 12, "surviving correctness mutants remain verified debt"@);
    let s = charged(s, (report.quality.mutation.brittleness_killed) as int, 1, 8, "killed brittleness probes indicate implementation-coupled tests"@);
    s
}

/// What is left of a score in a mode.
pub open spec fn mode_score(
    report: VerificationReportModel,
    current: u8,
    accepted: int,
    mode: ScoreMode,
) -> Option<ModeScoreModel> {
    let start = Some(ModeScoreModel { score: current as int, notes: Seq::empty() });
    let strict = if mode.counts_debts() {
        after_strict_debts(start, report, accepted)
    } else {
        start
    };
    if mode == ScoreMode::Verified {
        after_proof_debts(strict, report)
    } else {
        strict
    }
}

fn find_mode_score(
    report: &VerificationReport,
    current: u8,
    accepted: usize,
    mode: ScoreMode,
) -> (r: Option<ModeScore>)
    ensures
        r.deep_view() == mode_score(report.deep_view(), current, accepted as int, mode),
        r matches Some(s) ==> fits_short(s.score as int),
{
    let start = ModeScore { score: current as i64, notes: Vec::new() };
    assert(start.notes.deep_view() =~= Seq::<Seq<char>>::empty());
    let mut s = Some(start);
    if mode == ScoreMode::Strict || mode == ScoreMode::Verified {
        s = charge(s, accepted, 3, 15, "accepted findings remain score debt");
        s = charge(s, report.quality.budget.skipped_commands, 2, 10, "skipped verification commands");
    }
    if mode == ScoreMode::Verified {
        let mutation = &report.quality.mutation;
        let survived: usize = if mutation.correctness_executed > 0 || mutation.brittleness_executed
            > 0 {
            mutation.correctness_survived
        } else {
            mutation.survived
        };
        s = charge(s, report.quality.regression.promoted_scaffolds, 2, 12, "unreviewed generated regression scaffolds need proof");
        s = charge(s, report.quality.regression.assertion_candidates, 1, 10, "assertion candidates are not owned tests yet");
        s = charge(s, survived, 2, 12, "surviving correctness mutants remain verified debt");
        s = charge(s, report.quality.mutation.brittleness_killed, 1, 8, "killed brittleness probes indicate implementation-coupled tests");
    }
    s
}

/// The name of a score.
pub open spec fn grade_of(score: u8) -> Seq<char> {
    if score >= 80 {
        "high"@
    } else if score >= 55 {
        "medium"@
    } else {
        "low"@
    }
}

/// The name of a score.
pub fn score_grade_label(score: u8) -> (r: &'static str)
    ensures
        r@ == grade_of(score),
{
    if score >= 80 {
        "high"
    } else if score >= 55 {
        "medium"
    } else {
        "low"
    }
}

/// A number between zero and a hundred that is nearest to another.
pub open spec fn clamped(n: int) -> u8 {
    if n < 0 {
        0
    } else if n > 100 {
        100
    } else {
        n as u8
    }
}

/// The score in a mode; nothing where a sum does not fit 16 bits.
pub open spec fn view_in_mode(
    report: VerificationReportModel,
    current: ConfidenceScoreModel,
    accepted: int,
    mode: ScoreMode,
) -> Option<ScoreModeViewModel> {
    match mode_score(report, current.score, accepted, mode) {
        Some(s) => {
            let score = clamped(s.score);
            Some(
                ScoreModeViewModel {
                    mode,
                    score,
                    grade: grade_of(score),
                    delta_from_current: (score - current.score) as i16,
                    summary: mode.summary_text(),
                    adjustments: if s.notes.len() == 0 {
                        seq!["no additional anti-gaming adjustment for this mode"@]
                    } else {
                        s.notes
                    },
                    risks: current.risks,
                    positive_signals: current.positive_signals,
                    recommended_next_steps: current.recommended_next_steps,
                },
            )
        },
        None => None,
    }
}

/// The score in a mode; nothing where a sum does not fit 16 bits.
pub fn score_mode_view(
    report: &VerificationReport,
    current: &ConfidenceScore,
    accepted: usize,
    mode: ScoreMode,
) -> (r: Option<ScoreModeView>)
    ensures
        r.deep_view() == view_in_mode(
            report.deep_view(),
            current.deep_view(),
            accepted as int,
            mode,
        ),
{
    let s = match find_mode_score(report, current.score, accepted, mode) {
        Some(s) => s,
        None => return None,
    };
    let score: u8 = if s.score < 0 {
        0
    } else if s.score > 100 {
        100
    } else {
        s.score as u8
    };
    assert(s.notes@.len() == s.notes.deep_view().len());
    let adjustments = if s.notes.len() == 0 {
        texts_of1("no additional anti-gaming adjustment for this mode")
    } else {
        s.notes
    };
    Some(
        ScoreModeView {
            mode,
            score,
            grade: owned(score_grade_label(score)),
            delta_from_current: score as i16 - current.score as i16,
            summary: owned(mode.summary()),
            adjustments,
            risks: clone_texts(&current.risks),
            positive_signals: clone_texts(&current.positive_signals),
            recommended_next_steps: clone_texts(&current.recommended_next_steps),
        },
    )
}

/// Whether a debt of so much for each is not lost in sums of 16 bits.
pub open spec fn is_sound_debt(count: int, each: int) -> bool {
    0 <= low_bits(count) * each <= i16::MAX
}

/// A stricter mode scores no higher, where no debt is lost in sums of 16 bits.
pub proof fn law_stricter_modes_score_no_higher(
    report: VerificationReportModel,
    current: ConfidenceScoreModel,
    accepted: int,
)
    requires
        0 <= accepted,
        is_sound_debt((accepted) as int, 3),
        is_sound_debt((report.quality.budget.skipped_commands) as int, 2),
        is_sound_debt((report.quality.regression.promoted_scaffolds) as int, 2),
        is_sound_debt((report.quality.regression.assertion_candidates) as int, 1),
        is_sound_debt((survivors_counted(report.quality.mutation)) as int, 2),
        is_sound_debt((report.quality.mutation.brittleness_killed) as int, 1),
    ensures
        view_in_mode(report, current, accepted, ScoreMode::Strict) is Some,
        view_in_mode(report, current, accepted, ScoreMode::Verified) is Some,
        (view_in_mode(report, current, accepted, ScoreMode::Verified)->0).score <= (view_in_mode(
            report,
            current,
            accepted,
            ScoreMode::Strict,
        )->0).score,
        (view_in_mode(report, current, accepted, ScoreMode::Strict)->0).score <= current.score,
{
    let start = Some(ModeScoreModel { score: current.score as int, notes: Seq::empty() });
    lemma_charge_lowers(start, (accepted) as int, 3, 15, "accepted findings remain score debt"@);
    let s0 = charged(start, (accepted) as int, 3, 15, "accepted findings remain score debt"@);
    lemma_charge_lowers(s0, (report.quality.budget.skipped_commands) as int, 2, 10, "skipped verification commands"@);
    let s1 = charged(s0, (report.quality.budget.skipped_commands) as int, 2, 10, "skipped verification commands"@);
    lemma_charge_lowers(s1, (report.quality.regression.promoted_scaffolds) as int, 2, 12, "unreviewed generated regression scaffolds need proof"@);
    let s2 = charged(s1, (report.quality.regression.promoted_scaffolds) as int, 2, 12, "unreviewed generated regression scaffolds need proof"@);
    lemma_charge_lowers(s2, (report.quality.regression.assertion_candidates) as int, 1, 10, "assertion candidates are not owned tests yet"@);
    let s3 = charged(s2, (report.quality.regression.assertion_candidates) as int, 1, 10, "assertion candidates are not owned tests yet"@);
    lemma_charge_lowers(s3, (survivors_counted(report.quality.mutation)) as int, 2, 12, "surviving correctness mutants remain verified debt"@);
    let s4 = charged(s3, (survivors_counted(report.quality.mutation)) as int, 2, 12, "surviving correctness mutants remain verified debt"@);
    lemma_charge_lowers(s4, (report.quality.mutation.brittleness_killed) as int, 1, 8, "killed brittleness probes indicate implementation-coupled tests"@);
    let s5 = charged(s4, (report.quality.mutation.brittleness_killed) as int, 1, 8, "killed brittleness probes indicate implementation-coupled tests"@);
}

proof fn lemma_charge_lowers(
    before: Option<ModeScoreModel>,
    count: int,
    each: int,
    most: int,
    note: Seq<char>,
)
    requires
        before is Some,
        -100 <= (before->0).score <= 255,
        0 <= count,
        is_sound_debt(count, each),
        0 <= most <= 15,
    ensures
        charged(before, count, each, most, note) is Some,
        (before->0).score - most <= (charged(before, count, each, most, note)->0).score
            <= (before->0).score,
{
}

proof fn lemma_charge_costs(
    before: Option<ModeScoreModel>,
    count: int,
    each: int,
    most: int,
    note: Seq<char>,
)
    requires
        before is Some,
        -200 <= (before->0).score <= 255,
        0 <= count <= 10000,
        1 <= each <= 3,
        0 <= most <= 15,
    ensures
        charged(before, count, each, most, note) is Some,
        (charged(before, count, each, most, note)->0).score == (before->0).score - lesser(
            count * each,
            most,
        ),
{
    assert(0 <= count * each <= 30000) by (nonlinear_arith)
        requires
            0 <= count <= 10000,
            1 <= each <= 3,
    ;
    assert(low_bits(count) == count);
    if count == 0 {
        assert(count * each == 0) by (nonlinear_arith)
            requires
                count == 0,
        ;
    }
}

proof fn lemma_strict_score(report: VerificationReportModel, current: u8, accepted: int)
    requires
        current <= 100,
        0 <= accepted <= 10000,
        report.quality.budget.skipped_commands <= 10000,
    ensures
        mode_score(report, current, accepted, ScoreMode::Strict) matches Some(s) && s.score
            == current - lesser(accepted * 3, 15) - lesser(
            report.quality.budget.skipped_commands * 2,
            10,
        ),
{
    let start = Some(ModeScoreModel { score: current as int, notes: Seq::empty() });
    lemma_charge_costs(start, accepted, 3, 15, "accepted findings remain score debt"@);
    let next = charged(start, accepted, 3, 15, "accepted findings remain score debt"@);
    lemma_charge_costs(
        next,
        report.quality.budget.skipped_commands as int,
        2,
        10,
        "skipped verification commands"@,
    );
}

proof fn lemma_verified_score(report: VerificationReportModel, current: u8, accepted: int)
    requires
        current <= 100,
        0 <= accepted <= 10000,
        report.quality.budget.skipped_commands <= 10000,
        report.quality.regression.promoted_scaffolds <= 10000,
        report.quality.regression.assertion_candidates <= 10000,
        survivors_counted(report.quality.mutation) <= 10000,
        report.quality.mutation.brittleness_killed <= 10000,
    ensures
        mode_score(report, current, accepted, ScoreMode::Strict) matches Some(strict)
            && mode_score(report, current, accepted, ScoreMode::Verified) matches Some(s) && s.score
            == strict.score - lesser(report.quality.regression.promoted_scaffolds * 2, 12) - lesser(
            report.quality.regression.assertion_candidates as int,
            10,
        ) - lesser(survivors_counted(report.quality.mutation) * 2, 12) - lesser(
            report.quality.mutation.brittleness_killed as int,
            8,
        ),
{
    lemma_strict_score(report, current, accepted);
    let q = report.quality;
    let s0 = mode_score(report, current, accepted, ScoreMode::Strict);
    let n0 = "unreviewed generated regression scaffolds need proof"@;
    lemma_charge_costs(s0, q.regression.promoted_scaffolds as int, 2, 12, n0);
    let s1 = charged(s0, q.regression.promoted_scaffolds as int, 2, 12, n0);
    let n1 = "assertion candidates are not owned tests yet"@;
    lemma_charge_costs(s1, q.regression.assertion_candidates as int, 1, 10, n1);
    let s2 = charged(s1, q.regression.assertion_candidates as int, 1, 10, n1);
    let n2 = "surviving correctness mutants remain verified debt"@;
    lemma_charge_costs(s2, survivors_counted(q.mutation) as int, 2, 12, n2);
    let s3 = charged(s2, survivors_counted(q.mutation) as int, 2, 12, n2);
    let n3 = "killed brittleness probes indicate implementation-coupled tests"@;
    lemma_charge_costs(s3, q.mutation.brittleness_killed as int, 1, 8, n3);
}

/// Where no debt counts, a mode shows the score as it is. In a strict mode every accepted
/// finding costs three points, up to the fifth, and every skipped command two, up to the fifth.
pub proof fn law_strict_debts_cost_points(
    report: VerificationReportModel,
    current: ConfidenceScoreModel,
    accepted: int,
    skipped: usize,
)
    requires
        current.score <= 100,
        0 <= accepted < 10000,
        skipped < 10000,
        report.quality.budget.skipped_commands < 10000,
    ensures
        view_in_mode(report, current, accepted, ScoreMode::Current) matches Some(view)
            && view.score == current.score && view.delta_from_current == 0,
        view_in_mode(report, current, accepted, ScoreMode::Strict) matches Some(view)
            && view_in_mode(report, current, accepted + 1, ScoreMode::Strict) matches Some(next)
            && (next.score > 0 ==> view.score - next.score == (if accepted < 5 {
            3int
        } else {
            0
        })),
        ({
            let with = |n: usize|
                VerificationReportModel {
                    quality: VerificationQualityModel {
                        budget: BudgetMetrics {
                            skipped_commands: n,
                            ..report.quality.budget
                        },
                        ..report.quality
                    },
                    ..report
                };
            view_in_mode(with(skipped), current, accepted, ScoreMode::Strict) matches Some(view)
                && view_in_mode(
                with((skipped + 1) as usize),
                current,
                accepted,
                ScoreMode::Strict,
            ) matches Some(next) && (next.score > 0 ==> view.score - next.score == (if skipped
                < 5 {
                2int
            } else {
                0
            }))
        }),
{
    let with = |n: usize|
        VerificationReportModel {
            quality: VerificationQualityModel {
                budget: BudgetMetrics { skipped_commands: n, ..report.quality.budget },
                ..report.quality
            },
            ..report
        };
    lemma_strict_score(report, current.score, accepted);
    lemma_strict_score(report, current.score, accepted + 1);
    lemma_strict_score(with(skipped), current.score, accepted);
    lemma_strict_score(with((skipped + 1) as usize), current.score, accepted);
}

/// A report with no debts in the proofs, but so many.
pub open spec fn with_proof_debts(
    report: VerificationReportModel,
    scaffolds: usize,
    candidates: usize,
    survived: usize,
    brittle: usize,
) -> VerificationReportModel {
    VerificationReportModel {
        quality: VerificationQualityModel {
            regression: RegressionMetrics {
                promoted_scaffolds: scaffolds,
                assertion_candidates: candidates,
                ..report.quality.regression
            },
            mutation: MutationMetricsModel {
                survived,
                correctness_executed: 0,
                brittleness_executed: 0,
                brittleness_killed: brittle,
                ..report.quality.mutation
            },
            ..report.quality
        },
        ..report
    }
}

/// In the verified mode every scaffold that nobody read costs two points, up to the sixth,
/// every assertion candidate one, up to the tenth, every survivor two, up to the sixth, and
/// every killed brittleness probe one, up to the eighth.
#[verifier::spinoff_prover]
#[verifier::rlimit(80)]
pub proof fn law_proof_debts_cost_points(
    report: VerificationReportModel,
    current: ConfidenceScoreModel,
    accepted: int,
    scaffolds: usize,
    candidates: usize,
    survived: usize,
    brittle: usize,
)
    requires
        current.score <= 100,
        0 <= accepted < 10000,
        report.quality.budget.skipped_commands < 10000,
        scaffolds <= 6,
        candidates <= 10,
        survived <= 6,
        brittle <= 8,
    ensures
        view_in_mode(
            with_proof_debts(report, scaffolds, candidates, survived, brittle),
            current,
            accepted,
            ScoreMode::Strict,
        ) matches Some(strict) && view_in_mode(
            with_proof_debts(report, scaffolds, candidates, survived, brittle),
            current,
            accepted,
            ScoreMode::Verified,
        ) matches Some(verified) && (verified.score > 0 ==> strict.score - verified.score == 2
            * scaffolds + candidates + 2 * survived + brittle),
{
    let owing = with_proof_debts(report, scaffolds, candidates, survived, brittle);
    lemma_verified_score(owing, current.score, accepted);
    let strict = mode_score(owing, current.score, accepted, ScoreMode::Strict)->0;
    let verified = mode_score(owing, current.score, accepted, ScoreMode::Verified)->0;
    assert(strict.score - verified.score == 2 * scaffolds + candidates + 2 * survived + brittle);
    lemma_strict_score(owing, current.score, accepted);
    assert(strict.score <= 100);
}

/// The modes that a mode stands for.
pub open spec fn modes_of(mode: ScoreMode) -> Seq<ScoreMode> {
    match mode {
        ScoreMode::Current => seq![ScoreMode::Current],
        ScoreMode::Strict => seq![ScoreMode::Strict],
        ScoreMode::Verified => seq![ScoreMode::Verified],
        ScoreMode::All => seq![ScoreMode::Current, ScoreMode::Strict, ScoreMode::Verified],
    }
}

fn list_modes(mode: ScoreMode) -> (r: Vec<ScoreMode>)
    ensures
        r@ == modes_of(mode),
{
    let mut out: Vec<ScoreMode> = Vec::new();
    if mode == ScoreMode::All {
        out.push(ScoreMode::Current);
        out.push(ScoreMode::Strict);
        out.push(ScoreMode::Verified);
    } else {
        out.push(mode);
    }
    assert(out@ =~= modes_of(mode));
    out
}

/// The score in several modes; nothing where a sum does not fit 16 bits.
pub open spec fn views_in_modes(
    report: VerificationReportModel,
    current: ConfidenceScoreModel,
    accepted: int,
    modes: Seq<ScoreMode>,
) -> Option<Seq<ScoreModeViewModel>>
    decreases modes.len(),
{
    if modes.len() == 0 {
        Some(Seq::empty())
    } else {
        match (
            views_in_modes(report, current, accepted, modes.drop_last()),
            view_in_mode(report, current, accepted, modes.last()),
        ) {
            (Some(views), Some(view)) => Some(views.push(view)),
            _ => None,
        }
    }
}

proof fn lemma_no_views_before(
    report: VerificationReportModel,
    current: ConfidenceScoreModel,
    accepted: int,
    modes: Seq<ScoreMode>,
    n: int,
)
    requires
        0 <= n <= modes.len(),
        views_in_modes(report, current, accepted, modes.take(n)) is None,
    ensures
        views_in_modes(report, current, accepted, modes) is None,
    decreases modes.len() - n,
{
    if n < modes.len() {
        lemma_take_next(modes, n);
        lemma_no_views_before(report, current, accepted, modes, n + 1);
    } else {
        lemma_take_all(modes);
    }
}

/// The score in a mode, or in all of them; nothing where a sum does not fit 16 bits.
/// `accepted` is the number of findings that are accepted.
pub fn score_mode_report(
    report: &VerificationReport,
    current: &ConfidenceScore,
    accepted: usize,
    mode: ScoreMode,
) -> (r: Option<ScoreModeReport>)
    ensures
        match views_in_modes(
            report.deep_view(),
            current.deep_view(),
            accepted as int,
            modes_of(mode),
        ) {
            Some(views) => r.deep_view() == Some(
                ScoreModeReportModel { source: ".veritas/report.json"@, modes: views },
            ),
            None => r is None,
        },
{
    let wanted = list_modes(mode);
    let ghost all = wanted@;
    let mut views: Vec<ScoreModeView> = Vec::new();
    let mut i: usize = 0;
    assert(all.take(0).len() == 0);
    assert(views.deep_view() =~= Seq::<ScoreModeViewModel>::empty());
    while i < wanted.len()
        invariant
            i <= wanted@.len(),
            all == wanted@,
            all == modes_of(mode),
            views_in_modes(
                report.deep_view(),
                current.deep_view(),
                accepted as int,
                all.take(i as int),
            ) == Some(views.deep_view()),
        decreases wanted@.len() - i,
    {
        proof {
            lemma_take_next(all, i as int);
        }
        match score_mode_view(report, current, accepted, wanted[i]) {
            Some(view) => {
                push_score_mode_view(&mut views, view);
            },
            None => {
                proof {
                    lemma_no_views_before(
                        report.deep_view(),
                        current.deep_view(),
                        accepted as int,
                        all,
                        i + 1,
                    );
                }
                return None;
            },
        }
        i = i + 1;
    }
    proof {
        lemma_take_all(all);
    }
    Some(ScoreModeReport { source: owned(".veritas/report.json"), modes: views })
}

// ---------------------------------------------------------------------------
// Text
// ---------------------------------------------------------------------------
/// The first lines of a mode.
#[verifier::opaque]
pub open spec fn mode_head_text(view: ScoreModeViewModel) -> Seq<char> {
    let t = "\n## "@
        + view.mode.name_text()
        + "\n\n- Score: `"@
        + decimal(view.score as int)
        + "`\n- Grade: `"@
        + view.grade
        + "`\n- Delta from current: `"@
        + plus_decimal(view.delta_from_current as int)
        + "`\n- Summary: "@
        + view.summary
        + "\n- Adjustments:\n"@;
    t
}

fn mode_head(view: &ScoreModeView) -> (r: String)
    ensures
        r@ == mode_head_text(view.deep_view()),
{
    proof {
        reveal(mode_head_text);
    }
    let mut out = owned("\n## ");
    out.append(view.mode.name());
    out.append("\n\n- Score: `");
    out.append(print_u8(view.score).as_str());
    out.append("`\n- Grade: `");
    out.append(view.grade.as_str());
    out.append("`\n- Delta from current: `");
    out.append(print_plus(view.delta_from_current as i64).as_str());
    out.append("`\n- Summary: ");
    out.append(view.summary.as_str());
    out.append("\n- Adjustments:\n");
    out
}

/// The score in a mode in words.
pub open spec fn mode_words(view: ScoreModeViewModel) -> Seq<char> {
    mode_head_text(view) + plain_lines(view.adjustments)
}

fn push_mode(out: &mut String, view: &ScoreModeView)
    ensures
        final(out)@ == old(out)@ + mode_words(view.deep_view()),
{
    let ghost before = out@;
    out.append(mode_head(view).as_str());
    push_plain(out, &view.adjustments);
    assert(out@ =~= before + mode_words(view.deep_view()));
}

/// The score in several modes in words.
pub open spec fn all_mode_words(items: Seq<ScoreModeViewModel>) -> Seq<char>
    decreases items.len(),
{
    if items.len() == 0 {
        Seq::empty()
    } else {
        all_mode_words(items.drop_last()) + mode_words(items.last())
    }
}

fn push_modes(out: &mut String, items: &Vec<ScoreModeView>)
    ensures
        final(out)@ == old(out)@ + all_mode_words(items.deep_view()),
{
    let ghost before = out@;
    let ghost all = items.deep_view();
    let mut i: usize = 0;
    assert(out@ == before + all_mode_words(all.take(0)));
    while i < items.len()
        invariant
            i <= items@.len(),
            all == items.deep_view(),
            out@ == before + all_mode_words(all.take(i as int)),
        decreases items@.len() - i,
    {
        proof {
            lemma_take_next(all, i as int);
        }
        let ghost so_far = out@;
        push_mode(out, &items[i]);
        assert(out@ =~= before + (all_mode_words(all.take(i as int)) + mode_words(all[i as int])));
        i = i + 1;
        assert(out@ == before + all_mode_words(all.take(i as int)));
    }
    proof {
        lemma_take_all(all);
    }
}

/// The score in several modes in words.
pub open spec fn modes_words(report: ScoreModeReportModel) -> Seq<char> {
    "# veritas score modes\n\n- Source: `"@ + report.source + "`\n"@ + all_mode_words(report.modes)
}

fn render_modes(report: &ScoreModeReport) -> (r: String)
    ensures
        r@ == modes_words(report.deep_view()),
{
    let mut out = owned("# veritas score modes\n\n- Source: `");
    out.append(report.source.as_str());
    out.append("`\n");
    push_modes(&mut out, &report.modes);
    out
}

/// A score mode view as a JSON document.
pub open spec fn score_mode_view_document(v: ScoreModeViewModel) -> JsonModel {
    JsonModel::Object(
        seq![
            ("mode"@, JsonModel::Text(v.mode.label_text())),
            ("score"@, JsonModel::Number(decimal(v.score as int))),
            ("grade"@, JsonModel::Text(v.grade)),
            ("delta_from_current"@, JsonModel::Number(signed_decimal(v.delta_from_current as int))),
            ("summary"@, JsonModel::Text(v.summary)),
            ("adjustments"@, texts_model(v.adjustments)),
            ("risks"@, texts_model(v.risks)),
            ("positive_signals"@, texts_model(v.positive_signals)),
            ("recommended_next_steps"@, texts_model(v.recommended_next_steps)),
        ],
    )
}

/// A score mode view as a JSON value.
pub fn score_mode_view_json(v: &ScoreModeView) -> (r: Json)
    ensures
        r.deep_view() == score_mode_view_document(v.deep_view()),
{
    let mut members = Members::new();
    members.put("mode", text(v.mode.label()));
    members.put("score", number(v.score as u64));
    members.put("grade", text(v.grade.as_str()));
    members.put("delta_from_current", signed(v.delta_from_current as i64));
    members.put("summary", text(v.summary.as_str()));
    members.put("adjustments", texts(&v.adjustments));
    members.put("risks", texts(&v.risks));
    members.put("positive_signals", texts(&v.positive_signals));
    members.put("recommended_next_steps", texts(&v.recommended_next_steps));
    assert(members.model() =~= score_mode_view_document(v.deep_view())->Object_0);
    members.finish()
}

/// The JSON documents of score mode view records.
pub open spec fn score_mode_view_documents(items: Seq<ScoreModeViewModel>) -> Seq<JsonModel> {
    items.map_values(|v: ScoreModeViewModel| score_mode_view_document(v))
}

/// A JSON array of score mode view records.
pub fn score_mode_view_list(items: &Vec<ScoreModeView>) -> (r: Json)
    ensures
        r.deep_view() == JsonModel::Array(score_mode_view_documents(items.deep_view())),
{
    let mut out = Items::new();
    let ghost all = items.deep_view();
    let mut i: usize = 0;
    assert(out.model() =~= score_mode_view_documents(all.take(0)));
    while i < items.len()
        invariant
            i <= items@.len(),
            all == items.deep_view(),
            out.model() == score_mode_view_documents(all.take(i as int)),
        decreases items@.len() - i,
    {
        out.put(score_mode_view_json(&items[i]));
        proof {
            lemma_take_next(all, i as int);
        }
        assert(out.model() =~= score_mode_view_documents(all.take(i + 1)));
        i = i + 1;
    }
    proof {
        lemma_take_all(all);
    }
    out.finish()
}

/// A score mode report as a JSON document.
pub open spec fn score_mode_report_document(v: ScoreModeReportModel) -> JsonModel {
    JsonModel::Object(
        seq![
            ("source"@, JsonModel::Text(v.source)),
            ("modes"@, JsonModel::Array(score_mode_view_documents(v.modes))),
        ],
    )
}

/// A score mode report as a JSON value.
pub fn score_mode_report_json(v: &ScoreModeReport) -> (r: Json)
    ensures
        r.deep_view() == score_mode_report_document(v.deep_view()),
{
    let mut members = Members::new();
    members.put("source", text(v.source.as_str()));
    members.put("modes", score_mode_view_list(&v.modes));
    assert(members.model() =~= score_mode_report_document(v.deep_view())->Object_0);
    members.finish()
}

/// What the score in several modes prints.
pub fn print_score_mode_report(
    report: &ScoreModeReport,
    format: OutputFormat,
) -> (r: Result<String, String>)
    ensures
        gives(
            r,
            printed(
                format,
                modes_words(report.deep_view()),
                score_mode_report_document(report.deep_view()),
                "score"@,
            ),
        ),
{
    match format {
        OutputFormat::Markdown => Ok(render_modes(report)),
        OutputFormat::Json => Ok(print_document(&score_mode_report_json(report))),
        OutputFormat::Sarif => Err(unsupported_format("score")),
        OutputFormat::Junit => Err(unsupported_format("score")),
    }
}

// ---------------------------------------------------------------------------
// The current score
// ---------------------------------------------------------------------------
/// What mutants say of the tests, where it is known.
#[verifier::opaque]
pub open spec fn signal_section_text(mutation: MutationMetricsModel) -> Seq<char> {
    let t = Seq::<char>::empty();
    let t = if mutation.correctness_score_percent is Some || mutation.brittleness_survival_percent is Some {
        let t = t
            + "\n## Mutation Signal\n\n- Correctness mutation score: `"@
            + percent_text(mutation.correctness_score_percent)
            + "`\n"@;
        let t = if mutation.brittleness_executed > 0 {
            let t = t
                + "- Brittleness probe survival: `"@
                + percent_text(mutation.brittleness_survival_percent)
                + "` (killed `"@
                + decimal(mutation.brittleness_killed as int)
                + "` of `"@
                + decimal(mutation.brittleness_executed as int)
                + "`)\n"@;
            t
        } else {
            t
        };
        t
    } else {
        t
    };
    t
}

fn signal_section(mutation: &MutationMetrics) -> (r: String)
    ensures
        r@ == signal_section_text(mutation.deep_view()),
{
    proof {
        reveal(signal_section_text);
    }
    let mut out = String::new();
    assert(out@ =~= Seq::<char>::empty());
    if mutation.correctness_score_percent.is_some() || mutation.brittleness_survival_percent.is_some() {
        out.append("\n## Mutation Signal\n\n- Correctness mutation score: `");
        out.append(percent_or_na(mutation.correctness_score_percent).as_str());
        out.append("`\n");
        if mutation.brittleness_executed > 0 {
            out.append("- Brittleness probe survival: `");
            out.append(percent_or_na(mutation.brittleness_survival_percent).as_str());
            out.append("` (killed `");
            out.append(print_usize(mutation.brittleness_killed).as_str());
            out.append("` of `");
            out.append(print_usize(mutation.brittleness_executed).as_str());
            out.append("`)\n");
        }
    }
    out
}

/// How the score differs from a baseline.
#[verifier::opaque]
pub open spec fn delta_section_text(delta: Option<QualityDelta>) -> Seq<char> {
    let t = Seq::<char>::empty();
    let t = match delta {
        Some(d) => {
            let t = t + "\n## Baseline Delta\n\n- Mutation score delta: `"@;
            let t = match d.mutation_score_delta {
                Some(n) => {
                    let t = t + signed_decimal(n as int);
                    t
                },
                None => {
                    let t = t + "n/a"@;
                    t
                },
            };
            let t = t
                + "`\n- Confidence delta: `"@
                + signed_decimal(d.confidence_delta as int)
                + "`\n- Surviving mutants delta: `"@
                + signed_decimal(d.surviving_mutants_delta as int)
                + "`\n- Corpus entries delta: `"@
                + signed_decimal(d.corpus_entries_delta as int)
                + "`\n"@;
            t
        },
        None => {
            t
        },
    };
    t
}

fn delta_section(delta: &Option<QualityDelta>) -> (r: String)
    ensures
        r@ == delta_section_text(*delta),
{
    proof {
        reveal(delta_section_text);
    }
    let mut out = String::new();
    assert(out@ =~= Seq::<char>::empty());
    if let Some(d) = delta {
        out.append("\n## Baseline Delta\n\n- Mutation score delta: `");
        match &d.mutation_score_delta {
            Some(n) => {
                out.append(print_i64(*n as i64).as_str());
            },
            None => {
                out.append("n/a");
            },
        }
        out.append("`\n- Confidence delta: `");
        out.append(print_i64(d.confidence_delta as i64).as_str());
        out.append("`\n- Surviving mutants delta: `");
        out.append(print_i64(d.surviving_mutants_delta as i64).as_str());
        out.append("`\n- Corpus entries delta: `");
        out.append(print_i64(d.corpus_entries_delta as i64).as_str());
        out.append("`\n");
    }
    out
}

/// A score in words. What mutants say of the tests is in the report that was scored.
pub open spec fn score_words(
    score: ConfidenceScoreModel,
    mutation: MutationMetricsModel,
) -> Seq<char> {
    "# veritas score\n\n- Score: `"@ + decimal(score.score as int) + "`\n- Grade: `"@
        + score.grade.name_text() + "`\n- Summary: "@ + score.summary + "\n"@ + signal_section_text(
        mutation,
    ) + delta_section_text(score.baseline_delta) + titled(
        "\n## Positive Signals\n\n"@,
        score.positive_signals,
        dashed_lines(score.positive_signals),
    ) + titled("\n## Risks\n\n"@, score.risks, dashed_lines(score.risks)) + "\n## Next Steps\n\n"@
        + dashed_lines(score.recommended_next_steps)
}

fn push_titled_dashed(out: &mut String, title: &str, items: &Vec<String>)
    ensures
        final(out)@ == old(out)@ + titled(title@, items.deep_view(), dashed_lines(items.deep_view())),
{
    let ghost before = out@;
    assert(items@.len() == items.deep_view().len());
    if items.len() > 0 {
        out.append(title);
        push_dashed(out, items);
    }
    assert(out@ =~= before + titled(
        title@,
        items.deep_view(),
        dashed_lines(items.deep_view()),
    ));
}

fn render_score(score: &ConfidenceScore, mutation: &MutationMetrics) -> (r: String)
    ensures
        r@ == score_words(score.deep_view(), mutation.deep_view()),
{
    let mut out = owned("# veritas score\n\n- Score: `");
    out.append(print_u8(score.score).as_str());
    out.append("`\n- Grade: `");
    out.append(score.grade.name());
    out.append("`\n- Summary: ");
    out.append(score.summary.as_str());
    out.append("\n");
    out.append(signal_section(mutation).as_str());
    out.append(delta_section(&score.baseline_delta).as_str());
    push_titled_dashed(&mut out, "\n## Positive Signals\n\n", &score.positive_signals);
    push_titled_dashed(&mut out, "\n## Risks\n\n", &score.risks);
    out.append("\n## Next Steps\n\n");
    push_dashed(&mut out, &score.recommended_next_steps);
    out
}

/// What the score of a report prints.
pub fn print_score(
    score: &ConfidenceScore,
    report: &VerificationReport,
    format: OutputFormat,
) -> (r:
    Result<String, String>)
    ensures
        gives(
            r,
            printed(
                format,
                score_words(score.deep_view(), report.deep_view().quality.mutation),
                confidence_score_document(score.deep_view()),
                "score"@,
            ),
        ),
{
    match format {
        OutputFormat::Markdown => Ok(render_score(score, &report.quality.mutation)),
        OutputFormat::Json => Ok(print_document(&confidence_score_json(score))),
        OutputFormat::Sarif => Err(unsupported_format("score")),
        OutputFormat::Junit => Err(unsupported_format("score")),
    }
}

} // verus!
