//! What a review of the targets of a report is asked for.
use vstd::prelude::*;

use crate::api::{
    ArtifactKind, Failure, FailureModel, GeneratedArtifact, GeneratedArtifactModel, LineRange,
    RiskLevel, TargetKind, VerificationReport, VerificationReportModel, VerificationTarget,
    VerificationTargetModel,
};
use crate::documents::{optional_line_range_document, optional_line_range_json};
use crate::findings::texts_of4;
use crate::json::{
    number, optional_text, pretty, pretty_json, text, text_or_null, texts, texts_model, Items,
    Json, JsonModel, Members,
};
use crate::number::{decimal, print_usize};
use crate::records::CorpusEntry;
use crate::seqs::{lemma_take_all, lemma_take_next};
use crate::split::{at_most, first_texts, join, joined, push_text};
use crate::text::{clone_text, clone_texts, contains, has_text, owned, same};

verus! {

/// What a report says of a target.
#[derive(Debug, PartialEq, Eq)]
pub struct ReviewSignals {
    pub active_findings: usize,
    pub mutation_survivors: usize,
    pub generated_properties: usize,
    pub replay_cases: usize,
    pub corpus_entries: usize,
    pub budget_risks: usize,
    pub artifacts_to_read: Vec<String>,
}

/// The mathematical value of a `ReviewSignals`.
pub struct ReviewSignalsModel {
    pub active_findings: usize,
    pub mutation_survivors: usize,
    pub generated_properties: usize,
    pub replay_cases: usize,
    pub corpus_entries: usize,
    pub budget_risks: usize,
    pub artifacts_to_read: Seq<Seq<char>>,
}

impl DeepView for ReviewSignals {
    type V = ReviewSignalsModel;

    open spec fn deep_view(&self) -> ReviewSignalsModel {
        ReviewSignalsModel {
            active_findings: self.active_findings,
            mutation_survivors: self.mutation_survivors,
            generated_properties: self.generated_properties,
            replay_cases: self.replay_cases,
            corpus_entries: self.corpus_entries,
            budget_risks: self.budget_risks,
            artifacts_to_read: self.artifacts_to_read.deep_view(),
        }
    }
}

impl Clone for ReviewSignals {
    fn clone(&self) -> (r: Self)
        ensures
            r.deep_view() == self.deep_view(),
    {
        ReviewSignals {
            active_findings: self.active_findings,
            mutation_survivors: self.mutation_survivors,
            generated_properties: self.generated_properties,
            replay_cases: self.replay_cases,
            corpus_entries: self.corpus_entries,
            budget_risks: self.budget_risks,
            artifacts_to_read: clone_texts(&self.artifacts_to_read),
        }
    }
}

/// A target that is to be reviewed.
#[derive(Debug, PartialEq, Eq)]
pub struct ReviewTarget {
    pub target_id: String,
    pub language: String,
    pub path: String,
    pub symbol: Option<String>,
    pub risk: RiskLevel,
    pub line_range: Option<LineRange>,
    pub mechanical_signals: ReviewSignals,
}

/// The mathematical value of a `ReviewTarget`.
pub struct ReviewTargetModel {
    pub target_id: Seq<char>,
    pub language: Seq<char>,
    pub path: Seq<char>,
    pub symbol: Option<Seq<char>>,
    pub risk: RiskLevel,
    pub line_range: Option<LineRange>,
    pub mechanical_signals: ReviewSignalsModel,
}

impl DeepView for ReviewTarget {
    type V = ReviewTargetModel;

    open spec fn deep_view(&self) -> ReviewTargetModel {
        ReviewTargetModel {
            target_id: self.target_id@,
            language: self.language@,
            path: self.path@,
            symbol: self.symbol.deep_view(),
            risk: self.risk,
            line_range: self.line_range,
            mechanical_signals: self.mechanical_signals.deep_view(),
        }
    }
}

impl Clone for ReviewTarget {
    fn clone(&self) -> (r: Self)
        ensures
            r.deep_view() == self.deep_view(),
    {
        ReviewTarget {
            target_id: self.target_id.clone(),
            language: self.language.clone(),
            path: self.path.clone(),
            symbol: clone_text(&self.symbol),
            risk: self.risk,
            line_range: self.line_range,
            mechanical_signals: self.mechanical_signals.clone(),
        }
    }
}

/// A copy of review targets.
pub fn clone_review_targets(items: &Vec<ReviewTarget>) -> (r: Vec<ReviewTarget>)
    ensures
        r.deep_view() == items.deep_view(),
        r@.len() == items@.len(),
{
    let mut out: Vec<ReviewTarget> = Vec::new();
    let mut i: usize = 0;
    while i < items.len()
        invariant
            i <= items@.len(),
            out@.len() == i,
            forall|j: int| 0 <= j < i ==> #[trigger] out@[j].deep_view() == items@[j].deep_view(),
        decreases items@.len() - i,
    {
        out.push(items[i].clone());
        i = i + 1;
    }
    assert(out.deep_view() == items.deep_view());
    out
}

/// Puts an item at the end of the list.
pub fn push_review_target(items: &mut Vec<ReviewTarget>, item: ReviewTarget)
    ensures
        final(items).deep_view() == old(items).deep_view().push(item.deep_view()),
        final(items)@.len() == old(items)@.len() + 1,
{
    let ghost before = items.deep_view();
    items.push(item);
    assert(items.deep_view() == before.push(item.deep_view()));
}

/// What a review is asked for.
#[derive(Debug, PartialEq, Eq)]
pub struct ReviewPacket {
    pub version: u8,
    pub source_report: String,
    pub instructions: Vec<String>,
    pub dimensions: Vec<String>,
    pub targets: Vec<ReviewTarget>,
}

/// The mathematical value of a `ReviewPacket`.
pub struct ReviewPacketModel {
    pub version: u8,
    pub source_report: Seq<char>,
    pub instructions: Seq<Seq<char>>,
    pub dimensions: Seq<Seq<char>>,
    pub targets: Seq<ReviewTargetModel>,
}

impl DeepView for ReviewPacket {
    type V = ReviewPacketModel;

    open spec fn deep_view(&self) -> ReviewPacketModel {
        ReviewPacketModel {
            version: self.version,
            source_report: self.source_report@,
            instructions: self.instructions.deep_view(),
            dimensions: self.dimensions.deep_view(),
            targets: self.targets.deep_view(),
        }
    }
}

impl Clone for ReviewPacket {
    fn clone(&self) -> (r: Self)
        ensures
            r.deep_view() == self.deep_view(),
    {
        ReviewPacket {
            version: self.version,
            source_report: self.source_report.clone(),
            instructions: clone_texts(&self.instructions),
            dimensions: clone_texts(&self.dimensions),
            targets: clone_review_targets(&self.targets),
        }
    }
}

/// What a review looks at where nothing is named.
pub open spec fn usual_dimensions() -> Seq<Seq<char>> {
    seq![
        "naming"@,
        "abstractions"@,
        "boundaries"@,
        "error_handling"@,
        "testability"@,
        "security"@,
    ]
}

/// What a review looks at where nothing is named.
pub fn default_review_dimensions() -> (r: Vec<String>)
    ensures
        r.deep_view() == usual_dimensions(),
{
    let mut out: Vec<String> = Vec::new();
    push_text(&mut out, owned("naming"));
    push_text(&mut out, owned("abstractions"));
    push_text(&mut out, owned("boundaries"));
    push_text(&mut out, owned("error_handling"));
    push_text(&mut out, owned("testability"));
    push_text(&mut out, owned("security"));
    assert(out.deep_view() =~= usual_dimensions());
    out
}

/// How many findings are about a target.
pub open spec fn findings_about(items: Seq<FailureModel>, target_id: Seq<char>) -> int
    decreases items.len(),
{
    if items.len() == 0 {
        0
    } else {
        findings_about(items.drop_last(), target_id) + if items.last().target_id == Some(target_id) {
            1int
        } else {
            0int
        }
    }
}

fn count_findings(items: &Vec<Failure>, target_id: &str) -> (r: usize)
    ensures
        r == findings_about(items.deep_view(), target_id@),
        r <= items@.len(),
{
    let ghost all = items.deep_view();
    let mut n: usize = 0;
    let mut i: usize = 0;
    while i < items.len()
        invariant
            i <= items@.len(),
            n <= i,
            all == items.deep_view(),
            n == findings_about(all.take(i as int), target_id@),
        decreases items@.len() - i,
    {
        proof {
            lemma_take_next(all, i as int);
        }
        if is_about(&items[i], target_id) {
            n = n + 1;
        }
        i = i + 1;
    }
    proof {
        lemma_take_all(all);
    }
    n
}

fn is_about(finding: &Failure, target_id: &str) -> (r: bool)
    ensures
        r == (finding.deep_view().target_id == Some(target_id@)),
{
    match &finding.target_id {
        Some(id) => same(id.as_str(), target_id),
        None => false,
    }
}

/// How many findings say that a mutant of a target survived.
pub open spec fn survivors_about(items: Seq<FailureModel>, target_id: Seq<char>) -> int
    decreases items.len(),
{
    if items.len() == 0 {
        0
    } else {
        survivors_about(items.drop_last(), target_id) + if items.last().target_id == Some(target_id) && has_text(items.last().message, "mutation survived"@) {
            1int
        } else {
            0int
        }
    }
}

fn count_survivors(items: &Vec<Failure>, target_id: &str) -> (r: usize)
    ensures
        r == survivors_about(items.deep_view(), target_id@),
        r <= items@.len(),
{
    let ghost all = items.deep_view();
    let mut n: usize = 0;
    let mut i: usize = 0;
    while i < items.len()
        invariant
            i <= items@.len(),
            n <= i,
            all == items.deep_view(),
            n == survivors_about(all.take(i as int), target_id@),
        decreases items@.len() - i,
    {
        proof {
            lemma_take_next(all, i as int);
        }
        if is_about(&items[i], target_id) && contains(items[i].message.as_str(), "mutation survived") {
            n = n + 1;
        }
        i = i + 1;
    }
    proof {
        lemma_take_all(all);
    }
    n
}

/// How many artifacts of a kind are about a target.
pub open spec fn artifacts_about(
    items: Seq<GeneratedArtifactModel>,
    target_id: Seq<char>,
    kind: ArtifactKind,
) -> int
    decreases items.len(),
{
    if items.len() == 0 {
        0
    } else {
        artifacts_about(items.drop_last(), target_id, kind) + if items.last().target_id == target_id && items.last().kind == kind {
            1int
        } else {
            0int
        }
    }
}

fn count_artifacts(
    items: &Vec<GeneratedArtifact>,
    target_id: &str,
    kind: ArtifactKind,
) -> (r: usize)
    ensures
        r == artifacts_about(items.deep_view(), target_id@, kind),
        r <= items@.len(),
{
    let ghost all = items.deep_view();
    let mut n: usize = 0;
    let mut i: usize = 0;
    while i < items.len()
        invariant
            i <= items@.len(),
            n <= i,
            all == items.deep_view(),
            n == artifacts_about(all.take(i as int), target_id@, kind),
        decreases items@.len() - i,
    {
        proof {
            lemma_take_next(all, i as int);
        }
        if same(items[i].target_id.as_str(), target_id) && items[i].kind == kind {
            n = n + 1;
        }
        i = i + 1;
    }
    proof {
        lemma_take_all(all);
    }
    n
}

/// How many artifacts are about replays.
pub open spec fn replay_artifacts_in(items: Seq<GeneratedArtifactModel>) -> int
    decreases items.len(),
{
    if items.len() == 0 {
        0
    } else {
        replay_artifacts_in(items.drop_last()) + if items.last().kind == ArtifactKind::DifferentialReplay || items.last().kind == ArtifactKind::ReplayResult {
            1int
        } else {
            0int
        }
    }
}

fn count_replays(items: &Vec<GeneratedArtifact>) -> (r: usize)
    ensures
        r == replay_artifacts_in(items.deep_view()),
        r <= items@.len(),
{
    let ghost all = items.deep_view();
    let mut n: usize = 0;
    let mut i: usize = 0;
    while i < items.len()
        invariant
            i <= items@.len(),
            n <= i,
            all == items.deep_view(),
            n == replay_artifacts_in(all.take(i as int)),
        decreases items@.len() - i,
    {
        proof {
            lemma_take_next(all, i as int);
        }
        if items[i].kind == ArtifactKind::DifferentialReplay || items[i].kind == ArtifactKind::ReplayResult {
            n = n + 1;
        }
        i = i + 1;
    }
    proof {
        lemma_take_all(all);
    }
    n
}

/// The paths of the artifacts about a target.
pub open spec fn artifact_paths_about(
    target_id: Seq<char>,
    items: Seq<GeneratedArtifactModel>,
) -> Seq<Seq<char>>
    decreases items.len(),
{
    if items.len() == 0 {
        Seq::empty()
    } else {
        let before = artifact_paths_about(target_id, items.drop_last());
        match (if items.last().target_id == target_id { Some(items.last().path) } else { None }) {
            Some(one) => before.push(one),
            None => before,
        }
    }
}

fn paths_about(target_id: &str, items: &Vec<GeneratedArtifact>) -> (r: Vec<String>)
    ensures
        r.deep_view() == artifact_paths_about(target_id@, items.deep_view()),
{
    let mut out: Vec<String> = Vec::new();
    let ghost all = items.deep_view();
    let mut i: usize = 0;
    assert(out.deep_view() == artifact_paths_about(target_id@, all.take(0)));
    while i < items.len()
        invariant
            i <= items@.len(),
            all == items.deep_view(),
            out.deep_view() == artifact_paths_about(target_id@, all.take(i as int)),
        decreases items@.len() - i,
    {
        proof {
            lemma_take_next(all, i as int);
        }
        match (if same(items[i].target_id.as_str(), target_id) { Some(owned(items[i].path.as_str())) } else { None }) {
            Some(one) => {
                push_text(&mut out, one);
            },
            None => {},
        }
        i = i + 1;
    }
    proof {
        lemma_take_all(all);
    }
    out
}

/// Whether what a report says of its budget fits a machine integer.
pub open spec fn signals_fit(report: VerificationReportModel) -> bool {
    report.quality.budget.skipped_commands + report.quality.budget.timed_out_commands <= usize::MAX
}

/// What a report says of a target: of the artifacts to read, eight at most.
pub open spec fn signals_for(
    report: VerificationReportModel,
    target_id: Seq<char>,
) -> ReviewSignalsModel {
    ReviewSignalsModel {
        active_findings: findings_about(report.findings, target_id) as usize,
        mutation_survivors: survivors_about(report.findings, target_id) as usize,
        generated_properties: artifacts_about(
            report.artifacts,
            target_id,
            ArtifactKind::PropertyTest,
        ) as usize,
        replay_cases: replay_artifacts_in(report.artifacts) as usize,
        corpus_entries: artifacts_about(
            report.artifacts,
            target_id,
            ArtifactKind::CorpusEntry,
        ) as usize,
        budget_risks: (report.quality.budget.skipped_commands
            + report.quality.budget.timed_out_commands) as usize,
        artifacts_to_read: at_most(artifact_paths_about(target_id, report.artifacts), 8),
    }
}

/// What a report says of a target.
pub fn review_signals_for_target(report: &VerificationReport, target_id: &str) -> (r: ReviewSignals)
    requires
        signals_fit(report.deep_view()),
    ensures
        r.deep_view() == signals_for(report.deep_view(), target_id@),
{
    ReviewSignals {
        active_findings: count_findings(&report.findings, target_id),
        mutation_survivors: count_survivors(&report.findings, target_id),
        generated_properties: count_artifacts(
            &report.artifacts,
            target_id,
            ArtifactKind::PropertyTest,
        ),
        replay_cases: count_replays(&report.artifacts),
        corpus_entries: count_artifacts(&report.artifacts, target_id, ArtifactKind::CorpusEntry),
        budget_risks: report.quality.budget.skipped_commands
            + report.quality.budget.timed_out_commands,
        artifacts_to_read: first_texts(&paths_about(target_id, &report.artifacts), 8),
    }
}

/// What is reviewed of a target: nothing of the project itself.
pub open spec fn review_target_for(
    report: VerificationReportModel,
    target: VerificationTargetModel,
) -> Option<ReviewTargetModel> {
    if target.kind == TargetKind::Project {
        None
    } else {
        Some(
            ReviewTargetModel {
                target_id: target.id,
                language: target.language,
                path: target.path,
                symbol: target.symbol,
                risk: target.risk,
                line_range: target.line_range,
                mechanical_signals: signals_for(report, target.id),
            },
        )
    }
}

fn review_target(report: &VerificationReport, target: &VerificationTarget) -> (r: Option<
    ReviewTarget,
>)
    requires
        signals_fit(report.deep_view()),
    ensures
        r.deep_view() == review_target_for(report.deep_view(), target.deep_view()),
{
    if target.kind == TargetKind::Project {
        None
    } else {
        Some(
            ReviewTarget {
                target_id: owned(target.id.as_str()),
                language: owned(target.language.as_str()),
                path: owned(target.path.as_str()),
                symbol: clone_text(&target.symbol),
                risk: target.risk,
                line_range: target.line_range,
                mechanical_signals: review_signals_for_target(report, target.id.as_str()),
            },
        )
    }
}

/// The targets that are to be reviewed.
pub open spec fn review_targets_of(
    report: VerificationReportModel,
    items: Seq<VerificationTargetModel>,
) -> Seq<ReviewTargetModel>
    decreases items.len(),
{
    if items.len() == 0 {
        Seq::empty()
    } else {
        let before = review_targets_of(report, items.drop_last());
        match review_target_for(report, items.last()) {
            Some(one) => before.push(one),
            None => before,
        }
    }
}

fn review_targets_in(
    report: &VerificationReport,
    items: &Vec<VerificationTarget>,
) -> (r: Vec<ReviewTarget>)
    requires
        signals_fit(report.deep_view()),
    ensures
        r.deep_view() == review_targets_of(report.deep_view(), items.deep_view()),
{
    let mut out: Vec<ReviewTarget> = Vec::new();
    let ghost all = items.deep_view();
    let mut i: usize = 0;
    assert(out.deep_view() == review_targets_of(report.deep_view(), all.take(0)));
    while i < items.len()
        invariant
            i <= items@.len(),
            all == items.deep_view(),
            signals_fit(report.deep_view()),
            out.deep_view() == review_targets_of(report.deep_view(), all.take(i as int)),
        decreases items@.len() - i,
    {
        proof {
            lemma_take_next(all, i as int);
        }
        match review_target(report, &items[i]) {
            Some(one) => {
                push_review_target(&mut out, one);
            },
            None => {},
        }
        i = i + 1;
    }
    proof {
        lemma_take_all(all);
    }
    out
}

/// What a review is asked for: of the dimensions that are named, or of the usual ones.
pub open spec fn packet_for(
    report: VerificationReportModel,
    dimensions: Seq<Seq<char>>,
) -> ReviewPacketModel {
    ReviewPacketModel {
        version: 1,
        source_report: ".veritas/report.json"@,
        instructions: seq![
            "Review from evidence only; do not anchor to current confidence score or desired score."@,
            "Return concrete findings with target IDs, dimensions, evidence, confidence, and suggested tests."@,
            "Prefer issues that improve verifiability, boundaries, error handling, and testability."@,
            "Do not request broad rewrites unless mechanical signals show high risk."@,
        ],
        dimensions: if dimensions.len() == 0 {
            usual_dimensions()
        } else {
            dimensions
        },
        targets: review_targets_of(report, report.targets),
    }
}

/// What a review is asked for; nothing where what the report says of its budget does not fit
/// a machine integer.
pub fn review_packet(report: &VerificationReport, dimensions: &Vec<String>) -> (r: Option<
    ReviewPacket,
>)
    ensures
        r is Some == signals_fit(report.deep_view()),
        r matches Some(packet) ==> packet.deep_view() == packet_for(
            report.deep_view(),
            dimensions.deep_view(),
        ),
{
    if report.quality.budget.skipped_commands.checked_add(
        report.quality.budget.timed_out_commands,
    ).is_none() {
        return None;
    }
    assert(dimensions@.len() == dimensions.deep_view().len());
    let chosen = if dimensions.len() == 0 {
        default_review_dimensions()
    } else {
        clone_texts(dimensions)
    };
    let instructions = texts_of4(
        "Review from evidence only; do not anchor to current confidence score or desired score.",
        "Return concrete findings with target IDs, dimensions, evidence, confidence, and suggested tests.",
        "Prefer issues that improve verifiability, boundaries, error handling, and testability.",
        "Do not request broad rewrites unless mechanical signals show high risk.",
    );
    Some(
        ReviewPacket {
            version: 1,
            source_report: owned(".veritas/report.json"),
            instructions,
            dimensions: chosen,
            targets: review_targets_in(report, &report.targets),
        },
    )
}

// ---------------------------------------------------------------------------
// Text
// ---------------------------------------------------------------------------
/// The lines of dimensions.
pub open spec fn code_lines(items: Seq<Seq<char>>) -> Seq<char>
    decreases items.len(),
{
    if items.len() == 0 {
        Seq::empty()
    } else {
        code_lines(items.drop_last()) + ("- `"@ + items.last() + "`\n"@)
    }
}

/// The lines of dimensions.
pub fn push_code(out: &mut String, items: &Vec<String>)
    ensures
        final(out)@ == old(out)@ + code_lines(items.deep_view()),
{
    let ghost before = out@;
    let ghost all = items.deep_view();
    let mut i: usize = 0;
    assert(out@ == before + code_lines(all.take(0)));
    while i < items.len()
        invariant
            i <= items@.len(),
            all == items.deep_view(),
            out@ == before + code_lines(all.take(i as int)),
        decreases items@.len() - i,
    {
        proof {
            lemma_take_next(all, i as int);
        }
        let ghost so_far = out@;
        out.append("- `");
        out.append(items[i].as_str());
        out.append("`\n");
        assert(out@ =~= before + (code_lines(all.take(i as int)) + ("- `"@ + all[i as int] + "`\n"@)));
        i = i + 1;
        assert(out@ == before + code_lines(all.take(i as int)));
    }
    proof {
        lemma_take_all(all);
    }
}

/// The line of a target.
#[verifier::opaque]
pub open spec fn review_line_text(target: ReviewTargetModel) -> Seq<char> {
    let t = "- `"@
        + target.target_id
        + "` `"@
        + target.path
        + "` risk `"@
        + target.risk.name_text()
        + "` findings `"@
        + decimal(target.mechanical_signals.active_findings as int)
        + "` survivors `"@
        + decimal(target.mechanical_signals.mutation_survivors as int)
        + "`\n"@;
    t
}

fn review_line(target: &ReviewTarget) -> (r: String)
    ensures
        r@ == review_line_text(target.deep_view()),
{
    proof {
        reveal(review_line_text);
    }
    let mut out = owned("- `");
    out.append(target.target_id.as_str());
    out.append("` `");
    out.append(target.path.as_str());
    out.append("` risk `");
    out.append(target.risk.name());
    out.append("` findings `");
    out.append(print_usize(target.mechanical_signals.active_findings).as_str());
    out.append("` survivors `");
    out.append(print_usize(target.mechanical_signals.mutation_survivors).as_str());
    out.append("`\n");
    out
}

/// The lines of the first targets.
pub open spec fn review_lines(items: Seq<ReviewTargetModel>, n: int) -> Seq<char>
    decreases n,
{
    if n <= 0 || n > items.len() {
        Seq::empty()
    } else {
        review_lines(items, n - 1) + review_line_text(items[n - 1])
    }
}

/// How many lines targets get: twenty at most.
pub open spec fn line_count(targets: Seq<ReviewTargetModel>) -> int {
    if targets.len() < 20 {
        targets.len() as int
    } else {
        20
    }
}

fn push_review_lines(out: &mut String, items: &Vec<ReviewTarget>)
    ensures
        final(out)@ == old(out)@ + review_lines(items.deep_view(), line_count(items.deep_view())),
{
    let ghost before = out@;
    let ghost all = items.deep_view();
    let mut i: usize = 0;
    assert(all.len() == items@.len());
    assert(out@ =~= before + review_lines(all, 0));
    while i < items.len() && i < 20
        invariant
            i <= items@.len(),
            i <= 20,
            all == items.deep_view(),
            all.len() == items@.len(),
            out@ == before + review_lines(all, i as int),
        decreases items@.len() - i,
    {
        assert(all[i as int] == items@[i as int].deep_view());
        out.append(review_line(&items[i]).as_str());
        i = i + 1;
        assert(out@ =~= before + review_lines(all, i as int));
    }
}

/// What is asked of those who review.
pub open spec fn review_prompt(packet: ReviewPacketModel) -> Seq<char> {
    "# Veritas Review Packet\n\nUse `.veritas/review/query.json` as the source of truth. Review the code from evidence only; do not infer or optimize toward a hidden score.\n\n## Dimensions\n\n"@
        + code_lines(packet.dimensions) + "\n## Targets\n\n"@ + review_lines(
        packet.targets,
        line_count(packet.targets),
    )
        + "\n## Required Output\n\nReturn JSON with `findings`, where each finding has `target_id`, `dimension`, `evidence`, `confidence`, `suggested_test`, and `why_it_improves_verifiability`.\n"@
}

/// What is asked of those who review.
pub fn render_review_prompt(packet: &ReviewPacket) -> (r: String)
    ensures
        r@ == review_prompt(packet.deep_view()),
{
    let mut out = owned(
        "# Veritas Review Packet\n\nUse `.veritas/review/query.json` as the source of truth. Review the code from evidence only; do not infer or optimize toward a hidden score.\n\n## Dimensions\n\n",
    );
    push_code(&mut out, &packet.dimensions);
    out.append("\n## Targets\n\n");
    push_review_lines(&mut out, &packet.targets);
    out.append(
        "\n## Required Output\n\nReturn JSON with `findings`, where each finding has `target_id`, `dimension`, `evidence`, `confidence`, `suggested_test`, and `why_it_improves_verifiability`.\n",
    );
    out
}

/// A review signals as a JSON document.
pub open spec fn review_signals_document(v: ReviewSignalsModel) -> JsonModel {
    JsonModel::Object(
        seq![
            ("active_findings"@, JsonModel::Number(decimal(v.active_findings as int))),
            ("mutation_survivors"@, JsonModel::Number(decimal(v.mutation_survivors as int))),
            ("generated_properties"@, JsonModel::Number(decimal(v.generated_properties as int))),
            ("replay_cases"@, JsonModel::Number(decimal(v.replay_cases as int))),
            ("corpus_entries"@, JsonModel::Number(decimal(v.corpus_entries as int))),
            ("budget_risks"@, JsonModel::Number(decimal(v.budget_risks as int))),
            ("artifacts_to_read"@, texts_model(v.artifacts_to_read)),
        ],
    )
}

/// A review signals as a JSON value.
pub fn review_signals_json(v: &ReviewSignals) -> (r: Json)
    ensures
        r.deep_view() == review_signals_document(v.deep_view()),
{
    let mut members = Members::new();
    members.put("active_findings", number(v.active_findings as u64));
    members.put("mutation_survivors", number(v.mutation_survivors as u64));
    members.put("generated_properties", number(v.generated_properties as u64));
    members.put("replay_cases", number(v.replay_cases as u64));
    members.put("corpus_entries", number(v.corpus_entries as u64));
    members.put("budget_risks", number(v.budget_risks as u64));
    members.put("artifacts_to_read", texts(&v.artifacts_to_read));
    assert(members.model() =~= review_signals_document(v.deep_view())->Object_0);
    members.finish()
}

/// A review target as a JSON document.
pub open spec fn review_target_document(v: ReviewTargetModel) -> JsonModel {
    JsonModel::Object(
        seq![
            ("target_id"@, JsonModel::Text(v.target_id)),
            ("language"@, JsonModel::Text(v.language)),
            ("path"@, JsonModel::Text(v.path)),
            ("symbol"@, text_or_null(v.symbol)),
            ("risk"@, JsonModel::Text(v.risk.label_text())),
            ("line_range"@, optional_line_range_document(v.line_range)),
            ("mechanical_signals"@, review_signals_document(v.mechanical_signals)),
        ],
    )
}

/// A review target as a JSON value.
pub fn review_target_json(v: &ReviewTarget) -> (r: Json)
    ensures
        r.deep_view() == review_target_document(v.deep_view()),
{
    let mut members = Members::new();
    members.put("target_id", text(v.target_id.as_str()));
    members.put("language", text(v.language.as_str()));
    members.put("path", text(v.path.as_str()));
    members.put("symbol", optional_text(&v.symbol));
    members.put("risk", text(v.risk.label()));
    members.put("line_range", optional_line_range_json(&v.line_range));
    members.put("mechanical_signals", review_signals_json(&v.mechanical_signals));
    assert(members.model() =~= review_target_document(v.deep_view())->Object_0);
    members.finish()
}

/// The JSON documents of review target records.
pub open spec fn review_target_documents(items: Seq<ReviewTargetModel>) -> Seq<JsonModel> {
    items.map_values(|v: ReviewTargetModel| review_target_document(v))
}

/// A JSON array of review target records.
pub fn review_target_list(items: &Vec<ReviewTarget>) -> (r: Json)
    ensures
        r.deep_view() == JsonModel::Array(review_target_documents(items.deep_view())),
{
    let mut out = Items::new();
    let ghost all = items.deep_view();
    let mut i: usize = 0;
    assert(out.model() =~= review_target_documents(all.take(0)));
    while i < items.len()
        invariant
            i <= items@.len(),
            all == items.deep_view(),
            out.model() == review_target_documents(all.take(i as int)),
        decreases items@.len() - i,
    {
        out.put(review_target_json(&items[i]));
        proof {
            lemma_take_next(all, i as int);
        }
        assert(out.model() =~= review_target_documents(all.take(i + 1)));
        i = i + 1;
    }
    proof {
        lemma_take_all(all);
    }
    out.finish()
}

/// A review packet as a JSON document.
pub open spec fn review_packet_document(v: ReviewPacketModel) -> JsonModel {
    JsonModel::Object(
        seq![
            ("version"@, JsonModel::Number(decimal(v.version as int))),
            ("source_report"@, JsonModel::Text(v.source_report)),
            ("instructions"@, texts_model(v.instructions)),
            ("dimensions"@, texts_model(v.dimensions)),
            ("targets"@, JsonModel::Array(review_target_documents(v.targets))),
        ],
    )
}

/// A review packet as a JSON value.
pub fn review_packet_json(v: &ReviewPacket) -> (r: Json)
    ensures
        r.deep_view() == review_packet_document(v.deep_view()),
{
    let mut members = Members::new();
    members.put("version", number(v.version as u64));
    members.put("source_report", text(v.source_report.as_str()));
    members.put("instructions", texts(&v.instructions));
    members.put("dimensions", texts(&v.dimensions));
    members.put("targets", review_target_list(&v.targets));
    assert(members.model() =~= review_packet_document(v.deep_view())->Object_0);
    members.finish()
}

/// What a review is asked for, as a document.
pub fn review_packet_text(packet: &ReviewPacket) -> (r: String)
    ensures
        r@ == pretty_json(review_packet_document(packet.deep_view())),
{
    pretty(&review_packet_json(packet))
}

/// What is said of a packet that was written.
pub open spec fn packet_summary(
    query_path: Seq<char>,
    prompt_path: Seq<char>,
    packet: ReviewPacketModel,
) -> Seq<char> {
    "# veritas review-packet\n\n- Query: `"@ + query_path + "`\n- Prompt: `"@ + prompt_path
        + "`\n- Targets: `"@ + decimal(packet.targets.len() as int) + "`\n- Dimensions: `"@
        + joined(packet.dimensions, ", "@) + "`\n"@
}

/// What is said of a packet that was written.
pub fn print_review_packet_summary(
    query_path: &str,
    prompt_path: &str,
    packet: &ReviewPacket,
) -> (r: String)
    ensures
        r@ == packet_summary(query_path@, prompt_path@, packet.deep_view()),
{
    assert(packet.targets@.len() == packet.targets.deep_view().len());
    let mut out = owned("# veritas review-packet\n\n- Query: `");
    out.append(query_path);
    out.append("`\n- Prompt: `");
    out.append(prompt_path);
    out.append("`\n- Targets: `");
    out.append(print_usize(packet.targets.len()).as_str());
    out.append("`\n- Dimensions: `");
    out.append(join(&packet.dimensions, ", ").as_str());
    out.append("`\n");
    out
}

proof fn lemma_about_is_bounded(items: Seq<FailureModel>, target_id: Seq<char>)
    ensures
        0 <= survivors_about(items, target_id) <= findings_about(items, target_id) <= items.len(),
    decreases items.len(),
{
    if items.len() > 0 {
        lemma_about_is_bounded(items.drop_last(), target_id);
    }
}

/// One more finding is one more of the target that it is about and of no other, and one more
/// survivor where its message says that a mutation survived.
pub proof fn law_findings_are_signals_of_their_target(
    report: VerificationReportModel,
    finding: FailureModel,
    target_id: Seq<char>,
)
    requires
        report.findings.len() < usize::MAX,
    ensures
        ({
            let more = VerificationReportModel { findings: report.findings.push(finding), ..report };
            let before = signals_for(report, target_id);
            let after = signals_for(more, target_id);
            let about = finding.target_id == Some(target_id);
            let survivor = about && has_text(finding.message, "mutation survived"@);
            &&& after.active_findings == before.active_findings + (if about {
                1int
            } else {
                0
            })
            &&& after.mutation_survivors == before.mutation_survivors + (if survivor {
                1int
            } else {
                0
            })
            &&& after.generated_properties == before.generated_properties
            &&& after.replay_cases == before.replay_cases
            &&& after.corpus_entries == before.corpus_entries
            &&& after.artifacts_to_read == before.artifacts_to_read
        }),
{
    assert(report.findings.push(finding).drop_last() =~= report.findings);
    lemma_about_is_bounded(report.findings, target_id);
}

proof fn lemma_target_is_reviewed(
    report: VerificationReportModel,
    items: Seq<VerificationTargetModel>,
    t: int,
)
    requires
        0 <= t < items.len(),
        items[t].kind != TargetKind::Project,
    ensures
        review_targets_of(report, items).contains(review_target_for(report, items[t])->0),
    decreases items.len(),
{
    let all = review_targets_of(report, items);
    let one = review_target_for(report, items[t])->0;
    if t < items.len() - 1 {
        lemma_target_is_reviewed(report, items.drop_last(), t);
        let before = review_targets_of(report, items.drop_last());
        let k = choose|k: int| 0 <= k < before.len() && before[k] == one;
        assert(all[k] == one);
    } else {
        assert(all[all.len() - 1] == one);
    }
}

proof fn lemma_reviewed_is_a_target(
    report: VerificationReportModel,
    items: Seq<VerificationTargetModel>,
    k: int,
)
    requires
        0 <= k < review_targets_of(report, items).len(),
    ensures
        exists|t: int|
            0 <= t < items.len() && (#[trigger] items[t]).kind != TargetKind::Project
                && review_targets_of(report, items)[k].target_id == items[t].id,
    decreases items.len(),
{
    let before = review_targets_of(report, items.drop_last());
    if k < before.len() {
        lemma_reviewed_is_a_target(report, items.drop_last(), k);
        let t = choose|t: int|
            0 <= t < items.drop_last().len() && (#[trigger] items.drop_last()[t]).kind
                != TargetKind::Project && before[k].target_id == items.drop_last()[t].id;
        assert(items[t].kind != TargetKind::Project);
    } else {
        assert(items[items.len() - 1].kind != TargetKind::Project);
    }
}

/// Every target but the project itself is reviewed, with its path, symbol, risk and lines, and
/// nothing else is.
pub proof fn law_every_target_is_reviewed(
    report: VerificationReportModel,
    dimensions: Seq<Seq<char>>,
)
    ensures
        forall|t: int|
            0 <= t < report.targets.len() && (#[trigger] report.targets[t]).kind
                != TargetKind::Project ==> exists|k: int|
                0 <= k < packet_for(report, dimensions).targets.len() && (
                #[trigger] packet_for(report, dimensions).targets[k]).target_id
                    == report.targets[t].id && packet_for(report, dimensions).targets[k].path
                    == report.targets[t].path && packet_for(report, dimensions).targets[k].symbol
                    == report.targets[t].symbol && packet_for(report, dimensions).targets[k].risk
                    == report.targets[t].risk && packet_for(report, dimensions).targets[k].line_range
                    == report.targets[t].line_range,
        forall|k: int|
            0 <= k < packet_for(report, dimensions).targets.len() ==> exists|t: int|
                0 <= t < report.targets.len() && (#[trigger] report.targets[t]).kind
                    != TargetKind::Project && (#[trigger] packet_for(
                    report,
                    dimensions,
                ).targets[k]).target_id == report.targets[t].id,
{
    let all = review_targets_of(report, report.targets);
    assert(packet_for(report, dimensions).targets == all);
    assert forall|t: int|
        0 <= t < report.targets.len() && (#[trigger] report.targets[t]).kind
            != TargetKind::Project implies exists|k: int|
        0 <= k < packet_for(report, dimensions).targets.len() && (#[trigger] packet_for(
            report,
            dimensions,
        ).targets[k]).target_id == report.targets[t].id && packet_for(
            report,
            dimensions,
        ).targets[k].path == report.targets[t].path && packet_for(
            report,
            dimensions,
        ).targets[k].symbol == report.targets[t].symbol && packet_for(
            report,
            dimensions,
        ).targets[k].risk == report.targets[t].risk && packet_for(
            report,
            dimensions,
        ).targets[k].line_range == report.targets[t].line_range by {
        lemma_target_is_reviewed(report, report.targets, t);
        let one = review_target_for(report, report.targets[t])->0;
        let k = choose|k: int| 0 <= k < all.len() && all[k] == one;
        assert(packet_for(report, dimensions).targets[k] == one);
    }
    assert forall|k: int| 0 <= k < packet_for(report, dimensions).targets.len() implies exists|
        t: int,
    |
        0 <= t < report.targets.len() && (#[trigger] report.targets[t]).kind != TargetKind::Project
            && (#[trigger] packet_for(report, dimensions).targets[k]).target_id
            == report.targets[t].id by {
        lemma_reviewed_is_a_target(report, report.targets, k);
    }
}

} // verus!
