//! The records of reports and suites as JSON documents: what is written for each
//! of them, and what is read back.
use vstd::prelude::*;

use crate::api::{
    default_failure_severity, push_command_record, push_coverage_file, push_coverage_report,
    push_failure, push_generated_artifact, push_test_run_result, push_verification_target,
    ArtifactKind, ArtifactStatus, CommandRecord, CommandRecordModel, CoverageFile,
    CoverageFileModel, CoverageReport, CoverageReportModel, Failure, FailureModel, FailureSeverity,
    GeneratedArtifact, GeneratedArtifactModel, LineRange, ProjectInfo, ProjectInfoModel, ReproCase,
    ReproCaseModel, RiskLevel, RunStatus, TargetKind, TestRunResult, TestRunResultModel,
    VerificationPlan, VerificationPlanModel, VerificationReport, VerificationReportModel,
    VerificationStrategy, VerificationTarget, VerificationTargetModel,
};
use crate::cache::TargetCache;
use crate::corpus::CorpusReplay;
use crate::fields::{
    absent, array_at, flag_at, is_absent, optional_text_at, read_array, read_flag,
    read_optional_text, read_signed, read_text, read_texts, read_unsigned, read_variant,
    read_whole, signed_at, text_at, texts_at, unsigned_at, variant_at,
};
use crate::json::{
    as_record, as_variant, big_number, field, json_model, lemma_object_model, member, named_fields,
    number, number_or_null, optional_i16, optional_i32, optional_text, optional_u64, optional_u8,
    repeated, signed, text, text_or_null, texts, texts_model, Items, Json, JsonModel, Members,
};
use crate::metrics::{
    no_quality, push_attribution_entry, push_mutation_record, AttributionEntry,
    AttributionEntryModel, BudgetMetrics, EvolutionMetrics, FuzzMetrics, MutationAttribution,
    MutationMetrics, MutationMetricsModel, MutationRecord, MutationRecordModel, MutationStatus,
    PerformanceMetrics, PropertyMetrics, RegressionMetrics, ReplayMetrics, VerificationQuality,
    VerificationQualityModel,
};
use crate::number::{decimal, signed_decimal};
use crate::order::{sorted_set, to_sorted_set, ByText};
use crate::records::{
    push_evolution_candidate_record, push_evolution_generation_candidate, AssertionCandidate,
    AssertionCandidateModel, AssertionDomain, AssertionSource, CommandBudget, CommandBudgetModel,
    ConfidenceScore, ConfidenceScoreModel, CorpusEntry, CorpusEntryModel, EvolutionCandidateKind,
    EvolutionCandidateRecord, EvolutionCandidateRecordModel, EvolutionCandidateStatus,
    EvolutionFitness, EvolutionFitnessModel, EvolutionGeneration, EvolutionGenerationCandidate,
    EvolutionGenerationCandidateModel, EvolutionGenerationModel, EvolutionOutcome,
    EvolutionQualityDelta, EvolutionStrategy, EvolutionSuite, EvolutionSuiteModel, QualityBaseline,
    QualityBaselineModel, QualityDelta,
};
use crate::seqs::{lemma_take_all, lemma_take_next};
use crate::text::same;

verus! {

// ---------------------------------------------------------------------------
// Writing
// ---------------------------------------------------------------------------
/// A line range as a JSON document.
pub open spec fn line_range_document(v: LineRange) -> JsonModel {
    JsonModel::Object(
        seq![
            ("start"@, JsonModel::Number(decimal(v.start as int))),
            ("end"@, JsonModel::Number(decimal(v.end as int))),
        ],
    )
}

/// A line range as a JSON value.
pub fn line_range_json(v: &LineRange) -> (r: Json)
    ensures
        r.deep_view() == line_range_document(*v),
{
    let mut members = Members::new();
    members.put("start", number(v.start as u64));
    members.put("end", number(v.end as u64));
    assert(members.model() =~= line_range_document(*v)->Object_0);
    members.finish()
}

/// A line range as a JSON document, or null.
pub open spec fn optional_line_range_document(v: Option<LineRange>) -> JsonModel {
    match v {
        Some(given) => line_range_document(given),
        None => JsonModel::Null,
    }
}

/// A line range as a JSON value, or null.
pub fn optional_line_range_json(v: &Option<LineRange>) -> (r: Json)
    ensures
        r.deep_view() == optional_line_range_document(*v),
{
    match v {
        Some(given) => line_range_json(given),
        None => Json::Null,
    }
}

/// A project info as a JSON document.
pub open spec fn project_info_document(v: ProjectInfoModel) -> JsonModel {
    JsonModel::Object(
        seq![
            ("language"@, JsonModel::Text(v.language)),
            ("name"@, JsonModel::Text(v.name)),
            ("root"@, JsonModel::Text(v.root)),
            ("manifests"@, texts_model(v.manifests)),
        ],
    )
}

/// A project info as a JSON value.
pub fn project_info_json(v: &ProjectInfo) -> (r: Json)
    ensures
        r.deep_view() == project_info_document(v.deep_view()),
{
    let mut members = Members::new();
    members.put("language", text(v.language.as_str()));
    members.put("name", text(v.name.as_str()));
    members.put("root", text(v.root.as_str()));
    members.put("manifests", texts(&v.manifests));
    assert(members.model() =~= project_info_document(v.deep_view())->Object_0);
    members.finish()
}

/// A project info as a JSON document, or null.
pub open spec fn optional_project_info_document(v: Option<ProjectInfoModel>) -> JsonModel {
    match v {
        Some(given) => project_info_document(given),
        None => JsonModel::Null,
    }
}

/// A project info as a JSON value, or null.
pub fn optional_project_info_json(v: &Option<ProjectInfo>) -> (r: Json)
    ensures
        r.deep_view() == optional_project_info_document(v.deep_view()),
{
    match v {
        Some(given) => project_info_json(given),
        None => Json::Null,
    }
}

/// A verification target as a JSON document.
pub open spec fn verification_target_document(v: VerificationTargetModel) -> JsonModel {
    JsonModel::Object(
        seq![
            ("id"@, JsonModel::Text(v.id)),
            ("language"@, JsonModel::Text(v.language)),
            ("kind"@, JsonModel::Text(v.kind.label_text())),
            ("path"@, JsonModel::Text(v.path)),
            ("symbol"@, text_or_null(v.symbol)),
            ("signature"@, text_or_null(v.signature)),
            ("line_range"@, optional_line_range_document(v.line_range)),
            ("description"@, JsonModel::Text(v.description)),
            ("risk"@, JsonModel::Text(v.risk.label_text())),
        ],
    )
}

/// A verification target as a JSON value.
pub fn verification_target_json(v: &VerificationTarget) -> (r: Json)
    ensures
        r.deep_view() == verification_target_document(v.deep_view()),
{
    let mut members = Members::new();
    members.put("id", text(v.id.as_str()));
    members.put("language", text(v.language.as_str()));
    members.put("kind", text(v.kind.label()));
    members.put("path", text(v.path.as_str()));
    members.put("symbol", optional_text(&v.symbol));
    members.put("signature", optional_text(&v.signature));
    members.put("line_range", optional_line_range_json(&v.line_range));
    members.put("description", text(v.description.as_str()));
    members.put("risk", text(v.risk.label()));
    assert(members.model() =~= verification_target_document(v.deep_view())->Object_0);
    members.finish()
}

/// The JSON documents of verification target records.
pub open spec fn verification_target_documents(
    items: Seq<VerificationTargetModel>,
) -> Seq<JsonModel> {
    items.map_values(|v: VerificationTargetModel| verification_target_document(v))
}

/// A JSON array of verification target records.
pub fn verification_target_list(items: &Vec<VerificationTarget>) -> (r: Json)
    ensures
        r.deep_view() == JsonModel::Array(verification_target_documents(items.deep_view())),
{
    let mut out = Items::new();
    let ghost all = items.deep_view();
    let mut i: usize = 0;
    assert(out.model() =~= verification_target_documents(all.take(0)));
    while i < items.len()
        invariant
            i <= items@.len(),
            all == items.deep_view(),
            out.model() == verification_target_documents(all.take(i as int)),
        decreases items@.len() - i,
    {
        out.put(verification_target_json(&items[i]));
        proof {
            lemma_take_next(all, i as int);
        }
        assert(out.model() =~= verification_target_documents(all.take(i + 1)));
        i = i + 1;
    }
    proof {
        lemma_take_all(all);
    }
    out.finish()
}

/// A verification plan as a JSON document.
pub open spec fn verification_plan_document(v: VerificationPlanModel) -> JsonModel {
    JsonModel::Object(
        seq![
            ("target_id"@, JsonModel::Text(v.target_id)),
            ("strategies"@, JsonModel::Array(verification_strategy_documents(v.strategies))),
            ("budget_seconds"@, JsonModel::Number(decimal(v.budget_seconds as int))),
            ("write_generated_tests"@, JsonModel::Bool(v.write_generated_tests)),
            ("run_existing_tests"@, JsonModel::Bool(v.run_existing_tests)),
            ("run_generated_tests"@, JsonModel::Bool(v.run_generated_tests)),
            ("fail_on_generated_test_failure"@, JsonModel::Bool(v.fail_on_generated_test_failure)),
        ],
    )
}

/// A verification plan as a JSON value.
pub fn verification_plan_json(v: &VerificationPlan) -> (r: Json)
    ensures
        r.deep_view() == verification_plan_document(v.deep_view()),
{
    let mut members = Members::new();
    members.put("target_id", text(v.target_id.as_str()));
    members.put("strategies", verification_strategy_list(&v.strategies));
    members.put("budget_seconds", number(v.budget_seconds));
    members.put("write_generated_tests", Json::Bool(v.write_generated_tests));
    members.put("run_existing_tests", Json::Bool(v.run_existing_tests));
    members.put("run_generated_tests", Json::Bool(v.run_generated_tests));
    members.put("fail_on_generated_test_failure", Json::Bool(v.fail_on_generated_test_failure));
    assert(members.model() =~= verification_plan_document(v.deep_view())->Object_0);
    members.finish()
}

/// A verification plan as a JSON document, or null.
pub open spec fn optional_verification_plan_document(
    v: Option<VerificationPlanModel>,
) -> JsonModel {
    match v {
        Some(given) => verification_plan_document(given),
        None => JsonModel::Null,
    }
}

/// A verification plan as a JSON value, or null.
pub fn optional_verification_plan_json(v: &Option<VerificationPlan>) -> (r: Json)
    ensures
        r.deep_view() == optional_verification_plan_document(v.deep_view()),
{
    match v {
        Some(given) => verification_plan_json(given),
        None => Json::Null,
    }
}

/// A generated artifact as a JSON document.
pub open spec fn generated_artifact_document(v: GeneratedArtifactModel) -> JsonModel {
    JsonModel::Object(
        seq![
            ("id"@, JsonModel::Text(v.id)),
            ("language"@, JsonModel::Text(v.language)),
            ("kind"@, JsonModel::Text(v.kind.label_text())),
            ("target_id"@, JsonModel::Text(v.target_id)),
            ("path"@, JsonModel::Text(v.path)),
            ("contents"@, JsonModel::Text(v.contents)),
            ("description"@, JsonModel::Text(v.description)),
            ("status"@, JsonModel::Text(v.status.label_text())),
        ],
    )
}

/// A generated artifact as a JSON value.
pub fn generated_artifact_json(v: &GeneratedArtifact) -> (r: Json)
    ensures
        r.deep_view() == generated_artifact_document(v.deep_view()),
{
    let mut members = Members::new();
    members.put("id", text(v.id.as_str()));
    members.put("language", text(v.language.as_str()));
    members.put("kind", text(v.kind.label()));
    members.put("target_id", text(v.target_id.as_str()));
    members.put("path", text(v.path.as_str()));
    members.put("contents", text(v.contents.as_str()));
    members.put("description", text(v.description.as_str()));
    members.put("status", text(v.status.label()));
    assert(members.model() =~= generated_artifact_document(v.deep_view())->Object_0);
    members.finish()
}

/// The JSON documents of generated artifact records.
pub open spec fn generated_artifact_documents(
    items: Seq<GeneratedArtifactModel>,
) -> Seq<JsonModel> {
    items.map_values(|v: GeneratedArtifactModel| generated_artifact_document(v))
}

/// A JSON array of generated artifact records.
pub fn generated_artifact_list(items: &Vec<GeneratedArtifact>) -> (r: Json)
    ensures
        r.deep_view() == JsonModel::Array(generated_artifact_documents(items.deep_view())),
{
    let mut out = Items::new();
    let ghost all = items.deep_view();
    let mut i: usize = 0;
    assert(out.model() =~= generated_artifact_documents(all.take(0)));
    while i < items.len()
        invariant
            i <= items@.len(),
            all == items.deep_view(),
            out.model() == generated_artifact_documents(all.take(i as int)),
        decreases items@.len() - i,
    {
        out.put(generated_artifact_json(&items[i]));
        proof {
            lemma_take_next(all, i as int);
        }
        assert(out.model() =~= generated_artifact_documents(all.take(i + 1)));
        i = i + 1;
    }
    proof {
        lemma_take_all(all);
    }
    out.finish()
}

/// A command record as a JSON document.
pub open spec fn command_record_document(v: CommandRecordModel) -> JsonModel {
    JsonModel::Object(
        seq![
            ("program"@, JsonModel::Text(v.program)),
            ("args"@, texts_model(v.args)),
            ("cwd"@, JsonModel::Text(v.cwd)),
            ("exit_code"@, number_or_null(match v.exit_code {
                    Some(n) => Some(n as int),
                    None => None,
                })),
            ("status"@, JsonModel::Text(v.status.label_text())),
            ("stdout"@, JsonModel::Text(v.stdout)),
            ("stderr"@, JsonModel::Text(v.stderr)),
            ("duration_ms"@, JsonModel::Number(decimal(v.duration_ms as int))),
        ],
    )
}

/// A command record as a JSON value.
pub fn command_record_json(v: &CommandRecord) -> (r: Json)
    ensures
        r.deep_view() == command_record_document(v.deep_view()),
{
    let mut members = Members::new();
    members.put("program", text(v.program.as_str()));
    members.put("args", texts(&v.args));
    members.put("cwd", text(v.cwd.as_str()));
    members.put("exit_code", optional_i32(v.exit_code));
    members.put("status", text(v.status.label()));
    members.put("stdout", text(v.stdout.as_str()));
    members.put("stderr", text(v.stderr.as_str()));
    members.put("duration_ms", big_number(v.duration_ms));
    assert(members.model() =~= command_record_document(v.deep_view())->Object_0);
    members.finish()
}

/// The JSON documents of command records.
pub open spec fn command_record_documents(items: Seq<CommandRecordModel>) -> Seq<JsonModel> {
    items.map_values(|v: CommandRecordModel| command_record_document(v))
}

/// A JSON array of command records.
pub fn command_record_list(items: &Vec<CommandRecord>) -> (r: Json)
    ensures
        r.deep_view() == JsonModel::Array(command_record_documents(items.deep_view())),
{
    let mut out = Items::new();
    let ghost all = items.deep_view();
    let mut i: usize = 0;
    assert(out.model() =~= command_record_documents(all.take(0)));
    while i < items.len()
        invariant
            i <= items@.len(),
            all == items.deep_view(),
            out.model() == command_record_documents(all.take(i as int)),
        decreases items@.len() - i,
    {
        out.put(command_record_json(&items[i]));
        proof {
            lemma_take_next(all, i as int);
        }
        assert(out.model() =~= command_record_documents(all.take(i + 1)));
        i = i + 1;
    }
    proof {
        lemma_take_all(all);
    }
    out.finish()
}

/// A repro case as a JSON document.
pub open spec fn repro_case_document(v: ReproCaseModel) -> JsonModel {
    JsonModel::Object(
        seq![
            ("command"@, JsonModel::Text(v.command)),
            ("input"@, text_or_null(v.input)),
            ("path"@, text_or_null(v.path)),
        ],
    )
}

/// A repro case as a JSON value.
pub fn repro_case_json(v: &ReproCase) -> (r: Json)
    ensures
        r.deep_view() == repro_case_document(v.deep_view()),
{
    let mut members = Members::new();
    members.put("command", text(v.command.as_str()));
    members.put("input", optional_text(&v.input));
    members.put("path", optional_text(&v.path));
    assert(members.model() =~= repro_case_document(v.deep_view())->Object_0);
    members.finish()
}

/// A repro case as a JSON document, or null.
pub open spec fn optional_repro_case_document(v: Option<ReproCaseModel>) -> JsonModel {
    match v {
        Some(given) => repro_case_document(given),
        None => JsonModel::Null,
    }
}

/// A repro case as a JSON value, or null.
pub fn optional_repro_case_json(v: &Option<ReproCase>) -> (r: Json)
    ensures
        r.deep_view() == optional_repro_case_document(v.deep_view()),
{
    match v {
        Some(given) => repro_case_json(given),
        None => Json::Null,
    }
}

/// A failure as a JSON document.
pub open spec fn failure_document(v: FailureModel) -> JsonModel {
    JsonModel::Object(
        (match v.id {
            Some(given) => seq![("id"@, JsonModel::Text(given))],
            None => Seq::empty(),
        }) + seq![
            ("message"@, JsonModel::Text(v.message)),
            ("severity"@, JsonModel::Text(v.severity.label_text())),
            ("target_id"@, text_or_null(v.target_id)),
            ("artifact_id"@, text_or_null(v.artifact_id)),
            ("command"@, JsonModel::Text(v.command)),
            ("stdout_excerpt"@, JsonModel::Text(v.stdout_excerpt)),
            ("stderr_excerpt"@, JsonModel::Text(v.stderr_excerpt)),
            ("repro"@, optional_repro_case_document(v.repro)),
        ],
    )
}

/// A failure as a JSON value.
pub fn failure_json(v: &Failure) -> (r: Json)
    ensures
        r.deep_view() == failure_document(v.deep_view()),
{
    let mut members = Members::new();
    if let Some(given) = &v.id {
        members.put("id", text(given.as_str()));
    }
    members.put("message", text(v.message.as_str()));
    members.put("severity", text(v.severity.label()));
    members.put("target_id", optional_text(&v.target_id));
    members.put("artifact_id", optional_text(&v.artifact_id));
    members.put("command", text(v.command.as_str()));
    members.put("stdout_excerpt", text(v.stdout_excerpt.as_str()));
    members.put("stderr_excerpt", text(v.stderr_excerpt.as_str()));
    members.put("repro", optional_repro_case_json(&v.repro));
    assert(members.model() =~= failure_document(v.deep_view())->Object_0);
    members.finish()
}

/// The JSON documents of failure records.
pub open spec fn failure_documents(items: Seq<FailureModel>) -> Seq<JsonModel> {
    items.map_values(|v: FailureModel| failure_document(v))
}

/// A JSON array of failure records.
pub fn failure_list(items: &Vec<Failure>) -> (r: Json)
    ensures
        r.deep_view() == JsonModel::Array(failure_documents(items.deep_view())),
{
    let mut out = Items::new();
    let ghost all = items.deep_view();
    let mut i: usize = 0;
    assert(out.model() =~= failure_documents(all.take(0)));
    while i < items.len()
        invariant
            i <= items@.len(),
            all == items.deep_view(),
            out.model() == failure_documents(all.take(i as int)),
        decreases items@.len() - i,
    {
        out.put(failure_json(&items[i]));
        proof {
            lemma_take_next(all, i as int);
        }
        assert(out.model() =~= failure_documents(all.take(i + 1)));
        i = i + 1;
    }
    proof {
        lemma_take_all(all);
    }
    out.finish()
}

/// A coverage file as a JSON document.
pub open spec fn coverage_file_document(v: CoverageFileModel) -> JsonModel {
    JsonModel::Object(
        seq![
            ("path"@, JsonModel::Text(v.path)),
            ("line_coverage_percent"@, number_or_null(match v.line_coverage_percent {
                    Some(n) => Some(n as int),
                    None => None,
                })),
            ("uncovered_ranges"@, texts_model(v.uncovered_ranges)),
        ],
    )
}

/// A coverage file as a JSON value.
pub fn coverage_file_json(v: &CoverageFile) -> (r: Json)
    ensures
        r.deep_view() == coverage_file_document(v.deep_view()),
{
    let mut members = Members::new();
    members.put("path", text(v.path.as_str()));
    members.put("line_coverage_percent", optional_u8(v.line_coverage_percent));
    members.put("uncovered_ranges", texts(&v.uncovered_ranges));
    assert(members.model() =~= coverage_file_document(v.deep_view())->Object_0);
    members.finish()
}

/// The JSON documents of coverage file records.
pub open spec fn coverage_file_documents(items: Seq<CoverageFileModel>) -> Seq<JsonModel> {
    items.map_values(|v: CoverageFileModel| coverage_file_document(v))
}

/// A JSON array of coverage file records.
pub fn coverage_file_list(items: &Vec<CoverageFile>) -> (r: Json)
    ensures
        r.deep_view() == JsonModel::Array(coverage_file_documents(items.deep_view())),
{
    let mut out = Items::new();
    let ghost all = items.deep_view();
    let mut i: usize = 0;
    assert(out.model() =~= coverage_file_documents(all.take(0)));
    while i < items.len()
        invariant
            i <= items@.len(),
            all == items.deep_view(),
            out.model() == coverage_file_documents(all.take(i as int)),
        decreases items@.len() - i,
    {
        out.put(coverage_file_json(&items[i]));
        proof {
            lemma_take_next(all, i as int);
        }
        assert(out.model() =~= coverage_file_documents(all.take(i + 1)));
        i = i + 1;
    }
    proof {
        lemma_take_all(all);
    }
    out.finish()
}

/// A coverage report as a JSON document.
pub open spec fn coverage_report_document(v: CoverageReportModel) -> JsonModel {
    JsonModel::Object(
        seq![
            ("tool"@, JsonModel::Text(v.tool)),
            ("summary"@, JsonModel::Text(v.summary)),
            ("files"@, JsonModel::Array(coverage_file_documents(v.files))),
        ],
    )
}

/// A coverage report as a JSON value.
pub fn coverage_report_json(v: &CoverageReport) -> (r: Json)
    ensures
        r.deep_view() == coverage_report_document(v.deep_view()),
{
    let mut members = Members::new();
    members.put("tool", text(v.tool.as_str()));
    members.put("summary", text(v.summary.as_str()));
    members.put("files", coverage_file_list(&v.files));
    assert(members.model() =~= coverage_report_document(v.deep_view())->Object_0);
    members.finish()
}

/// The JSON documents of coverage report records.
pub open spec fn coverage_report_documents(items: Seq<CoverageReportModel>) -> Seq<JsonModel> {
    items.map_values(|v: CoverageReportModel| coverage_report_document(v))
}

/// A JSON array of coverage report records.
pub fn coverage_report_list(items: &Vec<CoverageReport>) -> (r: Json)
    ensures
        r.deep_view() == JsonModel::Array(coverage_report_documents(items.deep_view())),
{
    let mut out = Items::new();
    let ghost all = items.deep_view();
    let mut i: usize = 0;
    assert(out.model() =~= coverage_report_documents(all.take(0)));
    while i < items.len()
        invariant
            i <= items@.len(),
            all == items.deep_view(),
            out.model() == coverage_report_documents(all.take(i as int)),
        decreases items@.len() - i,
    {
        out.put(coverage_report_json(&items[i]));
        proof {
            lemma_take_next(all, i as int);
        }
        assert(out.model() =~= coverage_report_documents(all.take(i + 1)));
        i = i + 1;
    }
    proof {
        lemma_take_all(all);
    }
    out.finish()
}

/// A mutation attribution as a JSON document.
pub open spec fn mutation_attribution_document(v: MutationAttribution) -> JsonModel {
    JsonModel::Object(
        seq![
            ("generated"@, JsonModel::Number(decimal(v.generated as int))),
            ("runnable"@, JsonModel::Number(decimal(v.runnable as int))),
            ("executed"@, JsonModel::Number(decimal(v.executed as int))),
            ("killed"@, JsonModel::Number(decimal(v.killed as int))),
            ("survived"@, JsonModel::Number(decimal(v.survived as int))),
            ("not_covered"@, JsonModel::Number(decimal(v.not_covered as int))),
            ("timed_out"@, JsonModel::Number(decimal(v.timed_out as int))),
            ("not_viable"@, JsonModel::Number(decimal(v.not_viable as int))),
            ("skipped"@, JsonModel::Number(decimal(v.skipped as int))),
        ],
    )
}

/// A mutation attribution as a JSON value.
pub fn mutation_attribution_json(v: &MutationAttribution) -> (r: Json)
    ensures
        r.deep_view() == mutation_attribution_document(*v),
{
    let mut members = Members::new();
    members.put("generated", number(v.generated as u64));
    members.put("runnable", number(v.runnable as u64));
    members.put("executed", number(v.executed as u64));
    members.put("killed", number(v.killed as u64));
    members.put("survived", number(v.survived as u64));
    members.put("not_covered", number(v.not_covered as u64));
    members.put("timed_out", number(v.timed_out as u64));
    members.put("not_viable", number(v.not_viable as u64));
    members.put("skipped", number(v.skipped as u64));
    assert(members.model() =~= mutation_attribution_document(*v)->Object_0);
    members.finish()
}

/// The counts of each label as members of a JSON object.
pub open spec fn attribution_members(items: Seq<AttributionEntryModel>) -> Seq<
    (Seq<char>, JsonModel),
> {
    items.map_values(
        |e: AttributionEntryModel| (e.label, mutation_attribution_document(e.counts)),
    )
}

/// An attribution as a JSON value.
pub fn attribution_json(items: &Vec<AttributionEntry>) -> (r: Json)
    ensures
        r.deep_view() == JsonModel::Object(attribution_members(items.deep_view())),
{
    let mut out = Members::new();
    let ghost all = items.deep_view();
    let mut i: usize = 0;
    assert(out.model() =~= attribution_members(all.take(0)));
    while i < items.len()
        invariant
            i <= items@.len(),
            all == items.deep_view(),
            out.model() == attribution_members(all.take(i as int)),
        decreases items@.len() - i,
    {
        out.put(items[i].label.as_str(), mutation_attribution_json(&items[i].counts));
        proof {
            lemma_take_next(all, i as int);
        }
        assert(out.model() =~= attribution_members(all.take(i + 1)));
        i = i + 1;
    }
    proof {
        lemma_take_all(all);
    }
    out.finish()
}

/// A mutation record as a JSON document.
pub open spec fn mutation_record_document(v: MutationRecordModel) -> JsonModel {
    JsonModel::Object(
        seq![
            ("id"@, JsonModel::Text(v.id)),
            ("language"@, JsonModel::Text(v.language)),
            ("path"@, JsonModel::Text(v.path)),
            ("symbol"@, JsonModel::Text(v.symbol)),
            ("operator"@, JsonModel::Text(v.operator)),
            ("domain"@, JsonModel::Text(v.domain)),
            ("status"@, JsonModel::Text(v.status.label_text())),
            ("from"@, text_or_null(v.from)),
            ("to"@, text_or_null(v.to)),
            ("line_range"@, optional_line_range_document(v.line_range)),
            ("source_span"@, optional_line_range_document(v.source_span)),
            ("diff"@, text_or_null(v.diff)),
            ("risk_note"@, text_or_null(v.risk_note)),
            ("suggested_test"@, text_or_null(v.suggested_test)),
            ("skip_reason"@, text_or_null(v.skip_reason)),
            ("selected_test_command"@, text_or_null(v.selected_test_command)),
            ("test_selection_hint"@, text_or_null(v.test_selection_hint)),
            ("test_selection_fallback"@, text_or_null(v.test_selection_fallback)),
            ("brittleness_probe"@, JsonModel::Bool(v.brittleness_probe)),
            ("command"@, text_or_null(v.command)),
            ("duration_ms"@, JsonModel::Number(decimal(v.duration_ms as int))),
            ("diff_path"@, text_or_null(v.diff_path)),
            ("outcome_path"@, text_or_null(v.outcome_path)),
            ("command_log_path"@, text_or_null(v.command_log_path)),
            ("stdout_log_path"@, text_or_null(v.stdout_log_path)),
            ("stderr_log_path"@, text_or_null(v.stderr_log_path)),
        ],
    )
}

/// A mutation record as a JSON value.
pub fn mutation_record_json(v: &MutationRecord) -> (r: Json)
    ensures
        r.deep_view() == mutation_record_document(v.deep_view()),
{
    let mut members = Members::new();
    members.put("id", text(v.id.as_str()));
    members.put("language", text(v.language.as_str()));
    members.put("path", text(v.path.as_str()));
    members.put("symbol", text(v.symbol.as_str()));
    members.put("operator", text(v.operator.as_str()));
    members.put("domain", text(v.domain.as_str()));
    members.put("status", text(v.status.label()));
    members.put("from", optional_text(&v.from));
    members.put("to", optional_text(&v.to));
    members.put("line_range", optional_line_range_json(&v.line_range));
    members.put("source_span", optional_line_range_json(&v.source_span));
    members.put("diff", optional_text(&v.diff));
    members.put("risk_note", optional_text(&v.risk_note));
    members.put("suggested_test", optional_text(&v.suggested_test));
    members.put("skip_reason", optional_text(&v.skip_reason));
    members.put("selected_test_command", optional_text(&v.selected_test_command));
    members.put("test_selection_hint", optional_text(&v.test_selection_hint));
    members.put("test_selection_fallback", optional_text(&v.test_selection_fallback));
    members.put("brittleness_probe", Json::Bool(v.brittleness_probe));
    members.put("command", optional_text(&v.command));
    members.put("duration_ms", big_number(v.duration_ms));
    members.put("diff_path", optional_text(&v.diff_path));
    members.put("outcome_path", optional_text(&v.outcome_path));
    members.put("command_log_path", optional_text(&v.command_log_path));
    members.put("stdout_log_path", optional_text(&v.stdout_log_path));
    members.put("stderr_log_path", optional_text(&v.stderr_log_path));
    assert(members.model() =~= mutation_record_document(v.deep_view())->Object_0);
    members.finish()
}

/// The JSON documents of mutation records.
pub open spec fn mutation_record_documents(items: Seq<MutationRecordModel>) -> Seq<JsonModel> {
    items.map_values(|v: MutationRecordModel| mutation_record_document(v))
}

/// A JSON array of mutation records.
pub fn mutation_record_list(items: &Vec<MutationRecord>) -> (r: Json)
    ensures
        r.deep_view() == JsonModel::Array(mutation_record_documents(items.deep_view())),
{
    let mut out = Items::new();
    let ghost all = items.deep_view();
    let mut i: usize = 0;
    assert(out.model() =~= mutation_record_documents(all.take(0)));
    while i < items.len()
        invariant
            i <= items@.len(),
            all == items.deep_view(),
            out.model() == mutation_record_documents(all.take(i as int)),
        decreases items@.len() - i,
    {
        out.put(mutation_record_json(&items[i]));
        proof {
            lemma_take_next(all, i as int);
        }
        assert(out.model() =~= mutation_record_documents(all.take(i + 1)));
        i = i + 1;
    }
    proof {
        lemma_take_all(all);
    }
    out.finish()
}

/// A mutation metrics as a JSON document.
pub open spec fn mutation_metrics_document(v: MutationMetricsModel) -> JsonModel {
    JsonModel::Object(
        seq![
            ("generated"@, JsonModel::Number(decimal(v.generated as int))),
            ("runnable"@, JsonModel::Number(decimal(v.runnable as int))),
            ("executed"@, JsonModel::Number(decimal(v.executed as int))),
            ("killed"@, JsonModel::Number(decimal(v.killed as int))),
            ("survived"@, JsonModel::Number(decimal(v.survived as int))),
            ("not_covered"@, JsonModel::Number(decimal(v.not_covered as int))),
            ("timed_out"@, JsonModel::Number(decimal(v.timed_out as int))),
            ("not_viable"@, JsonModel::Number(decimal(v.not_viable as int))),
            ("skipped"@, JsonModel::Number(decimal(v.skipped as int))),
            ("requested_workers"@, JsonModel::Number(decimal(v.requested_workers as int))),
            ("effective_workers"@, JsonModel::Number(decimal(v.effective_workers as int))),
            ("isolation_failures"@, JsonModel::Number(decimal(v.isolation_failures as int))),
            ("isolation_setup_ms"@, JsonModel::Number(decimal(v.isolation_setup_ms as int))),
            ("isolation_copy_ms"@, JsonModel::Number(decimal(v.isolation_copy_ms as int))),
            ("isolation_excluded_path_count"@, JsonModel::Number(decimal(v.isolation_excluded_path_count as int))),
            ("records"@, JsonModel::Array(mutation_record_documents(v.records))),
            ("by_domain"@, JsonModel::Object(attribution_members(v.by_domain))),
            ("by_operator"@, JsonModel::Object(attribution_members(v.by_operator))),
            ("score_percent"@, number_or_null(match v.score_percent {
                    Some(n) => Some(n as int),
                    None => None,
                })),
            ("efficacy_percent"@, number_or_null(match v.efficacy_percent {
                    Some(n) => Some(n as int),
                    None => None,
                })),
            ("mutant_coverage_percent"@, number_or_null(match v.mutant_coverage_percent {
                    Some(n) => Some(n as int),
                    None => None,
                })),
            ("correctness_executed"@, JsonModel::Number(decimal(v.correctness_executed as int))),
            ("correctness_survived"@, JsonModel::Number(decimal(v.correctness_survived as int))),
            ("brittleness_executed"@, JsonModel::Number(decimal(v.brittleness_executed as int))),
            ("brittleness_killed"@, JsonModel::Number(decimal(v.brittleness_killed as int))),
            ("correctness_score_percent"@, number_or_null(match v.correctness_score_percent {
                    Some(n) => Some(n as int),
                    None => None,
                })),
            ("brittleness_survival_percent"@, number_or_null(match v.brittleness_survival_percent {
                    Some(n) => Some(n as int),
                    None => None,
                })),
            ("baseline_duration_ms"@, number_or_null(match v.baseline_duration_ms {
                    Some(n) => Some(n as int),
                    None => None,
                })),
            ("computed_timeout_seconds"@, number_or_null(match v.computed_timeout_seconds {
                    Some(n) => Some(n as int),
                    None => None,
                })),
            ("timeout_source"@, text_or_null(v.timeout_source)),
        ],
    )
}

/// A mutation metrics as a JSON value.
#[verifier::rlimit(50)]
pub fn mutation_metrics_json(v: &MutationMetrics) -> (r: Json)
    ensures
        r.deep_view() == mutation_metrics_document(v.deep_view()),
{
    let mut members = Members::new();
    members.put("generated", number(v.generated as u64));
    members.put("runnable", number(v.runnable as u64));
    members.put("executed", number(v.executed as u64));
    members.put("killed", number(v.killed as u64));
    members.put("survived", number(v.survived as u64));
    members.put("not_covered", number(v.not_covered as u64));
    members.put("timed_out", number(v.timed_out as u64));
    members.put("not_viable", number(v.not_viable as u64));
    members.put("skipped", number(v.skipped as u64));
    members.put("requested_workers", number(v.requested_workers as u64));
    members.put("effective_workers", number(v.effective_workers as u64));
    members.put("isolation_failures", number(v.isolation_failures as u64));
    members.put("isolation_setup_ms", big_number(v.isolation_setup_ms));
    members.put("isolation_copy_ms", big_number(v.isolation_copy_ms));
    members.put("isolation_excluded_path_count", number(v.isolation_excluded_path_count as u64));
    members.put("records", mutation_record_list(&v.records));
    members.put("by_domain", attribution_json(&v.by_domain));
    members.put("by_operator", attribution_json(&v.by_operator));
    members.put("score_percent", optional_u8(v.score_percent));
    members.put("efficacy_percent", optional_u8(v.efficacy_percent));
    members.put("mutant_coverage_percent", optional_u8(v.mutant_coverage_percent));
    members.put("correctness_executed", number(v.correctness_executed as u64));
    members.put("correctness_survived", number(v.correctness_survived as u64));
    members.put("brittleness_executed", number(v.brittleness_executed as u64));
    members.put("brittleness_killed", number(v.brittleness_killed as u64));
    members.put("correctness_score_percent", optional_u8(v.correctness_score_percent));
    members.put("brittleness_survival_percent", optional_u8(v.brittleness_survival_percent));
    members.put("baseline_duration_ms", optional_u64(v.baseline_duration_ms));
    members.put("computed_timeout_seconds", optional_u64(v.computed_timeout_seconds));
    members.put("timeout_source", optional_text(&v.timeout_source));
    assert(members.model() =~= mutation_metrics_document(v.deep_view())->Object_0);
    members.finish()
}

/// A property metrics as a JSON document.
pub open spec fn property_metrics_document(v: PropertyMetrics) -> JsonModel {
    JsonModel::Object(
        seq![
            ("generated_artifacts"@, JsonModel::Number(decimal(v.generated_artifacts as int))),
            ("no_panic_properties"@, JsonModel::Number(decimal(v.no_panic_properties as int))),
            ("deterministic_properties"@, JsonModel::Number(decimal(v.deterministic_properties as int))),
            ("invariant_properties"@, JsonModel::Number(decimal(v.invariant_properties as int))),
            ("failed_generated_tests"@, JsonModel::Number(decimal(v.failed_generated_tests as int))),
            ("strength_score_percent"@, number_or_null(match v.strength_score_percent {
                    Some(n) => Some(n as int),
                    None => None,
                })),
        ],
    )
}

/// A property metrics as a JSON value.
pub fn property_metrics_json(v: &PropertyMetrics) -> (r: Json)
    ensures
        r.deep_view() == property_metrics_document(*v),
{
    let mut members = Members::new();
    members.put("generated_artifacts", number(v.generated_artifacts as u64));
    members.put("no_panic_properties", number(v.no_panic_properties as u64));
    members.put("deterministic_properties", number(v.deterministic_properties as u64));
    members.put("invariant_properties", number(v.invariant_properties as u64));
    members.put("failed_generated_tests", number(v.failed_generated_tests as u64));
    members.put("strength_score_percent", optional_u8(v.strength_score_percent));
    assert(members.model() =~= property_metrics_document(*v)->Object_0);
    members.finish()
}

/// A fuzz metrics as a JSON document.
pub open spec fn fuzz_metrics_document(v: FuzzMetrics) -> JsonModel {
    JsonModel::Object(
        seq![
            ("generated_harnesses"@, JsonModel::Number(decimal(v.generated_harnesses as int))),
            ("targets_executed"@, JsonModel::Number(decimal(v.targets_executed as int))),
            ("failures"@, JsonModel::Number(decimal(v.failures as int))),
            ("persisted_repros"@, JsonModel::Number(decimal(v.persisted_repros as int))),
        ],
    )
}

/// A fuzz metrics as a JSON value.
pub fn fuzz_metrics_json(v: &FuzzMetrics) -> (r: Json)
    ensures
        r.deep_view() == fuzz_metrics_document(*v),
{
    let mut members = Members::new();
    members.put("generated_harnesses", number(v.generated_harnesses as u64));
    members.put("targets_executed", number(v.targets_executed as u64));
    members.put("failures", number(v.failures as u64));
    members.put("persisted_repros", number(v.persisted_repros as u64));
    assert(members.model() =~= fuzz_metrics_document(*v)->Object_0);
    members.finish()
}

/// A regression metrics as a JSON document.
pub open spec fn regression_metrics_document(v: RegressionMetrics) -> JsonModel {
    JsonModel::Object(
        seq![
            ("assertion_candidates"@, JsonModel::Number(decimal(v.assertion_candidates as int))),
            ("promoted_scaffolds"@, JsonModel::Number(decimal(v.promoted_scaffolds as int))),
            ("corpus_entries"@, JsonModel::Number(decimal(v.corpus_entries as int))),
            ("corpus_replayed"@, JsonModel::Number(decimal(v.corpus_replayed as int))),
            ("corpus_passed"@, JsonModel::Number(decimal(v.corpus_passed as int))),
            ("corpus_failed"@, JsonModel::Number(decimal(v.corpus_failed as int))),
            ("corpus_skipped"@, JsonModel::Number(decimal(v.corpus_skipped as int))),
        ],
    )
}

/// A regression metrics as a JSON value.
pub fn regression_metrics_json(v: &RegressionMetrics) -> (r: Json)
    ensures
        r.deep_view() == regression_metrics_document(*v),
{
    let mut members = Members::new();
    members.put("assertion_candidates", number(v.assertion_candidates as u64));
    members.put("promoted_scaffolds", number(v.promoted_scaffolds as u64));
    members.put("corpus_entries", number(v.corpus_entries as u64));
    members.put("corpus_replayed", number(v.corpus_replayed as u64));
    members.put("corpus_passed", number(v.corpus_passed as u64));
    members.put("corpus_failed", number(v.corpus_failed as u64));
    members.put("corpus_skipped", number(v.corpus_skipped as u64));
    assert(members.model() =~= regression_metrics_document(*v)->Object_0);
    members.finish()
}

/// A replay metrics as a JSON document.
pub open spec fn replay_metrics_document(v: ReplayMetrics) -> JsonModel {
    JsonModel::Object(
        seq![
            ("manifests"@, JsonModel::Number(decimal(v.manifests as int))),
            ("results"@, JsonModel::Number(decimal(v.results as int))),
            ("targets"@, JsonModel::Number(decimal(v.targets as int))),
            ("cases"@, JsonModel::Number(decimal(v.cases as int))),
        ],
    )
}

/// A replay metrics as a JSON value.
pub fn replay_metrics_json(v: &ReplayMetrics) -> (r: Json)
    ensures
        r.deep_view() == replay_metrics_document(*v),
{
    let mut members = Members::new();
    members.put("manifests", number(v.manifests as u64));
    members.put("results", number(v.results as u64));
    members.put("targets", number(v.targets as u64));
    members.put("cases", number(v.cases as u64));
    assert(members.model() =~= replay_metrics_document(*v)->Object_0);
    members.finish()
}

/// A budget metrics as a JSON document.
pub open spec fn budget_metrics_document(v: BudgetMetrics) -> JsonModel {
    JsonModel::Object(
        seq![
            ("budget_plans"@, JsonModel::Number(decimal(v.budget_plans as int))),
            ("skipped_commands"@, JsonModel::Number(decimal(v.skipped_commands as int))),
            ("timed_out_commands"@, JsonModel::Number(decimal(v.timed_out_commands as int))),
        ],
    )
}

/// A budget metrics as a JSON value.
pub fn budget_metrics_json(v: &BudgetMetrics) -> (r: Json)
    ensures
        r.deep_view() == budget_metrics_document(*v),
{
    let mut members = Members::new();
    members.put("budget_plans", number(v.budget_plans as u64));
    members.put("skipped_commands", number(v.skipped_commands as u64));
    members.put("timed_out_commands", number(v.timed_out_commands as u64));
    assert(members.model() =~= budget_metrics_document(*v)->Object_0);
    members.finish()
}

/// An evolution metrics as a JSON document.
pub open spec fn evolution_metrics_document(v: EvolutionMetrics) -> JsonModel {
    JsonModel::Object(
        seq![
            ("suites"@, JsonModel::Number(decimal(v.suites as int))),
            ("candidates"@, JsonModel::Number(decimal(v.candidates as int))),
            ("selected"@, JsonModel::Number(decimal(v.selected as int))),
            ("property_candidates"@, JsonModel::Number(decimal(v.property_candidates as int))),
            ("mutation_candidates"@, JsonModel::Number(decimal(v.mutation_candidates as int))),
            ("fuzz_candidates"@, JsonModel::Number(decimal(v.fuzz_candidates as int))),
            ("regression_candidates"@, JsonModel::Number(decimal(v.regression_candidates as int))),
            ("replay_candidates"@, JsonModel::Number(decimal(v.replay_candidates as int))),
            ("average_fitness_percent"@, number_or_null(match v.average_fitness_percent {
                    Some(n) => Some(n as int),
                    None => None,
                })),
        ],
    )
}

/// An evolution metrics as a JSON value.
pub fn evolution_metrics_json(v: &EvolutionMetrics) -> (r: Json)
    ensures
        r.deep_view() == evolution_metrics_document(*v),
{
    let mut members = Members::new();
    members.put("suites", number(v.suites as u64));
    members.put("candidates", number(v.candidates as u64));
    members.put("selected", number(v.selected as u64));
    members.put("property_candidates", number(v.property_candidates as u64));
    members.put("mutation_candidates", number(v.mutation_candidates as u64));
    members.put("fuzz_candidates", number(v.fuzz_candidates as u64));
    members.put("regression_candidates", number(v.regression_candidates as u64));
    members.put("replay_candidates", number(v.replay_candidates as u64));
    members.put("average_fitness_percent", optional_u8(v.average_fitness_percent));
    assert(members.model() =~= evolution_metrics_document(*v)->Object_0);
    members.finish()
}

/// A performance metrics as a JSON document.
pub open spec fn performance_metrics_document(v: PerformanceMetrics) -> JsonModel {
    JsonModel::Object(
        seq![
            ("discovery_ms"@, JsonModel::Number(decimal(v.discovery_ms as int))),
            ("generation_ms"@, JsonModel::Number(decimal(v.generation_ms as int))),
            ("test_execution_ms"@, JsonModel::Number(decimal(v.test_execution_ms as int))),
            ("coverage_ms"@, JsonModel::Number(decimal(v.coverage_ms as int))),
            ("replay_ms"@, JsonModel::Number(decimal(v.replay_ms as int))),
            ("artifact_synthesis_ms"@, JsonModel::Number(decimal(v.artifact_synthesis_ms as int))),
            ("total_ms"@, JsonModel::Number(decimal(v.total_ms as int))),
        ],
    )
}

/// A performance metrics as a JSON value.
pub fn performance_metrics_json(v: &PerformanceMetrics) -> (r: Json)
    ensures
        r.deep_view() == performance_metrics_document(*v),
{
    let mut members = Members::new();
    members.put("discovery_ms", big_number(v.discovery_ms));
    members.put("generation_ms", big_number(v.generation_ms));
    members.put("test_execution_ms", big_number(v.test_execution_ms));
    members.put("coverage_ms", big_number(v.coverage_ms));
    members.put("replay_ms", big_number(v.replay_ms));
    members.put("artifact_synthesis_ms", big_number(v.artifact_synthesis_ms));
    members.put("total_ms", big_number(v.total_ms));
    assert(members.model() =~= performance_metrics_document(*v)->Object_0);
    members.finish()
}

/// A verification quality as a JSON document.
pub open spec fn verification_quality_document(v: VerificationQualityModel) -> JsonModel {
    JsonModel::Object(
        seq![
            ("mutation"@, mutation_metrics_document(v.mutation)),
            ("property"@, property_metrics_document(v.property)),
            ("fuzz"@, fuzz_metrics_document(v.fuzz)),
            ("regression"@, regression_metrics_document(v.regression)),
            ("replay"@, replay_metrics_document(v.replay)),
            ("budget"@, budget_metrics_document(v.budget)),
            ("evolution"@, evolution_metrics_document(v.evolution)),
            ("performance"@, performance_metrics_document(v.performance)),
        ],
    )
}

/// A verification quality as a JSON value.
pub fn verification_quality_json(v: &VerificationQuality) -> (r: Json)
    ensures
        r.deep_view() == verification_quality_document(v.deep_view()),
{
    let mut members = Members::new();
    members.put("mutation", mutation_metrics_json(&v.mutation));
    members.put("property", property_metrics_json(&v.property));
    members.put("fuzz", fuzz_metrics_json(&v.fuzz));
    members.put("regression", regression_metrics_json(&v.regression));
    members.put("replay", replay_metrics_json(&v.replay));
    members.put("budget", budget_metrics_json(&v.budget));
    members.put("evolution", evolution_metrics_json(&v.evolution));
    members.put("performance", performance_metrics_json(&v.performance));
    assert(members.model() =~= verification_quality_document(v.deep_view())->Object_0);
    members.finish()
}

/// A test run result as a JSON document.
pub open spec fn test_run_result_document(v: TestRunResultModel) -> JsonModel {
    JsonModel::Object(
        seq![
            ("language"@, JsonModel::Text(v.language)),
            ("status"@, JsonModel::Text(v.status.label_text())),
            ("commands"@, JsonModel::Array(command_record_documents(v.commands))),
            ("failures"@, JsonModel::Array(failure_documents(v.failures))),
            ("duration_ms"@, JsonModel::Number(decimal(v.duration_ms as int))),
            ("quality"@, verification_quality_document(v.quality)),
        ],
    )
}

/// A test run result as a JSON value.
pub fn test_run_result_json(v: &TestRunResult) -> (r: Json)
    ensures
        r.deep_view() == test_run_result_document(v.deep_view()),
{
    let mut members = Members::new();
    members.put("language", text(v.language.as_str()));
    members.put("status", text(v.status.label()));
    members.put("commands", command_record_list(&v.commands));
    members.put("failures", failure_list(&v.failures));
    members.put("duration_ms", big_number(v.duration_ms));
    members.put("quality", verification_quality_json(&v.quality));
    assert(members.model() =~= test_run_result_document(v.deep_view())->Object_0);
    members.finish()
}

/// The JSON documents of test run result records.
pub open spec fn test_run_result_documents(items: Seq<TestRunResultModel>) -> Seq<JsonModel> {
    items.map_values(|v: TestRunResultModel| test_run_result_document(v))
}

/// A JSON array of test run result records.
pub fn test_run_result_list(items: &Vec<TestRunResult>) -> (r: Json)
    ensures
        r.deep_view() == JsonModel::Array(test_run_result_documents(items.deep_view())),
{
    let mut out = Items::new();
    let ghost all = items.deep_view();
    let mut i: usize = 0;
    assert(out.model() =~= test_run_result_documents(all.take(0)));
    while i < items.len()
        invariant
            i <= items@.len(),
            all == items.deep_view(),
            out.model() == test_run_result_documents(all.take(i as int)),
        decreases items@.len() - i,
    {
        out.put(test_run_result_json(&items[i]));
        proof {
            lemma_take_next(all, i as int);
        }
        assert(out.model() =~= test_run_result_documents(all.take(i + 1)));
        i = i + 1;
    }
    proof {
        lemma_take_all(all);
    }
    out.finish()
}

/// A verification report as a JSON document.
pub open spec fn verification_report_document(v: VerificationReportModel) -> JsonModel {
    JsonModel::Object(
        seq![
            ("project"@, optional_project_info_document(v.project)),
            ("targets"@, JsonModel::Array(verification_target_documents(v.targets))),
            ("plan"@, optional_verification_plan_document(v.plan)),
            ("artifacts"@, JsonModel::Array(generated_artifact_documents(v.artifacts))),
            ("runs"@, JsonModel::Array(test_run_result_documents(v.runs))),
            ("coverage"@, JsonModel::Array(coverage_report_documents(v.coverage))),
            ("findings"@, JsonModel::Array(failure_documents(v.findings))),
            ("quality"@, verification_quality_document(v.quality)),
            ("suggested_next_steps"@, texts_model(v.suggested_next_steps)),
        ],
    )
}

/// A verification report as a JSON value.
pub fn verification_report_json(v: &VerificationReport) -> (r: Json)
    ensures
        r.deep_view() == verification_report_document(v.deep_view()),
{
    let mut members = Members::new();
    members.put("project", optional_project_info_json(&v.project));
    members.put("targets", verification_target_list(&v.targets));
    members.put("plan", optional_verification_plan_json(&v.plan));
    members.put("artifacts", generated_artifact_list(&v.artifacts));
    members.put("runs", test_run_result_list(&v.runs));
    members.put("coverage", coverage_report_list(&v.coverage));
    members.put("findings", failure_list(&v.findings));
    members.put("quality", verification_quality_json(&v.quality));
    members.put("suggested_next_steps", texts(&v.suggested_next_steps));
    assert(members.model() =~= verification_report_document(v.deep_view())->Object_0);
    members.finish()
}

/// An assertion candidate as a JSON document.
pub open spec fn assertion_candidate_document(v: AssertionCandidateModel) -> JsonModel {
    JsonModel::Object(
        seq![
            ("language"@, JsonModel::Text(v.language)),
            ("target_id"@, JsonModel::Text(v.target_id)),
            ("finding_id"@, text_or_null(v.finding_id)),
            ("source"@, JsonModel::Text(v.source.label_text())),
            ("domain"@, JsonModel::Text(v.domain.label_text())),
            ("semantic_packs"@, texts_model(v.semantic_packs)),
            ("title"@, JsonModel::Text(v.title)),
            ("seed_inputs"@, texts_model(v.seed_inputs)),
            ("expected_behavior"@, JsonModel::Text(v.expected_behavior)),
            ("replay_command"@, text_or_null(v.replay_command)),
        ],
    )
}

/// An assertion candidate as a JSON value.
pub fn assertion_candidate_json(v: &AssertionCandidate) -> (r: Json)
    ensures
        r.deep_view() == assertion_candidate_document(v.deep_view()),
{
    let mut members = Members::new();
    members.put("language", text(v.language.as_str()));
    members.put("target_id", text(v.target_id.as_str()));
    members.put("finding_id", optional_text(&v.finding_id));
    members.put("source", text(v.source.label()));
    members.put("domain", text(v.domain.label()));
    members.put("semantic_packs", texts(&v.semantic_packs));
    members.put("title", text(v.title.as_str()));
    members.put("seed_inputs", texts(&v.seed_inputs));
    members.put("expected_behavior", text(v.expected_behavior.as_str()));
    members.put("replay_command", optional_text(&v.replay_command));
    assert(members.model() =~= assertion_candidate_document(v.deep_view())->Object_0);
    members.finish()
}

/// A corpus entry as a JSON document.
pub open spec fn corpus_entry_document(v: CorpusEntryModel) -> JsonModel {
    JsonModel::Object(
        seq![
            ("language"@, JsonModel::Text(v.language)),
            ("target_id"@, JsonModel::Text(v.target_id)),
            ("finding_id"@, text_or_null(v.finding_id)),
            ("source"@, JsonModel::Text(v.source.label_text())),
            ("input"@, text_or_null(v.input)),
            ("path"@, text_or_null(v.path)),
            ("replay_command"@, JsonModel::Text(v.replay_command)),
        ],
    )
}

/// A corpus entry as a JSON value.
pub fn corpus_entry_json(v: &CorpusEntry) -> (r: Json)
    ensures
        r.deep_view() == corpus_entry_document(v.deep_view()),
{
    let mut members = Members::new();
    members.put("language", text(v.language.as_str()));
    members.put("target_id", text(v.target_id.as_str()));
    members.put("finding_id", optional_text(&v.finding_id));
    members.put("source", text(v.source.label()));
    members.put("input", optional_text(&v.input));
    members.put("path", optional_text(&v.path));
    members.put("replay_command", text(v.replay_command.as_str()));
    assert(members.model() =~= corpus_entry_document(v.deep_view())->Object_0);
    members.finish()
}

/// A command budget as a JSON document.
pub open spec fn command_budget_document(v: CommandBudgetModel) -> JsonModel {
    JsonModel::Object(
        seq![
            ("language"@, JsonModel::Text(v.language)),
            ("target_id"@, JsonModel::Text(v.target_id)),
            ("budget_seconds"@, JsonModel::Number(decimal(v.budget_seconds as int))),
            ("max_concurrency"@, JsonModel::Number(decimal(v.max_concurrency as int))),
            ("resource_limits"@, texts_model(v.resource_limits)),
        ],
    )
}

/// A command budget as a JSON value.
pub fn command_budget_json(v: &CommandBudget) -> (r: Json)
    ensures
        r.deep_view() == command_budget_document(v.deep_view()),
{
    let mut members = Members::new();
    members.put("language", text(v.language.as_str()));
    members.put("target_id", text(v.target_id.as_str()));
    members.put("budget_seconds", number(v.budget_seconds));
    members.put("max_concurrency", number(v.max_concurrency as u64));
    members.put("resource_limits", texts(&v.resource_limits));
    assert(members.model() =~= command_budget_document(v.deep_view())->Object_0);
    members.finish()
}

/// An evolution fitness as a JSON document.
pub open spec fn evolution_fitness_document(v: EvolutionFitnessModel) -> JsonModel {
    JsonModel::Object(
        seq![
            ("score_percent"@, JsonModel::Number(decimal(v.score_percent as int))),
            ("mutation_delta"@, JsonModel::Number(signed_decimal(v.mutation_delta as int))),
            ("finding_delta"@, JsonModel::Number(signed_decimal(v.finding_delta as int))),
            ("replay_delta"@, JsonModel::Number(signed_decimal(v.replay_delta as int))),
            ("confidence_delta"@, JsonModel::Number(signed_decimal(v.confidence_delta as int))),
            ("rationale"@, JsonModel::Text(v.rationale)),
        ],
    )
}

/// An evolution fitness as a JSON value.
pub fn evolution_fitness_json(v: &EvolutionFitness) -> (r: Json)
    ensures
        r.deep_view() == evolution_fitness_document(v.deep_view()),
{
    let mut members = Members::new();
    members.put("score_percent", number(v.score_percent as u64));
    members.put("mutation_delta", signed(v.mutation_delta as i64));
    members.put("finding_delta", signed(v.finding_delta as i64));
    members.put("replay_delta", signed(v.replay_delta as i64));
    members.put("confidence_delta", signed(v.confidence_delta as i64));
    members.put("rationale", text(v.rationale.as_str()));
    assert(members.model() =~= evolution_fitness_document(v.deep_view())->Object_0);
    members.finish()
}

/// An evolution candidate record as a JSON document.
pub open spec fn evolution_candidate_record_document(
    v: EvolutionCandidateRecordModel,
) -> JsonModel {
    JsonModel::Object(
        seq![
            ("id"@, JsonModel::Text(v.id)),
            ("language"@, JsonModel::Text(v.language)),
            ("target_id"@, JsonModel::Text(v.target_id)),
            ("kind"@, JsonModel::Text(v.kind.label_text())),
            ("strategy"@, JsonModel::Text(v.strategy.label_text())),
            ("status"@, JsonModel::Text(v.status.label_text())),
            ("source_artifact"@, text_or_null(v.source_artifact)),
            ("source_finding_id"@, text_or_null(v.source_finding_id)),
            ("domain"@, text_or_null(v.domain)),
            ("semantic_packs"@, texts_model(v.semantic_packs)),
            ("fitness"@, evolution_fitness_document(v.fitness)),
            ("proposed_action"@, JsonModel::Text(v.proposed_action)),
            ("keep_if"@, JsonModel::Text(v.keep_if)),
            ("proof_commands"@, texts_model(v.proof_commands)),
            ("done_when"@, texts_model(v.done_when)),
        ],
    )
}

/// An evolution candidate record as a JSON value.
pub fn evolution_candidate_record_json(v: &EvolutionCandidateRecord) -> (r: Json)
    ensures
        r.deep_view() == evolution_candidate_record_document(v.deep_view()),
{
    let mut members = Members::new();
    members.put("id", text(v.id.as_str()));
    members.put("language", text(v.language.as_str()));
    members.put("target_id", text(v.target_id.as_str()));
    members.put("kind", text(v.kind.label()));
    members.put("strategy", text(v.strategy.label()));
    members.put("status", text(v.status.label()));
    members.put("source_artifact", optional_text(&v.source_artifact));
    members.put("source_finding_id", optional_text(&v.source_finding_id));
    members.put("domain", optional_text(&v.domain));
    members.put("semantic_packs", texts(&v.semantic_packs));
    members.put("fitness", evolution_fitness_json(&v.fitness));
    members.put("proposed_action", text(v.proposed_action.as_str()));
    members.put("keep_if", text(v.keep_if.as_str()));
    members.put("proof_commands", texts(&v.proof_commands));
    members.put("done_when", texts(&v.done_when));
    assert(members.model() =~= evolution_candidate_record_document(v.deep_view())->Object_0);
    members.finish()
}

/// The JSON documents of evolution candidate records.
pub open spec fn evolution_candidate_record_documents(
    items: Seq<EvolutionCandidateRecordModel>,
) -> Seq<JsonModel> {
    items.map_values(|v: EvolutionCandidateRecordModel| evolution_candidate_record_document(v))
}

/// A JSON array of evolution candidate records.
pub fn evolution_candidate_record_list(items: &Vec<EvolutionCandidateRecord>) -> (r: Json)
    ensures
        r.deep_view() == JsonModel::Array(evolution_candidate_record_documents(items.deep_view())),
{
    let mut out = Items::new();
    let ghost all = items.deep_view();
    let mut i: usize = 0;
    assert(out.model() =~= evolution_candidate_record_documents(all.take(0)));
    while i < items.len()
        invariant
            i <= items@.len(),
            all == items.deep_view(),
            out.model() == evolution_candidate_record_documents(all.take(i as int)),
        decreases items@.len() - i,
    {
        out.put(evolution_candidate_record_json(&items[i]));
        proof {
            lemma_take_next(all, i as int);
        }
        assert(out.model() =~= evolution_candidate_record_documents(all.take(i + 1)));
        i = i + 1;
    }
    proof {
        lemma_take_all(all);
    }
    out.finish()
}

/// An evolution suite as a JSON document.
pub open spec fn evolution_suite_document(v: EvolutionSuiteModel) -> JsonModel {
    JsonModel::Object(
        seq![
            ("version"@, JsonModel::Number(decimal(v.version as int))),
            ("language"@, JsonModel::Text(v.language)),
            ("generation"@, JsonModel::Number(decimal(v.generation as int))),
            ("selection_budget"@, JsonModel::Number(decimal(v.selection_budget as int))),
            ("fitness_signals"@, texts_model(v.fitness_signals)),
            ("candidates"@, JsonModel::Array(evolution_candidate_record_documents(v.candidates))),
        ],
    )
}

/// An evolution suite as a JSON value.
pub fn evolution_suite_json(v: &EvolutionSuite) -> (r: Json)
    ensures
        r.deep_view() == evolution_suite_document(v.deep_view()),
{
    let mut members = Members::new();
    members.put("version", number(v.version as u64));
    members.put("language", text(v.language.as_str()));
    members.put("generation", number(v.generation as u64));
    members.put("selection_budget", number(v.selection_budget as u64));
    members.put("fitness_signals", texts(&v.fitness_signals));
    members.put("candidates", evolution_candidate_record_list(&v.candidates));
    assert(members.model() =~= evolution_suite_document(v.deep_view())->Object_0);
    members.finish()
}

/// An evolution quality delta as a JSON document.
pub open spec fn evolution_quality_delta_document(v: EvolutionQualityDelta) -> JsonModel {
    JsonModel::Object(
        seq![
            ("mutation_score_delta"@, number_or_null(match v.mutation_score_delta {
                    Some(n) => Some(n as int),
                    None => None,
                })),
            ("killed_mutants_delta"@, JsonModel::Number(signed_decimal(v.killed_mutants_delta as int))),
            ("surviving_mutants_delta"@, JsonModel::Number(signed_decimal(v.surviving_mutants_delta as int))),
            ("not_covered_mutants_delta"@, JsonModel::Number(signed_decimal(v.not_covered_mutants_delta as int))),
            ("findings_delta"@, JsonModel::Number(signed_decimal(v.findings_delta as int))),
            ("replay_cases_delta"@, JsonModel::Number(signed_decimal(v.replay_cases_delta as int))),
            ("corpus_failed_delta"@, JsonModel::Number(signed_decimal(v.corpus_failed_delta as int))),
            ("budget_timed_out_delta"@, JsonModel::Number(signed_decimal(v.budget_timed_out_delta as int))),
            ("budget_skipped_delta"@, JsonModel::Number(signed_decimal(v.budget_skipped_delta as int))),
            ("confidence_delta"@, JsonModel::Number(signed_decimal(v.confidence_delta as int))),
        ],
    )
}

/// An evolution quality delta as a JSON value.
pub fn evolution_quality_delta_json(v: &EvolutionQualityDelta) -> (r: Json)
    ensures
        r.deep_view() == evolution_quality_delta_document(*v),
{
    let mut members = Members::new();
    members.put("mutation_score_delta", optional_i16(v.mutation_score_delta));
    members.put("killed_mutants_delta", signed(v.killed_mutants_delta));
    members.put("surviving_mutants_delta", signed(v.surviving_mutants_delta));
    members.put("not_covered_mutants_delta", signed(v.not_covered_mutants_delta));
    members.put("findings_delta", signed(v.findings_delta));
    members.put("replay_cases_delta", signed(v.replay_cases_delta));
    members.put("corpus_failed_delta", signed(v.corpus_failed_delta));
    members.put("budget_timed_out_delta", signed(v.budget_timed_out_delta));
    members.put("budget_skipped_delta", signed(v.budget_skipped_delta));
    members.put("confidence_delta", signed(v.confidence_delta as i64));
    assert(members.model() =~= evolution_quality_delta_document(*v)->Object_0);
    members.finish()
}

/// An evolution quality delta as a JSON document, or null.
pub open spec fn optional_evolution_quality_delta_document(
    v: Option<EvolutionQualityDelta>,
) -> JsonModel {
    match v {
        Some(given) => evolution_quality_delta_document(given),
        None => JsonModel::Null,
    }
}

/// An evolution quality delta as a JSON value, or null.
pub fn optional_evolution_quality_delta_json(v: &Option<EvolutionQualityDelta>) -> (r: Json)
    ensures
        r.deep_view() == optional_evolution_quality_delta_document(*v),
{
    match v {
        Some(given) => evolution_quality_delta_json(given),
        None => Json::Null,
    }
}

/// An evolution generation candidate as a JSON document.
pub open spec fn evolution_generation_candidate_document(
    v: EvolutionGenerationCandidateModel,
) -> JsonModel {
    JsonModel::Object(
        seq![
            ("id"@, JsonModel::Text(v.id)),
            ("target_id"@, JsonModel::Text(v.target_id)),
            ("previous_status"@, JsonModel::Text(v.previous_status.label_text())),
            ("status"@, JsonModel::Text(v.status.label_text())),
            ("outcome"@, JsonModel::Text(v.outcome.label_text())),
            ("applied"@, JsonModel::Bool(v.applied)),
            ("written_paths"@, texts_model(v.written_paths)),
            ("skipped_reason"@, text_or_null(v.skipped_reason)),
        ],
    )
}

/// An evolution generation candidate as a JSON value.
pub fn evolution_generation_candidate_json(v: &EvolutionGenerationCandidate) -> (r: Json)
    ensures
        r.deep_view() == evolution_generation_candidate_document(v.deep_view()),
{
    let mut members = Members::new();
    members.put("id", text(v.id.as_str()));
    members.put("target_id", text(v.target_id.as_str()));
    members.put("previous_status", text(v.previous_status.label()));
    members.put("status", text(v.status.label()));
    members.put("outcome", text(v.outcome.label()));
    members.put("applied", Json::Bool(v.applied));
    members.put("written_paths", texts(&v.written_paths));
    members.put("skipped_reason", optional_text(&v.skipped_reason));
    assert(members.model() =~= evolution_generation_candidate_document(v.deep_view())->Object_0);
    members.finish()
}

/// The JSON documents of evolution generation candidate records.
pub open spec fn evolution_generation_candidate_documents(
    items: Seq<EvolutionGenerationCandidateModel>,
) -> Seq<JsonModel> {
    items.map_values(|v: EvolutionGenerationCandidateModel| evolution_generation_candidate_document(v))
}

/// A JSON array of evolution generation candidate records.
pub fn evolution_generation_candidate_list(items: &Vec<EvolutionGenerationCandidate>) -> (r: Json)
    ensures
        r.deep_view() == JsonModel::Array(evolution_generation_candidate_documents(items.deep_view())),
{
    let mut out = Items::new();
    let ghost all = items.deep_view();
    let mut i: usize = 0;
    assert(out.model() =~= evolution_generation_candidate_documents(all.take(0)));
    while i < items.len()
        invariant
            i <= items@.len(),
            all == items.deep_view(),
            out.model() == evolution_generation_candidate_documents(all.take(i as int)),
        decreases items@.len() - i,
    {
        out.put(evolution_generation_candidate_json(&items[i]));
        proof {
            lemma_take_next(all, i as int);
        }
        assert(out.model() =~= evolution_generation_candidate_documents(all.take(i + 1)));
        i = i + 1;
    }
    proof {
        lemma_take_all(all);
    }
    out.finish()
}

/// An evolution generation as a JSON document.
pub open spec fn evolution_generation_document(v: EvolutionGenerationModel) -> JsonModel {
    JsonModel::Object(
        seq![
            ("version"@, JsonModel::Number(decimal(v.version as int))),
            ("language"@, JsonModel::Text(v.language)),
            ("generation"@, JsonModel::Number(decimal(v.generation as int))),
            ("parent_suite"@, JsonModel::Text(v.parent_suite)),
            ("created_unix_seconds"@, JsonModel::Number(decimal(v.created_unix_seconds as int))),
            ("outcome"@, JsonModel::Text(v.outcome.label_text())),
            ("candidates"@, JsonModel::Array(evolution_generation_candidate_documents(v.candidates))),
            ("delta"@, optional_evolution_quality_delta_document(v.delta)),
            ("written_paths"@, texts_model(v.written_paths)),
        ],
    )
}

/// An evolution generation as a JSON value.
pub fn evolution_generation_json(v: &EvolutionGeneration) -> (r: Json)
    ensures
        r.deep_view() == evolution_generation_document(v.deep_view()),
{
    let mut members = Members::new();
    members.put("version", number(v.version as u64));
    members.put("language", text(v.language.as_str()));
    members.put("generation", number(v.generation as u64));
    members.put("parent_suite", text(v.parent_suite.as_str()));
    members.put("created_unix_seconds", number(v.created_unix_seconds));
    members.put("outcome", text(v.outcome.label()));
    members.put("candidates", evolution_generation_candidate_list(&v.candidates));
    members.put("delta", optional_evolution_quality_delta_json(&v.delta));
    members.put("written_paths", texts(&v.written_paths));
    assert(members.model() =~= evolution_generation_document(v.deep_view())->Object_0);
    members.finish()
}

/// A quality delta as a JSON document.
pub open spec fn quality_delta_document(v: QualityDelta) -> JsonModel {
    JsonModel::Object(
        seq![
            ("mutation_score_delta"@, number_or_null(match v.mutation_score_delta {
                    Some(n) => Some(n as int),
                    None => None,
                })),
            ("confidence_delta"@, JsonModel::Number(signed_decimal(v.confidence_delta as int))),
            ("surviving_mutants_delta"@, JsonModel::Number(signed_decimal(v.surviving_mutants_delta as int))),
            ("corpus_entries_delta"@, JsonModel::Number(signed_decimal(v.corpus_entries_delta as int))),
        ],
    )
}

/// A quality delta as a JSON value.
pub fn quality_delta_json(v: &QualityDelta) -> (r: Json)
    ensures
        r.deep_view() == quality_delta_document(*v),
{
    let mut members = Members::new();
    members.put("mutation_score_delta", optional_i16(v.mutation_score_delta));
    members.put("confidence_delta", signed(v.confidence_delta as i64));
    members.put("surviving_mutants_delta", signed(v.surviving_mutants_delta));
    members.put("corpus_entries_delta", signed(v.corpus_entries_delta));
    assert(members.model() =~= quality_delta_document(*v)->Object_0);
    members.finish()
}

/// A quality delta as a JSON document, or null.
pub open spec fn optional_quality_delta_document(v: Option<QualityDelta>) -> JsonModel {
    match v {
        Some(given) => quality_delta_document(given),
        None => JsonModel::Null,
    }
}

/// A quality delta as a JSON value, or null.
pub fn optional_quality_delta_json(v: &Option<QualityDelta>) -> (r: Json)
    ensures
        r.deep_view() == optional_quality_delta_document(*v),
{
    match v {
        Some(given) => quality_delta_json(given),
        None => Json::Null,
    }
}

/// A quality baseline as a JSON document.
pub open spec fn quality_baseline_document(v: QualityBaselineModel) -> JsonModel {
    JsonModel::Object(
        seq![
            ("version"@, JsonModel::Number(decimal(v.version as int))),
            ("quality"@, verification_quality_document(v.quality)),
            ("confidence"@, JsonModel::Number(decimal(v.confidence as int))),
        ],
    )
}

/// A quality baseline as a JSON value.
pub fn quality_baseline_json(v: &QualityBaseline) -> (r: Json)
    ensures
        r.deep_view() == quality_baseline_document(v.deep_view()),
{
    let mut members = Members::new();
    members.put("version", number(v.version as u64));
    members.put("quality", verification_quality_json(&v.quality));
    members.put("confidence", number(v.confidence as u64));
    assert(members.model() =~= quality_baseline_document(v.deep_view())->Object_0);
    members.finish()
}

/// A confidence score as a JSON document.
pub open spec fn confidence_score_document(v: ConfidenceScoreModel) -> JsonModel {
    JsonModel::Object(
        seq![
            ("score"@, JsonModel::Number(decimal(v.score as int))),
            ("grade"@, JsonModel::Text(v.grade.label_text())),
            ("summary"@, JsonModel::Text(v.summary)),
            ("positive_signals"@, texts_model(v.positive_signals)),
            ("risks"@, texts_model(v.risks)),
            ("recommended_next_steps"@, texts_model(v.recommended_next_steps)),
            ("baseline_delta"@, optional_quality_delta_document(v.baseline_delta)),
        ],
    )
}

/// A confidence score as a JSON value.
pub fn confidence_score_json(v: &ConfidenceScore) -> (r: Json)
    ensures
        r.deep_view() == confidence_score_document(v.deep_view()),
{
    let mut members = Members::new();
    members.put("score", number(v.score as u64));
    members.put("grade", text(v.grade.label()));
    members.put("summary", text(v.summary.as_str()));
    members.put("positive_signals", texts(&v.positive_signals));
    members.put("risks", texts(&v.risks));
    members.put("recommended_next_steps", texts(&v.recommended_next_steps));
    members.put("baseline_delta", optional_quality_delta_json(&v.baseline_delta));
    assert(members.model() =~= confidence_score_document(v.deep_view())->Object_0);
    members.finish()
}

/// The JSON documents of verification strategy records.
pub open spec fn verification_strategy_documents(
    items: Seq<VerificationStrategy>,
) -> Seq<JsonModel> {
    items.map_values(|v: VerificationStrategy| JsonModel::Text(v.label_text()))
}

/// A JSON array of verification strategy records.
pub fn verification_strategy_list(items: &Vec<VerificationStrategy>) -> (r: Json)
    ensures
        r.deep_view() == JsonModel::Array(verification_strategy_documents(items@)),
{
    let mut out = Items::new();
    let ghost all = items@;
    let mut i: usize = 0;
    assert(out.model() =~= verification_strategy_documents(all.take(0)));
    while i < items.len()
        invariant
            i <= items@.len(),
            all == items@,
            out.model() == verification_strategy_documents(all.take(i as int)),
        decreases items@.len() - i,
    {
        out.put(text(items[i].label()));
        proof {
            lemma_take_next(all, i as int);
        }
        assert(out.model() =~= verification_strategy_documents(all.take(i + 1)));
        i = i + 1;
    }
    proof {
        lemma_take_all(all);
    }
    out.finish()
}

// ---------------------------------------------------------------------------
// Reading
// ---------------------------------------------------------------------------
/// The artifact kind with this label.
pub open spec fn artifact_kind_labelled(label: Seq<char>) -> Option<ArtifactKind> {
    if label == "unit_test"@ {
        Some(ArtifactKind::UnitTest)
    } else if label == "property_test"@ {
        Some(ArtifactKind::PropertyTest)
    } else if label == "fuzz_harness"@ {
        Some(ArtifactKind::FuzzHarness)
    } else if label == "harness_index"@ {
        Some(ArtifactKind::HarnessIndex)
    } else if label == "mutation_check"@ {
        Some(ArtifactKind::MutationCheck)
    } else if label == "coverage_feedback"@ {
        Some(ArtifactKind::CoverageFeedback)
    } else if label == "differential_baseline"@ {
        Some(ArtifactKind::DifferentialBaseline)
    } else if label == "repro_case"@ {
        Some(ArtifactKind::ReproCase)
    } else if label == "package_awareness"@ {
        Some(ArtifactKind::PackageAwareness)
    } else if label == "package_graph"@ {
        Some(ArtifactKind::PackageGraph)
    } else if label == "symbol_graph"@ {
        Some(ArtifactKind::SymbolGraph)
    } else if label == "change_digest"@ {
        Some(ArtifactKind::ChangeDigest)
    } else if label == "ai_feedback"@ {
        Some(ArtifactKind::AiFeedback)
    } else if label == "candidate_patch"@ {
        Some(ArtifactKind::CandidatePatch)
    } else if label == "finding_baseline"@ {
        Some(ArtifactKind::FindingBaseline)
    } else if label == "regression_test"@ {
        Some(ArtifactKind::RegressionTest)
    } else if label == "differential_replay"@ {
        Some(ArtifactKind::DifferentialReplay)
    } else if label == "target_cache"@ {
        Some(ArtifactKind::TargetCache)
    } else if label == "evolution_candidate"@ {
        Some(ArtifactKind::EvolutionCandidate)
    } else if label == "evolution_plan"@ {
        Some(ArtifactKind::EvolutionPlan)
    } else if label == "evolution_suite"@ {
        Some(ArtifactKind::EvolutionSuite)
    } else if label == "assertion_candidate"@ {
        Some(ArtifactKind::AssertionCandidate)
    } else if label == "corpus_entry"@ {
        Some(ArtifactKind::CorpusEntry)
    } else if label == "corpus_replay"@ {
        Some(ArtifactKind::CorpusReplay)
    } else if label == "replay_result"@ {
        Some(ArtifactKind::ReplayResult)
    } else if label == "budget_plan"@ {
        Some(ArtifactKind::BudgetPlan)
    } else if label == "mutation_trend"@ {
        Some(ArtifactKind::MutationTrend)
    } else if label == "mutation_campaign"@ {
        Some(ArtifactKind::MutationCampaign)
    } else {
        None
    }
}

/// Reads an artifact kind; nothing where the value holds none.
pub fn read_artifact_kind(label: &str) -> (r: Option<ArtifactKind>)
    ensures
        r == artifact_kind_labelled(label@),
{
    if same(label, "unit_test") {
        Some(ArtifactKind::UnitTest)
    } else if same(label, "property_test") {
        Some(ArtifactKind::PropertyTest)
    } else if same(label, "fuzz_harness") {
        Some(ArtifactKind::FuzzHarness)
    } else if same(label, "harness_index") {
        Some(ArtifactKind::HarnessIndex)
    } else if same(label, "mutation_check") {
        Some(ArtifactKind::MutationCheck)
    } else if same(label, "coverage_feedback") {
        Some(ArtifactKind::CoverageFeedback)
    } else if same(label, "differential_baseline") {
        Some(ArtifactKind::DifferentialBaseline)
    } else if same(label, "repro_case") {
        Some(ArtifactKind::ReproCase)
    } else if same(label, "package_awareness") {
        Some(ArtifactKind::PackageAwareness)
    } else if same(label, "package_graph") {
        Some(ArtifactKind::PackageGraph)
    } else if same(label, "symbol_graph") {
        Some(ArtifactKind::SymbolGraph)
    } else if same(label, "change_digest") {
        Some(ArtifactKind::ChangeDigest)
    } else if same(label, "ai_feedback") {
        Some(ArtifactKind::AiFeedback)
    } else if same(label, "candidate_patch") {
        Some(ArtifactKind::CandidatePatch)
    } else if same(label, "finding_baseline") {
        Some(ArtifactKind::FindingBaseline)
    } else if same(label, "regression_test") {
        Some(ArtifactKind::RegressionTest)
    } else if same(label, "differential_replay") {
        Some(ArtifactKind::DifferentialReplay)
    } else if same(label, "target_cache") {
        Some(ArtifactKind::TargetCache)
    } else if same(label, "evolution_candidate") {
        Some(ArtifactKind::EvolutionCandidate)
    } else if same(label, "evolution_plan") {
        Some(ArtifactKind::EvolutionPlan)
    } else if same(label, "evolution_suite") {
        Some(ArtifactKind::EvolutionSuite)
    } else if same(label, "assertion_candidate") {
        Some(ArtifactKind::AssertionCandidate)
    } else if same(label, "corpus_entry") {
        Some(ArtifactKind::CorpusEntry)
    } else if same(label, "corpus_replay") {
        Some(ArtifactKind::CorpusReplay)
    } else if same(label, "replay_result") {
        Some(ArtifactKind::ReplayResult)
    } else if same(label, "budget_plan") {
        Some(ArtifactKind::BudgetPlan)
    } else if same(label, "mutation_trend") {
        Some(ArtifactKind::MutationTrend)
    } else if same(label, "mutation_campaign") {
        Some(ArtifactKind::MutationCampaign)
    } else {
        None
    }
}

/// The artifact kind of a member; nothing where the member holds none.
pub open spec fn artifact_kind_at(value: JsonModel, name: Seq<char>) -> Option<ArtifactKind> {
    match variant_at(value, name) {
        Some(label) => artifact_kind_labelled(label),
        None => None,
    }
}

/// Reads the artifact kind of a member; nothing where the member holds none.
pub fn read_artifact_kind_at(value: &Json, name: &str) -> (r: Option<ArtifactKind>)
    ensures
        r == artifact_kind_at(value.deep_view(), name@),
{
    match read_variant(value, name) {
        Some(label) => read_artifact_kind(label.as_str()),
        None => None,
    }
}

/// The artifact status with this label.
pub open spec fn artifact_status_labelled(label: Seq<char>) -> Option<ArtifactStatus> {
    if label == "planned"@ {
        Some(ArtifactStatus::Planned)
    } else if label == "written"@ {
        Some(ArtifactStatus::Written)
    } else if label == "skipped"@ {
        Some(ArtifactStatus::Skipped)
    } else {
        None
    }
}

/// Reads an artifact status; nothing where the value holds none.
pub fn read_artifact_status(label: &str) -> (r: Option<ArtifactStatus>)
    ensures
        r == artifact_status_labelled(label@),
{
    if same(label, "planned") {
        Some(ArtifactStatus::Planned)
    } else if same(label, "written") {
        Some(ArtifactStatus::Written)
    } else if same(label, "skipped") {
        Some(ArtifactStatus::Skipped)
    } else {
        None
    }
}

/// The artifact status of a member; nothing where the member holds none.
pub open spec fn artifact_status_at(value: JsonModel, name: Seq<char>) -> Option<ArtifactStatus> {
    match variant_at(value, name) {
        Some(label) => artifact_status_labelled(label),
        None => None,
    }
}

/// Reads the artifact status of a member; nothing where the member holds none.
pub fn read_artifact_status_at(value: &Json, name: &str) -> (r: Option<ArtifactStatus>)
    ensures
        r == artifact_status_at(value.deep_view(), name@),
{
    match read_variant(value, name) {
        Some(label) => read_artifact_status(label.as_str()),
        None => None,
    }
}

/// The assertion domain with this label.
pub open spec fn assertion_domain_labelled(label: Seq<char>) -> Option<AssertionDomain> {
    if label == "auth_permission"@ {
        Some(AssertionDomain::AuthPermission)
    } else if label == "money"@ {
        Some(AssertionDomain::Money)
    } else if label == "parsing"@ {
        Some(AssertionDomain::Parsing)
    } else if label == "serialization"@ {
        Some(AssertionDomain::Serialization)
    } else if label == "error_handling"@ {
        Some(AssertionDomain::ErrorHandling)
    } else if label == "boundary"@ {
        Some(AssertionDomain::Boundary)
    } else if label == "general"@ {
        Some(AssertionDomain::General)
    } else {
        None
    }
}

/// Reads an assertion domain; nothing where the value holds none.
pub fn read_assertion_domain(label: &str) -> (r: Option<AssertionDomain>)
    ensures
        r == assertion_domain_labelled(label@),
{
    if same(label, "auth_permission") {
        Some(AssertionDomain::AuthPermission)
    } else if same(label, "money") {
        Some(AssertionDomain::Money)
    } else if same(label, "parsing") {
        Some(AssertionDomain::Parsing)
    } else if same(label, "serialization") {
        Some(AssertionDomain::Serialization)
    } else if same(label, "error_handling") {
        Some(AssertionDomain::ErrorHandling)
    } else if same(label, "boundary") {
        Some(AssertionDomain::Boundary)
    } else if same(label, "general") {
        Some(AssertionDomain::General)
    } else {
        None
    }
}

/// The assertion domain of a member; nothing where the member holds none.
pub open spec fn assertion_domain_at(value: JsonModel, name: Seq<char>) -> Option<AssertionDomain> {
    match variant_at(value, name) {
        Some(label) => assertion_domain_labelled(label),
        None => None,
    }
}

/// Reads the assertion domain of a member; nothing where the member holds none.
pub fn read_assertion_domain_at(value: &Json, name: &str) -> (r: Option<AssertionDomain>)
    ensures
        r == assertion_domain_at(value.deep_view(), name@),
{
    match read_variant(value, name) {
        Some(label) => read_assertion_domain(label.as_str()),
        None => None,
    }
}

/// The assertion source with this label.
pub open spec fn assertion_source_labelled(label: Seq<char>) -> Option<AssertionSource> {
    if label == "mutation_survivor"@ {
        Some(AssertionSource::MutationSurvivor)
    } else if label == "fuzz_repro"@ {
        Some(AssertionSource::FuzzRepro)
    } else if label == "generated_test_failure"@ {
        Some(AssertionSource::GeneratedTestFailure)
    } else if label == "differential_replay"@ {
        Some(AssertionSource::DifferentialReplay)
    } else if label == "coverage_gap"@ {
        Some(AssertionSource::CoverageGap)
    } else {
        None
    }
}

/// Reads an assertion source; nothing where the value holds none.
pub fn read_assertion_source(label: &str) -> (r: Option<AssertionSource>)
    ensures
        r == assertion_source_labelled(label@),
{
    if same(label, "mutation_survivor") {
        Some(AssertionSource::MutationSurvivor)
    } else if same(label, "fuzz_repro") {
        Some(AssertionSource::FuzzRepro)
    } else if same(label, "generated_test_failure") {
        Some(AssertionSource::GeneratedTestFailure)
    } else if same(label, "differential_replay") {
        Some(AssertionSource::DifferentialReplay)
    } else if same(label, "coverage_gap") {
        Some(AssertionSource::CoverageGap)
    } else {
        None
    }
}

/// The assertion source of a member; nothing where the member holds none.
pub open spec fn assertion_source_at(value: JsonModel, name: Seq<char>) -> Option<AssertionSource> {
    match variant_at(value, name) {
        Some(label) => assertion_source_labelled(label),
        None => None,
    }
}

/// Reads the assertion source of a member; nothing where the member holds none.
pub fn read_assertion_source_at(value: &Json, name: &str) -> (r: Option<AssertionSource>)
    ensures
        r == assertion_source_at(value.deep_view(), name@),
{
    match read_variant(value, name) {
        Some(label) => read_assertion_source(label.as_str()),
        None => None,
    }
}

/// The evolution candidate kind with this label.
pub open spec fn evolution_candidate_kind_labelled(
    label: Seq<char>,
) -> Option<EvolutionCandidateKind> {
    if label == "property"@ {
        Some(EvolutionCandidateKind::Property)
    } else if label == "mutation"@ {
        Some(EvolutionCandidateKind::Mutation)
    } else if label == "fuzz"@ {
        Some(EvolutionCandidateKind::Fuzz)
    } else if label == "regression"@ {
        Some(EvolutionCandidateKind::Regression)
    } else if label == "replay"@ {
        Some(EvolutionCandidateKind::Replay)
    } else if label == "budget"@ {
        Some(EvolutionCandidateKind::Budget)
    } else {
        None
    }
}

/// Reads an evolution candidate kind; nothing where the value holds none.
pub fn read_evolution_candidate_kind(label: &str) -> (r: Option<EvolutionCandidateKind>)
    ensures
        r == evolution_candidate_kind_labelled(label@),
{
    if same(label, "property") {
        Some(EvolutionCandidateKind::Property)
    } else if same(label, "mutation") {
        Some(EvolutionCandidateKind::Mutation)
    } else if same(label, "fuzz") {
        Some(EvolutionCandidateKind::Fuzz)
    } else if same(label, "regression") {
        Some(EvolutionCandidateKind::Regression)
    } else if same(label, "replay") {
        Some(EvolutionCandidateKind::Replay)
    } else if same(label, "budget") {
        Some(EvolutionCandidateKind::Budget)
    } else {
        None
    }
}

/// The evolution candidate kind of a member; nothing where the member holds none.
pub open spec fn evolution_candidate_kind_at(
    value: JsonModel,
    name: Seq<char>,
) -> Option<EvolutionCandidateKind> {
    match variant_at(value, name) {
        Some(label) => evolution_candidate_kind_labelled(label),
        None => None,
    }
}

/// Reads the evolution candidate kind of a member; nothing where the member holds none.
pub fn read_evolution_candidate_kind_at(
    value: &Json,
    name: &str,
) -> (r: Option<EvolutionCandidateKind>)
    ensures
        r == evolution_candidate_kind_at(value.deep_view(), name@),
{
    match read_variant(value, name) {
        Some(label) => read_evolution_candidate_kind(label.as_str()),
        None => None,
    }
}

/// The evolution candidate status with this label.
pub open spec fn evolution_candidate_status_labelled(
    label: Seq<char>,
) -> Option<EvolutionCandidateStatus> {
    if label == "proposed"@ {
        Some(EvolutionCandidateStatus::Proposed)
    } else if label == "selected"@ {
        Some(EvolutionCandidateStatus::Selected)
    } else if label == "applied"@ {
        Some(EvolutionCandidateStatus::Applied)
    } else if label == "kept"@ {
        Some(EvolutionCandidateStatus::Kept)
    } else if label == "rejected"@ {
        Some(EvolutionCandidateStatus::Rejected)
    } else {
        None
    }
}

/// Reads an evolution candidate status; nothing where the value holds none.
pub fn read_evolution_candidate_status(label: &str) -> (r: Option<EvolutionCandidateStatus>)
    ensures
        r == evolution_candidate_status_labelled(label@),
{
    if same(label, "proposed") {
        Some(EvolutionCandidateStatus::Proposed)
    } else if same(label, "selected") {
        Some(EvolutionCandidateStatus::Selected)
    } else if same(label, "applied") {
        Some(EvolutionCandidateStatus::Applied)
    } else if same(label, "kept") {
        Some(EvolutionCandidateStatus::Kept)
    } else if same(label, "rejected") {
        Some(EvolutionCandidateStatus::Rejected)
    } else {
        None
    }
}

/// The evolution candidate status of a member; nothing where the member holds none.
pub open spec fn evolution_candidate_status_at(
    value: JsonModel,
    name: Seq<char>,
) -> Option<EvolutionCandidateStatus> {
    match variant_at(value, name) {
        Some(label) => evolution_candidate_status_labelled(label),
        None => None,
    }
}

/// Reads the evolution candidate status of a member; nothing where the member holds none.
pub fn read_evolution_candidate_status_at(
    value: &Json,
    name: &str,
) -> (r: Option<EvolutionCandidateStatus>)
    ensures
        r == evolution_candidate_status_at(value.deep_view(), name@),
{
    match read_variant(value, name) {
        Some(label) => read_evolution_candidate_status(label.as_str()),
        None => None,
    }
}

/// The evolution outcome with this label.
pub open spec fn evolution_outcome_labelled(label: Seq<char>) -> Option<EvolutionOutcome> {
    if label == "improved"@ {
        Some(EvolutionOutcome::Improved)
    } else if label == "neutral"@ {
        Some(EvolutionOutcome::Neutral)
    } else if label == "regressed"@ {
        Some(EvolutionOutcome::Regressed)
    } else if label == "failed_to_evaluate"@ {
        Some(EvolutionOutcome::FailedToEvaluate)
    } else {
        None
    }
}

/// Reads an evolution outcome; nothing where the value holds none.
pub fn read_evolution_outcome(label: &str) -> (r: Option<EvolutionOutcome>)
    ensures
        r == evolution_outcome_labelled(label@),
{
    if same(label, "improved") {
        Some(EvolutionOutcome::Improved)
    } else if same(label, "neutral") {
        Some(EvolutionOutcome::Neutral)
    } else if same(label, "regressed") {
        Some(EvolutionOutcome::Regressed)
    } else if same(label, "failed_to_evaluate") {
        Some(EvolutionOutcome::FailedToEvaluate)
    } else {
        None
    }
}

/// The evolution outcome of a member; nothing where the member holds none.
pub open spec fn evolution_outcome_at(
    value: JsonModel,
    name: Seq<char>,
) -> Option<EvolutionOutcome> {
    match variant_at(value, name) {
        Some(label) => evolution_outcome_labelled(label),
        None => None,
    }
}

/// Reads the evolution outcome of a member; nothing where the member holds none.
pub fn read_evolution_outcome_at(value: &Json, name: &str) -> (r: Option<EvolutionOutcome>)
    ensures
        r == evolution_outcome_at(value.deep_view(), name@),
{
    match read_variant(value, name) {
        Some(label) => read_evolution_outcome(label.as_str()),
        None => None,
    }
}

/// The evolution strategy with this label.
pub open spec fn evolution_strategy_labelled(label: Seq<char>) -> Option<EvolutionStrategy> {
    if label == "add_assertion"@ {
        Some(EvolutionStrategy::AddAssertion)
    } else if label == "promote_corpus"@ {
        Some(EvolutionStrategy::PromoteCorpus)
    } else if label == "narrow_target"@ {
        Some(EvolutionStrategy::NarrowTarget)
    } else if label == "reduce_budget_risk"@ {
        Some(EvolutionStrategy::ReduceBudgetRisk)
    } else if label == "strengthen_property"@ {
        Some(EvolutionStrategy::StrengthenProperty)
    } else {
        None
    }
}

/// Reads an evolution strategy; nothing where the value holds none.
pub fn read_evolution_strategy(label: &str) -> (r: Option<EvolutionStrategy>)
    ensures
        r == evolution_strategy_labelled(label@),
{
    if same(label, "add_assertion") {
        Some(EvolutionStrategy::AddAssertion)
    } else if same(label, "promote_corpus") {
        Some(EvolutionStrategy::PromoteCorpus)
    } else if same(label, "narrow_target") {
        Some(EvolutionStrategy::NarrowTarget)
    } else if same(label, "reduce_budget_risk") {
        Some(EvolutionStrategy::ReduceBudgetRisk)
    } else if same(label, "strengthen_property") {
        Some(EvolutionStrategy::StrengthenProperty)
    } else {
        None
    }
}

/// The evolution strategy of a member; nothing where the member holds none.
pub open spec fn evolution_strategy_at(
    value: JsonModel,
    name: Seq<char>,
) -> Option<EvolutionStrategy> {
    match variant_at(value, name) {
        Some(label) => evolution_strategy_labelled(label),
        None => None,
    }
}

/// Reads the evolution strategy of a member; nothing where the member holds none.
pub fn read_evolution_strategy_at(value: &Json, name: &str) -> (r: Option<EvolutionStrategy>)
    ensures
        r == evolution_strategy_at(value.deep_view(), name@),
{
    match read_variant(value, name) {
        Some(label) => read_evolution_strategy(label.as_str()),
        None => None,
    }
}

/// The failure severity with this label.
pub open spec fn failure_severity_labelled(label: Seq<char>) -> Option<FailureSeverity> {
    if label == "info"@ {
        Some(FailureSeverity::Info)
    } else if label == "warning"@ {
        Some(FailureSeverity::Warning)
    } else if label == "error"@ {
        Some(FailureSeverity::Error)
    } else if label == "critical"@ {
        Some(FailureSeverity::Critical)
    } else {
        None
    }
}

/// Reads a failure severity; nothing where the value holds none.
pub fn read_failure_severity(label: &str) -> (r: Option<FailureSeverity>)
    ensures
        r == failure_severity_labelled(label@),
{
    if same(label, "info") {
        Some(FailureSeverity::Info)
    } else if same(label, "warning") {
        Some(FailureSeverity::Warning)
    } else if same(label, "error") {
        Some(FailureSeverity::Error)
    } else if same(label, "critical") {
        Some(FailureSeverity::Critical)
    } else {
        None
    }
}

/// The failure severity of a member; nothing where the member holds none.
pub open spec fn failure_severity_at(value: JsonModel, name: Seq<char>) -> Option<FailureSeverity> {
    match variant_at(value, name) {
        Some(label) => failure_severity_labelled(label),
        None => None,
    }
}

/// Reads the failure severity of a member; nothing where the member holds none.
pub fn read_failure_severity_at(value: &Json, name: &str) -> (r: Option<FailureSeverity>)
    ensures
        r == failure_severity_at(value.deep_view(), name@),
{
    match read_variant(value, name) {
        Some(label) => read_failure_severity(label.as_str()),
        None => None,
    }
}

/// The mutation status with this label.
pub open spec fn mutation_status_labelled(label: Seq<char>) -> Option<MutationStatus> {
    if label == "runnable"@ {
        Some(MutationStatus::Runnable)
    } else if label == "not_covered"@ {
        Some(MutationStatus::NotCovered)
    } else if label == "killed"@ {
        Some(MutationStatus::Killed)
    } else if label == "lived"@ {
        Some(MutationStatus::Lived)
    } else if label == "timed_out"@ {
        Some(MutationStatus::TimedOut)
    } else if label == "not_viable"@ {
        Some(MutationStatus::NotViable)
    } else if label == "skipped"@ {
        Some(MutationStatus::Skipped)
    } else {
        None
    }
}

/// Reads a mutation status; nothing where the value holds none.
pub fn read_mutation_status(label: &str) -> (r: Option<MutationStatus>)
    ensures
        r == mutation_status_labelled(label@),
{
    if same(label, "runnable") {
        Some(MutationStatus::Runnable)
    } else if same(label, "not_covered") {
        Some(MutationStatus::NotCovered)
    } else if same(label, "killed") {
        Some(MutationStatus::Killed)
    } else if same(label, "lived") {
        Some(MutationStatus::Lived)
    } else if same(label, "timed_out") {
        Some(MutationStatus::TimedOut)
    } else if same(label, "not_viable") {
        Some(MutationStatus::NotViable)
    } else if same(label, "skipped") {
        Some(MutationStatus::Skipped)
    } else {
        None
    }
}

/// The mutation status of a member; nothing where the member holds none.
pub open spec fn mutation_status_at(value: JsonModel, name: Seq<char>) -> Option<MutationStatus> {
    match variant_at(value, name) {
        Some(label) => mutation_status_labelled(label),
        None => None,
    }
}

/// Reads the mutation status of a member; nothing where the member holds none.
pub fn read_mutation_status_at(value: &Json, name: &str) -> (r: Option<MutationStatus>)
    ensures
        r == mutation_status_at(value.deep_view(), name@),
{
    match read_variant(value, name) {
        Some(label) => read_mutation_status(label.as_str()),
        None => None,
    }
}

/// The risk level with this label.
pub open spec fn risk_level_labelled(label: Seq<char>) -> Option<RiskLevel> {
    if label == "low"@ {
        Some(RiskLevel::Low)
    } else if label == "medium"@ {
        Some(RiskLevel::Medium)
    } else if label == "high"@ {
        Some(RiskLevel::High)
    } else {
        None
    }
}

/// Reads a risk level; nothing where the value holds none.
pub fn read_risk_level(label: &str) -> (r: Option<RiskLevel>)
    ensures
        r == risk_level_labelled(label@),
{
    if same(label, "low") {
        Some(RiskLevel::Low)
    } else if same(label, "medium") {
        Some(RiskLevel::Medium)
    } else if same(label, "high") {
        Some(RiskLevel::High)
    } else {
        None
    }
}

/// The risk level of a member; nothing where the member holds none.
pub open spec fn risk_level_at(value: JsonModel, name: Seq<char>) -> Option<RiskLevel> {
    match variant_at(value, name) {
        Some(label) => risk_level_labelled(label),
        None => None,
    }
}

/// Reads the risk level of a member; nothing where the member holds none.
pub fn read_risk_level_at(value: &Json, name: &str) -> (r: Option<RiskLevel>)
    ensures
        r == risk_level_at(value.deep_view(), name@),
{
    match read_variant(value, name) {
        Some(label) => read_risk_level(label.as_str()),
        None => None,
    }
}

/// The run status with this label.
pub open spec fn run_status_labelled(label: Seq<char>) -> Option<RunStatus> {
    if label == "passed"@ {
        Some(RunStatus::Passed)
    } else if label == "failed"@ {
        Some(RunStatus::Failed)
    } else if label == "skipped"@ {
        Some(RunStatus::Skipped)
    } else {
        None
    }
}

/// Reads a run status; nothing where the value holds none.
pub fn read_run_status(label: &str) -> (r: Option<RunStatus>)
    ensures
        r == run_status_labelled(label@),
{
    if same(label, "passed") {
        Some(RunStatus::Passed)
    } else if same(label, "failed") {
        Some(RunStatus::Failed)
    } else if same(label, "skipped") {
        Some(RunStatus::Skipped)
    } else {
        None
    }
}

/// The run status of a member; nothing where the member holds none.
pub open spec fn run_status_at(value: JsonModel, name: Seq<char>) -> Option<RunStatus> {
    match variant_at(value, name) {
        Some(label) => run_status_labelled(label),
        None => None,
    }
}

/// Reads the run status of a member; nothing where the member holds none.
pub fn read_run_status_at(value: &Json, name: &str) -> (r: Option<RunStatus>)
    ensures
        r == run_status_at(value.deep_view(), name@),
{
    match read_variant(value, name) {
        Some(label) => read_run_status(label.as_str()),
        None => None,
    }
}

/// The target kind with this label.
pub open spec fn target_kind_labelled(label: Seq<char>) -> Option<TargetKind> {
    if label == "project"@ {
        Some(TargetKind::Project)
    } else if label == "package"@ {
        Some(TargetKind::Package)
    } else if label == "file"@ {
        Some(TargetKind::File)
    } else if label == "function"@ {
        Some(TargetKind::Function)
    } else {
        None
    }
}

/// Reads a target kind; nothing where the value holds none.
pub fn read_target_kind(label: &str) -> (r: Option<TargetKind>)
    ensures
        r == target_kind_labelled(label@),
{
    if same(label, "project") {
        Some(TargetKind::Project)
    } else if same(label, "package") {
        Some(TargetKind::Package)
    } else if same(label, "file") {
        Some(TargetKind::File)
    } else if same(label, "function") {
        Some(TargetKind::Function)
    } else {
        None
    }
}

/// The target kind of a member; nothing where the member holds none.
pub open spec fn target_kind_at(value: JsonModel, name: Seq<char>) -> Option<TargetKind> {
    match variant_at(value, name) {
        Some(label) => target_kind_labelled(label),
        None => None,
    }
}

/// Reads the target kind of a member; nothing where the member holds none.
pub fn read_target_kind_at(value: &Json, name: &str) -> (r: Option<TargetKind>)
    ensures
        r == target_kind_at(value.deep_view(), name@),
{
    match read_variant(value, name) {
        Some(label) => read_target_kind(label.as_str()),
        None => None,
    }
}

/// The verification strategy with this label.
pub open spec fn verification_strategy_labelled(label: Seq<char>) -> Option<VerificationStrategy> {
    if label == "existing_tests"@ {
        Some(VerificationStrategy::ExistingTests)
    } else if label == "unit_tests"@ {
        Some(VerificationStrategy::UnitTests)
    } else if label == "property_tests"@ {
        Some(VerificationStrategy::PropertyTests)
    } else if label == "fuzzing"@ {
        Some(VerificationStrategy::Fuzzing)
    } else if label == "differential_tests"@ {
        Some(VerificationStrategy::DifferentialTests)
    } else if label == "mutation_checks"@ {
        Some(VerificationStrategy::MutationChecks)
    } else if label == "coverage_feedback"@ {
        Some(VerificationStrategy::CoverageFeedback)
    } else {
        None
    }
}

/// Reads a verification strategy; nothing where the value holds none.
pub fn read_verification_strategy(label: &str) -> (r: Option<VerificationStrategy>)
    ensures
        r == verification_strategy_labelled(label@),
{
    if same(label, "existing_tests") {
        Some(VerificationStrategy::ExistingTests)
    } else if same(label, "unit_tests") {
        Some(VerificationStrategy::UnitTests)
    } else if same(label, "property_tests") {
        Some(VerificationStrategy::PropertyTests)
    } else if same(label, "fuzzing") {
        Some(VerificationStrategy::Fuzzing)
    } else if same(label, "differential_tests") {
        Some(VerificationStrategy::DifferentialTests)
    } else if same(label, "mutation_checks") {
        Some(VerificationStrategy::MutationChecks)
    } else if same(label, "coverage_feedback") {
        Some(VerificationStrategy::CoverageFeedback)
    } else {
        None
    }
}

/// The records of an array; nothing where an item is no such record.
pub open spec fn all_verification_strategies(
    items: Seq<JsonModel>,
) -> Option<Seq<VerificationStrategy>>
    decreases items.len(),
{
    if items.len() == 0 {
        Some(Seq::empty())
    } else {
        match (all_verification_strategies(items.drop_last()), match as_variant(items.last()) {
            Some(label) => verification_strategy_labelled(label),
            None => None,
        }) {
            (Some(before), Some(v)) => Some(before.push(v)),
            _ => None,
        }
    }
}

proof fn lemma_all_verification_strategies_before(items: Seq<JsonModel>, n: int)
    requires
        0 <= n <= items.len(),
        all_verification_strategies(items.take(n)) is None,
    ensures
        all_verification_strategies(items) is None,
    decreases items.len() - n,
{
    if n == items.len() {
        lemma_take_all(items);
    } else {
        lemma_take_next(items, n);
        lemma_all_verification_strategies_before(items, n + 1);
    }
}

/// Reads verification strategies from JSON values; nothing where one of them holds none.
pub fn read_all_verification_strategies(items: &Vec<Json>) -> (r: Option<Vec<VerificationStrategy>>)
    ensures
        r matches Some(list) ==> all_verification_strategies(items.deep_view()) == Some(list@),
        r is None ==> all_verification_strategies(items.deep_view()) is None,
{
    let mut out: Vec<VerificationStrategy> = Vec::new();
    let ghost all = items.deep_view();
    let mut i: usize = 0;
    assert(out@ =~= Seq::<VerificationStrategy>::empty());
    assert(all_verification_strategies(all.take(0)) == Some(out@));
    while i < items.len()
        invariant
            i <= items@.len(),
            all == items.deep_view(),
            all_verification_strategies(all.take(i as int)) == Some(out@),
        decreases items@.len() - i,
    {
        proof {
            lemma_take_next(all, i as int);
        }
        let item = match items[i].as_variant_name() {
            Some(label) => read_verification_strategy(label.as_str()),
            None => None,
        };
        match item {
            Some(v) => {
                out.push(v);
            },
            None => {
                proof {
                    lemma_all_verification_strategies_before(all, i + 1);
                }
                return None;
            },
        }
        i = i + 1;
    }
    proof {
        lemma_take_all(all);
    }
    Some(out)
}

/// The verification strategies of a member; nothing where the member holds none.
pub open spec fn verification_strategies_at(
    value: JsonModel,
    name: Seq<char>,
) -> Option<Seq<VerificationStrategy>> {
    match array_at(value, name) {
        Some(items) => all_verification_strategies(items),
        None => None,
    }
}

/// Reads the verification strategies of a member; nothing where the member holds none.
pub fn read_verification_strategies_at(
    value: &Json,
    name: &str,
) -> (r: Option<Vec<VerificationStrategy>>)
    ensures
        r matches Some(list) ==> verification_strategies_at(value.deep_view(), name@) == Some(list@),
        r is None ==> verification_strategies_at(value.deep_view(), name@) is None,
{
    match read_array(value, name) {
        Some(items) => read_all_verification_strategies(items),
        None => None,
    }
}

/// The optional i16 of a member; nothing where the member holds none.
pub open spec fn optional_i16_at(value: JsonModel, name: Seq<char>) -> Option<Option<i16>> {
    if absent(value, name) {
        Some(None)
    } else {
        match signed_at(value, name, i16::MIN as int, i16::MAX as int) {
            Some(n) => Some(Some(n as i16)),
            None => None,
        }
    }
}

/// Reads the optional i16 of a member; nothing where the member holds none.
pub fn read_optional_i16_at(value: &Json, name: &str) -> (r: Option<Option<i16>>)
    ensures
        r == optional_i16_at(value.deep_view(), name@),
{
    if is_absent(value, name) {
        Some(None)
    } else {
        match read_signed(value, name, -32768, 32767) {
            Some(v) => Some(Some(v as i16)),
            None => None,
        }
    }
}

/// The optional i32 of a member; nothing where the member holds none.
pub open spec fn optional_i32_at(value: JsonModel, name: Seq<char>) -> Option<Option<i32>> {
    if absent(value, name) {
        Some(None)
    } else {
        match signed_at(value, name, i32::MIN as int, i32::MAX as int) {
            Some(n) => Some(Some(n as i32)),
            None => None,
        }
    }
}

/// Reads the optional i32 of a member; nothing where the member holds none.
pub fn read_optional_i32_at(value: &Json, name: &str) -> (r: Option<Option<i32>>)
    ensures
        r == optional_i32_at(value.deep_view(), name@),
{
    if is_absent(value, name) {
        Some(None)
    } else {
        match read_signed(value, name, -2147483648, 2147483647) {
            Some(v) => Some(Some(v as i32)),
            None => None,
        }
    }
}

/// The optional u8 of a member; nothing where the member holds none.
pub open spec fn optional_u8_at(value: JsonModel, name: Seq<char>) -> Option<Option<u8>> {
    if absent(value, name) {
        Some(None)
    } else {
        match unsigned_at(value, name, u8::MAX as int) {
            Some(n) => Some(Some(n as u8)),
            None => None,
        }
    }
}

/// Reads the optional u8 of a member; nothing where the member holds none.
pub fn read_optional_u8_at(value: &Json, name: &str) -> (r: Option<Option<u8>>)
    ensures
        r == optional_u8_at(value.deep_view(), name@),
{
    if is_absent(value, name) {
        Some(None)
    } else {
        match read_unsigned(value, name, 255) {
            Some(v) => Some(Some(v as u8)),
            None => None,
        }
    }
}

/// The optional u64 of a member.
pub open spec fn optional_u64_at(value: JsonModel, name: Seq<char>) -> Option<Option<u64>> {
    if absent(value, name) {
        Some(None)
    } else {
        match unsigned_at(value, name, u64::MAX as int) {
            Some(n) => Some(Some(n as u64)),
            None => None,
        }
    }
}

/// Reads the optional u64 of a member; nothing where the member holds none.
pub fn read_optional_u64_at(value: &Json, name: &str) -> (r: Option<Option<u64>>)
    ensures
        r == optional_u64_at(value.deep_view(), name@),
{
    if is_absent(value, name) {
        Some(None)
    } else {
        match read_unsigned(value, name, u64::MAX) {
            Some(v) => Some(Some(v)),
            None => None,
        }
    }
}

/// Whether a JSON document holds every field of a line range.
pub open spec fn line_range_readable(value: JsonModel) -> bool {
    &&& unsigned_at(value, "start"@, usize::MAX as int) is Some
    &&& unsigned_at(value, "end"@, usize::MAX as int) is Some
}

/// The line range whose fields a JSON object holds.
pub open spec fn line_range_fields(value: JsonModel) -> Option<LineRange> {
    if line_range_readable(value) {
        Some(
            LineRange {
                start: (unsigned_at(value, "start"@, usize::MAX as int)->0) as usize,
                end: (unsigned_at(value, "end"@, usize::MAX as int)->0) as usize,
            },
        )
    } else {
        None
    }
}

/// The line range that a JSON document holds: an object, or the array of the fields in their
/// order.
pub open spec fn line_range_in(value: JsonModel) -> Option<LineRange> {
    let names = seq![
        "start"@,
        "end"@,
    ];
    line_range_fields(as_record(value, names))
}

fn read_line_range_fields(value: &Json) -> (r: Option<LineRange>)
    ensures
        r == line_range_fields(value.deep_view()),
{
    let start: usize = match read_unsigned(value, "start", usize::MAX as u64) {
        Some(v) => v as usize,
        None => return None,
    };
    let end: usize = match read_unsigned(value, "end", usize::MAX as u64) {
        Some(v) => v as usize,
        None => return None,
    };
    Some(
        LineRange {
            start,
            end,
        },
    )
}

/// Reads a line range; nothing where the value holds none.
pub fn read_line_range(value: &Json) -> (r: Option<LineRange>)
    ensures
        r == line_range_in(value.deep_view()),
{
    let names = vec![
        "start",
        "end",
    ];
    assert(names.deep_view() =~= seq![
        "start"@,
        "end"@,
    ]);
    match named_fields(value, &names) {
        Some(record) => read_line_range_fields(&record),
        None => read_line_range_fields(value),
    }
}

/// The line range of a member; nothing where the member holds none.
pub open spec fn line_range_at(value: JsonModel, name: Seq<char>) -> Option<LineRange> {
    match field(value, name) {
        Some(v) => line_range_in(v),
        None => None,
    }
}

/// Reads the line range of a member; nothing where the member holds none.
pub fn read_line_range_at(value: &Json, name: &str) -> (r: Option<LineRange>)
    ensures
        r == line_range_at(value.deep_view(), name@),
{
    match value.field(name) {
        Some(v) => read_line_range(v),
        None => None,
    }
}

/// The optional line range of a member; nothing where the member holds none.
pub open spec fn optional_line_range_at(
    value: JsonModel,
    name: Seq<char>,
) -> Option<Option<LineRange>> {
    if absent(value, name) {
        Some(None)
    } else {
        match line_range_at(value, name) {
            Some(v) => Some(Some(v)),
            None => None,
        }
    }
}

/// Reads the optional line range of a member; nothing where the member holds none.
pub fn read_optional_line_range_at(value: &Json, name: &str) -> (r: Option<Option<LineRange>>)
    ensures
        r == optional_line_range_at(value.deep_view(), name@),
{
    if is_absent(value, name) {
        Some(None)
    } else {
        match read_line_range_at(value, name) {
            Some(v) => Some(Some(v)),
            None => None,
        }
    }
}

/// Whether a JSON document holds every field of a project info.
pub open spec fn project_info_readable(value: JsonModel) -> bool {
    &&& text_at(value, "language"@) is Some
    &&& text_at(value, "name"@) is Some
    &&& text_at(value, "root"@) is Some
    &&& texts_at(value, "manifests"@) is Some
}

/// The project info whose fields a JSON object holds.
pub open spec fn project_info_fields(value: JsonModel) -> Option<ProjectInfoModel> {
    if project_info_readable(value) {
        Some(
            ProjectInfoModel {
                language: text_at(value, "language"@)->0,
                name: text_at(value, "name"@)->0,
                root: text_at(value, "root"@)->0,
                manifests: texts_at(value, "manifests"@)->0,
            },
        )
    } else {
        None
    }
}

/// The project info that a JSON document holds: an object, or the array of the fields in their
/// order.
pub open spec fn project_info_in(value: JsonModel) -> Option<ProjectInfoModel> {
    let names = seq![
        "language"@,
        "name"@,
        "root"@,
        "manifests"@,
    ];
    project_info_fields(as_record(value, names))
}

fn read_project_info_fields(value: &Json) -> (r: Option<ProjectInfo>)
    ensures
        r.deep_view() == project_info_fields(value.deep_view()),
{
    let language: String = match read_text(value, "language") {
        Some(v) => v,
        None => return None,
    };
    let name: String = match read_text(value, "name") {
        Some(v) => v,
        None => return None,
    };
    let root: String = match read_text(value, "root") {
        Some(v) => v,
        None => return None,
    };
    let manifests: Vec<String> = match read_texts(value, "manifests") {
        Some(v) => v,
        None => return None,
    };
    Some(
        ProjectInfo {
            language,
            name,
            root,
            manifests,
        },
    )
}

/// Reads a project info; nothing where the value holds none.
pub fn read_project_info(value: &Json) -> (r: Option<ProjectInfo>)
    ensures
        r.deep_view() == project_info_in(value.deep_view()),
{
    let names = vec![
        "language",
        "name",
        "root",
        "manifests",
    ];
    assert(names.deep_view() =~= seq![
        "language"@,
        "name"@,
        "root"@,
        "manifests"@,
    ]);
    match named_fields(value, &names) {
        Some(record) => read_project_info_fields(&record),
        None => read_project_info_fields(value),
    }
}

/// The project info of a member; nothing where the member holds none.
pub open spec fn project_info_at(value: JsonModel, name: Seq<char>) -> Option<ProjectInfoModel> {
    match field(value, name) {
        Some(v) => project_info_in(v),
        None => None,
    }
}

/// Reads the project info of a member; nothing where the member holds none.
pub fn read_project_info_at(value: &Json, name: &str) -> (r: Option<ProjectInfo>)
    ensures
        r.deep_view() == project_info_at(value.deep_view(), name@),
{
    match value.field(name) {
        Some(v) => read_project_info(v),
        None => None,
    }
}

/// The optional project info of a member; nothing where the member holds none.
pub open spec fn optional_project_info_at(
    value: JsonModel,
    name: Seq<char>,
) -> Option<Option<ProjectInfoModel>> {
    if absent(value, name) {
        Some(None)
    } else {
        match project_info_at(value, name) {
            Some(v) => Some(Some(v)),
            None => None,
        }
    }
}

/// Reads the optional project info of a member; nothing where the member holds none.
pub fn read_optional_project_info_at(value: &Json, name: &str) -> (r: Option<Option<ProjectInfo>>)
    ensures
        r.deep_view() == optional_project_info_at(value.deep_view(), name@),
{
    if is_absent(value, name) {
        Some(None)
    } else {
        match read_project_info_at(value, name) {
            Some(v) => Some(Some(v)),
            None => None,
        }
    }
}

/// Whether a JSON document holds every field of a verification target.
pub open spec fn verification_target_readable(value: JsonModel) -> bool {
    &&& text_at(value, "id"@) is Some
    &&& text_at(value, "language"@) is Some
    &&& target_kind_at(value, "kind"@) is Some
    &&& text_at(value, "path"@) is Some
    &&& optional_text_at(value, "symbol"@) is Some
    &&& optional_text_at(value, "signature"@) is Some
    &&& optional_line_range_at(value, "line_range"@) is Some
    &&& text_at(value, "description"@) is Some
    &&& risk_level_at(value, "risk"@) is Some
}

/// The verification target whose fields a JSON object holds.
pub open spec fn verification_target_fields(value: JsonModel) -> Option<VerificationTargetModel> {
    if verification_target_readable(value) {
        Some(
            VerificationTargetModel {
                id: text_at(value, "id"@)->0,
                language: text_at(value, "language"@)->0,
                kind: target_kind_at(value, "kind"@)->0,
                path: text_at(value, "path"@)->0,
                symbol: optional_text_at(value, "symbol"@)->0,
                signature: optional_text_at(value, "signature"@)->0,
                line_range: optional_line_range_at(value, "line_range"@)->0,
                description: text_at(value, "description"@)->0,
                risk: risk_level_at(value, "risk"@)->0,
            },
        )
    } else {
        None
    }
}

/// The verification target that a JSON document holds: an object, or the array of the fields in their
/// order.
pub open spec fn verification_target_in(value: JsonModel) -> Option<VerificationTargetModel> {
    let names = seq![
        "id"@,
        "language"@,
        "kind"@,
        "path"@,
        "symbol"@,
        "signature"@,
        "line_range"@,
        "description"@,
        "risk"@,
    ];
    verification_target_fields(as_record(value, names))
}

fn read_verification_target_fields(value: &Json) -> (r: Option<VerificationTarget>)
    ensures
        r.deep_view() == verification_target_fields(value.deep_view()),
{
    let id: String = match read_text(value, "id") {
        Some(v) => v,
        None => return None,
    };
    let language: String = match read_text(value, "language") {
        Some(v) => v,
        None => return None,
    };
    let kind: TargetKind = match read_target_kind_at(value, "kind") {
        Some(v) => v,
        None => return None,
    };
    let path: String = match read_text(value, "path") {
        Some(v) => v,
        None => return None,
    };
    let symbol: Option<String> = match read_optional_text(value, "symbol") {
        Some(v) => v,
        None => return None,
    };
    let signature: Option<String> = match read_optional_text(value, "signature") {
        Some(v) => v,
        None => return None,
    };
    let line_range: Option<LineRange> = match read_optional_line_range_at(value, "line_range") {
        Some(v) => v,
        None => return None,
    };
    let description: String = match read_text(value, "description") {
        Some(v) => v,
        None => return None,
    };
    let risk: RiskLevel = match read_risk_level_at(value, "risk") {
        Some(v) => v,
        None => return None,
    };
    Some(
        VerificationTarget {
            id,
            language,
            kind,
            path,
            symbol,
            signature,
            line_range,
            description,
            risk,
        },
    )
}

/// Reads a verification target; nothing where the value holds none.
pub fn read_verification_target(value: &Json) -> (r: Option<VerificationTarget>)
    ensures
        r.deep_view() == verification_target_in(value.deep_view()),
{
    let names = vec![
        "id",
        "language",
        "kind",
        "path",
        "symbol",
        "signature",
        "line_range",
        "description",
        "risk",
    ];
    assert(names.deep_view() =~= seq![
        "id"@,
        "language"@,
        "kind"@,
        "path"@,
        "symbol"@,
        "signature"@,
        "line_range"@,
        "description"@,
        "risk"@,
    ]);
    match named_fields(value, &names) {
        Some(record) => read_verification_target_fields(&record),
        None => read_verification_target_fields(value),
    }
}

/// The records of an array; nothing where an item is no such record.
pub open spec fn all_verification_targets(
    items: Seq<JsonModel>,
) -> Option<Seq<VerificationTargetModel>>
    decreases items.len(),
{
    if items.len() == 0 {
        Some(Seq::empty())
    } else {
        match (all_verification_targets(items.drop_last()), verification_target_in(items.last())) {
            (Some(before), Some(v)) => Some(before.push(v)),
            _ => None,
        }
    }
}

proof fn lemma_all_verification_targets_before(items: Seq<JsonModel>, n: int)
    requires
        0 <= n <= items.len(),
        all_verification_targets(items.take(n)) is None,
    ensures
        all_verification_targets(items) is None,
    decreases items.len() - n,
{
    if n == items.len() {
        lemma_take_all(items);
    } else {
        lemma_take_next(items, n);
        lemma_all_verification_targets_before(items, n + 1);
    }
}

/// Reads verification targets from JSON values; nothing where one of them holds none.
pub fn read_all_verification_targets(items: &Vec<Json>) -> (r: Option<Vec<VerificationTarget>>)
    ensures
        r.deep_view() == all_verification_targets(items.deep_view()),
{
    let mut out: Vec<VerificationTarget> = Vec::new();
    let ghost all = items.deep_view();
    let mut i: usize = 0;
    assert(out.deep_view() =~= Seq::<VerificationTargetModel>::empty());
    assert(all_verification_targets(all.take(0)) == Some(out.deep_view()));
    while i < items.len()
        invariant
            i <= items@.len(),
            all == items.deep_view(),
            all_verification_targets(all.take(i as int)) == Some(out.deep_view()),
        decreases items@.len() - i,
    {
        proof {
            lemma_take_next(all, i as int);
        }
        let item = read_verification_target(&items[i]);
        match item {
            Some(v) => {
                push_verification_target(&mut out, v);
            },
            None => {
                proof {
                    lemma_all_verification_targets_before(all, i + 1);
                }
                return None;
            },
        }
        i = i + 1;
    }
    proof {
        lemma_take_all(all);
    }
    Some(out)
}

/// The verification targets of a member; nothing where the member holds none.
pub open spec fn verification_targets_at(
    value: JsonModel,
    name: Seq<char>,
) -> Option<Seq<VerificationTargetModel>> {
    match array_at(value, name) {
        Some(items) => all_verification_targets(items),
        None => None,
    }
}

/// Reads the verification targets of a member; nothing where the member holds none.
pub fn read_verification_targets_at(
    value: &Json,
    name: &str,
) -> (r: Option<Vec<VerificationTarget>>)
    ensures
        r.deep_view() == verification_targets_at(value.deep_view(), name@),
{
    match read_array(value, name) {
        Some(items) => read_all_verification_targets(items),
        None => None,
    }
}

/// Whether a JSON document holds every field of a verification plan.
pub open spec fn verification_plan_readable(value: JsonModel) -> bool {
    &&& text_at(value, "target_id"@) is Some
    &&& verification_strategies_at(value, "strategies"@) is Some
    &&& unsigned_at(value, "budget_seconds"@, u64::MAX as int) is Some
    &&& flag_at(value, "write_generated_tests"@) is Some
    &&& flag_at(value, "run_existing_tests"@) is Some
    &&& flag_at(value, "run_generated_tests"@) is Some
    &&& flag_at(value, "fail_on_generated_test_failure"@) is Some
}

/// The verification plan whose fields a JSON object holds.
pub open spec fn verification_plan_fields(value: JsonModel) -> Option<VerificationPlanModel> {
    if verification_plan_readable(value) {
        Some(
            VerificationPlanModel {
                target_id: text_at(value, "target_id"@)->0,
                strategies: verification_strategies_at(value, "strategies"@)->0,
                budget_seconds: (unsigned_at(value, "budget_seconds"@, u64::MAX as int)->0) as u64,
                write_generated_tests: flag_at(value, "write_generated_tests"@)->0,
                run_existing_tests: flag_at(value, "run_existing_tests"@)->0,
                run_generated_tests: flag_at(value, "run_generated_tests"@)->0,
                fail_on_generated_test_failure: flag_at(value, "fail_on_generated_test_failure"@)->0,
            },
        )
    } else {
        None
    }
}

/// The verification plan that a JSON document holds: an object, or the array of the fields in their
/// order.
pub open spec fn verification_plan_in(value: JsonModel) -> Option<VerificationPlanModel> {
    let names = seq![
        "target_id"@,
        "strategies"@,
        "budget_seconds"@,
        "write_generated_tests"@,
        "run_existing_tests"@,
        "run_generated_tests"@,
        "fail_on_generated_test_failure"@,
    ];
    verification_plan_fields(as_record(value, names))
}

fn read_verification_plan_fields(value: &Json) -> (r: Option<VerificationPlan>)
    ensures
        r.deep_view() == verification_plan_fields(value.deep_view()),
{
    let target_id: String = match read_text(value, "target_id") {
        Some(v) => v,
        None => return None,
    };
    let strategies: Vec<VerificationStrategy> = match read_verification_strategies_at(value, "strategies") {
        Some(v) => v,
        None => return None,
    };
    let budget_seconds: u64 = match read_unsigned(value, "budget_seconds", u64::MAX) {
        Some(v) => v,
        None => return None,
    };
    let write_generated_tests: bool = match read_flag(value, "write_generated_tests") {
        Some(v) => v,
        None => return None,
    };
    let run_existing_tests: bool = match read_flag(value, "run_existing_tests") {
        Some(v) => v,
        None => return None,
    };
    let run_generated_tests: bool = match read_flag(value, "run_generated_tests") {
        Some(v) => v,
        None => return None,
    };
    let fail_on_generated_test_failure: bool = match read_flag(value, "fail_on_generated_test_failure") {
        Some(v) => v,
        None => return None,
    };
    Some(
        VerificationPlan {
            target_id,
            strategies,
            budget_seconds,
            write_generated_tests,
            run_existing_tests,
            run_generated_tests,
            fail_on_generated_test_failure,
        },
    )
}

/// Reads a verification plan; nothing where the value holds none.
pub fn read_verification_plan(value: &Json) -> (r: Option<VerificationPlan>)
    ensures
        r.deep_view() == verification_plan_in(value.deep_view()),
{
    let names = vec![
        "target_id",
        "strategies",
        "budget_seconds",
        "write_generated_tests",
        "run_existing_tests",
        "run_generated_tests",
        "fail_on_generated_test_failure",
    ];
    assert(names.deep_view() =~= seq![
        "target_id"@,
        "strategies"@,
        "budget_seconds"@,
        "write_generated_tests"@,
        "run_existing_tests"@,
        "run_generated_tests"@,
        "fail_on_generated_test_failure"@,
    ]);
    match named_fields(value, &names) {
        Some(record) => read_verification_plan_fields(&record),
        None => read_verification_plan_fields(value),
    }
}

/// The verification plan of a member; nothing where the member holds none.
pub open spec fn verification_plan_at(
    value: JsonModel,
    name: Seq<char>,
) -> Option<VerificationPlanModel> {
    match field(value, name) {
        Some(v) => verification_plan_in(v),
        None => None,
    }
}

/// Reads the verification plan of a member; nothing where the member holds none.
pub fn read_verification_plan_at(value: &Json, name: &str) -> (r: Option<VerificationPlan>)
    ensures
        r.deep_view() == verification_plan_at(value.deep_view(), name@),
{
    match value.field(name) {
        Some(v) => read_verification_plan(v),
        None => None,
    }
}

/// The optional verification plan of a member; nothing where the member holds none.
pub open spec fn optional_verification_plan_at(
    value: JsonModel,
    name: Seq<char>,
) -> Option<Option<VerificationPlanModel>> {
    if absent(value, name) {
        Some(None)
    } else {
        match verification_plan_at(value, name) {
            Some(v) => Some(Some(v)),
            None => None,
        }
    }
}

/// Reads the optional verification plan of a member; nothing where the member holds none.
pub fn read_optional_verification_plan_at(
    value: &Json,
    name: &str,
) -> (r: Option<Option<VerificationPlan>>)
    ensures
        r.deep_view() == optional_verification_plan_at(value.deep_view(), name@),
{
    if is_absent(value, name) {
        Some(None)
    } else {
        match read_verification_plan_at(value, name) {
            Some(v) => Some(Some(v)),
            None => None,
        }
    }
}

/// Whether a JSON document holds every field of a generated artifact.
pub open spec fn generated_artifact_readable(value: JsonModel) -> bool {
    &&& text_at(value, "id"@) is Some
    &&& text_at(value, "language"@) is Some
    &&& artifact_kind_at(value, "kind"@) is Some
    &&& text_at(value, "target_id"@) is Some
    &&& text_at(value, "path"@) is Some
    &&& text_at(value, "contents"@) is Some
    &&& text_at(value, "description"@) is Some
    &&& artifact_status_at(value, "status"@) is Some
}

/// The generated artifact whose fields a JSON object holds.
pub open spec fn generated_artifact_fields(value: JsonModel) -> Option<GeneratedArtifactModel> {
    if generated_artifact_readable(value) {
        Some(
            GeneratedArtifactModel {
                id: text_at(value, "id"@)->0,
                language: text_at(value, "language"@)->0,
                kind: artifact_kind_at(value, "kind"@)->0,
                target_id: text_at(value, "target_id"@)->0,
                path: text_at(value, "path"@)->0,
                contents: text_at(value, "contents"@)->0,
                description: text_at(value, "description"@)->0,
                status: artifact_status_at(value, "status"@)->0,
            },
        )
    } else {
        None
    }
}

/// The generated artifact that a JSON document holds: an object, or the array of the fields in their
/// order.
pub open spec fn generated_artifact_in(value: JsonModel) -> Option<GeneratedArtifactModel> {
    let names = seq![
        "id"@,
        "language"@,
        "kind"@,
        "target_id"@,
        "path"@,
        "contents"@,
        "description"@,
        "status"@,
    ];
    generated_artifact_fields(as_record(value, names))
}

fn read_generated_artifact_fields(value: &Json) -> (r: Option<GeneratedArtifact>)
    ensures
        r.deep_view() == generated_artifact_fields(value.deep_view()),
{
    let id: String = match read_text(value, "id") {
        Some(v) => v,
        None => return None,
    };
    let language: String = match read_text(value, "language") {
        Some(v) => v,
        None => return None,
    };
    let kind: ArtifactKind = match read_artifact_kind_at(value, "kind") {
        Some(v) => v,
        None => return None,
    };
    let target_id: String = match read_text(value, "target_id") {
        Some(v) => v,
        None => return None,
    };
    let path: String = match read_text(value, "path") {
        Some(v) => v,
        None => return None,
    };
    let contents: String = match read_text(value, "contents") {
        Some(v) => v,
        None => return None,
    };
    let description: String = match read_text(value, "description") {
        Some(v) => v,
        None => return None,
    };
    let status: ArtifactStatus = match read_artifact_status_at(value, "status") {
        Some(v) => v,
        None => return None,
    };
    Some(
        GeneratedArtifact {
            id,
            language,
            kind,
            target_id,
            path,
            contents,
            description,
            status,
        },
    )
}

/// Reads a generated artifact; nothing where the value holds none.
pub fn read_generated_artifact(value: &Json) -> (r: Option<GeneratedArtifact>)
    ensures
        r.deep_view() == generated_artifact_in(value.deep_view()),
{
    let names = vec![
        "id",
        "language",
        "kind",
        "target_id",
        "path",
        "contents",
        "description",
        "status",
    ];
    assert(names.deep_view() =~= seq![
        "id"@,
        "language"@,
        "kind"@,
        "target_id"@,
        "path"@,
        "contents"@,
        "description"@,
        "status"@,
    ]);
    match named_fields(value, &names) {
        Some(record) => read_generated_artifact_fields(&record),
        None => read_generated_artifact_fields(value),
    }
}

/// The records of an array; nothing where an item is no such record.
pub open spec fn all_generated_artifacts(
    items: Seq<JsonModel>,
) -> Option<Seq<GeneratedArtifactModel>>
    decreases items.len(),
{
    if items.len() == 0 {
        Some(Seq::empty())
    } else {
        match (all_generated_artifacts(items.drop_last()), generated_artifact_in(items.last())) {
            (Some(before), Some(v)) => Some(before.push(v)),
            _ => None,
        }
    }
}

proof fn lemma_all_generated_artifacts_before(items: Seq<JsonModel>, n: int)
    requires
        0 <= n <= items.len(),
        all_generated_artifacts(items.take(n)) is None,
    ensures
        all_generated_artifacts(items) is None,
    decreases items.len() - n,
{
    if n == items.len() {
        lemma_take_all(items);
    } else {
        lemma_take_next(items, n);
        lemma_all_generated_artifacts_before(items, n + 1);
    }
}

/// Reads generated artifacts from JSON values; nothing where one of them holds none.
pub fn read_all_generated_artifacts(items: &Vec<Json>) -> (r: Option<Vec<GeneratedArtifact>>)
    ensures
        r.deep_view() == all_generated_artifacts(items.deep_view()),
{
    let mut out: Vec<GeneratedArtifact> = Vec::new();
    let ghost all = items.deep_view();
    let mut i: usize = 0;
    assert(out.deep_view() =~= Seq::<GeneratedArtifactModel>::empty());
    assert(all_generated_artifacts(all.take(0)) == Some(out.deep_view()));
    while i < items.len()
        invariant
            i <= items@.len(),
            all == items.deep_view(),
            all_generated_artifacts(all.take(i as int)) == Some(out.deep_view()),
        decreases items@.len() - i,
    {
        proof {
            lemma_take_next(all, i as int);
        }
        let item = read_generated_artifact(&items[i]);
        match item {
            Some(v) => {
                push_generated_artifact(&mut out, v);
            },
            None => {
                proof {
                    lemma_all_generated_artifacts_before(all, i + 1);
                }
                return None;
            },
        }
        i = i + 1;
    }
    proof {
        lemma_take_all(all);
    }
    Some(out)
}

/// The generated artifacts of a member; nothing where the member holds none.
pub open spec fn generated_artifacts_at(
    value: JsonModel,
    name: Seq<char>,
) -> Option<Seq<GeneratedArtifactModel>> {
    match array_at(value, name) {
        Some(items) => all_generated_artifacts(items),
        None => None,
    }
}

/// Reads the generated artifacts of a member; nothing where the member holds none.
pub fn read_generated_artifacts_at(value: &Json, name: &str) -> (r: Option<Vec<GeneratedArtifact>>)
    ensures
        r.deep_view() == generated_artifacts_at(value.deep_view(), name@),
{
    match read_array(value, name) {
        Some(items) => read_all_generated_artifacts(items),
        None => None,
    }
}

/// Whether a JSON document holds every field of a command record.
pub open spec fn command_record_readable(value: JsonModel) -> bool {
    &&& text_at(value, "program"@) is Some
    &&& texts_at(value, "args"@) is Some
    &&& text_at(value, "cwd"@) is Some
    &&& optional_i32_at(value, "exit_code"@) is Some
    &&& run_status_at(value, "status"@) is Some
    &&& text_at(value, "stdout"@) is Some
    &&& text_at(value, "stderr"@) is Some
    &&& unsigned_at(value, "duration_ms"@, u128::MAX as int) is Some
}

/// The command record whose fields a JSON object holds.
pub open spec fn command_record_fields(value: JsonModel) -> Option<CommandRecordModel> {
    if command_record_readable(value) {
        Some(
            CommandRecordModel {
                program: text_at(value, "program"@)->0,
                args: texts_at(value, "args"@)->0,
                cwd: text_at(value, "cwd"@)->0,
                exit_code: optional_i32_at(value, "exit_code"@)->0,
                status: run_status_at(value, "status"@)->0,
                stdout: text_at(value, "stdout"@)->0,
                stderr: text_at(value, "stderr"@)->0,
                duration_ms: (unsigned_at(value, "duration_ms"@, u128::MAX as int)->0) as u128,
            },
        )
    } else {
        None
    }
}

/// The command record that a JSON document holds: an object, or the array of the fields in their
/// order.
pub open spec fn command_record_in(value: JsonModel) -> Option<CommandRecordModel> {
    let names = seq![
        "program"@,
        "args"@,
        "cwd"@,
        "exit_code"@,
        "status"@,
        "stdout"@,
        "stderr"@,
        "duration_ms"@,
    ];
    command_record_fields(as_record(value, names))
}

fn read_command_record_fields(value: &Json) -> (r: Option<CommandRecord>)
    ensures
        r.deep_view() == command_record_fields(value.deep_view()),
{
    let program: String = match read_text(value, "program") {
        Some(v) => v,
        None => return None,
    };
    let args: Vec<String> = match read_texts(value, "args") {
        Some(v) => v,
        None => return None,
    };
    let cwd: String = match read_text(value, "cwd") {
        Some(v) => v,
        None => return None,
    };
    let exit_code: Option<i32> = match read_optional_i32_at(value, "exit_code") {
        Some(v) => v,
        None => return None,
    };
    let status: RunStatus = match read_run_status_at(value, "status") {
        Some(v) => v,
        None => return None,
    };
    let stdout: String = match read_text(value, "stdout") {
        Some(v) => v,
        None => return None,
    };
    let stderr: String = match read_text(value, "stderr") {
        Some(v) => v,
        None => return None,
    };
    let duration_ms: u128 = match read_whole(value, "duration_ms") {
        Some(v) => v,
        None => return None,
    };
    Some(
        CommandRecord {
            program,
            args,
            cwd,
            exit_code,
            status,
            stdout,
            stderr,
            duration_ms,
        },
    )
}

/// Reads a command record; nothing where the value holds none.
pub fn read_command_record(value: &Json) -> (r: Option<CommandRecord>)
    ensures
        r.deep_view() == command_record_in(value.deep_view()),
{
    let names = vec![
        "program",
        "args",
        "cwd",
        "exit_code",
        "status",
        "stdout",
        "stderr",
        "duration_ms",
    ];
    assert(names.deep_view() =~= seq![
        "program"@,
        "args"@,
        "cwd"@,
        "exit_code"@,
        "status"@,
        "stdout"@,
        "stderr"@,
        "duration_ms"@,
    ]);
    match named_fields(value, &names) {
        Some(record) => read_command_record_fields(&record),
        None => read_command_record_fields(value),
    }
}

/// The records of an array; nothing where an item is no such record.
pub open spec fn all_command_records(items: Seq<JsonModel>) -> Option<Seq<CommandRecordModel>>
    decreases items.len(),
{
    if items.len() == 0 {
        Some(Seq::empty())
    } else {
        match (all_command_records(items.drop_last()), command_record_in(items.last())) {
            (Some(before), Some(v)) => Some(before.push(v)),
            _ => None,
        }
    }
}

proof fn lemma_all_command_records_before(items: Seq<JsonModel>, n: int)
    requires
        0 <= n <= items.len(),
        all_command_records(items.take(n)) is None,
    ensures
        all_command_records(items) is None,
    decreases items.len() - n,
{
    if n == items.len() {
        lemma_take_all(items);
    } else {
        lemma_take_next(items, n);
        lemma_all_command_records_before(items, n + 1);
    }
}

/// Reads command records from JSON values; nothing where one of them holds none.
pub fn read_all_command_records(items: &Vec<Json>) -> (r: Option<Vec<CommandRecord>>)
    ensures
        r.deep_view() == all_command_records(items.deep_view()),
{
    let mut out: Vec<CommandRecord> = Vec::new();
    let ghost all = items.deep_view();
    let mut i: usize = 0;
    assert(out.deep_view() =~= Seq::<CommandRecordModel>::empty());
    assert(all_command_records(all.take(0)) == Some(out.deep_view()));
    while i < items.len()
        invariant
            i <= items@.len(),
            all == items.deep_view(),
            all_command_records(all.take(i as int)) == Some(out.deep_view()),
        decreases items@.len() - i,
    {
        proof {
            lemma_take_next(all, i as int);
        }
        let item = read_command_record(&items[i]);
        match item {
            Some(v) => {
                push_command_record(&mut out, v);
            },
            None => {
                proof {
                    lemma_all_command_records_before(all, i + 1);
                }
                return None;
            },
        }
        i = i + 1;
    }
    proof {
        lemma_take_all(all);
    }
    Some(out)
}

/// The command records of a member; nothing where the member holds none.
pub open spec fn command_records_at(
    value: JsonModel,
    name: Seq<char>,
) -> Option<Seq<CommandRecordModel>> {
    match array_at(value, name) {
        Some(items) => all_command_records(items),
        None => None,
    }
}

/// Reads the command records of a member; nothing where the member holds none.
pub fn read_command_records_at(value: &Json, name: &str) -> (r: Option<Vec<CommandRecord>>)
    ensures
        r.deep_view() == command_records_at(value.deep_view(), name@),
{
    match read_array(value, name) {
        Some(items) => read_all_command_records(items),
        None => None,
    }
}

/// Whether a JSON document holds every field of a repro case.
pub open spec fn repro_case_readable(value: JsonModel) -> bool {
    &&& text_at(value, "command"@) is Some
    &&& optional_text_at(value, "input"@) is Some
    &&& optional_text_at(value, "path"@) is Some
}

/// The repro case whose fields a JSON object holds.
pub open spec fn repro_case_fields(value: JsonModel) -> Option<ReproCaseModel> {
    if repro_case_readable(value) {
        Some(
            ReproCaseModel {
                command: text_at(value, "command"@)->0,
                input: optional_text_at(value, "input"@)->0,
                path: optional_text_at(value, "path"@)->0,
            },
        )
    } else {
        None
    }
}

/// The repro case that a JSON document holds: an object, or the array of the fields in their
/// order.
pub open spec fn repro_case_in(value: JsonModel) -> Option<ReproCaseModel> {
    let names = seq![
        "command"@,
        "input"@,
        "path"@,
    ];
    repro_case_fields(as_record(value, names))
}

fn read_repro_case_fields(value: &Json) -> (r: Option<ReproCase>)
    ensures
        r.deep_view() == repro_case_fields(value.deep_view()),
{
    let command: String = match read_text(value, "command") {
        Some(v) => v,
        None => return None,
    };
    let input: Option<String> = match read_optional_text(value, "input") {
        Some(v) => v,
        None => return None,
    };
    let path: Option<String> = match read_optional_text(value, "path") {
        Some(v) => v,
        None => return None,
    };
    Some(
        ReproCase {
            command,
            input,
            path,
        },
    )
}

/// Reads a repro case; nothing where the value holds none.
pub fn read_repro_case(value: &Json) -> (r: Option<ReproCase>)
    ensures
        r.deep_view() == repro_case_in(value.deep_view()),
{
    let names = vec![
        "command",
        "input",
        "path",
    ];
    assert(names.deep_view() =~= seq![
        "command"@,
        "input"@,
        "path"@,
    ]);
    match named_fields(value, &names) {
        Some(record) => read_repro_case_fields(&record),
        None => read_repro_case_fields(value),
    }
}

/// The repro case of a member; nothing where the member holds none.
pub open spec fn repro_case_at(value: JsonModel, name: Seq<char>) -> Option<ReproCaseModel> {
    match field(value, name) {
        Some(v) => repro_case_in(v),
        None => None,
    }
}

/// Reads the repro case of a member; nothing where the member holds none.
pub fn read_repro_case_at(value: &Json, name: &str) -> (r: Option<ReproCase>)
    ensures
        r.deep_view() == repro_case_at(value.deep_view(), name@),
{
    match value.field(name) {
        Some(v) => read_repro_case(v),
        None => None,
    }
}

/// The optional repro case of a member; nothing where the member holds none.
pub open spec fn optional_repro_case_at(
    value: JsonModel,
    name: Seq<char>,
) -> Option<Option<ReproCaseModel>> {
    if absent(value, name) {
        Some(None)
    } else {
        match repro_case_at(value, name) {
            Some(v) => Some(Some(v)),
            None => None,
        }
    }
}

/// Reads the optional repro case of a member; nothing where the member holds none.
pub fn read_optional_repro_case_at(value: &Json, name: &str) -> (r: Option<Option<ReproCase>>)
    ensures
        r.deep_view() == optional_repro_case_at(value.deep_view(), name@),
{
    if is_absent(value, name) {
        Some(None)
    } else {
        match read_repro_case_at(value, name) {
            Some(v) => Some(Some(v)),
            None => None,
        }
    }
}

/// The severity of a finding that a JSON document holds: an error, where the
/// document states none.
pub open spec fn failure_severity_or_default(value: JsonModel) -> Option<FailureSeverity> {
    if repeated(value, "severity"@) {
        None
    } else {
        match member(value, "severity"@) {
            Some(_) => failure_severity_at(value, "severity"@),
            None => Some(FailureSeverity::Error),
        }
    }
}

fn read_failure_severity_given(value: &Json) -> (r: Option<FailureSeverity>)
    ensures
        r == failure_severity_or_default(value.deep_view()),
{
    if value.repeats("severity") {
        return None;
    }
    match value.get("severity") {
        Some(_) => read_failure_severity_at(value, "severity"),
        None => Some(default_failure_severity()),
    }
}

/// Whether a JSON document holds every field of a failure.
pub open spec fn failure_readable(value: JsonModel) -> bool {
    &&& optional_text_at(value, "id"@) is Some
    &&& text_at(value, "message"@) is Some
    &&& failure_severity_or_default(value) is Some
    &&& optional_text_at(value, "target_id"@) is Some
    &&& optional_text_at(value, "artifact_id"@) is Some
    &&& text_at(value, "command"@) is Some
    &&& text_at(value, "stdout_excerpt"@) is Some
    &&& text_at(value, "stderr_excerpt"@) is Some
    &&& optional_repro_case_at(value, "repro"@) is Some
}

/// The failure whose fields a JSON object holds.
pub open spec fn failure_fields(value: JsonModel) -> Option<FailureModel> {
    if failure_readable(value) {
        Some(
            FailureModel {
                id: optional_text_at(value, "id"@)->0,
                message: text_at(value, "message"@)->0,
                severity: failure_severity_or_default(value)->0,
                target_id: optional_text_at(value, "target_id"@)->0,
                artifact_id: optional_text_at(value, "artifact_id"@)->0,
                command: text_at(value, "command"@)->0,
                stdout_excerpt: text_at(value, "stdout_excerpt"@)->0,
                stderr_excerpt: text_at(value, "stderr_excerpt"@)->0,
                repro: optional_repro_case_at(value, "repro"@)->0,
            },
        )
    } else {
        None
    }
}

/// The failure that a JSON document holds: an object, or the array of the fields in their
/// order.
pub open spec fn failure_in(value: JsonModel) -> Option<FailureModel> {
    let names = seq![
        "id"@,
        "message"@,
        "severity"@,
        "target_id"@,
        "artifact_id"@,
        "command"@,
        "stdout_excerpt"@,
        "stderr_excerpt"@,
        "repro"@,
    ];
    failure_fields(as_record(value, names))
}

fn read_failure_fields(value: &Json) -> (r: Option<Failure>)
    ensures
        r.deep_view() == failure_fields(value.deep_view()),
{
    let id: Option<String> = match read_optional_text(value, "id") {
        Some(v) => v,
        None => return None,
    };
    let message: String = match read_text(value, "message") {
        Some(v) => v,
        None => return None,
    };
    let severity: FailureSeverity = match read_failure_severity_given(value) {
        Some(v) => v,
        None => return None,
    };
    let target_id: Option<String> = match read_optional_text(value, "target_id") {
        Some(v) => v,
        None => return None,
    };
    let artifact_id: Option<String> = match read_optional_text(value, "artifact_id") {
        Some(v) => v,
        None => return None,
    };
    let command: String = match read_text(value, "command") {
        Some(v) => v,
        None => return None,
    };
    let stdout_excerpt: String = match read_text(value, "stdout_excerpt") {
        Some(v) => v,
        None => return None,
    };
    let stderr_excerpt: String = match read_text(value, "stderr_excerpt") {
        Some(v) => v,
        None => return None,
    };
    let repro: Option<ReproCase> = match read_optional_repro_case_at(value, "repro") {
        Some(v) => v,
        None => return None,
    };
    Some(
        Failure {
            id,
            message,
            severity,
            target_id,
            artifact_id,
            command,
            stdout_excerpt,
            stderr_excerpt,
            repro,
        },
    )
}

/// Reads a failure; nothing where the value holds none.
pub fn read_failure(value: &Json) -> (r: Option<Failure>)
    ensures
        r.deep_view() == failure_in(value.deep_view()),
{
    let names = vec![
        "id",
        "message",
        "severity",
        "target_id",
        "artifact_id",
        "command",
        "stdout_excerpt",
        "stderr_excerpt",
        "repro",
    ];
    assert(names.deep_view() =~= seq![
        "id"@,
        "message"@,
        "severity"@,
        "target_id"@,
        "artifact_id"@,
        "command"@,
        "stdout_excerpt"@,
        "stderr_excerpt"@,
        "repro"@,
    ]);
    match named_fields(value, &names) {
        Some(record) => read_failure_fields(&record),
        None => read_failure_fields(value),
    }
}

/// The records of an array; nothing where an item is no such record.
pub open spec fn all_failures(items: Seq<JsonModel>) -> Option<Seq<FailureModel>>
    decreases items.len(),
{
    if items.len() == 0 {
        Some(Seq::empty())
    } else {
        match (all_failures(items.drop_last()), failure_in(items.last())) {
            (Some(before), Some(v)) => Some(before.push(v)),
            _ => None,
        }
    }
}

proof fn lemma_all_failures_before(items: Seq<JsonModel>, n: int)
    requires
        0 <= n <= items.len(),
        all_failures(items.take(n)) is None,
    ensures
        all_failures(items) is None,
    decreases items.len() - n,
{
    if n == items.len() {
        lemma_take_all(items);
    } else {
        lemma_take_next(items, n);
        lemma_all_failures_before(items, n + 1);
    }
}

/// Reads failures from JSON values; nothing where one of them holds none.
pub fn read_all_failures(items: &Vec<Json>) -> (r: Option<Vec<Failure>>)
    ensures
        r.deep_view() == all_failures(items.deep_view()),
{
    let mut out: Vec<Failure> = Vec::new();
    let ghost all = items.deep_view();
    let mut i: usize = 0;
    assert(out.deep_view() =~= Seq::<FailureModel>::empty());
    assert(all_failures(all.take(0)) == Some(out.deep_view()));
    while i < items.len()
        invariant
            i <= items@.len(),
            all == items.deep_view(),
            all_failures(all.take(i as int)) == Some(out.deep_view()),
        decreases items@.len() - i,
    {
        proof {
            lemma_take_next(all, i as int);
        }
        let item = read_failure(&items[i]);
        match item {
            Some(v) => {
                push_failure(&mut out, v);
            },
            None => {
                proof {
                    lemma_all_failures_before(all, i + 1);
                }
                return None;
            },
        }
        i = i + 1;
    }
    proof {
        lemma_take_all(all);
    }
    Some(out)
}

/// The failures of a member; nothing where the member holds none.
pub open spec fn failures_at(value: JsonModel, name: Seq<char>) -> Option<Seq<FailureModel>> {
    match array_at(value, name) {
        Some(items) => all_failures(items),
        None => None,
    }
}

/// Reads the failures of a member; nothing where the member holds none.
pub fn read_failures_at(value: &Json, name: &str) -> (r: Option<Vec<Failure>>)
    ensures
        r.deep_view() == failures_at(value.deep_view(), name@),
{
    match read_array(value, name) {
        Some(items) => read_all_failures(items),
        None => None,
    }
}

/// Whether a JSON document holds every field of a coverage file.
pub open spec fn coverage_file_readable(value: JsonModel) -> bool {
    &&& text_at(value, "path"@) is Some
    &&& optional_u8_at(value, "line_coverage_percent"@) is Some
    &&& texts_at(value, "uncovered_ranges"@) is Some
}

/// The coverage file whose fields a JSON object holds.
pub open spec fn coverage_file_fields(value: JsonModel) -> Option<CoverageFileModel> {
    if coverage_file_readable(value) {
        Some(
            CoverageFileModel {
                path: text_at(value, "path"@)->0,
                line_coverage_percent: optional_u8_at(value, "line_coverage_percent"@)->0,
                uncovered_ranges: texts_at(value, "uncovered_ranges"@)->0,
            },
        )
    } else {
        None
    }
}

/// The coverage file that a JSON document holds: an object, or the array of the fields in their
/// order.
pub open spec fn coverage_file_in(value: JsonModel) -> Option<CoverageFileModel> {
    let names = seq![
        "path"@,
        "line_coverage_percent"@,
        "uncovered_ranges"@,
    ];
    coverage_file_fields(as_record(value, names))
}

fn read_coverage_file_fields(value: &Json) -> (r: Option<CoverageFile>)
    ensures
        r.deep_view() == coverage_file_fields(value.deep_view()),
{
    let path: String = match read_text(value, "path") {
        Some(v) => v,
        None => return None,
    };
    let line_coverage_percent: Option<u8> = match read_optional_u8_at(value, "line_coverage_percent") {
        Some(v) => v,
        None => return None,
    };
    let uncovered_ranges: Vec<String> = match read_texts(value, "uncovered_ranges") {
        Some(v) => v,
        None => return None,
    };
    Some(
        CoverageFile {
            path,
            line_coverage_percent,
            uncovered_ranges,
        },
    )
}

/// Reads a coverage file; nothing where the value holds none.
pub fn read_coverage_file(value: &Json) -> (r: Option<CoverageFile>)
    ensures
        r.deep_view() == coverage_file_in(value.deep_view()),
{
    let names = vec![
        "path",
        "line_coverage_percent",
        "uncovered_ranges",
    ];
    assert(names.deep_view() =~= seq![
        "path"@,
        "line_coverage_percent"@,
        "uncovered_ranges"@,
    ]);
    match named_fields(value, &names) {
        Some(record) => read_coverage_file_fields(&record),
        None => read_coverage_file_fields(value),
    }
}

/// The records of an array; nothing where an item is no such record.
pub open spec fn all_coverage_files(items: Seq<JsonModel>) -> Option<Seq<CoverageFileModel>>
    decreases items.len(),
{
    if items.len() == 0 {
        Some(Seq::empty())
    } else {
        match (all_coverage_files(items.drop_last()), coverage_file_in(items.last())) {
            (Some(before), Some(v)) => Some(before.push(v)),
            _ => None,
        }
    }
}

proof fn lemma_all_coverage_files_before(items: Seq<JsonModel>, n: int)
    requires
        0 <= n <= items.len(),
        all_coverage_files(items.take(n)) is None,
    ensures
        all_coverage_files(items) is None,
    decreases items.len() - n,
{
    if n == items.len() {
        lemma_take_all(items);
    } else {
        lemma_take_next(items, n);
        lemma_all_coverage_files_before(items, n + 1);
    }
}

/// Reads coverage files from JSON values; nothing where one of them holds none.
pub fn read_all_coverage_files(items: &Vec<Json>) -> (r: Option<Vec<CoverageFile>>)
    ensures
        r.deep_view() == all_coverage_files(items.deep_view()),
{
    let mut out: Vec<CoverageFile> = Vec::new();
    let ghost all = items.deep_view();
    let mut i: usize = 0;
    assert(out.deep_view() =~= Seq::<CoverageFileModel>::empty());
    assert(all_coverage_files(all.take(0)) == Some(out.deep_view()));
    while i < items.len()
        invariant
            i <= items@.len(),
            all == items.deep_view(),
            all_coverage_files(all.take(i as int)) == Some(out.deep_view()),
        decreases items@.len() - i,
    {
        proof {
            lemma_take_next(all, i as int);
        }
        let item = read_coverage_file(&items[i]);
        match item {
            Some(v) => {
                push_coverage_file(&mut out, v);
            },
            None => {
                proof {
                    lemma_all_coverage_files_before(all, i + 1);
                }
                return None;
            },
        }
        i = i + 1;
    }
    proof {
        lemma_take_all(all);
    }
    Some(out)
}

/// The coverage files of a member; nothing where the member holds none.
pub open spec fn coverage_files_at(
    value: JsonModel,
    name: Seq<char>,
) -> Option<Seq<CoverageFileModel>> {
    match array_at(value, name) {
        Some(items) => all_coverage_files(items),
        None => None,
    }
}

/// Reads the coverage files of a member; nothing where the member holds none.
pub fn read_coverage_files_at(value: &Json, name: &str) -> (r: Option<Vec<CoverageFile>>)
    ensures
        r.deep_view() == coverage_files_at(value.deep_view(), name@),
{
    match read_array(value, name) {
        Some(items) => read_all_coverage_files(items),
        None => None,
    }
}

/// Whether a JSON document holds every field of a coverage report.
pub open spec fn coverage_report_readable(value: JsonModel) -> bool {
    &&& text_at(value, "tool"@) is Some
    &&& text_at(value, "summary"@) is Some
    &&& coverage_files_at(value, "files"@) is Some
}

/// The coverage report whose fields a JSON object holds.
pub open spec fn coverage_report_fields(value: JsonModel) -> Option<CoverageReportModel> {
    if coverage_report_readable(value) {
        Some(
            CoverageReportModel {
                tool: text_at(value, "tool"@)->0,
                summary: text_at(value, "summary"@)->0,
                files: coverage_files_at(value, "files"@)->0,
            },
        )
    } else {
        None
    }
}

/// The coverage report that a JSON document holds: an object, or the array of the fields in their
/// order.
pub open spec fn coverage_report_in(value: JsonModel) -> Option<CoverageReportModel> {
    let names = seq![
        "tool"@,
        "summary"@,
        "files"@,
    ];
    coverage_report_fields(as_record(value, names))
}

fn read_coverage_report_fields(value: &Json) -> (r: Option<CoverageReport>)
    ensures
        r.deep_view() == coverage_report_fields(value.deep_view()),
{
    let tool: String = match read_text(value, "tool") {
        Some(v) => v,
        None => return None,
    };
    let summary: String = match read_text(value, "summary") {
        Some(v) => v,
        None => return None,
    };
    let files: Vec<CoverageFile> = match read_coverage_files_at(value, "files") {
        Some(v) => v,
        None => return None,
    };
    Some(
        CoverageReport {
            tool,
            summary,
            files,
        },
    )
}

/// Reads a coverage report; nothing where the value holds none.
pub fn read_coverage_report(value: &Json) -> (r: Option<CoverageReport>)
    ensures
        r.deep_view() == coverage_report_in(value.deep_view()),
{
    let names = vec![
        "tool",
        "summary",
        "files",
    ];
    assert(names.deep_view() =~= seq![
        "tool"@,
        "summary"@,
        "files"@,
    ]);
    match named_fields(value, &names) {
        Some(record) => read_coverage_report_fields(&record),
        None => read_coverage_report_fields(value),
    }
}

/// The records of an array; nothing where an item is no such record.
pub open spec fn all_coverage_reports(items: Seq<JsonModel>) -> Option<Seq<CoverageReportModel>>
    decreases items.len(),
{
    if items.len() == 0 {
        Some(Seq::empty())
    } else {
        match (all_coverage_reports(items.drop_last()), coverage_report_in(items.last())) {
            (Some(before), Some(v)) => Some(before.push(v)),
            _ => None,
        }
    }
}

proof fn lemma_all_coverage_reports_before(items: Seq<JsonModel>, n: int)
    requires
        0 <= n <= items.len(),
        all_coverage_reports(items.take(n)) is None,
    ensures
        all_coverage_reports(items) is None,
    decreases items.len() - n,
{
    if n == items.len() {
        lemma_take_all(items);
    } else {
        lemma_take_next(items, n);
        lemma_all_coverage_reports_before(items, n + 1);
    }
}

/// Reads coverage reports from JSON values; nothing where one of them holds none.
pub fn read_all_coverage_reports(items: &Vec<Json>) -> (r: Option<Vec<CoverageReport>>)
    ensures
        r.deep_view() == all_coverage_reports(items.deep_view()),
{
    let mut out: Vec<CoverageReport> = Vec::new();
    let ghost all = items.deep_view();
    let mut i: usize = 0;
    assert(out.deep_view() =~= Seq::<CoverageReportModel>::empty());
    assert(all_coverage_reports(all.take(0)) == Some(out.deep_view()));
    while i < items.len()
        invariant
            i <= items@.len(),
            all == items.deep_view(),
            all_coverage_reports(all.take(i as int)) == Some(out.deep_view()),
        decreases items@.len() - i,
    {
        proof {
            lemma_take_next(all, i as int);
        }
        let item = read_coverage_report(&items[i]);
        match item {
            Some(v) => {
                push_coverage_report(&mut out, v);
            },
            None => {
                proof {
                    lemma_all_coverage_reports_before(all, i + 1);
                }
                return None;
            },
        }
        i = i + 1;
    }
    proof {
        lemma_take_all(all);
    }
    Some(out)
}

/// The coverage reports of a member; nothing where the member holds none.
pub open spec fn coverage_reports_at(
    value: JsonModel,
    name: Seq<char>,
) -> Option<Seq<CoverageReportModel>> {
    match array_at(value, name) {
        Some(items) => all_coverage_reports(items),
        None => None,
    }
}

/// Reads the coverage reports of a member; nothing where the member holds none.
pub fn read_coverage_reports_at(value: &Json, name: &str) -> (r: Option<Vec<CoverageReport>>)
    ensures
        r.deep_view() == coverage_reports_at(value.deep_view(), name@),
{
    match read_array(value, name) {
        Some(items) => read_all_coverage_reports(items),
        None => None,
    }
}

/// Whether a JSON document holds every field of a mutation attribution.
pub open spec fn mutation_attribution_readable(value: JsonModel) -> bool {
    &&& unsigned_at(value, "generated"@, usize::MAX as int) is Some
    &&& unsigned_at(value, "runnable"@, usize::MAX as int) is Some
    &&& unsigned_at(value, "executed"@, usize::MAX as int) is Some
    &&& unsigned_at(value, "killed"@, usize::MAX as int) is Some
    &&& unsigned_at(value, "survived"@, usize::MAX as int) is Some
    &&& unsigned_at(value, "not_covered"@, usize::MAX as int) is Some
    &&& unsigned_at(value, "timed_out"@, usize::MAX as int) is Some
    &&& unsigned_at(value, "not_viable"@, usize::MAX as int) is Some
    &&& unsigned_at(value, "skipped"@, usize::MAX as int) is Some
}

/// The mutation attribution that a JSON document holds.
pub open spec fn mutation_attribution_in(value: JsonModel) -> Option<MutationAttribution> {
    if mutation_attribution_readable(value) {
        Some(
            MutationAttribution {
                generated: (unsigned_at(value, "generated"@, usize::MAX as int)->0) as usize,
                runnable: (unsigned_at(value, "runnable"@, usize::MAX as int)->0) as usize,
                executed: (unsigned_at(value, "executed"@, usize::MAX as int)->0) as usize,
                killed: (unsigned_at(value, "killed"@, usize::MAX as int)->0) as usize,
                survived: (unsigned_at(value, "survived"@, usize::MAX as int)->0) as usize,
                not_covered: (unsigned_at(value, "not_covered"@, usize::MAX as int)->0) as usize,
                timed_out: (unsigned_at(value, "timed_out"@, usize::MAX as int)->0) as usize,
                not_viable: (unsigned_at(value, "not_viable"@, usize::MAX as int)->0) as usize,
                skipped: (unsigned_at(value, "skipped"@, usize::MAX as int)->0) as usize,
            },
        )
    } else {
        None
    }
}

/// Reads a mutation attribution; nothing where the value holds none.
pub fn read_mutation_attribution(value: &Json) -> (r: Option<MutationAttribution>)
    ensures
        r == mutation_attribution_in(value.deep_view()),
{
    let generated: usize = match read_unsigned(value, "generated", usize::MAX as u64) {
        Some(v) => v as usize,
        None => return None,
    };
    let runnable: usize = match read_unsigned(value, "runnable", usize::MAX as u64) {
        Some(v) => v as usize,
        None => return None,
    };
    let executed: usize = match read_unsigned(value, "executed", usize::MAX as u64) {
        Some(v) => v as usize,
        None => return None,
    };
    let killed: usize = match read_unsigned(value, "killed", usize::MAX as u64) {
        Some(v) => v as usize,
        None => return None,
    };
    let survived: usize = match read_unsigned(value, "survived", usize::MAX as u64) {
        Some(v) => v as usize,
        None => return None,
    };
    let not_covered: usize = match read_unsigned(value, "not_covered", usize::MAX as u64) {
        Some(v) => v as usize,
        None => return None,
    };
    let timed_out: usize = match read_unsigned(value, "timed_out", usize::MAX as u64) {
        Some(v) => v as usize,
        None => return None,
    };
    let not_viable: usize = match read_unsigned(value, "not_viable", usize::MAX as u64) {
        Some(v) => v as usize,
        None => return None,
    };
    let skipped: usize = match read_unsigned(value, "skipped", usize::MAX as u64) {
        Some(v) => v as usize,
        None => return None,
    };
    Some(
        MutationAttribution {
            generated,
            runnable,
            executed,
            killed,
            survived,
            not_covered,
            timed_out,
            not_viable,
            skipped,
        },
    )
}

/// The names of the members of an object.
pub open spec fn member_names(value: JsonModel) -> Seq<Seq<char>> {
    match value {
        JsonModel::Object(members) => members.map_values(|m: (Seq<char>, JsonModel)| m.0),
        _ => Seq::empty(),
    }
}

/// The counts under each of these labels; nothing where one of them has none.
pub open spec fn attribution_counts(value: JsonModel, labels: Seq<Seq<char>>) -> Option<
    Seq<AttributionEntryModel>,
>
    decreases labels.len(),
{
    if labels.len() == 0 {
        Some(Seq::empty())
    } else {
        match (
            attribution_counts(value, labels.drop_last()),
            mutation_attribution_at(value, labels.last()),
        ) {
            (Some(before), Some(counts)) => Some(
                before.push(AttributionEntryModel { label: labels.last(), counts }),
            ),
            _ => None,
        }
    }
}

proof fn lemma_attribution_counts_before(value: JsonModel, labels: Seq<Seq<char>>, n: int)
    requires
        0 <= n <= labels.len(),
        attribution_counts(value, labels.take(n)) is None,
    ensures
        attribution_counts(value, labels) is None,
    decreases labels.len() - n,
{
    if n == labels.len() {
        lemma_take_all(labels);
    } else {
        lemma_take_next(labels, n);
        lemma_attribution_counts_before(value, labels, n + 1);
    }
}

/// Whether every member of an object holds counts, those whose name is there again too.
pub open spec fn all_counts(members: Seq<(Seq<char>, JsonModel)>) -> bool {
    forall|i: int|
        0 <= i < members.len() ==> mutation_attribution_in((#[trigger] members[i]).1) is Some
}

fn check_all_counts(members: &Vec<(String, Json)>) -> (r: bool)
    ensures
        r == all_counts(json_model(Json::Object(*members))->Object_0),
{
    proof {
        lemma_object_model(*members);
    }
    let ghost all = json_model(Json::Object(*members))->Object_0;
    let mut i: usize = 0;
    while i < members.len()
        invariant
            i <= members@.len(),
            all == json_model(Json::Object(*members))->Object_0,
            all.len() == members@.len(),
            forall|k: int|
                0 <= k < all.len() ==> (#[trigger] all[k]).1 == members@[k].1.deep_view(),
            forall|k: int| 0 <= k < i ==> mutation_attribution_in((#[trigger] all[k]).1) is Some,
        decreases members@.len() - i,
    {
        assert(all[i as int].1 == members@[i as int].1.deep_view());
        if read_mutation_attribution(&members[i].1).is_none() {
            return false;
        }
        i = i + 1;
    }
    true
}

/// The counts of each label of the object under a name, ascending by label.
pub open spec fn attribution_at(value: JsonModel, name: Seq<char>) -> Option<
    Seq<AttributionEntryModel>,
> {
    match field(value, name) {
        Some(v) => if v is Object && all_counts(v->Object_0) {
            attribution_counts(v, sorted_set::<ByText>(member_names(v)))
        } else {
            None
        },
        None => None,
    }
}

fn read_attribution(value: &Json) -> (r: Option<Vec<AttributionEntry>>)
    requires
        value is Object,
    ensures
        r.deep_view() == attribution_counts(
            value.deep_view(),
            sorted_set::<ByText>(member_names(value.deep_view())),
        ),
{
    let labels = to_sorted_set::<ByText>(&value.names());
    let ghost all = labels.deep_view();
    let ghost model = value.deep_view();
    let mut out: Vec<AttributionEntry> = Vec::new();
    let mut i: usize = 0;
    assert(out.deep_view() =~= Seq::<AttributionEntryModel>::empty());
    assert(attribution_counts(model, all.take(0)) == Some(out.deep_view()));
    while i < labels.len()
        invariant
            i <= labels@.len(),
            all == labels.deep_view(),
            model == value.deep_view(),
            all == sorted_set::<ByText>(member_names(model)),
            attribution_counts(model, all.take(i as int)) == Some(out.deep_view()),
        decreases labels@.len() - i,
    {
        proof {
            lemma_take_next(all, i as int);
        }
        match read_mutation_attribution_at(value, labels[i].as_str()) {
            Some(counts) => {
                push_attribution_entry(
                    &mut out,
                    AttributionEntry { label: labels[i].clone(), counts },
                );
            },
            None => {
                proof {
                    lemma_attribution_counts_before(model, all, i + 1);
                }
                return None;
            },
        }
        i = i + 1;
    }
    proof {
        lemma_take_all(all);
    }
    Some(out)
}

/// Reads the attribution of a member; nothing where the member holds none.
pub fn read_attribution_at(value: &Json, name: &str) -> (r: Option<Vec<AttributionEntry>>)
    ensures
        r.deep_view() == attribution_at(value.deep_view(), name@),
{
    match value.field(name) {
        Some(v) => match v {
            Json::Object(members) => if check_all_counts(members) {
                read_attribution(v)
            } else {
                None
            },
            _ => None,
        },
        None => None,
    }
}

/// The mutation attribution of a member; nothing where the member holds none.
pub open spec fn mutation_attribution_at(
    value: JsonModel,
    name: Seq<char>,
) -> Option<MutationAttribution> {
    match member(value, name) {
        Some(v) => mutation_attribution_in(v),
        None => None,
    }
}

/// Reads the mutation attribution of a member; nothing where the member holds none.
pub fn read_mutation_attribution_at(value: &Json, name: &str) -> (r: Option<MutationAttribution>)
    ensures
        r == mutation_attribution_at(value.deep_view(), name@),
{
    match value.get(name) {
        Some(v) => read_mutation_attribution(v),
        None => None,
    }
}

/// Whether a JSON document holds every field of a mutation record.
pub open spec fn mutation_record_readable(value: JsonModel) -> bool {
    &&& text_at(value, "id"@) is Some
    &&& text_at(value, "language"@) is Some
    &&& text_at(value, "path"@) is Some
    &&& text_at(value, "symbol"@) is Some
    &&& text_at(value, "operator"@) is Some
    &&& text_at(value, "domain"@) is Some
    &&& mutation_status_at(value, "status"@) is Some
    &&& optional_text_at(value, "from"@) is Some
    &&& optional_text_at(value, "to"@) is Some
    &&& optional_line_range_at(value, "line_range"@) is Some
    &&& optional_line_range_at(value, "source_span"@) is Some
    &&& optional_text_at(value, "diff"@) is Some
    &&& optional_text_at(value, "risk_note"@) is Some
    &&& optional_text_at(value, "suggested_test"@) is Some
    &&& optional_text_at(value, "skip_reason"@) is Some
    &&& optional_text_at(value, "selected_test_command"@) is Some
    &&& optional_text_at(value, "test_selection_hint"@) is Some
    &&& optional_text_at(value, "test_selection_fallback"@) is Some
    &&& flag_at(value, "brittleness_probe"@) is Some
    &&& optional_text_at(value, "command"@) is Some
    &&& unsigned_at(value, "duration_ms"@, u128::MAX as int) is Some
    &&& optional_text_at(value, "diff_path"@) is Some
    &&& optional_text_at(value, "outcome_path"@) is Some
    &&& optional_text_at(value, "command_log_path"@) is Some
    &&& optional_text_at(value, "stdout_log_path"@) is Some
    &&& optional_text_at(value, "stderr_log_path"@) is Some
}

/// The mutation record that a JSON document holds.
pub open spec fn mutation_record_in(value: JsonModel) -> Option<MutationRecordModel> {
    if mutation_record_readable(value) {
        Some(
            MutationRecordModel {
                id: text_at(value, "id"@)->0,
                language: text_at(value, "language"@)->0,
                path: text_at(value, "path"@)->0,
                symbol: text_at(value, "symbol"@)->0,
                operator: text_at(value, "operator"@)->0,
                domain: text_at(value, "domain"@)->0,
                status: mutation_status_at(value, "status"@)->0,
                from: optional_text_at(value, "from"@)->0,
                to: optional_text_at(value, "to"@)->0,
                line_range: optional_line_range_at(value, "line_range"@)->0,
                source_span: optional_line_range_at(value, "source_span"@)->0,
                diff: optional_text_at(value, "diff"@)->0,
                risk_note: optional_text_at(value, "risk_note"@)->0,
                suggested_test: optional_text_at(value, "suggested_test"@)->0,
                skip_reason: optional_text_at(value, "skip_reason"@)->0,
                selected_test_command: optional_text_at(value, "selected_test_command"@)->0,
                test_selection_hint: optional_text_at(value, "test_selection_hint"@)->0,
                test_selection_fallback: optional_text_at(value, "test_selection_fallback"@)->0,
                brittleness_probe: flag_at(value, "brittleness_probe"@)->0,
                command: optional_text_at(value, "command"@)->0,
                duration_ms: (unsigned_at(value, "duration_ms"@, u128::MAX as int)->0) as u128,
                diff_path: optional_text_at(value, "diff_path"@)->0,
                outcome_path: optional_text_at(value, "outcome_path"@)->0,
                command_log_path: optional_text_at(value, "command_log_path"@)->0,
                stdout_log_path: optional_text_at(value, "stdout_log_path"@)->0,
                stderr_log_path: optional_text_at(value, "stderr_log_path"@)->0,
            },
        )
    } else {
        None
    }
}

/// Reads a mutation record; nothing where the value holds none.
pub fn read_mutation_record(value: &Json) -> (r: Option<MutationRecord>)
    ensures
        r.deep_view() == mutation_record_in(value.deep_view()),
{
    let id: String = match read_text(value, "id") {
        Some(v) => v,
        None => return None,
    };
    let language: String = match read_text(value, "language") {
        Some(v) => v,
        None => return None,
    };
    let path: String = match read_text(value, "path") {
        Some(v) => v,
        None => return None,
    };
    let symbol: String = match read_text(value, "symbol") {
        Some(v) => v,
        None => return None,
    };
    let operator: String = match read_text(value, "operator") {
        Some(v) => v,
        None => return None,
    };
    let domain: String = match read_text(value, "domain") {
        Some(v) => v,
        None => return None,
    };
    let status: MutationStatus = match read_mutation_status_at(value, "status") {
        Some(v) => v,
        None => return None,
    };
    let from: Option<String> = match read_optional_text(value, "from") {
        Some(v) => v,
        None => return None,
    };
    let to: Option<String> = match read_optional_text(value, "to") {
        Some(v) => v,
        None => return None,
    };
    let line_range: Option<LineRange> = match read_optional_line_range_at(value, "line_range") {
        Some(v) => v,
        None => return None,
    };
    let source_span: Option<LineRange> = match read_optional_line_range_at(value, "source_span") {
        Some(v) => v,
        None => return None,
    };
    let diff: Option<String> = match read_optional_text(value, "diff") {
        Some(v) => v,
        None => return None,
    };
    let risk_note: Option<String> = match read_optional_text(value, "risk_note") {
        Some(v) => v,
        None => return None,
    };
    let suggested_test: Option<String> = match read_optional_text(value, "suggested_test") {
        Some(v) => v,
        None => return None,
    };
    let skip_reason: Option<String> = match read_optional_text(value, "skip_reason") {
        Some(v) => v,
        None => return None,
    };
    let selected_test_command: Option<String> = match read_optional_text(value, "selected_test_command") {
        Some(v) => v,
        None => return None,
    };
    let test_selection_hint: Option<String> = match read_optional_text(value, "test_selection_hint") {
        Some(v) => v,
        None => return None,
    };
    let test_selection_fallback: Option<String> = match read_optional_text(value, "test_selection_fallback") {
        Some(v) => v,
        None => return None,
    };
    let brittleness_probe: bool = match read_flag(value, "brittleness_probe") {
        Some(v) => v,
        None => return None,
    };
    let command: Option<String> = match read_optional_text(value, "command") {
        Some(v) => v,
        None => return None,
    };
    let duration_ms: u128 = match read_whole(value, "duration_ms") {
        Some(v) => v,
        None => return None,
    };
    let diff_path: Option<String> = match read_optional_text(value, "diff_path") {
        Some(v) => v,
        None => return None,
    };
    let outcome_path: Option<String> = match read_optional_text(value, "outcome_path") {
        Some(v) => v,
        None => return None,
    };
    let command_log_path: Option<String> = match read_optional_text(value, "command_log_path") {
        Some(v) => v,
        None => return None,
    };
    let stdout_log_path: Option<String> = match read_optional_text(value, "stdout_log_path") {
        Some(v) => v,
        None => return None,
    };
    let stderr_log_path: Option<String> = match read_optional_text(value, "stderr_log_path") {
        Some(v) => v,
        None => return None,
    };
    Some(
        MutationRecord {
            id,
            language,
            path,
            symbol,
            operator,
            domain,
            status,
            from,
            to,
            line_range,
            source_span,
            diff,
            risk_note,
            suggested_test,
            skip_reason,
            selected_test_command,
            test_selection_hint,
            test_selection_fallback,
            brittleness_probe,
            command,
            duration_ms,
            diff_path,
            outcome_path,
            command_log_path,
            stdout_log_path,
            stderr_log_path,
        },
    )
}

/// The records of an array; nothing where an item is no such record.
pub open spec fn all_mutation_records(items: Seq<JsonModel>) -> Option<Seq<MutationRecordModel>>
    decreases items.len(),
{
    if items.len() == 0 {
        Some(Seq::empty())
    } else {
        match (all_mutation_records(items.drop_last()), mutation_record_in(items.last())) {
            (Some(before), Some(v)) => Some(before.push(v)),
            _ => None,
        }
    }
}

proof fn lemma_all_mutation_records_before(items: Seq<JsonModel>, n: int)
    requires
        0 <= n <= items.len(),
        all_mutation_records(items.take(n)) is None,
    ensures
        all_mutation_records(items) is None,
    decreases items.len() - n,
{
    if n == items.len() {
        lemma_take_all(items);
    } else {
        lemma_take_next(items, n);
        lemma_all_mutation_records_before(items, n + 1);
    }
}

/// Reads mutation records from JSON values; nothing where one of them holds none.
pub fn read_all_mutation_records(items: &Vec<Json>) -> (r: Option<Vec<MutationRecord>>)
    ensures
        r.deep_view() == all_mutation_records(items.deep_view()),
{
    let mut out: Vec<MutationRecord> = Vec::new();
    let ghost all = items.deep_view();
    let mut i: usize = 0;
    assert(out.deep_view() =~= Seq::<MutationRecordModel>::empty());
    assert(all_mutation_records(all.take(0)) == Some(out.deep_view()));
    while i < items.len()
        invariant
            i <= items@.len(),
            all == items.deep_view(),
            all_mutation_records(all.take(i as int)) == Some(out.deep_view()),
        decreases items@.len() - i,
    {
        proof {
            lemma_take_next(all, i as int);
        }
        let item = read_mutation_record(&items[i]);
        match item {
            Some(v) => {
                push_mutation_record(&mut out, v);
            },
            None => {
                proof {
                    lemma_all_mutation_records_before(all, i + 1);
                }
                return None;
            },
        }
        i = i + 1;
    }
    proof {
        lemma_take_all(all);
    }
    Some(out)
}

/// The mutation records of a member; nothing where the member holds none.
pub open spec fn mutation_records_at(
    value: JsonModel,
    name: Seq<char>,
) -> Option<Seq<MutationRecordModel>> {
    match array_at(value, name) {
        Some(items) => all_mutation_records(items),
        None => None,
    }
}

/// Reads the mutation records of a member; nothing where the member holds none.
pub fn read_mutation_records_at(value: &Json, name: &str) -> (r: Option<Vec<MutationRecord>>)
    ensures
        r.deep_view() == mutation_records_at(value.deep_view(), name@),
{
    match read_array(value, name) {
        Some(items) => read_all_mutation_records(items),
        None => None,
    }
}

/// Whether a JSON document holds every field of a mutation metrics.
pub open spec fn mutation_metrics_readable(value: JsonModel) -> bool {
    &&& unsigned_at(value, "generated"@, usize::MAX as int) is Some
    &&& unsigned_at(value, "runnable"@, usize::MAX as int) is Some
    &&& unsigned_at(value, "executed"@, usize::MAX as int) is Some
    &&& unsigned_at(value, "killed"@, usize::MAX as int) is Some
    &&& unsigned_at(value, "survived"@, usize::MAX as int) is Some
    &&& unsigned_at(value, "not_covered"@, usize::MAX as int) is Some
    &&& unsigned_at(value, "timed_out"@, usize::MAX as int) is Some
    &&& unsigned_at(value, "not_viable"@, usize::MAX as int) is Some
    &&& unsigned_at(value, "skipped"@, usize::MAX as int) is Some
    &&& unsigned_at(value, "requested_workers"@, usize::MAX as int) is Some
    &&& unsigned_at(value, "effective_workers"@, usize::MAX as int) is Some
    &&& unsigned_at(value, "isolation_failures"@, usize::MAX as int) is Some
    &&& unsigned_at(value, "isolation_setup_ms"@, u128::MAX as int) is Some
    &&& unsigned_at(value, "isolation_copy_ms"@, u128::MAX as int) is Some
    &&& unsigned_at(value, "isolation_excluded_path_count"@, usize::MAX as int) is Some
    &&& mutation_records_at(value, "records"@) is Some
    &&& attribution_at(value, "by_domain"@) is Some
    &&& attribution_at(value, "by_operator"@) is Some
    &&& optional_u8_at(value, "score_percent"@) is Some
    &&& optional_u8_at(value, "efficacy_percent"@) is Some
    &&& optional_u8_at(value, "mutant_coverage_percent"@) is Some
    &&& unsigned_at(value, "correctness_executed"@, usize::MAX as int) is Some
    &&& unsigned_at(value, "correctness_survived"@, usize::MAX as int) is Some
    &&& unsigned_at(value, "brittleness_executed"@, usize::MAX as int) is Some
    &&& unsigned_at(value, "brittleness_killed"@, usize::MAX as int) is Some
    &&& optional_u8_at(value, "correctness_score_percent"@) is Some
    &&& optional_u8_at(value, "brittleness_survival_percent"@) is Some
    &&& optional_u64_at(value, "baseline_duration_ms"@) is Some
    &&& optional_u64_at(value, "computed_timeout_seconds"@) is Some
    &&& optional_text_at(value, "timeout_source"@) is Some
}

/// The mutation metrics that a JSON document holds.
pub open spec fn mutation_metrics_in(value: JsonModel) -> Option<MutationMetricsModel> {
    if mutation_metrics_readable(value) {
        Some(
            MutationMetricsModel {
                generated: (unsigned_at(value, "generated"@, usize::MAX as int)->0) as usize,
                runnable: (unsigned_at(value, "runnable"@, usize::MAX as int)->0) as usize,
                executed: (unsigned_at(value, "executed"@, usize::MAX as int)->0) as usize,
                killed: (unsigned_at(value, "killed"@, usize::MAX as int)->0) as usize,
                survived: (unsigned_at(value, "survived"@, usize::MAX as int)->0) as usize,
                not_covered: (unsigned_at(value, "not_covered"@, usize::MAX as int)->0) as usize,
                timed_out: (unsigned_at(value, "timed_out"@, usize::MAX as int)->0) as usize,
                not_viable: (unsigned_at(value, "not_viable"@, usize::MAX as int)->0) as usize,
                skipped: (unsigned_at(value, "skipped"@, usize::MAX as int)->0) as usize,
                requested_workers: (unsigned_at(value, "requested_workers"@, usize::MAX as int)->0) as usize,
                effective_workers: (unsigned_at(value, "effective_workers"@, usize::MAX as int)->0) as usize,
                isolation_failures: (unsigned_at(value, "isolation_failures"@, usize::MAX as int)->0) as usize,
                isolation_setup_ms: (unsigned_at(value, "isolation_setup_ms"@, u128::MAX as int)->0) as u128,
                isolation_copy_ms: (unsigned_at(value, "isolation_copy_ms"@, u128::MAX as int)->0) as u128,
                isolation_excluded_path_count: (unsigned_at(value, "isolation_excluded_path_count"@, usize::MAX as int)->0) as usize,
                records: mutation_records_at(value, "records"@)->0,
                by_domain: attribution_at(value, "by_domain"@)->0,
                by_operator: attribution_at(value, "by_operator"@)->0,
                score_percent: optional_u8_at(value, "score_percent"@)->0,
                efficacy_percent: optional_u8_at(value, "efficacy_percent"@)->0,
                mutant_coverage_percent: optional_u8_at(value, "mutant_coverage_percent"@)->0,
                correctness_executed: (unsigned_at(value, "correctness_executed"@, usize::MAX as int)->0) as usize,
                correctness_survived: (unsigned_at(value, "correctness_survived"@, usize::MAX as int)->0) as usize,
                brittleness_executed: (unsigned_at(value, "brittleness_executed"@, usize::MAX as int)->0) as usize,
                brittleness_killed: (unsigned_at(value, "brittleness_killed"@, usize::MAX as int)->0) as usize,
                correctness_score_percent: optional_u8_at(value, "correctness_score_percent"@)->0,
                brittleness_survival_percent: optional_u8_at(value, "brittleness_survival_percent"@)->0,
                baseline_duration_ms: optional_u64_at(value, "baseline_duration_ms"@)->0,
                computed_timeout_seconds: optional_u64_at(value, "computed_timeout_seconds"@)->0,
                timeout_source: optional_text_at(value, "timeout_source"@)->0,
            },
        )
    } else {
        None
    }
}

/// Reads a mutation metrics; nothing where the value holds none.
pub fn read_mutation_metrics(value: &Json) -> (r: Option<MutationMetrics>)
    ensures
        r.deep_view() == mutation_metrics_in(value.deep_view()),
{
    let generated: usize = match read_unsigned(value, "generated", usize::MAX as u64) {
        Some(v) => v as usize,
        None => return None,
    };
    let runnable: usize = match read_unsigned(value, "runnable", usize::MAX as u64) {
        Some(v) => v as usize,
        None => return None,
    };
    let executed: usize = match read_unsigned(value, "executed", usize::MAX as u64) {
        Some(v) => v as usize,
        None => return None,
    };
    let killed: usize = match read_unsigned(value, "killed", usize::MAX as u64) {
        Some(v) => v as usize,
        None => return None,
    };
    let survived: usize = match read_unsigned(value, "survived", usize::MAX as u64) {
        Some(v) => v as usize,
        None => return None,
    };
    let not_covered: usize = match read_unsigned(value, "not_covered", usize::MAX as u64) {
        Some(v) => v as usize,
        None => return None,
    };
    let timed_out: usize = match read_unsigned(value, "timed_out", usize::MAX as u64) {
        Some(v) => v as usize,
        None => return None,
    };
    let not_viable: usize = match read_unsigned(value, "not_viable", usize::MAX as u64) {
        Some(v) => v as usize,
        None => return None,
    };
    let skipped: usize = match read_unsigned(value, "skipped", usize::MAX as u64) {
        Some(v) => v as usize,
        None => return None,
    };
    let requested_workers: usize = match read_unsigned(value, "requested_workers", usize::MAX as u64) {
        Some(v) => v as usize,
        None => return None,
    };
    let effective_workers: usize = match read_unsigned(value, "effective_workers", usize::MAX as u64) {
        Some(v) => v as usize,
        None => return None,
    };
    let isolation_failures: usize = match read_unsigned(value, "isolation_failures", usize::MAX as u64) {
        Some(v) => v as usize,
        None => return None,
    };
    let isolation_setup_ms: u128 = match read_whole(value, "isolation_setup_ms") {
        Some(v) => v,
        None => return None,
    };
    let isolation_copy_ms: u128 = match read_whole(value, "isolation_copy_ms") {
        Some(v) => v,
        None => return None,
    };
    let isolation_excluded_path_count: usize = match read_unsigned(value, "isolation_excluded_path_count", usize::MAX as u64) {
        Some(v) => v as usize,
        None => return None,
    };
    let records: Vec<MutationRecord> = match read_mutation_records_at(value, "records") {
        Some(v) => v,
        None => return None,
    };
    let by_domain: Vec<AttributionEntry> = match read_attribution_at(value, "by_domain") {
        Some(v) => v,
        None => return None,
    };
    let by_operator: Vec<AttributionEntry> = match read_attribution_at(value, "by_operator") {
        Some(v) => v,
        None => return None,
    };
    let score_percent: Option<u8> = match read_optional_u8_at(value, "score_percent") {
        Some(v) => v,
        None => return None,
    };
    let efficacy_percent: Option<u8> = match read_optional_u8_at(value, "efficacy_percent") {
        Some(v) => v,
        None => return None,
    };
    let mutant_coverage_percent: Option<u8> = match read_optional_u8_at(value, "mutant_coverage_percent") {
        Some(v) => v,
        None => return None,
    };
    let correctness_executed: usize = match read_unsigned(value, "correctness_executed", usize::MAX as u64) {
        Some(v) => v as usize,
        None => return None,
    };
    let correctness_survived: usize = match read_unsigned(value, "correctness_survived", usize::MAX as u64) {
        Some(v) => v as usize,
        None => return None,
    };
    let brittleness_executed: usize = match read_unsigned(value, "brittleness_executed", usize::MAX as u64) {
        Some(v) => v as usize,
        None => return None,
    };
    let brittleness_killed: usize = match read_unsigned(value, "brittleness_killed", usize::MAX as u64) {
        Some(v) => v as usize,
        None => return None,
    };
    let correctness_score_percent: Option<u8> = match read_optional_u8_at(value, "correctness_score_percent") {
        Some(v) => v,
        None => return None,
    };
    let brittleness_survival_percent: Option<u8> = match read_optional_u8_at(value, "brittleness_survival_percent") {
        Some(v) => v,
        None => return None,
    };
    let baseline_duration_ms: Option<u64> = match read_optional_u64_at(value, "baseline_duration_ms") {
        Some(v) => v,
        None => return None,
    };
    let computed_timeout_seconds: Option<u64> = match read_optional_u64_at(value, "computed_timeout_seconds") {
        Some(v) => v,
        None => return None,
    };
    let timeout_source: Option<String> = match read_optional_text(value, "timeout_source") {
        Some(v) => v,
        None => return None,
    };
    Some(
        MutationMetrics {
            generated,
            runnable,
            executed,
            killed,
            survived,
            not_covered,
            timed_out,
            not_viable,
            skipped,
            requested_workers,
            effective_workers,
            isolation_failures,
            isolation_setup_ms,
            isolation_copy_ms,
            isolation_excluded_path_count,
            records,
            by_domain,
            by_operator,
            score_percent,
            efficacy_percent,
            mutant_coverage_percent,
            correctness_executed,
            correctness_survived,
            brittleness_executed,
            brittleness_killed,
            correctness_score_percent,
            brittleness_survival_percent,
            baseline_duration_ms,
            computed_timeout_seconds,
            timeout_source,
        },
    )
}

/// The mutation metrics of a member; nothing where the member holds none.
pub open spec fn mutation_metrics_at(
    value: JsonModel,
    name: Seq<char>,
) -> Option<MutationMetricsModel> {
    match field(value, name) {
        Some(v) => mutation_metrics_in(v),
        None => None,
    }
}

/// Reads the mutation metrics of a member; nothing where the member holds none.
pub fn read_mutation_metrics_at(value: &Json, name: &str) -> (r: Option<MutationMetrics>)
    ensures
        r.deep_view() == mutation_metrics_at(value.deep_view(), name@),
{
    match value.field(name) {
        Some(v) => read_mutation_metrics(v),
        None => None,
    }
}

/// Whether a JSON document holds every field of a property metrics.
pub open spec fn property_metrics_readable(value: JsonModel) -> bool {
    &&& unsigned_at(value, "generated_artifacts"@, usize::MAX as int) is Some
    &&& unsigned_at(value, "no_panic_properties"@, usize::MAX as int) is Some
    &&& unsigned_at(value, "deterministic_properties"@, usize::MAX as int) is Some
    &&& unsigned_at(value, "invariant_properties"@, usize::MAX as int) is Some
    &&& unsigned_at(value, "failed_generated_tests"@, usize::MAX as int) is Some
    &&& optional_u8_at(value, "strength_score_percent"@) is Some
}

/// The property metrics that a JSON document holds.
pub open spec fn property_metrics_in(value: JsonModel) -> Option<PropertyMetrics> {
    if property_metrics_readable(value) {
        Some(
            PropertyMetrics {
                generated_artifacts: (unsigned_at(value, "generated_artifacts"@, usize::MAX as int)->0) as usize,
                no_panic_properties: (unsigned_at(value, "no_panic_properties"@, usize::MAX as int)->0) as usize,
                deterministic_properties: (unsigned_at(value, "deterministic_properties"@, usize::MAX as int)->0) as usize,
                invariant_properties: (unsigned_at(value, "invariant_properties"@, usize::MAX as int)->0) as usize,
                failed_generated_tests: (unsigned_at(value, "failed_generated_tests"@, usize::MAX as int)->0) as usize,
                strength_score_percent: optional_u8_at(value, "strength_score_percent"@)->0,
            },
        )
    } else {
        None
    }
}

/// Reads a property metrics; nothing where the value holds none.
pub fn read_property_metrics(value: &Json) -> (r: Option<PropertyMetrics>)
    ensures
        r == property_metrics_in(value.deep_view()),
{
    let generated_artifacts: usize = match read_unsigned(value, "generated_artifacts", usize::MAX as u64) {
        Some(v) => v as usize,
        None => return None,
    };
    let no_panic_properties: usize = match read_unsigned(value, "no_panic_properties", usize::MAX as u64) {
        Some(v) => v as usize,
        None => return None,
    };
    let deterministic_properties: usize = match read_unsigned(value, "deterministic_properties", usize::MAX as u64) {
        Some(v) => v as usize,
        None => return None,
    };
    let invariant_properties: usize = match read_unsigned(value, "invariant_properties", usize::MAX as u64) {
        Some(v) => v as usize,
        None => return None,
    };
    let failed_generated_tests: usize = match read_unsigned(value, "failed_generated_tests", usize::MAX as u64) {
        Some(v) => v as usize,
        None => return None,
    };
    let strength_score_percent: Option<u8> = match read_optional_u8_at(value, "strength_score_percent") {
        Some(v) => v,
        None => return None,
    };
    Some(
        PropertyMetrics {
            generated_artifacts,
            no_panic_properties,
            deterministic_properties,
            invariant_properties,
            failed_generated_tests,
            strength_score_percent,
        },
    )
}

/// The property metrics of a member; nothing where the member holds none.
pub open spec fn property_metrics_at(value: JsonModel, name: Seq<char>) -> Option<PropertyMetrics> {
    match field(value, name) {
        Some(v) => property_metrics_in(v),
        None => None,
    }
}

/// Reads the property metrics of a member; nothing where the member holds none.
pub fn read_property_metrics_at(value: &Json, name: &str) -> (r: Option<PropertyMetrics>)
    ensures
        r == property_metrics_at(value.deep_view(), name@),
{
    match value.field(name) {
        Some(v) => read_property_metrics(v),
        None => None,
    }
}

/// Whether a JSON document holds every field of a fuzz metrics.
pub open spec fn fuzz_metrics_readable(value: JsonModel) -> bool {
    &&& unsigned_at(value, "generated_harnesses"@, usize::MAX as int) is Some
    &&& unsigned_at(value, "targets_executed"@, usize::MAX as int) is Some
    &&& unsigned_at(value, "failures"@, usize::MAX as int) is Some
    &&& unsigned_at(value, "persisted_repros"@, usize::MAX as int) is Some
}

/// The fuzz metrics that a JSON document holds.
pub open spec fn fuzz_metrics_in(value: JsonModel) -> Option<FuzzMetrics> {
    if fuzz_metrics_readable(value) {
        Some(
            FuzzMetrics {
                generated_harnesses: (unsigned_at(value, "generated_harnesses"@, usize::MAX as int)->0) as usize,
                targets_executed: (unsigned_at(value, "targets_executed"@, usize::MAX as int)->0) as usize,
                failures: (unsigned_at(value, "failures"@, usize::MAX as int)->0) as usize,
                persisted_repros: (unsigned_at(value, "persisted_repros"@, usize::MAX as int)->0) as usize,
            },
        )
    } else {
        None
    }
}

/// Reads a fuzz metrics; nothing where the value holds none.
pub fn read_fuzz_metrics(value: &Json) -> (r: Option<FuzzMetrics>)
    ensures
        r == fuzz_metrics_in(value.deep_view()),
{
    let generated_harnesses: usize = match read_unsigned(value, "generated_harnesses", usize::MAX as u64) {
        Some(v) => v as usize,
        None => return None,
    };
    let targets_executed: usize = match read_unsigned(value, "targets_executed", usize::MAX as u64) {
        Some(v) => v as usize,
        None => return None,
    };
    let failures: usize = match read_unsigned(value, "failures", usize::MAX as u64) {
        Some(v) => v as usize,
        None => return None,
    };
    let persisted_repros: usize = match read_unsigned(value, "persisted_repros", usize::MAX as u64) {
        Some(v) => v as usize,
        None => return None,
    };
    Some(
        FuzzMetrics {
            generated_harnesses,
            targets_executed,
            failures,
            persisted_repros,
        },
    )
}

/// The fuzz metrics of a member; nothing where the member holds none.
pub open spec fn fuzz_metrics_at(value: JsonModel, name: Seq<char>) -> Option<FuzzMetrics> {
    match field(value, name) {
        Some(v) => fuzz_metrics_in(v),
        None => None,
    }
}

/// Reads the fuzz metrics of a member; nothing where the member holds none.
pub fn read_fuzz_metrics_at(value: &Json, name: &str) -> (r: Option<FuzzMetrics>)
    ensures
        r == fuzz_metrics_at(value.deep_view(), name@),
{
    match value.field(name) {
        Some(v) => read_fuzz_metrics(v),
        None => None,
    }
}

/// Whether a JSON document holds every field of a regression metrics.
pub open spec fn regression_metrics_readable(value: JsonModel) -> bool {
    &&& unsigned_at(value, "assertion_candidates"@, usize::MAX as int) is Some
    &&& unsigned_at(value, "promoted_scaffolds"@, usize::MAX as int) is Some
    &&& unsigned_at(value, "corpus_entries"@, usize::MAX as int) is Some
    &&& unsigned_at(value, "corpus_replayed"@, usize::MAX as int) is Some
    &&& unsigned_at(value, "corpus_passed"@, usize::MAX as int) is Some
    &&& unsigned_at(value, "corpus_failed"@, usize::MAX as int) is Some
    &&& unsigned_at(value, "corpus_skipped"@, usize::MAX as int) is Some
}

/// The regression metrics that a JSON document holds.
pub open spec fn regression_metrics_in(value: JsonModel) -> Option<RegressionMetrics> {
    if regression_metrics_readable(value) {
        Some(
            RegressionMetrics {
                assertion_candidates: (unsigned_at(value, "assertion_candidates"@, usize::MAX as int)->0) as usize,
                promoted_scaffolds: (unsigned_at(value, "promoted_scaffolds"@, usize::MAX as int)->0) as usize,
                corpus_entries: (unsigned_at(value, "corpus_entries"@, usize::MAX as int)->0) as usize,
                corpus_replayed: (unsigned_at(value, "corpus_replayed"@, usize::MAX as int)->0) as usize,
                corpus_passed: (unsigned_at(value, "corpus_passed"@, usize::MAX as int)->0) as usize,
                corpus_failed: (unsigned_at(value, "corpus_failed"@, usize::MAX as int)->0) as usize,
                corpus_skipped: (unsigned_at(value, "corpus_skipped"@, usize::MAX as int)->0) as usize,
            },
        )
    } else {
        None
    }
}

/// Reads a regression metrics; nothing where the value holds none.
pub fn read_regression_metrics(value: &Json) -> (r: Option<RegressionMetrics>)
    ensures
        r == regression_metrics_in(value.deep_view()),
{
    let assertion_candidates: usize = match read_unsigned(value, "assertion_candidates", usize::MAX as u64) {
        Some(v) => v as usize,
        None => return None,
    };
    let promoted_scaffolds: usize = match read_unsigned(value, "promoted_scaffolds", usize::MAX as u64) {
        Some(v) => v as usize,
        None => return None,
    };
    let corpus_entries: usize = match read_unsigned(value, "corpus_entries", usize::MAX as u64) {
        Some(v) => v as usize,
        None => return None,
    };
    let corpus_replayed: usize = match read_unsigned(value, "corpus_replayed", usize::MAX as u64) {
        Some(v) => v as usize,
        None => return None,
    };
    let corpus_passed: usize = match read_unsigned(value, "corpus_passed", usize::MAX as u64) {
        Some(v) => v as usize,
        None => return None,
    };
    let corpus_failed: usize = match read_unsigned(value, "corpus_failed", usize::MAX as u64) {
        Some(v) => v as usize,
        None => return None,
    };
    let corpus_skipped: usize = match read_unsigned(value, "corpus_skipped", usize::MAX as u64) {
        Some(v) => v as usize,
        None => return None,
    };
    Some(
        RegressionMetrics {
            assertion_candidates,
            promoted_scaffolds,
            corpus_entries,
            corpus_replayed,
            corpus_passed,
            corpus_failed,
            corpus_skipped,
        },
    )
}

/// The regression metrics of a member; nothing where the member holds none.
pub open spec fn regression_metrics_at(
    value: JsonModel,
    name: Seq<char>,
) -> Option<RegressionMetrics> {
    match field(value, name) {
        Some(v) => regression_metrics_in(v),
        None => None,
    }
}

/// Reads the regression metrics of a member; nothing where the member holds none.
pub fn read_regression_metrics_at(value: &Json, name: &str) -> (r: Option<RegressionMetrics>)
    ensures
        r == regression_metrics_at(value.deep_view(), name@),
{
    match value.field(name) {
        Some(v) => read_regression_metrics(v),
        None => None,
    }
}

/// Whether a JSON document holds every field of a replay metrics.
pub open spec fn replay_metrics_readable(value: JsonModel) -> bool {
    &&& unsigned_at(value, "manifests"@, usize::MAX as int) is Some
    &&& unsigned_at(value, "results"@, usize::MAX as int) is Some
    &&& unsigned_at(value, "targets"@, usize::MAX as int) is Some
    &&& unsigned_at(value, "cases"@, usize::MAX as int) is Some
}

/// The replay metrics that a JSON document holds.
pub open spec fn replay_metrics_in(value: JsonModel) -> Option<ReplayMetrics> {
    if replay_metrics_readable(value) {
        Some(
            ReplayMetrics {
                manifests: (unsigned_at(value, "manifests"@, usize::MAX as int)->0) as usize,
                results: (unsigned_at(value, "results"@, usize::MAX as int)->0) as usize,
                targets: (unsigned_at(value, "targets"@, usize::MAX as int)->0) as usize,
                cases: (unsigned_at(value, "cases"@, usize::MAX as int)->0) as usize,
            },
        )
    } else {
        None
    }
}

/// Reads a replay metrics; nothing where the value holds none.
pub fn read_replay_metrics(value: &Json) -> (r: Option<ReplayMetrics>)
    ensures
        r == replay_metrics_in(value.deep_view()),
{
    let manifests: usize = match read_unsigned(value, "manifests", usize::MAX as u64) {
        Some(v) => v as usize,
        None => return None,
    };
    let results: usize = match read_unsigned(value, "results", usize::MAX as u64) {
        Some(v) => v as usize,
        None => return None,
    };
    let targets: usize = match read_unsigned(value, "targets", usize::MAX as u64) {
        Some(v) => v as usize,
        None => return None,
    };
    let cases: usize = match read_unsigned(value, "cases", usize::MAX as u64) {
        Some(v) => v as usize,
        None => return None,
    };
    Some(
        ReplayMetrics {
            manifests,
            results,
            targets,
            cases,
        },
    )
}

/// The replay metrics of a member; nothing where the member holds none.
pub open spec fn replay_metrics_at(value: JsonModel, name: Seq<char>) -> Option<ReplayMetrics> {
    match field(value, name) {
        Some(v) => replay_metrics_in(v),
        None => None,
    }
}

/// Reads the replay metrics of a member; nothing where the member holds none.
pub fn read_replay_metrics_at(value: &Json, name: &str) -> (r: Option<ReplayMetrics>)
    ensures
        r == replay_metrics_at(value.deep_view(), name@),
{
    match value.field(name) {
        Some(v) => read_replay_metrics(v),
        None => None,
    }
}

/// Whether a JSON document holds every field of a budget metrics.
pub open spec fn budget_metrics_readable(value: JsonModel) -> bool {
    &&& unsigned_at(value, "budget_plans"@, usize::MAX as int) is Some
    &&& unsigned_at(value, "skipped_commands"@, usize::MAX as int) is Some
    &&& unsigned_at(value, "timed_out_commands"@, usize::MAX as int) is Some
}

/// The budget metrics that a JSON document holds.
pub open spec fn budget_metrics_in(value: JsonModel) -> Option<BudgetMetrics> {
    if budget_metrics_readable(value) {
        Some(
            BudgetMetrics {
                budget_plans: (unsigned_at(value, "budget_plans"@, usize::MAX as int)->0) as usize,
                skipped_commands: (unsigned_at(value, "skipped_commands"@, usize::MAX as int)->0) as usize,
                timed_out_commands: (unsigned_at(value, "timed_out_commands"@, usize::MAX as int)->0) as usize,
            },
        )
    } else {
        None
    }
}

/// Reads a budget metrics; nothing where the value holds none.
pub fn read_budget_metrics(value: &Json) -> (r: Option<BudgetMetrics>)
    ensures
        r == budget_metrics_in(value.deep_view()),
{
    let budget_plans: usize = match read_unsigned(value, "budget_plans", usize::MAX as u64) {
        Some(v) => v as usize,
        None => return None,
    };
    let skipped_commands: usize = match read_unsigned(value, "skipped_commands", usize::MAX as u64) {
        Some(v) => v as usize,
        None => return None,
    };
    let timed_out_commands: usize = match read_unsigned(value, "timed_out_commands", usize::MAX as u64) {
        Some(v) => v as usize,
        None => return None,
    };
    Some(
        BudgetMetrics {
            budget_plans,
            skipped_commands,
            timed_out_commands,
        },
    )
}

/// The budget metrics of a member; nothing where the member holds none.
pub open spec fn budget_metrics_at(value: JsonModel, name: Seq<char>) -> Option<BudgetMetrics> {
    match field(value, name) {
        Some(v) => budget_metrics_in(v),
        None => None,
    }
}

/// Reads the budget metrics of a member; nothing where the member holds none.
pub fn read_budget_metrics_at(value: &Json, name: &str) -> (r: Option<BudgetMetrics>)
    ensures
        r == budget_metrics_at(value.deep_view(), name@),
{
    match value.field(name) {
        Some(v) => read_budget_metrics(v),
        None => None,
    }
}

/// Whether a JSON document holds every field of an evolution metrics.
pub open spec fn evolution_metrics_readable(value: JsonModel) -> bool {
    &&& unsigned_at(value, "suites"@, usize::MAX as int) is Some
    &&& unsigned_at(value, "candidates"@, usize::MAX as int) is Some
    &&& unsigned_at(value, "selected"@, usize::MAX as int) is Some
    &&& unsigned_at(value, "property_candidates"@, usize::MAX as int) is Some
    &&& unsigned_at(value, "mutation_candidates"@, usize::MAX as int) is Some
    &&& unsigned_at(value, "fuzz_candidates"@, usize::MAX as int) is Some
    &&& unsigned_at(value, "regression_candidates"@, usize::MAX as int) is Some
    &&& unsigned_at(value, "replay_candidates"@, usize::MAX as int) is Some
    &&& optional_u8_at(value, "average_fitness_percent"@) is Some
}

/// The evolution metrics that a JSON document holds.
pub open spec fn evolution_metrics_in(value: JsonModel) -> Option<EvolutionMetrics> {
    if evolution_metrics_readable(value) {
        Some(
            EvolutionMetrics {
                suites: (unsigned_at(value, "suites"@, usize::MAX as int)->0) as usize,
                candidates: (unsigned_at(value, "candidates"@, usize::MAX as int)->0) as usize,
                selected: (unsigned_at(value, "selected"@, usize::MAX as int)->0) as usize,
                property_candidates: (unsigned_at(value, "property_candidates"@, usize::MAX as int)->0) as usize,
                mutation_candidates: (unsigned_at(value, "mutation_candidates"@, usize::MAX as int)->0) as usize,
                fuzz_candidates: (unsigned_at(value, "fuzz_candidates"@, usize::MAX as int)->0) as usize,
                regression_candidates: (unsigned_at(value, "regression_candidates"@, usize::MAX as int)->0) as usize,
                replay_candidates: (unsigned_at(value, "replay_candidates"@, usize::MAX as int)->0) as usize,
                average_fitness_percent: optional_u8_at(value, "average_fitness_percent"@)->0,
            },
        )
    } else {
        None
    }
}

/// Reads an evolution metrics; nothing where the value holds none.
pub fn read_evolution_metrics(value: &Json) -> (r: Option<EvolutionMetrics>)
    ensures
        r == evolution_metrics_in(value.deep_view()),
{
    let suites: usize = match read_unsigned(value, "suites", usize::MAX as u64) {
        Some(v) => v as usize,
        None => return None,
    };
    let candidates: usize = match read_unsigned(value, "candidates", usize::MAX as u64) {
        Some(v) => v as usize,
        None => return None,
    };
    let selected: usize = match read_unsigned(value, "selected", usize::MAX as u64) {
        Some(v) => v as usize,
        None => return None,
    };
    let property_candidates: usize = match read_unsigned(value, "property_candidates", usize::MAX as u64) {
        Some(v) => v as usize,
        None => return None,
    };
    let mutation_candidates: usize = match read_unsigned(value, "mutation_candidates", usize::MAX as u64) {
        Some(v) => v as usize,
        None => return None,
    };
    let fuzz_candidates: usize = match read_unsigned(value, "fuzz_candidates", usize::MAX as u64) {
        Some(v) => v as usize,
        None => return None,
    };
    let regression_candidates: usize = match read_unsigned(value, "regression_candidates", usize::MAX as u64) {
        Some(v) => v as usize,
        None => return None,
    };
    let replay_candidates: usize = match read_unsigned(value, "replay_candidates", usize::MAX as u64) {
        Some(v) => v as usize,
        None => return None,
    };
    let average_fitness_percent: Option<u8> = match read_optional_u8_at(value, "average_fitness_percent") {
        Some(v) => v,
        None => return None,
    };
    Some(
        EvolutionMetrics {
            suites,
            candidates,
            selected,
            property_candidates,
            mutation_candidates,
            fuzz_candidates,
            regression_candidates,
            replay_candidates,
            average_fitness_percent,
        },
    )
}

/// The evolution metrics of a member; nothing where the member holds none.
pub open spec fn evolution_metrics_at(
    value: JsonModel,
    name: Seq<char>,
) -> Option<EvolutionMetrics> {
    match field(value, name) {
        Some(v) => evolution_metrics_in(v),
        None => None,
    }
}

/// Reads the evolution metrics of a member; nothing where the member holds none.
pub fn read_evolution_metrics_at(value: &Json, name: &str) -> (r: Option<EvolutionMetrics>)
    ensures
        r == evolution_metrics_at(value.deep_view(), name@),
{
    match value.field(name) {
        Some(v) => read_evolution_metrics(v),
        None => None,
    }
}

/// Whether a JSON document holds every field of a performance metrics.
pub open spec fn performance_metrics_readable(value: JsonModel) -> bool {
    &&& unsigned_at(value, "discovery_ms"@, u128::MAX as int) is Some
    &&& unsigned_at(value, "generation_ms"@, u128::MAX as int) is Some
    &&& unsigned_at(value, "test_execution_ms"@, u128::MAX as int) is Some
    &&& unsigned_at(value, "coverage_ms"@, u128::MAX as int) is Some
    &&& unsigned_at(value, "replay_ms"@, u128::MAX as int) is Some
    &&& unsigned_at(value, "artifact_synthesis_ms"@, u128::MAX as int) is Some
    &&& unsigned_at(value, "total_ms"@, u128::MAX as int) is Some
}

/// The performance metrics that a JSON document holds.
pub open spec fn performance_metrics_in(value: JsonModel) -> Option<PerformanceMetrics> {
    if performance_metrics_readable(value) {
        Some(
            PerformanceMetrics {
                discovery_ms: (unsigned_at(value, "discovery_ms"@, u128::MAX as int)->0) as u128,
                generation_ms: (unsigned_at(value, "generation_ms"@, u128::MAX as int)->0) as u128,
                test_execution_ms: (unsigned_at(value, "test_execution_ms"@, u128::MAX as int)->0) as u128,
                coverage_ms: (unsigned_at(value, "coverage_ms"@, u128::MAX as int)->0) as u128,
                replay_ms: (unsigned_at(value, "replay_ms"@, u128::MAX as int)->0) as u128,
                artifact_synthesis_ms: (unsigned_at(value, "artifact_synthesis_ms"@, u128::MAX as int)->0) as u128,
                total_ms: (unsigned_at(value, "total_ms"@, u128::MAX as int)->0) as u128,
            },
        )
    } else {
        None
    }
}

/// Reads a performance metrics; nothing where the value holds none.
pub fn read_performance_metrics(value: &Json) -> (r: Option<PerformanceMetrics>)
    ensures
        r == performance_metrics_in(value.deep_view()),
{
    let discovery_ms: u128 = match read_whole(value, "discovery_ms") {
        Some(v) => v,
        None => return None,
    };
    let generation_ms: u128 = match read_whole(value, "generation_ms") {
        Some(v) => v,
        None => return None,
    };
    let test_execution_ms: u128 = match read_whole(value, "test_execution_ms") {
        Some(v) => v,
        None => return None,
    };
    let coverage_ms: u128 = match read_whole(value, "coverage_ms") {
        Some(v) => v,
        None => return None,
    };
    let replay_ms: u128 = match read_whole(value, "replay_ms") {
        Some(v) => v,
        None => return None,
    };
    let artifact_synthesis_ms: u128 = match read_whole(value, "artifact_synthesis_ms") {
        Some(v) => v,
        None => return None,
    };
    let total_ms: u128 = match read_whole(value, "total_ms") {
        Some(v) => v,
        None => return None,
    };
    Some(
        PerformanceMetrics {
            discovery_ms,
            generation_ms,
            test_execution_ms,
            coverage_ms,
            replay_ms,
            artifact_synthesis_ms,
            total_ms,
        },
    )
}

/// The performance metrics of a member; nothing where the member holds none.
pub open spec fn performance_metrics_at(
    value: JsonModel,
    name: Seq<char>,
) -> Option<PerformanceMetrics> {
    match field(value, name) {
        Some(v) => performance_metrics_in(v),
        None => None,
    }
}

/// Reads the performance metrics of a member; nothing where the member holds none.
pub fn read_performance_metrics_at(value: &Json, name: &str) -> (r: Option<PerformanceMetrics>)
    ensures
        r == performance_metrics_at(value.deep_view(), name@),
{
    match value.field(name) {
        Some(v) => read_performance_metrics(v),
        None => None,
    }
}

/// Whether a JSON document holds every field of a verification quality.
pub open spec fn verification_quality_readable(value: JsonModel) -> bool {
    &&& mutation_metrics_at(value, "mutation"@) is Some
    &&& property_metrics_at(value, "property"@) is Some
    &&& fuzz_metrics_at(value, "fuzz"@) is Some
    &&& regression_metrics_at(value, "regression"@) is Some
    &&& replay_metrics_at(value, "replay"@) is Some
    &&& budget_metrics_at(value, "budget"@) is Some
    &&& evolution_metrics_at(value, "evolution"@) is Some
    &&& performance_metrics_at(value, "performance"@) is Some
}

/// The verification quality that a JSON document holds.
pub open spec fn verification_quality_in(value: JsonModel) -> Option<VerificationQualityModel> {
    if verification_quality_readable(value) {
        Some(
            VerificationQualityModel {
                mutation: mutation_metrics_at(value, "mutation"@)->0,
                property: property_metrics_at(value, "property"@)->0,
                fuzz: fuzz_metrics_at(value, "fuzz"@)->0,
                regression: regression_metrics_at(value, "regression"@)->0,
                replay: replay_metrics_at(value, "replay"@)->0,
                budget: budget_metrics_at(value, "budget"@)->0,
                evolution: evolution_metrics_at(value, "evolution"@)->0,
                performance: performance_metrics_at(value, "performance"@)->0,
            },
        )
    } else {
        None
    }
}

/// Reads a verification quality; nothing where the value holds none.
pub fn read_verification_quality(value: &Json) -> (r: Option<VerificationQuality>)
    ensures
        r.deep_view() == verification_quality_in(value.deep_view()),
{
    let mutation: MutationMetrics = match read_mutation_metrics_at(value, "mutation") {
        Some(v) => v,
        None => return None,
    };
    let property: PropertyMetrics = match read_property_metrics_at(value, "property") {
        Some(v) => v,
        None => return None,
    };
    let fuzz: FuzzMetrics = match read_fuzz_metrics_at(value, "fuzz") {
        Some(v) => v,
        None => return None,
    };
    let regression: RegressionMetrics = match read_regression_metrics_at(value, "regression") {
        Some(v) => v,
        None => return None,
    };
    let replay: ReplayMetrics = match read_replay_metrics_at(value, "replay") {
        Some(v) => v,
        None => return None,
    };
    let budget: BudgetMetrics = match read_budget_metrics_at(value, "budget") {
        Some(v) => v,
        None => return None,
    };
    let evolution: EvolutionMetrics = match read_evolution_metrics_at(value, "evolution") {
        Some(v) => v,
        None => return None,
    };
    let performance: PerformanceMetrics = match read_performance_metrics_at(value, "performance") {
        Some(v) => v,
        None => return None,
    };
    Some(
        VerificationQuality {
            mutation,
            property,
            fuzz,
            regression,
            replay,
            budget,
            evolution,
            performance,
        },
    )
}

/// The verification quality of a member; nothing where the member holds none.
pub open spec fn verification_quality_at(
    value: JsonModel,
    name: Seq<char>,
) -> Option<VerificationQualityModel> {
    match field(value, name) {
        Some(v) => verification_quality_in(v),
        None => None,
    }
}

/// Reads the verification quality of a member; nothing where the member holds none.
pub fn read_verification_quality_at(value: &Json, name: &str) -> (r: Option<VerificationQuality>)
    ensures
        r.deep_view() == verification_quality_at(value.deep_view(), name@),
{
    match value.field(name) {
        Some(v) => read_verification_quality(v),
        None => None,
    }
}

/// The quality of a run that a JSON document holds: none, where the document states
/// none.
pub open spec fn test_run_result_quality_or_default(
    value: JsonModel,
) -> Option<VerificationQualityModel> {
    if repeated(value, "quality"@) {
        None
    } else {
        match member(value, "quality"@) {
            Some(_) => verification_quality_at(value, "quality"@),
            None => Some(no_quality()),
        }
    }
}

fn read_test_run_result_quality(value: &Json) -> (r: Option<VerificationQuality>)
    ensures
        r.deep_view() == test_run_result_quality_or_default(value.deep_view()),
{
    if value.repeats("quality") {
        return None;
    }
    match value.get("quality") {
        Some(_) => read_verification_quality_at(value, "quality"),
        None => Some(VerificationQuality::default()),
    }
}

/// Whether a JSON document holds every field of a test run result.
pub open spec fn test_run_result_readable(value: JsonModel) -> bool {
    &&& text_at(value, "language"@) is Some
    &&& run_status_at(value, "status"@) is Some
    &&& command_records_at(value, "commands"@) is Some
    &&& failures_at(value, "failures"@) is Some
    &&& unsigned_at(value, "duration_ms"@, u128::MAX as int) is Some
    &&& test_run_result_quality_or_default(value) is Some
}

/// The test run result whose fields a JSON object holds.
#[verifier::opaque]
pub open spec fn test_run_result_fields(value: JsonModel) -> Option<TestRunResultModel> {
    if test_run_result_readable(value) {
        Some(
            TestRunResultModel {
                language: text_at(value, "language"@)->0,
                status: run_status_at(value, "status"@)->0,
                commands: command_records_at(value, "commands"@)->0,
                failures: failures_at(value, "failures"@)->0,
                duration_ms: (unsigned_at(value, "duration_ms"@, u128::MAX as int)->0) as u128,
                quality: test_run_result_quality_or_default(value)->0,
            },
        )
    } else {
        None
    }
}

/// The test run result that a JSON document holds: an object, or the array of the fields in their
/// order, without the quality.
pub open spec fn test_run_result_in(value: JsonModel) -> Option<TestRunResultModel> {
    let names = seq![
        "language"@,
        "status"@,
        "commands"@,
        "failures"@,
        "duration_ms"@,
    ];
    test_run_result_fields(as_record(value, names))
}

fn read_test_run_result_fields(value: &Json) -> (r: Option<TestRunResult>)
    ensures
        r.deep_view() == test_run_result_fields(value.deep_view()),
{
    proof {
        reveal(test_run_result_fields);
    }
    let language: String = match read_text(value, "language") {
        Some(v) => v,
        None => return None,
    };
    let status: RunStatus = match read_run_status_at(value, "status") {
        Some(v) => v,
        None => return None,
    };
    let commands: Vec<CommandRecord> = match read_command_records_at(value, "commands") {
        Some(v) => v,
        None => return None,
    };
    let failures: Vec<Failure> = match read_failures_at(value, "failures") {
        Some(v) => v,
        None => return None,
    };
    let duration_ms: u128 = match read_whole(value, "duration_ms") {
        Some(v) => v,
        None => return None,
    };
    let quality: VerificationQuality = match read_test_run_result_quality(value) {
        Some(v) => v,
        None => return None,
    };
    Some(
        TestRunResult {
            language,
            status,
            commands,
            failures,
            duration_ms,
            quality,
        },
    )
}

/// Reads a test run result; nothing where the value holds none.
pub fn read_test_run_result(value: &Json) -> (r: Option<TestRunResult>)
    ensures
        r.deep_view() == test_run_result_in(value.deep_view()),
{
    let names = vec![
        "language",
        "status",
        "commands",
        "failures",
        "duration_ms",
    ];
    assert(names.deep_view() =~= seq![
        "language"@,
        "status"@,
        "commands"@,
        "failures"@,
        "duration_ms"@,
    ]);
    match named_fields(value, &names) {
        Some(record) => read_test_run_result_fields(&record),
        None => read_test_run_result_fields(value),
    }
}

/// The records of an array; nothing where an item is no such record.
pub open spec fn all_test_run_results(items: Seq<JsonModel>) -> Option<Seq<TestRunResultModel>>
    decreases items.len(),
{
    if items.len() == 0 {
        Some(Seq::empty())
    } else {
        match (all_test_run_results(items.drop_last()), test_run_result_in(items.last())) {
            (Some(before), Some(v)) => Some(before.push(v)),
            _ => None,
        }
    }
}

proof fn lemma_all_test_run_results_before(items: Seq<JsonModel>, n: int)
    requires
        0 <= n <= items.len(),
        all_test_run_results(items.take(n)) is None,
    ensures
        all_test_run_results(items) is None,
    decreases items.len() - n,
{
    if n == items.len() {
        lemma_take_all(items);
    } else {
        lemma_take_next(items, n);
        lemma_all_test_run_results_before(items, n + 1);
    }
}

/// Reads test run results from JSON values; nothing where one of them holds none.
pub fn read_all_test_run_results(items: &Vec<Json>) -> (r: Option<Vec<TestRunResult>>)
    ensures
        r.deep_view() == all_test_run_results(items.deep_view()),
{
    let mut out: Vec<TestRunResult> = Vec::new();
    let ghost all = items.deep_view();
    let mut i: usize = 0;
    assert(out.deep_view() =~= Seq::<TestRunResultModel>::empty());
    assert(all_test_run_results(all.take(0)) == Some(out.deep_view()));
    while i < items.len()
        invariant
            i <= items@.len(),
            all == items.deep_view(),
            all_test_run_results(all.take(i as int)) == Some(out.deep_view()),
        decreases items@.len() - i,
    {
        proof {
            lemma_take_next(all, i as int);
        }
        let item = read_test_run_result(&items[i]);
        match item {
            Some(v) => {
                push_test_run_result(&mut out, v);
            },
            None => {
                proof {
                    lemma_all_test_run_results_before(all, i + 1);
                }
                return None;
            },
        }
        i = i + 1;
    }
    proof {
        lemma_take_all(all);
    }
    Some(out)
}

/// The test run results of a member; nothing where the member holds none.
pub open spec fn test_run_results_at(
    value: JsonModel,
    name: Seq<char>,
) -> Option<Seq<TestRunResultModel>> {
    match array_at(value, name) {
        Some(items) => all_test_run_results(items),
        None => None,
    }
}

/// Reads the test run results of a member; nothing where the member holds none.
pub fn read_test_run_results_at(value: &Json, name: &str) -> (r: Option<Vec<TestRunResult>>)
    ensures
        r.deep_view() == test_run_results_at(value.deep_view(), name@),
{
    match read_array(value, name) {
        Some(items) => read_all_test_run_results(items),
        None => None,
    }
}

/// The quality of a report that a JSON document holds: none, where the document states
/// none.
pub open spec fn verification_report_quality_or_default(
    value: JsonModel,
) -> Option<VerificationQualityModel> {
    if repeated(value, "quality"@) {
        None
    } else {
        match member(value, "quality"@) {
            Some(_) => verification_quality_at(value, "quality"@),
            None => Some(no_quality()),
        }
    }
}

fn read_verification_report_quality(value: &Json) -> (r: Option<VerificationQuality>)
    ensures
        r.deep_view() == verification_report_quality_or_default(value.deep_view()),
{
    if value.repeats("quality") {
        return None;
    }
    match value.get("quality") {
        Some(_) => read_verification_quality_at(value, "quality"),
        None => Some(VerificationQuality::default()),
    }
}

/// Whether a JSON document holds every field of a verification report.
pub open spec fn verification_report_readable(value: JsonModel) -> bool {
    &&& optional_project_info_at(value, "project"@) is Some
    &&& verification_targets_at(value, "targets"@) is Some
    &&& optional_verification_plan_at(value, "plan"@) is Some
    &&& generated_artifacts_at(value, "artifacts"@) is Some
    &&& test_run_results_at(value, "runs"@) is Some
    &&& coverage_reports_at(value, "coverage"@) is Some
    &&& failures_at(value, "findings"@) is Some
    &&& verification_report_quality_or_default(value) is Some
    &&& texts_at(value, "suggested_next_steps"@) is Some
}

/// The verification report whose fields a JSON object holds.
pub open spec fn verification_report_fields(value: JsonModel) -> Option<VerificationReportModel> {
    if verification_report_readable(value) {
        Some(
            VerificationReportModel {
                project: optional_project_info_at(value, "project"@)->0,
                targets: verification_targets_at(value, "targets"@)->0,
                plan: optional_verification_plan_at(value, "plan"@)->0,
                artifacts: generated_artifacts_at(value, "artifacts"@)->0,
                runs: test_run_results_at(value, "runs"@)->0,
                coverage: coverage_reports_at(value, "coverage"@)->0,
                findings: failures_at(value, "findings"@)->0,
                quality: verification_report_quality_or_default(value)->0,
                suggested_next_steps: texts_at(value, "suggested_next_steps"@)->0,
            },
        )
    } else {
        None
    }
}

/// The verification report that a JSON document holds: an object, or the array of the fields in their
/// order, without the quality.
pub open spec fn verification_report_in(value: JsonModel) -> Option<VerificationReportModel> {
    let names = seq![
        "project"@,
        "targets"@,
        "plan"@,
        "artifacts"@,
        "runs"@,
        "coverage"@,
        "findings"@,
        "suggested_next_steps"@,
    ];
    verification_report_fields(as_record(value, names))
}

fn read_verification_report_fields(value: &Json) -> (r: Option<VerificationReport>)
    ensures
        r.deep_view() == verification_report_fields(value.deep_view()),
{
    let project: Option<ProjectInfo> = match read_optional_project_info_at(value, "project") {
        Some(v) => v,
        None => return None,
    };
    let targets: Vec<VerificationTarget> = match read_verification_targets_at(value, "targets") {
        Some(v) => v,
        None => return None,
    };
    let plan: Option<VerificationPlan> = match read_optional_verification_plan_at(value, "plan") {
        Some(v) => v,
        None => return None,
    };
    let artifacts: Vec<GeneratedArtifact> = match read_generated_artifacts_at(value, "artifacts") {
        Some(v) => v,
        None => return None,
    };
    let runs: Vec<TestRunResult> = match read_test_run_results_at(value, "runs") {
        Some(v) => v,
        None => return None,
    };
    let coverage: Vec<CoverageReport> = match read_coverage_reports_at(value, "coverage") {
        Some(v) => v,
        None => return None,
    };
    let findings: Vec<Failure> = match read_failures_at(value, "findings") {
        Some(v) => v,
        None => return None,
    };
    let quality: VerificationQuality = match read_verification_report_quality(value) {
        Some(v) => v,
        None => return None,
    };
    let suggested_next_steps: Vec<String> = match read_texts(value, "suggested_next_steps") {
        Some(v) => v,
        None => return None,
    };
    Some(
        VerificationReport {
            project,
            targets,
            plan,
            artifacts,
            runs,
            coverage,
            findings,
            quality,
            suggested_next_steps,
        },
    )
}

/// Reads a verification report; nothing where the value holds none.
pub fn read_verification_report(value: &Json) -> (r: Option<VerificationReport>)
    ensures
        r.deep_view() == verification_report_in(value.deep_view()),
{
    let names = vec![
        "project",
        "targets",
        "plan",
        "artifacts",
        "runs",
        "coverage",
        "findings",
        "suggested_next_steps",
    ];
    assert(names.deep_view() =~= seq![
        "project"@,
        "targets"@,
        "plan"@,
        "artifacts"@,
        "runs"@,
        "coverage"@,
        "findings"@,
        "suggested_next_steps"@,
    ]);
    match named_fields(value, &names) {
        Some(record) => read_verification_report_fields(&record),
        None => read_verification_report_fields(value),
    }
}

/// Whether a JSON document holds every field of an assertion candidate.
pub open spec fn assertion_candidate_readable(value: JsonModel) -> bool {
    &&& text_at(value, "language"@) is Some
    &&& text_at(value, "target_id"@) is Some
    &&& optional_text_at(value, "finding_id"@) is Some
    &&& assertion_source_at(value, "source"@) is Some
    &&& assertion_domain_at(value, "domain"@) is Some
    &&& texts_at(value, "semantic_packs"@) is Some
    &&& text_at(value, "title"@) is Some
    &&& texts_at(value, "seed_inputs"@) is Some
    &&& text_at(value, "expected_behavior"@) is Some
    &&& optional_text_at(value, "replay_command"@) is Some
}

/// The assertion candidate that a JSON document holds.
pub open spec fn assertion_candidate_in(value: JsonModel) -> Option<AssertionCandidateModel> {
    if assertion_candidate_readable(value) {
        Some(
            AssertionCandidateModel {
                language: text_at(value, "language"@)->0,
                target_id: text_at(value, "target_id"@)->0,
                finding_id: optional_text_at(value, "finding_id"@)->0,
                source: assertion_source_at(value, "source"@)->0,
                domain: assertion_domain_at(value, "domain"@)->0,
                semantic_packs: texts_at(value, "semantic_packs"@)->0,
                title: text_at(value, "title"@)->0,
                seed_inputs: texts_at(value, "seed_inputs"@)->0,
                expected_behavior: text_at(value, "expected_behavior"@)->0,
                replay_command: optional_text_at(value, "replay_command"@)->0,
            },
        )
    } else {
        None
    }
}

/// Reads an assertion candidate; nothing where the value holds none.
pub fn read_assertion_candidate(value: &Json) -> (r: Option<AssertionCandidate>)
    ensures
        r.deep_view() == assertion_candidate_in(value.deep_view()),
{
    let language: String = match read_text(value, "language") {
        Some(v) => v,
        None => return None,
    };
    let target_id: String = match read_text(value, "target_id") {
        Some(v) => v,
        None => return None,
    };
    let finding_id: Option<String> = match read_optional_text(value, "finding_id") {
        Some(v) => v,
        None => return None,
    };
    let source: AssertionSource = match read_assertion_source_at(value, "source") {
        Some(v) => v,
        None => return None,
    };
    let domain: AssertionDomain = match read_assertion_domain_at(value, "domain") {
        Some(v) => v,
        None => return None,
    };
    let semantic_packs: Vec<String> = match read_texts(value, "semantic_packs") {
        Some(v) => v,
        None => return None,
    };
    let title: String = match read_text(value, "title") {
        Some(v) => v,
        None => return None,
    };
    let seed_inputs: Vec<String> = match read_texts(value, "seed_inputs") {
        Some(v) => v,
        None => return None,
    };
    let expected_behavior: String = match read_text(value, "expected_behavior") {
        Some(v) => v,
        None => return None,
    };
    let replay_command: Option<String> = match read_optional_text(value, "replay_command") {
        Some(v) => v,
        None => return None,
    };
    Some(
        AssertionCandidate {
            language,
            target_id,
            finding_id,
            source,
            domain,
            semantic_packs,
            title,
            seed_inputs,
            expected_behavior,
            replay_command,
        },
    )
}

/// Whether a JSON document holds every field of a corpus entry.
pub open spec fn corpus_entry_readable(value: JsonModel) -> bool {
    &&& text_at(value, "language"@) is Some
    &&& text_at(value, "target_id"@) is Some
    &&& optional_text_at(value, "finding_id"@) is Some
    &&& assertion_source_at(value, "source"@) is Some
    &&& optional_text_at(value, "input"@) is Some
    &&& optional_text_at(value, "path"@) is Some
    &&& text_at(value, "replay_command"@) is Some
}

/// The corpus entry that a JSON document holds.
pub open spec fn corpus_entry_in(value: JsonModel) -> Option<CorpusEntryModel> {
    if corpus_entry_readable(value) {
        Some(
            CorpusEntryModel {
                language: text_at(value, "language"@)->0,
                target_id: text_at(value, "target_id"@)->0,
                finding_id: optional_text_at(value, "finding_id"@)->0,
                source: assertion_source_at(value, "source"@)->0,
                input: optional_text_at(value, "input"@)->0,
                path: optional_text_at(value, "path"@)->0,
                replay_command: text_at(value, "replay_command"@)->0,
            },
        )
    } else {
        None
    }
}

/// Reads a corpus entry; nothing where the value holds none.
pub fn read_corpus_entry(value: &Json) -> (r: Option<CorpusEntry>)
    ensures
        r.deep_view() == corpus_entry_in(value.deep_view()),
{
    let language: String = match read_text(value, "language") {
        Some(v) => v,
        None => return None,
    };
    let target_id: String = match read_text(value, "target_id") {
        Some(v) => v,
        None => return None,
    };
    let finding_id: Option<String> = match read_optional_text(value, "finding_id") {
        Some(v) => v,
        None => return None,
    };
    let source: AssertionSource = match read_assertion_source_at(value, "source") {
        Some(v) => v,
        None => return None,
    };
    let input: Option<String> = match read_optional_text(value, "input") {
        Some(v) => v,
        None => return None,
    };
    let path: Option<String> = match read_optional_text(value, "path") {
        Some(v) => v,
        None => return None,
    };
    let replay_command: String = match read_text(value, "replay_command") {
        Some(v) => v,
        None => return None,
    };
    Some(
        CorpusEntry {
            language,
            target_id,
            finding_id,
            source,
            input,
            path,
            replay_command,
        },
    )
}

/// Whether a JSON document holds every field of an evolution fitness.
pub open spec fn evolution_fitness_readable(value: JsonModel) -> bool {
    &&& unsigned_at(value, "score_percent"@, u8::MAX as int) is Some
    &&& signed_at(value, "mutation_delta"@, i16::MIN as int, i16::MAX as int) is Some
    &&& signed_at(value, "finding_delta"@, i16::MIN as int, i16::MAX as int) is Some
    &&& signed_at(value, "replay_delta"@, i16::MIN as int, i16::MAX as int) is Some
    &&& signed_at(value, "confidence_delta"@, i16::MIN as int, i16::MAX as int) is Some
    &&& text_at(value, "rationale"@) is Some
}

/// The evolution fitness that a JSON document holds.
pub open spec fn evolution_fitness_in(value: JsonModel) -> Option<EvolutionFitnessModel> {
    if evolution_fitness_readable(value) {
        Some(
            EvolutionFitnessModel {
                score_percent: (unsigned_at(value, "score_percent"@, u8::MAX as int)->0) as u8,
                mutation_delta: (signed_at(value, "mutation_delta"@, i16::MIN as int, i16::MAX as int)->0) as i16,
                finding_delta: (signed_at(value, "finding_delta"@, i16::MIN as int, i16::MAX as int)->0) as i16,
                replay_delta: (signed_at(value, "replay_delta"@, i16::MIN as int, i16::MAX as int)->0) as i16,
                confidence_delta: (signed_at(value, "confidence_delta"@, i16::MIN as int, i16::MAX as int)->0) as i16,
                rationale: text_at(value, "rationale"@)->0,
            },
        )
    } else {
        None
    }
}

/// Reads an evolution fitness; nothing where the value holds none.
pub fn read_evolution_fitness(value: &Json) -> (r: Option<EvolutionFitness>)
    ensures
        r.deep_view() == evolution_fitness_in(value.deep_view()),
{
    let score_percent: u8 = match read_unsigned(value, "score_percent", 255) {
        Some(v) => v as u8,
        None => return None,
    };
    let mutation_delta: i16 = match read_signed(value, "mutation_delta", -32768, 32767) {
        Some(v) => v as i16,
        None => return None,
    };
    let finding_delta: i16 = match read_signed(value, "finding_delta", -32768, 32767) {
        Some(v) => v as i16,
        None => return None,
    };
    let replay_delta: i16 = match read_signed(value, "replay_delta", -32768, 32767) {
        Some(v) => v as i16,
        None => return None,
    };
    let confidence_delta: i16 = match read_signed(value, "confidence_delta", -32768, 32767) {
        Some(v) => v as i16,
        None => return None,
    };
    let rationale: String = match read_text(value, "rationale") {
        Some(v) => v,
        None => return None,
    };
    Some(
        EvolutionFitness {
            score_percent,
            mutation_delta,
            finding_delta,
            replay_delta,
            confidence_delta,
            rationale,
        },
    )
}

/// The evolution fitness of a member; nothing where the member holds none.
pub open spec fn evolution_fitness_at(
    value: JsonModel,
    name: Seq<char>,
) -> Option<EvolutionFitnessModel> {
    match field(value, name) {
        Some(v) => evolution_fitness_in(v),
        None => None,
    }
}

/// Reads the evolution fitness of a member; nothing where the member holds none.
pub fn read_evolution_fitness_at(value: &Json, name: &str) -> (r: Option<EvolutionFitness>)
    ensures
        r.deep_view() == evolution_fitness_at(value.deep_view(), name@),
{
    match value.field(name) {
        Some(v) => read_evolution_fitness(v),
        None => None,
    }
}

/// The packs of a candidate that a JSON document holds: none, where the document states
/// none.
pub open spec fn evolution_candidate_record_semantic_packs_or_default(value: JsonModel) -> Option<
    Seq<Seq<char>>,
> {
    if repeated(value, "semantic_packs"@) {
        None
    } else {
        match member(value, "semantic_packs"@) {
            Some(_) => texts_at(value, "semantic_packs"@),
            None => Some(Seq::empty()),
        }
    }
}

fn read_evolution_candidate_record_semantic_packs(value: &Json) -> (r: Option<Vec<String>>)
    ensures
        r.deep_view() == evolution_candidate_record_semantic_packs_or_default(value.deep_view()),
{
    if value.repeats("semantic_packs") {
        return None;
    }
    match value.get("semantic_packs") {
        Some(_) => read_texts(value, "semantic_packs"),
        None => {
            let none: Vec<String> = Vec::new();
            assert(none.deep_view() =~= Seq::<Seq<char>>::empty());
            Some(none)
        },
    }
}

/// Whether a JSON document holds every field of an evolution candidate record.
pub open spec fn evolution_candidate_record_readable(value: JsonModel) -> bool {
    &&& text_at(value, "id"@) is Some
    &&& text_at(value, "language"@) is Some
    &&& text_at(value, "target_id"@) is Some
    &&& evolution_candidate_kind_at(value, "kind"@) is Some
    &&& evolution_strategy_at(value, "strategy"@) is Some
    &&& evolution_candidate_status_at(value, "status"@) is Some
    &&& optional_text_at(value, "source_artifact"@) is Some
    &&& optional_text_at(value, "source_finding_id"@) is Some
    &&& optional_text_at(value, "domain"@) is Some
    &&& evolution_candidate_record_semantic_packs_or_default(value) is Some
    &&& evolution_fitness_at(value, "fitness"@) is Some
    &&& text_at(value, "proposed_action"@) is Some
    &&& text_at(value, "keep_if"@) is Some
    &&& texts_at(value, "proof_commands"@) is Some
    &&& texts_at(value, "done_when"@) is Some
}

/// The evolution candidate record that a JSON document holds.
pub open spec fn evolution_candidate_record_in(
    value: JsonModel,
) -> Option<EvolutionCandidateRecordModel> {
    if evolution_candidate_record_readable(value) {
        Some(
            EvolutionCandidateRecordModel {
                id: text_at(value, "id"@)->0,
                language: text_at(value, "language"@)->0,
                target_id: text_at(value, "target_id"@)->0,
                kind: evolution_candidate_kind_at(value, "kind"@)->0,
                strategy: evolution_strategy_at(value, "strategy"@)->0,
                status: evolution_candidate_status_at(value, "status"@)->0,
                source_artifact: optional_text_at(value, "source_artifact"@)->0,
                source_finding_id: optional_text_at(value, "source_finding_id"@)->0,
                domain: optional_text_at(value, "domain"@)->0,
                semantic_packs: evolution_candidate_record_semantic_packs_or_default(value)->0,
                fitness: evolution_fitness_at(value, "fitness"@)->0,
                proposed_action: text_at(value, "proposed_action"@)->0,
                keep_if: text_at(value, "keep_if"@)->0,
                proof_commands: texts_at(value, "proof_commands"@)->0,
                done_when: texts_at(value, "done_when"@)->0,
            },
        )
    } else {
        None
    }
}

/// Reads an evolution candidate record; nothing where the value holds none.
pub fn read_evolution_candidate_record(value: &Json) -> (r: Option<EvolutionCandidateRecord>)
    ensures
        r.deep_view() == evolution_candidate_record_in(value.deep_view()),
{
    let id: String = match read_text(value, "id") {
        Some(v) => v,
        None => return None,
    };
    let language: String = match read_text(value, "language") {
        Some(v) => v,
        None => return None,
    };
    let target_id: String = match read_text(value, "target_id") {
        Some(v) => v,
        None => return None,
    };
    let kind: EvolutionCandidateKind = match read_evolution_candidate_kind_at(value, "kind") {
        Some(v) => v,
        None => return None,
    };
    let strategy: EvolutionStrategy = match read_evolution_strategy_at(value, "strategy") {
        Some(v) => v,
        None => return None,
    };
    let status: EvolutionCandidateStatus = match read_evolution_candidate_status_at(value, "status") {
        Some(v) => v,
        None => return None,
    };
    let source_artifact: Option<String> = match read_optional_text(value, "source_artifact") {
        Some(v) => v,
        None => return None,
    };
    let source_finding_id: Option<String> = match read_optional_text(value, "source_finding_id") {
        Some(v) => v,
        None => return None,
    };
    let domain: Option<String> = match read_optional_text(value, "domain") {
        Some(v) => v,
        None => return None,
    };
    let semantic_packs: Vec<String> = match read_evolution_candidate_record_semantic_packs(value) {
        Some(v) => v,
        None => return None,
    };
    let fitness: EvolutionFitness = match read_evolution_fitness_at(value, "fitness") {
        Some(v) => v,
        None => return None,
    };
    let proposed_action: String = match read_text(value, "proposed_action") {
        Some(v) => v,
        None => return None,
    };
    let keep_if: String = match read_text(value, "keep_if") {
        Some(v) => v,
        None => return None,
    };
    let proof_commands: Vec<String> = match read_texts(value, "proof_commands") {
        Some(v) => v,
        None => return None,
    };
    let done_when: Vec<String> = match read_texts(value, "done_when") {
        Some(v) => v,
        None => return None,
    };
    Some(
        EvolutionCandidateRecord {
            id,
            language,
            target_id,
            kind,
            strategy,
            status,
            source_artifact,
            source_finding_id,
            domain,
            semantic_packs,
            fitness,
            proposed_action,
            keep_if,
            proof_commands,
            done_when,
        },
    )
}

/// The records of an array; nothing where an item is no such record.
pub open spec fn all_evolution_candidate_records(
    items: Seq<JsonModel>,
) -> Option<Seq<EvolutionCandidateRecordModel>>
    decreases items.len(),
{
    if items.len() == 0 {
        Some(Seq::empty())
    } else {
        match (all_evolution_candidate_records(items.drop_last()), evolution_candidate_record_in(items.last())) {
            (Some(before), Some(v)) => Some(before.push(v)),
            _ => None,
        }
    }
}

proof fn lemma_all_evolution_candidate_records_before(items: Seq<JsonModel>, n: int)
    requires
        0 <= n <= items.len(),
        all_evolution_candidate_records(items.take(n)) is None,
    ensures
        all_evolution_candidate_records(items) is None,
    decreases items.len() - n,
{
    if n == items.len() {
        lemma_take_all(items);
    } else {
        lemma_take_next(items, n);
        lemma_all_evolution_candidate_records_before(items, n + 1);
    }
}

/// Reads evolution candidate records from JSON values; nothing where one of them holds none.
pub fn read_all_evolution_candidate_records(
    items: &Vec<Json>,
) -> (r: Option<Vec<EvolutionCandidateRecord>>)
    ensures
        r.deep_view() == all_evolution_candidate_records(items.deep_view()),
{
    let mut out: Vec<EvolutionCandidateRecord> = Vec::new();
    let ghost all = items.deep_view();
    let mut i: usize = 0;
    assert(out.deep_view() =~= Seq::<EvolutionCandidateRecordModel>::empty());
    assert(all_evolution_candidate_records(all.take(0)) == Some(out.deep_view()));
    while i < items.len()
        invariant
            i <= items@.len(),
            all == items.deep_view(),
            all_evolution_candidate_records(all.take(i as int)) == Some(out.deep_view()),
        decreases items@.len() - i,
    {
        proof {
            lemma_take_next(all, i as int);
        }
        let item = read_evolution_candidate_record(&items[i]);
        match item {
            Some(v) => {
                push_evolution_candidate_record(&mut out, v);
            },
            None => {
                proof {
                    lemma_all_evolution_candidate_records_before(all, i + 1);
                }
                return None;
            },
        }
        i = i + 1;
    }
    proof {
        lemma_take_all(all);
    }
    Some(out)
}

/// The evolution candidate records of a member; nothing where the member holds none.
pub open spec fn evolution_candidate_records_at(
    value: JsonModel,
    name: Seq<char>,
) -> Option<Seq<EvolutionCandidateRecordModel>> {
    match array_at(value, name) {
        Some(items) => all_evolution_candidate_records(items),
        None => None,
    }
}

/// Reads the evolution candidate records of a member; nothing where the member holds none.
pub fn read_evolution_candidate_records_at(
    value: &Json,
    name: &str,
) -> (r: Option<Vec<EvolutionCandidateRecord>>)
    ensures
        r.deep_view() == evolution_candidate_records_at(value.deep_view(), name@),
{
    match read_array(value, name) {
        Some(items) => read_all_evolution_candidate_records(items),
        None => None,
    }
}

/// Whether a JSON document holds every field of an evolution suite.
pub open spec fn evolution_suite_readable(value: JsonModel) -> bool {
    &&& unsigned_at(value, "version"@, u8::MAX as int) is Some
    &&& text_at(value, "language"@) is Some
    &&& unsigned_at(value, "generation"@, u32::MAX as int) is Some
    &&& unsigned_at(value, "selection_budget"@, usize::MAX as int) is Some
    &&& texts_at(value, "fitness_signals"@) is Some
    &&& evolution_candidate_records_at(value, "candidates"@) is Some
}

/// The evolution suite that a JSON document holds.
pub open spec fn evolution_suite_in(value: JsonModel) -> Option<EvolutionSuiteModel> {
    if evolution_suite_readable(value) {
        Some(
            EvolutionSuiteModel {
                version: (unsigned_at(value, "version"@, u8::MAX as int)->0) as u8,
                language: text_at(value, "language"@)->0,
                generation: (unsigned_at(value, "generation"@, u32::MAX as int)->0) as u32,
                selection_budget: (unsigned_at(value, "selection_budget"@, usize::MAX as int)->0) as usize,
                fitness_signals: texts_at(value, "fitness_signals"@)->0,
                candidates: evolution_candidate_records_at(value, "candidates"@)->0,
            },
        )
    } else {
        None
    }
}

/// Reads an evolution suite; nothing where the value holds none.
pub fn read_evolution_suite(value: &Json) -> (r: Option<EvolutionSuite>)
    ensures
        r.deep_view() == evolution_suite_in(value.deep_view()),
{
    let version: u8 = match read_unsigned(value, "version", 255) {
        Some(v) => v as u8,
        None => return None,
    };
    let language: String = match read_text(value, "language") {
        Some(v) => v,
        None => return None,
    };
    let generation: u32 = match read_unsigned(value, "generation", 4294967295) {
        Some(v) => v as u32,
        None => return None,
    };
    let selection_budget: usize = match read_unsigned(value, "selection_budget", usize::MAX as u64) {
        Some(v) => v as usize,
        None => return None,
    };
    let fitness_signals: Vec<String> = match read_texts(value, "fitness_signals") {
        Some(v) => v,
        None => return None,
    };
    let candidates: Vec<EvolutionCandidateRecord> = match read_evolution_candidate_records_at(value, "candidates") {
        Some(v) => v,
        None => return None,
    };
    Some(
        EvolutionSuite {
            version,
            language,
            generation,
            selection_budget,
            fitness_signals,
            candidates,
        },
    )
}

/// Whether a JSON document holds every field of an evolution quality delta.
pub open spec fn evolution_quality_delta_readable(value: JsonModel) -> bool {
    &&& optional_i16_at(value, "mutation_score_delta"@) is Some
    &&& signed_at(value, "killed_mutants_delta"@, i64::MIN as int, i64::MAX as int) is Some
    &&& signed_at(value, "surviving_mutants_delta"@, i64::MIN as int, i64::MAX as int) is Some
    &&& signed_at(value, "not_covered_mutants_delta"@, i64::MIN as int, i64::MAX as int) is Some
    &&& signed_at(value, "findings_delta"@, i64::MIN as int, i64::MAX as int) is Some
    &&& signed_at(value, "replay_cases_delta"@, i64::MIN as int, i64::MAX as int) is Some
    &&& signed_at(value, "corpus_failed_delta"@, i64::MIN as int, i64::MAX as int) is Some
    &&& signed_at(value, "budget_timed_out_delta"@, i64::MIN as int, i64::MAX as int) is Some
    &&& signed_at(value, "budget_skipped_delta"@, i64::MIN as int, i64::MAX as int) is Some
    &&& signed_at(value, "confidence_delta"@, i16::MIN as int, i16::MAX as int) is Some
}

/// The evolution quality delta that a JSON document holds.
pub open spec fn evolution_quality_delta_in(value: JsonModel) -> Option<EvolutionQualityDelta> {
    if evolution_quality_delta_readable(value) {
        Some(
            EvolutionQualityDelta {
                mutation_score_delta: optional_i16_at(value, "mutation_score_delta"@)->0,
                killed_mutants_delta: (signed_at(value, "killed_mutants_delta"@, i64::MIN as int, i64::MAX as int)->0) as i64,
                surviving_mutants_delta: (signed_at(value, "surviving_mutants_delta"@, i64::MIN as int, i64::MAX as int)->0) as i64,
                not_covered_mutants_delta: (signed_at(value, "not_covered_mutants_delta"@, i64::MIN as int, i64::MAX as int)->0) as i64,
                findings_delta: (signed_at(value, "findings_delta"@, i64::MIN as int, i64::MAX as int)->0) as i64,
                replay_cases_delta: (signed_at(value, "replay_cases_delta"@, i64::MIN as int, i64::MAX as int)->0) as i64,
                corpus_failed_delta: (signed_at(value, "corpus_failed_delta"@, i64::MIN as int, i64::MAX as int)->0) as i64,
                budget_timed_out_delta: (signed_at(value, "budget_timed_out_delta"@, i64::MIN as int, i64::MAX as int)->0) as i64,
                budget_skipped_delta: (signed_at(value, "budget_skipped_delta"@, i64::MIN as int, i64::MAX as int)->0) as i64,
                confidence_delta: (signed_at(value, "confidence_delta"@, i16::MIN as int, i16::MAX as int)->0) as i16,
            },
        )
    } else {
        None
    }
}

/// Reads an evolution quality delta; nothing where the value holds none.
pub fn read_evolution_quality_delta(value: &Json) -> (r: Option<EvolutionQualityDelta>)
    ensures
        r == evolution_quality_delta_in(value.deep_view()),
{
    let mutation_score_delta: Option<i16> = match read_optional_i16_at(value, "mutation_score_delta") {
        Some(v) => v,
        None => return None,
    };
    let killed_mutants_delta: i64 = match read_signed(value, "killed_mutants_delta", i64::MIN, i64::MAX) {
        Some(v) => v,
        None => return None,
    };
    let surviving_mutants_delta: i64 = match read_signed(value, "surviving_mutants_delta", i64::MIN, i64::MAX) {
        Some(v) => v,
        None => return None,
    };
    let not_covered_mutants_delta: i64 = match read_signed(value, "not_covered_mutants_delta", i64::MIN, i64::MAX) {
        Some(v) => v,
        None => return None,
    };
    let findings_delta: i64 = match read_signed(value, "findings_delta", i64::MIN, i64::MAX) {
        Some(v) => v,
        None => return None,
    };
    let replay_cases_delta: i64 = match read_signed(value, "replay_cases_delta", i64::MIN, i64::MAX) {
        Some(v) => v,
        None => return None,
    };
    let corpus_failed_delta: i64 = match read_signed(value, "corpus_failed_delta", i64::MIN, i64::MAX) {
        Some(v) => v,
        None => return None,
    };
    let budget_timed_out_delta: i64 = match read_signed(value, "budget_timed_out_delta", i64::MIN, i64::MAX) {
        Some(v) => v,
        None => return None,
    };
    let budget_skipped_delta: i64 = match read_signed(value, "budget_skipped_delta", i64::MIN, i64::MAX) {
        Some(v) => v,
        None => return None,
    };
    let confidence_delta: i16 = match read_signed(value, "confidence_delta", -32768, 32767) {
        Some(v) => v as i16,
        None => return None,
    };
    Some(
        EvolutionQualityDelta {
            mutation_score_delta,
            killed_mutants_delta,
            surviving_mutants_delta,
            not_covered_mutants_delta,
            findings_delta,
            replay_cases_delta,
            corpus_failed_delta,
            budget_timed_out_delta,
            budget_skipped_delta,
            confidence_delta,
        },
    )
}

/// The evolution quality delta of a member; nothing where the member holds none.
pub open spec fn evolution_quality_delta_at(
    value: JsonModel,
    name: Seq<char>,
) -> Option<EvolutionQualityDelta> {
    match field(value, name) {
        Some(v) => evolution_quality_delta_in(v),
        None => None,
    }
}

/// Reads the evolution quality delta of a member; nothing where the member holds none.
pub fn read_evolution_quality_delta_at(
    value: &Json,
    name: &str,
) -> (r: Option<EvolutionQualityDelta>)
    ensures
        r == evolution_quality_delta_at(value.deep_view(), name@),
{
    match value.field(name) {
        Some(v) => read_evolution_quality_delta(v),
        None => None,
    }
}

/// The optional evolution quality delta of a member; nothing where the member holds none.
pub open spec fn optional_evolution_quality_delta_at(
    value: JsonModel,
    name: Seq<char>,
) -> Option<Option<EvolutionQualityDelta>> {
    if absent(value, name) {
        Some(None)
    } else {
        match evolution_quality_delta_at(value, name) {
            Some(v) => Some(Some(v)),
            None => None,
        }
    }
}

/// Reads the optional evolution quality delta of a member; nothing where the member holds none.
pub fn read_optional_evolution_quality_delta_at(
    value: &Json,
    name: &str,
) -> (r: Option<Option<EvolutionQualityDelta>>)
    ensures
        r == optional_evolution_quality_delta_at(value.deep_view(), name@),
{
    if is_absent(value, name) {
        Some(None)
    } else {
        match read_evolution_quality_delta_at(value, name) {
            Some(v) => Some(Some(v)),
            None => None,
        }
    }
}

/// Whether a JSON document holds every field of an evolution generation candidate.
pub open spec fn evolution_generation_candidate_readable(value: JsonModel) -> bool {
    &&& text_at(value, "id"@) is Some
    &&& text_at(value, "target_id"@) is Some
    &&& evolution_candidate_status_at(value, "previous_status"@) is Some
    &&& evolution_candidate_status_at(value, "status"@) is Some
    &&& evolution_outcome_at(value, "outcome"@) is Some
    &&& flag_at(value, "applied"@) is Some
    &&& texts_at(value, "written_paths"@) is Some
    &&& optional_text_at(value, "skipped_reason"@) is Some
}

/// The evolution generation candidate that a JSON document holds.
pub open spec fn evolution_generation_candidate_in(
    value: JsonModel,
) -> Option<EvolutionGenerationCandidateModel> {
    if evolution_generation_candidate_readable(value) {
        Some(
            EvolutionGenerationCandidateModel {
                id: text_at(value, "id"@)->0,
                target_id: text_at(value, "target_id"@)->0,
                previous_status: evolution_candidate_status_at(value, "previous_status"@)->0,
                status: evolution_candidate_status_at(value, "status"@)->0,
                outcome: evolution_outcome_at(value, "outcome"@)->0,
                applied: flag_at(value, "applied"@)->0,
                written_paths: texts_at(value, "written_paths"@)->0,
                skipped_reason: optional_text_at(value, "skipped_reason"@)->0,
            },
        )
    } else {
        None
    }
}

/// Reads an evolution generation candidate; nothing where the value holds none.
pub fn read_evolution_generation_candidate(
    value: &Json,
) -> (r: Option<EvolutionGenerationCandidate>)
    ensures
        r.deep_view() == evolution_generation_candidate_in(value.deep_view()),
{
    let id: String = match read_text(value, "id") {
        Some(v) => v,
        None => return None,
    };
    let target_id: String = match read_text(value, "target_id") {
        Some(v) => v,
        None => return None,
    };
    let previous_status: EvolutionCandidateStatus = match read_evolution_candidate_status_at(value, "previous_status") {
        Some(v) => v,
        None => return None,
    };
    let status: EvolutionCandidateStatus = match read_evolution_candidate_status_at(value, "status") {
        Some(v) => v,
        None => return None,
    };
    let outcome: EvolutionOutcome = match read_evolution_outcome_at(value, "outcome") {
        Some(v) => v,
        None => return None,
    };
    let applied: bool = match read_flag(value, "applied") {
        Some(v) => v,
        None => return None,
    };
    let written_paths: Vec<String> = match read_texts(value, "written_paths") {
        Some(v) => v,
        None => return None,
    };
    let skipped_reason: Option<String> = match read_optional_text(value, "skipped_reason") {
        Some(v) => v,
        None => return None,
    };
    Some(
        EvolutionGenerationCandidate {
            id,
            target_id,
            previous_status,
            status,
            outcome,
            applied,
            written_paths,
            skipped_reason,
        },
    )
}

/// The records of an array; nothing where an item is no such record.
pub open spec fn all_evolution_generation_candidates(
    items: Seq<JsonModel>,
) -> Option<Seq<EvolutionGenerationCandidateModel>>
    decreases items.len(),
{
    if items.len() == 0 {
        Some(Seq::empty())
    } else {
        match (all_evolution_generation_candidates(items.drop_last()), evolution_generation_candidate_in(items.last())) {
            (Some(before), Some(v)) => Some(before.push(v)),
            _ => None,
        }
    }
}

proof fn lemma_all_evolution_generation_candidates_before(items: Seq<JsonModel>, n: int)
    requires
        0 <= n <= items.len(),
        all_evolution_generation_candidates(items.take(n)) is None,
    ensures
        all_evolution_generation_candidates(items) is None,
    decreases items.len() - n,
{
    if n == items.len() {
        lemma_take_all(items);
    } else {
        lemma_take_next(items, n);
        lemma_all_evolution_generation_candidates_before(items, n + 1);
    }
}

/// Reads evolution generation candidates from JSON values; nothing where one of them holds none.
pub fn read_all_evolution_generation_candidates(
    items: &Vec<Json>,
) -> (r: Option<Vec<EvolutionGenerationCandidate>>)
    ensures
        r.deep_view() == all_evolution_generation_candidates(items.deep_view()),
{
    let mut out: Vec<EvolutionGenerationCandidate> = Vec::new();
    let ghost all = items.deep_view();
    let mut i: usize = 0;
    assert(out.deep_view() =~= Seq::<EvolutionGenerationCandidateModel>::empty());
    assert(all_evolution_generation_candidates(all.take(0)) == Some(out.deep_view()));
    while i < items.len()
        invariant
            i <= items@.len(),
            all == items.deep_view(),
            all_evolution_generation_candidates(all.take(i as int)) == Some(out.deep_view()),
        decreases items@.len() - i,
    {
        proof {
            lemma_take_next(all, i as int);
        }
        let item = read_evolution_generation_candidate(&items[i]);
        match item {
            Some(v) => {
                push_evolution_generation_candidate(&mut out, v);
            },
            None => {
                proof {
                    lemma_all_evolution_generation_candidates_before(all, i + 1);
                }
                return None;
            },
        }
        i = i + 1;
    }
    proof {
        lemma_take_all(all);
    }
    Some(out)
}

/// The evolution generation candidates of a member; nothing where the member holds none.
pub open spec fn evolution_generation_candidates_at(
    value: JsonModel,
    name: Seq<char>,
) -> Option<Seq<EvolutionGenerationCandidateModel>> {
    match array_at(value, name) {
        Some(items) => all_evolution_generation_candidates(items),
        None => None,
    }
}

/// Reads the evolution generation candidates of a member; nothing where the member holds none.
pub fn read_evolution_generation_candidates_at(
    value: &Json,
    name: &str,
) -> (r: Option<Vec<EvolutionGenerationCandidate>>)
    ensures
        r.deep_view() == evolution_generation_candidates_at(value.deep_view(), name@),
{
    match read_array(value, name) {
        Some(items) => read_all_evolution_generation_candidates(items),
        None => None,
    }
}

/// Whether a JSON document holds every field of an evolution generation.
pub open spec fn evolution_generation_readable(value: JsonModel) -> bool {
    &&& unsigned_at(value, "version"@, u8::MAX as int) is Some
    &&& text_at(value, "language"@) is Some
    &&& unsigned_at(value, "generation"@, u32::MAX as int) is Some
    &&& text_at(value, "parent_suite"@) is Some
    &&& unsigned_at(value, "created_unix_seconds"@, u64::MAX as int) is Some
    &&& evolution_outcome_at(value, "outcome"@) is Some
    &&& evolution_generation_candidates_at(value, "candidates"@) is Some
    &&& optional_evolution_quality_delta_at(value, "delta"@) is Some
    &&& texts_at(value, "written_paths"@) is Some
}

/// The evolution generation that a JSON document holds.
pub open spec fn evolution_generation_in(value: JsonModel) -> Option<EvolutionGenerationModel> {
    if evolution_generation_readable(value) {
        Some(
            EvolutionGenerationModel {
                version: (unsigned_at(value, "version"@, u8::MAX as int)->0) as u8,
                language: text_at(value, "language"@)->0,
                generation: (unsigned_at(value, "generation"@, u32::MAX as int)->0) as u32,
                parent_suite: text_at(value, "parent_suite"@)->0,
                created_unix_seconds: (unsigned_at(value, "created_unix_seconds"@, u64::MAX as int)->0) as u64,
                outcome: evolution_outcome_at(value, "outcome"@)->0,
                candidates: evolution_generation_candidates_at(value, "candidates"@)->0,
                delta: optional_evolution_quality_delta_at(value, "delta"@)->0,
                written_paths: texts_at(value, "written_paths"@)->0,
            },
        )
    } else {
        None
    }
}

/// Reads an evolution generation; nothing where the value holds none.
pub fn read_evolution_generation(value: &Json) -> (r: Option<EvolutionGeneration>)
    ensures
        r.deep_view() == evolution_generation_in(value.deep_view()),
{
    let version: u8 = match read_unsigned(value, "version", 255) {
        Some(v) => v as u8,
        None => return None,
    };
    let language: String = match read_text(value, "language") {
        Some(v) => v,
        None => return None,
    };
    let generation: u32 = match read_unsigned(value, "generation", 4294967295) {
        Some(v) => v as u32,
        None => return None,
    };
    let parent_suite: String = match read_text(value, "parent_suite") {
        Some(v) => v,
        None => return None,
    };
    let created_unix_seconds: u64 = match read_unsigned(value, "created_unix_seconds", u64::MAX) {
        Some(v) => v,
        None => return None,
    };
    let outcome: EvolutionOutcome = match read_evolution_outcome_at(value, "outcome") {
        Some(v) => v,
        None => return None,
    };
    let candidates: Vec<EvolutionGenerationCandidate> = match read_evolution_generation_candidates_at(value, "candidates") {
        Some(v) => v,
        None => return None,
    };
    let delta: Option<EvolutionQualityDelta> = match read_optional_evolution_quality_delta_at(value, "delta") {
        Some(v) => v,
        None => return None,
    };
    let written_paths: Vec<String> = match read_texts(value, "written_paths") {
        Some(v) => v,
        None => return None,
    };
    Some(
        EvolutionGeneration {
            version,
            language,
            generation,
            parent_suite,
            created_unix_seconds,
            outcome,
            candidates,
            delta,
            written_paths,
        },
    )
}

/// Whether a JSON document holds every field of a quality baseline.
pub open spec fn quality_baseline_readable(value: JsonModel) -> bool {
    &&& unsigned_at(value, "version"@, u8::MAX as int) is Some
    &&& verification_quality_at(value, "quality"@) is Some
    &&& unsigned_at(value, "confidence"@, u8::MAX as int) is Some
}

/// The quality baseline that a JSON document holds.
pub open spec fn quality_baseline_in(value: JsonModel) -> Option<QualityBaselineModel> {
    if quality_baseline_readable(value) {
        Some(
            QualityBaselineModel {
                version: (unsigned_at(value, "version"@, u8::MAX as int)->0) as u8,
                quality: verification_quality_at(value, "quality"@)->0,
                confidence: (unsigned_at(value, "confidence"@, u8::MAX as int)->0) as u8,
            },
        )
    } else {
        None
    }
}

/// Reads a quality baseline; nothing where the value holds none.
pub fn read_quality_baseline(value: &Json) -> (r: Option<QualityBaseline>)
    ensures
        r.deep_view() == quality_baseline_in(value.deep_view()),
{
    let version: u8 = match read_unsigned(value, "version", 255) {
        Some(v) => v as u8,
        None => return None,
    };
    let quality: VerificationQuality = match read_verification_quality_at(value, "quality") {
        Some(v) => v,
        None => return None,
    };
    let confidence: u8 = match read_unsigned(value, "confidence", 255) {
        Some(v) => v as u8,
        None => return None,
    };
    Some(
        QualityBaseline {
            version,
            quality,
            confidence,
        },
    )
}

} // verus!
