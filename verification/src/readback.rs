//! What is written of records is read back as it was.
use vstd::prelude::*;

use crate::api::{
    ArtifactKind, ArtifactStatus, CommandRecordModel, CoverageFileModel, CoverageReportModel,
    FailureModel, FailureSeverity, GeneratedArtifactModel, LineRange, ProjectInfoModel,
    ReproCaseModel, RiskLevel, RunStatus, TargetKind, TestRunResultModel, VerificationPlanModel,
    VerificationReportModel, VerificationStrategy, VerificationTargetModel,
};
use crate::cache::{
    all_target_cache_sources, target_cache_document, target_cache_in, target_cache_source_document,
    target_cache_source_documents, target_cache_source_in, target_cache_sources_at,
    TargetCacheModel, TargetCacheSourceModel,
};
use crate::documents::{
    all_command_records, all_counts, all_coverage_files, all_coverage_reports,
    all_evolution_candidate_records, all_evolution_generation_candidates, all_failures,
    all_generated_artifacts, all_mutation_records, all_test_run_results,
    all_verification_strategies, all_verification_targets, artifact_kind_at,
    artifact_kind_labelled, artifact_status_at, artifact_status_labelled,
    assertion_candidate_document, assertion_candidate_in, assertion_domain_at,
    assertion_domain_labelled, assertion_source_at, assertion_source_labelled, attribution_at,
    attribution_counts, attribution_members, budget_metrics_at, budget_metrics_document,
    budget_metrics_in, command_record_document, command_record_documents, command_record_in,
    command_records_at, corpus_entry_document, corpus_entry_in, coverage_file_document,
    coverage_file_documents, coverage_file_in, coverage_files_at, coverage_report_document,
    coverage_report_documents, coverage_report_in, coverage_reports_at,
    evolution_candidate_kind_at, evolution_candidate_kind_labelled,
    evolution_candidate_record_document, evolution_candidate_record_documents,
    evolution_candidate_record_in, evolution_candidate_record_semantic_packs_or_default,
    evolution_candidate_records_at, evolution_candidate_status_at,
    evolution_candidate_status_labelled, evolution_fitness_at, evolution_fitness_document,
    evolution_fitness_in, evolution_generation_candidate_document,
    evolution_generation_candidate_documents, evolution_generation_candidate_in,
    evolution_generation_candidates_at, evolution_generation_document, evolution_generation_in,
    evolution_metrics_at, evolution_metrics_document, evolution_metrics_in, evolution_outcome_at,
    evolution_outcome_labelled, evolution_quality_delta_document, evolution_quality_delta_in,
    evolution_strategy_at, evolution_strategy_labelled, evolution_suite_document,
    evolution_suite_in, failure_document, failure_documents, failure_in, failure_severity_labelled,
    failure_severity_or_default, failures_at, fuzz_metrics_at, fuzz_metrics_document,
    fuzz_metrics_in, generated_artifact_document, generated_artifact_documents,
    generated_artifact_in, generated_artifacts_at, line_range_document, line_range_in,
    member_names, mutation_attribution_document, mutation_attribution_in, mutation_metrics_at,
    mutation_metrics_document, mutation_metrics_in, mutation_record_document,
    mutation_record_documents, mutation_record_in, mutation_records_at, mutation_status_at,
    mutation_status_labelled, optional_evolution_quality_delta_at,
    optional_evolution_quality_delta_document, optional_i16_at, optional_i32_at,
    optional_line_range_at, optional_line_range_document, optional_project_info_at,
    optional_project_info_document, optional_repro_case_at, optional_repro_case_document,
    optional_u64_at, optional_u8_at, optional_verification_plan_at,
    optional_verification_plan_document, performance_metrics_at, performance_metrics_document,
    performance_metrics_in, project_info_document, project_info_in, property_metrics_at,
    property_metrics_document, property_metrics_in, quality_baseline_document, quality_baseline_in,
    regression_metrics_at, regression_metrics_document, regression_metrics_in, replay_metrics_at,
    replay_metrics_document, replay_metrics_in, repro_case_document, repro_case_in, risk_level_at,
    risk_level_labelled, run_status_at, run_status_labelled, target_kind_at, target_kind_labelled,
    test_run_result_document, test_run_result_documents, test_run_result_fields, test_run_result_in,
    test_run_result_quality_or_default, test_run_results_at, verification_plan_document,
    verification_plan_in, verification_quality_at, verification_quality_document,
    verification_quality_in, verification_report_document, verification_report_in,
    verification_report_quality_or_default, verification_strategies_at,
    verification_strategy_documents, verification_strategy_labelled, verification_target_document,
    verification_target_documents, verification_target_in, verification_targets_at,
};
use crate::fields::{
    all_texts, flag_at, optional_text_at, signed_at, text_at, texts_at, unsigned_at,
};
use crate::json::{
    as_signed, as_whole, distinct_names, is_exact, is_plain, is_plain_number,
    lemma_members_are_fields, lemma_plain_values_are_exact, member, member_before, number_or_null,
    text_or_null, texts_model, JsonModel,
};
use crate::metrics::{
    AttributionEntryModel, BudgetMetrics, EvolutionMetrics, FuzzMetrics, MutationAttribution,
    MutationMetricsModel, MutationRecordModel, MutationStatus, PerformanceMetrics, PropertyMetrics,
    RegressionMetrics, ReplayMetrics, VerificationQualityModel,
};
use crate::number::{all_digits, decimal, digit_char, digits_value, parsed, signed_decimal};
use crate::order::{ascending, lemma_text_lt_irreflexive, sorted_set, text_lt, ByText};
use crate::records::{
    AssertionCandidateModel, AssertionDomain, AssertionSource, CorpusEntryModel,
    EvolutionCandidateKind, EvolutionCandidateRecordModel, EvolutionCandidateStatus,
    EvolutionFitnessModel, EvolutionGenerationCandidateModel, EvolutionGenerationModel,
    EvolutionOutcome, EvolutionQualityDelta, EvolutionStrategy, EvolutionSuiteModel,
    QualityBaselineModel,
};
use crate::text::is_digit;

verus! {

/// The digits of a number stand for it.
pub proof fn lemma_decimal_reads(n: int)
    requires
        0 <= n,
    ensures
        decimal(n).len() > 0,
        all_digits(decimal(n)),
        digits_value(decimal(n)) == n,
        is_digit(decimal(n)[0]),
    decreases n,
{
    if n >= 10 {
        lemma_decimal_reads(n / 10);
        let before = decimal(n / 10);
        let s = before.push(digit_char(n % 10));
        assert(s.drop_last() =~= before);
        assert forall|i: int| 0 <= i < s.len() implies is_digit(#[trigger] s[i]) by {
            if i < before.len() {
                assert(is_digit(before[i]));
            }
        }
        assert(s[0] == before[0]);
    } else {
        let s = seq![digit_char(n)];
        assert(s.drop_last().len() == 0);
        assert(digits_value(s.drop_last()) == 0);
    }
}

/// A number that was printed is read as it was.
pub proof fn law_numbers_read_back(n: int, max: int)
    requires
        0 <= n <= max,
    ensures
        parsed(decimal(n), max) == Some(n),
{
    lemma_decimal_reads(n);
}

proof fn lemma_unsigned_reads(n: int)
    requires
        0 <= n <= u128::MAX,
    ensures
        as_whole(JsonModel::Number(decimal(n))) == Some(n),
        n <= u64::MAX ==> is_plain_number(decimal(n)),
        forall|depth: nat| #[trigger] is_exact(JsonModel::Number(decimal(n)), depth),
{
    lemma_decimal_reads(n);
    assert(decimal(n) == signed_decimal(n));
}

proof fn lemma_signed_reads(n: int)
    requires
        i64::MIN <= n <= i64::MAX,
    ensures
        as_signed(JsonModel::Number(signed_decimal(n))) == Some(n),
        is_plain_number(signed_decimal(n)),
{
    if n < 0 {
        lemma_decimal_reads(-n);
        let t = signed_decimal(n);
        assert(t.skip(1) =~= decimal(-n));
        assert(t[1] == decimal(-n)[0]);
    } else {
        lemma_decimal_reads(n);
    }
}

proof fn lemma_member_before_is_found(members: Seq<(Seq<char>, JsonModel)>, j: int, n: int)
    requires
        distinct_names(members),
        0 <= j < n <= members.len(),
    ensures
        member_before(members, members[j].0, n) == Some(members[j].1),
    decreases n,
{
    if j < n - 1 {
        assert(members[j].0 != members[n - 1].0);
        lemma_member_before_is_found(members, j, n - 1);
    }
}

/// A member of an object is found under its name.
pub proof fn lemma_member_is_found(members: Seq<(Seq<char>, JsonModel)>, j: int)
    requires
        distinct_names(members),
        0 <= j < members.len(),
    ensures
        member(JsonModel::Object(members), members[j].0) == Some(members[j].1),
{
    lemma_member_before_is_found(members, j, members.len() as int);
}

/// Texts that were written are read as they were.
pub proof fn lemma_texts_read(items: Seq<Seq<char>>)
    ensures
        texts_model(items) is Array,
        all_texts(texts_model(items)->Array_0) == Some(items),
    decreases items.len(),
{
    let all = texts_model(items)->Array_0;
    if items.len() > 0 {
        lemma_texts_read(items.drop_last());
        assert(all.drop_last() =~= texts_model(items.drop_last())->Array_0);
        assert(items =~= items.drop_last().push(items.last()));
    } else {
        assert(items =~= Seq::<Seq<char>>::empty());
    }
}

/// Texts are an ordinary value.
pub proof fn lemma_texts_are_plain(items: Seq<Seq<char>>, depth: nat)
    requires
        depth > 0,
    ensures
        is_plain(texts_model(items), depth),
{
    reveal_with_fuel(is_plain, 2);
}

proof fn lemma_artifact_kind_reads(v: ArtifactKind)
    ensures
        artifact_kind_labelled(v.label_text()) == Some(v),
{
    reveal_strlit("unit_test");
    reveal_strlit("property_test");
    reveal_strlit("fuzz_harness");
    reveal_strlit("harness_index");
    reveal_strlit("mutation_check");
    reveal_strlit("coverage_feedback");
    reveal_strlit("differential_baseline");
    reveal_strlit("repro_case");
    reveal_strlit("package_awareness");
    reveal_strlit("package_graph");
    reveal_strlit("symbol_graph");
    reveal_strlit("change_digest");
    reveal_strlit("ai_feedback");
    reveal_strlit("candidate_patch");
    reveal_strlit("finding_baseline");
    reveal_strlit("regression_test");
    reveal_strlit("differential_replay");
    reveal_strlit("target_cache");
    reveal_strlit("evolution_candidate");
    reveal_strlit("evolution_plan");
    reveal_strlit("evolution_suite");
    reveal_strlit("assertion_candidate");
    reveal_strlit("corpus_entry");
    reveal_strlit("corpus_replay");
    reveal_strlit("replay_result");
    reveal_strlit("budget_plan");
    reveal_strlit("mutation_trend");
    reveal_strlit("mutation_campaign");
    assert("unit_test"@.len() == 9);
    assert("property_test"@.len() == 13);
    assert("fuzz_harness"@.len() == 12);
    assert("harness_index"@.len() == 13);
    assert("mutation_check"@.len() == 14);
    assert("coverage_feedback"@.len() == 17);
    assert("differential_baseline"@.len() == 21);
    assert("repro_case"@.len() == 10);
    assert("package_awareness"@.len() == 17);
    assert("package_graph"@.len() == 13);
    assert("symbol_graph"@.len() == 12);
    assert("change_digest"@.len() == 13);
    assert("ai_feedback"@.len() == 11);
    assert("candidate_patch"@.len() == 15);
    assert("finding_baseline"@.len() == 16);
    assert("regression_test"@.len() == 15);
    assert("differential_replay"@.len() == 19);
    assert("target_cache"@.len() == 12);
    assert("evolution_candidate"@.len() == 19);
    assert("evolution_plan"@.len() == 14);
    assert("evolution_suite"@.len() == 15);
    assert("assertion_candidate"@.len() == 19);
    assert("corpus_entry"@.len() == 12);
    assert("corpus_replay"@.len() == 13);
    assert("replay_result"@.len() == 13);
    assert("budget_plan"@.len() == 11);
    assert("mutation_trend"@.len() == 14);
    assert("mutation_campaign"@.len() == 17);
    assert("property_test"@[0] == 'p');
    assert("property_test"@[1] == 'r');
    assert("fuzz_harness"@[0] == 'f');
    assert("harness_index"@[0] == 'h');
    assert("mutation_check"@[0] == 'm');
    assert("mutation_check"@[9] == 'c');
    assert("coverage_feedback"@[0] == 'c');
    assert("package_awareness"@[0] == 'p');
    assert("package_graph"@[0] == 'p');
    assert("package_graph"@[1] == 'a');
    assert("symbol_graph"@[0] == 's');
    assert("change_digest"@[0] == 'c');
    assert("change_digest"@[1] == 'h');
    assert("ai_feedback"@[0] == 'a');
    assert("candidate_patch"@[0] == 'c');
    assert("regression_test"@[0] == 'r');
    assert("differential_replay"@[0] == 'd');
    assert("target_cache"@[0] == 't');
    assert("evolution_candidate"@[0] == 'e');
    assert("evolution_plan"@[0] == 'e');
    assert("evolution_suite"@[0] == 'e');
    assert("assertion_candidate"@[0] == 'a');
    assert("corpus_entry"@[0] == 'c');
    assert("corpus_replay"@[0] == 'c');
    assert("corpus_replay"@[1] == 'o');
    assert("replay_result"@[0] == 'r');
    assert("budget_plan"@[0] == 'b');
    assert("mutation_trend"@[0] == 'm');
    assert("mutation_trend"@[9] == 't');
    assert("mutation_campaign"@[0] == 'm');
}

proof fn lemma_artifact_status_reads(v: ArtifactStatus)
    ensures
        artifact_status_labelled(v.label_text()) == Some(v),
{
    reveal_strlit("planned");
    reveal_strlit("written");
    reveal_strlit("skipped");
    assert("planned"@.len() == 7);
    assert("written"@.len() == 7);
    assert("skipped"@.len() == 7);
    assert("planned"@[0] == 'p');
    assert("written"@[0] == 'w');
    assert("skipped"@[0] == 's');
}

proof fn lemma_assertion_domain_reads(v: AssertionDomain)
    ensures
        assertion_domain_labelled(v.label_text()) == Some(v),
{
    reveal_strlit("auth_permission");
    reveal_strlit("money");
    reveal_strlit("parsing");
    reveal_strlit("serialization");
    reveal_strlit("error_handling");
    reveal_strlit("boundary");
    reveal_strlit("general");
    assert("auth_permission"@.len() == 15);
    assert("money"@.len() == 5);
    assert("parsing"@.len() == 7);
    assert("serialization"@.len() == 13);
    assert("error_handling"@.len() == 14);
    assert("boundary"@.len() == 8);
    assert("general"@.len() == 7);
    assert("parsing"@[0] == 'p');
    assert("general"@[0] == 'g');
}

proof fn lemma_assertion_source_reads(v: AssertionSource)
    ensures
        assertion_source_labelled(v.label_text()) == Some(v),
{
    reveal_strlit("mutation_survivor");
    reveal_strlit("fuzz_repro");
    reveal_strlit("generated_test_failure");
    reveal_strlit("differential_replay");
    reveal_strlit("coverage_gap");
    assert("mutation_survivor"@.len() == 17);
    assert("fuzz_repro"@.len() == 10);
    assert("generated_test_failure"@.len() == 22);
    assert("differential_replay"@.len() == 19);
    assert("coverage_gap"@.len() == 12);
}

proof fn lemma_evolution_candidate_kind_reads(v: EvolutionCandidateKind)
    ensures
        evolution_candidate_kind_labelled(v.label_text()) == Some(v),
{
    reveal_strlit("property");
    reveal_strlit("mutation");
    reveal_strlit("fuzz");
    reveal_strlit("regression");
    reveal_strlit("replay");
    reveal_strlit("budget");
    assert("property"@.len() == 8);
    assert("mutation"@.len() == 8);
    assert("fuzz"@.len() == 4);
    assert("regression"@.len() == 10);
    assert("replay"@.len() == 6);
    assert("budget"@.len() == 6);
    assert("property"@[0] == 'p');
    assert("mutation"@[0] == 'm');
    assert("replay"@[0] == 'r');
    assert("budget"@[0] == 'b');
}

proof fn lemma_evolution_candidate_status_reads(v: EvolutionCandidateStatus)
    ensures
        evolution_candidate_status_labelled(v.label_text()) == Some(v),
{
    reveal_strlit("proposed");
    reveal_strlit("selected");
    reveal_strlit("applied");
    reveal_strlit("kept");
    reveal_strlit("rejected");
    assert("proposed"@.len() == 8);
    assert("selected"@.len() == 8);
    assert("applied"@.len() == 7);
    assert("kept"@.len() == 4);
    assert("rejected"@.len() == 8);
    assert("proposed"@[0] == 'p');
    assert("selected"@[0] == 's');
    assert("rejected"@[0] == 'r');
}

proof fn lemma_evolution_outcome_reads(v: EvolutionOutcome)
    ensures
        evolution_outcome_labelled(v.label_text()) == Some(v),
{
    reveal_strlit("improved");
    reveal_strlit("neutral");
    reveal_strlit("regressed");
    reveal_strlit("failed_to_evaluate");
    assert("improved"@.len() == 8);
    assert("neutral"@.len() == 7);
    assert("regressed"@.len() == 9);
    assert("failed_to_evaluate"@.len() == 18);
}

proof fn lemma_evolution_strategy_reads(v: EvolutionStrategy)
    ensures
        evolution_strategy_labelled(v.label_text()) == Some(v),
{
    reveal_strlit("add_assertion");
    reveal_strlit("promote_corpus");
    reveal_strlit("narrow_target");
    reveal_strlit("reduce_budget_risk");
    reveal_strlit("strengthen_property");
    assert("add_assertion"@.len() == 13);
    assert("promote_corpus"@.len() == 14);
    assert("narrow_target"@.len() == 13);
    assert("reduce_budget_risk"@.len() == 18);
    assert("strengthen_property"@.len() == 19);
    assert("add_assertion"@[0] == 'a');
    assert("narrow_target"@[0] == 'n');
}

proof fn lemma_failure_severity_reads(v: FailureSeverity)
    ensures
        failure_severity_labelled(v.label_text()) == Some(v),
{
    reveal_strlit("info");
    reveal_strlit("warning");
    reveal_strlit("error");
    reveal_strlit("critical");
    assert("info"@.len() == 4);
    assert("warning"@.len() == 7);
    assert("error"@.len() == 5);
    assert("critical"@.len() == 8);
}

proof fn lemma_mutation_status_reads(v: MutationStatus)
    ensures
        mutation_status_labelled(v.label_text()) == Some(v),
{
    reveal_strlit("runnable");
    reveal_strlit("not_covered");
    reveal_strlit("killed");
    reveal_strlit("lived");
    reveal_strlit("timed_out");
    reveal_strlit("not_viable");
    reveal_strlit("skipped");
    assert("runnable"@.len() == 8);
    assert("not_covered"@.len() == 11);
    assert("killed"@.len() == 6);
    assert("lived"@.len() == 5);
    assert("timed_out"@.len() == 9);
    assert("not_viable"@.len() == 10);
    assert("skipped"@.len() == 7);
}

proof fn lemma_risk_level_reads(v: RiskLevel)
    ensures
        risk_level_labelled(v.label_text()) == Some(v),
{
    reveal_strlit("low");
    reveal_strlit("medium");
    reveal_strlit("high");
    assert("low"@.len() == 3);
    assert("medium"@.len() == 6);
    assert("high"@.len() == 4);
}

proof fn lemma_run_status_reads(v: RunStatus)
    ensures
        run_status_labelled(v.label_text()) == Some(v),
{
    reveal_strlit("passed");
    reveal_strlit("failed");
    reveal_strlit("skipped");
    assert("passed"@.len() == 6);
    assert("failed"@.len() == 6);
    assert("skipped"@.len() == 7);
    assert("passed"@[0] == 'p');
    assert("failed"@[0] == 'f');
}

proof fn lemma_target_kind_reads(v: TargetKind)
    ensures
        target_kind_labelled(v.label_text()) == Some(v),
{
    reveal_strlit("project");
    reveal_strlit("package");
    reveal_strlit("file");
    reveal_strlit("function");
    assert("project"@.len() == 7);
    assert("package"@.len() == 7);
    assert("file"@.len() == 4);
    assert("function"@.len() == 8);
    assert("project"@[1] == 'r');
    assert("package"@[1] == 'a');
}

proof fn lemma_verification_strategy_reads(v: VerificationStrategy)
    ensures
        verification_strategy_labelled(v.label_text()) == Some(v),
{
    reveal_strlit("existing_tests");
    reveal_strlit("unit_tests");
    reveal_strlit("property_tests");
    reveal_strlit("fuzzing");
    reveal_strlit("differential_tests");
    reveal_strlit("mutation_checks");
    reveal_strlit("coverage_feedback");
    assert("existing_tests"@.len() == 14);
    assert("unit_tests"@.len() == 10);
    assert("property_tests"@.len() == 14);
    assert("fuzzing"@.len() == 7);
    assert("differential_tests"@.len() == 18);
    assert("mutation_checks"@.len() == 15);
    assert("coverage_feedback"@.len() == 17);
    assert("existing_tests"@[0] == 'e');
    assert("property_tests"@[0] == 'p');
}

proof fn lemma_all_verification_strategies_read(items: Seq<VerificationStrategy>)
    ensures
        all_verification_strategies(verification_strategy_documents(items)) == Some(items),
    decreases items.len(),
{
    let all = verification_strategy_documents(items);
    if items.len() > 0 {
        lemma_all_verification_strategies_read(items.drop_last());
        lemma_verification_strategy_reads(items.last());
        assert(all.drop_last() =~= verification_strategy_documents(items.drop_last()));
        assert(items =~= items.drop_last().push(items.last()));
    } else {
        assert(items =~= Seq::<VerificationStrategy>::empty());
    }
}

proof fn lemma_all_verification_strategies_are_plain(items: Seq<VerificationStrategy>, depth: nat)
    requires
        depth > 0,
    ensures
        is_plain(JsonModel::Array(verification_strategy_documents(items)), depth),
{
    reveal_with_fuel(is_plain, 2);
}

/// No member is found under a name that none has.
pub proof fn lemma_name_is_missing(members: Seq<(Seq<char>, JsonModel)>, name: Seq<char>)
    requires
        forall|i: int| 0 <= i < members.len() ==> (#[trigger] members[i]).0 != name,
    ensures
        member(JsonModel::Object(members), name) is None,
{
    lemma_name_is_missing_before(members, name, members.len() as int);
}

proof fn lemma_name_is_missing_before(
    members: Seq<(Seq<char>, JsonModel)>,
    name: Seq<char>,
    n: int,
)
    requires
        0 <= n <= members.len(),
        forall|i: int| 0 <= i < members.len() ==> (#[trigger] members[i]).0 != name,
    ensures
        member_before(members, name, n) is None,
    decreases n,
{
    if n > 0 {
        assert(members[n - 1].0 != name);
        lemma_name_is_missing_before(members, name, n - 1);
    }
}

proof fn lemma_line_range_names(v: LineRange)
    ensures
        line_range_document(v) is Object,
        distinct_names(line_range_document(v)->Object_0),
        member(line_range_document(v), "start"@) == Some(JsonModel::Number(decimal(v.start as int))),
        member(line_range_document(v), "end"@) == Some(JsonModel::Number(decimal(v.end as int))),
{
    reveal_strlit("start");
    reveal_strlit("end");
    assert("start"@.len() == 5);
    assert("end"@.len() == 3);
    let members = line_range_document(v)->Object_0;
    assert forall|i: int, j: int| 0 <= i < j < members.len() implies (#[trigger] members[i]).0 != (
    #[trigger] members[j]).0 by {
    }
    lemma_member_is_found(members, 0);
    lemma_member_is_found(members, 1);
}

/// A line range that was written is read as it was.
pub proof fn lemma_line_range_reads(v: LineRange)
    ensures
        line_range_in(line_range_document(v)) == Some(v),
        line_range_document(v) is Object,
{
    let value = line_range_document(v);
    lemma_line_range_names(v);
    lemma_members_are_fields(value);
    lemma_unsigned_reads(v.start as int);
    lemma_unsigned_reads(v.end as int);
    assert(unsigned_at(value, "start"@, usize::MAX as int) == Some(v.start as int));
    assert(unsigned_at(value, "end"@, usize::MAX as int) == Some(v.end as int));
}

/// A line range is an ordinary value.
pub proof fn lemma_line_range_is_plain(v: LineRange, depth: nat)
    requires
        depth >= 1,
    ensures
        is_plain(line_range_document(v), depth),
{
    let members = line_range_document(v)->Object_0;
    lemma_line_range_names(v);
    lemma_unsigned_reads(v.start as int);
    lemma_unsigned_reads(v.end as int);
    assert forall|i: int| 0 <= i < members.len() implies is_plain(
        (#[trigger] members[i]).1,
        (depth - 1) as nat,
    ) by {
    }
}

proof fn lemma_project_info_names(v: ProjectInfoModel)
    ensures
        project_info_document(v) is Object,
        distinct_names(project_info_document(v)->Object_0),
        member(project_info_document(v), "language"@) == Some(JsonModel::Text(v.language)),
        member(project_info_document(v), "name"@) == Some(JsonModel::Text(v.name)),
        member(project_info_document(v), "root"@) == Some(JsonModel::Text(v.root)),
        member(project_info_document(v), "manifests"@) == Some(texts_model(v.manifests)),
{
    reveal_strlit("language");
    reveal_strlit("name");
    reveal_strlit("root");
    reveal_strlit("manifests");
    assert("language"@.len() == 8);
    assert("name"@.len() == 4);
    assert("root"@.len() == 4);
    assert("manifests"@.len() == 9);
    assert("name"@[0] == 'n');
    assert("root"@[0] == 'r');
    let members = project_info_document(v)->Object_0;
    assert forall|i: int, j: int| 0 <= i < j < members.len() implies (#[trigger] members[i]).0 != (
    #[trigger] members[j]).0 by {
    }
    lemma_member_is_found(members, 0);
    lemma_member_is_found(members, 1);
    lemma_member_is_found(members, 2);
    lemma_member_is_found(members, 3);
}

/// A project info that was written is read as it was.
pub proof fn lemma_project_info_reads(v: ProjectInfoModel)
    ensures
        project_info_in(project_info_document(v)) == Some(v),
        project_info_document(v) is Object,
{
    let value = project_info_document(v);
    lemma_project_info_names(v);
    lemma_members_are_fields(value);
    lemma_texts_read(v.manifests);
    assert(text_at(value, "language"@) == Some(v.language));
    assert(text_at(value, "name"@) == Some(v.name));
    assert(text_at(value, "root"@) == Some(v.root));
    assert(texts_at(value, "manifests"@) == Some(v.manifests));
}

/// A project info is an ordinary value.
pub proof fn lemma_project_info_is_plain(v: ProjectInfoModel, depth: nat)
    requires
        depth >= 2,
    ensures
        is_plain(project_info_document(v), depth),
{
    let members = project_info_document(v)->Object_0;
    lemma_project_info_names(v);
    lemma_texts_are_plain(v.manifests, (depth - 1) as nat);
    assert forall|i: int| 0 <= i < members.len() implies is_plain(
        (#[trigger] members[i]).1,
        (depth - 1) as nat,
    ) by {
    }
}

proof fn lemma_verification_target_names(v: VerificationTargetModel)
    ensures
        verification_target_document(v) is Object,
        distinct_names(verification_target_document(v)->Object_0),
        member(verification_target_document(v), "id"@) == Some(JsonModel::Text(v.id)),
        member(verification_target_document(v), "language"@) == Some(JsonModel::Text(v.language)),
        member(verification_target_document(v), "kind"@) == Some(JsonModel::Text(v.kind.label_text())),
        member(verification_target_document(v), "path"@) == Some(JsonModel::Text(v.path)),
        member(verification_target_document(v), "symbol"@) == Some(text_or_null(v.symbol)),
        member(verification_target_document(v), "signature"@) == Some(text_or_null(v.signature)),
        member(verification_target_document(v), "line_range"@) == Some(optional_line_range_document(v.line_range)),
        member(verification_target_document(v), "description"@) == Some(JsonModel::Text(v.description)),
        member(verification_target_document(v), "risk"@) == Some(JsonModel::Text(v.risk.label_text())),
{
    reveal_strlit("id");
    reveal_strlit("language");
    reveal_strlit("kind");
    reveal_strlit("path");
    reveal_strlit("symbol");
    reveal_strlit("signature");
    reveal_strlit("line_range");
    reveal_strlit("description");
    reveal_strlit("risk");
    assert("id"@.len() == 2);
    assert("language"@.len() == 8);
    assert("kind"@.len() == 4);
    assert("path"@.len() == 4);
    assert("symbol"@.len() == 6);
    assert("signature"@.len() == 9);
    assert("line_range"@.len() == 10);
    assert("description"@.len() == 11);
    assert("risk"@.len() == 4);
    assert("kind"@[0] == 'k');
    assert("path"@[0] == 'p');
    assert("risk"@[0] == 'r');
    let members = verification_target_document(v)->Object_0;
    assert forall|i: int, j: int| 0 <= i < j < members.len() implies (#[trigger] members[i]).0 != (
    #[trigger] members[j]).0 by {
    }
    lemma_member_is_found(members, 0);
    lemma_member_is_found(members, 1);
    lemma_member_is_found(members, 2);
    lemma_member_is_found(members, 3);
    lemma_member_is_found(members, 4);
    lemma_member_is_found(members, 5);
    lemma_member_is_found(members, 6);
    lemma_member_is_found(members, 7);
    lemma_member_is_found(members, 8);
}

/// A verification target that was written is read as it was.
pub proof fn lemma_verification_target_reads(v: VerificationTargetModel)
    ensures
        verification_target_in(verification_target_document(v)) == Some(v),
        verification_target_document(v) is Object,
{
    let value = verification_target_document(v);
    lemma_verification_target_names(v);
    lemma_members_are_fields(value);
    lemma_target_kind_reads(v.kind);
    if let Some(given) = v.line_range {
        lemma_line_range_reads(given);
    }
    lemma_risk_level_reads(v.risk);
    assert(text_at(value, "id"@) == Some(v.id));
    assert(text_at(value, "language"@) == Some(v.language));
    assert(target_kind_at(value, "kind"@) == Some(v.kind));
    assert(text_at(value, "path"@) == Some(v.path));
    assert(optional_text_at(value, "symbol"@) == Some(v.symbol));
    assert(optional_text_at(value, "signature"@) == Some(v.signature));
    assert(optional_line_range_at(value, "line_range"@) == Some(v.line_range));
    assert(text_at(value, "description"@) == Some(v.description));
    assert(risk_level_at(value, "risk"@) == Some(v.risk));
}

/// A verification target is an ordinary value.
pub proof fn lemma_verification_target_is_plain(v: VerificationTargetModel, depth: nat)
    requires
        depth >= 2,
    ensures
        is_plain(verification_target_document(v), depth),
{
    let members = verification_target_document(v)->Object_0;
    lemma_verification_target_names(v);
    if let Some(given) = v.line_range {
        lemma_line_range_is_plain(given, (depth - 1) as nat);
    }
    assert forall|i: int| 0 <= i < members.len() implies is_plain(
        (#[trigger] members[i]).1,
        (depth - 1) as nat,
    ) by {
    }
}

proof fn lemma_all_verification_targets_read(items: Seq<VerificationTargetModel>)
    ensures
        all_verification_targets(verification_target_documents(items)) == Some(items),
    decreases items.len(),
{
    let all = verification_target_documents(items);
    if items.len() > 0 {
        lemma_all_verification_targets_read(items.drop_last());
        lemma_verification_target_reads(items.last());
        assert(all.drop_last() =~= verification_target_documents(items.drop_last()));
        assert(items =~= items.drop_last().push(items.last()));
    } else {
        assert(items =~= Seq::<VerificationTargetModel>::empty());
    }
}

proof fn lemma_all_verification_targets_are_plain(items: Seq<VerificationTargetModel>, depth: nat)
    requires
        depth >= 3,
    ensures
        is_plain(JsonModel::Array(verification_target_documents(items)), depth),
{
    let all = verification_target_documents(items);
    assert forall|i: int| 0 <= i < all.len() implies is_plain(
        #[trigger] all[i],
        (depth - 1) as nat,
    ) by {
        lemma_verification_target_is_plain(items[i], (depth - 1) as nat);
    }
}

proof fn lemma_verification_plan_names(v: VerificationPlanModel)
    ensures
        verification_plan_document(v) is Object,
        distinct_names(verification_plan_document(v)->Object_0),
        member(verification_plan_document(v), "target_id"@) == Some(JsonModel::Text(v.target_id)),
        member(verification_plan_document(v), "strategies"@) == Some(JsonModel::Array(verification_strategy_documents(v.strategies))),
        member(verification_plan_document(v), "budget_seconds"@) == Some(JsonModel::Number(decimal(v.budget_seconds as int))),
        member(verification_plan_document(v), "write_generated_tests"@) == Some(JsonModel::Bool(v.write_generated_tests)),
        member(verification_plan_document(v), "run_existing_tests"@) == Some(JsonModel::Bool(v.run_existing_tests)),
        member(verification_plan_document(v), "run_generated_tests"@) == Some(JsonModel::Bool(v.run_generated_tests)),
        member(verification_plan_document(v), "fail_on_generated_test_failure"@) == Some(JsonModel::Bool(v.fail_on_generated_test_failure)),
{
    reveal_strlit("target_id");
    reveal_strlit("strategies");
    reveal_strlit("budget_seconds");
    reveal_strlit("write_generated_tests");
    reveal_strlit("run_existing_tests");
    reveal_strlit("run_generated_tests");
    reveal_strlit("fail_on_generated_test_failure");
    assert("target_id"@.len() == 9);
    assert("strategies"@.len() == 10);
    assert("budget_seconds"@.len() == 14);
    assert("write_generated_tests"@.len() == 21);
    assert("run_existing_tests"@.len() == 18);
    assert("run_generated_tests"@.len() == 19);
    assert("fail_on_generated_test_failure"@.len() == 30);
    let members = verification_plan_document(v)->Object_0;
    assert forall|i: int, j: int| 0 <= i < j < members.len() implies (#[trigger] members[i]).0 != (
    #[trigger] members[j]).0 by {
    }
    lemma_member_is_found(members, 0);
    lemma_member_is_found(members, 1);
    lemma_member_is_found(members, 2);
    lemma_member_is_found(members, 3);
    lemma_member_is_found(members, 4);
    lemma_member_is_found(members, 5);
    lemma_member_is_found(members, 6);
}

/// A verification plan that was written is read as it was.
pub proof fn lemma_verification_plan_reads(v: VerificationPlanModel)
    ensures
        verification_plan_in(verification_plan_document(v)) == Some(v),
        verification_plan_document(v) is Object,
{
    let value = verification_plan_document(v);
    lemma_verification_plan_names(v);
    lemma_members_are_fields(value);
    lemma_all_verification_strategies_read(v.strategies);
    lemma_unsigned_reads(v.budget_seconds as int);
    assert(text_at(value, "target_id"@) == Some(v.target_id));
    assert(verification_strategies_at(value, "strategies"@) == Some(v.strategies));
    assert(unsigned_at(value, "budget_seconds"@, u64::MAX as int) == Some(v.budget_seconds as int));
    assert(flag_at(value, "write_generated_tests"@) == Some(v.write_generated_tests));
    assert(flag_at(value, "run_existing_tests"@) == Some(v.run_existing_tests));
    assert(flag_at(value, "run_generated_tests"@) == Some(v.run_generated_tests));
    assert(flag_at(value, "fail_on_generated_test_failure"@) == Some(v.fail_on_generated_test_failure));
}

/// A verification plan is an ordinary value.
pub proof fn lemma_verification_plan_is_plain(v: VerificationPlanModel, depth: nat)
    requires
        depth >= 2,
    ensures
        is_plain(verification_plan_document(v), depth),
{
    let members = verification_plan_document(v)->Object_0;
    lemma_verification_plan_names(v);
    lemma_all_verification_strategies_are_plain(v.strategies, (depth - 1) as nat);
    lemma_unsigned_reads(v.budget_seconds as int);
    assert forall|i: int| 0 <= i < members.len() implies is_plain(
        (#[trigger] members[i]).1,
        (depth - 1) as nat,
    ) by {
    }
}

proof fn lemma_generated_artifact_names(v: GeneratedArtifactModel)
    ensures
        generated_artifact_document(v) is Object,
        distinct_names(generated_artifact_document(v)->Object_0),
        member(generated_artifact_document(v), "id"@) == Some(JsonModel::Text(v.id)),
        member(generated_artifact_document(v), "language"@) == Some(JsonModel::Text(v.language)),
        member(generated_artifact_document(v), "kind"@) == Some(JsonModel::Text(v.kind.label_text())),
        member(generated_artifact_document(v), "target_id"@) == Some(JsonModel::Text(v.target_id)),
        member(generated_artifact_document(v), "path"@) == Some(JsonModel::Text(v.path)),
        member(generated_artifact_document(v), "contents"@) == Some(JsonModel::Text(v.contents)),
        member(generated_artifact_document(v), "description"@) == Some(JsonModel::Text(v.description)),
        member(generated_artifact_document(v), "status"@) == Some(JsonModel::Text(v.status.label_text())),
{
    reveal_strlit("id");
    reveal_strlit("language");
    reveal_strlit("kind");
    reveal_strlit("target_id");
    reveal_strlit("path");
    reveal_strlit("contents");
    reveal_strlit("description");
    reveal_strlit("status");
    assert("id"@.len() == 2);
    assert("language"@.len() == 8);
    assert("kind"@.len() == 4);
    assert("target_id"@.len() == 9);
    assert("path"@.len() == 4);
    assert("contents"@.len() == 8);
    assert("description"@.len() == 11);
    assert("status"@.len() == 6);
    assert("language"@[0] == 'l');
    assert("kind"@[0] == 'k');
    assert("path"@[0] == 'p');
    assert("contents"@[0] == 'c');
    let members = generated_artifact_document(v)->Object_0;
    assert forall|i: int, j: int| 0 <= i < j < members.len() implies (#[trigger] members[i]).0 != (
    #[trigger] members[j]).0 by {
    }
    lemma_member_is_found(members, 0);
    lemma_member_is_found(members, 1);
    lemma_member_is_found(members, 2);
    lemma_member_is_found(members, 3);
    lemma_member_is_found(members, 4);
    lemma_member_is_found(members, 5);
    lemma_member_is_found(members, 6);
    lemma_member_is_found(members, 7);
}

/// A generated artifact that was written is read as it was.
pub proof fn lemma_generated_artifact_reads(v: GeneratedArtifactModel)
    ensures
        generated_artifact_in(generated_artifact_document(v)) == Some(v),
        generated_artifact_document(v) is Object,
{
    let value = generated_artifact_document(v);
    lemma_generated_artifact_names(v);
    lemma_members_are_fields(value);
    lemma_artifact_kind_reads(v.kind);
    lemma_artifact_status_reads(v.status);
    assert(text_at(value, "id"@) == Some(v.id));
    assert(text_at(value, "language"@) == Some(v.language));
    assert(artifact_kind_at(value, "kind"@) == Some(v.kind));
    assert(text_at(value, "target_id"@) == Some(v.target_id));
    assert(text_at(value, "path"@) == Some(v.path));
    assert(text_at(value, "contents"@) == Some(v.contents));
    assert(text_at(value, "description"@) == Some(v.description));
    assert(artifact_status_at(value, "status"@) == Some(v.status));
}

/// A generated artifact is an ordinary value.
pub proof fn lemma_generated_artifact_is_plain(v: GeneratedArtifactModel, depth: nat)
    requires
        depth >= 1,
    ensures
        is_plain(generated_artifact_document(v), depth),
{
    let members = generated_artifact_document(v)->Object_0;
    lemma_generated_artifact_names(v);
    assert forall|i: int| 0 <= i < members.len() implies is_plain(
        (#[trigger] members[i]).1,
        (depth - 1) as nat,
    ) by {
    }
}

proof fn lemma_all_generated_artifacts_read(items: Seq<GeneratedArtifactModel>)
    ensures
        all_generated_artifacts(generated_artifact_documents(items)) == Some(items),
    decreases items.len(),
{
    let all = generated_artifact_documents(items);
    if items.len() > 0 {
        lemma_all_generated_artifacts_read(items.drop_last());
        lemma_generated_artifact_reads(items.last());
        assert(all.drop_last() =~= generated_artifact_documents(items.drop_last()));
        assert(items =~= items.drop_last().push(items.last()));
    } else {
        assert(items =~= Seq::<GeneratedArtifactModel>::empty());
    }
}

proof fn lemma_all_generated_artifacts_are_plain(items: Seq<GeneratedArtifactModel>, depth: nat)
    requires
        depth >= 2,
    ensures
        is_plain(JsonModel::Array(generated_artifact_documents(items)), depth),
{
    let all = generated_artifact_documents(items);
    assert forall|i: int| 0 <= i < all.len() implies is_plain(
        #[trigger] all[i],
        (depth - 1) as nat,
    ) by {
        lemma_generated_artifact_is_plain(items[i], (depth - 1) as nat);
    }
}

proof fn lemma_command_record_names(v: CommandRecordModel)
    ensures
        command_record_document(v) is Object,
        distinct_names(command_record_document(v)->Object_0),
        member(command_record_document(v), "program"@) == Some(JsonModel::Text(v.program)),
        member(command_record_document(v), "args"@) == Some(texts_model(v.args)),
        member(command_record_document(v), "cwd"@) == Some(JsonModel::Text(v.cwd)),
        member(command_record_document(v), "exit_code"@) == Some(number_or_null(match v.exit_code {
                    Some(n) => Some(n as int),
                    None => None,
                })),
        member(command_record_document(v), "status"@) == Some(JsonModel::Text(v.status.label_text())),
        member(command_record_document(v), "stdout"@) == Some(JsonModel::Text(v.stdout)),
        member(command_record_document(v), "stderr"@) == Some(JsonModel::Text(v.stderr)),
        member(command_record_document(v), "duration_ms"@) == Some(JsonModel::Number(decimal(v.duration_ms as int))),
{
    reveal_strlit("program");
    reveal_strlit("args");
    reveal_strlit("cwd");
    reveal_strlit("exit_code");
    reveal_strlit("status");
    reveal_strlit("stdout");
    reveal_strlit("stderr");
    reveal_strlit("duration_ms");
    assert("program"@.len() == 7);
    assert("args"@.len() == 4);
    assert("cwd"@.len() == 3);
    assert("exit_code"@.len() == 9);
    assert("status"@.len() == 6);
    assert("stdout"@.len() == 6);
    assert("stderr"@.len() == 6);
    assert("duration_ms"@.len() == 11);
    assert("status"@[2] == 'a');
    assert("stdout"@[2] == 'd');
    assert("stdout"@[3] == 'o');
    assert("stderr"@[2] == 'd');
    assert("stderr"@[3] == 'e');
    let members = command_record_document(v)->Object_0;
    assert forall|i: int, j: int| 0 <= i < j < members.len() implies (#[trigger] members[i]).0 != (
    #[trigger] members[j]).0 by {
    }
    lemma_member_is_found(members, 0);
    lemma_member_is_found(members, 1);
    lemma_member_is_found(members, 2);
    lemma_member_is_found(members, 3);
    lemma_member_is_found(members, 4);
    lemma_member_is_found(members, 5);
    lemma_member_is_found(members, 6);
    lemma_member_is_found(members, 7);
}

/// A command record that was written is read as it was.
pub proof fn lemma_command_record_reads(v: CommandRecordModel)
    ensures
        command_record_in(command_record_document(v)) == Some(v),
        command_record_document(v) is Object,
{
    let value = command_record_document(v);
    lemma_command_record_names(v);
    lemma_members_are_fields(value);
    lemma_texts_read(v.args);
    if let Some(n) = v.exit_code {
        lemma_signed_reads(n as int);
    }
    lemma_run_status_reads(v.status);
    lemma_unsigned_reads(v.duration_ms as int);
    assert(text_at(value, "program"@) == Some(v.program));
    assert(texts_at(value, "args"@) == Some(v.args));
    assert(text_at(value, "cwd"@) == Some(v.cwd));
    assert(optional_i32_at(value, "exit_code"@) == Some(v.exit_code));
    assert(run_status_at(value, "status"@) == Some(v.status));
    assert(text_at(value, "stdout"@) == Some(v.stdout));
    assert(text_at(value, "stderr"@) == Some(v.stderr));
    assert(unsigned_at(value, "duration_ms"@, u128::MAX as int) == Some(v.duration_ms as int));
}

/// A command record has whole numbers.
pub proof fn lemma_command_record_is_exact(v: CommandRecordModel, depth: nat)
    requires
        depth >= 2,
    ensures
        is_exact(command_record_document(v), depth),
{
    lemma_plain_values_are_exact((depth - 1) as nat);
    let members = command_record_document(v)->Object_0;
    lemma_command_record_names(v);
    lemma_texts_are_plain(v.args, (depth - 1) as nat);
    if let Some(n) = v.exit_code {
        lemma_signed_reads(n as int);
    }
    lemma_unsigned_reads(v.duration_ms as int);
    assert forall|i: int| 0 <= i < members.len() implies is_exact(
        (#[trigger] members[i]).1,
        (depth - 1) as nat,
    ) by {
    }
}

proof fn lemma_all_command_records_read(items: Seq<CommandRecordModel>)
    ensures
        all_command_records(command_record_documents(items)) == Some(items),
    decreases items.len(),
{
    let all = command_record_documents(items);
    if items.len() > 0 {
        lemma_all_command_records_read(items.drop_last());
        lemma_command_record_reads(items.last());
        assert(all.drop_last() =~= command_record_documents(items.drop_last()));
        assert(items =~= items.drop_last().push(items.last()));
    } else {
        assert(items =~= Seq::<CommandRecordModel>::empty());
    }
}

proof fn lemma_all_command_records_are_exact(items: Seq<CommandRecordModel>, depth: nat)
    requires
        depth >= 3,
    ensures
        is_exact(JsonModel::Array(command_record_documents(items)), depth),
{
    lemma_plain_values_are_exact((depth - 1) as nat);
    let all = command_record_documents(items);
    assert forall|i: int| 0 <= i < all.len() implies is_exact(
        #[trigger] all[i],
        (depth - 1) as nat,
    ) by {
        lemma_command_record_is_exact(items[i], (depth - 1) as nat);
    }
}

proof fn lemma_repro_case_names(v: ReproCaseModel)
    ensures
        repro_case_document(v) is Object,
        distinct_names(repro_case_document(v)->Object_0),
        member(repro_case_document(v), "command"@) == Some(JsonModel::Text(v.command)),
        member(repro_case_document(v), "input"@) == Some(text_or_null(v.input)),
        member(repro_case_document(v), "path"@) == Some(text_or_null(v.path)),
{
    reveal_strlit("command");
    reveal_strlit("input");
    reveal_strlit("path");
    assert("command"@.len() == 7);
    assert("input"@.len() == 5);
    assert("path"@.len() == 4);
    let members = repro_case_document(v)->Object_0;
    assert forall|i: int, j: int| 0 <= i < j < members.len() implies (#[trigger] members[i]).0 != (
    #[trigger] members[j]).0 by {
    }
    lemma_member_is_found(members, 0);
    lemma_member_is_found(members, 1);
    lemma_member_is_found(members, 2);
}

/// A repro case that was written is read as it was.
pub proof fn lemma_repro_case_reads(v: ReproCaseModel)
    ensures
        repro_case_in(repro_case_document(v)) == Some(v),
        repro_case_document(v) is Object,
{
    let value = repro_case_document(v);
    lemma_repro_case_names(v);
    lemma_members_are_fields(value);
    assert(text_at(value, "command"@) == Some(v.command));
    assert(optional_text_at(value, "input"@) == Some(v.input));
    assert(optional_text_at(value, "path"@) == Some(v.path));
}

/// A repro case is an ordinary value.
pub proof fn lemma_repro_case_is_plain(v: ReproCaseModel, depth: nat)
    requires
        depth >= 1,
    ensures
        is_plain(repro_case_document(v), depth),
{
    let members = repro_case_document(v)->Object_0;
    lemma_repro_case_names(v);
    assert forall|i: int| 0 <= i < members.len() implies is_plain(
        (#[trigger] members[i]).1,
        (depth - 1) as nat,
    ) by {
    }
}

proof fn lemma_failure_names(v: FailureModel)
    ensures
        failure_document(v) is Object,
        distinct_names(failure_document(v)->Object_0),
        member(failure_document(v), "id"@) == (match v.id {
            Some(given) => Some(JsonModel::Text(given)),
            None => None,
        }),
        member(failure_document(v), "message"@) == Some(JsonModel::Text(v.message)),
        member(failure_document(v), "severity"@) == Some(JsonModel::Text(v.severity.label_text())),
        member(failure_document(v), "target_id"@) == Some(text_or_null(v.target_id)),
        member(failure_document(v), "artifact_id"@) == Some(text_or_null(v.artifact_id)),
        member(failure_document(v), "command"@) == Some(JsonModel::Text(v.command)),
        member(failure_document(v), "stdout_excerpt"@) == Some(JsonModel::Text(v.stdout_excerpt)),
        member(failure_document(v), "stderr_excerpt"@) == Some(JsonModel::Text(v.stderr_excerpt)),
        member(failure_document(v), "repro"@) == Some(optional_repro_case_document(v.repro)),
{
    reveal_strlit("id");
    reveal_strlit("message");
    reveal_strlit("severity");
    reveal_strlit("target_id");
    reveal_strlit("artifact_id");
    reveal_strlit("command");
    reveal_strlit("stdout_excerpt");
    reveal_strlit("stderr_excerpt");
    reveal_strlit("repro");
    assert("id"@.len() == 2);
    assert("message"@.len() == 7);
    assert("severity"@.len() == 8);
    assert("target_id"@.len() == 9);
    assert("artifact_id"@.len() == 11);
    assert("command"@.len() == 7);
    assert("stdout_excerpt"@.len() == 14);
    assert("stderr_excerpt"@.len() == 14);
    assert("repro"@.len() == 5);
    assert("message"@[0] == 'm');
    assert("command"@[0] == 'c');
    assert("stdout_excerpt"@[3] == 'o');
    assert("stderr_excerpt"@[3] == 'e');
    let members = failure_document(v)->Object_0;
    assert forall|i: int, j: int| 0 <= i < j < members.len() implies (#[trigger] members[i]).0 != (
    #[trigger] members[j]).0 by {
    }
    if v.id is Some {
        lemma_member_is_found(members, 0);
        lemma_member_is_found(members, 1);
        lemma_member_is_found(members, 2);
        lemma_member_is_found(members, 3);
        lemma_member_is_found(members, 4);
        lemma_member_is_found(members, 5);
        lemma_member_is_found(members, 6);
        lemma_member_is_found(members, 7);
        lemma_member_is_found(members, 8);
    } else {
        lemma_member_is_found(members, 0);
        lemma_member_is_found(members, 1);
        lemma_member_is_found(members, 2);
        lemma_member_is_found(members, 3);
        lemma_member_is_found(members, 4);
        lemma_member_is_found(members, 5);
        lemma_member_is_found(members, 6);
        lemma_member_is_found(members, 7);
        lemma_name_is_missing(members, "id"@);
    }
}

/// A failure that was written is read as it was.
pub proof fn lemma_failure_reads(v: FailureModel)
    ensures
        failure_in(failure_document(v)) == Some(v),
        failure_document(v) is Object,
{
    let value = failure_document(v);
    lemma_failure_names(v);
    lemma_members_are_fields(value);
    lemma_failure_severity_reads(v.severity);
    if let Some(given) = v.repro {
        lemma_repro_case_reads(given);
    }
    assert(optional_text_at(value, "id"@) == Some(v.id));
    assert(text_at(value, "message"@) == Some(v.message));
    assert(failure_severity_or_default(value) == Some(v.severity));
    assert(optional_text_at(value, "target_id"@) == Some(v.target_id));
    assert(optional_text_at(value, "artifact_id"@) == Some(v.artifact_id));
    assert(text_at(value, "command"@) == Some(v.command));
    assert(text_at(value, "stdout_excerpt"@) == Some(v.stdout_excerpt));
    assert(text_at(value, "stderr_excerpt"@) == Some(v.stderr_excerpt));
    assert(optional_repro_case_at(value, "repro"@) == Some(v.repro));
}

/// A failure is an ordinary value.
pub proof fn lemma_failure_is_plain(v: FailureModel, depth: nat)
    requires
        depth >= 2,
    ensures
        is_plain(failure_document(v), depth),
{
    let members = failure_document(v)->Object_0;
    lemma_failure_names(v);
    if let Some(given) = v.repro {
        lemma_repro_case_is_plain(given, (depth - 1) as nat);
    }
    assert forall|i: int| 0 <= i < members.len() implies is_plain(
        (#[trigger] members[i]).1,
        (depth - 1) as nat,
    ) by {
    }
}

proof fn lemma_all_failures_read(items: Seq<FailureModel>)
    ensures
        all_failures(failure_documents(items)) == Some(items),
    decreases items.len(),
{
    let all = failure_documents(items);
    if items.len() > 0 {
        lemma_all_failures_read(items.drop_last());
        lemma_failure_reads(items.last());
        assert(all.drop_last() =~= failure_documents(items.drop_last()));
        assert(items =~= items.drop_last().push(items.last()));
    } else {
        assert(items =~= Seq::<FailureModel>::empty());
    }
}

proof fn lemma_all_failures_are_plain(items: Seq<FailureModel>, depth: nat)
    requires
        depth >= 3,
    ensures
        is_plain(JsonModel::Array(failure_documents(items)), depth),
{
    let all = failure_documents(items);
    assert forall|i: int| 0 <= i < all.len() implies is_plain(
        #[trigger] all[i],
        (depth - 1) as nat,
    ) by {
        lemma_failure_is_plain(items[i], (depth - 1) as nat);
    }
}

proof fn lemma_coverage_file_names(v: CoverageFileModel)
    ensures
        coverage_file_document(v) is Object,
        distinct_names(coverage_file_document(v)->Object_0),
        member(coverage_file_document(v), "path"@) == Some(JsonModel::Text(v.path)),
        member(coverage_file_document(v), "line_coverage_percent"@) == Some(number_or_null(match v.line_coverage_percent {
                    Some(n) => Some(n as int),
                    None => None,
                })),
        member(coverage_file_document(v), "uncovered_ranges"@) == Some(texts_model(v.uncovered_ranges)),
{
    reveal_strlit("path");
    reveal_strlit("line_coverage_percent");
    reveal_strlit("uncovered_ranges");
    assert("path"@.len() == 4);
    assert("line_coverage_percent"@.len() == 21);
    assert("uncovered_ranges"@.len() == 16);
    let members = coverage_file_document(v)->Object_0;
    assert forall|i: int, j: int| 0 <= i < j < members.len() implies (#[trigger] members[i]).0 != (
    #[trigger] members[j]).0 by {
    }
    lemma_member_is_found(members, 0);
    lemma_member_is_found(members, 1);
    lemma_member_is_found(members, 2);
}

/// A coverage file that was written is read as it was.
pub proof fn lemma_coverage_file_reads(v: CoverageFileModel)
    ensures
        coverage_file_in(coverage_file_document(v)) == Some(v),
        coverage_file_document(v) is Object,
{
    let value = coverage_file_document(v);
    lemma_coverage_file_names(v);
    lemma_members_are_fields(value);
    if let Some(n) = v.line_coverage_percent {
        lemma_unsigned_reads(n as int);
    }
    lemma_texts_read(v.uncovered_ranges);
    assert(text_at(value, "path"@) == Some(v.path));
    assert(optional_u8_at(value, "line_coverage_percent"@) == Some(v.line_coverage_percent));
    assert(texts_at(value, "uncovered_ranges"@) == Some(v.uncovered_ranges));
}

/// A coverage file is an ordinary value.
pub proof fn lemma_coverage_file_is_plain(v: CoverageFileModel, depth: nat)
    requires
        depth >= 2,
    ensures
        is_plain(coverage_file_document(v), depth),
{
    let members = coverage_file_document(v)->Object_0;
    lemma_coverage_file_names(v);
    if let Some(n) = v.line_coverage_percent {
        lemma_unsigned_reads(n as int);
    }
    lemma_texts_are_plain(v.uncovered_ranges, (depth - 1) as nat);
    assert forall|i: int| 0 <= i < members.len() implies is_plain(
        (#[trigger] members[i]).1,
        (depth - 1) as nat,
    ) by {
    }
}

proof fn lemma_all_coverage_files_read(items: Seq<CoverageFileModel>)
    ensures
        all_coverage_files(coverage_file_documents(items)) == Some(items),
    decreases items.len(),
{
    let all = coverage_file_documents(items);
    if items.len() > 0 {
        lemma_all_coverage_files_read(items.drop_last());
        lemma_coverage_file_reads(items.last());
        assert(all.drop_last() =~= coverage_file_documents(items.drop_last()));
        assert(items =~= items.drop_last().push(items.last()));
    } else {
        assert(items =~= Seq::<CoverageFileModel>::empty());
    }
}

proof fn lemma_all_coverage_files_are_plain(items: Seq<CoverageFileModel>, depth: nat)
    requires
        depth >= 3,
    ensures
        is_plain(JsonModel::Array(coverage_file_documents(items)), depth),
{
    let all = coverage_file_documents(items);
    assert forall|i: int| 0 <= i < all.len() implies is_plain(
        #[trigger] all[i],
        (depth - 1) as nat,
    ) by {
        lemma_coverage_file_is_plain(items[i], (depth - 1) as nat);
    }
}

proof fn lemma_coverage_report_names(v: CoverageReportModel)
    ensures
        coverage_report_document(v) is Object,
        distinct_names(coverage_report_document(v)->Object_0),
        member(coverage_report_document(v), "tool"@) == Some(JsonModel::Text(v.tool)),
        member(coverage_report_document(v), "summary"@) == Some(JsonModel::Text(v.summary)),
        member(coverage_report_document(v), "files"@) == Some(JsonModel::Array(coverage_file_documents(v.files))),
{
    reveal_strlit("tool");
    reveal_strlit("summary");
    reveal_strlit("files");
    assert("tool"@.len() == 4);
    assert("summary"@.len() == 7);
    assert("files"@.len() == 5);
    let members = coverage_report_document(v)->Object_0;
    assert forall|i: int, j: int| 0 <= i < j < members.len() implies (#[trigger] members[i]).0 != (
    #[trigger] members[j]).0 by {
    }
    lemma_member_is_found(members, 0);
    lemma_member_is_found(members, 1);
    lemma_member_is_found(members, 2);
}

/// A coverage report that was written is read as it was.
pub proof fn lemma_coverage_report_reads(v: CoverageReportModel)
    ensures
        coverage_report_in(coverage_report_document(v)) == Some(v),
        coverage_report_document(v) is Object,
{
    let value = coverage_report_document(v);
    lemma_coverage_report_names(v);
    lemma_members_are_fields(value);
    lemma_all_coverage_files_read(v.files);
    assert(text_at(value, "tool"@) == Some(v.tool));
    assert(text_at(value, "summary"@) == Some(v.summary));
    assert(coverage_files_at(value, "files"@) == Some(v.files));
}

/// A coverage report is an ordinary value.
pub proof fn lemma_coverage_report_is_plain(v: CoverageReportModel, depth: nat)
    requires
        depth >= 4,
    ensures
        is_plain(coverage_report_document(v), depth),
{
    let members = coverage_report_document(v)->Object_0;
    lemma_coverage_report_names(v);
    lemma_all_coverage_files_are_plain(v.files, (depth - 1) as nat);
    assert forall|i: int| 0 <= i < members.len() implies is_plain(
        (#[trigger] members[i]).1,
        (depth - 1) as nat,
    ) by {
    }
}

proof fn lemma_all_coverage_reports_read(items: Seq<CoverageReportModel>)
    ensures
        all_coverage_reports(coverage_report_documents(items)) == Some(items),
    decreases items.len(),
{
    let all = coverage_report_documents(items);
    if items.len() > 0 {
        lemma_all_coverage_reports_read(items.drop_last());
        lemma_coverage_report_reads(items.last());
        assert(all.drop_last() =~= coverage_report_documents(items.drop_last()));
        assert(items =~= items.drop_last().push(items.last()));
    } else {
        assert(items =~= Seq::<CoverageReportModel>::empty());
    }
}

proof fn lemma_all_coverage_reports_are_plain(items: Seq<CoverageReportModel>, depth: nat)
    requires
        depth >= 5,
    ensures
        is_plain(JsonModel::Array(coverage_report_documents(items)), depth),
{
    let all = coverage_report_documents(items);
    assert forall|i: int| 0 <= i < all.len() implies is_plain(
        #[trigger] all[i],
        (depth - 1) as nat,
    ) by {
        lemma_coverage_report_is_plain(items[i], (depth - 1) as nat);
    }
}

proof fn lemma_mutation_attribution_names(v: MutationAttribution)
    ensures
        mutation_attribution_document(v) is Object,
        distinct_names(mutation_attribution_document(v)->Object_0),
        member(mutation_attribution_document(v), "generated"@) == Some(JsonModel::Number(decimal(v.generated as int))),
        member(mutation_attribution_document(v), "runnable"@) == Some(JsonModel::Number(decimal(v.runnable as int))),
        member(mutation_attribution_document(v), "executed"@) == Some(JsonModel::Number(decimal(v.executed as int))),
        member(mutation_attribution_document(v), "killed"@) == Some(JsonModel::Number(decimal(v.killed as int))),
        member(mutation_attribution_document(v), "survived"@) == Some(JsonModel::Number(decimal(v.survived as int))),
        member(mutation_attribution_document(v), "not_covered"@) == Some(JsonModel::Number(decimal(v.not_covered as int))),
        member(mutation_attribution_document(v), "timed_out"@) == Some(JsonModel::Number(decimal(v.timed_out as int))),
        member(mutation_attribution_document(v), "not_viable"@) == Some(JsonModel::Number(decimal(v.not_viable as int))),
        member(mutation_attribution_document(v), "skipped"@) == Some(JsonModel::Number(decimal(v.skipped as int))),
{
    reveal_strlit("generated");
    reveal_strlit("runnable");
    reveal_strlit("executed");
    reveal_strlit("killed");
    reveal_strlit("survived");
    reveal_strlit("not_covered");
    reveal_strlit("timed_out");
    reveal_strlit("not_viable");
    reveal_strlit("skipped");
    assert("generated"@.len() == 9);
    assert("runnable"@.len() == 8);
    assert("executed"@.len() == 8);
    assert("killed"@.len() == 6);
    assert("survived"@.len() == 8);
    assert("not_covered"@.len() == 11);
    assert("timed_out"@.len() == 9);
    assert("not_viable"@.len() == 10);
    assert("skipped"@.len() == 7);
    assert("generated"@[0] == 'g');
    assert("runnable"@[0] == 'r');
    assert("executed"@[0] == 'e');
    assert("survived"@[0] == 's');
    assert("timed_out"@[0] == 't');
    let members = mutation_attribution_document(v)->Object_0;
    assert forall|i: int, j: int| 0 <= i < j < members.len() implies (#[trigger] members[i]).0 != (
    #[trigger] members[j]).0 by {
    }
    lemma_member_is_found(members, 0);
    lemma_member_is_found(members, 1);
    lemma_member_is_found(members, 2);
    lemma_member_is_found(members, 3);
    lemma_member_is_found(members, 4);
    lemma_member_is_found(members, 5);
    lemma_member_is_found(members, 6);
    lemma_member_is_found(members, 7);
    lemma_member_is_found(members, 8);
}

/// A mutation attribution that was written is read as it was.
pub proof fn lemma_mutation_attribution_reads(v: MutationAttribution)
    ensures
        mutation_attribution_in(mutation_attribution_document(v)) == Some(v),
        mutation_attribution_document(v) is Object,
{
    let value = mutation_attribution_document(v);
    lemma_mutation_attribution_names(v);
    lemma_members_are_fields(value);
    lemma_unsigned_reads(v.generated as int);
    lemma_unsigned_reads(v.runnable as int);
    lemma_unsigned_reads(v.executed as int);
    lemma_unsigned_reads(v.killed as int);
    lemma_unsigned_reads(v.survived as int);
    lemma_unsigned_reads(v.not_covered as int);
    lemma_unsigned_reads(v.timed_out as int);
    lemma_unsigned_reads(v.not_viable as int);
    lemma_unsigned_reads(v.skipped as int);
    assert(unsigned_at(value, "generated"@, usize::MAX as int) == Some(v.generated as int));
    assert(unsigned_at(value, "runnable"@, usize::MAX as int) == Some(v.runnable as int));
    assert(unsigned_at(value, "executed"@, usize::MAX as int) == Some(v.executed as int));
    assert(unsigned_at(value, "killed"@, usize::MAX as int) == Some(v.killed as int));
    assert(unsigned_at(value, "survived"@, usize::MAX as int) == Some(v.survived as int));
    assert(unsigned_at(value, "not_covered"@, usize::MAX as int) == Some(v.not_covered as int));
    assert(unsigned_at(value, "timed_out"@, usize::MAX as int) == Some(v.timed_out as int));
    assert(unsigned_at(value, "not_viable"@, usize::MAX as int) == Some(v.not_viable as int));
    assert(unsigned_at(value, "skipped"@, usize::MAX as int) == Some(v.skipped as int));
}

/// A mutation attribution is an ordinary value.
pub proof fn lemma_mutation_attribution_is_plain(v: MutationAttribution, depth: nat)
    requires
        depth >= 1,
    ensures
        is_plain(mutation_attribution_document(v), depth),
{
    let members = mutation_attribution_document(v)->Object_0;
    lemma_mutation_attribution_names(v);
    lemma_unsigned_reads(v.generated as int);
    lemma_unsigned_reads(v.runnable as int);
    lemma_unsigned_reads(v.executed as int);
    lemma_unsigned_reads(v.killed as int);
    lemma_unsigned_reads(v.survived as int);
    lemma_unsigned_reads(v.not_covered as int);
    lemma_unsigned_reads(v.timed_out as int);
    lemma_unsigned_reads(v.not_viable as int);
    lemma_unsigned_reads(v.skipped as int);
    assert forall|i: int| 0 <= i < members.len() implies is_plain(
        (#[trigger] members[i]).1,
        (depth - 1) as nat,
    ) by {
    }
}

/// The labels of counts.
pub open spec fn labels_of(items: Seq<AttributionEntryModel>) -> Seq<Seq<char>> {
    items.map_values(|e: AttributionEntryModel| e.label)
}

proof fn lemma_attribution_names(items: Seq<AttributionEntryModel>)
    requires
        ascending::<ByText>(labels_of(items)),
    ensures
        distinct_names(attribution_members(items)),
{
    let members = attribution_members(items);
    let labels = labels_of(items);
    assert forall|i: int, j: int| 0 <= i < j < members.len() implies (#[trigger] members[i]).0 != (
    #[trigger] members[j]).0 by {
        assert(text_lt(labels[i], labels[j]));
        lemma_text_lt_irreflexive(labels[i]);
    }
}

proof fn lemma_counts_read(items: Seq<AttributionEntryModel>, n: int)
    requires
        ascending::<ByText>(labels_of(items)),
        0 <= n <= items.len(),
    ensures
        attribution_counts(JsonModel::Object(attribution_members(items)), labels_of(items).take(n)) == Some(
            items.take(n),
        ),
    decreases n,
{
    let members = attribution_members(items);
    let labels = labels_of(items).take(n);
    if n > 0 {
        lemma_counts_read(items, n - 1);
        lemma_attribution_names(items);
        lemma_member_is_found(members, n - 1);
        lemma_mutation_attribution_reads(items[n - 1].counts);
        assert(labels.drop_last() =~= labels_of(items).take(n - 1));
        assert(labels.last() == items[n - 1].label);
        assert(items.take(n) =~= items.take(n - 1).push(
            AttributionEntryModel { label: labels.last(), counts: items[n - 1].counts },
        ));
    } else {
        assert(labels.len() == 0);
        assert(items.take(0) =~= Seq::<AttributionEntryModel>::empty());
    }
}

/// A list that is in order already stays as it is.
proof fn lemma_sorted_set_of_sorted(s: Seq<Seq<char>>)
    requires
        ascending::<ByText>(s),
    ensures
        sorted_set::<ByText>(s) == s,
    decreases s.len(),
{
    if s.len() > 0 {
        let before = s.drop_last();
        assert(ascending::<ByText>(before));
        lemma_sorted_set_of_sorted(before);
        if before.len() > 0 {
            assert(text_lt(s[s.len() - 2], s[s.len() - 1]));
        }
        assert(s =~= before.push(s.last()));
    }
}

proof fn lemma_attribution_reads(items: Seq<AttributionEntryModel>)
    requires
        ascending::<ByText>(labels_of(items)),
    ensures
        attribution_counts(
            JsonModel::Object(attribution_members(items)),
            sorted_set::<ByText>(member_names(JsonModel::Object(attribution_members(items)))),
        ) == Some(items),
        all_counts(attribution_members(items)),
{
    let labels = labels_of(items);
    let members = attribution_members(items);
    assert forall|i: int| 0 <= i < members.len() implies mutation_attribution_in(
        (#[trigger] members[i]).1,
    ) is Some by {
        lemma_mutation_attribution_reads(items[i].counts);
    }
    assert(member_names(JsonModel::Object(attribution_members(items))) =~= labels);
    lemma_sorted_set_of_sorted(labels);
    lemma_counts_read(items, items.len() as int);
    assert(labels.take(labels.len() as int) =~= labels);
    assert(items.take(items.len() as int) =~= items);
}

proof fn lemma_attribution_is_plain(items: Seq<AttributionEntryModel>, depth: nat)
    requires
        depth >= 2,
        ascending::<ByText>(labels_of(items)),
    ensures
        is_plain(JsonModel::Object(attribution_members(items)), depth),
{
    let members = attribution_members(items);
    lemma_attribution_names(items);
    assert forall|i: int| 0 <= i < members.len() implies is_plain(
        (#[trigger] members[i]).1,
        (depth - 1) as nat,
    ) by {
        lemma_mutation_attribution_is_plain(items[i].counts, (depth - 1) as nat);
    }
}

proof fn lemma_attribution_is_exact(items: Seq<AttributionEntryModel>, depth: nat)
    requires
        depth >= 2,
        ascending::<ByText>(labels_of(items)),
    ensures
        is_exact(JsonModel::Object(attribution_members(items)), depth),
{
    lemma_attribution_is_plain(items, depth);
    lemma_plain_values_are_exact(depth);
}

proof fn lemma_mutation_record_names(v: MutationRecordModel)
    ensures
        mutation_record_document(v) is Object,
        distinct_names(mutation_record_document(v)->Object_0),
        member(mutation_record_document(v), "id"@) == Some(JsonModel::Text(v.id)),
        member(mutation_record_document(v), "language"@) == Some(JsonModel::Text(v.language)),
        member(mutation_record_document(v), "path"@) == Some(JsonModel::Text(v.path)),
        member(mutation_record_document(v), "symbol"@) == Some(JsonModel::Text(v.symbol)),
        member(mutation_record_document(v), "operator"@) == Some(JsonModel::Text(v.operator)),
        member(mutation_record_document(v), "domain"@) == Some(JsonModel::Text(v.domain)),
        member(mutation_record_document(v), "status"@) == Some(JsonModel::Text(v.status.label_text())),
        member(mutation_record_document(v), "from"@) == Some(text_or_null(v.from)),
        member(mutation_record_document(v), "to"@) == Some(text_or_null(v.to)),
        member(mutation_record_document(v), "line_range"@) == Some(optional_line_range_document(v.line_range)),
        member(mutation_record_document(v), "source_span"@) == Some(optional_line_range_document(v.source_span)),
        member(mutation_record_document(v), "diff"@) == Some(text_or_null(v.diff)),
        member(mutation_record_document(v), "risk_note"@) == Some(text_or_null(v.risk_note)),
        member(mutation_record_document(v), "suggested_test"@) == Some(text_or_null(v.suggested_test)),
        member(mutation_record_document(v), "skip_reason"@) == Some(text_or_null(v.skip_reason)),
        member(mutation_record_document(v), "selected_test_command"@) == Some(text_or_null(v.selected_test_command)),
        member(mutation_record_document(v), "test_selection_hint"@) == Some(text_or_null(v.test_selection_hint)),
        member(mutation_record_document(v), "test_selection_fallback"@) == Some(text_or_null(v.test_selection_fallback)),
        member(mutation_record_document(v), "brittleness_probe"@) == Some(JsonModel::Bool(v.brittleness_probe)),
        member(mutation_record_document(v), "command"@) == Some(text_or_null(v.command)),
        member(mutation_record_document(v), "duration_ms"@) == Some(JsonModel::Number(decimal(v.duration_ms as int))),
        member(mutation_record_document(v), "diff_path"@) == Some(text_or_null(v.diff_path)),
        member(mutation_record_document(v), "outcome_path"@) == Some(text_or_null(v.outcome_path)),
        member(mutation_record_document(v), "command_log_path"@) == Some(text_or_null(v.command_log_path)),
        member(mutation_record_document(v), "stdout_log_path"@) == Some(text_or_null(v.stdout_log_path)),
        member(mutation_record_document(v), "stderr_log_path"@) == Some(text_or_null(v.stderr_log_path)),
{
    reveal_strlit("id");
    reveal_strlit("language");
    reveal_strlit("path");
    reveal_strlit("symbol");
    reveal_strlit("operator");
    reveal_strlit("domain");
    reveal_strlit("status");
    reveal_strlit("from");
    reveal_strlit("to");
    reveal_strlit("line_range");
    reveal_strlit("source_span");
    reveal_strlit("diff");
    reveal_strlit("risk_note");
    reveal_strlit("suggested_test");
    reveal_strlit("skip_reason");
    reveal_strlit("selected_test_command");
    reveal_strlit("test_selection_hint");
    reveal_strlit("test_selection_fallback");
    reveal_strlit("brittleness_probe");
    reveal_strlit("command");
    reveal_strlit("duration_ms");
    reveal_strlit("diff_path");
    reveal_strlit("outcome_path");
    reveal_strlit("command_log_path");
    reveal_strlit("stdout_log_path");
    reveal_strlit("stderr_log_path");
    assert("id"@.len() == 2);
    assert("language"@.len() == 8);
    assert("path"@.len() == 4);
    assert("symbol"@.len() == 6);
    assert("operator"@.len() == 8);
    assert("domain"@.len() == 6);
    assert("status"@.len() == 6);
    assert("from"@.len() == 4);
    assert("to"@.len() == 2);
    assert("line_range"@.len() == 10);
    assert("source_span"@.len() == 11);
    assert("diff"@.len() == 4);
    assert("risk_note"@.len() == 9);
    assert("suggested_test"@.len() == 14);
    assert("skip_reason"@.len() == 11);
    assert("selected_test_command"@.len() == 21);
    assert("test_selection_hint"@.len() == 19);
    assert("test_selection_fallback"@.len() == 23);
    assert("brittleness_probe"@.len() == 17);
    assert("command"@.len() == 7);
    assert("duration_ms"@.len() == 11);
    assert("diff_path"@.len() == 9);
    assert("outcome_path"@.len() == 12);
    assert("command_log_path"@.len() == 16);
    assert("stdout_log_path"@.len() == 15);
    assert("stderr_log_path"@.len() == 15);
    assert("id"@[0] == 'i');
    assert("language"@[0] == 'l');
    assert("path"@[0] == 'p');
    assert("symbol"@[0] == 's');
    assert("symbol"@[1] == 'y');
    assert("operator"@[0] == 'o');
    assert("domain"@[0] == 'd');
    assert("status"@[0] == 's');
    assert("status"@[1] == 't');
    assert("from"@[0] == 'f');
    assert("to"@[0] == 't');
    assert("source_span"@[0] == 's');
    assert("source_span"@[1] == 'o');
    assert("diff"@[0] == 'd');
    assert("risk_note"@[0] == 'r');
    assert("skip_reason"@[0] == 's');
    assert("skip_reason"@[1] == 'k');
    assert("duration_ms"@[0] == 'd');
    assert("diff_path"@[0] == 'd');
    assert("stdout_log_path"@[3] == 'o');
    assert("stderr_log_path"@[3] == 'e');
    let members = mutation_record_document(v)->Object_0;
    assert forall|i: int, j: int| 0 <= i < j < members.len() implies (#[trigger] members[i]).0 != (
    #[trigger] members[j]).0 by {
    }
    lemma_member_is_found(members, 0);
    lemma_member_is_found(members, 1);
    lemma_member_is_found(members, 2);
    lemma_member_is_found(members, 3);
    lemma_member_is_found(members, 4);
    lemma_member_is_found(members, 5);
    lemma_member_is_found(members, 6);
    lemma_member_is_found(members, 7);
    lemma_member_is_found(members, 8);
    lemma_member_is_found(members, 9);
    lemma_member_is_found(members, 10);
    lemma_member_is_found(members, 11);
    lemma_member_is_found(members, 12);
    lemma_member_is_found(members, 13);
    lemma_member_is_found(members, 14);
    lemma_member_is_found(members, 15);
    lemma_member_is_found(members, 16);
    lemma_member_is_found(members, 17);
    lemma_member_is_found(members, 18);
    lemma_member_is_found(members, 19);
    lemma_member_is_found(members, 20);
    lemma_member_is_found(members, 21);
    lemma_member_is_found(members, 22);
    lemma_member_is_found(members, 23);
    lemma_member_is_found(members, 24);
    lemma_member_is_found(members, 25);
}

/// A mutation record that was written is read as it was.
pub proof fn lemma_mutation_record_reads(v: MutationRecordModel)
    ensures
        mutation_record_in(mutation_record_document(v)) == Some(v),
        mutation_record_document(v) is Object,
{
    let value = mutation_record_document(v);
    lemma_mutation_record_names(v);
    lemma_members_are_fields(value);
    lemma_mutation_status_reads(v.status);
    if let Some(given) = v.line_range {
        lemma_line_range_reads(given);
    }
    if let Some(given) = v.source_span {
        lemma_line_range_reads(given);
    }
    lemma_unsigned_reads(v.duration_ms as int);
    assert(text_at(value, "id"@) == Some(v.id));
    assert(text_at(value, "language"@) == Some(v.language));
    assert(text_at(value, "path"@) == Some(v.path));
    assert(text_at(value, "symbol"@) == Some(v.symbol));
    assert(text_at(value, "operator"@) == Some(v.operator));
    assert(text_at(value, "domain"@) == Some(v.domain));
    assert(mutation_status_at(value, "status"@) == Some(v.status));
    assert(optional_text_at(value, "from"@) == Some(v.from));
    assert(optional_text_at(value, "to"@) == Some(v.to));
    assert(optional_line_range_at(value, "line_range"@) == Some(v.line_range));
    assert(optional_line_range_at(value, "source_span"@) == Some(v.source_span));
    assert(optional_text_at(value, "diff"@) == Some(v.diff));
    assert(optional_text_at(value, "risk_note"@) == Some(v.risk_note));
    assert(optional_text_at(value, "suggested_test"@) == Some(v.suggested_test));
    assert(optional_text_at(value, "skip_reason"@) == Some(v.skip_reason));
    assert(optional_text_at(value, "selected_test_command"@) == Some(v.selected_test_command));
    assert(optional_text_at(value, "test_selection_hint"@) == Some(v.test_selection_hint));
    assert(optional_text_at(value, "test_selection_fallback"@) == Some(v.test_selection_fallback));
    assert(flag_at(value, "brittleness_probe"@) == Some(v.brittleness_probe));
    assert(optional_text_at(value, "command"@) == Some(v.command));
    assert(unsigned_at(value, "duration_ms"@, u128::MAX as int) == Some(v.duration_ms as int));
    assert(optional_text_at(value, "diff_path"@) == Some(v.diff_path));
    assert(optional_text_at(value, "outcome_path"@) == Some(v.outcome_path));
    assert(optional_text_at(value, "command_log_path"@) == Some(v.command_log_path));
    assert(optional_text_at(value, "stdout_log_path"@) == Some(v.stdout_log_path));
    assert(optional_text_at(value, "stderr_log_path"@) == Some(v.stderr_log_path));
}

/// A mutation record has whole numbers.
pub proof fn lemma_mutation_record_is_exact(v: MutationRecordModel, depth: nat)
    requires
        depth >= 2,
    ensures
        is_exact(mutation_record_document(v), depth),
{
    lemma_plain_values_are_exact((depth - 1) as nat);
    let members = mutation_record_document(v)->Object_0;
    lemma_mutation_record_names(v);
    if let Some(given) = v.line_range {
        lemma_line_range_is_plain(given, (depth - 1) as nat);
    }
    if let Some(given) = v.source_span {
        lemma_line_range_is_plain(given, (depth - 1) as nat);
    }
    lemma_unsigned_reads(v.duration_ms as int);
    assert forall|i: int| 0 <= i < members.len() implies is_exact(
        (#[trigger] members[i]).1,
        (depth - 1) as nat,
    ) by {
    }
}

proof fn lemma_all_mutation_records_read(items: Seq<MutationRecordModel>)
    ensures
        all_mutation_records(mutation_record_documents(items)) == Some(items),
    decreases items.len(),
{
    let all = mutation_record_documents(items);
    if items.len() > 0 {
        lemma_all_mutation_records_read(items.drop_last());
        lemma_mutation_record_reads(items.last());
        assert(all.drop_last() =~= mutation_record_documents(items.drop_last()));
        assert(items =~= items.drop_last().push(items.last()));
    } else {
        assert(items =~= Seq::<MutationRecordModel>::empty());
    }
}

proof fn lemma_all_mutation_records_are_exact(items: Seq<MutationRecordModel>, depth: nat)
    requires
        depth >= 3,
    ensures
        is_exact(JsonModel::Array(mutation_record_documents(items)), depth),
{
    lemma_plain_values_are_exact((depth - 1) as nat);
    let all = mutation_record_documents(items);
    assert forall|i: int| 0 <= i < all.len() implies is_exact(
        #[trigger] all[i],
        (depth - 1) as nat,
    ) by {
        lemma_mutation_record_is_exact(items[i], (depth - 1) as nat);
    }
}

/// Whether every list of counts of a mutation metrics is in order.
pub open spec fn mutation_metrics_keeps(v: MutationMetricsModel) -> bool {
    &&& ascending::<ByText>(labels_of(v.by_domain))
    &&& ascending::<ByText>(labels_of(v.by_operator))
}

proof fn lemma_mutation_metrics_names(v: MutationMetricsModel)
    ensures
        mutation_metrics_document(v) is Object,
        distinct_names(mutation_metrics_document(v)->Object_0),
        member(mutation_metrics_document(v), "generated"@) == Some(JsonModel::Number(decimal(v.generated as int))),
        member(mutation_metrics_document(v), "runnable"@) == Some(JsonModel::Number(decimal(v.runnable as int))),
        member(mutation_metrics_document(v), "executed"@) == Some(JsonModel::Number(decimal(v.executed as int))),
        member(mutation_metrics_document(v), "killed"@) == Some(JsonModel::Number(decimal(v.killed as int))),
        member(mutation_metrics_document(v), "survived"@) == Some(JsonModel::Number(decimal(v.survived as int))),
        member(mutation_metrics_document(v), "not_covered"@) == Some(JsonModel::Number(decimal(v.not_covered as int))),
        member(mutation_metrics_document(v), "timed_out"@) == Some(JsonModel::Number(decimal(v.timed_out as int))),
        member(mutation_metrics_document(v), "not_viable"@) == Some(JsonModel::Number(decimal(v.not_viable as int))),
        member(mutation_metrics_document(v), "skipped"@) == Some(JsonModel::Number(decimal(v.skipped as int))),
        member(mutation_metrics_document(v), "requested_workers"@) == Some(JsonModel::Number(decimal(v.requested_workers as int))),
        member(mutation_metrics_document(v), "effective_workers"@) == Some(JsonModel::Number(decimal(v.effective_workers as int))),
        member(mutation_metrics_document(v), "isolation_failures"@) == Some(JsonModel::Number(decimal(v.isolation_failures as int))),
        member(mutation_metrics_document(v), "isolation_setup_ms"@) == Some(JsonModel::Number(decimal(v.isolation_setup_ms as int))),
        member(mutation_metrics_document(v), "isolation_copy_ms"@) == Some(JsonModel::Number(decimal(v.isolation_copy_ms as int))),
        member(mutation_metrics_document(v), "isolation_excluded_path_count"@) == Some(JsonModel::Number(decimal(v.isolation_excluded_path_count as int))),
        member(mutation_metrics_document(v), "records"@) == Some(JsonModel::Array(mutation_record_documents(v.records))),
        member(mutation_metrics_document(v), "by_domain"@) == Some(JsonModel::Object(attribution_members(v.by_domain))),
        member(mutation_metrics_document(v), "by_operator"@) == Some(JsonModel::Object(attribution_members(v.by_operator))),
        member(mutation_metrics_document(v), "score_percent"@) == Some(number_or_null(match v.score_percent {
                    Some(n) => Some(n as int),
                    None => None,
                })),
        member(mutation_metrics_document(v), "efficacy_percent"@) == Some(number_or_null(match v.efficacy_percent {
                    Some(n) => Some(n as int),
                    None => None,
                })),
        member(mutation_metrics_document(v), "mutant_coverage_percent"@) == Some(number_or_null(match v.mutant_coverage_percent {
                    Some(n) => Some(n as int),
                    None => None,
                })),
        member(mutation_metrics_document(v), "correctness_executed"@) == Some(JsonModel::Number(decimal(v.correctness_executed as int))),
        member(mutation_metrics_document(v), "correctness_survived"@) == Some(JsonModel::Number(decimal(v.correctness_survived as int))),
        member(mutation_metrics_document(v), "brittleness_executed"@) == Some(JsonModel::Number(decimal(v.brittleness_executed as int))),
        member(mutation_metrics_document(v), "brittleness_killed"@) == Some(JsonModel::Number(decimal(v.brittleness_killed as int))),
        member(mutation_metrics_document(v), "correctness_score_percent"@) == Some(number_or_null(match v.correctness_score_percent {
                    Some(n) => Some(n as int),
                    None => None,
                })),
        member(mutation_metrics_document(v), "brittleness_survival_percent"@) == Some(number_or_null(match v.brittleness_survival_percent {
                    Some(n) => Some(n as int),
                    None => None,
                })),
        member(mutation_metrics_document(v), "baseline_duration_ms"@) == Some(number_or_null(match v.baseline_duration_ms {
                    Some(n) => Some(n as int),
                    None => None,
                })),
        member(mutation_metrics_document(v), "computed_timeout_seconds"@) == Some(number_or_null(match v.computed_timeout_seconds {
                    Some(n) => Some(n as int),
                    None => None,
                })),
        member(mutation_metrics_document(v), "timeout_source"@) == Some(text_or_null(v.timeout_source)),
{
    reveal_strlit("generated");
    reveal_strlit("runnable");
    reveal_strlit("executed");
    reveal_strlit("killed");
    reveal_strlit("survived");
    reveal_strlit("not_covered");
    reveal_strlit("timed_out");
    reveal_strlit("not_viable");
    reveal_strlit("skipped");
    reveal_strlit("requested_workers");
    reveal_strlit("effective_workers");
    reveal_strlit("isolation_failures");
    reveal_strlit("isolation_setup_ms");
    reveal_strlit("isolation_copy_ms");
    reveal_strlit("isolation_excluded_path_count");
    reveal_strlit("records");
    reveal_strlit("by_domain");
    reveal_strlit("by_operator");
    reveal_strlit("score_percent");
    reveal_strlit("efficacy_percent");
    reveal_strlit("mutant_coverage_percent");
    reveal_strlit("correctness_executed");
    reveal_strlit("correctness_survived");
    reveal_strlit("brittleness_executed");
    reveal_strlit("brittleness_killed");
    reveal_strlit("correctness_score_percent");
    reveal_strlit("brittleness_survival_percent");
    reveal_strlit("baseline_duration_ms");
    reveal_strlit("computed_timeout_seconds");
    reveal_strlit("timeout_source");
    assert("generated"@.len() == 9);
    assert("runnable"@.len() == 8);
    assert("executed"@.len() == 8);
    assert("killed"@.len() == 6);
    assert("survived"@.len() == 8);
    assert("not_covered"@.len() == 11);
    assert("timed_out"@.len() == 9);
    assert("not_viable"@.len() == 10);
    assert("skipped"@.len() == 7);
    assert("requested_workers"@.len() == 17);
    assert("effective_workers"@.len() == 17);
    assert("isolation_failures"@.len() == 18);
    assert("isolation_setup_ms"@.len() == 18);
    assert("isolation_copy_ms"@.len() == 17);
    assert("isolation_excluded_path_count"@.len() == 29);
    assert("records"@.len() == 7);
    assert("by_domain"@.len() == 9);
    assert("by_operator"@.len() == 11);
    assert("score_percent"@.len() == 13);
    assert("efficacy_percent"@.len() == 16);
    assert("mutant_coverage_percent"@.len() == 23);
    assert("correctness_executed"@.len() == 20);
    assert("correctness_survived"@.len() == 20);
    assert("brittleness_executed"@.len() == 20);
    assert("brittleness_killed"@.len() == 18);
    assert("correctness_score_percent"@.len() == 25);
    assert("brittleness_survival_percent"@.len() == 28);
    assert("baseline_duration_ms"@.len() == 20);
    assert("computed_timeout_seconds"@.len() == 24);
    assert("timeout_source"@.len() == 14);
    assert("generated"@[0] == 'g');
    assert("runnable"@[0] == 'r');
    assert("executed"@[0] == 'e');
    assert("survived"@[0] == 's');
    assert("not_covered"@[0] == 'n');
    assert("timed_out"@[0] == 't');
    assert("skipped"@[0] == 's');
    assert("requested_workers"@[0] == 'r');
    assert("effective_workers"@[0] == 'e');
    assert("isolation_failures"@[0] == 'i');
    assert("isolation_failures"@[10] == 'f');
    assert("isolation_setup_ms"@[0] == 'i');
    assert("isolation_setup_ms"@[10] == 's');
    assert("isolation_copy_ms"@[0] == 'i');
    assert("records"@[0] == 'r');
    assert("by_domain"@[0] == 'b');
    assert("by_operator"@[0] == 'b');
    assert("correctness_executed"@[0] == 'c');
    assert("correctness_executed"@[12] == 'e');
    assert("correctness_survived"@[0] == 'c');
    assert("correctness_survived"@[12] == 's');
    assert("brittleness_executed"@[0] == 'b');
    assert("brittleness_executed"@[1] == 'r');
    assert("brittleness_killed"@[0] == 'b');
    assert("baseline_duration_ms"@[0] == 'b');
    assert("baseline_duration_ms"@[1] == 'a');
    let members = mutation_metrics_document(v)->Object_0;
    assert forall|i: int, j: int| 0 <= i < j < members.len() implies (#[trigger] members[i]).0 != (
    #[trigger] members[j]).0 by {
    }
    lemma_member_is_found(members, 0);
    lemma_member_is_found(members, 1);
    lemma_member_is_found(members, 2);
    lemma_member_is_found(members, 3);
    lemma_member_is_found(members, 4);
    lemma_member_is_found(members, 5);
    lemma_member_is_found(members, 6);
    lemma_member_is_found(members, 7);
    lemma_member_is_found(members, 8);
    lemma_member_is_found(members, 9);
    lemma_member_is_found(members, 10);
    lemma_member_is_found(members, 11);
    lemma_member_is_found(members, 12);
    lemma_member_is_found(members, 13);
    lemma_member_is_found(members, 14);
    lemma_member_is_found(members, 15);
    lemma_member_is_found(members, 16);
    lemma_member_is_found(members, 17);
    lemma_member_is_found(members, 18);
    lemma_member_is_found(members, 19);
    lemma_member_is_found(members, 20);
    lemma_member_is_found(members, 21);
    lemma_member_is_found(members, 22);
    lemma_member_is_found(members, 23);
    lemma_member_is_found(members, 24);
    lemma_member_is_found(members, 25);
    lemma_member_is_found(members, 26);
    lemma_member_is_found(members, 27);
    lemma_member_is_found(members, 28);
    lemma_member_is_found(members, 29);
}

/// A mutation metrics that was written is read as it was.
#[verifier::rlimit(60)]
#[verifier::spinoff_prover]
pub proof fn lemma_mutation_metrics_reads(v: MutationMetricsModel)
    requires
        mutation_metrics_keeps(v),
    ensures
        mutation_metrics_in(mutation_metrics_document(v)) == Some(v),
        mutation_metrics_document(v) is Object,
{
    let value = mutation_metrics_document(v);
    lemma_mutation_metrics_names(v);
    lemma_members_are_fields(value);
    lemma_unsigned_reads(v.generated as int);
    lemma_unsigned_reads(v.runnable as int);
    lemma_unsigned_reads(v.executed as int);
    lemma_unsigned_reads(v.killed as int);
    lemma_unsigned_reads(v.survived as int);
    lemma_unsigned_reads(v.not_covered as int);
    lemma_unsigned_reads(v.timed_out as int);
    lemma_unsigned_reads(v.not_viable as int);
    lemma_unsigned_reads(v.skipped as int);
    lemma_unsigned_reads(v.requested_workers as int);
    lemma_unsigned_reads(v.effective_workers as int);
    lemma_unsigned_reads(v.isolation_failures as int);
    lemma_unsigned_reads(v.isolation_setup_ms as int);
    lemma_unsigned_reads(v.isolation_copy_ms as int);
    lemma_unsigned_reads(v.isolation_excluded_path_count as int);
    lemma_all_mutation_records_read(v.records);
    lemma_attribution_reads(v.by_domain);
    lemma_attribution_reads(v.by_operator);
    if let Some(n) = v.score_percent {
        lemma_unsigned_reads(n as int);
    }
    if let Some(n) = v.efficacy_percent {
        lemma_unsigned_reads(n as int);
    }
    if let Some(n) = v.mutant_coverage_percent {
        lemma_unsigned_reads(n as int);
    }
    lemma_unsigned_reads(v.correctness_executed as int);
    lemma_unsigned_reads(v.correctness_survived as int);
    lemma_unsigned_reads(v.brittleness_executed as int);
    lemma_unsigned_reads(v.brittleness_killed as int);
    if let Some(n) = v.correctness_score_percent {
        lemma_unsigned_reads(n as int);
    }
    if let Some(n) = v.brittleness_survival_percent {
        lemma_unsigned_reads(n as int);
    }
    if let Some(n) = v.baseline_duration_ms {
        lemma_unsigned_reads(n as int);
    }
    if let Some(n) = v.computed_timeout_seconds {
        lemma_unsigned_reads(n as int);
    }
    assert(unsigned_at(value, "generated"@, usize::MAX as int) == Some(v.generated as int));
    assert(unsigned_at(value, "runnable"@, usize::MAX as int) == Some(v.runnable as int));
    assert(unsigned_at(value, "executed"@, usize::MAX as int) == Some(v.executed as int));
    assert(unsigned_at(value, "killed"@, usize::MAX as int) == Some(v.killed as int));
    assert(unsigned_at(value, "survived"@, usize::MAX as int) == Some(v.survived as int));
    assert(unsigned_at(value, "not_covered"@, usize::MAX as int) == Some(v.not_covered as int));
    assert(unsigned_at(value, "timed_out"@, usize::MAX as int) == Some(v.timed_out as int));
    assert(unsigned_at(value, "not_viable"@, usize::MAX as int) == Some(v.not_viable as int));
    assert(unsigned_at(value, "skipped"@, usize::MAX as int) == Some(v.skipped as int));
    assert(unsigned_at(value, "requested_workers"@, usize::MAX as int) == Some(v.requested_workers as int));
    assert(unsigned_at(value, "effective_workers"@, usize::MAX as int) == Some(v.effective_workers as int));
    assert(unsigned_at(value, "isolation_failures"@, usize::MAX as int) == Some(v.isolation_failures as int));
    assert(unsigned_at(value, "isolation_setup_ms"@, u128::MAX as int) == Some(v.isolation_setup_ms as int));
    assert(unsigned_at(value, "isolation_copy_ms"@, u128::MAX as int) == Some(v.isolation_copy_ms as int));
    assert(unsigned_at(value, "isolation_excluded_path_count"@, usize::MAX as int) == Some(v.isolation_excluded_path_count as int));
    assert(mutation_records_at(value, "records"@) == Some(v.records));
    assert(attribution_at(value, "by_domain"@) == Some(v.by_domain));
    assert(attribution_at(value, "by_operator"@) == Some(v.by_operator));
    assert(optional_u8_at(value, "score_percent"@) == Some(v.score_percent));
    assert(optional_u8_at(value, "efficacy_percent"@) == Some(v.efficacy_percent));
    assert(optional_u8_at(value, "mutant_coverage_percent"@) == Some(v.mutant_coverage_percent));
    assert(unsigned_at(value, "correctness_executed"@, usize::MAX as int) == Some(v.correctness_executed as int));
    assert(unsigned_at(value, "correctness_survived"@, usize::MAX as int) == Some(v.correctness_survived as int));
    assert(unsigned_at(value, "brittleness_executed"@, usize::MAX as int) == Some(v.brittleness_executed as int));
    assert(unsigned_at(value, "brittleness_killed"@, usize::MAX as int) == Some(v.brittleness_killed as int));
    assert(optional_u8_at(value, "correctness_score_percent"@) == Some(v.correctness_score_percent));
    assert(optional_u8_at(value, "brittleness_survival_percent"@) == Some(v.brittleness_survival_percent));
    assert(optional_u64_at(value, "baseline_duration_ms"@) == Some(v.baseline_duration_ms));
    assert(optional_u64_at(value, "computed_timeout_seconds"@) == Some(v.computed_timeout_seconds));
    assert(optional_text_at(value, "timeout_source"@) == Some(v.timeout_source));
}

/// A mutation metrics has whole numbers.
#[verifier::rlimit(80)]
#[verifier::spinoff_prover]
pub proof fn lemma_mutation_metrics_is_exact(v: MutationMetricsModel, depth: nat)
    requires
        depth >= 4,
        mutation_metrics_keeps(v),
    ensures
        is_exact(mutation_metrics_document(v), depth),
{
    let members = mutation_metrics_document(v)->Object_0;
    lemma_mutation_metrics_names(v);
    lemma_unsigned_reads(v.generated as int);
    lemma_unsigned_reads(v.runnable as int);
    lemma_unsigned_reads(v.executed as int);
    lemma_unsigned_reads(v.killed as int);
    lemma_unsigned_reads(v.survived as int);
    lemma_unsigned_reads(v.not_covered as int);
    lemma_unsigned_reads(v.timed_out as int);
    lemma_unsigned_reads(v.not_viable as int);
    lemma_unsigned_reads(v.skipped as int);
    lemma_unsigned_reads(v.requested_workers as int);
    lemma_unsigned_reads(v.effective_workers as int);
    lemma_unsigned_reads(v.isolation_failures as int);
    lemma_unsigned_reads(v.isolation_setup_ms as int);
    lemma_unsigned_reads(v.isolation_copy_ms as int);
    lemma_unsigned_reads(v.isolation_excluded_path_count as int);
    lemma_all_mutation_records_are_exact(v.records, (depth - 1) as nat);
    lemma_attribution_is_exact(v.by_domain, (depth - 1) as nat);
    lemma_attribution_is_exact(v.by_operator, (depth - 1) as nat);
    if let Some(n) = v.score_percent {
        lemma_unsigned_reads(n as int);
    }
    if let Some(n) = v.efficacy_percent {
        lemma_unsigned_reads(n as int);
    }
    if let Some(n) = v.mutant_coverage_percent {
        lemma_unsigned_reads(n as int);
    }
    lemma_unsigned_reads(v.correctness_executed as int);
    lemma_unsigned_reads(v.correctness_survived as int);
    lemma_unsigned_reads(v.brittleness_executed as int);
    lemma_unsigned_reads(v.brittleness_killed as int);
    if let Some(n) = v.correctness_score_percent {
        lemma_unsigned_reads(n as int);
    }
    if let Some(n) = v.brittleness_survival_percent {
        lemma_unsigned_reads(n as int);
    }
    if let Some(n) = v.baseline_duration_ms {
        lemma_unsigned_reads(n as int);
    }
    if let Some(n) = v.computed_timeout_seconds {
        lemma_unsigned_reads(n as int);
    }
    let inner = (depth - 1) as nat;
    assert(is_exact(members[0].1, inner));
    assert(is_exact(members[1].1, inner));
    assert(is_exact(members[2].1, inner));
    assert(is_exact(members[3].1, inner));
    assert(is_exact(members[4].1, inner));
    assert(is_exact(members[5].1, inner));
    assert(is_exact(members[6].1, inner));
    assert(is_exact(members[7].1, inner));
    assert(is_exact(members[8].1, inner));
    assert(is_exact(members[9].1, inner));
    assert(is_exact(members[10].1, inner));
    assert(is_exact(members[11].1, inner));
    assert(is_exact(members[12].1, inner));
    assert(is_exact(members[13].1, inner));
    assert(is_exact(members[14].1, inner));
    assert(is_exact(members[15].1, inner));
    assert(is_exact(members[16].1, inner));
    assert(is_exact(members[17].1, inner));
    assert(is_exact(members[18].1, inner));
    assert(is_exact(members[19].1, inner));
    assert(is_exact(members[20].1, inner));
    assert(is_exact(members[21].1, inner));
    assert(is_exact(members[22].1, inner));
    assert(is_exact(members[23].1, inner));
    assert(is_exact(members[24].1, inner));
    assert(is_exact(members[25].1, inner));
    assert(is_exact(members[26].1, inner));
    assert(is_exact(members[27].1, inner));
    assert(is_exact(members[28].1, inner));
    assert(is_exact(members[29].1, inner));
    assert(members.len() == 30);
    assert forall|i: int| 0 <= i < members.len() implies is_exact(
        (#[trigger] members[i]).1,
        (depth - 1) as nat,
    ) by {
    }
}

proof fn lemma_property_metrics_names(v: PropertyMetrics)
    ensures
        property_metrics_document(v) is Object,
        distinct_names(property_metrics_document(v)->Object_0),
        member(property_metrics_document(v), "generated_artifacts"@) == Some(JsonModel::Number(decimal(v.generated_artifacts as int))),
        member(property_metrics_document(v), "no_panic_properties"@) == Some(JsonModel::Number(decimal(v.no_panic_properties as int))),
        member(property_metrics_document(v), "deterministic_properties"@) == Some(JsonModel::Number(decimal(v.deterministic_properties as int))),
        member(property_metrics_document(v), "invariant_properties"@) == Some(JsonModel::Number(decimal(v.invariant_properties as int))),
        member(property_metrics_document(v), "failed_generated_tests"@) == Some(JsonModel::Number(decimal(v.failed_generated_tests as int))),
        member(property_metrics_document(v), "strength_score_percent"@) == Some(number_or_null(match v.strength_score_percent {
                    Some(n) => Some(n as int),
                    None => None,
                })),
{
    reveal_strlit("generated_artifacts");
    reveal_strlit("no_panic_properties");
    reveal_strlit("deterministic_properties");
    reveal_strlit("invariant_properties");
    reveal_strlit("failed_generated_tests");
    reveal_strlit("strength_score_percent");
    assert("generated_artifacts"@.len() == 19);
    assert("no_panic_properties"@.len() == 19);
    assert("deterministic_properties"@.len() == 24);
    assert("invariant_properties"@.len() == 20);
    assert("failed_generated_tests"@.len() == 22);
    assert("strength_score_percent"@.len() == 22);
    assert("generated_artifacts"@[0] == 'g');
    assert("no_panic_properties"@[0] == 'n');
    assert("failed_generated_tests"@[0] == 'f');
    assert("strength_score_percent"@[0] == 's');
    let members = property_metrics_document(v)->Object_0;
    assert forall|i: int, j: int| 0 <= i < j < members.len() implies (#[trigger] members[i]).0 != (
    #[trigger] members[j]).0 by {
    }
    lemma_member_is_found(members, 0);
    lemma_member_is_found(members, 1);
    lemma_member_is_found(members, 2);
    lemma_member_is_found(members, 3);
    lemma_member_is_found(members, 4);
    lemma_member_is_found(members, 5);
}

/// A property metrics that was written is read as it was.
pub proof fn lemma_property_metrics_reads(v: PropertyMetrics)
    ensures
        property_metrics_in(property_metrics_document(v)) == Some(v),
        property_metrics_document(v) is Object,
{
    let value = property_metrics_document(v);
    lemma_property_metrics_names(v);
    lemma_members_are_fields(value);
    lemma_unsigned_reads(v.generated_artifacts as int);
    lemma_unsigned_reads(v.no_panic_properties as int);
    lemma_unsigned_reads(v.deterministic_properties as int);
    lemma_unsigned_reads(v.invariant_properties as int);
    lemma_unsigned_reads(v.failed_generated_tests as int);
    if let Some(n) = v.strength_score_percent {
        lemma_unsigned_reads(n as int);
    }
    assert(unsigned_at(value, "generated_artifacts"@, usize::MAX as int) == Some(v.generated_artifacts as int));
    assert(unsigned_at(value, "no_panic_properties"@, usize::MAX as int) == Some(v.no_panic_properties as int));
    assert(unsigned_at(value, "deterministic_properties"@, usize::MAX as int) == Some(v.deterministic_properties as int));
    assert(unsigned_at(value, "invariant_properties"@, usize::MAX as int) == Some(v.invariant_properties as int));
    assert(unsigned_at(value, "failed_generated_tests"@, usize::MAX as int) == Some(v.failed_generated_tests as int));
    assert(optional_u8_at(value, "strength_score_percent"@) == Some(v.strength_score_percent));
}

/// A property metrics is an ordinary value.
pub proof fn lemma_property_metrics_is_plain(v: PropertyMetrics, depth: nat)
    requires
        depth >= 1,
    ensures
        is_plain(property_metrics_document(v), depth),
{
    let members = property_metrics_document(v)->Object_0;
    lemma_property_metrics_names(v);
    lemma_unsigned_reads(v.generated_artifacts as int);
    lemma_unsigned_reads(v.no_panic_properties as int);
    lemma_unsigned_reads(v.deterministic_properties as int);
    lemma_unsigned_reads(v.invariant_properties as int);
    lemma_unsigned_reads(v.failed_generated_tests as int);
    if let Some(n) = v.strength_score_percent {
        lemma_unsigned_reads(n as int);
    }
    assert forall|i: int| 0 <= i < members.len() implies is_plain(
        (#[trigger] members[i]).1,
        (depth - 1) as nat,
    ) by {
    }
}

proof fn lemma_fuzz_metrics_names(v: FuzzMetrics)
    ensures
        fuzz_metrics_document(v) is Object,
        distinct_names(fuzz_metrics_document(v)->Object_0),
        member(fuzz_metrics_document(v), "generated_harnesses"@) == Some(JsonModel::Number(decimal(v.generated_harnesses as int))),
        member(fuzz_metrics_document(v), "targets_executed"@) == Some(JsonModel::Number(decimal(v.targets_executed as int))),
        member(fuzz_metrics_document(v), "failures"@) == Some(JsonModel::Number(decimal(v.failures as int))),
        member(fuzz_metrics_document(v), "persisted_repros"@) == Some(JsonModel::Number(decimal(v.persisted_repros as int))),
{
    reveal_strlit("generated_harnesses");
    reveal_strlit("targets_executed");
    reveal_strlit("failures");
    reveal_strlit("persisted_repros");
    assert("generated_harnesses"@.len() == 19);
    assert("targets_executed"@.len() == 16);
    assert("failures"@.len() == 8);
    assert("persisted_repros"@.len() == 16);
    assert("targets_executed"@[0] == 't');
    assert("persisted_repros"@[0] == 'p');
    let members = fuzz_metrics_document(v)->Object_0;
    assert forall|i: int, j: int| 0 <= i < j < members.len() implies (#[trigger] members[i]).0 != (
    #[trigger] members[j]).0 by {
    }
    lemma_member_is_found(members, 0);
    lemma_member_is_found(members, 1);
    lemma_member_is_found(members, 2);
    lemma_member_is_found(members, 3);
}

/// A fuzz metrics that was written is read as it was.
pub proof fn lemma_fuzz_metrics_reads(v: FuzzMetrics)
    ensures
        fuzz_metrics_in(fuzz_metrics_document(v)) == Some(v),
        fuzz_metrics_document(v) is Object,
{
    let value = fuzz_metrics_document(v);
    lemma_fuzz_metrics_names(v);
    lemma_members_are_fields(value);
    lemma_unsigned_reads(v.generated_harnesses as int);
    lemma_unsigned_reads(v.targets_executed as int);
    lemma_unsigned_reads(v.failures as int);
    lemma_unsigned_reads(v.persisted_repros as int);
    assert(unsigned_at(value, "generated_harnesses"@, usize::MAX as int) == Some(v.generated_harnesses as int));
    assert(unsigned_at(value, "targets_executed"@, usize::MAX as int) == Some(v.targets_executed as int));
    assert(unsigned_at(value, "failures"@, usize::MAX as int) == Some(v.failures as int));
    assert(unsigned_at(value, "persisted_repros"@, usize::MAX as int) == Some(v.persisted_repros as int));
}

/// A fuzz metrics is an ordinary value.
pub proof fn lemma_fuzz_metrics_is_plain(v: FuzzMetrics, depth: nat)
    requires
        depth >= 1,
    ensures
        is_plain(fuzz_metrics_document(v), depth),
{
    let members = fuzz_metrics_document(v)->Object_0;
    lemma_fuzz_metrics_names(v);
    lemma_unsigned_reads(v.generated_harnesses as int);
    lemma_unsigned_reads(v.targets_executed as int);
    lemma_unsigned_reads(v.failures as int);
    lemma_unsigned_reads(v.persisted_repros as int);
    assert forall|i: int| 0 <= i < members.len() implies is_plain(
        (#[trigger] members[i]).1,
        (depth - 1) as nat,
    ) by {
    }
}

proof fn lemma_regression_metrics_names(v: RegressionMetrics)
    ensures
        regression_metrics_document(v) is Object,
        distinct_names(regression_metrics_document(v)->Object_0),
        member(regression_metrics_document(v), "assertion_candidates"@) == Some(JsonModel::Number(decimal(v.assertion_candidates as int))),
        member(regression_metrics_document(v), "promoted_scaffolds"@) == Some(JsonModel::Number(decimal(v.promoted_scaffolds as int))),
        member(regression_metrics_document(v), "corpus_entries"@) == Some(JsonModel::Number(decimal(v.corpus_entries as int))),
        member(regression_metrics_document(v), "corpus_replayed"@) == Some(JsonModel::Number(decimal(v.corpus_replayed as int))),
        member(regression_metrics_document(v), "corpus_passed"@) == Some(JsonModel::Number(decimal(v.corpus_passed as int))),
        member(regression_metrics_document(v), "corpus_failed"@) == Some(JsonModel::Number(decimal(v.corpus_failed as int))),
        member(regression_metrics_document(v), "corpus_skipped"@) == Some(JsonModel::Number(decimal(v.corpus_skipped as int))),
{
    reveal_strlit("assertion_candidates");
    reveal_strlit("promoted_scaffolds");
    reveal_strlit("corpus_entries");
    reveal_strlit("corpus_replayed");
    reveal_strlit("corpus_passed");
    reveal_strlit("corpus_failed");
    reveal_strlit("corpus_skipped");
    assert("assertion_candidates"@.len() == 20);
    assert("promoted_scaffolds"@.len() == 18);
    assert("corpus_entries"@.len() == 14);
    assert("corpus_replayed"@.len() == 15);
    assert("corpus_passed"@.len() == 13);
    assert("corpus_failed"@.len() == 13);
    assert("corpus_skipped"@.len() == 14);
    assert("corpus_entries"@[7] == 'e');
    assert("corpus_passed"@[7] == 'p');
    assert("corpus_failed"@[7] == 'f');
    assert("corpus_skipped"@[7] == 's');
    let members = regression_metrics_document(v)->Object_0;
    assert forall|i: int, j: int| 0 <= i < j < members.len() implies (#[trigger] members[i]).0 != (
    #[trigger] members[j]).0 by {
    }
    lemma_member_is_found(members, 0);
    lemma_member_is_found(members, 1);
    lemma_member_is_found(members, 2);
    lemma_member_is_found(members, 3);
    lemma_member_is_found(members, 4);
    lemma_member_is_found(members, 5);
    lemma_member_is_found(members, 6);
}

/// A regression metrics that was written is read as it was.
pub proof fn lemma_regression_metrics_reads(v: RegressionMetrics)
    ensures
        regression_metrics_in(regression_metrics_document(v)) == Some(v),
        regression_metrics_document(v) is Object,
{
    let value = regression_metrics_document(v);
    lemma_regression_metrics_names(v);
    lemma_members_are_fields(value);
    lemma_unsigned_reads(v.assertion_candidates as int);
    lemma_unsigned_reads(v.promoted_scaffolds as int);
    lemma_unsigned_reads(v.corpus_entries as int);
    lemma_unsigned_reads(v.corpus_replayed as int);
    lemma_unsigned_reads(v.corpus_passed as int);
    lemma_unsigned_reads(v.corpus_failed as int);
    lemma_unsigned_reads(v.corpus_skipped as int);
    assert(unsigned_at(value, "assertion_candidates"@, usize::MAX as int) == Some(v.assertion_candidates as int));
    assert(unsigned_at(value, "promoted_scaffolds"@, usize::MAX as int) == Some(v.promoted_scaffolds as int));
    assert(unsigned_at(value, "corpus_entries"@, usize::MAX as int) == Some(v.corpus_entries as int));
    assert(unsigned_at(value, "corpus_replayed"@, usize::MAX as int) == Some(v.corpus_replayed as int));
    assert(unsigned_at(value, "corpus_passed"@, usize::MAX as int) == Some(v.corpus_passed as int));
    assert(unsigned_at(value, "corpus_failed"@, usize::MAX as int) == Some(v.corpus_failed as int));
    assert(unsigned_at(value, "corpus_skipped"@, usize::MAX as int) == Some(v.corpus_skipped as int));
}

/// A regression metrics is an ordinary value.
pub proof fn lemma_regression_metrics_is_plain(v: RegressionMetrics, depth: nat)
    requires
        depth >= 1,
    ensures
        is_plain(regression_metrics_document(v), depth),
{
    let members = regression_metrics_document(v)->Object_0;
    lemma_regression_metrics_names(v);
    lemma_unsigned_reads(v.assertion_candidates as int);
    lemma_unsigned_reads(v.promoted_scaffolds as int);
    lemma_unsigned_reads(v.corpus_entries as int);
    lemma_unsigned_reads(v.corpus_replayed as int);
    lemma_unsigned_reads(v.corpus_passed as int);
    lemma_unsigned_reads(v.corpus_failed as int);
    lemma_unsigned_reads(v.corpus_skipped as int);
    assert forall|i: int| 0 <= i < members.len() implies is_plain(
        (#[trigger] members[i]).1,
        (depth - 1) as nat,
    ) by {
    }
}

proof fn lemma_replay_metrics_names(v: ReplayMetrics)
    ensures
        replay_metrics_document(v) is Object,
        distinct_names(replay_metrics_document(v)->Object_0),
        member(replay_metrics_document(v), "manifests"@) == Some(JsonModel::Number(decimal(v.manifests as int))),
        member(replay_metrics_document(v), "results"@) == Some(JsonModel::Number(decimal(v.results as int))),
        member(replay_metrics_document(v), "targets"@) == Some(JsonModel::Number(decimal(v.targets as int))),
        member(replay_metrics_document(v), "cases"@) == Some(JsonModel::Number(decimal(v.cases as int))),
{
    reveal_strlit("manifests");
    reveal_strlit("results");
    reveal_strlit("targets");
    reveal_strlit("cases");
    assert("manifests"@.len() == 9);
    assert("results"@.len() == 7);
    assert("targets"@.len() == 7);
    assert("cases"@.len() == 5);
    assert("results"@[0] == 'r');
    assert("targets"@[0] == 't');
    let members = replay_metrics_document(v)->Object_0;
    assert forall|i: int, j: int| 0 <= i < j < members.len() implies (#[trigger] members[i]).0 != (
    #[trigger] members[j]).0 by {
    }
    lemma_member_is_found(members, 0);
    lemma_member_is_found(members, 1);
    lemma_member_is_found(members, 2);
    lemma_member_is_found(members, 3);
}

/// A replay metrics that was written is read as it was.
pub proof fn lemma_replay_metrics_reads(v: ReplayMetrics)
    ensures
        replay_metrics_in(replay_metrics_document(v)) == Some(v),
        replay_metrics_document(v) is Object,
{
    let value = replay_metrics_document(v);
    lemma_replay_metrics_names(v);
    lemma_members_are_fields(value);
    lemma_unsigned_reads(v.manifests as int);
    lemma_unsigned_reads(v.results as int);
    lemma_unsigned_reads(v.targets as int);
    lemma_unsigned_reads(v.cases as int);
    assert(unsigned_at(value, "manifests"@, usize::MAX as int) == Some(v.manifests as int));
    assert(unsigned_at(value, "results"@, usize::MAX as int) == Some(v.results as int));
    assert(unsigned_at(value, "targets"@, usize::MAX as int) == Some(v.targets as int));
    assert(unsigned_at(value, "cases"@, usize::MAX as int) == Some(v.cases as int));
}

/// A replay metrics is an ordinary value.
pub proof fn lemma_replay_metrics_is_plain(v: ReplayMetrics, depth: nat)
    requires
        depth >= 1,
    ensures
        is_plain(replay_metrics_document(v), depth),
{
    let members = replay_metrics_document(v)->Object_0;
    lemma_replay_metrics_names(v);
    lemma_unsigned_reads(v.manifests as int);
    lemma_unsigned_reads(v.results as int);
    lemma_unsigned_reads(v.targets as int);
    lemma_unsigned_reads(v.cases as int);
    assert forall|i: int| 0 <= i < members.len() implies is_plain(
        (#[trigger] members[i]).1,
        (depth - 1) as nat,
    ) by {
    }
}

proof fn lemma_budget_metrics_names(v: BudgetMetrics)
    ensures
        budget_metrics_document(v) is Object,
        distinct_names(budget_metrics_document(v)->Object_0),
        member(budget_metrics_document(v), "budget_plans"@) == Some(JsonModel::Number(decimal(v.budget_plans as int))),
        member(budget_metrics_document(v), "skipped_commands"@) == Some(JsonModel::Number(decimal(v.skipped_commands as int))),
        member(budget_metrics_document(v), "timed_out_commands"@) == Some(JsonModel::Number(decimal(v.timed_out_commands as int))),
{
    reveal_strlit("budget_plans");
    reveal_strlit("skipped_commands");
    reveal_strlit("timed_out_commands");
    assert("budget_plans"@.len() == 12);
    assert("skipped_commands"@.len() == 16);
    assert("timed_out_commands"@.len() == 18);
    let members = budget_metrics_document(v)->Object_0;
    assert forall|i: int, j: int| 0 <= i < j < members.len() implies (#[trigger] members[i]).0 != (
    #[trigger] members[j]).0 by {
    }
    lemma_member_is_found(members, 0);
    lemma_member_is_found(members, 1);
    lemma_member_is_found(members, 2);
}

/// A budget metrics that was written is read as it was.
pub proof fn lemma_budget_metrics_reads(v: BudgetMetrics)
    ensures
        budget_metrics_in(budget_metrics_document(v)) == Some(v),
        budget_metrics_document(v) is Object,
{
    let value = budget_metrics_document(v);
    lemma_budget_metrics_names(v);
    lemma_members_are_fields(value);
    lemma_unsigned_reads(v.budget_plans as int);
    lemma_unsigned_reads(v.skipped_commands as int);
    lemma_unsigned_reads(v.timed_out_commands as int);
    assert(unsigned_at(value, "budget_plans"@, usize::MAX as int) == Some(v.budget_plans as int));
    assert(unsigned_at(value, "skipped_commands"@, usize::MAX as int) == Some(v.skipped_commands as int));
    assert(unsigned_at(value, "timed_out_commands"@, usize::MAX as int) == Some(v.timed_out_commands as int));
}

/// A budget metrics is an ordinary value.
pub proof fn lemma_budget_metrics_is_plain(v: BudgetMetrics, depth: nat)
    requires
        depth >= 1,
    ensures
        is_plain(budget_metrics_document(v), depth),
{
    let members = budget_metrics_document(v)->Object_0;
    lemma_budget_metrics_names(v);
    lemma_unsigned_reads(v.budget_plans as int);
    lemma_unsigned_reads(v.skipped_commands as int);
    lemma_unsigned_reads(v.timed_out_commands as int);
    assert forall|i: int| 0 <= i < members.len() implies is_plain(
        (#[trigger] members[i]).1,
        (depth - 1) as nat,
    ) by {
    }
}

proof fn lemma_evolution_metrics_names(v: EvolutionMetrics)
    ensures
        evolution_metrics_document(v) is Object,
        distinct_names(evolution_metrics_document(v)->Object_0),
        member(evolution_metrics_document(v), "suites"@) == Some(JsonModel::Number(decimal(v.suites as int))),
        member(evolution_metrics_document(v), "candidates"@) == Some(JsonModel::Number(decimal(v.candidates as int))),
        member(evolution_metrics_document(v), "selected"@) == Some(JsonModel::Number(decimal(v.selected as int))),
        member(evolution_metrics_document(v), "property_candidates"@) == Some(JsonModel::Number(decimal(v.property_candidates as int))),
        member(evolution_metrics_document(v), "mutation_candidates"@) == Some(JsonModel::Number(decimal(v.mutation_candidates as int))),
        member(evolution_metrics_document(v), "fuzz_candidates"@) == Some(JsonModel::Number(decimal(v.fuzz_candidates as int))),
        member(evolution_metrics_document(v), "regression_candidates"@) == Some(JsonModel::Number(decimal(v.regression_candidates as int))),
        member(evolution_metrics_document(v), "replay_candidates"@) == Some(JsonModel::Number(decimal(v.replay_candidates as int))),
        member(evolution_metrics_document(v), "average_fitness_percent"@) == Some(number_or_null(match v.average_fitness_percent {
                    Some(n) => Some(n as int),
                    None => None,
                })),
{
    reveal_strlit("suites");
    reveal_strlit("candidates");
    reveal_strlit("selected");
    reveal_strlit("property_candidates");
    reveal_strlit("mutation_candidates");
    reveal_strlit("fuzz_candidates");
    reveal_strlit("regression_candidates");
    reveal_strlit("replay_candidates");
    reveal_strlit("average_fitness_percent");
    assert("suites"@.len() == 6);
    assert("candidates"@.len() == 10);
    assert("selected"@.len() == 8);
    assert("property_candidates"@.len() == 19);
    assert("mutation_candidates"@.len() == 19);
    assert("fuzz_candidates"@.len() == 15);
    assert("regression_candidates"@.len() == 21);
    assert("replay_candidates"@.len() == 17);
    assert("average_fitness_percent"@.len() == 23);
    assert("property_candidates"@[0] == 'p');
    assert("mutation_candidates"@[0] == 'm');
    let members = evolution_metrics_document(v)->Object_0;
    assert forall|i: int, j: int| 0 <= i < j < members.len() implies (#[trigger] members[i]).0 != (
    #[trigger] members[j]).0 by {
    }
    lemma_member_is_found(members, 0);
    lemma_member_is_found(members, 1);
    lemma_member_is_found(members, 2);
    lemma_member_is_found(members, 3);
    lemma_member_is_found(members, 4);
    lemma_member_is_found(members, 5);
    lemma_member_is_found(members, 6);
    lemma_member_is_found(members, 7);
    lemma_member_is_found(members, 8);
}

/// An evolution metrics that was written is read as it was.
pub proof fn lemma_evolution_metrics_reads(v: EvolutionMetrics)
    ensures
        evolution_metrics_in(evolution_metrics_document(v)) == Some(v),
        evolution_metrics_document(v) is Object,
{
    let value = evolution_metrics_document(v);
    lemma_evolution_metrics_names(v);
    lemma_members_are_fields(value);
    lemma_unsigned_reads(v.suites as int);
    lemma_unsigned_reads(v.candidates as int);
    lemma_unsigned_reads(v.selected as int);
    lemma_unsigned_reads(v.property_candidates as int);
    lemma_unsigned_reads(v.mutation_candidates as int);
    lemma_unsigned_reads(v.fuzz_candidates as int);
    lemma_unsigned_reads(v.regression_candidates as int);
    lemma_unsigned_reads(v.replay_candidates as int);
    if let Some(n) = v.average_fitness_percent {
        lemma_unsigned_reads(n as int);
    }
    assert(unsigned_at(value, "suites"@, usize::MAX as int) == Some(v.suites as int));
    assert(unsigned_at(value, "candidates"@, usize::MAX as int) == Some(v.candidates as int));
    assert(unsigned_at(value, "selected"@, usize::MAX as int) == Some(v.selected as int));
    assert(unsigned_at(value, "property_candidates"@, usize::MAX as int) == Some(v.property_candidates as int));
    assert(unsigned_at(value, "mutation_candidates"@, usize::MAX as int) == Some(v.mutation_candidates as int));
    assert(unsigned_at(value, "fuzz_candidates"@, usize::MAX as int) == Some(v.fuzz_candidates as int));
    assert(unsigned_at(value, "regression_candidates"@, usize::MAX as int) == Some(v.regression_candidates as int));
    assert(unsigned_at(value, "replay_candidates"@, usize::MAX as int) == Some(v.replay_candidates as int));
    assert(optional_u8_at(value, "average_fitness_percent"@) == Some(v.average_fitness_percent));
}

/// An evolution metrics is an ordinary value.
pub proof fn lemma_evolution_metrics_is_plain(v: EvolutionMetrics, depth: nat)
    requires
        depth >= 1,
    ensures
        is_plain(evolution_metrics_document(v), depth),
{
    let members = evolution_metrics_document(v)->Object_0;
    lemma_evolution_metrics_names(v);
    lemma_unsigned_reads(v.suites as int);
    lemma_unsigned_reads(v.candidates as int);
    lemma_unsigned_reads(v.selected as int);
    lemma_unsigned_reads(v.property_candidates as int);
    lemma_unsigned_reads(v.mutation_candidates as int);
    lemma_unsigned_reads(v.fuzz_candidates as int);
    lemma_unsigned_reads(v.regression_candidates as int);
    lemma_unsigned_reads(v.replay_candidates as int);
    if let Some(n) = v.average_fitness_percent {
        lemma_unsigned_reads(n as int);
    }
    assert forall|i: int| 0 <= i < members.len() implies is_plain(
        (#[trigger] members[i]).1,
        (depth - 1) as nat,
    ) by {
    }
}

proof fn lemma_performance_metrics_names(v: PerformanceMetrics)
    ensures
        performance_metrics_document(v) is Object,
        distinct_names(performance_metrics_document(v)->Object_0),
        member(performance_metrics_document(v), "discovery_ms"@) == Some(JsonModel::Number(decimal(v.discovery_ms as int))),
        member(performance_metrics_document(v), "generation_ms"@) == Some(JsonModel::Number(decimal(v.generation_ms as int))),
        member(performance_metrics_document(v), "test_execution_ms"@) == Some(JsonModel::Number(decimal(v.test_execution_ms as int))),
        member(performance_metrics_document(v), "coverage_ms"@) == Some(JsonModel::Number(decimal(v.coverage_ms as int))),
        member(performance_metrics_document(v), "replay_ms"@) == Some(JsonModel::Number(decimal(v.replay_ms as int))),
        member(performance_metrics_document(v), "artifact_synthesis_ms"@) == Some(JsonModel::Number(decimal(v.artifact_synthesis_ms as int))),
        member(performance_metrics_document(v), "total_ms"@) == Some(JsonModel::Number(decimal(v.total_ms as int))),
{
    reveal_strlit("discovery_ms");
    reveal_strlit("generation_ms");
    reveal_strlit("test_execution_ms");
    reveal_strlit("coverage_ms");
    reveal_strlit("replay_ms");
    reveal_strlit("artifact_synthesis_ms");
    reveal_strlit("total_ms");
    assert("discovery_ms"@.len() == 12);
    assert("generation_ms"@.len() == 13);
    assert("test_execution_ms"@.len() == 17);
    assert("coverage_ms"@.len() == 11);
    assert("replay_ms"@.len() == 9);
    assert("artifact_synthesis_ms"@.len() == 21);
    assert("total_ms"@.len() == 8);
    let members = performance_metrics_document(v)->Object_0;
    assert forall|i: int, j: int| 0 <= i < j < members.len() implies (#[trigger] members[i]).0 != (
    #[trigger] members[j]).0 by {
    }
    lemma_member_is_found(members, 0);
    lemma_member_is_found(members, 1);
    lemma_member_is_found(members, 2);
    lemma_member_is_found(members, 3);
    lemma_member_is_found(members, 4);
    lemma_member_is_found(members, 5);
    lemma_member_is_found(members, 6);
}

/// A performance metrics that was written is read as it was.
pub proof fn lemma_performance_metrics_reads(v: PerformanceMetrics)
    ensures
        performance_metrics_in(performance_metrics_document(v)) == Some(v),
        performance_metrics_document(v) is Object,
{
    let value = performance_metrics_document(v);
    lemma_performance_metrics_names(v);
    lemma_members_are_fields(value);
    lemma_unsigned_reads(v.discovery_ms as int);
    lemma_unsigned_reads(v.generation_ms as int);
    lemma_unsigned_reads(v.test_execution_ms as int);
    lemma_unsigned_reads(v.coverage_ms as int);
    lemma_unsigned_reads(v.replay_ms as int);
    lemma_unsigned_reads(v.artifact_synthesis_ms as int);
    lemma_unsigned_reads(v.total_ms as int);
    assert(unsigned_at(value, "discovery_ms"@, u128::MAX as int) == Some(v.discovery_ms as int));
    assert(unsigned_at(value, "generation_ms"@, u128::MAX as int) == Some(v.generation_ms as int));
    assert(unsigned_at(value, "test_execution_ms"@, u128::MAX as int) == Some(v.test_execution_ms as int));
    assert(unsigned_at(value, "coverage_ms"@, u128::MAX as int) == Some(v.coverage_ms as int));
    assert(unsigned_at(value, "replay_ms"@, u128::MAX as int) == Some(v.replay_ms as int));
    assert(unsigned_at(value, "artifact_synthesis_ms"@, u128::MAX as int) == Some(v.artifact_synthesis_ms as int));
    assert(unsigned_at(value, "total_ms"@, u128::MAX as int) == Some(v.total_ms as int));
}

/// A performance metrics has whole numbers.
pub proof fn lemma_performance_metrics_is_exact(v: PerformanceMetrics, depth: nat)
    requires
        depth >= 1,
    ensures
        is_exact(performance_metrics_document(v), depth),
{
    lemma_plain_values_are_exact((depth - 1) as nat);
    let members = performance_metrics_document(v)->Object_0;
    lemma_performance_metrics_names(v);
    lemma_unsigned_reads(v.discovery_ms as int);
    lemma_unsigned_reads(v.generation_ms as int);
    lemma_unsigned_reads(v.test_execution_ms as int);
    lemma_unsigned_reads(v.coverage_ms as int);
    lemma_unsigned_reads(v.replay_ms as int);
    lemma_unsigned_reads(v.artifact_synthesis_ms as int);
    lemma_unsigned_reads(v.total_ms as int);
    assert forall|i: int| 0 <= i < members.len() implies is_exact(
        (#[trigger] members[i]).1,
        (depth - 1) as nat,
    ) by {
    }
}

/// Whether every list of counts of a verification quality is in order.
pub open spec fn verification_quality_keeps(v: VerificationQualityModel) -> bool {
    &&& mutation_metrics_keeps(v.mutation)
}

proof fn lemma_verification_quality_names(v: VerificationQualityModel)
    ensures
        verification_quality_document(v) is Object,
        distinct_names(verification_quality_document(v)->Object_0),
        member(verification_quality_document(v), "mutation"@) == Some(mutation_metrics_document(v.mutation)),
        member(verification_quality_document(v), "property"@) == Some(property_metrics_document(v.property)),
        member(verification_quality_document(v), "fuzz"@) == Some(fuzz_metrics_document(v.fuzz)),
        member(verification_quality_document(v), "regression"@) == Some(regression_metrics_document(v.regression)),
        member(verification_quality_document(v), "replay"@) == Some(replay_metrics_document(v.replay)),
        member(verification_quality_document(v), "budget"@) == Some(budget_metrics_document(v.budget)),
        member(verification_quality_document(v), "evolution"@) == Some(evolution_metrics_document(v.evolution)),
        member(verification_quality_document(v), "performance"@) == Some(performance_metrics_document(v.performance)),
{
    reveal_strlit("mutation");
    reveal_strlit("property");
    reveal_strlit("fuzz");
    reveal_strlit("regression");
    reveal_strlit("replay");
    reveal_strlit("budget");
    reveal_strlit("evolution");
    reveal_strlit("performance");
    assert("mutation"@.len() == 8);
    assert("property"@.len() == 8);
    assert("fuzz"@.len() == 4);
    assert("regression"@.len() == 10);
    assert("replay"@.len() == 6);
    assert("budget"@.len() == 6);
    assert("evolution"@.len() == 9);
    assert("performance"@.len() == 11);
    assert("mutation"@[0] == 'm');
    assert("property"@[0] == 'p');
    assert("replay"@[0] == 'r');
    assert("budget"@[0] == 'b');
    let members = verification_quality_document(v)->Object_0;
    assert forall|i: int, j: int| 0 <= i < j < members.len() implies (#[trigger] members[i]).0 != (
    #[trigger] members[j]).0 by {
    }
    lemma_member_is_found(members, 0);
    lemma_member_is_found(members, 1);
    lemma_member_is_found(members, 2);
    lemma_member_is_found(members, 3);
    lemma_member_is_found(members, 4);
    lemma_member_is_found(members, 5);
    lemma_member_is_found(members, 6);
    lemma_member_is_found(members, 7);
}

/// A verification quality that was written is read as it was.
pub proof fn lemma_verification_quality_reads(v: VerificationQualityModel)
    requires
        verification_quality_keeps(v),
    ensures
        verification_quality_in(verification_quality_document(v)) == Some(v),
        verification_quality_document(v) is Object,
{
    let value = verification_quality_document(v);
    lemma_verification_quality_names(v);
    lemma_members_are_fields(value);
    lemma_mutation_metrics_reads(v.mutation);
    lemma_property_metrics_reads(v.property);
    lemma_fuzz_metrics_reads(v.fuzz);
    lemma_regression_metrics_reads(v.regression);
    lemma_replay_metrics_reads(v.replay);
    lemma_budget_metrics_reads(v.budget);
    lemma_evolution_metrics_reads(v.evolution);
    lemma_performance_metrics_reads(v.performance);
    assert(mutation_metrics_at(value, "mutation"@) == Some(v.mutation));
    assert(property_metrics_at(value, "property"@) == Some(v.property));
    assert(fuzz_metrics_at(value, "fuzz"@) == Some(v.fuzz));
    assert(regression_metrics_at(value, "regression"@) == Some(v.regression));
    assert(replay_metrics_at(value, "replay"@) == Some(v.replay));
    assert(budget_metrics_at(value, "budget"@) == Some(v.budget));
    assert(evolution_metrics_at(value, "evolution"@) == Some(v.evolution));
    assert(performance_metrics_at(value, "performance"@) == Some(v.performance));
}

/// A verification quality has whole numbers.
pub proof fn lemma_verification_quality_is_exact(v: VerificationQualityModel, depth: nat)
    requires
        depth >= 5,
        verification_quality_keeps(v),
    ensures
        is_exact(verification_quality_document(v), depth),
{
    lemma_plain_values_are_exact((depth - 1) as nat);
    let members = verification_quality_document(v)->Object_0;
    lemma_verification_quality_names(v);
    lemma_mutation_metrics_is_exact(v.mutation, (depth - 1) as nat);
    lemma_property_metrics_is_plain(v.property, (depth - 1) as nat);
    lemma_fuzz_metrics_is_plain(v.fuzz, (depth - 1) as nat);
    lemma_regression_metrics_is_plain(v.regression, (depth - 1) as nat);
    lemma_replay_metrics_is_plain(v.replay, (depth - 1) as nat);
    lemma_budget_metrics_is_plain(v.budget, (depth - 1) as nat);
    lemma_evolution_metrics_is_plain(v.evolution, (depth - 1) as nat);
    lemma_performance_metrics_is_exact(v.performance, (depth - 1) as nat);
    assert forall|i: int| 0 <= i < members.len() implies is_exact(
        (#[trigger] members[i]).1,
        (depth - 1) as nat,
    ) by {
    }
}

/// Whether every list of counts of a test run result is in order.
pub open spec fn test_run_result_keeps(v: TestRunResultModel) -> bool {
    &&& verification_quality_keeps(v.quality)
}

proof fn lemma_test_run_result_names(v: TestRunResultModel)
    ensures
        test_run_result_document(v) is Object,
        distinct_names(test_run_result_document(v)->Object_0),
        member(test_run_result_document(v), "language"@) == Some(JsonModel::Text(v.language)),
        member(test_run_result_document(v), "status"@) == Some(JsonModel::Text(v.status.label_text())),
        member(test_run_result_document(v), "commands"@) == Some(JsonModel::Array(command_record_documents(v.commands))),
        member(test_run_result_document(v), "failures"@) == Some(JsonModel::Array(failure_documents(v.failures))),
        member(test_run_result_document(v), "duration_ms"@) == Some(JsonModel::Number(decimal(v.duration_ms as int))),
        member(test_run_result_document(v), "quality"@) == Some(verification_quality_document(v.quality)),
{
    reveal_strlit("language");
    reveal_strlit("status");
    reveal_strlit("commands");
    reveal_strlit("failures");
    reveal_strlit("duration_ms");
    reveal_strlit("quality");
    assert("language"@.len() == 8);
    assert("status"@.len() == 6);
    assert("commands"@.len() == 8);
    assert("failures"@.len() == 8);
    assert("duration_ms"@.len() == 11);
    assert("quality"@.len() == 7);
    assert("language"@[0] == 'l');
    assert("commands"@[0] == 'c');
    assert("failures"@[0] == 'f');
    let members = test_run_result_document(v)->Object_0;
    assert forall|i: int, j: int| 0 <= i < j < members.len() implies (#[trigger] members[i]).0 != (
    #[trigger] members[j]).0 by {
    }
    lemma_member_is_found(members, 0);
    lemma_member_is_found(members, 1);
    lemma_member_is_found(members, 2);
    lemma_member_is_found(members, 3);
    lemma_member_is_found(members, 4);
    lemma_member_is_found(members, 5);
}

/// A test run result that was written is read as it was.
pub proof fn lemma_test_run_result_reads(v: TestRunResultModel)
    requires
        test_run_result_keeps(v),
    ensures
        test_run_result_in(test_run_result_document(v)) == Some(v),
        test_run_result_document(v) is Object,
{
    reveal(test_run_result_fields);
    let value = test_run_result_document(v);
    lemma_test_run_result_names(v);
    lemma_members_are_fields(value);
    lemma_run_status_reads(v.status);
    lemma_all_command_records_read(v.commands);
    lemma_all_failures_read(v.failures);
    lemma_unsigned_reads(v.duration_ms as int);
    lemma_verification_quality_reads(v.quality);
    assert(text_at(value, "language"@) == Some(v.language));
    assert(run_status_at(value, "status"@) == Some(v.status));
    assert(command_records_at(value, "commands"@) == Some(v.commands));
    assert(failures_at(value, "failures"@) == Some(v.failures));
    assert(unsigned_at(value, "duration_ms"@, u128::MAX as int) == Some(v.duration_ms as int));
    assert(test_run_result_quality_or_default(value) == Some(v.quality));
}

/// A test run result has whole numbers.
pub proof fn lemma_test_run_result_is_exact(v: TestRunResultModel, depth: nat)
    requires
        depth >= 6,
        test_run_result_keeps(v),
    ensures
        is_exact(test_run_result_document(v), depth),
{
    lemma_plain_values_are_exact((depth - 1) as nat);
    let members = test_run_result_document(v)->Object_0;
    lemma_test_run_result_names(v);
    lemma_all_command_records_are_exact(v.commands, (depth - 1) as nat);
    lemma_all_failures_are_plain(v.failures, (depth - 1) as nat);
    lemma_unsigned_reads(v.duration_ms as int);
    lemma_verification_quality_is_exact(v.quality, (depth - 1) as nat);
    assert forall|i: int| 0 <= i < members.len() implies is_exact(
        (#[trigger] members[i]).1,
        (depth - 1) as nat,
    ) by {
    }
}

proof fn lemma_all_test_run_results_read(items: Seq<TestRunResultModel>)
    requires
        forall|i: int| 0 <= i < items.len() ==> test_run_result_keeps(#[trigger] items[i]),
    ensures
        all_test_run_results(test_run_result_documents(items)) == Some(items),
    decreases items.len(),
{
    let all = test_run_result_documents(items);
    if items.len() > 0 {
        lemma_all_test_run_results_read(items.drop_last());
        lemma_test_run_result_reads(items.last());
        assert(all.drop_last() =~= test_run_result_documents(items.drop_last()));
        assert(items =~= items.drop_last().push(items.last()));
    } else {
        assert(items =~= Seq::<TestRunResultModel>::empty());
    }
}

proof fn lemma_all_test_run_results_are_exact(items: Seq<TestRunResultModel>, depth: nat)
    requires
        depth >= 7,
        forall|i: int| 0 <= i < items.len() ==> test_run_result_keeps(#[trigger] items[i]),
    ensures
        is_exact(JsonModel::Array(test_run_result_documents(items)), depth),
{
    lemma_plain_values_are_exact((depth - 1) as nat);
    let all = test_run_result_documents(items);
    assert forall|i: int| 0 <= i < all.len() implies is_exact(
        #[trigger] all[i],
        (depth - 1) as nat,
    ) by {
        lemma_test_run_result_is_exact(items[i], (depth - 1) as nat);
    }
}

/// Whether every list of counts of a verification report is in order.
pub open spec fn verification_report_keeps(v: VerificationReportModel) -> bool {
    &&& forall|i: int| 0 <= i < v.runs.len() ==> test_run_result_keeps(#[trigger] v.runs[i])
    &&& verification_quality_keeps(v.quality)
}

proof fn lemma_verification_report_names(v: VerificationReportModel)
    ensures
        verification_report_document(v) is Object,
        distinct_names(verification_report_document(v)->Object_0),
        member(verification_report_document(v), "project"@) == Some(optional_project_info_document(v.project)),
        member(verification_report_document(v), "targets"@) == Some(JsonModel::Array(verification_target_documents(v.targets))),
        member(verification_report_document(v), "plan"@) == Some(optional_verification_plan_document(v.plan)),
        member(verification_report_document(v), "artifacts"@) == Some(JsonModel::Array(generated_artifact_documents(v.artifacts))),
        member(verification_report_document(v), "runs"@) == Some(JsonModel::Array(test_run_result_documents(v.runs))),
        member(verification_report_document(v), "coverage"@) == Some(JsonModel::Array(coverage_report_documents(v.coverage))),
        member(verification_report_document(v), "findings"@) == Some(JsonModel::Array(failure_documents(v.findings))),
        member(verification_report_document(v), "quality"@) == Some(verification_quality_document(v.quality)),
        member(verification_report_document(v), "suggested_next_steps"@) == Some(texts_model(v.suggested_next_steps)),
{
    reveal_strlit("project");
    reveal_strlit("targets");
    reveal_strlit("plan");
    reveal_strlit("artifacts");
    reveal_strlit("runs");
    reveal_strlit("coverage");
    reveal_strlit("findings");
    reveal_strlit("quality");
    reveal_strlit("suggested_next_steps");
    assert("project"@.len() == 7);
    assert("targets"@.len() == 7);
    assert("plan"@.len() == 4);
    assert("artifacts"@.len() == 9);
    assert("runs"@.len() == 4);
    assert("coverage"@.len() == 8);
    assert("findings"@.len() == 8);
    assert("quality"@.len() == 7);
    assert("suggested_next_steps"@.len() == 20);
    assert("project"@[0] == 'p');
    assert("targets"@[0] == 't');
    assert("plan"@[0] == 'p');
    assert("runs"@[0] == 'r');
    assert("coverage"@[0] == 'c');
    assert("findings"@[0] == 'f');
    assert("quality"@[0] == 'q');
    let members = verification_report_document(v)->Object_0;
    assert forall|i: int, j: int| 0 <= i < j < members.len() implies (#[trigger] members[i]).0 != (
    #[trigger] members[j]).0 by {
    }
    lemma_member_is_found(members, 0);
    lemma_member_is_found(members, 1);
    lemma_member_is_found(members, 2);
    lemma_member_is_found(members, 3);
    lemma_member_is_found(members, 4);
    lemma_member_is_found(members, 5);
    lemma_member_is_found(members, 6);
    lemma_member_is_found(members, 7);
    lemma_member_is_found(members, 8);
}

/// A verification report that was written is read as it was.
pub proof fn lemma_verification_report_reads(v: VerificationReportModel)
    requires
        verification_report_keeps(v),
    ensures
        verification_report_in(verification_report_document(v)) == Some(v),
        verification_report_document(v) is Object,
{
    let value = verification_report_document(v);
    lemma_verification_report_names(v);
    lemma_members_are_fields(value);
    if let Some(given) = v.project {
        lemma_project_info_reads(given);
    }
    lemma_all_verification_targets_read(v.targets);
    if let Some(given) = v.plan {
        lemma_verification_plan_reads(given);
    }
    lemma_all_generated_artifacts_read(v.artifacts);
    lemma_all_test_run_results_read(v.runs);
    lemma_all_coverage_reports_read(v.coverage);
    lemma_all_failures_read(v.findings);
    lemma_verification_quality_reads(v.quality);
    lemma_texts_read(v.suggested_next_steps);
    assert(optional_project_info_at(value, "project"@) == Some(v.project));
    assert(verification_targets_at(value, "targets"@) == Some(v.targets));
    assert(optional_verification_plan_at(value, "plan"@) == Some(v.plan));
    assert(generated_artifacts_at(value, "artifacts"@) == Some(v.artifacts));
    assert(test_run_results_at(value, "runs"@) == Some(v.runs));
    assert(coverage_reports_at(value, "coverage"@) == Some(v.coverage));
    assert(failures_at(value, "findings"@) == Some(v.findings));
    assert(verification_report_quality_or_default(value) == Some(v.quality));
    assert(texts_at(value, "suggested_next_steps"@) == Some(v.suggested_next_steps));
}

/// A verification report has whole numbers.
pub proof fn lemma_verification_report_is_exact(v: VerificationReportModel, depth: nat)
    requires
        depth >= 8,
        verification_report_keeps(v),
    ensures
        is_exact(verification_report_document(v), depth),
{
    lemma_plain_values_are_exact((depth - 1) as nat);
    let members = verification_report_document(v)->Object_0;
    lemma_verification_report_names(v);
    if let Some(given) = v.project {
        lemma_project_info_is_plain(given, (depth - 1) as nat);
    }
    lemma_all_verification_targets_are_plain(v.targets, (depth - 1) as nat);
    if let Some(given) = v.plan {
        lemma_verification_plan_is_plain(given, (depth - 1) as nat);
    }
    lemma_all_generated_artifacts_are_plain(v.artifacts, (depth - 1) as nat);
    lemma_all_test_run_results_are_exact(v.runs, (depth - 1) as nat);
    lemma_all_coverage_reports_are_plain(v.coverage, (depth - 1) as nat);
    lemma_all_failures_are_plain(v.findings, (depth - 1) as nat);
    lemma_verification_quality_is_exact(v.quality, (depth - 1) as nat);
    lemma_texts_are_plain(v.suggested_next_steps, (depth - 1) as nat);
    assert forall|i: int| 0 <= i < members.len() implies is_exact(
        (#[trigger] members[i]).1,
        (depth - 1) as nat,
    ) by {
    }
}

proof fn lemma_corpus_entry_names(v: CorpusEntryModel)
    ensures
        corpus_entry_document(v) is Object,
        distinct_names(corpus_entry_document(v)->Object_0),
        member(corpus_entry_document(v), "language"@) == Some(JsonModel::Text(v.language)),
        member(corpus_entry_document(v), "target_id"@) == Some(JsonModel::Text(v.target_id)),
        member(corpus_entry_document(v), "finding_id"@) == Some(text_or_null(v.finding_id)),
        member(corpus_entry_document(v), "source"@) == Some(JsonModel::Text(v.source.label_text())),
        member(corpus_entry_document(v), "input"@) == Some(text_or_null(v.input)),
        member(corpus_entry_document(v), "path"@) == Some(text_or_null(v.path)),
        member(corpus_entry_document(v), "replay_command"@) == Some(JsonModel::Text(v.replay_command)),
{
    reveal_strlit("language");
    reveal_strlit("target_id");
    reveal_strlit("finding_id");
    reveal_strlit("source");
    reveal_strlit("input");
    reveal_strlit("path");
    reveal_strlit("replay_command");
    assert("language"@.len() == 8);
    assert("target_id"@.len() == 9);
    assert("finding_id"@.len() == 10);
    assert("source"@.len() == 6);
    assert("input"@.len() == 5);
    assert("path"@.len() == 4);
    assert("replay_command"@.len() == 14);
    let members = corpus_entry_document(v)->Object_0;
    assert forall|i: int, j: int| 0 <= i < j < members.len() implies (#[trigger] members[i]).0 != (
    #[trigger] members[j]).0 by {
    }
    lemma_member_is_found(members, 0);
    lemma_member_is_found(members, 1);
    lemma_member_is_found(members, 2);
    lemma_member_is_found(members, 3);
    lemma_member_is_found(members, 4);
    lemma_member_is_found(members, 5);
    lemma_member_is_found(members, 6);
}

/// A corpus entry that was written is read as it was.
pub proof fn lemma_corpus_entry_reads(v: CorpusEntryModel)
    ensures
        corpus_entry_in(corpus_entry_document(v)) == Some(v),
        corpus_entry_document(v) is Object,
{
    let value = corpus_entry_document(v);
    lemma_corpus_entry_names(v);
    lemma_members_are_fields(value);
    lemma_assertion_source_reads(v.source);
    assert(text_at(value, "language"@) == Some(v.language));
    assert(text_at(value, "target_id"@) == Some(v.target_id));
    assert(optional_text_at(value, "finding_id"@) == Some(v.finding_id));
    assert(assertion_source_at(value, "source"@) == Some(v.source));
    assert(optional_text_at(value, "input"@) == Some(v.input));
    assert(optional_text_at(value, "path"@) == Some(v.path));
    assert(text_at(value, "replay_command"@) == Some(v.replay_command));
}

/// A corpus entry is an ordinary value.
pub proof fn lemma_corpus_entry_is_plain(v: CorpusEntryModel, depth: nat)
    requires
        depth >= 1,
    ensures
        is_plain(corpus_entry_document(v), depth),
{
    let members = corpus_entry_document(v)->Object_0;
    lemma_corpus_entry_names(v);
    assert forall|i: int| 0 <= i < members.len() implies is_plain(
        (#[trigger] members[i]).1,
        (depth - 1) as nat,
    ) by {
    }
}

proof fn lemma_evolution_fitness_names(v: EvolutionFitnessModel)
    ensures
        evolution_fitness_document(v) is Object,
        distinct_names(evolution_fitness_document(v)->Object_0),
        member(evolution_fitness_document(v), "score_percent"@) == Some(JsonModel::Number(decimal(v.score_percent as int))),
        member(evolution_fitness_document(v), "mutation_delta"@) == Some(JsonModel::Number(signed_decimal(v.mutation_delta as int))),
        member(evolution_fitness_document(v), "finding_delta"@) == Some(JsonModel::Number(signed_decimal(v.finding_delta as int))),
        member(evolution_fitness_document(v), "replay_delta"@) == Some(JsonModel::Number(signed_decimal(v.replay_delta as int))),
        member(evolution_fitness_document(v), "confidence_delta"@) == Some(JsonModel::Number(signed_decimal(v.confidence_delta as int))),
        member(evolution_fitness_document(v), "rationale"@) == Some(JsonModel::Text(v.rationale)),
{
    reveal_strlit("score_percent");
    reveal_strlit("mutation_delta");
    reveal_strlit("finding_delta");
    reveal_strlit("replay_delta");
    reveal_strlit("confidence_delta");
    reveal_strlit("rationale");
    assert("score_percent"@.len() == 13);
    assert("mutation_delta"@.len() == 14);
    assert("finding_delta"@.len() == 13);
    assert("replay_delta"@.len() == 12);
    assert("confidence_delta"@.len() == 16);
    assert("rationale"@.len() == 9);
    assert("score_percent"@[0] == 's');
    assert("finding_delta"@[0] == 'f');
    let members = evolution_fitness_document(v)->Object_0;
    assert forall|i: int, j: int| 0 <= i < j < members.len() implies (#[trigger] members[i]).0 != (
    #[trigger] members[j]).0 by {
    }
    lemma_member_is_found(members, 0);
    lemma_member_is_found(members, 1);
    lemma_member_is_found(members, 2);
    lemma_member_is_found(members, 3);
    lemma_member_is_found(members, 4);
    lemma_member_is_found(members, 5);
}

/// An evolution fitness that was written is read as it was.
pub proof fn lemma_evolution_fitness_reads(v: EvolutionFitnessModel)
    ensures
        evolution_fitness_in(evolution_fitness_document(v)) == Some(v),
        evolution_fitness_document(v) is Object,
{
    let value = evolution_fitness_document(v);
    lemma_evolution_fitness_names(v);
    lemma_members_are_fields(value);
    lemma_unsigned_reads(v.score_percent as int);
    lemma_signed_reads(v.mutation_delta as int);
    lemma_signed_reads(v.finding_delta as int);
    lemma_signed_reads(v.replay_delta as int);
    lemma_signed_reads(v.confidence_delta as int);
    assert(unsigned_at(value, "score_percent"@, u8::MAX as int) == Some(v.score_percent as int));
    assert(signed_at(value, "mutation_delta"@, i16::MIN as int, i16::MAX as int) == Some(v.mutation_delta as int));
    assert(signed_at(value, "finding_delta"@, i16::MIN as int, i16::MAX as int) == Some(v.finding_delta as int));
    assert(signed_at(value, "replay_delta"@, i16::MIN as int, i16::MAX as int) == Some(v.replay_delta as int));
    assert(signed_at(value, "confidence_delta"@, i16::MIN as int, i16::MAX as int) == Some(v.confidence_delta as int));
    assert(text_at(value, "rationale"@) == Some(v.rationale));
}

/// An evolution fitness is an ordinary value.
pub proof fn lemma_evolution_fitness_is_plain(v: EvolutionFitnessModel, depth: nat)
    requires
        depth >= 1,
    ensures
        is_plain(evolution_fitness_document(v), depth),
{
    let members = evolution_fitness_document(v)->Object_0;
    lemma_evolution_fitness_names(v);
    lemma_unsigned_reads(v.score_percent as int);
    lemma_signed_reads(v.mutation_delta as int);
    lemma_signed_reads(v.finding_delta as int);
    lemma_signed_reads(v.replay_delta as int);
    lemma_signed_reads(v.confidence_delta as int);
    assert forall|i: int| 0 <= i < members.len() implies is_plain(
        (#[trigger] members[i]).1,
        (depth - 1) as nat,
    ) by {
    }
}

proof fn lemma_evolution_candidate_record_names(v: EvolutionCandidateRecordModel)
    ensures
        evolution_candidate_record_document(v) is Object,
        distinct_names(evolution_candidate_record_document(v)->Object_0),
        member(evolution_candidate_record_document(v), "id"@) == Some(JsonModel::Text(v.id)),
        member(evolution_candidate_record_document(v), "language"@) == Some(JsonModel::Text(v.language)),
        member(evolution_candidate_record_document(v), "target_id"@) == Some(JsonModel::Text(v.target_id)),
        member(evolution_candidate_record_document(v), "kind"@) == Some(JsonModel::Text(v.kind.label_text())),
        member(evolution_candidate_record_document(v), "strategy"@) == Some(JsonModel::Text(v.strategy.label_text())),
        member(evolution_candidate_record_document(v), "status"@) == Some(JsonModel::Text(v.status.label_text())),
        member(evolution_candidate_record_document(v), "source_artifact"@) == Some(text_or_null(v.source_artifact)),
        member(evolution_candidate_record_document(v), "source_finding_id"@) == Some(text_or_null(v.source_finding_id)),
        member(evolution_candidate_record_document(v), "domain"@) == Some(text_or_null(v.domain)),
        member(evolution_candidate_record_document(v), "semantic_packs"@) == Some(texts_model(v.semantic_packs)),
        member(evolution_candidate_record_document(v), "fitness"@) == Some(evolution_fitness_document(v.fitness)),
        member(evolution_candidate_record_document(v), "proposed_action"@) == Some(JsonModel::Text(v.proposed_action)),
        member(evolution_candidate_record_document(v), "keep_if"@) == Some(JsonModel::Text(v.keep_if)),
        member(evolution_candidate_record_document(v), "proof_commands"@) == Some(texts_model(v.proof_commands)),
        member(evolution_candidate_record_document(v), "done_when"@) == Some(texts_model(v.done_when)),
{
    reveal_strlit("id");
    reveal_strlit("language");
    reveal_strlit("target_id");
    reveal_strlit("kind");
    reveal_strlit("strategy");
    reveal_strlit("status");
    reveal_strlit("source_artifact");
    reveal_strlit("source_finding_id");
    reveal_strlit("domain");
    reveal_strlit("semantic_packs");
    reveal_strlit("fitness");
    reveal_strlit("proposed_action");
    reveal_strlit("keep_if");
    reveal_strlit("proof_commands");
    reveal_strlit("done_when");
    assert("id"@.len() == 2);
    assert("language"@.len() == 8);
    assert("target_id"@.len() == 9);
    assert("kind"@.len() == 4);
    assert("strategy"@.len() == 8);
    assert("status"@.len() == 6);
    assert("source_artifact"@.len() == 15);
    assert("source_finding_id"@.len() == 17);
    assert("domain"@.len() == 6);
    assert("semantic_packs"@.len() == 14);
    assert("fitness"@.len() == 7);
    assert("proposed_action"@.len() == 15);
    assert("keep_if"@.len() == 7);
    assert("proof_commands"@.len() == 14);
    assert("done_when"@.len() == 9);
    assert("language"@[0] == 'l');
    assert("target_id"@[0] == 't');
    assert("strategy"@[0] == 's');
    assert("status"@[0] == 's');
    assert("source_artifact"@[0] == 's');
    assert("domain"@[0] == 'd');
    assert("semantic_packs"@[0] == 's');
    assert("fitness"@[0] == 'f');
    assert("proposed_action"@[0] == 'p');
    assert("keep_if"@[0] == 'k');
    assert("proof_commands"@[0] == 'p');
    assert("done_when"@[0] == 'd');
    let members = evolution_candidate_record_document(v)->Object_0;
    assert forall|i: int, j: int| 0 <= i < j < members.len() implies (#[trigger] members[i]).0 != (
    #[trigger] members[j]).0 by {
    }
    lemma_member_is_found(members, 0);
    lemma_member_is_found(members, 1);
    lemma_member_is_found(members, 2);
    lemma_member_is_found(members, 3);
    lemma_member_is_found(members, 4);
    lemma_member_is_found(members, 5);
    lemma_member_is_found(members, 6);
    lemma_member_is_found(members, 7);
    lemma_member_is_found(members, 8);
    lemma_member_is_found(members, 9);
    lemma_member_is_found(members, 10);
    lemma_member_is_found(members, 11);
    lemma_member_is_found(members, 12);
    lemma_member_is_found(members, 13);
    lemma_member_is_found(members, 14);
}

/// An evolution candidate record that was written is read as it was.
pub proof fn lemma_evolution_candidate_record_reads(v: EvolutionCandidateRecordModel)
    ensures
        evolution_candidate_record_in(evolution_candidate_record_document(v)) == Some(v),
        evolution_candidate_record_document(v) is Object,
{
    let value = evolution_candidate_record_document(v);
    lemma_evolution_candidate_record_names(v);
    lemma_members_are_fields(value);
    lemma_evolution_candidate_kind_reads(v.kind);
    lemma_evolution_strategy_reads(v.strategy);
    lemma_evolution_candidate_status_reads(v.status);
    lemma_texts_read(v.semantic_packs);
    lemma_evolution_fitness_reads(v.fitness);
    lemma_texts_read(v.proof_commands);
    lemma_texts_read(v.done_when);
    assert(text_at(value, "id"@) == Some(v.id));
    assert(text_at(value, "language"@) == Some(v.language));
    assert(text_at(value, "target_id"@) == Some(v.target_id));
    assert(evolution_candidate_kind_at(value, "kind"@) == Some(v.kind));
    assert(evolution_strategy_at(value, "strategy"@) == Some(v.strategy));
    assert(evolution_candidate_status_at(value, "status"@) == Some(v.status));
    assert(optional_text_at(value, "source_artifact"@) == Some(v.source_artifact));
    assert(optional_text_at(value, "source_finding_id"@) == Some(v.source_finding_id));
    assert(optional_text_at(value, "domain"@) == Some(v.domain));
    assert(evolution_candidate_record_semantic_packs_or_default(value) == Some(v.semantic_packs));
    assert(evolution_fitness_at(value, "fitness"@) == Some(v.fitness));
    assert(text_at(value, "proposed_action"@) == Some(v.proposed_action));
    assert(text_at(value, "keep_if"@) == Some(v.keep_if));
    assert(texts_at(value, "proof_commands"@) == Some(v.proof_commands));
    assert(texts_at(value, "done_when"@) == Some(v.done_when));
}

/// An evolution candidate record is an ordinary value.
pub proof fn lemma_evolution_candidate_record_is_plain(v: EvolutionCandidateRecordModel, depth: nat)
    requires
        depth >= 2,
    ensures
        is_plain(evolution_candidate_record_document(v), depth),
{
    let members = evolution_candidate_record_document(v)->Object_0;
    lemma_evolution_candidate_record_names(v);
    lemma_texts_are_plain(v.semantic_packs, (depth - 1) as nat);
    lemma_evolution_fitness_is_plain(v.fitness, (depth - 1) as nat);
    lemma_texts_are_plain(v.proof_commands, (depth - 1) as nat);
    lemma_texts_are_plain(v.done_when, (depth - 1) as nat);
    assert forall|i: int| 0 <= i < members.len() implies is_plain(
        (#[trigger] members[i]).1,
        (depth - 1) as nat,
    ) by {
    }
}

proof fn lemma_all_evolution_candidate_records_read(items: Seq<EvolutionCandidateRecordModel>)
    ensures
        all_evolution_candidate_records(evolution_candidate_record_documents(items)) == Some(items),
    decreases items.len(),
{
    let all = evolution_candidate_record_documents(items);
    if items.len() > 0 {
        lemma_all_evolution_candidate_records_read(items.drop_last());
        lemma_evolution_candidate_record_reads(items.last());
        assert(all.drop_last() =~= evolution_candidate_record_documents(items.drop_last()));
        assert(items =~= items.drop_last().push(items.last()));
    } else {
        assert(items =~= Seq::<EvolutionCandidateRecordModel>::empty());
    }
}

proof fn lemma_all_evolution_candidate_records_are_plain(
    items: Seq<EvolutionCandidateRecordModel>,
    depth: nat,
)
    requires
        depth >= 3,
    ensures
        is_plain(JsonModel::Array(evolution_candidate_record_documents(items)), depth),
{
    let all = evolution_candidate_record_documents(items);
    assert forall|i: int| 0 <= i < all.len() implies is_plain(
        #[trigger] all[i],
        (depth - 1) as nat,
    ) by {
        lemma_evolution_candidate_record_is_plain(items[i], (depth - 1) as nat);
    }
}

proof fn lemma_evolution_suite_names(v: EvolutionSuiteModel)
    ensures
        evolution_suite_document(v) is Object,
        distinct_names(evolution_suite_document(v)->Object_0),
        member(evolution_suite_document(v), "version"@) == Some(JsonModel::Number(decimal(v.version as int))),
        member(evolution_suite_document(v), "language"@) == Some(JsonModel::Text(v.language)),
        member(evolution_suite_document(v), "generation"@) == Some(JsonModel::Number(decimal(v.generation as int))),
        member(evolution_suite_document(v), "selection_budget"@) == Some(JsonModel::Number(decimal(v.selection_budget as int))),
        member(evolution_suite_document(v), "fitness_signals"@) == Some(texts_model(v.fitness_signals)),
        member(evolution_suite_document(v), "candidates"@) == Some(JsonModel::Array(evolution_candidate_record_documents(v.candidates))),
{
    reveal_strlit("version");
    reveal_strlit("language");
    reveal_strlit("generation");
    reveal_strlit("selection_budget");
    reveal_strlit("fitness_signals");
    reveal_strlit("candidates");
    assert("version"@.len() == 7);
    assert("language"@.len() == 8);
    assert("generation"@.len() == 10);
    assert("selection_budget"@.len() == 16);
    assert("fitness_signals"@.len() == 15);
    assert("candidates"@.len() == 10);
    assert("generation"@[0] == 'g');
    assert("candidates"@[0] == 'c');
    let members = evolution_suite_document(v)->Object_0;
    assert forall|i: int, j: int| 0 <= i < j < members.len() implies (#[trigger] members[i]).0 != (
    #[trigger] members[j]).0 by {
    }
    lemma_member_is_found(members, 0);
    lemma_member_is_found(members, 1);
    lemma_member_is_found(members, 2);
    lemma_member_is_found(members, 3);
    lemma_member_is_found(members, 4);
    lemma_member_is_found(members, 5);
}

/// An evolution suite that was written is read as it was.
pub proof fn lemma_evolution_suite_reads(v: EvolutionSuiteModel)
    ensures
        evolution_suite_in(evolution_suite_document(v)) == Some(v),
        evolution_suite_document(v) is Object,
{
    let value = evolution_suite_document(v);
    lemma_evolution_suite_names(v);
    lemma_members_are_fields(value);
    lemma_unsigned_reads(v.version as int);
    lemma_unsigned_reads(v.generation as int);
    lemma_unsigned_reads(v.selection_budget as int);
    lemma_texts_read(v.fitness_signals);
    lemma_all_evolution_candidate_records_read(v.candidates);
    assert(unsigned_at(value, "version"@, u8::MAX as int) == Some(v.version as int));
    assert(text_at(value, "language"@) == Some(v.language));
    assert(unsigned_at(value, "generation"@, u32::MAX as int) == Some(v.generation as int));
    assert(unsigned_at(value, "selection_budget"@, usize::MAX as int) == Some(v.selection_budget as int));
    assert(texts_at(value, "fitness_signals"@) == Some(v.fitness_signals));
    assert(evolution_candidate_records_at(value, "candidates"@) == Some(v.candidates));
}

/// An evolution suite is an ordinary value.
pub proof fn lemma_evolution_suite_is_plain(v: EvolutionSuiteModel, depth: nat)
    requires
        depth >= 4,
    ensures
        is_plain(evolution_suite_document(v), depth),
{
    let members = evolution_suite_document(v)->Object_0;
    lemma_evolution_suite_names(v);
    lemma_unsigned_reads(v.version as int);
    lemma_unsigned_reads(v.generation as int);
    lemma_unsigned_reads(v.selection_budget as int);
    lemma_texts_are_plain(v.fitness_signals, (depth - 1) as nat);
    lemma_all_evolution_candidate_records_are_plain(v.candidates, (depth - 1) as nat);
    assert forall|i: int| 0 <= i < members.len() implies is_plain(
        (#[trigger] members[i]).1,
        (depth - 1) as nat,
    ) by {
    }
}

/// Whether every list of counts of a quality baseline is in order.
pub open spec fn quality_baseline_keeps(v: QualityBaselineModel) -> bool {
    &&& verification_quality_keeps(v.quality)
}

proof fn lemma_quality_baseline_names(v: QualityBaselineModel)
    ensures
        quality_baseline_document(v) is Object,
        distinct_names(quality_baseline_document(v)->Object_0),
        member(quality_baseline_document(v), "version"@) == Some(JsonModel::Number(decimal(v.version as int))),
        member(quality_baseline_document(v), "quality"@) == Some(verification_quality_document(v.quality)),
        member(quality_baseline_document(v), "confidence"@) == Some(JsonModel::Number(decimal(v.confidence as int))),
{
    reveal_strlit("version");
    reveal_strlit("quality");
    reveal_strlit("confidence");
    assert("version"@.len() == 7);
    assert("quality"@.len() == 7);
    assert("confidence"@.len() == 10);
    assert("version"@[0] == 'v');
    assert("quality"@[0] == 'q');
    let members = quality_baseline_document(v)->Object_0;
    assert forall|i: int, j: int| 0 <= i < j < members.len() implies (#[trigger] members[i]).0 != (
    #[trigger] members[j]).0 by {
    }
    lemma_member_is_found(members, 0);
    lemma_member_is_found(members, 1);
    lemma_member_is_found(members, 2);
}

/// A quality baseline that was written is read as it was.
pub proof fn lemma_quality_baseline_reads(v: QualityBaselineModel)
    requires
        quality_baseline_keeps(v),
    ensures
        quality_baseline_in(quality_baseline_document(v)) == Some(v),
        quality_baseline_document(v) is Object,
{
    let value = quality_baseline_document(v);
    lemma_quality_baseline_names(v);
    lemma_members_are_fields(value);
    lemma_unsigned_reads(v.version as int);
    lemma_verification_quality_reads(v.quality);
    lemma_unsigned_reads(v.confidence as int);
    assert(unsigned_at(value, "version"@, u8::MAX as int) == Some(v.version as int));
    assert(verification_quality_at(value, "quality"@) == Some(v.quality));
    assert(unsigned_at(value, "confidence"@, u8::MAX as int) == Some(v.confidence as int));
}

/// A quality baseline has whole numbers.
pub proof fn lemma_quality_baseline_is_exact(v: QualityBaselineModel, depth: nat)
    requires
        depth >= 6,
        quality_baseline_keeps(v),
    ensures
        is_exact(quality_baseline_document(v), depth),
{
    lemma_plain_values_are_exact((depth - 1) as nat);
    let members = quality_baseline_document(v)->Object_0;
    lemma_quality_baseline_names(v);
    lemma_unsigned_reads(v.version as int);
    lemma_verification_quality_is_exact(v.quality, (depth - 1) as nat);
    lemma_unsigned_reads(v.confidence as int);
    assert forall|i: int| 0 <= i < members.len() implies is_exact(
        (#[trigger] members[i]).1,
        (depth - 1) as nat,
    ) by {
    }
}

proof fn lemma_assertion_candidate_names(v: AssertionCandidateModel)
    ensures
        assertion_candidate_document(v) is Object,
        distinct_names(assertion_candidate_document(v)->Object_0),
        member(assertion_candidate_document(v), "language"@) == Some(JsonModel::Text(v.language)),
        member(assertion_candidate_document(v), "target_id"@) == Some(JsonModel::Text(v.target_id)),
        member(assertion_candidate_document(v), "finding_id"@) == Some(text_or_null(v.finding_id)),
        member(assertion_candidate_document(v), "source"@) == Some(JsonModel::Text(v.source.label_text())),
        member(assertion_candidate_document(v), "domain"@) == Some(JsonModel::Text(v.domain.label_text())),
        member(assertion_candidate_document(v), "semantic_packs"@) == Some(texts_model(v.semantic_packs)),
        member(assertion_candidate_document(v), "title"@) == Some(JsonModel::Text(v.title)),
        member(assertion_candidate_document(v), "seed_inputs"@) == Some(texts_model(v.seed_inputs)),
        member(assertion_candidate_document(v), "expected_behavior"@) == Some(JsonModel::Text(v.expected_behavior)),
        member(assertion_candidate_document(v), "replay_command"@) == Some(text_or_null(v.replay_command)),
{
    reveal_strlit("language");
    reveal_strlit("target_id");
    reveal_strlit("finding_id");
    reveal_strlit("source");
    reveal_strlit("domain");
    reveal_strlit("semantic_packs");
    reveal_strlit("title");
    reveal_strlit("seed_inputs");
    reveal_strlit("expected_behavior");
    reveal_strlit("replay_command");
    assert("language"@.len() == 8);
    assert("target_id"@.len() == 9);
    assert("finding_id"@.len() == 10);
    assert("source"@.len() == 6);
    assert("domain"@.len() == 6);
    assert("semantic_packs"@.len() == 14);
    assert("title"@.len() == 5);
    assert("seed_inputs"@.len() == 11);
    assert("expected_behavior"@.len() == 17);
    assert("replay_command"@.len() == 14);
    assert("source"@[0] == 's');
    assert("domain"@[0] == 'd');
    assert("semantic_packs"@[0] == 's');
    assert("replay_command"@[0] == 'r');
    let members = assertion_candidate_document(v)->Object_0;
    assert forall|i: int, j: int| 0 <= i < j < members.len() implies (#[trigger] members[i]).0 != (
    #[trigger] members[j]).0 by {
    }
    lemma_member_is_found(members, 0);
    lemma_member_is_found(members, 1);
    lemma_member_is_found(members, 2);
    lemma_member_is_found(members, 3);
    lemma_member_is_found(members, 4);
    lemma_member_is_found(members, 5);
    lemma_member_is_found(members, 6);
    lemma_member_is_found(members, 7);
    lemma_member_is_found(members, 8);
    lemma_member_is_found(members, 9);
}

/// An assertion candidate that was written is read as it was.
pub proof fn lemma_assertion_candidate_reads(v: AssertionCandidateModel)
    ensures
        assertion_candidate_in(assertion_candidate_document(v)) == Some(v),
        assertion_candidate_document(v) is Object,
{
    let value = assertion_candidate_document(v);
    lemma_assertion_candidate_names(v);
    lemma_members_are_fields(value);
    lemma_assertion_source_reads(v.source);
    lemma_assertion_domain_reads(v.domain);
    lemma_texts_read(v.semantic_packs);
    lemma_texts_read(v.seed_inputs);
    assert(text_at(value, "language"@) == Some(v.language));
    assert(text_at(value, "target_id"@) == Some(v.target_id));
    assert(optional_text_at(value, "finding_id"@) == Some(v.finding_id));
    assert(assertion_source_at(value, "source"@) == Some(v.source));
    assert(assertion_domain_at(value, "domain"@) == Some(v.domain));
    assert(texts_at(value, "semantic_packs"@) == Some(v.semantic_packs));
    assert(text_at(value, "title"@) == Some(v.title));
    assert(texts_at(value, "seed_inputs"@) == Some(v.seed_inputs));
    assert(text_at(value, "expected_behavior"@) == Some(v.expected_behavior));
    assert(optional_text_at(value, "replay_command"@) == Some(v.replay_command));
}

/// An assertion candidate is an ordinary value.
pub proof fn lemma_assertion_candidate_is_plain(v: AssertionCandidateModel, depth: nat)
    requires
        depth >= 2,
    ensures
        is_plain(assertion_candidate_document(v), depth),
{
    let members = assertion_candidate_document(v)->Object_0;
    lemma_assertion_candidate_names(v);
    lemma_texts_are_plain(v.semantic_packs, (depth - 1) as nat);
    lemma_texts_are_plain(v.seed_inputs, (depth - 1) as nat);
    assert forall|i: int| 0 <= i < members.len() implies is_plain(
        (#[trigger] members[i]).1,
        (depth - 1) as nat,
    ) by {
    }
}

proof fn lemma_evolution_generation_candidate_names(v: EvolutionGenerationCandidateModel)
    ensures
        evolution_generation_candidate_document(v) is Object,
        distinct_names(evolution_generation_candidate_document(v)->Object_0),
        member(evolution_generation_candidate_document(v), "id"@) == Some(JsonModel::Text(v.id)),
        member(evolution_generation_candidate_document(v), "target_id"@) == Some(JsonModel::Text(v.target_id)),
        member(evolution_generation_candidate_document(v), "previous_status"@) == Some(JsonModel::Text(v.previous_status.label_text())),
        member(evolution_generation_candidate_document(v), "status"@) == Some(JsonModel::Text(v.status.label_text())),
        member(evolution_generation_candidate_document(v), "outcome"@) == Some(JsonModel::Text(v.outcome.label_text())),
        member(evolution_generation_candidate_document(v), "applied"@) == Some(JsonModel::Bool(v.applied)),
        member(evolution_generation_candidate_document(v), "written_paths"@) == Some(texts_model(v.written_paths)),
        member(evolution_generation_candidate_document(v), "skipped_reason"@) == Some(text_or_null(v.skipped_reason)),
{
    reveal_strlit("id");
    reveal_strlit("target_id");
    reveal_strlit("previous_status");
    reveal_strlit("status");
    reveal_strlit("outcome");
    reveal_strlit("applied");
    reveal_strlit("written_paths");
    reveal_strlit("skipped_reason");
    assert("id"@.len() == 2);
    assert("target_id"@.len() == 9);
    assert("previous_status"@.len() == 15);
    assert("status"@.len() == 6);
    assert("outcome"@.len() == 7);
    assert("applied"@.len() == 7);
    assert("written_paths"@.len() == 13);
    assert("skipped_reason"@.len() == 14);
    assert("outcome"@[0] == 'o');
    assert("applied"@[0] == 'a');
    let members = evolution_generation_candidate_document(v)->Object_0;
    assert forall|i: int, j: int| 0 <= i < j < members.len() implies (#[trigger] members[i]).0 != (
    #[trigger] members[j]).0 by {
    }
    lemma_member_is_found(members, 0);
    lemma_member_is_found(members, 1);
    lemma_member_is_found(members, 2);
    lemma_member_is_found(members, 3);
    lemma_member_is_found(members, 4);
    lemma_member_is_found(members, 5);
    lemma_member_is_found(members, 6);
    lemma_member_is_found(members, 7);
}

/// An evolution generation candidate that was written is read as it was.
pub proof fn lemma_evolution_generation_candidate_reads(v: EvolutionGenerationCandidateModel)
    ensures
        evolution_generation_candidate_in(evolution_generation_candidate_document(v)) == Some(v),
        evolution_generation_candidate_document(v) is Object,
{
    let value = evolution_generation_candidate_document(v);
    lemma_evolution_generation_candidate_names(v);
    lemma_members_are_fields(value);
    lemma_evolution_candidate_status_reads(v.previous_status);
    lemma_evolution_candidate_status_reads(v.status);
    lemma_evolution_outcome_reads(v.outcome);
    lemma_texts_read(v.written_paths);
    assert(text_at(value, "id"@) == Some(v.id));
    assert(text_at(value, "target_id"@) == Some(v.target_id));
    assert(evolution_candidate_status_at(value, "previous_status"@) == Some(v.previous_status));
    assert(evolution_candidate_status_at(value, "status"@) == Some(v.status));
    assert(evolution_outcome_at(value, "outcome"@) == Some(v.outcome));
    assert(flag_at(value, "applied"@) == Some(v.applied));
    assert(texts_at(value, "written_paths"@) == Some(v.written_paths));
    assert(optional_text_at(value, "skipped_reason"@) == Some(v.skipped_reason));
}

/// An evolution generation candidate is an ordinary value.
pub proof fn lemma_evolution_generation_candidate_is_plain(
    v: EvolutionGenerationCandidateModel,
    depth: nat,
)
    requires
        depth >= 2,
    ensures
        is_plain(evolution_generation_candidate_document(v), depth),
{
    let members = evolution_generation_candidate_document(v)->Object_0;
    lemma_evolution_generation_candidate_names(v);
    lemma_texts_are_plain(v.written_paths, (depth - 1) as nat);
    assert forall|i: int| 0 <= i < members.len() implies is_plain(
        (#[trigger] members[i]).1,
        (depth - 1) as nat,
    ) by {
    }
}

proof fn lemma_all_evolution_generation_candidates_read(
    items: Seq<EvolutionGenerationCandidateModel>,
)
    ensures
        all_evolution_generation_candidates(evolution_generation_candidate_documents(items)) == Some(items),
    decreases items.len(),
{
    let all = evolution_generation_candidate_documents(items);
    if items.len() > 0 {
        lemma_all_evolution_generation_candidates_read(items.drop_last());
        lemma_evolution_generation_candidate_reads(items.last());
        assert(all.drop_last() =~= evolution_generation_candidate_documents(items.drop_last()));
        assert(items =~= items.drop_last().push(items.last()));
    } else {
        assert(items =~= Seq::<EvolutionGenerationCandidateModel>::empty());
    }
}

proof fn lemma_all_evolution_generation_candidates_are_plain(
    items: Seq<EvolutionGenerationCandidateModel>,
    depth: nat,
)
    requires
        depth >= 3,
    ensures
        is_plain(JsonModel::Array(evolution_generation_candidate_documents(items)), depth),
{
    let all = evolution_generation_candidate_documents(items);
    assert forall|i: int| 0 <= i < all.len() implies is_plain(
        #[trigger] all[i],
        (depth - 1) as nat,
    ) by {
        lemma_evolution_generation_candidate_is_plain(items[i], (depth - 1) as nat);
    }
}

proof fn lemma_evolution_quality_delta_names(v: EvolutionQualityDelta)
    ensures
        evolution_quality_delta_document(v) is Object,
        distinct_names(evolution_quality_delta_document(v)->Object_0),
        member(evolution_quality_delta_document(v), "mutation_score_delta"@) == Some(number_or_null(match v.mutation_score_delta {
                    Some(n) => Some(n as int),
                    None => None,
                })),
        member(evolution_quality_delta_document(v), "killed_mutants_delta"@) == Some(JsonModel::Number(signed_decimal(v.killed_mutants_delta as int))),
        member(evolution_quality_delta_document(v), "surviving_mutants_delta"@) == Some(JsonModel::Number(signed_decimal(v.surviving_mutants_delta as int))),
        member(evolution_quality_delta_document(v), "not_covered_mutants_delta"@) == Some(JsonModel::Number(signed_decimal(v.not_covered_mutants_delta as int))),
        member(evolution_quality_delta_document(v), "findings_delta"@) == Some(JsonModel::Number(signed_decimal(v.findings_delta as int))),
        member(evolution_quality_delta_document(v), "replay_cases_delta"@) == Some(JsonModel::Number(signed_decimal(v.replay_cases_delta as int))),
        member(evolution_quality_delta_document(v), "corpus_failed_delta"@) == Some(JsonModel::Number(signed_decimal(v.corpus_failed_delta as int))),
        member(evolution_quality_delta_document(v), "budget_timed_out_delta"@) == Some(JsonModel::Number(signed_decimal(v.budget_timed_out_delta as int))),
        member(evolution_quality_delta_document(v), "budget_skipped_delta"@) == Some(JsonModel::Number(signed_decimal(v.budget_skipped_delta as int))),
        member(evolution_quality_delta_document(v), "confidence_delta"@) == Some(JsonModel::Number(signed_decimal(v.confidence_delta as int))),
{
    reveal_strlit("mutation_score_delta");
    reveal_strlit("killed_mutants_delta");
    reveal_strlit("surviving_mutants_delta");
    reveal_strlit("not_covered_mutants_delta");
    reveal_strlit("findings_delta");
    reveal_strlit("replay_cases_delta");
    reveal_strlit("corpus_failed_delta");
    reveal_strlit("budget_timed_out_delta");
    reveal_strlit("budget_skipped_delta");
    reveal_strlit("confidence_delta");
    assert("mutation_score_delta"@.len() == 20);
    assert("killed_mutants_delta"@.len() == 20);
    assert("surviving_mutants_delta"@.len() == 23);
    assert("not_covered_mutants_delta"@.len() == 25);
    assert("findings_delta"@.len() == 14);
    assert("replay_cases_delta"@.len() == 18);
    assert("corpus_failed_delta"@.len() == 19);
    assert("budget_timed_out_delta"@.len() == 22);
    assert("budget_skipped_delta"@.len() == 20);
    assert("confidence_delta"@.len() == 16);
    assert("mutation_score_delta"@[0] == 'm');
    assert("killed_mutants_delta"@[0] == 'k');
    assert("budget_skipped_delta"@[0] == 'b');
    let members = evolution_quality_delta_document(v)->Object_0;
    assert forall|i: int, j: int| 0 <= i < j < members.len() implies (#[trigger] members[i]).0 != (
    #[trigger] members[j]).0 by {
    }
    lemma_member_is_found(members, 0);
    lemma_member_is_found(members, 1);
    lemma_member_is_found(members, 2);
    lemma_member_is_found(members, 3);
    lemma_member_is_found(members, 4);
    lemma_member_is_found(members, 5);
    lemma_member_is_found(members, 6);
    lemma_member_is_found(members, 7);
    lemma_member_is_found(members, 8);
    lemma_member_is_found(members, 9);
}

/// An evolution quality delta that was written is read as it was.
pub proof fn lemma_evolution_quality_delta_reads(v: EvolutionQualityDelta)
    ensures
        evolution_quality_delta_in(evolution_quality_delta_document(v)) == Some(v),
        evolution_quality_delta_document(v) is Object,
{
    let value = evolution_quality_delta_document(v);
    lemma_evolution_quality_delta_names(v);
    lemma_members_are_fields(value);
    if let Some(n) = v.mutation_score_delta {
        lemma_signed_reads(n as int);
    }
    lemma_signed_reads(v.killed_mutants_delta as int);
    lemma_signed_reads(v.surviving_mutants_delta as int);
    lemma_signed_reads(v.not_covered_mutants_delta as int);
    lemma_signed_reads(v.findings_delta as int);
    lemma_signed_reads(v.replay_cases_delta as int);
    lemma_signed_reads(v.corpus_failed_delta as int);
    lemma_signed_reads(v.budget_timed_out_delta as int);
    lemma_signed_reads(v.budget_skipped_delta as int);
    lemma_signed_reads(v.confidence_delta as int);
    assert(optional_i16_at(value, "mutation_score_delta"@) == Some(v.mutation_score_delta));
    assert(signed_at(value, "killed_mutants_delta"@, i64::MIN as int, i64::MAX as int) == Some(v.killed_mutants_delta as int));
    assert(signed_at(value, "surviving_mutants_delta"@, i64::MIN as int, i64::MAX as int) == Some(v.surviving_mutants_delta as int));
    assert(signed_at(value, "not_covered_mutants_delta"@, i64::MIN as int, i64::MAX as int) == Some(v.not_covered_mutants_delta as int));
    assert(signed_at(value, "findings_delta"@, i64::MIN as int, i64::MAX as int) == Some(v.findings_delta as int));
    assert(signed_at(value, "replay_cases_delta"@, i64::MIN as int, i64::MAX as int) == Some(v.replay_cases_delta as int));
    assert(signed_at(value, "corpus_failed_delta"@, i64::MIN as int, i64::MAX as int) == Some(v.corpus_failed_delta as int));
    assert(signed_at(value, "budget_timed_out_delta"@, i64::MIN as int, i64::MAX as int) == Some(v.budget_timed_out_delta as int));
    assert(signed_at(value, "budget_skipped_delta"@, i64::MIN as int, i64::MAX as int) == Some(v.budget_skipped_delta as int));
    assert(signed_at(value, "confidence_delta"@, i16::MIN as int, i16::MAX as int) == Some(v.confidence_delta as int));
}

/// An evolution quality delta is an ordinary value.
pub proof fn lemma_evolution_quality_delta_is_plain(v: EvolutionQualityDelta, depth: nat)
    requires
        depth >= 1,
    ensures
        is_plain(evolution_quality_delta_document(v), depth),
{
    let members = evolution_quality_delta_document(v)->Object_0;
    lemma_evolution_quality_delta_names(v);
    if let Some(n) = v.mutation_score_delta {
        lemma_signed_reads(n as int);
    }
    lemma_signed_reads(v.killed_mutants_delta as int);
    lemma_signed_reads(v.surviving_mutants_delta as int);
    lemma_signed_reads(v.not_covered_mutants_delta as int);
    lemma_signed_reads(v.findings_delta as int);
    lemma_signed_reads(v.replay_cases_delta as int);
    lemma_signed_reads(v.corpus_failed_delta as int);
    lemma_signed_reads(v.budget_timed_out_delta as int);
    lemma_signed_reads(v.budget_skipped_delta as int);
    lemma_signed_reads(v.confidence_delta as int);
    assert forall|i: int| 0 <= i < members.len() implies is_plain(
        (#[trigger] members[i]).1,
        (depth - 1) as nat,
    ) by {
    }
}

proof fn lemma_evolution_generation_names(v: EvolutionGenerationModel)
    ensures
        evolution_generation_document(v) is Object,
        distinct_names(evolution_generation_document(v)->Object_0),
        member(evolution_generation_document(v), "version"@) == Some(JsonModel::Number(decimal(v.version as int))),
        member(evolution_generation_document(v), "language"@) == Some(JsonModel::Text(v.language)),
        member(evolution_generation_document(v), "generation"@) == Some(JsonModel::Number(decimal(v.generation as int))),
        member(evolution_generation_document(v), "parent_suite"@) == Some(JsonModel::Text(v.parent_suite)),
        member(evolution_generation_document(v), "created_unix_seconds"@) == Some(JsonModel::Number(decimal(v.created_unix_seconds as int))),
        member(evolution_generation_document(v), "outcome"@) == Some(JsonModel::Text(v.outcome.label_text())),
        member(evolution_generation_document(v), "candidates"@) == Some(JsonModel::Array(evolution_generation_candidate_documents(v.candidates))),
        member(evolution_generation_document(v), "delta"@) == Some(optional_evolution_quality_delta_document(v.delta)),
        member(evolution_generation_document(v), "written_paths"@) == Some(texts_model(v.written_paths)),
{
    reveal_strlit("version");
    reveal_strlit("language");
    reveal_strlit("generation");
    reveal_strlit("parent_suite");
    reveal_strlit("created_unix_seconds");
    reveal_strlit("outcome");
    reveal_strlit("candidates");
    reveal_strlit("delta");
    reveal_strlit("written_paths");
    assert("version"@.len() == 7);
    assert("language"@.len() == 8);
    assert("generation"@.len() == 10);
    assert("parent_suite"@.len() == 12);
    assert("created_unix_seconds"@.len() == 20);
    assert("outcome"@.len() == 7);
    assert("candidates"@.len() == 10);
    assert("delta"@.len() == 5);
    assert("written_paths"@.len() == 13);
    assert("version"@[0] == 'v');
    assert("generation"@[0] == 'g');
    assert("outcome"@[0] == 'o');
    assert("candidates"@[0] == 'c');
    let members = evolution_generation_document(v)->Object_0;
    assert forall|i: int, j: int| 0 <= i < j < members.len() implies (#[trigger] members[i]).0 != (
    #[trigger] members[j]).0 by {
    }
    lemma_member_is_found(members, 0);
    lemma_member_is_found(members, 1);
    lemma_member_is_found(members, 2);
    lemma_member_is_found(members, 3);
    lemma_member_is_found(members, 4);
    lemma_member_is_found(members, 5);
    lemma_member_is_found(members, 6);
    lemma_member_is_found(members, 7);
    lemma_member_is_found(members, 8);
}

/// An evolution generation that was written is read as it was.
pub proof fn lemma_evolution_generation_reads(v: EvolutionGenerationModel)
    ensures
        evolution_generation_in(evolution_generation_document(v)) == Some(v),
        evolution_generation_document(v) is Object,
{
    let value = evolution_generation_document(v);
    lemma_evolution_generation_names(v);
    lemma_members_are_fields(value);
    lemma_unsigned_reads(v.version as int);
    lemma_unsigned_reads(v.generation as int);
    lemma_unsigned_reads(v.created_unix_seconds as int);
    lemma_evolution_outcome_reads(v.outcome);
    lemma_all_evolution_generation_candidates_read(v.candidates);
    if let Some(given) = v.delta {
        lemma_evolution_quality_delta_reads(given);
    }
    lemma_texts_read(v.written_paths);
    assert(unsigned_at(value, "version"@, u8::MAX as int) == Some(v.version as int));
    assert(text_at(value, "language"@) == Some(v.language));
    assert(unsigned_at(value, "generation"@, u32::MAX as int) == Some(v.generation as int));
    assert(text_at(value, "parent_suite"@) == Some(v.parent_suite));
    assert(unsigned_at(value, "created_unix_seconds"@, u64::MAX as int) == Some(v.created_unix_seconds as int));
    assert(evolution_outcome_at(value, "outcome"@) == Some(v.outcome));
    assert(evolution_generation_candidates_at(value, "candidates"@) == Some(v.candidates));
    assert(optional_evolution_quality_delta_at(value, "delta"@) == Some(v.delta));
    assert(texts_at(value, "written_paths"@) == Some(v.written_paths));
}

/// An evolution generation is an ordinary value.
pub proof fn lemma_evolution_generation_is_plain(v: EvolutionGenerationModel, depth: nat)
    requires
        depth >= 4,
    ensures
        is_plain(evolution_generation_document(v), depth),
{
    let members = evolution_generation_document(v)->Object_0;
    lemma_evolution_generation_names(v);
    lemma_unsigned_reads(v.version as int);
    lemma_unsigned_reads(v.generation as int);
    lemma_unsigned_reads(v.created_unix_seconds as int);
    lemma_all_evolution_generation_candidates_are_plain(v.candidates, (depth - 1) as nat);
    if let Some(given) = v.delta {
        lemma_evolution_quality_delta_is_plain(given, (depth - 1) as nat);
    }
    lemma_texts_are_plain(v.written_paths, (depth - 1) as nat);
    assert forall|i: int| 0 <= i < members.len() implies is_plain(
        (#[trigger] members[i]).1,
        (depth - 1) as nat,
    ) by {
    }
}

proof fn lemma_target_cache_source_names(v: TargetCacheSourceModel)
    ensures
        target_cache_source_document(v) is Object,
        distinct_names(target_cache_source_document(v)->Object_0),
        member(target_cache_source_document(v), "path"@) == Some(JsonModel::Text(v.path)),
        member(target_cache_source_document(v), "len"@) == Some(JsonModel::Number(decimal(v.len as int))),
        member(target_cache_source_document(v), "modified_unix_seconds"@) == Some(JsonModel::Number(decimal(v.modified_unix_seconds as int))),
{
    reveal_strlit("path");
    reveal_strlit("len");
    reveal_strlit("modified_unix_seconds");
    assert("path"@.len() == 4);
    assert("len"@.len() == 3);
    assert("modified_unix_seconds"@.len() == 21);
    let members = target_cache_source_document(v)->Object_0;
    assert forall|i: int, j: int| 0 <= i < j < members.len() implies (#[trigger] members[i]).0 != (
    #[trigger] members[j]).0 by {
    }
    lemma_member_is_found(members, 0);
    lemma_member_is_found(members, 1);
    lemma_member_is_found(members, 2);
}

/// A target cache source that was written is read as it was.
pub proof fn lemma_target_cache_source_reads(v: TargetCacheSourceModel)
    ensures
        target_cache_source_in(target_cache_source_document(v)) == Some(v),
        target_cache_source_document(v) is Object,
{
    let value = target_cache_source_document(v);
    lemma_target_cache_source_names(v);
    lemma_members_are_fields(value);
    lemma_unsigned_reads(v.len as int);
    lemma_unsigned_reads(v.modified_unix_seconds as int);
    assert(text_at(value, "path"@) == Some(v.path));
    assert(unsigned_at(value, "len"@, u64::MAX as int) == Some(v.len as int));
    assert(unsigned_at(value, "modified_unix_seconds"@, u64::MAX as int) == Some(v.modified_unix_seconds as int));
}

/// A target cache source is an ordinary value.
pub proof fn lemma_target_cache_source_is_plain(v: TargetCacheSourceModel, depth: nat)
    requires
        depth >= 1,
    ensures
        is_plain(target_cache_source_document(v), depth),
{
    let members = target_cache_source_document(v)->Object_0;
    lemma_target_cache_source_names(v);
    lemma_unsigned_reads(v.len as int);
    lemma_unsigned_reads(v.modified_unix_seconds as int);
    assert forall|i: int| 0 <= i < members.len() implies is_plain(
        (#[trigger] members[i]).1,
        (depth - 1) as nat,
    ) by {
    }
}

proof fn lemma_all_target_cache_sources_read(items: Seq<TargetCacheSourceModel>)
    ensures
        all_target_cache_sources(target_cache_source_documents(items)) == Some(items),
    decreases items.len(),
{
    let all = target_cache_source_documents(items);
    if items.len() > 0 {
        lemma_all_target_cache_sources_read(items.drop_last());
        lemma_target_cache_source_reads(items.last());
        assert(all.drop_last() =~= target_cache_source_documents(items.drop_last()));
        assert(items =~= items.drop_last().push(items.last()));
    } else {
        assert(items =~= Seq::<TargetCacheSourceModel>::empty());
    }
}

proof fn lemma_all_target_cache_sources_are_plain(items: Seq<TargetCacheSourceModel>, depth: nat)
    requires
        depth >= 2,
    ensures
        is_plain(JsonModel::Array(target_cache_source_documents(items)), depth),
{
    let all = target_cache_source_documents(items);
    assert forall|i: int| 0 <= i < all.len() implies is_plain(
        #[trigger] all[i],
        (depth - 1) as nat,
    ) by {
        lemma_target_cache_source_is_plain(items[i], (depth - 1) as nat);
    }
}

proof fn lemma_target_cache_names(v: TargetCacheModel)
    ensures
        target_cache_document(v) is Object,
        distinct_names(target_cache_document(v)->Object_0),
        member(target_cache_document(v), "version"@) == Some(JsonModel::Number(decimal(v.version as int))),
        member(target_cache_document(v), "language"@) == Some(JsonModel::Text(v.language)),
        member(target_cache_document(v), "created_unix_seconds"@) == Some(JsonModel::Number(decimal(v.created_unix_seconds as int))),
        member(target_cache_document(v), "git_head"@) == Some(text_or_null(v.git_head)),
        member(target_cache_document(v), "sources"@) == Some(JsonModel::Array(target_cache_source_documents(v.sources))),
        member(target_cache_document(v), "targets"@) == Some(JsonModel::Array(verification_target_documents(v.targets))),
{
    reveal_strlit("version");
    reveal_strlit("language");
    reveal_strlit("created_unix_seconds");
    reveal_strlit("git_head");
    reveal_strlit("sources");
    reveal_strlit("targets");
    assert("version"@.len() == 7);
    assert("language"@.len() == 8);
    assert("created_unix_seconds"@.len() == 20);
    assert("git_head"@.len() == 8);
    assert("sources"@.len() == 7);
    assert("targets"@.len() == 7);
    assert("version"@[0] == 'v');
    assert("language"@[0] == 'l');
    assert("git_head"@[0] == 'g');
    assert("sources"@[0] == 's');
    assert("targets"@[0] == 't');
    let members = target_cache_document(v)->Object_0;
    assert forall|i: int, j: int| 0 <= i < j < members.len() implies (#[trigger] members[i]).0 != (
    #[trigger] members[j]).0 by {
    }
    lemma_member_is_found(members, 0);
    lemma_member_is_found(members, 1);
    lemma_member_is_found(members, 2);
    lemma_member_is_found(members, 3);
    lemma_member_is_found(members, 4);
    lemma_member_is_found(members, 5);
}

/// A target cache that was written is read as it was.
pub proof fn lemma_target_cache_reads(v: TargetCacheModel)
    ensures
        target_cache_in(target_cache_document(v)) == Some(v),
        target_cache_document(v) is Object,
{
    let value = target_cache_document(v);
    lemma_target_cache_names(v);
    lemma_members_are_fields(value);
    lemma_unsigned_reads(v.version as int);
    lemma_unsigned_reads(v.created_unix_seconds as int);
    lemma_all_target_cache_sources_read(v.sources);
    lemma_all_verification_targets_read(v.targets);
    assert(unsigned_at(value, "version"@, u8::MAX as int) == Some(v.version as int));
    assert(text_at(value, "language"@) == Some(v.language));
    assert(unsigned_at(value, "created_unix_seconds"@, u64::MAX as int) == Some(v.created_unix_seconds as int));
    assert(optional_text_at(value, "git_head"@) == Some(v.git_head));
    assert(target_cache_sources_at(value, "sources"@) == Some(v.sources));
    assert(verification_targets_at(value, "targets"@) == Some(v.targets));
}

/// A target cache is an ordinary value.
pub proof fn lemma_target_cache_is_plain(v: TargetCacheModel, depth: nat)
    requires
        depth >= 4,
    ensures
        is_plain(target_cache_document(v), depth),
{
    let members = target_cache_document(v)->Object_0;
    lemma_target_cache_names(v);
    lemma_unsigned_reads(v.version as int);
    lemma_unsigned_reads(v.created_unix_seconds as int);
    lemma_all_target_cache_sources_are_plain(v.sources, (depth - 1) as nat);
    lemma_all_verification_targets_are_plain(v.targets, (depth - 1) as nat);
    assert forall|i: int| 0 <= i < members.len() implies is_plain(
        (#[trigger] members[i]).1,
        (depth - 1) as nat,
    ) by {
    }
}

} // verus!
