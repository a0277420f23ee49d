//! Mutation campaigns: the records that are shown, the trend against a baseline,
//! the progress, and the budget of a verification.
use vstd::prelude::*;

use crate::api::{
    append_command_records, clone_command_records, ArtifactKind, CommandRecord, CommandRecordModel,
    GeneratedArtifact, GeneratedArtifactModel, RunStatus, TestRunResult, TestRunResultModel,
    VerificationPlanModel, VerificationReport, VerificationReportModel,
};
use crate::attribution::with_percentages;
use crate::documents::{
    command_budget_document, command_budget_json, mutation_metrics_document, mutation_metrics_json,
    mutation_record_documents, mutation_record_list, quality_delta_document, quality_delta_json,
};
use crate::findings::{
    blank_separators, command_line, command_words, plan_artifact, planned, replace_separators,
};
use crate::json::{
    formatted, formatted_json, number, number_or_null, optional_u8, pretty, pretty_json, text,
    texts, texts_model, Json, JsonModel, Members,
};
use crate::metrics::{
    no_quality, push_mutation_record, MutationMetrics, MutationMetricsModel, MutationRecord,
    MutationRecordModel, MutationStatus, VerificationQuality, VerificationQualityModel,
};
use crate::number::{decimal, print_usize};
use crate::quality::{measure_mutation, mutants_fit, mutation_sums, MutantLabels};
use crate::records::{CommandBudget, CommandBudgetModel, QualityBaseline, QualityBaselineModel};
use crate::score::{comparable, counts_compare, delta_from_baseline, quality_delta};
use crate::seqs::{cat2, cat3, lemma_take_all, lemma_take_next};
use crate::split::push_text;
use crate::text::{contains, has_text, lower, or_text, owned, same, text_or, to_lower};

verus! {

// ---------------------------------------------------------------------------
// Records
// ---------------------------------------------------------------------------
/// The status of a mutant in words.
pub open spec fn status_words_of(status: MutationStatus) -> Seq<char> {
    match status {
        MutationStatus::Runnable => "runnable"@,
        MutationStatus::NotCovered => "not covered"@,
        MutationStatus::Killed => "killed"@,
        MutationStatus::Lived => "lived"@,
        MutationStatus::TimedOut => "timed out"@,
        MutationStatus::NotViable => "not viable"@,
        MutationStatus::Skipped => "skipped"@,
    }
}

/// The status of a mutant in words.
pub fn mutation_status_label(status: MutationStatus) -> (r: &'static str)
    ensures
        r@ == status_words_of(status),
{
    match status {
        MutationStatus::Runnable => "runnable",
        MutationStatus::NotCovered => "not covered",
        MutationStatus::Killed => "killed",
        MutationStatus::Lived => "lived",
        MutationStatus::TimedOut => "timed out",
        MutationStatus::NotViable => "not viable",
        MutationStatus::Skipped => "skipped",
    }
}

/// Whether a configured status, with blanks for its separators and in lower case, is
/// that of a mutant.
pub open spec fn names_status(configured: Seq<char>, status: MutationStatus) -> bool {
    lower(blank_separators(configured)) == status_words_of(status)
}

fn is_named(configured: &str, status: MutationStatus) -> (r: bool)
    ensures
        r == names_status(configured@, status),
{
    same(
        to_lower(replace_separators(configured).as_str()).as_str(),
        mutation_status_label(status),
    )
}

/// Whether a status is among the configured ones.
pub open spec fn lists_status(items: Seq<Seq<char>>, status: MutationStatus) -> bool {
    exists|k: int| 0 <= k < items.len() && names_status((#[trigger] items[k]), status)
}

fn status_listed(items: &Vec<String>, status: MutationStatus) -> (r: bool)
    ensures
        r == lists_status(items.deep_view(), status),
{
    let ghost all = items.deep_view();
    let mut i: usize = 0;
    while i < items.len()
        invariant
            i <= items@.len(),
            all == items.deep_view(),
            forall|k: int| 0 <= k < i ==> !(names_status((#[trigger] all[k]), (status))),
        decreases items@.len() - i,
    {
        assert(all[i as int] == items@[i as int]@);
        if is_named(items[i].as_str(), status) {
            return true;
        }
        i = i + 1;
    }
    false
}

/// Whether a mutant is shown: where no status is configured, or its own is.
pub open spec fn shown(output_statuses: Seq<Seq<char>>, record: MutationRecordModel) -> bool {
    output_statuses.len() == 0 || lists_status(output_statuses, record.status)
}

fn is_shown(output_statuses: &Vec<String>, record: &MutationRecord) -> (r: bool)
    ensures
        r == shown(output_statuses.deep_view(), record.deep_view()),
{
    assert(output_statuses@.len() == output_statuses.deep_view().len());
    output_statuses.len() == 0 || status_listed(output_statuses, record.status)
}

/// The mutants that are shown.
pub open spec fn shown_records(
    items: Seq<MutationRecordModel>,
    output_statuses: Seq<Seq<char>>,
) -> Seq<MutationRecordModel>
    decreases items.len(),
{
    if items.len() == 0 {
        Seq::empty()
    } else if shown(output_statuses, items.last()) {
        shown_records(items.drop_last(), output_statuses).push(items.last())
    } else {
        shown_records(items.drop_last(), output_statuses)
    }
}

/// The mutants that are shown.
pub fn filtered_mutation_records(
    items: &Vec<MutationRecord>,
    output_statuses: &Vec<String>,
) -> (r: Vec<MutationRecord>)
    ensures
        r.deep_view() == shown_records(items.deep_view(), output_statuses.deep_view()),
{
    let mut out: Vec<MutationRecord> = Vec::new();
    let ghost all = items.deep_view();
    let mut i: usize = 0;
    assert(out.deep_view() == shown_records(all.take(0), output_statuses.deep_view()));
    while i < items.len()
        invariant
            i <= items@.len(),
            all == items.deep_view(),
            out.deep_view() == shown_records(all.take(i as int), output_statuses.deep_view()),
        decreases items@.len() - i,
    {
        proof {
            lemma_take_next(all, i as int);
        }
        if is_shown(output_statuses, &items[i]) {
            push_mutation_record(&mut out, items[i].clone());
        }
        i = i + 1;
    }
    proof {
        lemma_take_all(all);
    }
    out
}

/// Without a configured status every mutant is shown.
pub proof fn law_no_filter_shows_everything(records: Seq<MutationRecordModel>)
    ensures
        shown_records(records, Seq::empty()) == records,
    decreases records.len(),
{
    if records.len() > 0 {
        law_no_filter_shows_everything(records.drop_last());
        assert(records =~= records.drop_last().push(records.last()));
    } else {
        assert(shown_records(records, Seq::empty()) =~= records);
    }
}

/// Every mutant that is shown is one of the mutants, and has a configured status where
/// one is configured.
pub proof fn law_shown_mutants_are_listed(
    output_statuses: Seq<Seq<char>>,
    records: Seq<MutationRecordModel>,
    i: int,
)
    requires
        0 <= i < shown_records(records, output_statuses).len(),
    ensures
        shown(output_statuses, shown_records(records, output_statuses)[i]),
        records.contains(shown_records(records, output_statuses)[i]),
    decreases records.len(),
{
    let before = shown_records(records.drop_last(), output_statuses);
    if i < before.len() {
        law_shown_mutants_are_listed(output_statuses, records.drop_last(), i);
        let k = choose|k: int| 0 <= k < records.drop_last().len() && records.drop_last()[k]
            == before[i];
        assert(records[k] == before[i]);
    } else {
        assert(records[records.len() - 1] == shown_records(records, output_statuses)[i]);
    }
}

/// Filtering mutants twice gives what filtering them once gives.
pub proof fn law_filtering_is_idempotent(
    output_statuses: Seq<Seq<char>>,
    records: Seq<MutationRecordModel>,
)
    ensures
        shown_records(shown_records(records, output_statuses), output_statuses) == shown_records(
            records,
            output_statuses,
        ),
    decreases records.len(),
{
    if records.len() > 0 {
        law_filtering_is_idempotent(output_statuses, records.drop_last());
        let before = shown_records(records.drop_last(), output_statuses);
        if shown(output_statuses, records.last()) {
            assert(before.push(records.last()).drop_last() =~= before);
        }
    }
}

/// Every mutant whose status is configured is shown, whatever separators and letters the
/// status is written with; and where a status is configured, no mutant with another one is.
pub proof fn law_mutants_with_a_configured_status_are_shown(
    output_statuses: Seq<Seq<char>>,
    records: Seq<MutationRecordModel>,
    i: int,
)
    requires
        0 <= i < records.len(),
        output_statuses.len() > 0,
    ensures
        (exists|k: int|
            0 <= k < output_statuses.len() && lower(
                blank_separators(#[trigger] output_statuses[k]),
            ) == match records[i].status {
                MutationStatus::Runnable => "runnable"@,
                MutationStatus::NotCovered => "not covered"@,
                MutationStatus::Killed => "killed"@,
                MutationStatus::Lived => "lived"@,
                MutationStatus::TimedOut => "timed out"@,
                MutationStatus::NotViable => "not viable"@,
                MutationStatus::Skipped => "skipped"@,
            }) ==> shown_records(records, output_statuses).contains(records[i]),
        (forall|k: int|
            0 <= k < output_statuses.len() ==> lower(
                blank_separators(#[trigger] output_statuses[k]),
            ) != match records[i].status {
                MutationStatus::Runnable => "runnable"@,
                MutationStatus::NotCovered => "not covered"@,
                MutationStatus::Killed => "killed"@,
                MutationStatus::Lived => "lived"@,
                MutationStatus::TimedOut => "timed out"@,
                MutationStatus::NotViable => "not viable"@,
                MutationStatus::Skipped => "skipped"@,
            }) ==> !shown_records(records, output_statuses).contains(records[i]),
{
    let all = shown_records(records, output_statuses);
    if all.contains(records[i]) {
        let j = choose|j: int| 0 <= j < all.len() && all[j] == records[i];
        law_shown_mutants_are_listed(output_statuses, records, j);
        let k = choose|k: int|
            0 <= k < output_statuses.len() && names_status(
                #[trigger] output_statuses[k],
                records[i].status,
            );
        assert(lower(blank_separators(output_statuses[k])) == status_words_of(records[i].status));
    }
    if exists|k: int|
        0 <= k < output_statuses.len() && lower(blank_separators(#[trigger] output_statuses[k]))
            == status_words_of(records[i].status) {
        let k = choose|k: int|
            0 <= k < output_statuses.len() && lower(blank_separators(#[trigger] output_statuses[k]))
                == status_words_of(records[i].status);
        assert(names_status(output_statuses[k], records[i].status));
        lemma_shown_is_kept(output_statuses, records, i);
    }
}

proof fn lemma_shown_is_kept(
    output_statuses: Seq<Seq<char>>,
    records: Seq<MutationRecordModel>,
    i: int,
)
    requires
        0 <= i < records.len(),
        shown(output_statuses, records[i]),
    ensures
        shown_records(records, output_statuses).contains(records[i]),
    decreases records.len(),
{
    let all = shown_records(records, output_statuses);
    let before = shown_records(records.drop_last(), output_statuses);
    if i < records.len() - 1 {
        lemma_shown_is_kept(output_statuses, records.drop_last(), i);
        let k = choose|k: int| 0 <= k < before.len() && before[k] == records[i];
        assert(all[k] == records[i]);
    } else {
        assert(all[all.len() - 1] == records[i]);
    }
}

// ---------------------------------------------------------------------------
// Budgets
// ---------------------------------------------------------------------------
/// The commands of all runs, run by run.
pub open spec fn commands_of_runs(runs: Seq<TestRunResultModel>) -> Seq<CommandRecordModel>
    decreases runs.len(),
{
    if runs.len() == 0 {
        Seq::empty()
    } else {
        commands_of_runs(runs.drop_last()) + runs.last().commands
    }
}

/// The commands of all runs, run by run.
pub fn run_commands(runs: &Vec<TestRunResult>) -> (r: Vec<CommandRecord>)
    ensures
        r.deep_view() == commands_of_runs(runs.deep_view()),
{
    let mut out: Vec<CommandRecord> = Vec::new();
    let ghost all = runs.deep_view();
    let mut i: usize = 0;
    assert(out.deep_view() == commands_of_runs(all.take(0)));
    while i < runs.len()
        invariant
            i <= runs@.len(),
            all == runs.deep_view(),
            out.deep_view() == commands_of_runs(all.take(i as int)),
        decreases runs@.len() - i,
    {
        proof {
            lemma_take_next(all, i as int);
        }
        let mut more = clone_command_records(&runs[i].commands);
        append_command_records(&mut out, &mut more);
        i = i + 1;
    }
    proof {
        lemma_take_all(all);
    }
    out
}

/// How many commands were run.
pub open spec fn run_in(items: Seq<CommandRecordModel>) -> int
    decreases items.len(),
{
    if items.len() == 0 {
        0
    } else {
        run_in(items.drop_last()) + if items.last().status != RunStatus::Skipped {
            1int
        } else {
            0int
        }
    }
}

fn commands_run(items: &Vec<CommandRecord>) -> (r: usize)
    ensures
        r == run_in(items.deep_view()),
        r <= items@.len(),
{
    let ghost all = items.deep_view();
    let mut n: usize = 0;
    let mut i: usize = 0;
    while i < items.len()
        invariant
            i <= items@.len(),
            n <= i,
            all == items.deep_view(),
            n == run_in(all.take(i as int)),
        decreases items@.len() - i,
    {
        proof {
            lemma_take_next(all, i as int);
        }
        if items[i].status != RunStatus::Skipped {
            n = n + 1;
        }
        i = i + 1;
    }
    proof {
        lemma_take_all(all);
    }
    n
}

/// Whether an argument sets a limit on memory or processor time.
pub open spec fn some_limit(items: Seq<Seq<char>>) -> bool {
    exists|k: int| 0 <= k < items.len() && (has_text((#[trigger] items[k]), "MemoryMax"@) || has_text(items[k], "CPUQuota"@))
}

fn mentions_limit(items: &Vec<String>) -> (r: bool)
    ensures
        r == some_limit(items.deep_view()),
{
    let ghost all = items.deep_view();
    let mut i: usize = 0;
    while i < items.len()
        invariant
            i <= items@.len(),
            all == items.deep_view(),
            forall|k: int| 0 <= k < i ==> !((has_text((#[trigger] all[k]), "MemoryMax"@) || has_text(all[k], "CPUQuota"@))),
        decreases items@.len() - i,
    {
        assert(all[i as int] == items@[i as int]@);
        if contains(items[i].as_str(), "MemoryMax") || contains(items[i].as_str(), "CPUQuota") {
            return true;
        }
        i = i + 1;
    }
    false
}

/// The command line of a command that runs under a resource limit.
pub open spec fn limited_line(command: CommandRecordModel) -> Option<Seq<char>> {
    if has_text(command.program, "systemd-run"@) || some_limit(command.args) {
        Some(command_words(command.program, command.args))
    } else {
        None
    }
}

fn line_of_limited(command: &CommandRecord) -> (r: Option<String>)
    ensures
        r.deep_view() == limited_line(command.deep_view()),
{
    if contains(command.program.as_str(), "systemd-run") || mentions_limit(&command.args) {
        Some(command_line(command.program.as_str(), &command.args))
    } else {
        None
    }
}

/// The command lines of commands that ran under a resource limit.
pub open spec fn limit_lines(items: Seq<CommandRecordModel>) -> Seq<Seq<char>>
    decreases items.len(),
{
    if items.len() == 0 {
        Seq::empty()
    } else {
        let before = limit_lines(items.drop_last());
        match limited_line(items.last()) {
            Some(one) => before.push(one),
            None => before,
        }
    }
}

fn limited_lines(items: &Vec<CommandRecord>) -> (r: Vec<String>)
    ensures
        r.deep_view() == limit_lines(items.deep_view()),
{
    let mut out: Vec<String> = Vec::new();
    let ghost all = items.deep_view();
    let mut i: usize = 0;
    assert(out.deep_view() == limit_lines(all.take(0)));
    while i < items.len()
        invariant
            i <= items@.len(),
            all == items.deep_view(),
            out.deep_view() == limit_lines(all.take(i as int)),
        decreases items@.len() - i,
    {
        proof {
            lemma_take_next(all, i as int);
        }
        match line_of_limited(&items[i]) {
            Some(one) => {
                push_text(&mut out, one);
            },
            None => {},
        }
        i = i + 1;
    }
    proof {
        lemma_take_all(all);
    }
    out
}

/// What a verification spends, by its plan and its commands.
pub open spec fn budget_of(
    language: Seq<char>,
    plan: VerificationPlanModel,
    runs: Seq<TestRunResultModel>,
) -> CommandBudgetModel {
    let commands = commands_of_runs(runs);
    CommandBudgetModel {
        language,
        target_id: plan.target_id,
        budget_seconds: plan.budget_seconds,
        max_concurrency: if run_in(commands) < 1 {
            1
        } else {
            run_in(commands) as usize
        },
        resource_limits: limit_lines(commands),
    }
}

/// The budget plan of a report that has a plan.
pub open spec fn budget_artifacts(
    language: Seq<char>,
    report: VerificationReportModel,
) -> Seq<GeneratedArtifactModel> {
    match report.plan {
        Some(plan) => seq![
            planned(
                language + "-budget-plan"@,
                language,
                ArtifactKind::BudgetPlan,
                plan.target_id,
                ".veritas/budgets/"@ + language + ".json"@,
                formatted_json(command_budget_document(budget_of(language, plan, report.runs))),
                "Command budget and resource-limit metadata for large-repo execution"@,
            ),
        ],
        None => Seq::empty(),
    }
}

/// The budget plan of a report that has a plan.
pub fn budget_plan_artifacts(language: &str, report: &VerificationReport) -> (r: Vec<
    GeneratedArtifact,
>)
    ensures
        r.deep_view() == budget_artifacts(language@, report.deep_view()),
{
    let mut out: Vec<GeneratedArtifact> = Vec::new();
    if let Some(plan) = &report.plan {
        let commands = run_commands(&report.runs);
        let ran = commands_run(&commands);
        let budget = CommandBudget {
            language: owned(language),
            target_id: plan.target_id.clone(),
            budget_seconds: plan.budget_seconds,
            max_concurrency: if ran < 1 {
                1
            } else {
                ran
            },
            resource_limits: limited_lines(&commands),
        };
        out.push(
            plan_artifact(
                cat2(language, "-budget-plan"),
                language,
                ArtifactKind::BudgetPlan,
                plan.target_id.clone(),
                cat3(".veritas/budgets/", language, ".json"),
                formatted(&command_budget_json(&budget)),
                "Command budget and resource-limit metadata for large-repo execution",
            ),
        );
    }
    assert(out.deep_view() =~= budget_artifacts(language@, report.deep_view()));
    out
}

// ---------------------------------------------------------------------------
// Trends
// ---------------------------------------------------------------------------
/// The mutants of the runs of a report, with their percentages.
pub open spec fn campaign_of(report: VerificationReportModel) -> MutationMetricsModel {
    with_percentages(mutation_sums(report, Seq::empty()))
}

fn measure_campaign(report: &VerificationReport) -> (r: Option<MutationMetrics>)
    ensures
        r is Some == mutants_fit(report.deep_view(), Seq::empty()),
        r matches Some(m) ==> m.deep_view() == campaign_of(report.deep_view()),
{
    let labels: Vec<MutantLabels> = Vec::new();
    assert(labels.deep_view() =~= Seq::empty());
    measure_mutation(report, &labels)
}

/// The quality of a report whose mutants alone are measured.
pub open spec fn mutants_only(mutation: MutationMetricsModel) -> VerificationQualityModel {
    VerificationQualityModel { mutation, ..no_quality() }
}

/// Thresholds that the mutants of a report suggest.
pub open spec fn threshold_document(mutation: MutationMetricsModel, gated: bool) -> JsonModel {
    JsonModel::Object(
        seq![
            ("minimum_score"@, number_or_null(match mutation.score_percent {
                    Some(n) => Some(n as int),
                    None => None,
                })),
            ("maximum_survivors"@, JsonModel::Number(decimal(mutation.survived as int))),
            ("gate_on_regression"@, JsonModel::Bool(gated)),
        ],
    )
}

fn threshold_json(mutation: &MutationMetrics, gated: bool) -> (r: Json)
    ensures
        r.deep_view() == threshold_document(mutation.deep_view(), gated),
{
    let mut members = Members::new();
    members.put("minimum_score", optional_u8(mutation.score_percent));
    members.put("maximum_survivors", number(mutation.survived as u64));
    members.put("gate_on_regression", Json::Bool(gated));
    assert(members.model() =~= threshold_document(mutation.deep_view(), gated)->Object_0);
    members.finish()
}

/// The difference of mutants from a baseline, or null.
pub open spec fn trend_delta(
    mutation: MutationMetricsModel,
    baseline: Option<QualityBaselineModel>,
) -> JsonModel {
    match baseline {
        Some(known) => quality_delta_document(
            delta_from_baseline(mutants_only(mutation), 0, known),
        ),
        None => JsonModel::Null,
    }
}

/// The trend of mutants against a baseline.
pub open spec fn trend_document(
    language: Seq<char>,
    mutation: MutationMetricsModel,
    baseline: Option<QualityBaselineModel>,
) -> JsonModel {
    JsonModel::Object(
        seq![
            ("version"@, JsonModel::Number(decimal(1))),
            ("language"@, JsonModel::Text(language)),
            ("mutation"@, mutation_metrics_document(mutation)),
            ("baseline_delta"@, trend_delta(mutation, baseline)),
            ("threshold_hints"@, threshold_document(mutation, baseline is Some)),
        ],
    )
}

/// The value of a baseline that may not be there.
pub open spec fn baseline_view(baseline: Option<&QualityBaseline>) -> Option<QualityBaselineModel> {
    match baseline {
        Some(known) => Some(known.deep_view()),
        None => None,
    }
}

fn trend_json(language: &str, mutation: &MutationMetrics, baseline: Option<&QualityBaseline>) -> (r:
    Json)
    requires
        baseline matches Some(known) ==> comparable(
            mutants_only(mutation.deep_view()),
            known.deep_view(),
        ),
    ensures
        r.deep_view() == trend_document(language@, mutation.deep_view(), baseline_view(baseline)),
{
    let mut quality = VerificationQuality::default();
    quality.mutation = mutation.clone();
    let delta = match baseline {
        Some(known) => quality_delta_json(&quality_delta(&quality, 0, known)),
        None => Json::Null,
    };
    let mut members = Members::new();
    members.put("version", number(1));
    members.put("language", text(language));
    members.put("mutation", mutation_metrics_json(mutation));
    members.put("baseline_delta", delta);
    members.put("threshold_hints", threshold_json(mutation, baseline.is_some()));
    assert(members.model() =~= trend_document(
        language@,
        mutation.deep_view(),
        baseline_view(baseline),
    )->Object_0);
    members.finish()
}

/// Whether the trend of a report can be computed: every number fits.
pub open spec fn trend_fits(
    report: VerificationReportModel,
    baseline: Option<QualityBaselineModel>,
) -> bool {
    &&& mutants_fit(report, Seq::empty())
    &&& campaign_of(report).generated > 0 && baseline is Some ==> comparable(
        mutants_only(campaign_of(report)),
        baseline->0,
    )
}

/// The trend of the mutants of a report; nothing where there are none.
pub open spec fn trend_artifacts(
    language: Seq<char>,
    report: VerificationReportModel,
    baseline: Option<QualityBaselineModel>,
) -> Seq<GeneratedArtifactModel> {
    let mutation = campaign_of(report);
    if mutation.generated == 0 {
        Seq::empty()
    } else {
        seq![
            planned(
                language + "-mutation-trend"@,
                language,
                ArtifactKind::MutationTrend,
                language + ":mutation"@,
                ".veritas/trends/"@ + language + "_mutation.json"@,
                pretty_json(trend_document(language, mutation, baseline)),
                "Mutation score attribution and baseline trend data"@,
            ),
        ]
    }
}

/// The trend of the mutants of a report, where every number fits.
pub fn mutation_trend_artifacts(
    language: &str,
    report: &VerificationReport,
    baseline: Option<&QualityBaseline>,
) -> (r: Option<Vec<GeneratedArtifact>>)
    ensures
        r is Some == trend_fits(report.deep_view(), baseline_view(baseline)),
        r matches Some(list) ==> list.deep_view() == trend_artifacts(
            language@,
            report.deep_view(),
            baseline_view(baseline),
        ),
{
    let mutation = match measure_campaign(report) {
        Some(mutation) => mutation,
        None => return None,
    };
    let mut out: Vec<GeneratedArtifact> = Vec::new();
    if mutation.generated > 0 {
        if let Some(known) = baseline {
            if !counts_compare(mutation.survived, known.quality.mutation.survived)
                || !counts_compare(0, known.quality.regression.corpus_entries) {
                return None;
            }
        }
        out.push(
            plan_artifact(
                cat2(language, "-mutation-trend"),
                language,
                ArtifactKind::MutationTrend,
                cat2(language, ":mutation"),
                cat3(".veritas/trends/", language, "_mutation.json"),
                pretty(&trend_json(language, &mutation, baseline)),
                "Mutation score attribution and baseline trend data",
            ),
        );
    }
    assert(out.deep_view() =~= trend_artifacts(
        language@,
        report.deep_view(),
        baseline_view(baseline),
    ));
    Some(out)
}

// ---------------------------------------------------------------------------
// Campaigns
// ---------------------------------------------------------------------------
/// Where the files of each mutant of a campaign are.
pub open spec fn run_outputs_document() -> JsonModel {
    JsonModel::Object(
        seq![
            ("records"@, JsonModel::Text("records/{mutant}.json"@)),
            ("logs"@, JsonModel::Text("logs/{mutant}.{command,stdout,stderr}.log"@)),
        ],
    )
}

fn run_outputs_json() -> (r: Json)
    ensures
        r.deep_view() == run_outputs_document(),
{
    let mut members = Members::new();
    members.put("records", text("records/{mutant}.json"));
    members.put("logs", text("logs/{mutant}.{command,stdout,stderr}.log"));
    assert(members.model() =~= run_outputs_document()->Object_0);
    members.finish()
}

/// Where the files of a campaign are.
pub open spec fn layout_document(language: Seq<char>) -> JsonModel {
    JsonModel::Object(
        seq![
            ("campaign"@, JsonModel::Text(".veritas/mutations/"@ + language + "_campaign.json"@)),
            ("progress"@, JsonModel::Text(".veritas/mutations/"@ + language + "_progress.md"@)),
            ("repros"@, JsonModel::Text(".veritas/repros"@)),
            ("scratch_roots"@, JsonModel::Text("created outside the project and removed when workers finish"@)),
            ("run_outputs"@, run_outputs_document()),
        ],
    )
}

fn layout_json(language: &str) -> (r: Json)
    ensures
        r.deep_view() == layout_document(language@),
{
    let mut members = Members::new();
    members.put("campaign", text(cat3(".veritas/mutations/", language, "_campaign.json").as_str()));
    members.put("progress", text(cat3(".veritas/mutations/", language, "_progress.md").as_str()));
    members.put("repros", text(".veritas/repros"));
    members.put("scratch_roots", text("created outside the project and removed when workers finish"));
    members.put("run_outputs", run_outputs_json());
    assert(members.model() =~= layout_document(language@)->Object_0);
    members.finish()
}

/// A campaign.
pub open spec fn campaign_document(
    language: Seq<char>,
    output_statuses: Seq<Seq<char>>,
    mutation: MutationMetricsModel,
) -> JsonModel {
    JsonModel::Object(
        seq![
            ("version"@, JsonModel::Number(decimal(1))),
            ("language"@, JsonModel::Text(language)),
            ("layout"@, layout_document(language)),
            ("output_statuses"@, texts_model(output_statuses)),
            ("metrics"@, mutation_metrics_document(mutation)),
            ("records"@, JsonModel::Array(mutation_record_documents(mutation.records))),
        ],
    )
}

fn campaign_json(
    language: &str,
    output_statuses: &Vec<String>,
    mutation: &MutationMetrics,
) -> (r: Json)
    ensures
        r.deep_view() == campaign_document(language@, output_statuses.deep_view(), mutation.deep_view()),
{
    let mut members = Members::new();
    members.put("version", number(1));
    members.put("language", text(language));
    members.put("layout", layout_json(language));
    members.put("output_statuses", texts(output_statuses));
    members.put("metrics", mutation_metrics_json(mutation));
    members.put("records", mutation_record_list(&mutation.records));
    assert(members.model() =~= campaign_document(language@, output_statuses.deep_view(), mutation.deep_view())->Object_0);
    members.finish()
}

/// Whether a mutant shows a gap in the tests.
pub open spec fn is_gap(status: MutationStatus) -> bool {
    status == MutationStatus::Lived || status == MutationStatus::NotCovered || status
        == MutationStatus::TimedOut
}

/// The line on a mutant that shows a gap.
pub open spec fn gap_line_text(record: MutationRecordModel) -> Seq<char> {
    let t = Seq::<char>::empty();
    let t = if is_gap(record.status) {
        let t = t
            + "- `"@
            + status_words_of(record.status)
            + "` `"@
            + record.domain
            + "`/`"@
            + record.operator
            + "` in `"@
            + record.symbol
            + "`: "@
            + or_text(record.suggested_test, "add a behavior-focused regression assertion"@)
            + "\n"@;
        let t = match record.outcome_path {
            Some(path) => {
                let t = t + "  - Artifacts: outcome `"@ + path + "`\n"@;
                t
            },
            None => t,
        };
        t
    } else {
        t
    };
    t
}

fn gap_line(record: &MutationRecord) -> (r: String)
    ensures
        r@ == gap_line_text(record.deep_view()),
{
    let mut out = String::new();
    assert(out@ =~= Seq::<char>::empty());
    if record.status == MutationStatus::Lived || record.status == MutationStatus::NotCovered
        || record.status == MutationStatus::TimedOut {
        out.append("- `");
        out.append(mutation_status_label(record.status));
        out.append("` `");
        out.append(record.domain.as_str());
        out.append("`/`");
        out.append(record.operator.as_str());
        out.append("` in `");
        out.append(record.symbol.as_str());
        out.append("`: ");
        out.append(text_or(&record.suggested_test, "add a behavior-focused regression assertion").as_str());
        out.append("\n");
        if let Some(path) = &record.outcome_path {
            out.append("  - Artifacts: outcome `");
            out.append(path.as_str());
            out.append("`\n");
        }
    }
    out
}

/// The lines on the mutants that show gaps.
pub open spec fn gap_lines(items: Seq<MutationRecordModel>) -> Seq<char>
    decreases items.len(),
{
    if items.len() == 0 {
        Seq::empty()
    } else {
        gap_lines(items.drop_last()) + gap_line_text(items.last())
    }
}

fn push_gap_lines(out: &mut String, items: &Vec<MutationRecord>)
    ensures
        final(out)@ == old(out)@ + gap_lines(items.deep_view()),
{
    let ghost before = out@;
    let ghost all = items.deep_view();
    let mut i: usize = 0;
    assert(out@ == before + gap_lines(all.take(0)));
    while i < items.len()
        invariant
            i <= items@.len(),
            all == items.deep_view(),
            out@ == before + gap_lines(all.take(i as int)),
        decreases items@.len() - i,
    {
        proof {
            lemma_take_next(all, i as int);
        }
        let ghost so_far = out@;
        out.append(gap_line(&items[i]).as_str());
        i = i + 1;
        assert(out@ == before + gap_lines(all.take(i as int)));
    }
    proof {
        lemma_take_all(all);
    }
}

/// The progress of a campaign.
pub open spec fn progress_text(language: Seq<char>, mutation: MutationMetricsModel) -> Seq<char> {
    let t = "# "@
        + language
        + " mutation campaign\n\n- Generated: `"@
        + decimal(mutation.generated as int)
        + "`\n- Runnable: `"@
        + decimal(mutation.runnable as int)
        + "`\n- Executed: `"@
        + decimal(mutation.executed as int)
        + "`\n- Killed: `"@
        + decimal(mutation.killed as int)
        + "`\n- Survived: `"@
        + decimal(mutation.survived as int)
        + "`\n- Not covered: `"@
        + decimal(mutation.not_covered as int)
        + "`\n- Timed out: `"@
        + decimal(mutation.timed_out as int)
        + "`\n- Not viable: `"@
        + decimal(mutation.not_viable as int)
        + "`\n- Skipped: `"@
        + decimal(mutation.skipped as int)
        + "`\n- Workers: requested `"@
        + decimal(mutation.requested_workers as int)
        + "`, effective `"@
        + decimal(mutation.effective_workers as int)
        + "`\n\n## Survivors And Gaps\n\n"@
        + gap_lines(mutation.records);
    t
}

fn progress(language: &str, mutation: &MutationMetrics) -> (r: String)
    ensures
        r@ == progress_text(language@, mutation.deep_view()),
{
    let mut out = owned("# ");
    out.append(language);
    out.append(" mutation campaign\n\n- Generated: `");
    out.append(print_usize(mutation.generated).as_str());
    out.append("`\n- Runnable: `");
    out.append(print_usize(mutation.runnable).as_str());
    out.append("`\n- Executed: `");
    out.append(print_usize(mutation.executed).as_str());
    out.append("`\n- Killed: `");
    out.append(print_usize(mutation.killed).as_str());
    out.append("`\n- Survived: `");
    out.append(print_usize(mutation.survived).as_str());
    out.append("`\n- Not covered: `");
    out.append(print_usize(mutation.not_covered).as_str());
    out.append("`\n- Timed out: `");
    out.append(print_usize(mutation.timed_out).as_str());
    out.append("`\n- Not viable: `");
    out.append(print_usize(mutation.not_viable).as_str());
    out.append("`\n- Skipped: `");
    out.append(print_usize(mutation.skipped).as_str());
    out.append("`\n- Workers: requested `");
    out.append(print_usize(mutation.requested_workers).as_str());
    out.append("`, effective `");
    out.append(print_usize(mutation.effective_workers).as_str());
    out.append("`\n\n## Survivors And Gaps\n\n");
    push_gap_lines(&mut out, &mutation.records);
    out
}

/// The mutants of a report of which those are kept that are shown.
pub open spec fn shown_campaign(
    report: VerificationReportModel,
    output_statuses: Seq<Seq<char>>,
) -> MutationMetricsModel {
    let mutation = campaign_of(report);
    MutationMetricsModel { records: shown_records(mutation.records, output_statuses), ..mutation }
}

/// The artifacts of a campaign: its records, and its progress; nothing where no mutant
/// was made.
pub open spec fn campaign_artifacts(
    language: Seq<char>,
    report: VerificationReportModel,
    output_statuses: Seq<Seq<char>>,
) -> Seq<GeneratedArtifactModel> {
    let all = campaign_of(report);
    let mutation = shown_campaign(report, output_statuses);
    if all.generated == 0 && all.records.len() == 0 {
        Seq::empty()
    } else {
        seq![
            planned(
                language + "-mutation-campaign"@,
                language,
                ArtifactKind::MutationCampaign,
                language + ":mutation-campaign"@,
                ".veritas/mutations/"@ + language + "_campaign.json"@,
                pretty_json(campaign_document(language, output_statuses, mutation)),
                "Per-mutant campaign records and status metrics"@,
            ),
            planned(
                language + "-mutation-progress"@,
                language,
                ArtifactKind::MutationCampaign,
                language + ":mutation-progress"@,
                ".veritas/mutations/"@ + language + "_progress.md"@,
                progress_text(language, mutation),
                "Human-readable mutation progress and survivor queue"@,
            ),
        ]
    }
}

/// The artifacts of a campaign, where every number fits.
#[verifier::spinoff_prover]
#[verifier::rlimit(60)]
pub fn mutation_campaign_artifacts(
    language: &str,
    report: &VerificationReport,
    output_statuses: &Vec<String>,
) -> (r: Option<Vec<GeneratedArtifact>>)
    ensures
        r is Some == mutants_fit(report.deep_view(), Seq::empty()),
        r matches Some(list) ==> list.deep_view() == campaign_artifacts(
            language@,
            report.deep_view(),
            output_statuses.deep_view(),
        ),
{
    let mut mutation = match measure_campaign(report) {
        Some(mutation) => mutation,
        None => return None,
    };
    let mut out: Vec<GeneratedArtifact> = Vec::new();
    assert(mutation.records@.len() == mutation.records.deep_view().len());
    if mutation.generated == 0 && mutation.records.len() == 0 {
        assert(out.deep_view() =~= Seq::<GeneratedArtifactModel>::empty());
        return Some(out);
    }
    mutation.records = filtered_mutation_records(&mutation.records, output_statuses);
    out.push(
        plan_artifact(
            cat2(language, "-mutation-campaign"),
            language,
            ArtifactKind::MutationCampaign,
            cat2(language, ":mutation-campaign"),
            cat3(".veritas/mutations/", language, "_campaign.json"),
            pretty(&campaign_json(language, output_statuses, &mutation)),
            "Per-mutant campaign records and status metrics",
        ),
    );
    out.push(
        plan_artifact(
            cat2(language, "-mutation-progress"),
            language,
            ArtifactKind::MutationCampaign,
            cat2(language, ":mutation-progress"),
            cat3(".veritas/mutations/", language, "_progress.md"),
            progress(language, &mutation),
            "Human-readable mutation progress and survivor queue",
        ),
    );
    assert(out.deep_view() =~= campaign_artifacts(
        language@,
        report.deep_view(),
        output_statuses.deep_view(),
    ));
    Some(out)
}

} // verus!
