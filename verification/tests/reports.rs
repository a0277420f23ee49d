//! Reports: their scores, what is kept of them, and what is made of them.
use veritas::api::{
    ArtifactKind, ArtifactStatus, CommandRecord, Failure, FailureSeverity, GeneratedArtifact,
    LineRange, ProjectInfo, ReproCase, RiskLevel, RunStatus, TargetKind, TestRunResult,
    VerificationPlan, VerificationReport, VerificationStrategy, VerificationTarget,
};
use veritas::attribution::{
    can_compute_percentages, can_compute_strength, finalize_mutation_percentages,
    merge_mutation_attribution, percent_share, property_strength_score,
};
use veritas::cache::{
    build_target_cache, is_valid_target_cache, parse_target_cache, target_cache_text, FileFact,
    TargetCacheSource,
};
use veritas::changes::ChangedFile;
use veritas::config::{PlannerMode, VeritasConfig};
use veritas::corpus::{
    corpus_step, is_executable_replay_command, parse_corpus_entry, replay_corpus, CorpusReplay,
    CorpusStep,
};
use veritas::engine::{
    quality_baseline, read_saved_report, report_path, save_quality_baseline, save_report, start_changed,
    unchanged_report, ChangedWork, CombinedRun, CoreEngine, PluginRegistry, RegisteredPlugin,
};
use veritas::evolve::{
    check_evolve_request, discover_single_evolution_suite, evaluate_evolution, evolve,
    evolution_evaluation_keeps_candidates, evolution_generation_artifact, is_asked_for,
    latest_generation_name, next_evolution_generation, parse_evolution_generation,
    parse_evolution_suite, EvolveRequest,
};
use veritas::findings::corpus_entry_artifacts;
use veritas::metrics::{AttributionEntry, MutationAttribution, MutationMetrics, PropertyMetrics};
use veritas::planner::{external_planner, read_planner_answer, DeterministicPlanner};
use veritas::quality::{refresh_report_quality, MutantLabels};
use veritas::records::{
    AssertionSource, ConfidenceGrade, CorpusEntry, EvolutionCandidateKind, EvolutionCandidateStatus,
    EvolutionOutcome, EvolutionStrategy, EvolveCandidateSummary, QualityBaseline,
};
use veritas::score::{
    accept_quality_baseline, can_be_compared, can_be_scored, can_compare_reports, confidence_score,
    confidence_score_for_root, confidence_score_with_baseline, evolution_quality_delta,
    skipped_run, strategy_from_kind,
};

fn text(value: &str) -> String {
    value.to_string()
}

fn texts(values: &[&str]) -> Vec<String> {
    values.iter().map(|value| value.to_string()).collect()
}

fn project() -> ProjectInfo {
    ProjectInfo {
        language: text("go"),
        name: text("sample"),
        root: text("/repo"),
        manifests: texts(&["go.mod"]),
    }
}

fn target(symbol: &str) -> VerificationTarget {
    VerificationTarget {
        id: format!("go:pkg/a.go:{symbol}"),
        language: text("go"),
        kind: TargetKind::Function,
        path: text("pkg/a.go"),
        symbol: Some(text(symbol)),
        signature: Some(format!("func {symbol}(value string) string")),
        line_range: Some(LineRange { start: 3, end: 9 }),
        description: text("function"),
        risk: RiskLevel::High,
    }
}

fn finding(message: &str) -> Failure {
    Failure {
        id: Some(text("vts-1")),
        message: text(message),
        severity: FailureSeverity::Warning,
        target_id: Some(text("go:pkg/a.go:Parse")),
        artifact_id: None,
        command: text("go test ./pkg"),
        stdout_excerpt: String::new(),
        stderr_excerpt: String::new(),
        repro: Some(ReproCase {
            command: text("go test ./pkg -run Fuzz"),
            input: Some(text("\"x\"")),
            path: None,
        }),
    }
}

fn command(status: RunStatus) -> CommandRecord {
    CommandRecord {
        program: text("go"),
        args: texts(&["test", "./..."]),
        cwd: text("/repo"),
        exit_code: Some(if status == RunStatus::Passed { 0 } else { 1 }),
        status,
        stdout: String::new(),
        stderr: String::new(),
        duration_ms: 7,
    }
}

fn entry() -> CorpusEntry {
    CorpusEntry {
        language: text("go"),
        target_id: text("go:pkg/a.go:Parse"),
        finding_id: Some(text("vts-1")),
        source: AssertionSource::FuzzRepro,
        input: Some(text("\"x\"")),
        path: None,
        replay_command: text("go test ./pkg -run Fuzz"),
    }
}

fn rich_report() -> VerificationReport {
    let mut report = VerificationReport::empty();
    report.project = Some(project());
    report.targets = vec![target("Parse")];
    report.findings = vec![finding("mutation survived")];
    report.quality.mutation.generated = 4;
    report.quality.mutation.executed = 4;
    report.quality.mutation.killed = 3;
    report.quality.mutation.survived = 1;
    report.quality.mutation.score_percent = Some(75);
    report.quality.regression.assertion_candidates = 1;
    report.quality.replay.cases = 2;
    report.suggested_next_steps = texts(&["run it again"]);
    report
}

fn candidate(applied: bool) -> EvolveCandidateSummary {
    EvolveCandidateSummary {
        index: 0,
        id: text("evolve-1"),
        target_id: text("go:pkg/a.go:Parse"),
        kind: EvolutionCandidateKind::Mutation,
        strategy: EvolutionStrategy::AddAssertion,
        status: EvolutionCandidateStatus::Selected,
        fitness_percent: 95,
        proposed_action: text("assert"),
        keep_if: text("killed"),
        proof_commands: texts(&["veritas score"]),
        done_when: texts(&["killed"]),
        applied,
        skipped_reason: None,
        written_paths: texts(&["pkg/veritas_regression_0_test.go"]),
    }
}

#[test]
fn an_empty_report_has_a_medium_score() {
    let report = VerificationReport::empty();
    assert!(can_be_scored(&report));
    let score = confidence_score(&report);
    assert_eq!(score.score, 55);
    assert_eq!(score.grade, ConfidenceGrade::Medium);
    assert_eq!(score.summary, "useful signal with remaining promotion or replay work");
    assert_eq!(score.positive_signals, texts(&["no active findings"]));
    assert_eq!(score.risks, texts(&["mutation checks did not execute"]));
    assert_eq!(score.baseline_delta, None);
}

#[test]
fn every_signal_has_its_weight() {
    let score = confidence_score(&rich_report());
    assert_eq!(score.score, 45 + 25 - 6 + 6 + 5 - 2);
    let mut more = rich_report();
    more.quality.mutation.survived = 2;
    assert_eq!(confidence_score(&more).score, score.score - 6);
    more.quality.property.generated_artifacts = 1;
    more.quality.fuzz.targets_executed = 1;
    more.quality.evolution.selected = 1;
    assert_eq!(confidence_score(&more).score, score.score - 6 + 8 + 8 + 4);
    more.quality.budget.timed_out_commands = 1;
    more.quality.budget.skipped_commands = 1;
    assert_eq!(confidence_score(&more).score, score.score - 6 + 8 + 8 + 4 - 12 - 6);
}

#[test]
fn the_score_does_not_depend_on_a_baseline() {
    let report = rich_report();
    let (baseline, summary) = accept_quality_baseline(&report, None, None);
    assert_eq!(baseline.confidence, confidence_score(&report).score);
    assert_eq!(summary.confidence, baseline.confidence);
    assert_eq!(summary.mutation_score, Some(75));
    assert!(can_be_compared(&report, Some(&baseline)));
    let scored = confidence_score_with_baseline(&report, Some(&baseline));
    assert_eq!(scored.score, confidence_score(&report).score);
    let delta = scored.baseline_delta.expect("delta");
    assert_eq!(delta.mutation_score_delta, Some(0));
    assert_eq!(delta.confidence_delta, 0);
    assert_eq!(delta.surviving_mutants_delta, 0);
    assert_eq!(delta.corpus_entries_delta, 0);

    let mut worse = rich_report();
    worse.quality.mutation.score_percent = Some(50);
    worse.quality.mutation.survived = 2;
    let scored = confidence_score_with_baseline(&worse, Some(&baseline));
    assert!(scored.risks.contains(&text("mutation score regressed by 25 point(s) from baseline")));
    assert!(scored.risks.contains(&text("1 more surviving mutant(s) than baseline")));
}

#[test]
fn a_report_is_read_back_as_it_was_saved() {
    let report = rich_report();
    let saved = save_report(&report);
    assert_eq!(read_saved_report(&saved), Some(report));
    assert_eq!(read_saved_report("{}"), None);
    assert_eq!(read_saved_report("{"), None);
}

#[test]
fn a_quality_baseline_is_read_back_as_it_was_saved() {
    let baseline = QualityBaseline { version: 1, quality: rich_report().quality, confidence: 73 };
    let saved = save_quality_baseline(&baseline);
    assert_eq!(quality_baseline(&saved), Some(baseline));
    assert_eq!(quality_baseline("[]"), None);
}

#[test]
fn a_report_compared_with_itself_is_neutral() {
    let report = rich_report();
    assert!(can_compare_reports(&report, &report));
    let same = evaluate_evolution(Some(&report), Ok(&report));
    assert_eq!(same.outcome, EvolutionOutcome::Neutral);
    assert!(!evolution_evaluation_keeps_candidates(same.outcome));
    let mut better = rich_report();
    better.quality.mutation.killed = 4;
    better.quality.mutation.survived = 0;
    better.quality.mutation.score_percent = Some(100);
    assert_eq!(evolution_quality_delta(&report, &better).mutation_score_delta, Some(25));
    assert_eq!(evaluate_evolution(Some(&report), Ok(&better)).outcome, EvolutionOutcome::Improved);
    assert_eq!(evaluate_evolution(Some(&better), Ok(&report)).outcome, EvolutionOutcome::Regressed);
    let failed = evaluate_evolution(Some(&report), Err(&text("no run")));
    assert_eq!(failed.outcome, EvolutionOutcome::FailedToEvaluate);
    assert_eq!(failed.error, Some(text("no run")));
}

#[test]
fn the_latest_generation_is_a_signal() {
    let evaluation = evaluate_evolution(None, Err(&text("no run")));
    let artifact = evolution_generation_artifact(
        "go",
        3,
        ".veritas/evolution/go_suite.json",
        99,
        &vec![candidate(true)],
        &Some(evaluation),
        &texts(&["pkg/veritas_regression_0_test.go"]),
    );
    assert_eq!(artifact.path, ".veritas/evolution/go_generation_3.json");
    let generation = parse_evolution_generation(&artifact.contents).expect("generation");
    assert_eq!(generation.generation, 3);
    assert_eq!(generation.created_unix_seconds, 99);
    assert_eq!(generation.candidates.len(), 1);
    let score = confidence_score_for_root(&VerificationReport::empty(), None, Some(&generation));
    assert!(score.risks.contains(&text(
        "latest evolution generation 3 ended as FailedToEvaluate with 1 applied candidate(s)"
    )));
    assert_eq!(parse_evolution_generation("{}"), None);
}

#[test]
fn generations_are_numbered_on() {
    let names = texts(&["go_generation_2.json", "go_generation_10.json", "rust_generation_11.json"]);
    assert_eq!(next_evolution_generation("go", &names), 11);
    assert_eq!(next_evolution_generation("python", &names), 1);
    assert_eq!(latest_generation_name(&names), Some(2));
    assert_eq!(latest_generation_name(&texts(&["notes.md"])), None);
}

#[test]
fn one_suite_must_be_named() {
    assert_eq!(
        discover_single_evolution_suite(&texts(&[".veritas/evolution/go_suite.json"])),
        Ok(text(".veritas/evolution/go_suite.json"))
    );
    assert!(discover_single_evolution_suite(&Vec::new()).is_err());
    assert!(discover_single_evolution_suite(&texts(&["a_suite.json", "b_suite.json"])).is_err());
    assert_eq!(parse_evolution_suite("{}"), None);
    assert_eq!(parse_evolution_suite("no"), None);
}

#[test]
fn an_evolution_must_say_what_to_apply() {
    assert!(check_evolve_request(true, None, false).is_ok());
    assert!(check_evolve_request(false, Some(1), false).is_ok());
    assert!(check_evolve_request(false, None, true).is_ok());
    assert!(check_evolve_request(false, None, false).is_err());
    assert!(is_asked_for(false, Some(1), false, 1, EvolutionCandidateStatus::Proposed));
    assert!(!is_asked_for(false, Some(1), false, 0, EvolutionCandidateStatus::Selected));
    assert!(is_asked_for(false, None, true, 0, EvolutionCandidateStatus::Selected));
    assert!(!is_asked_for(false, None, true, 0, EvolutionCandidateStatus::Proposed));
}

#[test]
fn percentages_are_parts_of_a_hundred() {
    assert_eq!(percent_share(1, 3), Some(33));
    assert_eq!(percent_share(1, 0), None);
    let mut metrics = MutationMetrics {
        generated: 10,
        executed: 4,
        killed: 3,
        survived: 1,
        not_covered: 4,
        ..Default::default()
    };
    assert!(can_compute_percentages(&metrics));
    finalize_mutation_percentages(&mut metrics);
    assert_eq!(metrics.score_percent, Some(75));
    assert_eq!(metrics.efficacy_percent, Some(75));
    assert_eq!(metrics.mutant_coverage_percent, Some(50));
    let property = PropertyMetrics {
        generated_artifacts: 1,
        no_panic_properties: 1,
        deterministic_properties: 1,
        invariant_properties: 0,
        failed_generated_tests: 0,
        strength_score_percent: None,
    };
    assert!(can_compute_strength(&property));
    assert_eq!(property_strength_score(&property), Some(50));
    assert_eq!(property_strength_score(&PropertyMetrics::default()), None);
}

#[test]
fn attributions_add_up_by_label() {
    let one = |label: &str, killed: usize| AttributionEntry {
        label: text(label),
        counts: MutationAttribution { killed, ..Default::default() },
    };
    let mut target = vec![one("money", 1)];
    merge_mutation_attribution(&mut target, &vec![one("boundary", 2), one("money", 3)]);
    assert_eq!(target, vec![one("boundary", 2), one("money", 4)]);
}

#[test]
fn measuring_a_report_twice_changes_nothing() {
    let mut report = rich_report();
    report.runs = vec![TestRunResult {
        language: text("go"),
        status: RunStatus::Failed,
        commands: vec![command(RunStatus::Failed), command(RunStatus::Skipped)],
        failures: vec![finding("mutation survived")],
        duration_ms: 14,
        quality: Default::default(),
    }];
    let labels = vec![MutantLabels { domain: text("general"), operator: text("unknown") }];
    assert!(refresh_report_quality(&mut report, &labels));
    let once = save_report(&report);
    assert!(refresh_report_quality(&mut report, &labels));
    assert_eq!(save_report(&report), once);
}

#[test]
fn a_cache_holds_while_nothing_changes() {
    let cache = build_target_cache(
        "go",
        100,
        &Some(text("abc")),
        vec![TargetCacheSource { path: text("pkg/a.go"), len: 10, modified_unix_seconds: 5 }],
        &vec![target("Parse")],
    );
    let saved = target_cache_text(&cache);
    let read = parse_target_cache(&saved).expect("cache");
    assert_eq!(read, cache);
    let fact = |len: u64| Some(FileFact { len, modified_unix_seconds: Some(5) });
    assert!(is_valid_target_cache(&read, "go", &Some(text("abc")), &vec![fact(10)]));
    assert!(!is_valid_target_cache(&read, "go", &Some(text("abd")), &vec![fact(10)]));
    assert!(!is_valid_target_cache(&read, "rust", &Some(text("abc")), &vec![fact(10)]));
    assert!(!is_valid_target_cache(&read, "go", &Some(text("abc")), &vec![fact(11)]));
    assert!(!is_valid_target_cache(&read, "go", &Some(text("abc")), &vec![None]));
    assert_eq!(parse_target_cache("{}"), None);
}

#[test]
fn corpus_entries_are_read_back_and_replayed() {
    let artifacts = corpus_entry_artifacts("go", &vec![finding("fuzz failure")]);
    assert_eq!(artifacts.len(), 1);
    let read = parse_corpus_entry(&artifacts[0].contents).expect("entry");
    assert_eq!(read.target_id, "go:pkg/a.go:Parse");
    assert_eq!(read.replay_command, "go test ./pkg -run Fuzz");
    assert_eq!(parse_corpus_entry("{}"), None);

    assert!(is_executable_replay_command(" cargo test"));
    assert!(!is_executable_replay_command("replace `<` with `>` and run tests"));
    assert_eq!(corpus_step(&entry(), false), CorpusStep::Execute);
    assert_eq!(corpus_step(&entry(), true), CorpusStep::DryRun);
    let mut guidance = entry();
    guidance.replay_command = text("look at it");
    assert_eq!(corpus_step(&guidance, false), CorpusStep::Guidance);

    let mut replay = CorpusReplay::new();
    replay.record(&entry(), command(RunStatus::Passed));
    replay.record(&entry(), command(RunStatus::Failed));
    replay.skip("/repo", &guidance, CorpusStep::Guidance);
    let run = replay.finish(30);
    assert_eq!(run.status, RunStatus::Failed);
    assert_eq!(run.commands.len(), 3);
    assert_eq!(run.failures.len(), 1);
    assert_eq!(run.quality.regression.corpus_replayed, 2);
    assert_eq!(run.quality.regression.corpus_passed, 1);
    assert_eq!(run.quality.regression.corpus_failed, 1);
    assert_eq!(run.quality.regression.corpus_skipped, 1);
    let report = replay_corpus(run);
    assert_eq!(report.findings.len(), 1);
}

#[test]
fn external_plans_stay_within_the_default() {
    let mut config = VeritasConfig::default();
    assert!(external_planner(&config).is_none());
    config.planner.mode = PlannerMode::ExternalLlm;
    assert!(external_planner(&config).is_none());
    config.planner.command = Some(text("plan"));
    config.write_generated_tests = false;
    config.budget_seconds = 60;
    let planner = external_planner(&config).expect("planner");
    let default_plan = planner.fallback.make_plan(&target("Parse"));
    let wild = VerificationPlan {
        target_id: text("other"),
        strategies: vec![VerificationStrategy::Fuzzing],
        budget_seconds: 9999,
        write_generated_tests: true,
        run_existing_tests: true,
        run_generated_tests: true,
        fail_on_generated_test_failure: !default_plan.fail_on_generated_test_failure,
    };
    let plan = planner.plan_from_answer(&target("Parse"), Ok(Some(wild))).expect("plan");
    assert_eq!(plan.target_id, "go:pkg/a.go:Parse");
    assert_eq!(plan.budget_seconds, 60);
    assert_eq!(plan.strategies, vec![VerificationStrategy::Fuzzing]);
    assert!(!plan.write_generated_tests);
    assert_eq!(plan.fail_on_generated_test_failure, default_plan.fail_on_generated_test_failure);
    let kept = planner.plan_from_answer(&target("Parse"), Ok(None)).expect("plan");
    assert_eq!(kept, default_plan);
    assert!(planner.request(&project(), &target("Parse")).contains("go:pkg/a.go:Parse"));
}

#[test]
fn planner_errors_are_kept_or_forgiven() {
    let mut config = VeritasConfig::default();
    config.planner.mode = PlannerMode::ExternalLlm;
    config.planner.command = Some(text("plan"));
    config.planner.fail_on_error = true;
    let strict = external_planner(&config).expect("planner");
    assert_eq!(
        strict.plan_from_answer(&target("Parse"), Err(text("exit 1"))),
        Err(text("exit 1"))
    );
    config.planner.fail_on_error = false;
    let lenient = external_planner(&config).expect("planner");
    assert_eq!(
        lenient.plan_from_answer(&target("Parse"), Err(text("exit 1"))),
        Ok(DeterministicPlanner::new(config).make_plan(&target("Parse")))
    );
    assert_eq!(read_planner_answer("  \n"), Ok(None));
    assert_eq!(read_planner_answer("{\"plan\": null}"), Ok(None));
    assert!(read_planner_answer("nonsense").is_err());
}

#[test]
fn strategies_are_named() {
    assert_eq!(strategy_from_kind("fuzz"), Ok(VerificationStrategy::Fuzzing));
    assert_eq!(strategy_from_kind("mutation"), Ok(VerificationStrategy::MutationChecks));
    assert!(strategy_from_kind("magic").is_err());
    assert_eq!(skipped_run("go").status, RunStatus::Skipped);
}

#[test]
fn plugins_are_found_by_language() {
    let registry = PluginRegistry::new(vec![RegisteredPlugin { id: text("go"), plugin: 7u8 }]);
    assert_eq!(registry.plugins().len(), 1);
    assert_eq!(registry.get("go"), Ok(&7u8));
    assert!(registry.get("cobol").is_err());
    let engine = CoreEngine::new(VeritasConfig::default());
    assert_eq!(engine.budget().total_seconds, engine.config().budget_seconds);
}

#[test]
fn combined_runs_gather_every_failure() {
    let mut combined = CombinedRun::new();
    let run = |message: &str| TestRunResult {
        language: text("go"),
        status: RunStatus::Failed,
        commands: Vec::new(),
        failures: vec![finding(message)],
        duration_ms: 1,
        quality: Default::default(),
    };
    combined.add_run(project(), vec![target("Parse")], run("one"));
    combined.add_run(project(), vec![target("Format")], run("two"));
    let report = combined.run(&Some(text("go")));
    assert_eq!(
        report.findings.iter().map(|finding| finding.message.as_str()).collect::<Vec<_>>(),
        vec!["one", "two"]
    );
    assert_eq!(report.targets.len(), 2);
    assert!(unchanged_report().findings.is_empty());
}

#[test]
fn changed_files_are_looked_for_before_plugins() {
    let report = start_changed(&Vec::new()).expect("nothing changed");
    assert_eq!(report, unchanged_report());
    assert_eq!(
        report.suggested_next_steps,
        vec![text("No changed files were detected from git diff or untracked files.")]
    );
    let changed = vec![ChangedFile {
        path: text("pkg/a.go"),
        ranges: vec![LineRange { start: 4, end: 5 }],
    }];
    assert!(start_changed(&changed).is_none());
    let own = vec![target("Parse")];
    assert!(ChangedWork::start("rust", &own, &changed).is_none());
    let mut work = ChangedWork::start("go", &own, &changed).expect("changed target");
    let mut expected = own.clone();
    expected[0].description = text("changed function");
    assert_eq!(work.targets, expected);
    assert!(ChangedWork::start("go", &own, &changed).expect("work").finish(None).is_none());
    let plan = |id: &str| VerificationPlan {
        target_id: text(id),
        strategies: vec![VerificationStrategy::Fuzzing],
        budget_seconds: 60,
        write_generated_tests: false,
        run_existing_tests: true,
        run_generated_tests: true,
        fail_on_generated_test_failure: false,
    };
    work.add_target(&plan("first"), Vec::new());
    work.add_target(&plan("second"), Vec::new());
    let (kept, targets, artifacts) = work.finish(None).expect("work");
    assert_eq!(kept, plan("first"));
    assert_eq!(targets, expected);
    assert!(artifacts.is_empty());
}

#[test]
fn artifacts_of_a_report_survive_saving() {
    assert_eq!(report_path(), ".veritas/report.json");
    let mut report = rich_report();
    report.artifacts = vec![GeneratedArtifact {
        id: text("go-plan"),
        language: text("go"),
        kind: ArtifactKind::EvolutionPlan,
        target_id: text("go:evolution"),
        path: text(".veritas/evolution/go.md"),
        contents: text("line \"one\"\n\ttwo \u{1} \u{2028} ü"),
        description: text("plan"),
        status: ArtifactStatus::Written,
    }];
    let read = read_saved_report(&save_report(&report)).expect("report");
    assert_eq!(read.artifacts, report.artifacts);
}

#[test]
fn rejected_evolutions_are_undone() {
    let report = rich_report();
    let mut worse = rich_report();
    worse.quality.mutation.survived = 2;
    worse.quality.mutation.killed = 2;
    worse.quality.mutation.score_percent = Some(50);
    let written = texts(&["pkg/veritas_regression_0_test.go"]);
    let request = EvolveRequest { dry_run: false, index: Some(0), all_selected: false };
    let end = |after: &VerificationReport| {
        let evaluation = evaluate_evolution(Some(&report), Ok(after));
        let suite = ".veritas/evolution/go_suite.json";
        let paths = written.clone();
        evolve(request, "go", suite, vec![candidate(true)], paths, Some(evaluation), 4, 99)
    };
    let rejected = end(&worse);
    assert_eq!(rejected.remove, written);
    assert!(rejected.restore_report);
    assert_eq!(
        rejected.summary.written_paths,
        texts(&[
            "pkg/veritas_regression_0_test.go",
            ".veritas/evolution/go_evaluation_4.md",
            ".veritas/evolution/go_generation_4.json",
        ])
    );
    assert_eq!(rejected.artifacts.len(), 2);
    let mut better = rich_report();
    better.quality.mutation.killed = 4;
    better.quality.mutation.survived = 0;
    better.quality.mutation.score_percent = Some(100);
    let kept = end(&better);
    assert!(kept.remove.is_empty());
    assert!(!kept.restore_report);
    let dry = EvolveRequest { dry_run: true, index: None, all_selected: false };
    let nothing = evolve(dry, "go", "suite", Vec::new(), Vec::new(), None, 4, 99);
    assert!(nothing.artifacts.is_empty());
}
