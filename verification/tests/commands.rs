//! What the commands decide and print.
use veritas::api::{
    ArtifactKind, ArtifactStatus, Failure, FailureSeverity, GeneratedArtifact, LineRange,
    ProjectInfo, RiskLevel, RunStatus, TargetKind, TestRunResult, VerificationReport,
    VerificationStrategy, VerificationTarget,
};
use veritas::bench::{
    bench_directory, bench_metrics, parse_bench_strategy, print_bench_report, run_bench_case,
    run_bench_suite, safe_path_name, should_skip_bench_copy_entry, BenchCase, BenchProfile,
};
use veritas::campaign::filtered_mutation_records;
use veritas::config::{
    apply_mutants_list_config, apply_mutants_run_config, apply_verify_profile, config_path,
    validate_mutants_shard_flags, ConfigFile, GoPluginConfigPartial, MutantSelection,
    MutationConfigPartial, PluginSection, PolicySection, VeritasConfig, VerifyProfile,
};
use veritas::conformance::{print_conformance_report, run_plugin_conformance, KnownMutants};
use veritas::engine::ScanResult;
use veritas::metrics::{MutationRecord, MutationStatus};
use veritas::modes::{print_score, score_grade_label, score_mode_view, ScoreMode};
use veritas::mutants::{
    merge_mutation_campaigns, merged_text, mutant_ids_from_campaign, normalize_status,
    print_mutants_list, print_mutation_merge, CampaignError, CampaignSource,
};
use veritas::next::{next_queue, severity_rank};
use veritas::output::OutputFormat;
use veritas::policy::{
    enforce_failure_policy, infer_language, is_script_file, searches_for_scripts,
    skips_script_search, verifies_changes, RootFiles,
};
use veritas::records::{
    BaselineSummary, CleanupSummary, CorpusReplaySummary, PromotionSummary, QualityBaselineSummary,
};
use veritas::schedule::{
    cleanup_generated_artifacts, in_job_order, isolated_root_name, schedule, RunBudget,
};
use veritas::score::confidence_score;
use veritas::setup::{
    init_languages, initialize_project, print_init_summary, render_init_config, xml_escape,
    InitLanguage, InitSummary,
};
use veritas::summaries::{
    print_baseline_summary, print_cleanup_summary, print_corpus_replay_summary, print_explanation,
    print_named_promotion_summary, print_promotion_summary, print_quality_baseline_summary,
};

fn text(value: &str) -> String {
    value.to_string()
}

fn texts(values: &[&str]) -> Vec<String> {
    values.iter().map(|value| value.to_string()).collect()
}

fn finding(id: &str, severity: FailureSeverity) -> Failure {
    Failure {
        id: Some(text(id)),
        message: text("mutation survived in go function `Parse`"),
        severity,
        target_id: Some(text("go:pkg/a.go:Parse")),
        artifact_id: None,
        command: text("go test ./pkg"),
        stdout_excerpt: String::new(),
        stderr_excerpt: String::new(),
        repro: None,
    }
}

fn target(kind: TargetKind, id: &str) -> VerificationTarget {
    VerificationTarget {
        id: text(id),
        language: text("go"),
        kind,
        path: text("pkg/a.go"),
        symbol: Some(text("Parse")),
        signature: Some(text("func Parse(value string) string")),
        line_range: Some(LineRange { start: 3, end: 9 }),
        description: text("target"),
        risk: RiskLevel::High,
    }
}

fn record(id: &str, status: MutationStatus) -> MutationRecord {
    MutationRecord {
        id: text(id),
        language: text("go"),
        path: text("pkg/a.go"),
        symbol: text("Parse"),
        operator: text("comparison"),
        domain: text("boundary"),
        status,
        from: Some(text("<")),
        to: Some(text(">=")),
        line_range: Some(LineRange { start: 4, end: 4 }),
        source_span: None,
        diff: Some(text("-a < b\n+a >= b")),
        risk_note: None,
        suggested_test: None,
        skip_reason: None,
        selected_test_command: None,
        test_selection_hint: None,
        test_selection_fallback: None,
        brittleness_probe: false,
        command: None,
        duration_ms: 0,
        diff_path: None,
        outcome_path: None,
        command_log_path: None,
        stdout_log_path: None,
        stderr_log_path: None,
    }
}

fn no_case() -> BenchCase {
    BenchCase {
        name: text("sample"),
        path: text("examples/sample"),
        language: text("go"),
        profile: None,
        target: None,
        expect_findings: Vec::new(),
        expect_artifacts: Vec::new(),
        expect_commands: Vec::new(),
        strategies: Vec::new(),
        min_findings: None,
        min_commands: None,
        min_mutation_findings: None,
        min_mutants_executed: None,
        min_mutants_killed: None,
        min_mutants_survived: None,
        min_mutation_score: None,
        min_mutation_effective_workers: None,
        max_surviving_mutants: None,
        min_generated_test_failures: None,
        min_assertion_candidates: None,
        min_corpus_entries: None,
        min_replay_cases: None,
        min_evolution_candidates: None,
        min_evolution_selected: None,
        max_duration_ms: None,
    }
}

fn no_sections() -> ConfigFile {
    ConfigFile { veritas: None, planner: None, policy: None, mutation: None, plugins: None }
}

fn no_mutation() -> MutationConfigPartial {
    MutationConfigPartial {
        enabled_domains: None,
        disabled_domains: None,
        enabled_operators: None,
        disabled_operators: None,
        include_paths: None,
        exclude_paths: None,
        include_symbols: None,
        exclude_symbols: None,
        include_mutant_ids: None,
        exclude_mutant_ids: None,
        dry_run: None,
        max_mutants: None,
        workers: None,
        test_cpu: None,
        timeout_coefficient: None,
        timeout_min_seconds: None,
        timeout_max_seconds: None,
        shard_index: None,
        shard_count: None,
        output_statuses: None,
    }
}

#[test]
fn a_file_without_sections_gives_the_defaults() {
    assert_eq!(VeritasConfig::load(Some(no_sections())), VeritasConfig::default());
    assert_eq!(VeritasConfig::load(None), VeritasConfig::default());
    assert_eq!(config_path(true, true), Some(text("veritas.toml")));
    assert_eq!(config_path(false, true), Some(text(".veritas.toml")));
    assert_eq!(config_path(false, false), None);
}

#[test]
fn percentages_of_a_policy_are_bounded() {
    let mut file = no_sections();
    file.policy = Some(PolicySection {
        fail_on_severity: None,
        fail_on_languages: None,
        fail_on_artifact_kinds: None,
        fail_on_target_risks: None,
        min_mutation_score: Some(250),
        min_mutation_efficacy: Some(100),
        min_mutant_coverage: None,
    });
    let config = VeritasConfig::load(Some(file));
    assert_eq!(config.policy.min_mutation_score, Some(100));
    assert_eq!(config.policy.min_mutation_efficacy, Some(100));
    assert_eq!(config.policy.min_mutant_coverage, None);
}

#[test]
fn the_shared_mutation_section_reaches_plugins() {
    let mut file = no_sections();
    file.mutation = Some(MutationConfigPartial { workers: Some(3), ..no_mutation() });
    file.plugins = Some(PluginSection {
        rust: None,
        go: Some(GoPluginConfigPartial {
            fuzz_seconds: None,
            fuzz_existing: None,
            fuzz_concurrency: None,
            coverage_enabled: None,
            reverse_dependency_depth: None,
            max_fuzz_targets: None,
            command_timeout_seconds: None,
            max_packages: None,
            max_mutants: None,
            build_tags: None,
            mutation: Some(MutationConfigPartial { workers: Some(5), ..no_mutation() }),
        }),
        python: None,
        typescript: None,
    });
    let config = VeritasConfig::load(Some(file));
    assert_eq!(config.plugins.rust.mutation.workers, 3);
    assert_eq!(config.plugins.python.mutation.workers, 3);
    assert_eq!(config.plugins.typescript.mutation.workers, 3);
    assert_eq!(config.plugins.go.mutation.workers, 5);
}

#[test]
fn continuous_integration_tightens_once() {
    let mut config = VeritasConfig::default();
    apply_verify_profile(&mut config, None);
    assert_eq!(config, VeritasConfig::default());
    apply_verify_profile(&mut config, Some(VerifyProfile::Ci));
    assert!(config.budget_seconds <= VeritasConfig::default().budget_seconds);
    assert!(!config.plugins.go.coverage_enabled);
    assert!(!config.plugins.rust.coverage_enabled);
    let mut covered = VeritasConfig::default();
    covered.plugins.python.coverage_enabled = true;
    apply_verify_profile(&mut covered, Some(VerifyProfile::Ci));
    assert!(!covered.plugins.python.coverage_enabled);
    let mut again = VeritasConfig::default();
    apply_verify_profile(&mut again, Some(VerifyProfile::Ci));
    apply_verify_profile(&mut again, Some(VerifyProfile::Ci));
    assert_eq!(again, config);
}

#[test]
fn shards_are_checked() {
    assert_eq!(validate_mutants_shard_flags(None, None), Ok(()));
    assert_eq!(validate_mutants_shard_flags(Some(1), Some(2)), Ok(()));
    assert_eq!(
        validate_mutants_shard_flags(Some(1), None),
        Err(text("--shard-index requires --shard-count"))
    );
    assert_eq!(
        validate_mutants_shard_flags(None, Some(0)),
        Err(text("--shard-count must be greater than zero"))
    );
    assert_eq!(
        validate_mutants_shard_flags(Some(2), Some(2)),
        Err(text("--shard-index 2 must be less than --shard-count 2"))
    );
}

#[test]
fn mutants_are_selected_for_every_plugin() {
    let mut config = VeritasConfig::default();
    let selection = MutantSelection {
        domain: texts(&["money"]),
        operator: Vec::new(),
        include_path: texts(&["pkg"]),
        exclude_path: Vec::new(),
        include_symbol: Vec::new(),
        exclude_symbol: Vec::new(),
        max_mutants: Some(4),
        shard_index: Some(0),
        shard_count: Some(2),
    };
    assert_eq!(apply_mutants_list_config(&mut config, &selection), Ok(()));
    assert!(config.plugins.go.mutation.dry_run);
    assert_eq!(config.plugins.rust.mutation.enabled_domains, texts(&["money"]));
    assert_eq!(config.plugins.python.mutation.include_paths, texts(&["pkg"]));
    assert_eq!(config.plugins.typescript.mutation.shard_count, Some(2));
    apply_mutants_run_config(&mut config, &texts(&["m1"]));
    assert_eq!(config.plugins.go.mutation.include_mutant_ids, texts(&["m1"]));
    let wrong = MutantSelection { shard_index: Some(3), ..selection };
    assert!(apply_mutants_list_config(&mut config, &wrong).is_err());
}

#[test]
fn policies_fail_with_a_reason() {
    let mut config = VeritasConfig::default();
    let mut report = VerificationReport::empty();
    assert_eq!(enforce_failure_policy(&config, &report, &Vec::new()), Ok(()));
    config.policy.min_mutation_score = Some(80);
    assert_eq!(
        enforce_failure_policy(&config, &report, &Vec::new()),
        Err(text("correctness mutation score was unavailable but policy minimum is 80%"))
    );
    report.quality.mutation.score_percent = Some(75);
    assert_eq!(
        enforce_failure_policy(&config, &report, &Vec::new()),
        Err(text("correctness mutation score 75% is below policy minimum 80%"))
    );
    report.quality.mutation.correctness_score_percent = Some(80);
    assert_eq!(enforce_failure_policy(&config, &report, &Vec::new()), Ok(()));
    config.policy.min_mutation_efficacy = Some(50);
    assert_eq!(
        enforce_failure_policy(&config, &report, &Vec::new()),
        Err(text("mutation efficacy was unavailable but policy minimum is 50%"))
    );
    report.quality.mutation.efficacy_percent = Some(49);
    assert_eq!(
        enforce_failure_policy(&config, &report, &Vec::new()),
        Err(text("mutation efficacy 49% is below policy minimum 50%"))
    );
    config.policy.min_mutation_efficacy = None;
    config.policy.min_mutant_coverage = Some(50);
    report.quality.mutation.mutant_coverage_percent = Some(10);
    assert_eq!(
        enforce_failure_policy(&config, &report, &Vec::new()),
        Err(text("mutant coverage 10% is below policy minimum 50%"))
    );
}

#[test]
fn accepted_findings_fail_no_policy() {
    let mut config = VeritasConfig::default();
    config.fail_on_findings = true;
    config.policy.fail_on_severity = FailureSeverity::Warning;
    let mut report = VerificationReport::empty();
    report.findings = vec![
        finding("vts-1", FailureSeverity::Error),
        finding("vts-2", FailureSeverity::Info),
    ];
    assert_eq!(
        enforce_failure_policy(&config, &report, &Vec::new()),
        Err(text("verification produced 1 policy-failing finding(s)"))
    );
    assert_eq!(enforce_failure_policy(&config, &report, &texts(&["vts-1"])), Ok(()));
}

#[test]
fn languages_are_inferred_from_files() {
    let go = RootFiles { go_mod: true, ..Default::default() };
    let both = RootFiles { go_mod: true, cargo_toml: true, ..Default::default() };
    let unit = VerificationStrategy::UnitTests;
    assert_eq!(infer_language(&Some(text("a/b.py")), unit, go), Ok(text("python")));
    assert_eq!(infer_language(&Some(text("a/b.tsx")), unit, go), Ok(text("typescript")));
    assert_eq!(infer_language(&None, unit, both), Ok(text("rust")));
    assert_eq!(infer_language(&None, VerificationStrategy::Fuzzing, both), Ok(text("go")));
    assert!(infer_language(&None, unit, RootFiles::default()).is_err());
    assert!(is_script_file("web/app.ts"));
    assert!(!is_script_file("src/lib.rs"));
    assert!(skips_script_search("node_modules"));
    assert!(!skips_script_search("web"));
    assert!(searches_for_scripts(4));
    assert!(!searches_for_scripts(5));
    assert_eq!(verifies_changes(true, None, &None), Ok(true));
    assert_eq!(verifies_changes(false, Some(VerifyProfile::Ci), &None), Ok(true));
    assert_eq!(verifies_changes(false, None, &Some(text("a.go"))), Ok(false));
    assert_eq!(
        verifies_changes(true, None, &Some(text("a.go"))),
        Err(text("--changed cannot be combined with --target"))
    );
}

#[test]
fn some_language_is_always_set_up() {
    let python = RootFiles { requirements_txt: true, ..Default::default() };
    assert_eq!(init_languages(InitLanguage::Auto, python), texts(&["python"]));
    assert_eq!(
        init_languages(InitLanguage::Auto, RootFiles::default()),
        texts(&["rust", "go", "python", "typescript"])
    );
    assert_eq!(init_languages(InitLanguage::JavaScript, python), texts(&["typescript"]));
    let files = initialize_project(&texts(&["go"]), true, true);
    assert!(files.iter().any(|file| file.path == ".veritas.toml"));
    assert!(files.len() >= 3);
    assert!(render_init_config(&texts(&["go"])).contains("[plugins.go]"));
    let mut summary = InitSummary::new(false);
    assert!(summary.note_file("veritas.toml", false, false));
    assert!(!summary.note_file("other.toml", true, false));
    assert!(summary.note_file("third.toml", true, true));
    assert_eq!(summary.written, texts(&["veritas.toml", "third.toml"]));
    assert_eq!(summary.skipped, texts(&["other.toml"]));
    assert!(print_init_summary(&summary).contains("veritas.toml"));
}

#[test]
fn escaped_text_has_no_markup() {
    assert_eq!(
        xml_escape("<a href=\"x\">'&'</a>"),
        "&lt;a href=&quot;x&quot;&gt;'&amp;'&lt;/a&gt;"
    );
}

#[test]
fn stricter_modes_score_no_higher() {
    let mut report = VerificationReport::empty();
    report.quality.budget.skipped_commands = 2;
    report.quality.regression.assertion_candidates = 3;
    report.quality.mutation.survived = 1;
    let current = confidence_score(&report);
    let view = |mode: ScoreMode| score_mode_view(&report, &current, 2, mode).expect("view");
    let plain = view(ScoreMode::Current);
    let strict = view(ScoreMode::Strict);
    let verified = view(ScoreMode::Verified);
    assert_eq!(plain.score, current.score);
    assert_eq!(plain.adjustments, texts(&["no additional anti-gaming adjustment for this mode"]));
    assert_eq!(strict.score, current.score - 6 - 4);
    assert_eq!(strict.delta_from_current, -10);
    assert_eq!(verified.score, strict.score - 3 - 2);
    assert_eq!(score_grade_label(80), "high");
    assert_eq!(score_grade_label(55), "medium");
    assert_eq!(score_grade_label(54), "low");
    let words = print_score(&current, &report, OutputFormat::Markdown).expect("words");
    assert!(words.contains(&format!("{}", current.score)));
    assert!(print_score(&current, &report, OutputFormat::Junit).is_err());
}

#[test]
fn campaigns_give_the_mutants_of_a_status() {
    let campaign = "{\"records\": [{\"id\": \"m1\", \"status\": \"lived\"}, {\"id\": \"m2\", \"status\": \"timed_out\"}, {\"status\": \"lived\"}]}";
    assert_eq!(normalize_status("Timed-Out"), "timed out");
    assert_eq!(mutant_ids_from_campaign(campaign, &texts(&["LIVED"])), Ok(texts(&["m1"])));
    assert_eq!(
        mutant_ids_from_campaign(campaign, &texts(&["lived", "timed-out"])),
        Ok(texts(&["m1", "m2"]))
    );
    assert_eq!(
        mutant_ids_from_campaign(
            "{\"metrics\": {\"records\": [{\"id\": \"m3\", \"status\": \"lived\"}]}}",
            &texts(&["lived"])
        ),
        Ok(texts(&["m3"]))
    );
    assert_eq!(
        mutant_ids_from_campaign(campaign, &texts(&["killed"])),
        Err(CampaignError::NoMutants)
    );
    assert_eq!(mutant_ids_from_campaign("{}", &texts(&["lived"])), Err(CampaignError::NoRecords));
    assert_eq!(mutant_ids_from_campaign("{", &texts(&["lived"])), Err(CampaignError::NotParsed));
}

#[test]
fn merged_campaigns_hold_each_mutant_once() {
    let source = |path: &str, contents: &str| CampaignSource { path: text(path), contents: text(contents) };
    let merged = merge_mutation_campaigns(&vec![
        source("b.json", "{\"records\": [{\"id\": \"m2\", \"status\": \"lived\"}, {\"id\": \"m1\", \"status\": \"killed\"}]}"),
        source("a.json", "{\"records\": [{\"id\": \"m2\", \"status\": \"killed\"}, {\"status\": \"lived\"}]}"),
    ])
    .expect("merged");
    assert_eq!(merged.sources, texts(&["b.json", "a.json"]));
    assert_eq!(merged.records.len(), 2);
    let value: serde_json::Value = serde_json::from_str(&merged_text(&merged)).expect("json");
    assert_eq!(value["version"], 1);
    assert_eq!(value["source_count"], 2);
    assert_eq!(value["record_count"], 2);
    assert_eq!(value["records"][0]["id"], "m1");
    assert_eq!(value["records"][1]["status"], "lived");
    assert_eq!(value["by_status"]["killed"], 1);
    assert!(print_mutation_merge(&merged, OutputFormat::Markdown).is_ok());
    assert!(print_mutation_merge(&merged, OutputFormat::Sarif).is_err());
    match merge_mutation_campaigns(&vec![source("a.json", "{\"records\": []}"), source("b.json", "7")]) {
        Err((place, error)) => {
            assert_eq!(place, 1);
            assert_eq!(error, CampaignError::NoRecords);
        }
        Ok(_) => panic!("a campaign without records was merged"),
    }
}

#[test]
fn mutants_are_listed_and_filtered() {
    let mut report = VerificationReport::empty();
    let mut quality = veritas::metrics::VerificationQuality::default();
    quality.mutation.records = vec![record("m1", MutationStatus::Lived)];
    report.runs = vec![TestRunResult {
        language: text("go"),
        status: RunStatus::Passed,
        commands: Vec::new(),
        failures: Vec::new(),
        duration_ms: 0,
        quality,
    }];
    let with = print_mutants_list(&report, OutputFormat::Markdown, true).expect("list");
    let without = print_mutants_list(&report, OutputFormat::Markdown, false).expect("list");
    assert!(with.starts_with("# veritas mutants list\n\n- Mutants: `1`\n"));
    assert!(with.contains("+a >= b"));
    assert!(!without.contains("+a >= b"));
    let json = print_mutants_list(&report, OutputFormat::Json, false).expect("list");
    let value: serde_json::Value = serde_json::from_str(&json).expect("json");
    assert_eq!(value["records"][0]["status"], "lived");
    let records = vec![record("m1", MutationStatus::Lived), record("m2", MutationStatus::Killed)];
    assert_eq!(filtered_mutation_records(&records, &Vec::new()), records);
    let lived = filtered_mutation_records(&records, &texts(&["lived"]));
    assert_eq!(lived.len(), 1);
    assert_eq!(filtered_mutation_records(&lived, &texts(&["lived"])), lived);
}

#[test]
fn the_most_urgent_work_comes_first() {
    let mut report = VerificationReport::empty();
    report.findings = vec![
        finding("vts-info", FailureSeverity::Info),
        finding("vts-critical", FailureSeverity::Critical),
    ];
    let queue = next_queue(&report, 5, false).expect("queue");
    assert_eq!(queue.items[0].id, "vts-critical");
    assert_eq!(queue.items[0].rank, 1);
    assert_eq!(queue.items[1].rank, 2);
    assert_eq!(next_queue(&report, 1, false).expect("queue").returned, 1);
    assert_eq!(severity_rank(FailureSeverity::Critical), 4);
}

#[test]
fn benchmarks_say_which_limits_are_broken() {
    let mut report = VerificationReport::empty();
    report.findings = vec![finding("vts-1", FailureSeverity::Warning)];
    report.targets = vec![target(TargetKind::Function, "go:pkg/a.go:Parse")];
    let metrics = bench_metrics(&report).expect("metrics");
    assert_eq!(metrics.function_targets, 1);
    assert_eq!(metrics.high_risk_targets, 1);
    let passed = run_bench_case(BenchProfile::Seeded, &no_case(), "examples/sample", &report, 5)
        .expect("case");
    assert!(passed.passed);
    assert!(passed.threshold_failures.is_empty());
    let mut hard = no_case();
    hard.min_findings = Some(2);
    hard.max_duration_ms = Some(4);
    hard.expect_findings = texts(&["panicked"]);
    hard.expect_artifacts = texts(&["fuzz_harness"]);
    hard.expect_commands = texts(&["go test"]);
    let failed = run_bench_case(BenchProfile::Seeded, &hard, "examples/sample", &report, 5)
        .expect("case");
    assert!(!failed.passed);
    assert_eq!(failed.missing_findings, texts(&["panicked"]));
    assert_eq!(failed.missing_artifacts, texts(&["fuzz_harness"]));
    assert_eq!(failed.missing_commands, texts(&["go test"]));
    assert_eq!(failed.threshold_failures.len(), 2);
    let suite = run_bench_suite("veritas-bench.toml", BenchProfile::Canary, vec![passed, failed])
        .expect("suite");
    assert!(!suite.passed);
    assert_eq!(suite.summary.total_cases, 2);
    assert_eq!(suite.summary.passed_cases, 1);
    assert_eq!(suite.summary.total_duration_ms, 10);
    assert_eq!(suite.summary.slowest_case, Some(text("sample")));
    let words = print_bench_report(&suite, OutputFormat::Markdown).expect("words");
    assert!(words.starts_with("# veritas bench\n\n- Suite: `veritas-bench.toml`\n"));
    assert!(words.contains("- Cases: `1/2` passed\n"));
    assert!(print_bench_report(&suite, OutputFormat::Junit).is_err());
}

#[test]
fn benchmark_names_are_safe() {
    assert_eq!(safe_path_name("a b/c_d-1"), "a-b-c_d-1");
    assert!(bench_directory("a b", 17).contains("a-b"));
    assert!(bench_directory("a b", 17).contains("17"));
    assert!(should_skip_bench_copy_entry("target"));
    assert!(!should_skip_bench_copy_entry("src"));
    assert!(parse_bench_strategy("fuzzing").is_ok());
    assert!(parse_bench_strategy("magic").is_err());
    assert_eq!(BenchProfile::LargeRepo.label(), "large-repo");
}

#[test]
fn plugins_conform_where_their_targets_are_in_order() {
    let project = || ProjectInfo {
        language: text("go"),
        name: text("sample"),
        root: text("/repo"),
        manifests: texts(&["go.mod"]),
    };
    let known = KnownMutants { domains: texts(&["boundary"]), operators: texts(&["comparison"]) };
    let mut good = ScanResult::new();
    let mut whole = target(TargetKind::Project, "go:project");
    whole.path = text(".");
    good.scan(
        project(),
        vec![
            whole,
            target(TargetKind::Function, "go:pkg/a.go:Parse"),
        ],
    );
    let report = run_plugin_conformance(&good, &Vec::new(), &None, &known);
    assert!(report.passed);
    assert_eq!(report.plugins.len(), 1);
    assert_eq!(report.plugins[0].function_targets, 1);
    let mut bad = ScanResult::new();
    bad.scan(project(), Vec::new());
    let report = run_plugin_conformance(&bad, &Vec::new(), &None, &known);
    assert!(!report.passed);
    assert!(!report.plugins[0].failures.is_empty());
    assert!(print_conformance_report(&report, OutputFormat::Markdown).is_ok());
    assert!(print_conformance_report(&report, OutputFormat::Junit).is_err());
}

#[test]
fn jobs_are_bounded_and_come_out_in_order() {
    assert_eq!(schedule(0, 4).max_concurrency, 0);
    assert_eq!(schedule(3, 0).max_concurrency, 1);
    assert_eq!(schedule(2, 8).max_concurrency, 2);
    assert_eq!(in_job_order(vec![(2, 'c'), (0, 'a'), (1, 'b')]), vec!['a', 'b', 'c']);
    let budget = RunBudget::new(10);
    assert!(!budget.spent(9_999_999_999));
    assert!(budget.spent(10_000_000_000));
    assert!(budget.nearly_spent(10_000_000_000));
    assert_eq!(isolated_root_name("go", 7, 1, 5), "veritas-go-mutation-7-1-5");
}

#[test]
fn summaries_name_what_happened() {
    let promoted = PromotionSummary { dry_run: true, paths: texts(&["b", "a"]) };
    assert!(print_promotion_summary(&promoted).contains("`a`"));
    assert!(print_named_promotion_summary("promote-repro", &promoted).contains("promote-repro"));
    let cleaned = CleanupSummary { dry_run: false, paths: texts(&[".veritas"]) };
    assert!(print_cleanup_summary(&cleaned).contains(".veritas"));
    let accepted = BaselineSummary { path: text(".veritas/b.json"), accepted_ids: texts(&["vts-1"]) };
    assert!(print_baseline_summary(&accepted).contains("1"));
    let quality = QualityBaselineSummary {
        path: text(".veritas/q.json"),
        confidence: 73,
        mutation_score: None,
    };
    assert!(print_quality_baseline_summary(&quality).contains("73"));
    let replay = CorpusReplaySummary { dry_run: true, report: VerificationReport::empty() };
    assert!(print_corpus_replay_summary(&replay, OutputFormat::Markdown).is_ok());
    assert!(print_corpus_replay_summary(&replay, OutputFormat::Sarif).is_err());
}

#[test]
fn findings_are_explained_by_id() {
    let mut report = VerificationReport::empty();
    report.findings = vec![finding("vts-1", FailureSeverity::Warning)];
    report.artifacts = vec![GeneratedArtifact {
        id: text("go-fuzz"),
        language: text("go"),
        kind: ArtifactKind::FuzzHarness,
        target_id: text("go:pkg/a.go:Parse"),
        path: text("pkg/veritas_fuzz_test.go"),
        contents: String::new(),
        description: text("harness"),
        status: ArtifactStatus::Written,
    }];
    assert!(print_explanation(&report, "vts-1").expect("words").contains("vts-1"));
    assert!(print_explanation(&report, "vts-2").is_err());
}

#[test]
fn cleanups_name_each_path_once_in_order() {
    let summary = cleanup_generated_artifacts(&texts(&["b", "a/c", "a", "b"]), true);
    assert!(summary.dry_run);
    assert_eq!(summary.paths, texts(&["a", "a/c", "b"]));
}
