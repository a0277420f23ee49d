//! Reports, findings and evolution.
use serde_json::Value;
use veritas::api::{
    ArtifactKind, ArtifactStatus, Failure, FailureSeverity, GeneratedArtifact, LineRange, ReproCase,
    RiskLevel, RunStatus, TargetKind, TestRunResult, VerificationReport, VerificationTarget,
};
use veritas::campaign::filtered_mutation_records;
use veritas::changes::{parse_unified_diff, targets_for_changed_files, ChangedFile};
use veritas::evolution::{evolution_artifacts, evolution_metrics_from_artifacts};
use veritas::evolve::parse_evolution_suite;
use veritas::findings::{assertion_candidate_artifacts, corpus_entry_artifacts};
use veritas::json::Json;
use veritas::metrics::{MutationRecord, MutationStatus, VerificationQuality};
use veritas::records::{EvolutionOutcome, EvolutionQualityDelta};
use veritas::regressions::regression_artifacts;
use veritas::replay::{replay_result_artifacts, target_source_fragment, TargetFacts};
use veritas::schedule::{
    cleanup_generated_artifacts, cleanup_takes, excluded_isolation_entry, generated_artifact_paths,
    in_job_order, run_jobs, schedule, JobPool, ListedEntry,
};
use veritas::score::{classify_evolution_outcome, confidence_score};
use veritas::signatures::{
    api_baseline_artifact, differential_replay_artifact, replay_cases_for_target,
};

fn text(value: &str) -> String {
    value.to_string()
}

fn texts(values: &[&str]) -> Vec<String> {
    values.iter().map(|value| value.to_string()).collect()
}

fn mutation_record_for_test(id: &str, status: MutationStatus) -> MutationRecord {
    MutationRecord {
        id: text(id),
        language: text("rust"),
        path: text("src/lib.rs"),
        symbol: text("check"),
        operator: text("comparison"),
        domain: text("auth_permission"),
        status,
        from: None,
        to: None,
        line_range: None,
        source_span: None,
        diff: None,
        risk_note: None,
        suggested_test: None,
        skip_reason: None,
        selected_test_command: None,
        test_selection_hint: None,
        test_selection_fallback: None,
        brittleness_probe: false,
        command: None,
        duration_ms: 0,
        diff_path: None,
        outcome_path: None,
        command_log_path: None,
        stdout_log_path: None,
        stderr_log_path: None,
    }
}

fn function_target(id: &str, path: &str, start: usize, end: usize) -> VerificationTarget {
    VerificationTarget {
        id: text(id),
        language: text("rust"),
        kind: TargetKind::Function,
        path: text(path),
        symbol: id.rsplit("::").next().map(ToString::to_string),
        signature: Some(format!("pub fn {}()", id.rsplit("::").next().unwrap_or(id))),
        line_range: Some(LineRange { start, end }),
        description: text("function"),
        risk: RiskLevel::Medium,
    }
}

fn function_target_with_signature(id: &str, signature: &str) -> VerificationTarget {
    VerificationTarget {
        id: text(id),
        language: text("rust"),
        kind: TargetKind::Function,
        path: text("src/lib.rs"),
        symbol: id.rsplit("::").next().map(ToString::to_string),
        signature: Some(text(signature)),
        line_range: Some(LineRange { start: 1, end: 1 }),
        description: text("function"),
        risk: RiskLevel::Medium,
    }
}

/// The entries of a project that has some files.
fn entries_of(files: &[&str]) -> Vec<ListedEntry> {
    let mut entries: Vec<ListedEntry> = Vec::new();
    for file in files {
        let parts: Vec<&str> = file.split('/').collect();
        for end in 1..parts.len() + 1 {
            let entry = ListedEntry { names: texts(&parts[..end]), directory: end < parts.len() };
            if !entries.contains(&entry) {
                entries.push(entry);
            }
        }
    }
    entries
}

fn generated_files(files: &[&str]) -> Vec<String> {
    generated_artifact_paths(&entries_of(files), &None)
}

fn cleanup_fixture() -> Vec<&'static str> {
    vec![
        ".veritas/report.json",
        ".veritas/baselines/rust_api.json",
        "tests/veritas_generated/generated.rs",
        "tests/veritas_generated.rs",
        "tests/veritas_regression_0_target.rs",
        "crates/sample/tests/veritas_generated/generated.rs",
        "crates/sample/tests/veritas_generated.rs",
        "crates/sample/tests/veritas_regression_0_target.rs",
        "pkg/veritas_fuzz_test.go",
        "pkg/veritas_regression_0_test.go",
        "src/lib.rs",
        "target/tests/veritas_generated.rs",
        "target/tests/veritas_regression_0_test.go",
        "vendor/veritas_fuzz_test.go",
        "vendor/veritas_regression_0_test.go",
    ]
}

#[test]
fn scheduler_runs_jobs_concurrently_and_preserves_order() {
    let jobs = vec![3_u64, 2, 1];
    let summary = schedule(jobs.len(), 2);
    let finished = vec![(1, jobs[1] * 2), (2, jobs[2] * 2), (0, jobs[0] * 2)];
    assert_eq!(in_job_order(finished), vec![6, 4, 2]);
    assert_eq!(summary.requested_jobs, 3);
    assert_eq!(summary.max_concurrency, 2);
}

#[test]
fn isolated_mutation_root_copies_project_and_cleans_up() {
    assert!(!excluded_isolation_entry("go.mod"));
    assert!(!excluded_isolation_entry("pkg"));
    assert!(excluded_isolation_entry(".veritas"));
    assert!(excluded_isolation_entry("target"));
}

#[test]
fn filters_mutation_campaign_records_by_status_aliases() {
    let records = vec![
        mutation_record_for_test("killed", MutationStatus::Killed),
        mutation_record_for_test("survivor", MutationStatus::Lived),
        mutation_record_for_test("timeout", MutationStatus::TimedOut),
    ];
    let filtered = filtered_mutation_records(&records, &texts(&["lived", "timed-out"]));
    assert_eq!(
        filtered.iter().map(|record| record.id.as_str()).collect::<Vec<_>>(),
        vec!["survivor", "timeout"]
    );
}

#[test]
fn evolution_suite_prioritizes_surviving_mutants_and_assertions() {
    let mut quality = VerificationQuality::default();
    quality
        .mutation
        .records
        .push(mutation_record_for_test("src/lib.rs:authorize:1:2", MutationStatus::Lived));
    let mut report = VerificationReport::empty();
    report.runs = vec![TestRunResult {
        language: text("rust"),
        status: RunStatus::Failed,
        commands: Vec::new(),
        failures: Vec::new(),
        duration_ms: 0,
        quality,
    }];
    let pending = vec![GeneratedArtifact {
        id: text("rust-assertion-0"),
        language: text("rust"),
        kind: ArtifactKind::AssertionCandidate,
        target_id: text("rust:src/lib.rs:authorize"),
        path: text(".veritas/assertions/rust_0.json"),
        contents: text(
            "{\"id\":\"a0\",\"language\":\"rust\",\"target_id\":\"rust:src/lib.rs:authorize\",\"domain\":\"auth_permission\",\"source\":\"mutation_survivor\",\"seed_inputs\":[\"admin\"],\"expected_behavior\":\"deny unauthorized refunds\",\"replay_command\":\"cargo test\"}",
        ),
        description: text("assertion"),
        status: ArtifactStatus::Planned,
    }];

    let artifacts = evolution_artifacts("rust", &report, &pending);
    let suite_artifact = artifacts
        .iter()
        .find(|artifact| artifact.kind == ArtifactKind::EvolutionSuite)
        .expect("suite artifact");
    let value: Value = serde_json::from_str(&suite_artifact.contents).expect("suite json");
    let suite = parse_evolution_suite(&value["suite"].to_string()).expect("typed suite");

    assert_eq!(suite.candidates.len(), 2);
    assert_eq!(suite.selection_budget, 2);
    assert_eq!(suite.candidates[0].fitness.score_percent, 95);
    assert!(suite.candidates[0]
        .semantic_packs
        .contains(&text("auth-permission-matrix")));
    let metrics = evolution_metrics_from_artifacts(&artifacts);
    assert_eq!(metrics.suites, 1);
    assert_eq!(metrics.candidates, 2);
    assert_eq!(metrics.mutation_candidates, 1);
    assert_eq!(metrics.property_candidates, 1);
}

#[test]
fn classifies_evolution_quality_deltas() {
    let improved = EvolutionQualityDelta {
        mutation_score_delta: Some(8),
        killed_mutants_delta: 1,
        confidence_delta: 5,
        ..Default::default()
    };
    assert_eq!(classify_evolution_outcome(&improved), EvolutionOutcome::Improved);

    let neutral = EvolutionQualityDelta::default();
    assert_eq!(classify_evolution_outcome(&neutral), EvolutionOutcome::Neutral);

    let regressed = EvolutionQualityDelta {
        findings_delta: 1,
        confidence_delta: 3,
        ..Default::default()
    };
    assert_eq!(classify_evolution_outcome(&regressed), EvolutionOutcome::Regressed);
}

#[test]
fn parses_added_hunk_ranges_from_zero_context_diff() {
    let diff = "\
diff --git a/src/lib.rs b/src/lib.rs
index 1111111..2222222 100644
--- a/src/lib.rs
+++ b/src/lib.rs
@@ -10,0 +11,2 @@
+let added = true;
+let second = true;
@@ -30 +32 @@
-old
+new
diff --git a/src/other.rs b/src/other.rs
index 3333333..4444444 100644
--- a/src/other.rs
+++ b/src/other.rs
@@ -5,3 +5,0 @@
-removed
-removed
-removed
";
    let changed = parse_unified_diff(diff);
    assert_eq!(changed.len(), 2);
    let lib = changed
        .iter()
        .find(|changed| changed.path.as_str() == "src/lib.rs")
        .expect("src/lib.rs diff should be parsed");
    assert_eq!(
        lib.ranges,
        vec![LineRange { start: 11, end: 12 }, LineRange { start: 32, end: 32 }]
    );
    let other = changed
        .iter()
        .find(|changed| changed.path.as_str() == "src/other.rs")
        .expect("src/other.rs diff should be parsed");
    assert_eq!(other.ranges, vec![LineRange { start: 5, end: 5 }]);
}

#[test]
fn changed_line_ranges_select_overlapping_function_targets() {
    let targets = vec![
        function_target("rust:src/lib.rs::parse_total", "src/lib.rs", 10, 20),
        function_target("rust:src/lib.rs::format_total", "src/lib.rs", 30, 40),
        VerificationTarget {
            id: text("rust:project"),
            language: text("rust"),
            kind: TargetKind::Project,
            path: text("."),
            symbol: None,
            signature: None,
            line_range: None,
            description: text("project"),
            risk: RiskLevel::Low,
        },
    ];
    let changed_files = vec![ChangedFile {
        path: text("src/lib.rs"),
        ranges: vec![LineRange { start: 15, end: 15 }],
    }];
    let selected = targets_for_changed_files("rust", &targets, &changed_files);
    assert_eq!(selected.len(), 1);
    assert_eq!(selected[0].id, "rust:src/lib.rs::parse_total");
    assert_eq!(selected[0].description, "changed function");
}

#[test]
fn changed_untracked_files_select_file_target_when_no_symbol_matches() {
    let targets = vec![function_target("rust:src/lib.rs::parse_total", "src/lib.rs", 10, 20)];
    let changed_files = vec![ChangedFile { path: text("src/new.rs"), ranges: Vec::new() }];
    let selected = targets_for_changed_files("rust", &targets, &changed_files);
    assert_eq!(selected.len(), 1);
    assert_eq!(selected[0].id, "rust:src/new.rs");
    assert_eq!(selected[0].kind, TargetKind::File);
    assert_eq!(selected[0].description, "changed file");
}

#[test]
fn api_baseline_reports_only_changed_existing_signatures() {
    let baseline = text(
        r#"{
  "rust:src/lib.rs::parse_total": "pub fn parse_total(input: &str) -> i32",
  "rust:src/lib.rs::format_total": "pub fn format_total(cents: u64) -> String"
}"#,
    );
    let targets = vec![
        function_target_with_signature(
            "rust:src/lib.rs::parse_total",
            "pub fn parse_total(input: &str) -> u64",
        ),
        function_target_with_signature(
            "rust:src/lib.rs::format_total",
            "pub fn format_total(cents: u64) -> String",
        ),
        function_target_with_signature("rust:src/lib.rs::new_api", "pub fn new_api()"),
    ];

    let (artifact, failures) = api_baseline_artifact("rust", &targets, &Some(baseline));

    assert_eq!(failures.len(), 1);
    let failure = &failures[0];
    assert_eq!(
        failure.message,
        "public API signature changed for `rust:src/lib.rs::parse_total`"
    );
    assert_eq!(
        failure.stdout_excerpt,
        "old: pub fn parse_total(input: &str) -> i32\nnew: pub fn parse_total(input: &str) -> u64"
    );
    assert_eq!(failure.artifact_id.as_deref(), Some("rust-api-baseline"));
    let current: Value =
        serde_json::from_str(&artifact.contents).expect("baseline JSON should parse");
    assert_eq!(
        current["rust:src/lib.rs::parse_total"].as_str(),
        Some("pub fn parse_total(input: &str) -> u64")
    );
    assert_eq!(current["rust:src/lib.rs::new_api"].as_str(), Some("pub fn new_api()"));
}

#[test]
fn differential_replay_artifact_includes_seeded_behavior_cases() {
    let targets = vec![function_target_with_signature(
        "rust:src/lib.rs::parse_total",
        "pub fn parse_total(input: &str, cents: u64, strict: bool) -> bool",
    )];
    let artifact = differential_replay_artifact("rust", &targets);
    assert_eq!(artifact.kind, ArtifactKind::DifferentialReplay);
    assert_eq!(artifact.path, ".veritas/differential/rust_replay.json");
    let body: Value = serde_json::from_str(&artifact.contents).expect("replay JSON should parse");
    let cases = body["targets"][0]["cases"].as_array().expect("cases should be present");
    let names = cases
        .iter()
        .filter_map(|case| case["name"].as_str())
        .collect::<Vec<_>>();
    assert!(names.contains(&"argument_zero_tuple"));
    assert!(names.contains(&"argument_one_tuple"));
    assert!(names.contains(&"argument_trimmed_tuple"));
    assert!(names.contains(&"parser_invalid_tuple"));
    assert!(cases.iter().all(|case| case["argument_tuple"] == true));
}

#[test]
fn replay_cases_use_parameter_types_not_return_types() {
    let target = VerificationTarget {
        id: text("go:evolution.go:SettlementState"),
        language: text("go"),
        kind: TargetKind::Function,
        path: text("evolution.go"),
        symbol: Some(text("SettlementState")),
        signature: Some(text("func SettlementState(statusCode int) string")),
        line_range: Some(LineRange { start: 1, end: 4 }),
        description: text("state"),
        risk: RiskLevel::Medium,
    };
    let cases = replay_cases_for_target("go", &target);
    let mut names: Vec<String> = Vec::new();
    if let Json::Array(items) = &cases {
        for item in items {
            if let Some(name) = item.get("name").and_then(|name| name.as_str()) {
                names.push(name.clone());
            }
        }
    }
    assert!(names.contains(&text("zero_boundary")));
    assert!(names.contains(&text("one_boundary")));
    assert!(!names.contains(&text("empty_string")));
    assert!(!names.contains(&text("trimmed_token")));
}

#[test]
fn behavioral_replay_persists_and_compares_observations() {
    let target = VerificationTarget {
        id: text("rust:src/lib.rs:parse_invoice_total"),
        language: text("rust"),
        kind: TargetKind::Function,
        path: text("src/lib.rs"),
        symbol: Some(text("parse_invoice_total")),
        signature: Some(text("pub fn parse_invoice_total(input: &str) -> u64")),
        line_range: Some(LineRange { start: 1, end: 3 }),
        description: text("parser"),
        risk: RiskLevel::High,
    };
    let first = "pub fn parse_invoice_total(input: &str) -> u64 {\n    if input.is_empty() { 0 } else { 1 }\n}\n";
    let second = "pub fn parse_invoice_total(input: &str) -> u64 {\n    if input.is_empty() { 0 } else { 2 }\n}\n";
    let manifest = differential_replay_artifact("rust", &vec![target.clone()]);
    let mut report = VerificationReport::empty();
    report.targets.push(target.clone());

    let facts = vec![TargetFacts {
        source: target_source_fragment(first, &target),
        observations: Vec::new(),
    }];
    let pending = vec![manifest];
    let (artifacts, failures) = replay_result_artifacts("rust", &report, &pending, &facts, &None);
    assert!(failures.is_empty());
    let baseline = artifacts
        .iter()
        .find(|artifact| artifact.id == "rust-behavior-baseline")
        .expect("baseline artifact");
    assert!(baseline.contents.contains("behavioral_replay_baseline"));

    let changed = vec![TargetFacts {
        source: target_source_fragment(second, &target),
        observations: Vec::new(),
    }];
    let written = Some(baseline.contents.clone());
    let (artifacts, failures) =
        replay_result_artifacts("rust", &report, &pending, &changed, &written);
    assert!(!failures.is_empty());
    assert!(failures
        .iter()
        .any(|failure| failure.message.contains("behavioral replay drift")));
    let result = artifacts
        .iter()
        .find(|artifact| artifact.id == "rust-differential-replay-result")
        .expect("result artifact");
    let value: Value = serde_json::from_str(&result.contents).unwrap();
    assert_eq!(value["changed"], failures.len());
    assert!(value["comparisons"]
        .as_array()
        .unwrap()
        .iter()
        .any(|comparison| comparison["outcome"] == "changed"));
}

#[test]
fn unchanged_behavior_does_not_drift() {
    let target = function_target_with_signature(
        "rust:src/lib.rs::parse_total",
        "pub fn parse_total(input: &str) -> u64",
    );
    let pending = vec![differential_replay_artifact("rust", &vec![target.clone()])];
    let mut report = VerificationReport::empty();
    report.targets.push(target);
    let facts = vec![TargetFacts {
        source: text("pub fn parse_total(input: &str) -> u64 { 1 }"),
        observations: Vec::new(),
    }];
    let (artifacts, _) = replay_result_artifacts("rust", &report, &pending, &facts, &None);
    let baseline = artifacts
        .iter()
        .find(|artifact| artifact.id == "rust-behavior-baseline")
        .expect("baseline artifact");
    let written = Some(baseline.contents.clone());
    let (again, failures) = replay_result_artifacts("rust", &report, &pending, &facts, &written);
    assert!(failures.is_empty());
    assert_eq!(again[0], artifacts[0]);
    let result: Value = serde_json::from_str(&again[1].contents).unwrap();
    let comparisons = result["comparisons"].as_array().unwrap();
    assert!(!comparisons.is_empty());
    assert!(comparisons.iter().all(|comparison| comparison["outcome"] == "unchanged"));
}

#[test]
fn regression_artifacts_promote_mutation_findings() {
    let finding = Failure {
        id: None,
        message: text("mutation survived in `authorize_refund`: comparison boundary mutation"),
        severity: FailureSeverity::Warning,
        target_id: Some(text("rust:src/lib.rs::authorize_refund")),
        artifact_id: Some(text("rust-mutation-src_lib_rs_authorize_refund")),
        command: text("veritas mutation"),
        stdout_excerpt: String::new(),
        stderr_excerpt: String::new(),
        repro: Some(ReproCase {
            command: text("replace `<=` with `<` in src/lib.rs"),
            input: None,
            path: Some(text("src/lib.rs")),
        }),
    };
    let artifacts = regression_artifacts("rust", &vec![finding]);
    assert_eq!(artifacts.len(), 1);
    assert_eq!(artifacts[0].kind, ArtifactKind::RegressionTest);
    assert_eq!(artifacts[0].path, ".veritas/regressions/rust_0.md");
    assert!(artifacts[0].contents.contains("fails if `<=` is replaced with `<`"));
    assert!(artifacts[0].contents.contains("Suggested Rust test shape"));
}

#[test]
fn assertion_candidate_artifact_extracts_domain_and_seeds() {
    let finding = Failure {
        id: Some(text("vts-test")),
        message: text(
            "mutation survived in Rust function `authorize_refund`: auth/permission comparison boundary mutation",
        ),
        severity: FailureSeverity::Warning,
        target_id: Some(text("rust:src/lib.rs:authorize_refund")),
        artifact_id: None,
        command: text("cargo test"),
        stdout_excerpt: String::new(),
        stderr_excerpt: String::new(),
        repro: Some(ReproCase {
            command: text("replace `<=` with `<` in src/lib.rs"),
            input: None,
            path: Some(text("src/lib.rs")),
        }),
    };
    let artifacts = assertion_candidate_artifacts("rust", &vec![finding]);
    assert_eq!(artifacts.len(), 1);
    assert_eq!(artifacts[0].kind, ArtifactKind::AssertionCandidate);
    let candidate: Value =
        serde_json::from_str(&artifacts[0].contents).expect("candidate JSON should parse");
    assert_eq!(candidate["finding_id"].as_str(), Some("vts-test"));
    assert_eq!(candidate["domain"].as_str(), Some("auth_permission"));
    assert!(candidate["semantic_packs"]
        .as_array()
        .unwrap()
        .iter()
        .any(|pack| pack == "auth-permission-matrix"));
    assert!(candidate["expected_behavior"]
        .as_str()
        .unwrap()
        .contains("distinguishes `<=` from `<`"));
    assert!(candidate["seed_inputs"]
        .as_array()
        .unwrap()
        .iter()
        .any(|seed| seed.as_str().unwrap().contains("admin")));
}

#[test]
fn corpus_entry_artifact_persists_replay_metadata() {
    let finding = Failure {
        id: Some(text("vts-corpus")),
        message: text("fuzz target failed"),
        severity: FailureSeverity::Error,
        target_id: Some(text("go:score.go:Parse")),
        artifact_id: None,
        command: text("go test -run FuzzParse"),
        stdout_excerpt: String::new(),
        stderr_excerpt: String::new(),
        repro: Some(ReproCase {
            command: text("go test -run FuzzParse/testdata/fuzz/FuzzParse/abc"),
            input: Some(text("abc")),
            path: Some(text("testdata/fuzz/FuzzParse/abc")),
        }),
    };
    let artifacts = corpus_entry_artifacts("go", &vec![finding]);
    assert_eq!(artifacts.len(), 1);
    assert_eq!(artifacts[0].kind, ArtifactKind::CorpusEntry);
    assert_eq!(artifacts[0].path, ".veritas/corpus/go_0.json");
    let entry = veritas::corpus::parse_corpus_entry(&artifacts[0].contents)
        .expect("corpus JSON should parse");
    assert_eq!(entry.finding_id.as_deref(), Some("vts-corpus"));
    assert_eq!(entry.input.as_deref(), Some("abc"));
}

#[test]
fn confidence_score_penalizes_survivors_and_rewards_replay() {
    let mut report = VerificationReport::empty();
    report.quality.mutation.generated = 4;
    report.quality.mutation.executed = 4;
    report.quality.mutation.killed = 3;
    report.quality.mutation.survived = 1;
    report.quality.mutation.score_percent = Some(75);
    report.quality.regression.assertion_candidates = 1;
    report.quality.replay.cases = 2;
    report.findings.push(Failure {
        id: Some(text("vts-score")),
        message: text("mutation survived"),
        severity: FailureSeverity::Warning,
        target_id: Some(text("rust:src/lib.rs:target")),
        artifact_id: None,
        command: text("cargo test"),
        stdout_excerpt: String::new(),
        stderr_excerpt: String::new(),
        repro: None,
    });
    let score = confidence_score(&report);
    assert!(score.score >= 50);
    assert!(score.risks.iter().any(|risk| risk.contains("surviving mutant")));
    assert!(score
        .positive_signals
        .iter()
        .any(|signal| signal.contains("differential replay")));
}

#[test]
fn cleanup_dry_run_reports_generated_artifacts_without_deleting() {
    let summary = cleanup_generated_artifacts(&generated_files(&cleanup_fixture()), true);
    assert!(summary.dry_run);
    assert_eq!(
        summary.paths,
        texts(&[
            ".veritas",
            "crates/sample/tests/veritas_generated",
            "crates/sample/tests/veritas_generated.rs",
            "crates/sample/tests/veritas_regression_0_target.rs",
            "pkg/veritas_fuzz_test.go",
            "pkg/veritas_regression_0_test.go",
            "tests/veritas_generated",
            "tests/veritas_generated.rs",
            "tests/veritas_regression_0_target.rs",
        ])
    );
}

#[test]
fn cleanup_removes_generated_artifacts_and_leaves_other_files() {
    let summary = cleanup_generated_artifacts(&generated_files(&cleanup_fixture()), false);
    assert!(!summary.dry_run);
    assert_eq!(summary.paths.len(), 9);
    let removed = |path: &str| {
        summary
            .paths
            .iter()
            .any(|taken| path == taken || path.starts_with(&format!("{taken}/")))
    };
    assert!(removed(".veritas/report.json"));
    assert!(removed("tests/veritas_generated/generated.rs"));
    assert!(removed("tests/veritas_generated.rs"));
    assert!(removed("tests/veritas_regression_0_target.rs"));
    assert!(removed("crates/sample/tests/veritas_generated"));
    assert!(removed("crates/sample/tests/veritas_generated.rs"));
    assert!(removed("crates/sample/tests/veritas_regression_0_target.rs"));
    assert!(removed("pkg/veritas_fuzz_test.go"));
    assert!(removed("pkg/veritas_regression_0_test.go"));
    assert!(!removed("src/lib.rs"));
    assert!(!removed("target/tests/veritas_generated.rs"));
    assert!(!removed("vendor/veritas_fuzz_test.go"));
    assert!(!removed("target/tests/veritas_regression_0_test.go"));
    assert!(!removed("vendor/veritas_regression_0_test.go"));
}

#[test]
fn a_second_cleanup_finds_nothing() {
    let files = cleanup_fixture();
    let paths = generated_files(&files);
    let left: Vec<&str> = files
        .iter()
        .copied()
        .filter(|file| {
            !paths.iter().any(|taken| file == taken || file.starts_with(&format!("{taken}/")))
        })
        .collect();
    assert_eq!(
        left,
        vec![
            "src/lib.rs",
            "target/tests/veritas_generated.rs",
            "target/tests/veritas_regression_0_test.go",
            "vendor/veritas_fuzz_test.go",
            "vendor/veritas_regression_0_test.go",
        ]
    );
    assert!(generated_files(&left).is_empty());
    let own = ListedEntry { names: texts(&["veritas_generated"]), directory: true };
    assert!(!cleanup_takes(&own, &Some(text("sample"))));
    assert!(cleanup_takes(&own, &Some(text("tests"))));
    assert!(!cleanup_takes(&ListedEntry { names: Vec::new(), directory: true }, &None));
}

#[test]
fn workers_share_jobs() {
    let mut pool: JobPool<char> = JobPool::new(3, 2);
    assert_eq!(pool.summary, schedule(3, 2));
    assert_eq!(pool.take(), Some(0));
    assert_eq!(pool.take(), Some(1));
    assert_eq!(pool.take(), None);
    assert!(pool.finish(1, 'b'));
    assert!(!pool.finish(1, 'x'));
    assert_eq!(pool.take(), Some(2));
    assert!(pool.finish(2, 'c'));
    assert!(!pool.is_finished());
    assert!(pool.finish(0, 'a'));
    assert!(pool.is_finished());
    assert_eq!(pool.take(), None);
    let (results, summary) = pool.results();
    assert_eq!(results, vec!['a', 'b', 'c']);
    assert_eq!(summary.max_concurrency, 2);
}

#[test]
fn jobs_run_in_order_without_threads() {
    assert_eq!(run_jobs(vec![3, 1, 2], |job: i32| job * 10), vec![30, 10, 20]);
    assert!(run_jobs(Vec::new(), |job: i32| job).is_empty());
}

#[test]
fn cleanup_removes_generated_artifacts() {
    let files = vec![
        "src/lib.rs",
        ".veritas/report.json",
        "tests/veritas_generated/src_lib_rs_target.rs",
        "tests/veritas_generated.rs",
        "pkg/veritas_fuzz_test.go",
        "target/tests/veritas_generated.rs",
    ];
    let summary = cleanup_generated_artifacts(&generated_files(&files), false);
    let words = veritas::summaries::print_cleanup_summary(&summary);
    assert!(words.contains("Removed generated artifacts"));
    assert!(words.contains("tests/veritas_generated"));
    assert!(words.contains("pkg/veritas_fuzz_test.go"));
    assert_eq!(
        summary.paths,
        texts(&[
            ".veritas",
            "pkg/veritas_fuzz_test.go",
            "tests/veritas_generated",
            "tests/veritas_generated.rs",
        ])
    );
}
