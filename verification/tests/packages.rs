//! Go modules, packages, sources and runs.
use veritas::api::{
    ArtifactKind, ArtifactStatus, CommandRecord, GeneratedArtifact, LineRange, RiskLevel,
    RunStatus, TestRunResult, VerificationReport,
};
use veritas::campaign::mutation_campaign_artifacts;
use veritas::config::VeritasConfig;
use veritas::go_fuzz::{add_fuzz_file, fuzz_seed, module_slug, safe_ident, GoFuzzTargets};
use veritas::go_mutation::{
    binary_operator_replacement, domain_mutation_label, go_mutation_candidates,
    is_simple_string_literal, literal_replacement, mutated_source, return_replacement,
};
use veritas::go_packages::{
    go_list_args, go_module_roots, go_test_args, is_go_file, is_ignored, normalize_package_dir,
    owning_module, package_arg, package_dir_from_target_id, parse_go_module, parse_package_listing,
    parse_package_name, prefix_module_path, scoped_package_args, scoped_package_dirs, GoModule,
    GoPackage,
};
use veritas::go_plugin::{
    detect_project, function_target_id, infer_risk, GoPlugin,
};
use veritas::go_promote::package_name_from_import_path;
use veritas::go_records::{
    command_timed_out, mutant_id, mutation_timeout, trial_outcome, MutantFile, MutationTimeout,
};
use veritas::go_run::{
    any_failed, command_seconds, coverage_disabled, coverage_profile_name, excerpt, go_cover_args,
    go_coverage_summary, parse_go_coverprofile, parse_go_fuzz_repro_path, run_tests, timeout_note,
    FuzzPhase, MutationPhase, MutationRun, MutationStep, TrialOutcome,
};
use veritas::go_source::{
    functions_in_file, fuzz_names_in_file, is_generated_fuzz_file, is_go_test_file, GoSourceError,
};
use veritas::metrics::MutationStatus;
use veritas::quality::refresh_report_quality;

fn text(value: &str) -> String {
    value.to_string()
}

fn texts(values: &[&str]) -> Vec<String> {
    values.iter().map(|value| value.to_string()).collect()
}

fn command(status: RunStatus) -> CommandRecord {
    CommandRecord {
        program: text("go"),
        args: texts(&["test", "./..."]),
        cwd: text("/repo"),
        exit_code: Some(if status == RunStatus::Passed { 0 } else { 1 }),
        status,
        stdout: text("ok"),
        stderr: String::new(),
        duration_ms: 7,
    }
}

fn package(path: &str, dir: &str, imports: &[&str]) -> GoPackage {
    GoPackage {
        import_path: text(path),
        dir: text(dir),
        imports: texts(imports),
        test_imports: Vec::new(),
        x_test_imports: Vec::new(),
        go_files: texts(&["a.go"]),
        test_go_files: Vec::new(),
        x_test_go_files: Vec::new(),
    }
}

/// The artifact that asks for changes of the function in `SOURCE`.
fn asked() -> Vec<GeneratedArtifact> {
    vec![GeneratedArtifact {
        id: text("go-mutation"),
        language: text("go"),
        kind: ArtifactKind::MutationCheck,
        target_id: text("go:auth/refund.go:CanRefund"),
        path: text(".veritas/mutations/go.md"),
        contents: String::new(),
        description: text("mutation checks"),
        status: ArtifactStatus::Planned,
    }]
}

const SOURCE: &str = "package auth\n\nfunc CanRefund(role string, amount int) bool {\n\tif amount > 100 {\n\t\treturn role == \"admin\"\n\t}\n\treturn true\n}\n";

#[test]
fn modules_and_packages_are_read() {
    let module = parse_go_module("// c\nmodule example.com/shop\n\ngo 1.22\n", "svc").expect("module");
    assert_eq!(module.declared_path, "example.com/shop");
    assert_eq!(module.root, "svc");
    assert!(parse_go_module("go 1.22\n", ".").is_none());
    assert_eq!(parse_package_name("// x\npackage auth\n"), Some(text("auth")));
    assert_eq!(parse_package_name("var x = 1"), None);
    assert_eq!(normalize_package_dir(""), ".");
    assert_eq!(prefix_module_path("svc", "pkg/a.go"), "svc/pkg/a.go");
    assert_eq!(package_arg("."), ".");
    assert_eq!(package_arg("pkg"), "./pkg");
    assert_eq!(go_module_roots(&texts(&["b", ".", "b"])), texts(&[".", "b"]));
    assert_eq!(package_dir_from_target_id("go:pkg/a.go:Add"), Some(text("pkg")));
    assert!(is_go_file("a.go"));
    assert!(!is_go_file("a.rs"));
    assert!(is_ignored("vendor/a.go", "a.go"));
    assert!(!is_ignored("pkg/a.go", "a.go"));
}

#[test]
fn package_listings_are_read_as_a_stream() {
    let listing = "{\"ImportPath\": \"example.com/shop/a\", \"Dir\": \"/repo/a\", \"Imports\": [\"fmt\"], \"GoFiles\": [\"a.go\"]}\n{\"ImportPath\": \"example.com/shop\", \"Dir\": \"/repo\"}\n";
    let packages = parse_package_listing("/repo", listing).expect("packages");
    assert_eq!(packages.len(), 2);
    assert_eq!(packages[0].import_path, "example.com/shop/a");
    assert_eq!(packages[0].dir, "a");
    assert_eq!(packages[0].imports, texts(&["fmt"]));
    assert!(parse_package_listing("/repo", "{\"ImportPath\": ").is_none());
}

#[test]
fn runs_cover_what_depends_on_a_change() {
    let packages = vec![
        package("m/a", "a", &[]),
        package("m/b", "b", &["m/a"]),
        package("m/c", "c", &["m/b"]),
    ];
    let selected = texts(&["a"]);
    assert_eq!(scoped_package_dirs(&packages, &selected, 0, 0), texts(&["a"]));
    assert_eq!(scoped_package_dirs(&packages, &selected, 1, 0), texts(&["a", "b"]));
    assert_eq!(scoped_package_dirs(&packages, &selected, 2, 0), texts(&["a", "b", "c"]));
    assert_eq!(scoped_package_dirs(&packages, &selected, 2, 1), texts(&["a"]));
    assert_eq!(scoped_package_args(&packages, &selected), texts(&["./a", "./b"]));
}

#[test]
fn the_innermost_module_owns_a_path() {
    let module = |root: &str| GoModule { declared_path: text("m"), root: text(root) };
    let modules = vec![module("."), module("svc"), module("svc/api")];
    assert_eq!(owning_module(&modules, "svc/api/x"), 2);
    assert_eq!(owning_module(&modules, "svc/x"), 1);
    assert_eq!(owning_module(&modules, "x"), 0);
}

#[test]
fn arguments_carry_build_tags() {
    let mut config = VeritasConfig::default().plugins.go;
    config.build_tags = texts(&["integration", "slow"]);
    assert_eq!(
        go_test_args(&config, &texts(&["./a"])),
        texts(&["test", "-tags=integration,slow", "./a"])
    );
    assert_eq!(
        go_list_args(&config),
        texts(&["list", "-json", "-tags=integration,slow", "./..."])
    );
    let args = go_cover_args(&config, "p.out", &texts(&["./a"]));
    assert!(args.contains(&text("-coverprofile=p.out")));
    assert!(coverage_profile_name("svc/api").ends_with(".out"));
}

#[test]
fn functions_are_read_from_source() {
    let functions = functions_in_file("auth/refund.go", SOURCE).expect("functions");
    assert_eq!(functions.len(), 1);
    assert_eq!(functions[0].name, "CanRefund");
    assert_eq!(functions[0].package_name, "auth");
    assert_eq!(functions[0].signature, "func CanRefund(role string, amount int) bool");
    assert_eq!(functions[0].line_range.start, 3);
    assert_eq!(functions[0].line_range.end, 8);
    assert_eq!(
        functions[0].params.iter().map(|param| param.type_text.as_str()).collect::<Vec<_>>(),
        vec!["string", "int"]
    );
    assert_eq!(
        fuzz_names_in_file("package a\nimport \"testing\"\nfunc FuzzParse(f *testing.F) {}\n"),
        Ok(texts(&["FuzzParse"]))
    );
    assert!(is_generated_fuzz_file("pkg/veritas_fuzz_test.go", ""));
    assert!(is_go_test_file("a_test.go"));
    assert!(!is_go_test_file("a.go"));
    assert_ne!(GoSourceError::NotParsed, GoSourceError::InvalidRange);
}

#[test]
fn mutants_change_one_place_of_a_source() {
    let functions = functions_in_file("auth/refund.go", SOURCE).expect("functions");
    let candidates = go_mutation_candidates(&functions, &asked(), "auth/refund.go", SOURCE)
        .expect("candidates");
    let comparison = candidates
        .iter()
        .find(|candidate| candidate.from == ">")
        .expect("a comparison is changed");
    assert_eq!(comparison.function, "CanRefund");
    let changed = mutated_source(SOURCE, comparison).expect("changed");
    assert!(changed.contains(&format!("amount {} 100", comparison.to)));
    assert_eq!(changed.len(), SOURCE.len() - 1 + comparison.to.len());
    assert_eq!(binary_operator_replacement("=="), Some("!="));
    assert_eq!(binary_operator_replacement("&^"), Some("|"));
    assert_eq!(binary_operator_replacement("="), None);
    assert_eq!(literal_replacement("true"), Some("false"));
    assert!(is_simple_string_literal("\""));
    assert!(!is_simple_string_literal("\"a\""));
    assert!(!is_simple_string_literal("a + b"));
    assert!(return_replacement("true").is_some());
    assert!(domain_mutation_label("CanRefund", "comparison").contains("comparison"));
}

#[test]
fn identifiers_are_plain() {
    assert_eq!(safe_ident("a b.c"), "a_b_c");
    assert_eq!(safe_ident("ok_1"), "ok_1");
    assert!(!safe_ident("").is_empty());
    assert!(!module_slug("pkg/a.go", &None).is_empty());
    assert_eq!(fuzz_seed("bool"), "true");
    assert_eq!(package_name_from_import_path("example.com/shop/auth"), "auth");
    assert_eq!(function_target_id("pkg/a.go", "Add"), "go:pkg/a.go:Add");
    assert_eq!(infer_risk("Authorize"), RiskLevel::High);
}

#[test]
fn fuzz_files_are_kept_by_package() {
    let mut targets = GoFuzzTargets { handwritten: Vec::new(), generated: Vec::new() };
    add_fuzz_file(&mut targets, "pkg/a_test.go", false, &texts(&["FuzzA"]));
    add_fuzz_file(&mut targets, "pkg/veritas_fuzz_test.go", true, &texts(&["FuzzB"]));
    assert_eq!(targets.handwritten.len(), 1);
    assert_eq!(targets.handwritten[0].path, "pkg");
    assert_eq!(targets.handwritten[0].texts, texts(&["FuzzA"]));
    assert_eq!(targets.generated[0].texts, texts(&["FuzzB"]));
}

#[test]
fn tested_packages_are_covered() {
    let mut plugin = GoPlugin::new(VeritasConfig::default().plugins.go);
    assert_eq!(plugin.coverage_package_args("/repo"), texts(&["./..."]));
    plugin.remember_coverage_package_args("/repo", &texts(&["./a"]));
    assert_eq!(plugin.coverage_package_args("/repo"), texts(&["./a"]));
    plugin.remember_coverage_package_args("/repo", &texts(&["./b"]));
    assert_eq!(plugin.coverage_package_args("/repo"), texts(&["./b"]));
    let modules = vec![GoModule { declared_path: text("example.com/shop"), root: text(".") }];
    let project = detect_project(&modules, "/repo").expect("project");
    assert_eq!(project.language, "go");
    assert_eq!(project.name, "example.com/shop");
    assert!(detect_project(&Vec::new(), "/repo").is_none());
}

#[test]
fn failed_tests_end_a_run() {
    let run = |fuzz: &FuzzPhase| {
        run_tests(
            "/repo",
            &Vec::new(),
            &vec![command(RunStatus::Failed)],
            fuzz,
            &MutationPhase::Skipped,
            9,
        )
    };
    let plain = run(&FuzzPhase::Skipped);
    assert_eq!(plain.status, RunStatus::Failed);
    assert_eq!(plain, run(&FuzzPhase::Ran(vec![command(RunStatus::Failed)])));
    assert_eq!(plain.failures.len(), 1);
    assert!(any_failed(&vec![command(RunStatus::Passed), command(RunStatus::Failed)]));
    assert!(!any_failed(&vec![command(RunStatus::Skipped)]));
}

fn five_seconds() -> MutationTimeout {
    MutationTimeout { baseline_duration_ms: 7, seconds: 5, source: text("command_timeout_seconds") }
}

fn late(seconds: u64) -> CommandRecord {
    let mut late = command(RunStatus::Failed);
    late.stderr = timeout_note("panic", seconds, "go test ./...");
    late
}

fn measured(result: TestRunResult) -> VerificationReport {
    let mut report = VerificationReport::empty();
    report.runs.push(result);
    assert!(refresh_report_quality(&mut report, &Vec::new()));
    report
}

#[test]
fn timeouts_follow_the_tests() {
    let mut config = VeritasConfig::default().plugins.go;
    config.command_timeout_seconds = 90;
    let tests = vec![command(RunStatus::Passed), command(RunStatus::Passed)];
    config.mutation.timeout_coefficient = 0;
    let plain = mutation_timeout(&tests, &config);
    assert_eq!(plain.baseline_duration_ms, 14);
    assert_eq!(plain.seconds, 90);
    assert_eq!(plain.source, "command_timeout_seconds");
    config.mutation.timeout_coefficient = 300;
    let scaled = mutation_timeout(&tests, &config);
    assert_eq!(scaled.seconds, 5);
    assert_eq!(scaled.source, "baseline duration 14ms x 300, from 1s to 90s");
    config.mutation.timeout_min_seconds = Some(8);
    assert_eq!(mutation_timeout(&tests, &config).seconds, 8);
    config.mutation.timeout_max_seconds = Some(2);
    assert_eq!(mutation_timeout(&tests, &config).seconds, 2);
    config.mutation.timeout_max_seconds = Some(0);
    assert_eq!(mutation_timeout(&tests, &config).seconds, 1);
    let mut long = command(RunStatus::Passed);
    long.duration_ms = u128::MAX;
    let tests = vec![long, command(RunStatus::Passed)];
    assert_eq!(mutation_timeout(&tests, &config).baseline_duration_ms, u64::MAX);
}

#[test]
fn running_out_of_time_is_no_notice() {
    assert!(command_timed_out(&late(5), 5));
    assert!(!command_timed_out(&late(5), 6));
    assert!(!command_timed_out(&command(RunStatus::Failed), 5));
    let passed = command(RunStatus::Passed);
    let failed = command(RunStatus::Failed);
    assert_eq!(trial_outcome(&vec![passed.clone(), late(5)], 5), TrialOutcome::TimedOut);
    assert_eq!(trial_outcome(&vec![late(5), failed], 5), TrialOutcome::Killed);
    assert_eq!(trial_outcome(&vec![passed], 5), TrialOutcome::Survived);
    assert_eq!(trial_outcome(&Vec::new(), 5), TrialOutcome::Survived);
}

#[test]
fn go_timeout_fixture_records_adaptive_mutation_timeout_and_continues() {
    let functions = functions_in_file("auth/refund.go", SOURCE).expect("functions");
    let candidates = go_mutation_candidates(&functions, &asked(), "auth/refund.go", SOURCE)
        .expect("candidates");
    let mut config = VeritasConfig::default().plugins.go;
    config.mutation.timeout_coefficient = 1;
    config.mutation.timeout_max_seconds = Some(1);
    let timeout = mutation_timeout(&vec![command(RunStatus::Passed)], &config);
    let mut run = MutationRun::new(2, timeout);
    let packages = texts(&["./..."]);
    run.record_trial("/repo", &Vec::new(), &packages, &candidates[0], vec![late(1)]);
    assert_eq!(run.step(9, false), MutationStep::Try(1));
    run.record_trial("/repo", &Vec::new(), &packages, &candidates[1], vec![command(RunStatus::Failed)]);
    let result = run.finish(20);
    assert_eq!(result.status, RunStatus::Passed);
    assert!(result.failures.is_empty());
    let report = measured(result);
    let mutation = &report.quality.mutation;
    assert!(mutation.baseline_duration_ms.is_some_and(|duration| duration > 0));
    assert_eq!(mutation.computed_timeout_seconds, Some(1));
    assert!(mutation
        .timeout_source
        .as_ref()
        .is_some_and(|source| source.contains("baseline duration")));
    assert_eq!(mutation.timed_out, 1);
    assert_eq!(mutation.killed, 1);
    assert_eq!(mutation.survived, 0);
    assert_eq!(mutation.executed, 2);
    assert!(mutation.records.iter().any(|record| {
        record.status == MutationStatus::TimedOut
            && record
                .skip_reason
                .as_ref()
                .is_some_and(|reason| reason.contains("deterministic test seams"))
    }));
}

#[test]
fn verifies_go_fixture_and_writes_fuzz_test() {
    let functions = functions_in_file("auth/refund.go", SOURCE).expect("functions");
    let candidates = go_mutation_candidates(&functions, &asked(), "auth/refund.go", SOURCE)
        .expect("candidates");
    let mut run = MutationRun::new(1, five_seconds());
    let packages = texts(&["./..."]);
    let ran = vec![command(RunStatus::Passed)];
    let files = run.record_trial("/repo", &Vec::new(), &packages, &candidates[0], ran);
    assert!(run.live_progress().contains("- Survived: `1`"));
    let result = run.finish(20);
    let record = result.quality.mutation.records[0].clone();
    assert_eq!(record.id, mutant_id(&candidates[0]));
    assert_eq!(record.status, MutationStatus::Lived);
    assert_eq!(
        record.source_span,
        Some(LineRange { start: candidates[0].start_byte, end: candidates[0].end_byte })
    );
    assert!(record.diff.as_ref().is_some_and(|diff| diff.starts_with("@@ bytes ")));
    let written = |path: &Option<String>| -> MutantFile {
        let path = path.as_ref().expect("path");
        let file = files.iter().find(|file| file.path == *path).expect("written file");
        MutantFile { path: file.path.clone(), contents: file.contents.clone() }
    };
    assert_eq!(files.len(), 5);
    assert_eq!(Some(written(&record.diff_path).contents), record.diff);
    let outcome: serde_json::Value =
        serde_json::from_str(&written(&record.outcome_path).contents).expect("record");
    assert_eq!(outcome["status"], "lived");
    assert_eq!(outcome["stdout_log_path"], record.stdout_log_path.clone().expect("log"));
    assert_eq!(written(&record.command_log_path).contents, "go test ./...");
    assert_eq!(written(&record.stdout_log_path).contents, "$ go test ./...\nok\n");
    assert_eq!(written(&record.stderr_log_path).contents, "$ go test ./...\n\n");
    assert!(record.stdout_log_path.as_ref().is_some_and(|path| {
        path.starts_with(".veritas/mutations/logs/") && path.ends_with("-0.stdout.log")
    }));

    let report = measured(result);
    let artifacts =
        mutation_campaign_artifacts("go", &report, &Vec::new()).expect("campaign");
    let campaign: serde_json::Value =
        serde_json::from_str(&artifacts[0].contents).expect("campaign document");
    let outputs = &campaign["layout"]["run_outputs"];
    assert_eq!(outputs["records"], "records/{mutant}.json");
    assert_eq!(outputs["logs"], "logs/{mutant}.{command,stdout,stderr}.log");
    assert!(artifacts[1].contents.contains("Artifacts: outcome"));
}

#[test]
fn verifies_go_multimodule_fixture_and_scopes_reverse_dependencies() {
    let functions = functions_in_file("auth/refund.go", SOURCE).expect("functions");
    let candidates = go_mutation_candidates(&functions, &asked(), "auth/refund.go", SOURCE)
        .expect("candidates");
    let scoped = |package: &str| {
        let mut scoped = command(RunStatus::Failed);
        scoped.args = texts(&["test", package]);
        scoped
    };
    let mut run = MutationRun::new(1, five_seconds());
    let packages = texts(&["./pkg/invoice", "./pkg/api"]);
    let ran = vec![scoped("./pkg/invoice"), scoped("./pkg/api")];
    run.record_trial("/repo", &Vec::new(), &packages, &candidates[0], ran);
    let result = run.finish(20);
    let record = &result.quality.mutation.records[0];
    assert_eq!(record.status, MutationStatus::Killed);
    assert_eq!(
        record.selected_test_command,
        Some(text("go test ./pkg/invoice && go test ./pkg/api"))
    );
    assert!(record
        .test_selection_hint
        .as_ref()
        .is_some_and(|hint| hint.contains("reverse dependencies")));
    assert_eq!(record.test_selection_fallback, None);
    assert_eq!(record.duration_ms, 14);
}

#[test]
fn every_tried_mutant_is_killed_or_survives() {
    let functions = functions_in_file("auth/refund.go", SOURCE).expect("functions");
    let candidates = go_mutation_candidates(&functions, &asked(), "auth/refund.go", SOURCE)
        .expect("candidates");
    let mut run = MutationRun::new(candidates.len(), five_seconds());
    let packages = texts(&["./auth"]);
    run.record_trial("/repo", &Vec::new(), &packages, &candidates[0], vec![command(RunStatus::Failed)]);
    run.record_trial("/repo", &Vec::new(), &packages, &candidates[1], vec![command(RunStatus::Passed)]);
    assert_eq!(run.step(2, false), MutationStep::Done);
    assert_eq!(run.step(9, false), MutationStep::Try(2));
    assert_eq!(run.step(9, true), MutationStep::EndOfBudget(2));
    let files = run.record_budget_end("/repo", &packages, &candidates[2]);
    assert_eq!(files.len(), 2);
    assert_eq!(run.step(9, false), MutationStep::Done);
    let result = run.finish(20);
    assert_eq!(result.quality.mutation.executed, 2);
    assert_eq!(result.quality.mutation.killed, 1);
    assert_eq!(result.quality.mutation.survived, 1);
    assert_eq!(result.quality.mutation.timed_out, 0);
    let statuses: Vec<MutationStatus> =
        result.quality.mutation.records.iter().map(|record| record.status).collect();
    assert_eq!(
        statuses,
        vec![MutationStatus::Killed, MutationStatus::Lived, MutationStatus::Skipped]
    );
    assert_eq!(result.failures.len(), 1);
    assert!(result.failures[0].message.contains("mutation survived"));
}

#[test]
fn coverage_profiles_are_read() {
    let files = parse_go_coverprofile(
        "/repo",
        "mode: set\n/repo/a.go:1.1,3.2 1 1\n/repo/a.go:4.1,5.2 1 0\n",
    );
    assert_eq!(files.len(), 1);
    assert_eq!(files[0].path, "a.go");
    assert_eq!(files[0].line_coverage_percent, None);
    assert_eq!(files[0].uncovered_ranges, texts(&["4.1,5.2"]));
    assert!(go_coverage_summary("ok pkg coverage: 50.0% of statements\n").contains("50.0%"));
    assert!(coverage_disabled().files.is_empty());
    assert_eq!(excerpt("short"), "short");
    assert_eq!(command_seconds(0), 1);
    assert_eq!(command_seconds(30), 30);
    assert!(timeout_note("late", 3, "go test").contains("3"));
    assert_eq!(parse_go_fuzz_repro_path("no repro"), None);
}
