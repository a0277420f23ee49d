//! What commands print of a saved report.
use veritas::api::VerificationReport;
use veritas::config::{
    ConfigFile, GoPluginConfigPartial, MutationConfigPartial, PluginSection, PolicySection,
    RustPluginConfigPartial, VeritasConfig,
};
use veritas::engine::read_saved_report;
use veritas::evolve::{
    evolve_candidates, evolve_summary, parse_evolution_suite, EvolveRequest, PluginWork,
};
use veritas::go_fuzz::GoFuzzTargets;
use veritas::go_plugin::GoVerificationContext;
use veritas::go_promote::promoted_go_regression_artifacts;
use veritas::go_source::functions_in_file;
use veritas::modes::{print_score_mode_report, score_mode_report, ScoreMode};
use veritas::next::{next_queue, print_next_queue};
use veritas::output::OutputFormat;
use veritas::prompts::render_ai_repair_prompt;
use veritas::review::{
    print_review_packet_summary, render_review_prompt, review_packet, review_packet_text,
};
use veritas::score::confidence_score;
use veritas::setup::{
    print_agent_instruction_summary, render_agent_instructions, render_score_badge,
};
use veritas::summaries::print_evolve_summary;

fn text(value: &str) -> String {
    value.to_string()
}

fn texts(values: &[&str]) -> Vec<String> {
    values.iter().map(|value| value.to_string()).collect()
}

const SUITE: &str = r#"{
  "version": 1,
  "language": "LANGUAGE",
  "generation": 1,
  "selection_budget": 1,
  "fitness_signals": ["mutation_score_delta", "confidence_score_delta"],
  "candidates": [{
    "id": "evolve-mutant-LANGUAGE",
    "language": "LANGUAGE",
    "target_id": "TARGET",
    "kind": "mutation",
    "strategy": "add_assertion",
    "status": "selected",
    "source_finding_id": "vts-test-finding",
    "domain": "boundary",
    "fitness": {
      "score_percent": 95,
      "mutation_delta": 1,
      "finding_delta": 0,
      "replay_delta": 0,
      "confidence_delta": 20,
      "rationale": "surviving mutant should become an assertion"
    },
    "proposed_action": "Add the smallest assertion that fails under this surviving mutant.",
    "keep_if": "mutant moves from lived to killed",
    "proof_commands": [
      "veritas verify --lang LANGUAGE --target <target>",
      "veritas score"
    ],
    "done_when": [
      "the mutant moves from lived to killed in the next campaign",
      "the confidence score improves or explains why it is unchanged"
    ]
  }]
}"#;

const REPORT: &str = r#"{
  "project": null,
  "targets": [{
    "id": "TARGET",
    "language": "LANGUAGE",
    "kind": "function",
    "path": "PATH",
    "symbol": "SYMBOL",
    "signature": null,
    "line_range": {"start": 1, "end": 12},
    "description": "test target",
    "risk": "medium"
  }],
  "plan": null,
  "artifacts": [{
    "id": "LANGUAGE-evolution-suite",
    "language": "LANGUAGE",
    "kind": "evolution_suite",
    "target_id": "LANGUAGE:evolution",
    "path": ".veritas/evolution/LANGUAGE_suite.json",
    "contents": CONTENTS,
    "description": "Evolution suite for repair prompt tests",
    "status": "written"
  }],
  "runs": [],
  "coverage": [],
  "findings": [{
    "id": "vts-test-finding",
    "message": "mutation survived in LANGUAGE function `SYMBOL`: comparison boundary mutation",
    "severity": "warning",
    "target_id": "TARGET",
    "artifact_id": null,
    "command": "test command",
    "stdout_excerpt": "",
    "stderr_excerpt": "",
    "repro": {
      "command": "replace boundary and run tests",
      "input": null,
      "path": "PATH"
    }
  }],
  "suggested_next_steps": []
}"#;

fn fill(template: &str, language: &str, target_id: &str, path: &str, symbol: &str) -> String {
    template
        .replace("LANGUAGE", language)
        .replace("TARGET", target_id)
        .replace("PATH", path)
        .replace("SYMBOL", symbol)
}

fn suite_text(language: &str, target_id: &str) -> String {
    fill(SUITE, language, target_id, "", "")
}

fn saved_report(language: &str, target_id: &str, path: &str, symbol: &str) -> VerificationReport {
    let contents = serde_json::Value::String(suite_text(language, target_id)).to_string();
    let report = fill(REPORT, language, target_id, path, symbol).replace("CONTENTS", &contents);
    read_saved_report(&report).expect("report json")
}

fn rust_report() -> VerificationReport {
    saved_report(
        "rust",
        "rust:src/lib.rs:parse_invoice_total",
        "src/lib.rs",
        "parse_invoice_total",
    )
}

#[test]
fn repair_prompt_summarizes_saved_report_for_agents() {
    let prompt = render_ai_repair_prompt(&rust_report());
    assert!(prompt.contains("# veritas AI repair prompt"));
    assert!(prompt.contains("mutation survived in rust function"));
    assert!(prompt.contains("Selected Evolution Candidates"));
    assert!(prompt.contains("Done when"));
    assert!(prompt.contains("veritas verify --changed --profile ci"));
    assert!(prompt.contains("veritas next --explain"));
    assert!(prompt.contains("veritas evolve --dry-run"));
    assert!(prompt.contains("- `evolve-mutant-rust` `Mutation` fitness `95%`: "));
    assert!(prompt.contains("  - the mutant moves from lived to killed in the next campaign\n"));
}

#[test]
fn next_command_ranks_findings_and_evolution_candidates() {
    let report = rust_report();
    let queue = next_queue(&report, 2, true).expect("queue");
    let words = print_next_queue(&queue, OutputFormat::Markdown).expect("markdown");
    assert!(words.contains("# veritas next"));
    assert!(words.contains("Estimated confidence impact"));
    assert!(words.contains("evolve-mutant-rust"));
    assert!(words.contains("mutation_survivor"));

    let first = next_queue(&report, 1, false).expect("queue");
    let json = print_next_queue(&first, OutputFormat::Json).expect("json");
    assert!(json.contains("\"returned\": 1"));
    assert!(json.contains("\"reason_codes\""));

    let score = confidence_score(&report);
    let modes = score_mode_report(&report, &score, 0, ScoreMode::All).expect("modes");
    let json = print_score_mode_report(&modes, OutputFormat::Json).expect("json");
    assert!(json.contains("\"mode\": \"current\""));
    assert!(json.contains("\"mode\": \"strict\""));
    assert!(json.contains("\"mode\": \"verified\""));
    assert!(json.contains("\"delta_from_current\""));
}

#[test]
fn review_packet_and_agent_instructions_write_ai_artifacts() {
    let report = rust_report();
    let packet = review_packet(&report, &texts(&["testability"])).expect("packet");
    let words = print_review_packet_summary("query.json", "prompt.md", &packet);
    assert!(words.contains("# veritas review-packet"));
    assert!(words.contains("testability"));
    let query = review_packet_text(&packet);
    assert!(query.contains("\"dimensions\""));
    assert!(query.contains("rust:src/lib.rs:parse_invoice_total"));
    assert!(query.contains("mutation_survivors"));
    let prompt = render_review_prompt(&packet);
    assert!(prompt.contains(
        "- `rust:src/lib.rs:parse_invoice_total` `src/lib.rs` risk `Medium` findings `1` survivors `1`\n"
    ));

    let words = print_agent_instruction_summary("codex", "instructions.md");
    assert!(words.contains("# veritas agent-instructions"));
    let contents = render_agent_instructions("codex");
    assert!(contents.contains("veritas next --explain"));
    assert!(contents.contains("Anti-Gaming Rules"));
    assert!(contents.contains("with a Codex."));

    let badge = render_score_badge(&report);
    assert!(badge.contains("<svg"));
    assert!(badge.contains("veritas"));
}

#[test]
fn evolve_dry_run_and_apply_go_candidate() {
    let target_id = "go:invoice.go:ParseInvoiceTotal";
    let report = saved_report("go", target_id, "invoice.go", "ParseInvoiceTotal");
    let suite = parse_evolution_suite(&suite_text("go", target_id)).expect("suite");
    let request = EvolveRequest { dry_run: true, index: None, all_selected: false };
    let (planned, artifacts) =
        evolve_candidates(request, Some(&report), &vec![PluginWork::Declined], &suite.candidates)
            .expect("dry run");
    assert!(artifacts.is_empty());
    let summary =
        evolve_summary(request, "go", ".veritas/evolution/go_suite.json", planned, Vec::new(), None);
    let words = print_evolve_summary(&summary);
    assert!(words.contains("# veritas evolve (dry run)"));
    assert!(words.contains("evolve-mutant-go"));
    assert!(words.contains("mutant moves from lived to killed"));

    let context = GoVerificationContext {
        modules: Vec::new(),
        packages: Vec::new(),
        functions: functions_in_file(
            "invoice.go",
            "package invoice\n\nfunc ParseInvoiceTotal(input string) int { return len(input) }\n",
        )
        .expect("functions"),
        fuzz_targets: GoFuzzTargets { handwritten: Vec::new(), generated: Vec::new() },
    };
    let promoted = promoted_go_regression_artifacts(&context, &report, &report.findings[0], 0);
    assert_eq!(promoted.path, "veritas_regression_0_test.go");
    let request = EvolveRequest { dry_run: false, index: Some(0), all_selected: false };
    let work = vec![PluginWork::Artifacts(vec![promoted])];
    let (applied, artifacts) =
        evolve_candidates(request, Some(&report), &work, &suite.candidates).expect("apply");
    let written: Vec<String> = artifacts.iter().map(|artifact| artifact.path.clone()).collect();
    let summary = evolve_summary(
        request,
        "go",
        ".veritas/evolution/go_suite.json",
        applied,
        written,
        None,
    );
    let words = print_evolve_summary(&summary);
    assert!(words.contains("Result: `applied`"));
    assert!(words.contains("veritas_regression_0_test.go"));
    assert!(summary.written_paths.contains(&text("veritas_regression_0_test.go")));
}

fn strings(value: &toml::Value, key: &str) -> Option<Vec<String>> {
    value.get(key)?.as_array().map(|items| {
        items
            .iter()
            .map(|item| item.as_str().expect("string").to_string())
            .collect()
    })
}

fn string(value: &toml::Value, key: &str) -> Option<String> {
    value.get(key)?.as_str().map(|found| found.to_string())
}

fn integer(value: &toml::Value, key: &str) -> Option<u64> {
    value.get(key)?.as_integer().map(|found| u64::try_from(found).expect("positive"))
}

fn size(value: &toml::Value, key: &str) -> Option<usize> {
    integer(value, key).map(|found| usize::try_from(found).expect("fits"))
}

fn small(value: &toml::Value, key: &str) -> Option<u8> {
    integer(value, key).map(|found| u8::try_from(found).expect("fits"))
}

fn flag(value: &toml::Value, key: &str) -> Option<bool> {
    value.get(key)?.as_bool()
}

fn mutation_section(value: &toml::Value) -> MutationConfigPartial {
    MutationConfigPartial {
        enabled_domains: strings(value, "enabled_domains"),
        disabled_domains: strings(value, "disabled_domains"),
        enabled_operators: strings(value, "enabled_operators"),
        disabled_operators: strings(value, "disabled_operators"),
        include_paths: strings(value, "include_paths"),
        exclude_paths: strings(value, "exclude_paths"),
        include_symbols: strings(value, "include_symbols"),
        exclude_symbols: strings(value, "exclude_symbols"),
        include_mutant_ids: strings(value, "include_mutant_ids"),
        exclude_mutant_ids: strings(value, "exclude_mutant_ids"),
        dry_run: flag(value, "dry_run"),
        max_mutants: size(value, "max_mutants"),
        workers: size(value, "workers"),
        test_cpu: size(value, "test_cpu"),
        timeout_coefficient: integer(value, "timeout_coefficient"),
        timeout_min_seconds: integer(value, "timeout_min_seconds"),
        timeout_max_seconds: integer(value, "timeout_max_seconds"),
        shard_index: size(value, "shard_index"),
        shard_count: size(value, "shard_count"),
        output_statuses: strings(value, "output_statuses"),
    }
}

fn go_section(value: &toml::Value) -> GoPluginConfigPartial {
    GoPluginConfigPartial {
        fuzz_seconds: integer(value, "fuzz_seconds"),
        fuzz_existing: flag(value, "fuzz_existing"),
        fuzz_concurrency: size(value, "fuzz_concurrency"),
        coverage_enabled: flag(value, "coverage_enabled"),
        reverse_dependency_depth: size(value, "reverse_dependency_depth"),
        max_fuzz_targets: size(value, "max_fuzz_targets"),
        command_timeout_seconds: integer(value, "command_timeout_seconds"),
        max_packages: size(value, "max_packages"),
        max_mutants: size(value, "max_mutants"),
        build_tags: strings(value, "build_tags"),
        mutation: value.get("mutation").map(mutation_section),
    }
}

fn rust_section(value: &toml::Value) -> RustPluginConfigPartial {
    RustPluginConfigPartial {
        property_framework: string(value, "property_framework"),
        command_timeout_seconds: integer(value, "command_timeout_seconds"),
        coverage_enabled: flag(value, "coverage_enabled"),
        coverage_timeout_seconds: integer(value, "coverage_timeout_seconds"),
        cargo_jobs: size(value, "cargo_jobs"),
        test_threads: size(value, "test_threads"),
        systemd_scope: flag(value, "systemd_scope"),
        memory_max: string(value, "memory_max"),
        cpu_quota: string(value, "cpu_quota"),
        mutation: value.get("mutation").map(mutation_section),
    }
}

fn policy_section(value: &toml::Value) -> PolicySection {
    PolicySection {
        fail_on_severity: string(value, "fail_on_severity")
            .and_then(|label| veritas::documents::read_failure_severity(&label)),
        fail_on_languages: strings(value, "fail_on_languages"),
        fail_on_artifact_kinds: strings(value, "fail_on_artifact_kinds"),
        fail_on_target_risks: strings(value, "fail_on_target_risks").map(|labels| {
            labels
                .iter()
                .map(|label| veritas::documents::read_risk_level(label).expect("risk"))
                .collect()
        }),
        min_mutation_score: small(value, "min_mutation_score"),
        min_mutation_efficacy: small(value, "min_mutation_efficacy"),
        min_mutant_coverage: small(value, "min_mutant_coverage"),
    }
}

#[test]
fn loads_go_production_and_policy_config() {
    let contents = r#"
[policy]
fail_on_severity = "warning"
fail_on_languages = ["go"]
fail_on_artifact_kinds = ["mutation_check"]
fail_on_target_risks = ["high"]
min_mutation_score = 70
min_mutation_efficacy = 75
min_mutant_coverage = 80

[mutation]
disabled_operators = ["loop"]
exclude_paths = ["vendor/", "_generated.go$"]
dry_run = true
max_mutants = 17
workers = 4
test_cpu = 2
timeout_coefficient = 3
output_statuses = ["lived", "timed_out"]

[plugins.go]
fuzz_seconds = 3
fuzz_existing = false
fuzz_concurrency = 3
coverage_enabled = false
reverse_dependency_depth = 2
max_fuzz_targets = 4
command_timeout_seconds = 9
max_packages = 12
max_mutants = 5
build_tags = ["integration", "sqlite"]

[plugins.go.mutation]
enabled_operators = ["arithmetic", "comparison"]
dry_run = false

[plugins.rust]
property_framework = "proptest"
command_timeout_seconds = 33
coverage_enabled = true
coverage_timeout_seconds = 44
cargo_jobs = 2
test_threads = 3
systemd_scope = true
memory_max = "4G"
cpu_quota = "150%"
"#;
    let value: toml::Value = toml::from_str(contents).expect("parse config");
    let plugins = value.get("plugins").expect("plugins");
    let config = VeritasConfig::load(Some(ConfigFile {
        veritas: None,
        planner: None,
        policy: value.get("policy").map(policy_section),
        mutation: value.get("mutation").map(mutation_section),
        plugins: Some(PluginSection {
            rust: plugins.get("rust").map(rust_section),
            go: plugins.get("go").map(go_section),
            python: None,
            typescript: None,
        }),
    }));

    assert_eq!(config.policy.fail_on_severity, veritas::api::FailureSeverity::Warning);
    assert_eq!(config.policy.fail_on_languages, texts(&["go"]));
    assert_eq!(config.policy.fail_on_artifact_kinds, texts(&["mutation_check"]));
    assert_eq!(config.policy.fail_on_target_risks, vec![veritas::api::RiskLevel::High]);
    assert_eq!(config.policy.min_mutation_score, Some(70));
    assert_eq!(config.policy.min_mutation_efficacy, Some(75));
    assert_eq!(config.policy.min_mutant_coverage, Some(80));
    assert_eq!(config.plugins.rust.mutation.disabled_operators, texts(&["loop"]));
    assert!(config.plugins.rust.mutation.dry_run);
    assert_eq!(config.plugins.rust.mutation.max_mutants, Some(17));
    assert_eq!(config.plugins.rust.mutation.test_cpu, Some(2));
    assert_eq!(config.plugins.rust.mutation.timeout_coefficient, 3);
    assert_eq!(
        config.plugins.go.mutation.enabled_operators,
        texts(&["arithmetic", "comparison"])
    );
    assert_eq!(
        config.plugins.go.mutation.exclude_paths,
        texts(&["vendor/", "_generated.go$"])
    );
    assert!(!config.plugins.go.mutation.dry_run);
    assert_eq!(config.plugins.go.fuzz_seconds, 3);
    assert!(!config.plugins.go.fuzz_existing);
    assert_eq!(config.plugins.go.fuzz_concurrency, 3);
    assert!(!config.plugins.go.coverage_enabled);
    assert_eq!(config.plugins.go.reverse_dependency_depth, 2);
    assert_eq!(config.plugins.go.max_fuzz_targets, 4);
    assert_eq!(config.plugins.go.command_timeout_seconds, 9);
    assert_eq!(config.plugins.go.max_packages, 12);
    assert_eq!(config.plugins.go.max_mutants, 5);
    assert_eq!(config.plugins.go.build_tags, texts(&["integration", "sqlite"]));
    assert_eq!(config.plugins.rust.command_timeout_seconds, 33);
    assert!(config.plugins.rust.coverage_enabled);
    assert_eq!(config.plugins.rust.coverage_timeout_seconds, 44);
    assert_eq!(config.plugins.rust.cargo_jobs, 2);
    assert_eq!(config.plugins.rust.test_threads, 3);
    assert!(config.plugins.rust.systemd_scope);
    assert_eq!(config.plugins.rust.memory_max.as_deref(), Some("4G"));
    assert_eq!(config.plugins.rust.cpu_quota.as_deref(), Some("150%"));
}
