//! What is read from the texts of records, and what is written to them.
use serde_json::Value;
use veritas::api::{
    CommandRecord, LineRange, RiskLevel, RunStatus, TargetKind, TestRunResult, VerificationPlan,
    VerificationReport, VerificationStrategy, VerificationTarget,
};
use veritas::cache::parse_target_cache;
use veritas::engine::{
    accepted_finding_ids, quality_baseline, read_saved_report, save_accepted_ids,
    save_quality_baseline, save_report,
};
use veritas::go_packages::parse_package_listing;
use veritas::json::{parse_exact, parse_exact_stream, Json};
use veritas::metrics::{AttributionEntry, MutationAttribution};
use veritas::planner::read_planner_answer;
use veritas::records::QualityBaseline;
use veritas::replay::{
    replay_result_artifacts, BehaviorReplayObservation, BehaviorReplayStatus, NamedObservation,
    TargetFacts,
};
use veritas::signatures::differential_replay_artifact;

fn text(value: &str) -> String {
    value.to_string()
}

fn texts(values: &[&str]) -> Vec<String> {
    values.iter().map(|value| value.to_string()).collect()
}

const EMPTY: &str = r#"{"project":null,"targets":[],"plan":null,"artifacts":[],"runs":[],
    "coverage":[],"findings":[],"suggested_next_steps":[]}"#;

/// A report with one run, whose members are given.
fn with_run(members: &str) -> Option<VerificationReport> {
    read_saved_report(&EMPTY.replace("\"runs\":[]", &format!("\"runs\":[{members}]")))
}

/// A report with one command, whose exit code is given.
fn with_exit_code(code: &str) -> Option<VerificationReport> {
    let command = format!(
        r#"{{"program":"go","args":[],"cwd":"/","exit_code":{code},"status":"passed","stdout":"","stderr":"","duration_ms":1}}"#
    );
    with_run(&format!(
        r#"{{"language":"go","status":"passed","commands":[{command}],"failures":[],"duration_ms":1}}"#
    ))
}

/// A report with one run of a given status.
fn with_status(status: &str) -> Option<VerificationReport> {
    with_run(&format!(
        r#"{{"language":"go","status":{status},"commands":[],"failures":[],"duration_ms":1}}"#
    ))
}

fn run(duration_ms: u128) -> TestRunResult {
    TestRunResult {
        language: text("go"),
        status: RunStatus::Passed,
        commands: vec![CommandRecord {
            program: text("go"),
            args: texts(&["test", "./..."]),
            cwd: text("/repo"),
            exit_code: Some(-1),
            status: RunStatus::Passed,
            stdout: text("a \"quoted\" line\n\u{1}\u{e9}"),
            stderr: String::new(),
            duration_ms,
        }],
        failures: Vec::new(),
        duration_ms,
        quality: Default::default(),
    }
}

#[test]
fn times_of_more_than_sixty_four_bits_are_kept() {
    for duration_ms in [u128::MAX, 1 << 64, 18446744073709551615, 0] {
        let mut report = VerificationReport::empty();
        report.runs.push(run(duration_ms));
        let saved = save_report(&report);
        assert!(saved.contains(&format!("\"duration_ms\": {duration_ms}\n")));
        assert_eq!(read_saved_report(&saved), Some(report));
    }
    let long = |time: &str| {
        with_run(&format!(
            r#"{{"language":"go","status":"passed","commands":[],"failures":[],"duration_ms":{time}}}"#
        ))
    };
    assert_eq!(
        long("340282366920938463463374607431768211455").expect("report").runs[0].duration_ms,
        u128::MAX
    );
    assert!(long("340282366920938463463374607431768211456").is_none());
    assert!(long("1.0").is_none());
    assert!(long("1e3").is_none());
    assert!(long("-1").is_none());
    assert!(long("\"1\"").is_none());
}

#[test]
fn baselines_keep_times_of_more_than_sixty_four_bits() {
    let mut quality = VerificationReport::empty().quality;
    quality.performance.total_ms = u128::MAX;
    let baseline = QualityBaseline { version: 1, quality, confidence: 73 };
    let saved = save_quality_baseline(&baseline);
    assert!(saved.contains("340282366920938463463374607431768211455"));
    assert_eq!(quality_baseline(&saved), Some(baseline));
}

#[test]
fn a_field_that_is_there_twice_is_refused() {
    assert!(read_saved_report(EMPTY).is_some());
    assert!(read_saved_report(&EMPTY.replace("\"plan\":null", "\"plan\":null,\"plan\":null")).is_none());
    assert!(read_saved_report(&EMPTY.replace("\"runs\":[]", "\"runs\":[],\"runs\":[]")).is_none());
    assert!(with_run(
        r#"{"language":"go","language":"go","status":"passed","commands":[],"failures":[],"duration_ms":1}"#
    )
    .is_none());
    let unknown = EMPTY.replace("\"plan\":null", "\"plan\":null,\"more\":1,\"more\":{\"a\":1,\"a\":2}");
    assert_eq!(read_saved_report(&unknown), read_saved_report(EMPTY));
    assert!(parse_target_cache(
        r#"{"version":1,"version":1,"language":"go","created_unix_seconds":1,"git_head":null,"sources":[],"targets":[]}"#
    )
    .is_none());
    assert!(parse_package_listing("/repo", r#"{"ImportPath":"a","Dir":"/repo","Dir":"/repo"}"#).is_none());
    assert!(read_planner_answer(r#"{"plan":null,"plan":null}"#).is_err());
}

#[test]
fn of_a_label_that_is_there_twice_the_last_counts() {
    let mut report = VerificationReport::empty();
    report.quality.mutation.by_domain = vec![AttributionEntry {
        label: text("money"),
        counts: MutationAttribution { killed: 7, ..Default::default() },
    }];
    let saved = save_report(&report);
    let start = saved.find("\"by_domain\": {").expect("counts") + "\"by_domain\": {".len();
    let end = start + saved[start..].find('}').expect("end") + 1;
    let twice = format!(
        "{}{},{}",
        &saved[..start],
        saved[start..end].replace("\"killed\": 7", "\"killed\": 5"),
        &saved[start..]
    );
    assert_ne!(twice, saved);
    assert_eq!(read_saved_report(&twice), Some(report));
}

#[test]
fn records_are_read_from_arrays() {
    let read = read_saved_report("[null,[],null,[],[],[],[],[]]").expect("report");
    assert_eq!(Some(read), read_saved_report(EMPTY));
    assert!(read_saved_report("[null,[],null,[],[],[],[]]").is_none());
    assert!(read_saved_report("[null,[],null,[],[],[],[],[],null,null]").is_none());
    assert!(read_saved_report("[]").is_none());

    let target = r#"["go:a.go:Parse","go","function","a.go","Parse",null,[3,9],"parser","high"]"#;
    let report = read_saved_report(&EMPTY.replace("\"targets\":[]", &format!("\"targets\":[{target}]")))
        .expect("report");
    assert_eq!(
        report.targets,
        vec![VerificationTarget {
            id: text("go:a.go:Parse"),
            language: text("go"),
            kind: TargetKind::Function,
            path: text("a.go"),
            symbol: Some(text("Parse")),
            signature: None,
            line_range: Some(LineRange { start: 3, end: 9 }),
            description: text("parser"),
            risk: RiskLevel::High,
        }]
    );
    let run = r#"["go","passed",[["go",["test"],"/",0,"passed","","",5]],[],6]"#;
    let report = with_run(run).expect("report");
    assert_eq!(report.runs[0].duration_ms, 6);
    assert_eq!(report.runs[0].commands[0].args, texts(&["test"]));
    assert_eq!(report.runs[0].commands[0].duration_ms, 5);

    let cache = parse_target_cache(r#"[1,"go",100,null,[["a.go",10,5]],[]]"#).expect("cache");
    assert_eq!(cache.sources[0].path, "a.go");
    assert_eq!(cache.sources[0].len, 10);

    let packages = parse_package_listing(
        "/repo",
        r#"["example.com/a","/repo/a",["fmt"],null,null,["a.go"],null,null] {"ImportPath":"b","Dir":"/repo/b"}"#,
    )
    .expect("packages");
    assert_eq!(packages.len(), 2);
    assert_eq!(packages[0].import_path, "example.com/a");
    assert_eq!(packages[0].dir, "a");
    assert_eq!(packages[0].imports, texts(&["fmt"]));
    assert_eq!(packages[0].go_files, texts(&["a.go"]));
    assert_eq!(packages[1].dir, "b");
    assert!(parse_package_listing("/repo", r#"["example.com/a","/repo/a"]"#).is_none());
}

#[test]
fn plans_are_read_from_arrays_and_variants_from_objects() {
    let plan = VerificationPlan {
        target_id: text("t"),
        strategies: vec![VerificationStrategy::Fuzzing, VerificationStrategy::UnitTests],
        budget_seconds: 60,
        write_generated_tests: true,
        run_existing_tests: true,
        run_generated_tests: false,
        fail_on_generated_test_failure: false,
    };
    let array = r#"["t",["fuzzing",{"unit_tests":null}],60,true,true,false,false]"#;
    assert_eq!(read_planner_answer(array), Ok(Some(plan.clone())));
    assert_eq!(read_planner_answer(&format!("[{array}]")), Ok(Some(plan.clone())));
    assert_eq!(read_planner_answer(&format!("{{\"plan\":{array}}}")), Ok(Some(plan)));
    assert_eq!(read_planner_answer("[null]"), Ok(None));
    assert!(read_planner_answer("[]").is_err());
    assert!(read_planner_answer("[null,null]").is_err());
}

#[test]
fn variants_are_read_from_objects() {
    let passed = with_status("\"passed\"").expect("report");
    assert_eq!(with_status("{\"passed\":null}"), Some(passed));
    assert!(with_status("{\"passed\":1}").is_none());
    assert!(with_status("{\"passed\":null,\"failed\":null}").is_none());
    assert!(with_status("{\"unheard\":null}").is_none());
    assert!(with_status("{}").is_none());
    assert!(with_status("[\"passed\"]").is_none());
    assert!(with_status("null").is_none());
}

#[test]
fn whole_numbers_are_read_with_their_sign() {
    let code = |text: &str| with_exit_code(text).map(|report| report.runs[0].commands[0].exit_code);
    assert_eq!(code("-1"), Some(Some(-1)));
    assert_eq!(code("0"), Some(Some(0)));
    assert_eq!(code("null"), Some(None));
    assert_eq!(code("-2147483648"), Some(Some(i32::MIN)));
    assert_eq!(code("-2147483649"), None);
    assert_eq!(code("-0"), None);
    assert_eq!(code("1.0"), None);
    assert_eq!(code("01"), None);
}

#[test]
fn texts_of_records_keep_every_member() {
    let read = parse_exact(" {\"a\" : 1.50 , \"a\":[ ] ,\"b\\u0041\":{\"c\":[true,false,null,\"x\\n\"]} }\n")
        .expect("document");
    let members = match read {
        Json::Object(members) => members,
        _ => panic!("no object"),
    };
    assert_eq!(members.len(), 3);
    assert_eq!(members[0].0, "a");
    assert!(matches!(&members[0].1, Json::Number(number) if number == "1.50"));
    assert_eq!(members[1].0, "a");
    assert!(matches!(&members[1].1, Json::Array(items) if items.is_empty()));
    assert_eq!(members[2].0, "bA");
    let items = match &members[2].1 {
        Json::Object(inner) => match &inner[0].1 {
            Json::Array(items) => items,
            _ => panic!("no array"),
        },
        _ => panic!("no object"),
    };
    assert!(matches!(items[0], Json::Bool(true)));
    assert!(matches!(items[1], Json::Bool(false)));
    assert!(matches!(items[2], Json::Null));
    assert!(matches!(&items[3], Json::Text(known) if known == "x\n"));
    for broken in ["", " ", "{", "[1,]", "{\"a\":1,}", "{\"a\"}", "{a:1}", "1 2", "[1 2]", "\"a", "nul", "01", "{} x"] {
        assert!(parse_exact(broken).is_none(), "{broken}");
    }
    assert!(matches!(parse_exact("{ }"), Some(Json::Object(members)) if members.is_empty()));
    let deep = format!("{}{}", "[".repeat(500), "]".repeat(500));
    assert!(parse_exact(&deep).is_some());
    assert_eq!(parse_exact_stream("1 {} [2]\n").map(|values| values.len()), Some(3));
    assert_eq!(parse_exact_stream(" \n").map(|values| values.len()), Some(0));
    assert!(parse_exact_stream("1 {").is_none());
}

#[test]
fn members_that_are_not_asked_for_may_hold_anything() {
    let odd = EMPTY.replace("\"plan\":null", "\"plan\":null,\"more\":{\"\\ud800\":\"\\ud800\"}");
    assert_eq!(read_saved_report(&odd), read_saved_report(EMPTY));
    assert!(read_saved_report(&EMPTY.replace("\"suggested_next_steps\":[]", "\"suggested_next_steps\":[\"\\ud800\"]")).is_none());
    assert!(read_saved_report(&EMPTY.replace("\"plan\":null", "\"plan\":null,\"\\ud800\":1")).is_none());
}

#[test]
fn records_are_printed_over_several_lines() {
    assert_eq!(save_accepted_ids(&texts(&["a", "b\"c"])), "[\n  \"a\",\n  \"b\\\"c\"\n]");
    assert_eq!(save_accepted_ids(&Vec::new()), "[]");
    assert_eq!(
        accepted_finding_ids(&Some(save_accepted_ids(&texts(&["b", "a", "b"])))),
        Some(texts(&["a", "b"]))
    );
    let mut report = VerificationReport::empty();
    report.runs.push(run(7));
    let saved = save_report(&report);
    let value: Value = serde_json::from_str(&saved).unwrap();
    assert_eq!(serde_json::to_string_pretty(&value).unwrap(), saved);
}

#[test]
fn behavior_with_fractions_does_not_drift() {
    let target = VerificationTarget {
        id: text("rust:src/lib.rs::parse_total"),
        language: text("rust"),
        kind: TargetKind::Function,
        path: text("src/lib.rs"),
        symbol: Some(text("parse_total")),
        signature: Some(text("pub fn parse_total(input: &str) -> f64")),
        line_range: Some(LineRange { start: 1, end: 1 }),
        description: text("function"),
        risk: RiskLevel::Medium,
    };
    let mut manifest = differential_replay_artifact("rust", &vec![target.clone()]);
    let mut body: Value = serde_json::from_str(&manifest.contents).unwrap();
    let name = body["targets"][0]["cases"][0]["name"].as_str().expect("name").to_string();
    body["targets"][0]["cases"][0]["inputs"] =
        serde_json::from_str("[0.1, 1e300, 2.5e-7, 123456789012345678901234567890]").unwrap();
    manifest.contents = body.to_string();
    let mut report = VerificationReport::empty();
    report.targets.push(target);
    let facts = vec![TargetFacts {
        source: text("pub fn parse_total(input: &str) -> f64 { 0.1 }"),
        observations: vec![NamedObservation {
            case_name: name,
            observation: BehaviorReplayObservation {
                status: BehaviorReplayStatus::Observed,
                output: Json::Number(text("0.30000000000000004")),
                command: None,
                duration_ms: Some(3),
                stdout_excerpt: None,
                stderr_excerpt: None,
            },
        }],
    }];
    let pending = vec![manifest];
    let (artifacts, failures) = replay_result_artifacts("rust", &report, &pending, &facts, &None);
    assert!(failures.is_empty());
    let baseline = artifacts
        .iter()
        .find(|artifact| artifact.id == "rust-behavior-baseline")
        .expect("baseline");
    assert!(baseline.contents.contains("0.30000000000000004"));
    let written = Some(baseline.contents.clone());
    let (again, failures) = replay_result_artifacts("rust", &report, &pending, &facts, &written);
    assert!(failures.is_empty());
    let result: Value = serde_json::from_str(&again[1].contents).unwrap();
    let comparisons = result["comparisons"].as_array().unwrap();
    assert!(!comparisons.is_empty());
    assert!(comparisons.iter().all(|comparison| comparison["outcome"] == "unchanged"));
}

#[test]
fn one_id_for_two_behaviors_drifts() {
    let named = |id: &str| VerificationTarget {
        id: text(id),
        language: text("rust"),
        kind: TargetKind::Function,
        path: text("src/lib.rs"),
        symbol: Some(text("parse_total")),
        signature: Some(text("pub fn parse_total(input: &str) -> u64")),
        line_range: Some(LineRange { start: 1, end: 1 }),
        description: text("function"),
        risk: RiskLevel::Medium,
    };
    let targets = vec![named("rust:a"), named("rust:a::b")];
    let mut manifest = differential_replay_artifact("rust", &targets);
    let mut body: Value = serde_json::from_str(&manifest.contents).unwrap();
    for (place, case) in ["b::c", "c"].iter().enumerate() {
        let mut only = body["targets"][place]["cases"][0].clone();
        only["name"] = Value::String(text(case));
        body["targets"][place]["cases"] = Value::Array(vec![only]);
    }
    manifest.contents = body.to_string();
    let mut report = VerificationReport::empty();
    report.targets = targets;
    let fact = |source: &str| TargetFacts { source: text(source), observations: Vec::new() };
    let pending = vec![manifest];
    let differ = vec![fact("one"), fact("two")];
    let (first, _) = replay_result_artifacts("rust", &report, &pending, &differ, &None);
    let written = Some(first[0].contents.clone());
    let (_, failures) = replay_result_artifacts("rust", &report, &pending, &differ, &written);
    assert_eq!(failures.len(), 1);
    let (second, _) = replay_result_artifacts("rust", &report, &pending, &differ, &written);
    assert_eq!(second[0], first[0]);
}
