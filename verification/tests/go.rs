//! The plugin for Go.
use veritas::api::{
    ArtifactKind, ArtifactStatus, GeneratedArtifact, LineRange, RiskLevel, TargetKind,
    VerificationTarget,
};
use veritas::config::{GoPluginConfig, MutationConfig};
use veritas::go_fuzz::{
    add_fuzz_file, handwritten_fuzz_exists, relevant_fuzz_targets, render_fuzz_file, GoFuzzTargets,
};
use veritas::go_mutation::go_mutation_candidates;
use veritas::go_packages::{
    go_test_args, module_package_args, scoped_package_args, scoped_package_dirs, GoModule,
    GoPackage,
};
use veritas::go_plugin::{package_awareness_artifact, symbol_graph_artifact, GoVerificationContext};
use veritas::go_run::parse_go_fuzz_repro_path;
use veritas::go_source::{
    functions_in_file, fuzz_names_in_file, is_generated_fuzz_file, parse_fuzz_params, GoFunction,
    GoParam,
};
use veritas::pathmap::{find_texts, PathTexts};

fn text(value: &str) -> String {
    value.to_string()
}

fn texts(values: &[&str]) -> Vec<String> {
    values.iter().map(|value| value.to_string()).collect()
}

fn test_go_config() -> GoPluginConfig {
    GoPluginConfig {
        fuzz_seconds: 1,
        fuzz_existing: true,
        fuzz_concurrency: 2,
        coverage_enabled: true,
        reverse_dependency_depth: 1,
        max_fuzz_targets: 20,
        command_timeout_seconds: 10,
        max_packages: 64,
        max_mutants: 8,
        build_tags: Vec::new(),
        mutation: MutationConfig::default(),
    }
}

fn test_package(
    import_path: &str,
    dir: &str,
    imports: &[&str],
    test_imports: &[&str],
    x_test_imports: &[&str],
) -> GoPackage {
    GoPackage {
        import_path: text(import_path),
        dir: text(dir),
        imports: texts(imports),
        test_imports: texts(test_imports),
        x_test_imports: texts(x_test_imports),
        go_files: vec![format!("{}.go", dir.rsplit('/').next().unwrap_or("pkg"))],
        test_go_files: Vec::new(),
        x_test_go_files: Vec::new(),
    }
}

fn empty_context() -> GoVerificationContext {
    GoVerificationContext {
        modules: Vec::new(),
        packages: Vec::new(),
        functions: Vec::new(),
        fuzz_targets: no_fuzz_targets(),
    }
}

fn no_fuzz_targets() -> GoFuzzTargets {
    GoFuzzTargets { handwritten: Vec::new(), generated: Vec::new() }
}

/// The fuzz targets of files, by their paths and contents.
fn fuzz_targets_of(files: &[(&str, &str)]) -> GoFuzzTargets {
    let mut targets = no_fuzz_targets();
    for (path, contents) in files {
        let names = fuzz_names_in_file(contents).expect("fuzz discovery succeeds");
        add_fuzz_file(&mut targets, path, is_generated_fuzz_file(path, contents), &names);
    }
    targets
}

fn mutation_artifact(id: &str, target_id: &str, path: &str) -> GeneratedArtifact {
    GeneratedArtifact {
        id: text(id),
        language: text("go"),
        kind: ArtifactKind::MutationCheck,
        target_id: text(target_id),
        path: text(path),
        contents: String::new(),
        description: String::new(),
        status: ArtifactStatus::Planned,
    }
}

fn parse_total(params: Vec<GoParam>, signature: &str) -> GoFunction {
    GoFunction {
        package_name: text("invoice"),
        path: text("pkg/invoice/invoice.go"),
        name: text("ParseTotal"),
        symbol: text("ParseTotal"),
        receiver: None,
        params,
        signature: text(signature),
        line_range: LineRange { start: 1, end: 3 },
        start_byte: 0,
        end_byte: 10,
        calls: Vec::new(),
    }
}

fn param(name: &str, type_text: &str) -> GoParam {
    GoParam { name: text(name), type_text: text(type_text) }
}

#[test]
fn parses_multiple_supported_fuzz_params() {
    let params =
        parse_fuzz_params("(name string, count int, payload []byte)").expect("params parse");
    assert_eq!(params.len(), 3);
    assert_eq!(params[0].name, "name");
    assert_eq!(params[0].type_text, "string");
    assert_eq!(params[1].name, "count");
    assert_eq!(params[1].type_text, "int");
    assert_eq!(params[2].name, "payload");
    assert_eq!(params[2].type_text, "[]byte");
}

#[test]
fn parses_grouped_go_param_names() {
    let params = parse_fuzz_params("(left, right string)").expect("params parse");
    assert_eq!(params.len(), 2);
    assert_eq!(params[0].name, "left");
    assert_eq!(params[0].type_text, "string");
    assert_eq!(params[1].name, "right");
    assert_eq!(params[1].type_text, "string");
}

#[test]
fn renders_multi_arg_go_fuzz_harness() {
    let function = parse_total(
        vec![param("input", "string"), param("round", "bool")],
        "func ParseTotal(input string, round bool)",
    );
    let rendered = render_fuzz_file(&vec![function]);
    assert!(rendered.contains("package invoice"));
    assert!(rendered.contains("f.Add(\"veritas-seed\", true)"));
    assert!(rendered.contains("f.Add(\"\", false)"));
    assert!(rendered.contains("f.Add(\" 0 \", true)"));
    assert!(rendered.contains("func(t *testing.T, input0 string, round bool)"));
    assert!(rendered.contains("ParseTotal(input0, round)"));
}

#[test]
fn handwritten_fuzz_targets_suppress_duplicate_generated_harnesses() {
    let function = parse_total(vec![param("input", "string")], "func ParseTotal(input string)");
    let mut context = empty_context();
    context.fuzz_targets.handwritten.push(PathTexts {
        path: text("pkg/invoice"),
        texts: texts(&["FuzzParseTotal"]),
    });
    assert!(handwritten_fuzz_exists(&context.fuzz_targets, "pkg/invoice", &function));
}

#[test]
fn scoped_package_args_include_direct_reverse_dependencies() {
    let packages = vec![
        test_package("example.com/app/pkg/a", "pkg/a", &[], &[], &[]),
        test_package("example.com/app/pkg/b", "pkg/b", &["example.com/app/pkg/a"], &[], &[]),
        test_package("example.com/app/pkg/c", "pkg/c", &[], &[], &[]),
    ];
    let args = scoped_package_args(&packages, &texts(&["pkg/a"]));
    assert_eq!(args, texts(&["./pkg/a", "./pkg/b"]));
}

#[test]
fn scoped_package_dirs_respect_transitive_depth_and_test_imports() {
    let packages = vec![
        test_package("example.com/app/pkg/a", "pkg/a", &[], &[], &[]),
        test_package("example.com/app/pkg/b", "pkg/b", &["example.com/app/pkg/a"], &[], &[]),
        test_package("example.com/app/pkg/c", "pkg/c", &["example.com/app/pkg/b"], &[], &[]),
        test_package("example.com/app/pkg/d", "pkg/d", &[], &[], &["example.com/app/pkg/a"]),
    ];
    let selected = texts(&["pkg/a"]);
    let depth_one = scoped_package_dirs(&packages, &selected, 1, usize::MAX);
    let depth_two = scoped_package_dirs(&packages, &selected, 2, usize::MAX);
    assert_eq!(depth_one, texts(&["pkg/a", "pkg/b", "pkg/d"]));
    assert!(depth_two.contains(&text("pkg/c")));
}

#[test]
fn scoped_package_dirs_enforce_package_limit_without_dropping_selected_first() {
    let packages = vec![
        test_package("example.com/app/pkg/a", "pkg/a", &[], &[], &[]),
        test_package("example.com/app/pkg/b", "pkg/b", &["example.com/app/pkg/a"], &[], &[]),
        test_package("example.com/app/pkg/c", "pkg/c", &["example.com/app/pkg/a"], &[], &[]),
    ];
    let dirs = scoped_package_dirs(&packages, &texts(&["pkg/a"]), 1, 2);
    assert!(dirs.contains(&text("pkg/a")));
    assert_eq!(dirs.len(), 2);
}

#[test]
fn existing_fuzz_targets_are_limited_to_selected_artifact_packages() {
    let fuzz_targets = fuzz_targets_of(&[
        (
            "pkg/invoice/invoice_test.go",
            "package invoice\n\nimport \"testing\"\n\nfunc FuzzParseTotal(f *testing.F) {}\n",
        ),
        (
            "pkg/other/other_test.go",
            "package other\n\nimport \"testing\"\n\nfunc FuzzOther(f *testing.F) {}\n",
        ),
    ]);
    let artifact = mutation_artifact(
        "go-mutation-pkg-invoice",
        "go:pkg/invoice",
        ".veritas/mutations/go_pkg_invoice.txt",
    );
    let targets = relevant_fuzz_targets(&fuzz_targets, &vec![artifact], &test_go_config());
    assert_eq!(find_texts(&targets, "pkg/invoice"), Some(&texts(&["FuzzParseTotal"])));
    assert!(find_texts(&targets, "pkg/other").is_none());
}

#[test]
fn existing_fuzz_targets_are_capped_per_package() {
    let artifact = mutation_artifact(
        "go-mutation-pkg-invoice",
        "go:pkg/invoice",
        ".veritas/mutations/go_pkg_invoice.txt",
    );
    let mut fuzz_targets = no_fuzz_targets();
    fuzz_targets.handwritten.push(PathTexts {
        path: text("pkg/invoice"),
        texts: texts(&["FuzzB", "FuzzA"]),
    });
    let mut config = test_go_config();
    config.max_fuzz_targets = 1;
    let targets = relevant_fuzz_targets(&fuzz_targets, &vec![artifact], &config);
    assert_eq!(find_texts(&targets, "pkg/invoice"), Some(&texts(&["FuzzA"])));
}

#[test]
fn discovers_generated_and_handwritten_fuzz_targets_separately() {
    let targets = fuzz_targets_of(&[
        (
            "pkg/invoice/invoice_test.go",
            "package invoice\n\nimport \"testing\"\n\nfunc FuzzHandwritten(f *testing.F) {}\n",
        ),
        (
            "pkg/invoice/veritas_fuzz_test.go",
            "// Generated by veritas. Review before committing.\npackage invoice\n\nimport \"testing\"\n\nfunc FuzzGenerated(f *testing.F) {}\n",
        ),
    ]);
    assert_eq!(
        find_texts(&targets.handwritten, "pkg/invoice"),
        Some(&texts(&["FuzzHandwritten"]))
    );
    assert_eq!(
        find_texts(&targets.generated, "pkg/invoice"),
        Some(&texts(&["FuzzGenerated"]))
    );
}

#[test]
fn package_awareness_artifact_reports_tests_and_fuzz_gaps() {
    let mut context = empty_context();
    let mut package = test_package("example.com/app/pkg/a", "pkg/a", &[], &[], &[]);
    package.test_go_files = texts(&["a_test.go"]);
    context.packages.push(package);
    let target = VerificationTarget {
        id: text("go:pkg/a"),
        language: text("go"),
        kind: TargetKind::Package,
        path: text("pkg/a"),
        symbol: None,
        signature: None,
        line_range: None,
        description: text("package"),
        risk: RiskLevel::Medium,
    };
    let artifact =
        package_awareness_artifact(&context, &test_go_config(), &target, &texts(&["pkg/a"]))
            .expect("package awareness artifact");
    assert_eq!(artifact.kind, ArtifactKind::PackageAwareness);
    assert!(artifact.contents.contains("| `pkg/a` |"));
    assert!(artifact.contents.contains("internal"));
    assert!(artifact.contents.contains("has tests but no handwritten fuzz target"));
}

#[test]
fn discovers_exported_functions_even_when_params_are_not_fuzzable() {
    let functions = functions_in_file(
        "invoice.go",
        "package invoice\n\ntype Request struct{}\n\nfunc ValidateInvoice(input Request) bool { return true }\n",
    )
    .expect("discover functions");
    assert_eq!(functions.len(), 1);
    assert_eq!(functions[0].name, "ValidateInvoice");
    assert!(functions[0].params.is_empty());
}

#[test]
fn discovers_exported_methods_with_receiver_symbols_and_calls() {
    let functions = functions_in_file(
        "invoice.go",
        "package invoice\n\ntype Service struct{}\n\nfunc (s *Service) AuthorizeRefund(amount int) bool {\n\treturn s.limit(amount)\n}\n\nfunc (s *Service) limit(amount int) bool { return true }\n",
    )
    .expect("discover functions");
    let method = functions
        .iter()
        .find(|function| function.symbol == "Service.AuthorizeRefund")
        .expect("exported method");
    assert_eq!(method.receiver.as_deref(), Some("Service"));
    assert!(method.calls.contains(&text("s.limit")));
    assert!(!functions.iter().any(|function| function.symbol == "Service.limit"));
}

#[test]
fn go_symbol_graph_artifact_reports_methods() {
    let mut context = empty_context();
    context.functions.push(GoFunction {
        package_name: text("invoice"),
        path: text("invoice.go"),
        name: text("AuthorizeRefund"),
        symbol: text("Service.AuthorizeRefund"),
        receiver: Some(text("Service")),
        params: Vec::new(),
        signature: text("func (s *Service) AuthorizeRefund(amount int) bool"),
        line_range: LineRange { start: 3, end: 5 },
        start_byte: 0,
        end_byte: 20,
        calls: texts(&["s.limit"]),
    });
    let artifact = symbol_graph_artifact(
        &context,
        "go:invoice.go:Service.AuthorizeRefund",
        "invoice.go",
        &Some(text("Service.AuthorizeRefund")),
    );
    assert_eq!(artifact.kind, ArtifactKind::SymbolGraph);
    assert!(artifact.contents.contains("Service.AuthorizeRefund"));
    assert!(artifact.contents.contains("s.limit"));
}

#[test]
fn mutation_candidates_come_from_ast_nodes_not_string_literals() {
    let source = "package invoice\n\nfunc ParseInvoiceTotal(input string) int {\n\t_ = \"err != nil\"\n\ttotal := len(input)+1\n\ttotal += 2\n\tmask := total & 3\n\tmask ^= 1\n\tnegate := -total\n\tfor i := 0; i < 3; i++ {\n\t\tif i == 2 {\n\t\t\tbreak\n\t\t}\n\t\tcontinue\n\t}\n\tif !(input == \"\") || mask<<1 > 10 {\n\t\treturn 0\n\t}\n\ttotal = total\n\treturn total + negate\n}\n";
    let functions = functions_in_file("invoice.go", source).expect("discover functions");
    let artifact = mutation_artifact(
        "go-mutation-invoice",
        "go:invoice.go:ParseInvoiceTotal",
        ".veritas/mutations/go_invoice.txt",
    );
    let candidates = go_mutation_candidates(&functions, &vec![artifact], "invoice.go", source)
        .expect("mutations");
    assert!(candidates.iter().any(|candidate| candidate.from == "=="));
    assert!(candidates.iter().any(|candidate| candidate.from == "||"));
    assert!(candidates.iter().any(|candidate| candidate.from == "+"));
    assert!(candidates.iter().any(|candidate| candidate.from == ">"));
    assert!(candidates.iter().any(|candidate| candidate.from == "&"));
    assert!(candidates.iter().any(|candidate| candidate.from == "<<"));
    assert!(candidates.iter().any(|candidate| candidate.from == "+="));
    assert!(candidates.iter().any(|candidate| candidate.from == "^="));
    assert!(candidates.iter().any(|candidate| candidate.from == "++"));
    assert!(candidates
        .iter()
        .any(|candidate| candidate.from == "break" && candidate.to == "continue"));
    assert!(candidates
        .iter()
        .any(|candidate| candidate.from == "continue" && candidate.to == "break"));
    assert!(candidates.iter().any(|candidate| candidate.label.contains("negation")));
    assert!(candidates.iter().any(|candidate| candidate.label.contains("literal")));
    assert!(candidates
        .iter()
        .any(|candidate| candidate.label.contains("self-assignment")));
    assert!(!candidates.iter().any(|candidate| candidate.from == "err != nil"));
}

#[test]
fn parses_go_fuzz_corpus_repro_paths() {
    let output = "failing input written to testdata/fuzz/FuzzParse/abc123\n";
    let path = parse_go_fuzz_repro_path(output).expect("parse repro path");
    assert_eq!(path, "testdata/fuzz/FuzzParse/abc123");
}

#[test]
fn go_test_args_include_build_tags_before_packages() {
    let mut config = test_go_config();
    config.build_tags = texts(&["integration", "sqlite"]);
    let args = go_test_args(&config, &texts(&["./pkg/a"]));
    assert_eq!(args, texts(&["test", "-tags=integration,sqlite", "./pkg/a"]));
}

#[test]
fn module_package_args_group_repo_paths_by_owning_module() {
    let modules = vec![
        GoModule { declared_path: text("example.com/root"), root: text(".") },
        GoModule { declared_path: text("example.com/service"), root: text("services/api") },
    ];
    let grouped = module_package_args(
        &modules,
        &texts(&["./pkg/root", "./services/api/pkg/http"]),
    );
    assert_eq!(find_texts(&grouped, "."), Some(&texts(&["./pkg/root"])));
    assert_eq!(find_texts(&grouped, "services/api"), Some(&texts(&["./pkg/http"])));
}
