//! Texts, numbers, orders, paths and names.
use veritas::api::{Failure, FailureSeverity, LineRange, ReproCase, VerificationReport};
use veritas::changes::{
    can_count_hunk, can_read_diff, changed_files, diff_excerpt, merge_artifact_contents,
    parse_added_hunk_range, parse_unified_diff, path_matches_language, should_ignore_changed_path,
};
use veritas::counts::{format_counts, label_counts, sum_counts};
use veritas::engine::{accepted_finding_ids, normalize_target_path, save_accepted_ids};
use veritas::findings::{
    assertion_domain, extract_minimized_input, finding_language, parse_replacement,
    semantic_packs_for_domain, semantic_packs_for_domain_name, texts_of2,
};
use veritas::generated::stable_slug;
use veritas::ids::{accept_findings, assign_finding_ids, fnv1a64, stable_finding_id};
use veritas::number::{print_hex, print_i64, print_plus, print_u128, read_u32, read_usize};
use veritas::offsets::{char_index, replace_piece, text_piece};
use veritas::order::{has, insert, text_less, to_sorted_set, ByText};
use veritas::paths::{package_dir, path_less, path_same, ByPath};
use veritas::records::AssertionDomain;
use veritas::split::{join, lines, split_whitespace, trim};
use veritas::text::{
    chars_of, contains, rsplit_once_text, split_once, strip_prefix, strip_suffix, to_lower,
};

fn text(value: &str) -> String {
    value.to_string()
}

fn texts(values: &[&str]) -> Vec<String> {
    values.iter().map(|value| value.to_string()).collect()
}

fn finding(message: &str) -> Failure {
    Failure {
        id: None,
        message: text(message),
        severity: FailureSeverity::Warning,
        target_id: Some(text("go:pkg/a.go:Add")),
        artifact_id: None,
        command: text("go test ./pkg"),
        stdout_excerpt: String::new(),
        stderr_excerpt: String::new(),
        repro: None,
    }
}

#[test]
fn texts_are_cut_and_joined() {
    assert_eq!(lines("a\r\nb\n\nc"), texts(&["a", "b", "", "c"]));
    assert_eq!(lines("a\n"), texts(&["a"]));
    assert_eq!(split_whitespace("  go   test\t./... "), texts(&["go", "test", "./..."]));
    assert_eq!(join(&texts(&["a", "b"]), ", "), "a, b");
    assert_eq!(trim(" \n x y\t"), "x y");
    assert_eq!(strip_prefix("fuzz: elapsed", "fuzz: "), Some(text("elapsed")));
    assert_eq!(strip_prefix("fuzz", "go"), None);
    assert_eq!(strip_suffix("a_suite.json", ".json"), Some(text("a_suite")));
    assert_eq!(split_once("a=b=c", '='), Some((text("a"), text("b=c"))));
    assert_eq!(
        rsplit_once_text("a_generation_b_generation_3", "_generation_"),
        Some((text("a_generation_b"), text("3")))
    );
    assert!(contains("mutation survived", "survived"));
    assert!(!contains("mutation", "survived"));
    assert_eq!(to_lower("Go ÄB"), "go Äb");
}

#[test]
fn numbers_print_and_read_back() {
    assert_eq!(print_u128(340282366920938463463374607431768211455), "340282366920938463463374607431768211455");
    assert_eq!(print_i64(-42), "-42");
    assert_eq!(print_i64(i64::MIN), "-9223372036854775808");
    assert_eq!(print_plus(7), "+7");
    assert_eq!(print_plus(-7), "-7");
    assert_eq!(print_plus(0), "+0");
    assert_eq!(print_hex(0), "0000000000000000");
    assert_eq!(print_hex(0xcbf29ce484222325), "cbf29ce484222325");
    assert_eq!(read_u32("4294967295"), Some(4294967295));
    assert_eq!(read_u32("4294967296"), None);
    assert_eq!(read_u32("+12"), Some(12));
    assert_eq!(read_u32(""), None);
    assert_eq!(read_u32("1x"), None);
    assert_eq!(read_usize("007"), Some(7));
}

#[test]
fn texts_are_ordered_by_their_bytes() {
    assert!(text_less("Z", "a"));
    assert!(text_less("a", "aa"));
    assert!(!text_less("a", "a"));
    let mut items = to_sorted_set::<ByText>(&texts(&["b", "a", "b", "Z"]));
    assert_eq!(items, texts(&["Z", "a", "b"]));
    insert::<ByText>(&mut items, text("aa"));
    insert::<ByText>(&mut items, text("a"));
    assert_eq!(items, texts(&["Z", "a", "aa", "b"]));
    assert!(has::<ByText>(&items, "aa"));
    assert!(!has::<ByText>(&items, "c"));
}

#[test]
fn paths_are_ordered_by_their_parts() {
    assert!(path_less("a/b", "a-b"));
    assert!(text_less("a-b", "a/b"));
    assert!(path_same("a//b/./c", "a/b/c"));
    assert!(!path_same("a/b", "a/c"));
    assert_eq!(
        to_sorted_set::<ByPath>(&texts(&["b", "a-b", "a/b"])),
        texts(&["a/b", "a-b", "b"])
    );
    assert_eq!(package_dir("pkg/sub/a.go"), "pkg/sub");
    assert_eq!(package_dir("a.go"), ".");
    assert_eq!(normalize_target_path("/repo", "/repo/pkg/a.go"), "pkg/a.go");
    assert_eq!(normalize_target_path("/repo", "pkg/a.go"), "pkg/a.go");
    assert_eq!(normalize_target_path("/repo", "/repo//pkg/./a.go/"), "pkg/./a.go");
    assert_eq!(normalize_target_path("/repo/", "/repo/./../x"), "../x");
    assert_eq!(normalize_target_path("/", "//a"), "a");
    assert_eq!(normalize_target_path("/repo", "/repo/."), ".");
    assert_eq!(normalize_target_path("", "./a//b/."), "./a//b");
    assert_eq!(normalize_target_path(".", "a/b"), "a/b");
    assert_eq!(normalize_target_path("/repo", "/report/a"), "/report/a");
}

#[test]
fn pieces_of_a_text_are_found_by_byte() {
    let chars = chars_of("aäb");
    assert_eq!(char_index(&chars, 1), Some(1));
    assert_eq!(char_index(&chars, 2), None);
    assert_eq!(char_index(&chars, 3), Some(2));
    assert_eq!(text_piece(&chars, 1, 3), Some(text("ä")));
    assert_eq!(text_piece(&chars, 2, 3), None);
    let changed = replace_piece("if a < b {", 5, 6, ">=").expect("replacement");
    assert_eq!(changed, "if a >= b {");
    assert_eq!(replace_piece(&changed, 5, 7, "<"), Some(text("if a < b {")));
    assert_eq!(replace_piece("ä", 1, 2, "x"), None);
}

#[test]
fn slugs_are_plain_and_stay() {
    assert_eq!(stable_slug("Go: pkg/A.go::Add!"), "go-pkg-a-go-add");
    assert_eq!(stable_slug(&stable_slug("Go: pkg/A.go::Add!")), "go-pkg-a-go-add");
    assert_eq!(stable_slug("--"), "");
}

#[test]
fn ids_are_stable_and_ignore_output() {
    assert_eq!(fnv1a64(&Vec::new()), 0xcbf29ce484222325);
    assert_eq!(fnv1a64(&b"a".to_vec()), 0xaf63dc4c8601ec8c);
    let mut loud = finding("boom");
    loud.stdout_excerpt = text("noise");
    loud.severity = FailureSeverity::Critical;
    loud.command = text("other");
    assert_eq!(stable_finding_id(&finding("boom")), stable_finding_id(&loud));
    assert_ne!(stable_finding_id(&finding("boom")), stable_finding_id(&finding("bang")));
    let mut replayed = finding("boom");
    replayed.repro = Some(ReproCase { command: text("go test"), input: None, path: None });
    assert_ne!(stable_finding_id(&finding("boom")), stable_finding_id(&replayed));
    assert!(stable_finding_id(&finding("boom")).starts_with("vts-"));

    let mut report = VerificationReport::empty();
    let mut given = finding("kept");
    given.id = Some(text("vts-given"));
    report.findings = vec![finding("boom"), given];
    assign_finding_ids(&mut report);
    let first = report.findings[0].id.clone();
    assert_eq!(first, Some(stable_finding_id(&finding("boom"))));
    assert_eq!(report.findings[1].id, Some(text("vts-given")));
    assign_finding_ids(&mut report);
    assert_eq!(report.findings[0].id, first);
}

#[test]
fn accepted_ids_grow_and_read_back() {
    let mut report = VerificationReport::empty();
    report.findings = vec![finding("boom"), finding("bang")];
    assign_finding_ids(&mut report);
    let boom = report.findings[0].id.clone().expect("id");
    let one = accept_findings(&report, texts(&["vts-z"]), &vec![boom.clone()], false);
    assert!(one.accepted_ids.contains(&boom));
    assert!(one.accepted_ids.contains(&text("vts-z")));
    assert_eq!(one.accepted_ids.len(), 2);
    let all = accept_findings(&report, texts(&["vts-z"]), &Vec::new(), true);
    assert_eq!(all.accepted_ids.len(), 3);
    let saved = save_accepted_ids(&all.accepted_ids);
    assert_eq!(accepted_finding_ids(&Some(saved)), Some(all.accepted_ids));
    assert_eq!(accepted_finding_ids(&Some(text("[\"b\", \"a\", \"b\"]"))), Some(texts(&["a", "b"])));
    assert_eq!(accepted_finding_ids(&Some(text("{}"))), None);
    assert_eq!(accepted_finding_ids(&Some(text("["))), None);
    assert_eq!(accepted_finding_ids(&None), Some(Vec::new()));
}

#[test]
fn ranges_overlap_where_a_line_is_common() {
    let a = LineRange { start: 1, end: 4 };
    let b = LineRange { start: 4, end: 9 };
    let c = LineRange { start: 5, end: 9 };
    assert!(a.overlaps(&b) && b.overlaps(&a));
    assert!(!a.overlaps(&c) && !c.overlaps(&a));
}

#[test]
fn counts_are_ordered_by_label() {
    let counts = label_counts(&texts(&["lived", "killed", "lived"]));
    assert_eq!(format_counts(&counts), "killed=1, lived=2");
    assert_eq!(sum_counts(&counts), 3);
    assert_eq!(sum_counts(&Vec::new()), 0);
}

#[test]
fn hunks_name_the_lines_that_were_added() {
    assert_eq!(
        parse_added_hunk_range("@@ -1,2 +10,3 @@ fn a()"),
        Some(LineRange { start: 10, end: 12 })
    );
    assert_eq!(parse_added_hunk_range("@@ -1 +7 @@"), Some(LineRange { start: 7, end: 7 }));
    assert_eq!(
        parse_added_hunk_range("@@ -1,2 +10,0 @@"),
        Some(LineRange { start: 10, end: 10 })
    );
    assert_eq!(parse_added_hunk_range("@@ -1,2 +x @@"), None);
    assert_eq!(parse_added_hunk_range("not a hunk"), None);
    assert!(can_count_hunk("@@ -1,2 +10,3 @@"));
    assert!(!can_count_hunk("@@ -1,2 +18446744073709551615,3 @@"));
}

#[test]
fn changed_files_are_ordered_and_named_once() {
    let diff = "+++ b/src/z.rs\n@@ -1 +1 @@\n+++ b/src/a.rs\n@@ -2 +2,2 @@\n+++ /dev/null\n";
    assert!(can_read_diff(diff));
    let parsed = parse_unified_diff(diff);
    assert_eq!(
        parsed.iter().map(|file| file.path.as_str()).collect::<Vec<_>>(),
        vec!["src/a.rs", "src/z.rs"]
    );
    let files = changed_files(
        &texts(&[diff, "+++ b/src/z.rs\n@@ -9 +9 @@\n"]),
        &Some(text("notes.md\n.veritas/report.json\n")),
    );
    assert_eq!(
        files.iter().map(|file| file.path.as_str()).collect::<Vec<_>>(),
        vec!["notes.md", "src/a.rs", "src/z.rs"]
    );
    assert_eq!(files[2].ranges.len(), 2);
    assert!(should_ignore_changed_path(".veritas/report.json"));
    assert!(!should_ignore_changed_path("src/a.rs"));
    assert!(path_matches_language("go", "a.go"));
    assert!(path_matches_language("rust", "src/lib.rs"));
    assert!(!path_matches_language("rust", "a.go"));
    assert_eq!(diff_excerpt("short"), "short");
}

#[test]
fn merged_contents_hold_each_line_once() {
    assert_eq!(merge_artifact_contents("a\nb", "b\nc"), "a\nb\nc\n");
}

#[test]
fn findings_say_what_they_are_about() {
    assert_eq!(finding_language(&finding("x")), Some(text("go")));
    assert_eq!(
        parse_replacement("replace `<` with `>=` and run tests"),
        Some((text("<"), text(">=")))
    );
    assert_eq!(parse_replacement("run tests"), None);
    assert_eq!(
        assertion_domain(&finding("mutation survived: permission check")),
        AssertionDomain::AuthPermission
    );
    assert_eq!(
        semantic_packs_for_domain_name("boundary"),
        semantic_packs_for_domain(AssertionDomain::Boundary)
    );
    assert_eq!(texts_of2("a", "b"), texts(&["a", "b"]));
    assert_eq!(extract_minimized_input("nothing here"), None);
}
