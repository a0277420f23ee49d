//! Regression notes, promotions and feedback on findings and coverage.
use vstd::prelude::*;

use crate::api::{
    push_failure, push_generated_artifact, ArtifactKind, CoverageFile, CoverageFileModel,
    CoverageReport, CoverageReportModel, Failure, FailureModel, GeneratedArtifact,
    GeneratedArtifactModel, ReproCase, ReproCaseModel, VerificationReport, VerificationReportModel,
};
use crate::findings::{
    extract_minimized_input, finding_language, known_target, minimized_input, parse_replacement,
    plan_artifact, planned, replacement, should_generate_regression_artifact, target_language,
    target_or_unknown, wants_regression,
};
use crate::number::{decimal, print_usize};
use crate::records::{PromotionSummary, PromotionSummaryModel};
use crate::seqs::{cat2, cat3, cat5, lemma_take_all, lemma_take_next};
use crate::split::{join, joined, trim, trimmed};
use crate::text::{contains, has_text, or_text, owned, rcut_at, rsplit_once, same, text_or};
use crate::paths::{path_parts, starts_with as path_starts_with};

verus! {

// ---------------------------------------------------------------------------
// Regression notes
// ---------------------------------------------------------------------------
/// The symbol of a target: what stands behind the last colon of its id.
pub open spec fn target_symbol(target_id: Option<Seq<char>>) -> Seq<char> {
    match target_id {
        Some(id) => match rcut_at(id, ':') {
            Some(sides) => sides.1,
            None => "target"@,
        },
        None => "target"@,
    }
}

fn symbol_of_target(target_id: &Option<String>) -> (r: String)
    ensures
        r@ == target_symbol(target_id.deep_view()),
{
    match target_id {
        Some(id) => match rsplit_once(id.as_str(), ':') {
            Some(sides) => sides.1,
            None => owned("target"),
        },
        None => owned("target"),
    }
}

/// The two sides of a repro's replacement, or `old` and `new`.
pub open spec fn sides_of(command: Seq<char>) -> (Seq<char>, Seq<char>) {
    match replacement(command) {
        Some(sides) => sides,
        None => ("old"@, "new"@),
    }
}

/// The shape of a regression test in a language.
pub open spec fn test_shape_text(language: Seq<char>) -> Seq<char> {
    if language == "rust"@ {
        "Suggested Rust test shape:\n\n```rust\n#[test]\nfn veritas_mutation_regression() {\n    // Arrange the boundary or branch named by the finding.\n    // Assert the exact expected value so the mutant is killed.\n}\n```\n"@
    } else if language == "go"@ {
        "Suggested Go test shape:\n\n```go\nfunc TestVeritasMutationRegression(t *testing.T) {\n\t// Arrange the boundary or branch named by the finding.\n\t// Assert the exact expected value so the mutant is killed.\n}\n```\n"@
    } else {
        "Suggested test shape: add a named regression that asserts the exact old/new behavior at the mutated boundary.\n"@
    }
}

fn test_shape(language: &str) -> (r: &'static str)
    ensures
        r@ == test_shape_text(language@),
{
    if same(language, "rust") {
        "Suggested Rust test shape:\n\n```rust\n#[test]\nfn veritas_mutation_regression() {\n    // Arrange the boundary or branch named by the finding.\n    // Assert the exact expected value so the mutant is killed.\n}\n```\n"
    } else if same(language, "go") {
        "Suggested Go test shape:\n\n```go\nfunc TestVeritasMutationRegression(t *testing.T) {\n\t// Arrange the boundary or branch named by the finding.\n\t// Assert the exact expected value so the mutant is killed.\n}\n```\n"
    } else {
        "Suggested test shape: add a named regression that asserts the exact old/new behavior at the mutated boundary.\n"
    }
}

/// How to write a regression for a surviving replacement.
pub open spec fn mutant_regression_text(
    language: Seq<char>,
    symbol: Seq<char>,
    from: Seq<char>,
    to: Seq<char>,
) -> Seq<char> {
    let t = "Create a focused "@
        + language
        + " regression for `"@
        + symbol
        + "` that fails if `"@
        + from
        + "` is replaced with `"@
        + to
        + "`.\n\n"@
        + test_shape_text(language);
    t
}

fn mutant_regression(language: &str, symbol: &str, from: &str, to: &str) -> (r: String)
    ensures
        r@ == mutant_regression_text(language@, symbol@, from@, to@),
{
    let mut out = owned("Create a focused ");
    out.append(language);
    out.append(" regression for `");
    out.append(symbol);
    out.append("` that fails if `");
    out.append(from);
    out.append("` is replaced with `");
    out.append(to);
    out.append("`.\n\n");
    out.append(test_shape(language));
    out
}

/// How to write a regression for a surviving mutant.
pub open spec fn mutation_advice(language: Seq<char>, finding: FailureModel) -> Seq<char> {
    match finding.repro {
        Some(repro) => mutant_regression_text(
            language,
            target_symbol(finding.target_id),
            sides_of(repro.command).0,
            sides_of(repro.command).1,
        ),
        None => "Add a focused assertion that fails when the described mutation is applied.\n"@,
    }
}

/// How to write a regression for a surviving mutant.
pub fn mutation_regression_text(language: &str, finding: &Failure) -> (r: String)
    ensures
        r@ == mutation_advice(language@, finding.deep_view()),
{
    let symbol = symbol_of_target(&finding.target_id);
    match &finding.repro {
        Some(repro) => {
            let sides = match parse_replacement(repro.command.as_str()) {
                Some(sides) => sides,
                None => (owned("old"), owned("new")),
            };
            mutant_regression(language, symbol.as_str(), sides.0.as_str(), sides.1.as_str())
        },
        None => owned(
            "Add a focused assertion that fails when the described mutation is applied.\n",
        ),
    }
}

/// The failing input that the output of a finding names.
pub open spec fn output_input(finding: FailureModel) -> Option<Seq<char>> {
    if minimized_input(finding.stdout_excerpt) is Some {
        minimized_input(finding.stdout_excerpt)
    } else {
        minimized_input(finding.stderr_excerpt)
    }
}

fn input_in_output(finding: &Failure) -> (r: Option<String>)
    ensures
        r.deep_view() == output_input(finding.deep_view()),
{
    match extract_minimized_input(finding.stdout_excerpt.as_str()) {
        Some(input) => Some(input),
        None => extract_minimized_input(finding.stderr_excerpt.as_str()),
    }
}

/// Whether a path is under the Go fuzz corpus.
pub open spec fn in_fuzz_corpus(path: Seq<char>) -> bool {
    path_parts("testdata/fuzz"@).is_prefix_of(path_parts(path))
}

/// The fuzz corpus file and command of a repro that has one.
pub open spec fn corpus_repro(repro: Option<ReproCaseModel>) -> Option<(Seq<char>, Seq<char>)> {
    match repro {
        Some(r) => match r.path {
            Some(path) => if in_fuzz_corpus(path) {
                Some((path, r.command))
            } else {
                None
            },
            None => None,
        },
        None => None,
    }
}

fn repro_in_corpus(repro: &Option<ReproCase>) -> (r: Option<(String, String)>)
    ensures
        r matches Some(p) ==> corpus_repro(repro.deep_view()) == Some((p.0@, p.1@)),
        r is None ==> corpus_repro(repro.deep_view()) is None,
{
    match repro {
        Some(value) => match &value.path {
            Some(path) => {
                if path_starts_with(path.as_str(), "testdata/fuzz") {
                    Some((path.clone(), value.command.clone()))
                } else {
                    None
                }
            },
            None => None,
        },
        None => None,
    }
}

/// How to promote a fuzz corpus entry.
pub open spec fn corpus_advice_text(path: Seq<char>, command: Seq<char>) -> Seq<char> {
    let t = "Keep the Go fuzz corpus entry `"@
        + path
        + "` and add a named unit regression that asserts the intended behavior for that input. Run `"@
        + command
        + "` after promotion.\n"@;
    t
}

fn corpus_advice(path: &str, command: &str) -> (r: String)
    ensures
        r@ == corpus_advice_text(path@, command@),
{
    let mut out = owned("Keep the Go fuzz corpus entry `");
    out.append(path);
    out.append("` and add a named unit regression that asserts the intended behavior for that input. Run `");
    out.append(command);
    out.append("` after promotion.\n");
    out
}

/// What to promote for a finding.
pub open spec fn regression_advice(language: Seq<char>, finding: FailureModel) -> Seq<char> {
    if has_text(finding.message, "mutation survived"@) {
        mutation_advice(language, finding)
    } else {
        match corpus_repro(finding.repro) {
            Some(entry) => corpus_advice_text(entry.0, entry.1),
            None => if has_text(finding.message, "cargo test failed"@) || has_text(
                finding.message,
                "go test failed"@,
            ) {
                "Promote the generated failing harness case into a stable handwritten regression test owned by the target package. The assertion should encode the expected behavior directly, not only `does not panic`.\n"@
            } else {
                "Persist the minimized input as a regression case and assert the intended behavior before accepting the finding.\n"@
            },
        }
    }
}

fn advice(language: &str, finding: &Failure) -> (r: String)
    ensures
        r@ == regression_advice(language@, finding.deep_view()),
{
    if contains(finding.message.as_str(), "mutation survived") {
        return mutation_regression_text(language, finding);
    }
    match repro_in_corpus(&finding.repro) {
        Some(entry) => corpus_advice(entry.0.as_str(), entry.1.as_str()),
        None => {
            if contains(finding.message.as_str(), "cargo test failed") || contains(
                finding.message.as_str(),
                "go test failed",
            ) {
                owned("Promote the generated failing harness case into a stable handwritten regression test owned by the target package. The assertion should encode the expected behavior directly, not only `does not panic`.\n")
            } else {
                owned("Persist the minimized input as a regression case and assert the intended behavior before accepting the finding.\n")
            }
        },
    }
}

/// The lines on the repro of a finding.
pub open spec fn repro_lines_text(repro: ReproCaseModel) -> Seq<char> {
    let t = "- Repro command: `"@ + repro.command + "`\n"@;
    let t = match repro.path {
        Some(path) => {
            let t = t + "- Repro path: `"@ + path + "`\n"@;
            t
        },
        None => {
            t
        },
    };
    let t = match repro.input {
        Some(input) => {
            let t = t + "- Repro input: `"@ + trimmed(input) + "`\n"@;
            t
        },
        None => {
            t
        },
    };
    t
}

fn repro_lines(repro: &ReproCase) -> (r: String)
    ensures
        r@ == repro_lines_text(repro.deep_view()),
{
    let mut out = owned("- Repro command: `");
    out.append(repro.command.as_str());
    out.append("`\n");
    if let Some(path) = &repro.path {
        out.append("- Repro path: `");
        out.append(path.as_str());
        out.append("`\n");
    }
    if let Some(input) = &repro.input {
        out.append("- Repro input: `");
        out.append(trim(input.as_str()).as_str());
        out.append("`\n");
    }
    out
}

/// The head of a regression note.
pub open spec fn regression_head_text(finding: FailureModel) -> Seq<char> {
    let t = "# Generated Regression Assertion\n\nGenerated by veritas. Review before committing.\n\n- Finding: "@
        + finding.message
        + "\n- Severity: "@
        + finding.severity.name_text()
        + "\n- Target: `"@
        + or_text(finding.target_id, "unknown"@)
        + "`\n- Original command: `"@
        + finding.command
        + "`\n"@;
    let t = match finding.repro {
        Some(repro) => {
            let t = t + repro_lines_text(repro);
            t
        },
        None => {
            t
        },
    };
    t
}

fn regression_head(finding: &Failure) -> (r: String)
    ensures
        r@ == regression_head_text(finding.deep_view()),
{
    let mut out = owned("# Generated Regression Assertion\n\nGenerated by veritas. Review before committing.\n\n- Finding: ");
    out.append(finding.message.as_str());
    out.append("\n- Severity: ");
    out.append(finding.severity.name());
    out.append("\n- Target: `");
    out.append(text_or(&finding.target_id, "unknown").as_str());
    out.append("`\n- Original command: `");
    out.append(finding.command.as_str());
    out.append("`\n");
    if let Some(repro) = &finding.repro {
        out.append(repro_lines(repro).as_str());
    }
    out
}

/// The note that asks for a regression test.
pub open spec fn regression_note_text(
    language: Seq<char>,
    finding: FailureModel,
    input: Option<Seq<char>>,
) -> Seq<char> {
    let t = regression_head_text(finding);
    let t = match input {
        Some(value) => {
            let t = t + "- Minimized input: `"@ + trimmed(value) + "`\n"@;
            t
        },
        None => {
            t
        },
    };
    let t = t + "\n## Assertion To Promote\n\n"@ + regression_advice(language, finding);
    t
}

fn regression_note(language: &str, finding: &Failure, input: &Option<String>) -> (r: String)
    ensures
        r@ == regression_note_text(language@, finding.deep_view(), input.deep_view()),
{
    let mut out = owned(regression_head(finding).as_str());
    if let Some(value) = &input {
        out.append("- Minimized input: `");
        out.append(trim(value.as_str()).as_str());
        out.append("`\n");
    }
    out.append("\n## Assertion To Promote\n\n");
    out.append(advice(language, finding).as_str());
    out
}

/// The regression note of one finding that calls for a test.
pub open spec fn regression_artifact(
    language: Seq<char>,
    finding: FailureModel,
    index: int,
) -> Option<GeneratedArtifactModel> {
    if wants_regression(finding.message) {
        Some(
            planned(
                language + "-regression-"@ + decimal(index),
                language,
                ArtifactKind::RegressionTest,
                target_or_unknown(finding.target_id, language),
                ".veritas/regressions/"@ + language + "_"@ + decimal(index) + ".md"@,
                regression_note_text(language, finding, output_input(finding)),
                "Generated regression assertion to promote from verification feedback"@,
            ),
        )
    } else {
        None
    }
}

fn one_regression_artifact(
    language: &str,
    finding: &Failure,
    index: usize,
) -> (r: Option<GeneratedArtifact>)
    ensures
        r.deep_view() == regression_artifact(language@, finding.deep_view(), index as int),
{
    if !should_generate_regression_artifact(finding) {
        return None;
    }
    let number = print_usize(index);
    let input = input_in_output(finding);
    Some(
        plan_artifact(
            cat3(language, "-regression-", number.as_str()),
            language,
            ArtifactKind::RegressionTest,
            known_target(&finding.target_id, language),
            cat5(".veritas/regressions/", language, "_", number.as_str(), ".md"),
            regression_note(language, finding, &input),
            "Generated regression assertion to promote from verification feedback",
        ),
    )
}

/// The regression notes of all findings.
pub open spec fn regression_notes(
    language: Seq<char>,
    items: Seq<FailureModel>,
) -> Seq<GeneratedArtifactModel>
    decreases items.len(),
{
    if items.len() == 0 {
        Seq::empty()
    } else {
        let before = regression_notes(language, items.drop_last());
        match regression_artifact(language, items.last(), (items.len() - 1) as int) {
            Some(one) => before.push(one),
            None => before,
        }
    }
}

/// The regression notes of all findings.
pub fn regression_artifacts(language: &str, items: &Vec<Failure>) -> (r: Vec<GeneratedArtifact>)
    ensures
        r.deep_view() == regression_notes(language@, items.deep_view()),
{
    let mut out: Vec<GeneratedArtifact> = Vec::new();
    let ghost all = items.deep_view();
    let mut i: usize = 0;
    assert(out.deep_view() == regression_notes(language@, all.take(0)));
    while i < items.len()
        invariant
            i <= items@.len(),
            all == items.deep_view(),
            out.deep_view() == regression_notes(language@, all.take(i as int)),
        decreases items@.len() - i,
    {
        proof {
            lemma_take_next(all, i as int);
        }
        match one_regression_artifact(language, &items[i], i) {
            Some(one) => {
                push_generated_artifact(&mut out, one);
            },
            None => {},
        }
        i = i + 1;
    }
    proof {
        lemma_take_all(all);
    }
    out
}

// ---------------------------------------------------------------------------
// Promotions
// ---------------------------------------------------------------------------
/// Whether a finding is one of those asked for: all of them, or the one with
/// this index.
pub open spec fn asked_for(selected: Option<usize>, index: int) -> bool {
    match selected {
        Some(one) => one == index,
        None => true,
    }
}

fn is_asked_for(selected: Option<usize>, index: usize) -> (r: bool)
    ensures
        r == asked_for(selected, index as int),
{
    match selected {
        Some(one) => one == index,
        None => true,
    }
}

/// The head of a repro promotion.
pub open spec fn promotion_head_text(finding: FailureModel, repro: ReproCaseModel) -> Seq<char> {
    let t = "# Repro Promotion\n\n- Finding: "@
        + finding.message
        + "\n- Severity: "@
        + finding.severity.name_text()
        + "\n- Command: `"@
        + repro.command
        + "`\n"@;
    let t = match finding.target_id {
        Some(target_id) => {
            let t = t + "- Target: `"@ + target_id + "`\n"@;
            t
        },
        None => {
            t
        },
    };
    let t = match repro.path {
        Some(path) => {
            let t = t + "- Source path: `"@ + path + "`\n"@;
            t
        },
        None => {
            t
        },
    };
    let t = match repro.input {
        Some(input) => {
            let t = t + "- Captured input: `"@ + trimmed(input) + "`\n"@;
            t
        },
        None => {
            t
        },
    };
    t
}

fn promotion_head(finding: &Failure, repro: &ReproCase) -> (r: String)
    ensures
        r@ == promotion_head_text(finding.deep_view(), repro.deep_view()),
{
    let mut out = owned("# Repro Promotion\n\n- Finding: ");
    out.append(finding.message.as_str());
    out.append("\n- Severity: ");
    out.append(finding.severity.name());
    out.append("\n- Command: `");
    out.append(repro.command.as_str());
    out.append("`\n");
    if let Some(target_id) = &finding.target_id {
        out.append("- Target: `");
        out.append(target_id.as_str());
        out.append("`\n");
    }
    if let Some(path) = &repro.path {
        out.append("- Source path: `");
        out.append(path.as_str());
        out.append("`\n");
    }
    if let Some(input) = &repro.input {
        out.append("- Captured input: `");
        out.append(trim(input.as_str()).as_str());
        out.append("`\n");
    }
    out
}

/// What a repro promotion asks for.
pub open spec fn promotion_advice(
    language: Seq<char>,
    message: Seq<char>,
    path: Option<Seq<char>>,
) -> Seq<char> {
    if language == "go"@ && (path matches Some(p) && in_fuzz_corpus(p)) {
        "Keep the referenced Go fuzz corpus entry under `testdata/fuzz/<FuzzName>/` and add a focused unit assertion for the behavior it exposes.\n"@
    } else if has_text(message, "mutation survived"@) {
        "Add or promote a test assertion that fails when the described mutation is applied, then rerun `veritas verify` to confirm the mutant is killed.\n"@
    } else {
        "Turn the command and input above into a stable regression test or corpus entry owned by the target package.\n"@
    }
}

fn advise_promotion(language: &str, message: &str, path: &Option<String>) -> (r: &'static str)
    ensures
        r@ == promotion_advice(language@, message@, path.deep_view()),
{
    let in_corpus = match path {
        Some(p) => path_starts_with(p.as_str(), "testdata/fuzz"),
        None => false,
    };
    if same(language, "go") && in_corpus {
        "Keep the referenced Go fuzz corpus entry under `testdata/fuzz/<FuzzName>/` and add a focused unit assertion for the behavior it exposes.\n"
    } else if contains(message, "mutation survived") {
        "Add or promote a test assertion that fails when the described mutation is applied, then rerun `veritas verify` to confirm the mutant is killed.\n"
    } else {
        "Turn the command and input above into a stable regression test or corpus entry owned by the target package.\n"
    }
}

/// The promotion of one finding that was asked for and has a repro.
pub open spec fn repro_promotion(
    selected: Option<usize>,
    finding: FailureModel,
    index: int,
) -> Option<GeneratedArtifactModel> {
    match finding.repro {
        Some(repro) => if asked_for(selected, index) {
            let language = or_text(target_language(finding.target_id), "unknown"@);
            Some(
                planned(
                    language + "-promotion-"@ + decimal(index),
                    language,
                    ArtifactKind::ReproCase,
                    target_or_unknown(finding.target_id, language),
                    ".veritas/promotions/"@ + language + "_"@ + decimal(index) + ".md"@,
                    promotion_head_text(finding, repro) + "\n## Candidate Regression\n\n"@
                        + promotion_advice(language, finding.message, repro.path),
                    "Reviewable repro promotion guidance"@,
                ),
            )
        } else {
            None
        },
        None => None,
    }
}

fn one_repro_promotion(
    selected: Option<usize>,
    finding: &Failure,
    index: usize,
) -> (r: Option<GeneratedArtifact>)
    ensures
        r.deep_view() == repro_promotion(selected, finding.deep_view(), index as int),
{
    if !is_asked_for(selected, index) {
        return None;
    }
    match &finding.repro {
        Some(repro) => {
            let found = finding_language(finding);
            let language = text_or(&found, "unknown");
            let number = print_usize(index);
            let head = promotion_head(finding, repro);
            let contents = cat3(
                head.as_str(),
                "\n## Candidate Regression\n\n",
                advise_promotion(language.as_str(), finding.message.as_str(), &repro.path),
            );
            Some(
                plan_artifact(
                    cat3(language.as_str(), "-promotion-", number.as_str()),
                    language.as_str(),
                    ArtifactKind::ReproCase,
                    known_target(&finding.target_id, language.as_str()),
                    cat5(
                        ".veritas/promotions/",
                        language.as_str(),
                        "_",
                        number.as_str(),
                        ".md",
                    ),
                    contents,
                    "Reviewable repro promotion guidance",
                ),
            )
        },
        None => None,
    }
}

/// The promotions of the findings that were asked for.
pub open spec fn promotions(
    selected: Option<usize>,
    items: Seq<FailureModel>,
) -> Seq<GeneratedArtifactModel>
    decreases items.len(),
{
    if items.len() == 0 {
        Seq::empty()
    } else {
        let before = promotions(selected, items.drop_last());
        match repro_promotion(selected, items.last(), (items.len() - 1) as int) {
            Some(one) => before.push(one),
            None => before,
        }
    }
}

/// The promotions of the findings that were asked for.
pub fn repro_promotions(
    selected: Option<usize>,
    items: &Vec<Failure>,
) -> (r: Vec<GeneratedArtifact>)
    ensures
        r.deep_view() == promotions(selected, items.deep_view()),
{
    let mut out: Vec<GeneratedArtifact> = Vec::new();
    let ghost all = items.deep_view();
    let mut i: usize = 0;
    assert(out.deep_view() == promotions(selected, all.take(0)));
    while i < items.len()
        invariant
            i <= items@.len(),
            all == items.deep_view(),
            out.deep_view() == promotions(selected, all.take(i as int)),
        decreases items@.len() - i,
    {
        proof {
            lemma_take_next(all, i as int);
        }
        match one_repro_promotion(selected, &items[i], i) {
            Some(one) => {
                push_generated_artifact(&mut out, one);
            },
            None => {},
        }
        i = i + 1;
    }
    proof {
        lemma_take_all(all);
    }
    out
}

/// The paths of some artifacts, in their order.
pub open spec fn artifact_paths(artifacts: Seq<GeneratedArtifactModel>) -> Seq<Seq<char>> {
    artifacts.map_values(|artifact: GeneratedArtifactModel| artifact.path)
}

/// The paths of some artifacts, in their order.
pub fn paths_of(artifacts: &Vec<GeneratedArtifact>) -> (r: Vec<String>)
    ensures
        r.deep_view() == artifact_paths(artifacts.deep_view()),
{
    let mut out: Vec<String> = Vec::new();
    let mut i: usize = 0;
    while i < artifacts.len()
        invariant
            i <= artifacts@.len(),
            out@.len() == i,
            forall|j: int| 0 <= j < i ==> #[trigger] out@[j]@ == artifacts@[j].path@,
        decreases artifacts@.len() - i,
    {
        out.push(artifacts[i].path.clone());
        i = i + 1;
    }
    assert(out.deep_view() =~= artifact_paths(artifacts.deep_view()));
    out
}

/// Promotes the repros of a report: the artifacts to write, unless this is a
/// dry run, and the summary that names their paths.
pub fn promote_repros(
    report: &VerificationReport,
    dry_run: bool,
    index: Option<usize>,
) -> (r: (Vec<GeneratedArtifact>, PromotionSummary))
    ensures
        r.0.deep_view() == promotions(index, report.deep_view().findings),
        r.1.deep_view() == (PromotionSummaryModel {
            dry_run,
            paths: artifact_paths(promotions(index, report.deep_view().findings)),
        }),
{
    let artifacts = repro_promotions(index, &report.findings);
    let paths = paths_of(&artifacts);
    (artifacts, PromotionSummary { dry_run, paths })
}

/// The note of a regression promotion without a plugin.
pub open spec fn generic_note_text(finding: FailureModel) -> Seq<char> {
    let t = "# Regression Promotion\n\nGenerated by veritas. Review before committing.\n\n- Finding: "@
        + finding.message
        + "\n- Severity: "@
        + finding.severity.name_text()
        + "\n- Command: `"@
        + finding.command
        + "`\n"@;
    let t = match finding.target_id {
        Some(target_id) => {
            let t = t + "- Target: `"@ + target_id + "`\n"@;
            t
        },
        None => {
            t
        },
    };
    let t = match finding.repro {
        Some(repro) => {
            let t = t + repro_lines_text(repro);
            t
        },
        None => {
            t
        },
    };
    let t = t
        + "\n## Next Step\n\nNo executable regression promoter is registered for this finding language. Add a handwritten test owned by the target package, then rerun `veritas verify`.\n"@;
    t
}

fn generic_note(finding: &Failure) -> (r: String)
    ensures
        r@ == generic_note_text(finding.deep_view()),
{
    let mut out = owned("# Regression Promotion\n\nGenerated by veritas. Review before committing.\n\n- Finding: ");
    out.append(finding.message.as_str());
    out.append("\n- Severity: ");
    out.append(finding.severity.name());
    out.append("\n- Command: `");
    out.append(finding.command.as_str());
    out.append("`\n");
    if let Some(target_id) = &finding.target_id {
        out.append("- Target: `");
        out.append(target_id.as_str());
        out.append("`\n");
    }
    if let Some(repro) = &finding.repro {
        out.append(repro_lines(repro).as_str());
    }
    out.append("\n## Next Step\n\nNo executable regression promoter is registered for this finding language. Add a handwritten test owned by the target package, then rerun `veritas verify`.\n");
    out
}

/// A language that is not empty.
pub open spec fn known_language(language: Seq<char>) -> Seq<char> {
    if language.len() == 0 {
        "unknown"@
    } else {
        language
    }
}

/// The promotion of a finding for which no plugin writes a test.
pub open spec fn generic_promotion(
    language: Seq<char>,
    finding: FailureModel,
    index: int,
) -> GeneratedArtifactModel {
    let name = known_language(language);
    planned(
        name + "-promoted-regression-"@ + decimal(index),
        name,
        ArtifactKind::RegressionTest,
        target_or_unknown(finding.target_id, name),
        ".veritas/regressions/promoted/"@ + name + "_"@ + decimal(index) + ".md"@,
        generic_note_text(finding),
        "Generic regression promotion guidance"@,
    )
}

/// The promotion of a finding for which no plugin writes a test.
pub fn generic_regression_promotion_artifact(
    language: &str,
    finding: &Failure,
    index: usize,
) -> (r: GeneratedArtifact)
    ensures
        r.deep_view() == generic_promotion(language@, finding.deep_view(), index as int),
{
    let name = if language.is_empty() {
        "unknown"
    } else {
        language
    };
    let number = print_usize(index);
    plan_artifact(
        cat3(name, "-promoted-regression-", number.as_str()),
        name,
        ArtifactKind::RegressionTest,
        known_target(&finding.target_id, name),
        cat5(".veritas/regressions/promoted/", name, "_", number.as_str(), ".md"),
        generic_note(finding),
        "Generic regression promotion guidance",
    )
}

// ---------------------------------------------------------------------------
// Feedback
// ---------------------------------------------------------------------------
/// The line on a file with uncovered ranges.
pub open spec fn uncovered_line_text(file: CoverageFileModel) -> Seq<char> {
    let t = Seq::<char>::empty();
    let t = if file.uncovered_ranges.len() > 0 {
        let t = t
            + "  - `"@
            + file.path
            + "` uncovered: "@
            + joined(file.uncovered_ranges, ", "@)
            + "\n"@;
        t
    } else {
        t
    };
    t
}

fn uncovered_line(file: &CoverageFile) -> (r: String)
    ensures
        r@ == uncovered_line_text(file.deep_view()),
{
    let mut out = String::new();
    if !file.uncovered_ranges.is_empty() {
        out.append("  - `");
        out.append(file.path.as_str());
        out.append("` uncovered: ");
        out.append(join(&file.uncovered_ranges, ", ").as_str());
        out.append("\n");
    }
    out
}

/// The lines on all files of a coverage report.
pub open spec fn uncovered_lines_text(items: Seq<CoverageFileModel>) -> Seq<char>
    decreases items.len(),
{
    if items.len() == 0 {
        Seq::empty()
    } else {
        uncovered_lines_text(items.drop_last()) + uncovered_line_text(items.last())
    }
}

fn push_uncovered_lines(out: &mut String, items: &Vec<CoverageFile>)
    ensures
        final(out)@ == old(out)@ + uncovered_lines_text(items.deep_view()),
{
    let ghost before = out@;
    let ghost all = items.deep_view();
    let mut i: usize = 0;
    assert(out@ == before + uncovered_lines_text(all.take(0)));
    while i < items.len()
        invariant
            i <= items@.len(),
            all == items.deep_view(),
            out@ == before + uncovered_lines_text(all.take(i as int)),
        decreases items@.len() - i,
    {
        proof {
            lemma_take_next(all, i as int);
        }
        let ghost so_far = out@;
        out.append(uncovered_line(&items[i]).as_str());
        i = i + 1;
        assert(out@ == before + uncovered_lines_text(all.take(i as int)));
    }
    proof {
        lemma_take_all(all);
    }
}

/// The part of the feedback on one coverage report.
pub open spec fn coverage_part_text(coverage: CoverageReportModel) -> Seq<char> {
    "- `"@ + coverage.tool + "`: "@ + coverage.summary + "\n"@ + uncovered_lines_text(
        coverage.files,
    )
}

fn coverage_part(coverage: &CoverageReport) -> (r: String)
    ensures
        r@ == coverage_part_text(coverage.deep_view()),
{
    let mut out = owned("- `");
    out.append(coverage.tool.as_str());
    out.append("`: ");
    out.append(coverage.summary.as_str());
    out.append("\n");
    push_uncovered_lines(&mut out, &coverage.files);
    out
}

/// The parts of the feedback on all coverage reports.
pub open spec fn coverage_parts_text(items: Seq<CoverageReportModel>) -> Seq<char>
    decreases items.len(),
{
    if items.len() == 0 {
        Seq::empty()
    } else {
        coverage_parts_text(items.drop_last()) + coverage_part_text(items.last())
    }
}

fn push_coverage_parts(out: &mut String, items: &Vec<CoverageReport>)
    ensures
        final(out)@ == old(out)@ + coverage_parts_text(items.deep_view()),
{
    let ghost before = out@;
    let ghost all = items.deep_view();
    let mut i: usize = 0;
    assert(out@ == before + coverage_parts_text(all.take(0)));
    while i < items.len()
        invariant
            i <= items@.len(),
            all == items.deep_view(),
            out@ == before + coverage_parts_text(all.take(i as int)),
        decreases items@.len() - i,
    {
        proof {
            lemma_take_next(all, i as int);
        }
        let ghost so_far = out@;
        out.append(coverage_part(&items[i]).as_str());
        i = i + 1;
        assert(out@ == before + coverage_parts_text(all.take(i as int)));
    }
    proof {
        lemma_take_all(all);
    }
}

/// Whether a coverage report has something to say: files, or why it has none.
pub open spec fn speaks(coverage: CoverageReportModel) -> bool {
    coverage.files.len() > 0 || has_text(coverage.summary, "not collected"@)
}

fn any_speaks(reports: &Vec<CoverageReport>) -> (r: bool)
    ensures
        r == exists|i: int| 0 <= i < reports.deep_view().len() && speaks(#[trigger] reports.deep_view()[i]),
{
    let ghost all = reports.deep_view();
    let mut i: usize = 0;
    while i < reports.len()
        invariant
            i <= reports@.len(),
            all == reports.deep_view(),
            forall|j: int| 0 <= j < i ==> !speaks(#[trigger] all[j]),
        decreases reports@.len() - i,
    {
        assert(all[i as int] == reports@[i as int].deep_view());
        assert(all[i as int].files.len() == reports@[i as int].files@.len());
        if !reports[i].files.is_empty() || contains(reports[i].summary.as_str(), "not collected") {
            return true;
        }
        i = i + 1;
    }
    false
}

/// Whether a finding is a surviving mutant.
pub open spec fn is_survivor(finding: FailureModel) -> bool {
    has_text(finding.message, "mutation survived"@)
}

/// The surviving mutants among the findings, in order.
pub open spec fn survivors(findings: Seq<FailureModel>) -> Seq<FailureModel>
    decreases findings.len(),
{
    if findings.len() == 0 {
        Seq::empty()
    } else if is_survivor(findings.last()) {
        survivors(findings.drop_last()).push(findings.last())
    } else {
        survivors(findings.drop_last())
    }
}

/// The surviving mutants among the findings, in order.
pub fn surviving_mutants(findings: &Vec<Failure>) -> (r: Vec<Failure>)
    ensures
        r.deep_view() == survivors(findings.deep_view()),
        r@.len() == r.deep_view().len(),
{
    let mut out: Vec<Failure> = Vec::new();
    let ghost all = findings.deep_view();
    let mut i: usize = 0;
    assert(out.deep_view() =~= survivors(all.take(0)));
    while i < findings.len()
        invariant
            i <= findings@.len(),
            all == findings.deep_view(),
            out.deep_view() == survivors(all.take(i as int)),
        decreases findings@.len() - i,
    {
        proof {
            lemma_take_next(all, i as int);
        }
        if contains(findings[i].message.as_str(), "mutation survived") {
            crate::api::push_failure(&mut out, findings[i].clone());
        }
        i = i + 1;
    }
    proof {
        lemma_take_all(all);
    }
    out
}

/// The lines on one surviving mutant.
pub open spec fn survivor_lines_text(finding: FailureModel) -> Seq<char> {
    let t = "- "@ + finding.message + "\n"@;
    let t = match finding.repro {
        Some(repro) => {
            let t = t + "  - Repro: `"@ + repro.command + "`\n"@;
            t
        },
        None => {
            t
        },
    };
    t
}

/// The lines on one surviving mutant.
pub fn survivor_lines(finding: &Failure) -> (r: String)
    ensures
        r@ == survivor_lines_text(finding.deep_view()),
{
    let mut out = owned("- ");
    out.append(finding.message.as_str());
    out.append("\n");
    if let Some(repro) = &finding.repro {
        out.append("  - Repro: `");
        out.append(repro.command.as_str());
        out.append("`\n");
    }
    out
}

/// The lines on all surviving mutants.
pub open spec fn all_survivor_lines(items: Seq<FailureModel>) -> Seq<char>
    decreases items.len(),
{
    if items.len() == 0 {
        Seq::empty()
    } else {
        all_survivor_lines(items.drop_last()) + survivor_lines_text(items.last())
    }
}

/// The lines on all surviving mutants.
pub fn push_survivor_lines(out: &mut String, items: &Vec<Failure>)
    ensures
        final(out)@ == old(out)@ + all_survivor_lines(items.deep_view()),
{
    let ghost before = out@;
    let ghost all = items.deep_view();
    let mut i: usize = 0;
    assert(out@ == before + all_survivor_lines(all.take(0)));
    while i < items.len()
        invariant
            i <= items@.len(),
            all == items.deep_view(),
            out@ == before + all_survivor_lines(all.take(i as int)),
        decreases items@.len() - i,
    {
        proof {
            lemma_take_next(all, i as int);
        }
        let ghost so_far = out@;
        out.append(survivor_lines(&items[i]).as_str());
        i = i + 1;
        assert(out@ == before + all_survivor_lines(all.take(i as int)));
    }
    proof {
        lemma_take_all(all);
    }
}

/// The feedback on coverage.
pub open spec fn coverage_feedback(
    language: Seq<char>,
    coverage: Seq<CoverageReportModel>,
) -> GeneratedArtifactModel {
    planned(
        language + "-coverage-feedback"@,
        language,
        ArtifactKind::CoverageFeedback,
        language + ":coverage"@,
        ".veritas/feedback/"@ + language + "_coverage.md"@,
        "# Coverage Feedback\n\n"@ + coverage_parts_text(coverage) + "\nSuggested generation focus: add inputs and assertions for uncovered branches before increasing fuzz time.\n"@,
        "Coverage feedback for the next verification loop"@,
    )
}

/// The feedback on surviving mutants.
pub open spec fn mutation_feedback(
    language: Seq<char>,
    found: Seq<FailureModel>,
) -> GeneratedArtifactModel {
    planned(
        language + "-mutation-feedback"@,
        language,
        ArtifactKind::CoverageFeedback,
        language + ":mutation"@,
        ".veritas/feedback/"@ + language + "_mutation.md"@,
        "# Mutation Feedback\n\n"@ + all_survivor_lines(found) + "\nSuggested generation focus: convert surviving mutants into stronger regression assertions.\n"@,
        "Mutation feedback for the next verification loop"@,
    )
}

/// The feedback that a report gives: on coverage where it has something to
/// say, on mutants where some survived.
pub open spec fn feedback(
    language: Seq<char>,
    report: VerificationReportModel,
) -> Seq<GeneratedArtifactModel> {
    let first = if exists|i: int|
        0 <= i < report.coverage.len() && speaks(#[trigger] report.coverage[i]) {
        seq![coverage_feedback(language, report.coverage)]
    } else {
        Seq::empty()
    };
    if survivors(report.findings).len() > 0 {
        first.push(mutation_feedback(language, survivors(report.findings)))
    } else {
        first
    }
}

/// The feedback that a report gives.
pub fn feedback_artifacts(
    language: &str,
    report: &VerificationReport,
) -> (r: Vec<GeneratedArtifact>)
    ensures
        r.deep_view() == feedback(language@, report.deep_view()),
{
    let mut artifacts: Vec<GeneratedArtifact> = Vec::new();
    assert(artifacts.deep_view() =~= Seq::empty());
    if any_speaks(&report.coverage) {
        let mut contents = owned("# Coverage Feedback\n\n");
        push_coverage_parts(&mut contents, &report.coverage);
        contents.append("\nSuggested generation focus: add inputs and assertions for uncovered branches before increasing fuzz time.\n");
        push_generated_artifact(
            &mut artifacts,
            plan_artifact(
                cat2(language, "-coverage-feedback"),
                language,
                ArtifactKind::CoverageFeedback,
                cat2(language, ":coverage"),
                cat3(".veritas/feedback/", language, "_coverage.md"),
                contents,
                "Coverage feedback for the next verification loop",
            ),
        );
    }
    let found = surviving_mutants(&report.findings);
    if !found.is_empty() {
        let mut contents = owned("# Mutation Feedback\n\n");
        push_survivor_lines(&mut contents, &found);
        contents.append("\nSuggested generation focus: convert surviving mutants into stronger regression assertions.\n");
        push_generated_artifact(
            &mut artifacts,
            plan_artifact(
                cat2(language, "-mutation-feedback"),
                language,
                ArtifactKind::CoverageFeedback,
                cat2(language, ":mutation"),
                cat3(".veritas/feedback/", language, "_mutation.md"),
                contents,
                "Mutation feedback for the next verification loop",
            ),
        );
    }
    artifacts
}

/// One more finding is promoted exactly where it has a repro and is asked for: by its index, or
/// because no index is given.
pub proof fn law_repros_that_are_asked_for_are_promoted(
    selected: Option<usize>,
    items: Seq<FailureModel>,
    finding: FailureModel,
)
    ensures
        ({
            let before = promotions(selected, items);
            let after = promotions(selected, items.push(finding));
            let wanted = finding.repro is Some && (selected matches Some(one) ==> one
                == items.len());
            &&& wanted ==> after.len() == before.len() + 1 && after.last().kind
                == ArtifactKind::ReproCase && after.drop_last() == before
            &&& !wanted ==> after == before
        }),
{
    assert(items.push(finding).drop_last() =~= items);
    let before = promotions(selected, items);
    let after = promotions(selected, items.push(finding));
    if finding.repro is Some && asked_for(selected, items.len() as int) {
        assert(after.drop_last() =~= before);
    }
}

/// One more finding is one more survivor exactly where its message says so.
pub proof fn law_survivors_are_named_by_messages(items: Seq<FailureModel>, finding: FailureModel)
    ensures
        survivors(items.push(finding)) == if has_text(finding.message, "mutation survived"@) {
            survivors(items).push(finding)
        } else {
            survivors(items)
        },
{
    assert(items.push(finding).drop_last() =~= items);
}

} // verus!
