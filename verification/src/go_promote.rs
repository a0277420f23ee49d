//! Regression tests of Go, promoted from findings.
use vstd::prelude::*;

use crate::api::{
    ArtifactKind, ArtifactStatus, Failure, FailureModel, GeneratedArtifact, GeneratedArtifactModel,
    ReproCaseModel, VerificationReport, VerificationTarget, VerificationTargetModel,
};
use crate::go_fuzz::{ident_of, safe_ident};
use crate::go_packages::{GoPackage, GoPackageModel};
use crate::go_plugin::{
    file_in, file_in_package, find_package, package_in, GoVerificationContext,
    GoVerificationContextModel,
};
use crate::go_source::{GoFunction, GoFunctionModel, GoParam, GoParamModel};
use crate::number::{decimal, print_usize};
use crate::paths::{package_dir, package_dir_path, path_same, same_path};
use crate::seqs::{cat2, cat3, lemma_take_all, lemma_take_next};
use crate::split::{join, joined, lines, lines_of, push_text, trim, trimmed};
use crate::text::{or_text, owned, rcut_at, rsplit_once, same, text_or};

verus! {

/// The comment of one line.
pub open spec fn comment_line(line: Seq<char>) -> Seq<char> {
    "// "@ + trimmed(line) + "\n"@
}

/// The comments of lines.
pub open spec fn comment_lines(items: Seq<Seq<char>>) -> Seq<char>
    decreases items.len(),
{
    if items.len() == 0 {
        Seq::empty()
    } else {
        comment_lines(items.drop_last()) + comment_line(items.last())
    }
}

fn push_comment_lines(out: &mut String, items: &Vec<String>)
    ensures
        final(out)@ == old(out)@ + comment_lines(items.deep_view()),
{
    let ghost before = out@;
    let ghost all = items.deep_view();
    let mut i: usize = 0;
    assert(out@ == before + comment_lines(all.take(0)));
    while i < items.len()
        invariant
            i <= items@.len(),
            all == items.deep_view(),
            out@ == before + comment_lines(all.take(i as int)),
        decreases items@.len() - i,
    {
        proof {
            lemma_take_next(all, i as int);
        }
        let ghost so_far = out@;
        out.append("// ");
        out.append(trim(items[i].as_str()).as_str());
        out.append("\n");
        assert(out@ =~= so_far + comment_line(all[i as int]));
        assert(so_far + comment_line(all[i as int]) =~= before + (comment_lines(all.take(i as int)) + comment_line(all[i as int])));
        i = i + 1;
        assert(out@ == before + comment_lines(all.take(i as int)));
    }
    proof {
        lemma_take_all(all);
    }
}

/// A text as comments of Go, line by line.
pub open spec fn go_comment(text: Seq<char>) -> Seq<char> {
    comment_lines(lines_of(text))
}

/// Puts a text behind another as comments of Go.
pub fn push_go_comment(out: &mut String, text: &str)
    ensures
        final(out)@ == old(out)@ + go_comment(text@),
{
    push_comment_lines(out, &lines(text));
}

/// The name that a package takes from its import path.
pub open spec fn package_name_of(import_path: Seq<char>) -> Seq<char> {
    let name = match rcut_at(import_path, '/') {
        Some(sides) => sides.1,
        None => import_path,
    };
    if name.len() == 0 {
        "main"@
    } else {
        ident_of(name)
    }
}

/// The name that a package takes from its import path.
pub fn package_name_from_import_path(import_path: &str) -> (r: String)
    ensures
        r@ == package_name_of(import_path@),
{
    let name = match rsplit_once(import_path, '/') {
        Some(sides) => sides.1,
        None => owned(import_path),
    };
    if name.as_str().unicode_len() == 0 {
        owned("main")
    } else {
        safe_ident(name.as_str())
    }
}

/// A value for a parameter of a type.
pub open spec fn seed_arg(type_text: Seq<char>) -> Seq<char> {
    if type_text == "string"@ {
        "\"veritas-seed\""@
    } else if type_text == "[]byte"@ {
        "[]byte(\"veritas-seed\")"@
    } else if type_text == "bool"@ {
        "true"@
    } else if type_text == "int"@ {
        "1"@
    } else if type_text == "int8"@ {
        "1"@
    } else if type_text == "int16"@ {
        "1"@
    } else if type_text == "int32"@ {
        "1"@
    } else if type_text == "int64"@ {
        "1"@
    } else if type_text == "uint"@ {
        "1"@
    } else if type_text == "uint8"@ {
        "1"@
    } else if type_text == "uint16"@ {
        "1"@
    } else if type_text == "uint32"@ {
        "1"@
    } else if type_text == "uint64"@ {
        "1"@
    } else if type_text == "float32"@ {
        "float32(1)"@
    } else if type_text == "float64"@ {
        "float64(1)"@
    } else {
        type_text + "{}"@
    }
}

fn make_seed_arg(type_text: &str) -> (r: String)
    ensures
        r@ == seed_arg(type_text@),
{
    if same(type_text, "string") {
        owned("\"veritas-seed\"")
    } else if same(type_text, "[]byte") {
        owned("[]byte(\"veritas-seed\")")
    } else if same(type_text, "bool") {
        owned("true")
    } else if same(type_text, "int") {
        owned("1")
    } else if same(type_text, "int8") {
        owned("1")
    } else if same(type_text, "int16") {
        owned("1")
    } else if same(type_text, "int32") {
        owned("1")
    } else if same(type_text, "int64") {
        owned("1")
    } else if same(type_text, "uint") {
        owned("1")
    } else if same(type_text, "uint8") {
        owned("1")
    } else if same(type_text, "uint16") {
        owned("1")
    } else if same(type_text, "uint32") {
        owned("1")
    } else if same(type_text, "uint64") {
        owned("1")
    } else if same(type_text, "float32") {
        owned("float32(1)")
    } else if same(type_text, "float64") {
        owned("float64(1)")
    } else {
        cat2(type_text, "{}")
    }
}

/// Values for parameters.
pub open spec fn seed_args_of(items: Seq<GoParamModel>) -> Seq<Seq<char>>
    decreases items.len(),
{
    if items.len() == 0 {
        Seq::empty()
    } else {
        seed_args_of(items.drop_last()).push(seed_arg(items.last().type_text))
    }
}

/// Values for parameters.
pub fn go_regression_seed_args(items: &Vec<GoParam>) -> (r: Vec<String>)
    ensures
        r.deep_view() == seed_args_of(items.deep_view()),
{
    let mut out: Vec<String> = Vec::new();
    let ghost all = items.deep_view();
    let mut i: usize = 0;
    assert(out.deep_view() == seed_args_of(all.take(0)));
    while i < items.len()
        invariant
            i <= items@.len(),
            all == items.deep_view(),
            out.deep_view() == seed_args_of(all.take(i as int)),
        decreases items@.len() - i,
    {
        proof {
            lemma_take_next(all, i as int);
        }
        push_text(&mut out, make_seed_arg(items[i].type_text.as_str()));
        i = i + 1;
    }
    proof {
        lemma_take_all(all);
    }
    out
}

/// A call whose result can be asserted.
pub open spec fn assertion_seed_text(name: Seq<char>, args: Seq<char>) -> Seq<char> {
    let t = "\t// Candidate assertion seed synthesized by veritas:\n\t// actual := "@
        + name
        + "("@
        + args
        + ")\n\t// if actual != /* reviewed expected value */ {\n\t// \tt.Fatalf(\"unexpected result: %v\", actual)\n\t// }\n"@;
    t
}

fn assertion_seed(name: &str, args: &str) -> (r: String)
    ensures
        r@ == assertion_seed_text(name@, args@),
{
    let mut out = owned("\t// Candidate assertion seed synthesized by veritas:\n\t// actual := ");
    out.append(name);
    out.append("(");
    out.append(args);
    out.append(")\n\t// if actual != /* reviewed expected value */ {\n\t// \tt.Fatalf(\"unexpected result: %v\", actual)\n\t// }\n");
    out
}

/// What the scaffold says of how a function is called.
pub open spec fn call_hint(function: Option<GoFunctionModel>) -> Seq<char> {
    match function {
        Some(known) => if known.receiver is None {
            assertion_seed_text(known.name, joined(seed_args_of(known.params), ", "@))
        } else {
            "\t// Construct the receiver state, call the method, and assert the reviewed expected value.\n"@
        },
        None => Seq::empty(),
    }
}

fn make_call_hint(function: &Option<GoFunction>) -> (r: String)
    ensures
        r@ == call_hint(function.deep_view()),
{
    match function {
        Some(known) => {
            if known.receiver.is_none() {
                let args = join(&go_regression_seed_args(&known.params), ", ");
                assertion_seed(known.name.as_str(), args.as_str())
            } else {
                owned(
                    "\t// Construct the receiver state, call the method, and assert the reviewed expected value.\n",
                )
            }
        },
        None => {
            let none = String::new();
            assert(none@ =~= Seq::<char>::empty());
            none
        },
    }
}

/// The name of the test: that of the function or of the target.
pub open spec fn test_name(
    target: Option<VerificationTargetModel>,
    function: Option<GoFunctionModel>,
) -> Seq<char> {
    match function {
        Some(known) => ident_of(known.symbol),
        None => match target {
            Some(known) => match known.symbol {
                Some(symbol) => ident_of(symbol),
                None => "Target"@,
            },
            None => "Target"@,
        },
    }
}

fn make_test_name(
    target: &Option<VerificationTarget>,
    function: &Option<GoFunction>,
) -> (r: String)
    ensures
        r@ == test_name(target.deep_view(), function.deep_view()),
{
    if let Some(known) = function {
        return safe_ident(known.symbol.as_str());
    }
    if let Some(known) = target {
        if let Some(symbol) = &known.symbol {
            return safe_ident(symbol.as_str());
        }
    }
    owned("Target")
}

/// What is noted of how a finding is made again.
pub open spec fn repro_comment(repro: Option<ReproCaseModel>) -> Seq<char> {
    match repro {
        Some(known) => go_comment("Repro: "@ + known.command) + match known.input {
            Some(input) => go_comment("Input: "@ + trimmed(input)),
            None => Seq::empty(),
        },
        None => Seq::empty(),
    }
}

/// What is noted of a finding.
pub open spec fn finding_comments(finding: FailureModel) -> Seq<char> {
    go_comment("Finding: "@ + finding.message) + go_comment("Command: "@ + finding.command) + (
    match finding.target_id {
        Some(target_id) => go_comment("Target: "@ + target_id),
        None => Seq::empty(),
    }) + repro_comment(finding.repro)
}

fn push_finding_comments(out: &mut String, finding: &Failure)
    ensures
        final(out)@ == old(out)@ + finding_comments(finding.deep_view()),
{
    let ghost before = out@;
    push_go_comment(out, cat2("Finding: ", finding.message.as_str()).as_str());
    push_go_comment(out, cat2("Command: ", finding.command.as_str()).as_str());
    if let Some(target_id) = &finding.target_id {
        push_go_comment(out, cat2("Target: ", target_id.as_str()).as_str());
    }
    if let Some(repro) = &finding.repro {
        push_go_comment(out, cat2("Repro: ", repro.command.as_str()).as_str());
        if let Some(input) = &repro.input {
            push_go_comment(out, cat2("Input: ", trim(input.as_str()).as_str()).as_str());
        }
    }
    assert(out@ =~= before + finding_comments(finding.deep_view()));
}

/// A test of Go for a finding, to be reviewed and filled in.
pub open spec fn scaffold(
    package_name: Seq<char>,
    finding: FailureModel,
    target: Option<VerificationTargetModel>,
    function: Option<GoFunctionModel>,
    index: int,
) -> Seq<char> {
    "// Generated by veritas. Review before committing.\n// Replace t.Skip with an assertion that fails for the recorded finding.\n"@
        + finding_comments(finding) + "\npackage "@ + package_name
        + "\n\nimport \"testing\"\n\nfunc TestVeritasRegression"@ + decimal(index) + test_name(
        target,
        function,
    ) + "(t *testing.T) {\n"@ + call_hint(function)
        + "\tt.Skip(\"review and replace the veritas placeholder with a real assertion\")\n}\n"@
}

/// A test of Go for a finding, to be reviewed and filled in.
pub fn render_go_regression_scaffold(
    package_name: &str,
    finding: &Failure,
    target: &Option<VerificationTarget>,
    function: &Option<GoFunction>,
    index: usize,
) -> (r: String)
    ensures
        r@ == scaffold(
            package_name@,
            finding.deep_view(),
            target.deep_view(),
            function.deep_view(),
            index as int,
        ),
{
    let mut out = owned(
        "// Generated by veritas. Review before committing.\n// Replace t.Skip with an assertion that fails for the recorded finding.\n",
    );
    push_finding_comments(&mut out, finding);
    out.append("\npackage ");
    out.append(package_name);
    out.append("\n\nimport \"testing\"\n\nfunc TestVeritasRegression");
    out.append(print_usize(index).as_str());
    out.append(make_test_name(target, function).as_str());
    out.append("(t *testing.T) {\n");
    out.append(make_call_hint(function).as_str());
    out.append(
        "\tt.Skip(\"review and replace the veritas placeholder with a real assertion\")\n}\n",
    );
    out
}

/// The first target, from one on, with an id.
pub open spec fn target_with_id_from(
    items: Seq<VerificationTargetModel>,
    id: Seq<char>,
    from: int,
) -> Option<int>
    decreases items.len() - from,
{
    if from < 0 || from >= items.len() {
        None
    } else if items[from].id == id {
        Some(from)
    } else {
        target_with_id_from(items, id, from + 1)
    }
}

fn target_with_id(items: &Vec<VerificationTarget>, id: &str) -> (r: Option<usize>)
    ensures
        r matches Some(i) ==> i < items@.len() && target_with_id_from(items.deep_view(), id@, 0) == Some(
            i as int,
        ),
        r is None ==> target_with_id_from(items.deep_view(), id@, 0) is None,
{
    let ghost all = items.deep_view();
    let mut i: usize = 0;
    while i < items.len()
        invariant
            i <= items@.len(),
            all == items.deep_view(),
            target_with_id_from(all, id@, 0) == target_with_id_from(all, id@, i as int),
        decreases items@.len() - i,
    {
        assert(all[i as int] == items@[i as int].deep_view());
        if same(items[i].id.as_str(), id) {
            return Some(i);
        }
        i = i + 1;
    }
    None
}

/// The first function, from one on, with a path and a symbol.
pub open spec fn function_with_symbol_from(
    items: Seq<GoFunctionModel>,
    path: Seq<char>,
    symbol: Seq<char>,
    from: int,
) -> Option<int>
    decreases items.len() - from,
{
    if from < 0 || from >= items.len() {
        None
    } else if same_path(items[from].path, path) && items[from].symbol == symbol {
        Some(from)
    } else {
        function_with_symbol_from(items, path, symbol, from + 1)
    }
}

fn function_with_symbol(items: &Vec<GoFunction>, path: &str, symbol: &str) -> (r: Option<usize>)
    ensures
        r matches Some(i) ==> i < items@.len() && function_with_symbol_from(items.deep_view(), path@, symbol@, 0) == Some(
            i as int,
        ),
        r is None ==> function_with_symbol_from(items.deep_view(), path@, symbol@, 0) is None,
{
    let ghost all = items.deep_view();
    let mut i: usize = 0;
    while i < items.len()
        invariant
            i <= items@.len(),
            all == items.deep_view(),
            function_with_symbol_from(all, path@, symbol@, 0) == function_with_symbol_from(all, path@, symbol@, i as int),
        decreases items@.len() - i,
    {
        assert(all[i as int] == items@[i as int].deep_view());
        if path_same(items[i].path.as_str(), path) && same(items[i].symbol.as_str(), symbol) {
            return Some(i);
        }
        i = i + 1;
    }
    None
}

/// The target of a finding.
pub open spec fn finding_target(
    targets: Seq<VerificationTargetModel>,
    finding: FailureModel,
) -> Option<VerificationTargetModel> {
    match finding.target_id {
        Some(id) => match target_with_id_from(targets, id, 0) {
            Some(i) => Some(targets[i]),
            None => None,
        },
        None => None,
    }
}

fn find_target(targets: &Vec<VerificationTarget>, finding: &Failure) -> (r: Option<
    VerificationTarget,
>)
    ensures
        r.deep_view() == finding_target(targets.deep_view(), finding.deep_view()),
{
    match &finding.target_id {
        Some(id) => match target_with_id(targets, id.as_str()) {
            Some(i) => {
                assert(targets.deep_view()[i as int] == targets@[i as int].deep_view());
                Some(targets[i].clone())
            },
            None => None,
        },
        None => None,
    }
}

/// The function that a target is.
pub open spec fn target_function(
    functions: Seq<GoFunctionModel>,
    target: Option<VerificationTargetModel>,
) -> Option<GoFunctionModel> {
    match target {
        Some(known) => match known.symbol {
            Some(symbol) => match function_with_symbol_from(functions, known.path, symbol, 0) {
                Some(i) => Some(functions[i]),
                None => None,
            },
            None => None,
        },
        None => None,
    }
}

fn find_function(functions: &Vec<GoFunction>, target: &Option<VerificationTarget>) -> (r: Option<
    GoFunction,
>)
    ensures
        r.deep_view() == target_function(functions.deep_view(), target.deep_view()),
{
    if let Some(known) = target {
        if let Some(symbol) = &known.symbol {
            if let Some(i) = function_with_symbol(functions, known.path.as_str(), symbol.as_str()) {
                assert(functions.deep_view()[i as int] == functions@[i as int].deep_view());
                return Some(functions[i].clone());
            }
        }
    }
    None
}

/// The directory in which the test goes.
pub open spec fn promoted_dir(
    target: Option<VerificationTargetModel>,
    function: Option<GoFunctionModel>,
) -> Seq<char> {
    match function {
        Some(known) => package_dir_path(known.path),
        None => match target {
            Some(known) => package_dir_path(known.path),
            None => "."@,
        },
    }
}

fn find_dir(target: &Option<VerificationTarget>, function: &Option<GoFunction>) -> (r: String)
    ensures
        r@ == promoted_dir(target.deep_view(), function.deep_view()),
{
    match function {
        Some(known) => package_dir(known.path.as_str()),
        None => match target {
            Some(known) => package_dir(known.path.as_str()),
            None => owned("."),
        },
    }
}

/// The name of the package in which the test goes, where it is known.
pub open spec fn promoted_package(
    packages: Seq<GoPackageModel>,
    function: Option<GoFunctionModel>,
    dir: Seq<char>,
) -> Option<Seq<char>> {
    match function {
        Some(known) => Some(known.package_name),
        None => match package_in(packages, dir) {
            Some(package) => Some(package_name_of(package.import_path)),
            None => None,
        },
    }
}

fn find_package_name(
    packages: &Vec<GoPackage>,
    function: &Option<GoFunction>,
    dir: &str,
) -> (r: Option<String>)
    ensures
        r.deep_view() == promoted_package(packages.deep_view(), function.deep_view(), dir@),
{
    match function {
        Some(known) => Some(owned(known.package_name.as_str())),
        None => match find_package(packages, dir) {
            Some(package) => Some(package_name_from_import_path(package.import_path.as_str())),
            None => None,
        },
    }
}

/// The artifact of a promotion.
pub open spec fn promotion(
    finding: FailureModel,
    index: int,
    path: Seq<char>,
    contents: Seq<char>,
    description: Seq<char>,
) -> GeneratedArtifactModel {
    GeneratedArtifactModel {
        id: "go-promoted-regression-"@ + decimal(index),
        language: "go"@,
        kind: ArtifactKind::RegressionTest,
        target_id: or_text(finding.target_id, "go:unknown"@),
        path,
        contents,
        description,
        status: ArtifactStatus::Planned,
    }
}

fn make_promotion(
    finding: &Failure,
    index: usize,
    path: String,
    contents: String,
    description: &str,
) -> (r: GeneratedArtifact)
    ensures
        r.deep_view() == promotion(
            finding.deep_view(),
            index as int,
            path@,
            contents@,
            description@,
        ),
{
    GeneratedArtifact {
        id: cat2("go-promoted-regression-", print_usize(index).as_str()),
        language: owned("go"),
        kind: ArtifactKind::RegressionTest,
        target_id: text_or(&finding.target_id, "go:unknown"),
        path,
        contents,
        description: owned(description),
        status: ArtifactStatus::Planned,
    }
}

/// What is said where the package of a finding is not known.
pub open spec fn promotion_guidance_text(finding: FailureModel) -> Seq<char> {
    let t = "# Go Regression Promotion\n\nGenerated by veritas. Review before committing.\n\n- Finding: "@
        + finding.message
        + "\n- Command: `"@
        + finding.command
        + "`\n\nThe Go plugin could not resolve the target package for this finding. Add a package-owned `*_test.go` regression manually, then rerun `veritas verify`.\n"@;
    t
}

fn promotion_guidance(finding: &Failure) -> (r: String)
    ensures
        r@ == promotion_guidance_text(finding.deep_view()),
{
    let mut out = owned("# Go Regression Promotion\n\nGenerated by veritas. Review before committing.\n\n- Finding: ");
    out.append(finding.message.as_str());
    out.append("\n- Command: `");
    out.append(finding.command.as_str());
    out.append("`\n\nThe Go plugin could not resolve the target package for this finding. Add a package-owned `*_test.go` regression manually, then rerun `veritas verify`.\n");
    out
}

/// The guidance for a finding whose package is not known.
pub open spec fn guidance(finding: FailureModel, index: int) -> GeneratedArtifactModel {
    promotion(
        finding,
        index,
        ".veritas/regressions/promoted/go_"@ + decimal(index) + ".md"@,
        promotion_guidance_text(finding),
        "Go regression promotion guidance"@,
    )
}

/// The guidance for a finding whose package is not known.
pub fn generic_go_regression_promotion(finding: &Failure, index: usize) -> (r: GeneratedArtifact)
    ensures
        r.deep_view() == guidance(finding.deep_view(), index as int),
{
    let path = cat3(
        ".veritas/regressions/promoted/go_",
        print_usize(index).as_str(),
        ".md",
    );
    make_promotion(
        finding,
        index,
        path,
        promotion_guidance(finding),
        "Go regression promotion guidance",
    )
}

/// The test that a finding is promoted to: a scaffold in its package, or guidance where
/// the package is not known.
pub open spec fn promoted(
    context: GoVerificationContextModel,
    targets: Seq<VerificationTargetModel>,
    finding: FailureModel,
    index: int,
) -> GeneratedArtifactModel {
    let target = finding_target(targets, finding);
    let function = target_function(context.functions, target);
    let dir = promoted_dir(target, function);
    match promoted_package(context.packages, function, dir) {
        Some(package_name) => promotion(
            finding,
            index,
            file_in(dir, "veritas_regression_"@ + decimal(index) + "_test.go"@),
            scaffold(package_name, finding, target, function, index),
            "Reviewable Go regression test scaffold promoted from a veritas finding"@,
        ),
        None => guidance(finding, index),
    }
}

/// The test that a finding is promoted to.
pub fn promoted_go_regression_artifacts(
    context: &GoVerificationContext,
    report: &VerificationReport,
    finding: &Failure,
    index: usize,
) -> (r: GeneratedArtifact)
    ensures
        r.deep_view() == promoted(
            context.deep_view(),
            report.deep_view().targets,
            finding.deep_view(),
            index as int,
        ),
{
    let target = find_target(&report.targets, finding);
    let function = find_function(&context.functions, &target);
    let dir = find_dir(&target, &function);
    match find_package_name(&context.packages, &function, dir.as_str()) {
        Some(package_name) => {
            let name = cat3(
                "veritas_regression_",
                print_usize(index).as_str(),
                "_test.go",
            );
            let contents = render_go_regression_scaffold(
                package_name.as_str(),
                finding,
                &target,
                &function,
                index,
            );
            make_promotion(
                finding,
                index,
                file_in_package(dir.as_str(), name.as_str()),
                contents,
                "Reviewable Go regression test scaffold promoted from a veritas finding",
            )
        },
        None => generic_go_regression_promotion(finding, index),
    }
}

} // verus!
