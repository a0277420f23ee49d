//! What a finding is about, what to do about it, and the artifacts that say
//! so.
use vstd::prelude::*;
use vstd::utf8::encode_utf8;

use crate::api::{
    push_generated_artifact, ArtifactKind, ArtifactStatus, Failure, FailureModel,
    GeneratedArtifact, GeneratedArtifactModel, ReproCase, ReproCaseModel,
};
use crate::documents::{
    assertion_candidate_document, assertion_candidate_in, assertion_candidate_json,
    corpus_entry_document, corpus_entry_in, corpus_entry_json,
};
use crate::json::{exact_json, formatted, formatted_json, lemma_plain_values_are_exact};
use crate::number::{decimal, print_usize};
use crate::readback::{
    lemma_assertion_candidate_is_plain, lemma_assertion_candidate_reads,
    lemma_corpus_entry_is_plain, lemma_corpus_entry_reads,
};
use crate::records::{
    AssertionCandidate, AssertionCandidateModel, AssertionDomain, AssertionSource, CorpusEntry,
    CorpusEntryModel,
};
use crate::seqs::{cat2, cat3, cat5, lemma_take_all, lemma_take_next};
use crate::split::{at_most, first_texts, join, joined, lines, lines_of, trim, trimmed};
use crate::text::{
    chars_of, clone_text, contains, cut_at, find, find_index, has_text, lower, occurs_at, or_text,
    owned, same, split_once, strip_prefix, text_between, text_or, to_lower, without_prefix,
};

verus! {

// ---------------------------------------------------------------------------
// Artifacts
// ---------------------------------------------------------------------------
/// An artifact that has not been written yet.
pub open spec fn planned(
    id: Seq<char>,
    language: Seq<char>,
    kind: ArtifactKind,
    target_id: Seq<char>,
    path: Seq<char>,
    contents: Seq<char>,
    description: Seq<char>,
) -> GeneratedArtifactModel {
    GeneratedArtifactModel {
        id,
        language,
        kind,
        target_id,
        path,
        contents,
        description,
        status: ArtifactStatus::Planned,
    }
}

/// Makes an artifact that has not been written yet.
pub fn plan_artifact(
    id: String,
    language: &str,
    kind: ArtifactKind,
    target_id: String,
    path: String,
    contents: String,
    description: &str,
) -> (r: GeneratedArtifact)
    ensures
        r.deep_view() == planned(
            id@,
            language@,
            kind,
            target_id@,
            path@,
            contents@,
            description@,
        ),
{
    GeneratedArtifact {
        id,
        language: owned(language),
        kind,
        target_id,
        path,
        contents,
        description: owned(description),
        status: ArtifactStatus::Planned,
    }
}

/// The target of a finding, or `unknown` in its language.
pub open spec fn target_or_unknown(target_id: Option<Seq<char>>, language: Seq<char>) -> Seq<char> {
    match target_id {
        Some(id) => id,
        None => language + ":unknown"@,
    }
}

/// The target of a finding, or `unknown` in its language.
pub fn known_target(target_id: &Option<String>, language: &str) -> (r: String)
    ensures
        r@ == target_or_unknown(target_id.deep_view(), language@),
{
    match target_id {
        Some(id) => id.clone(),
        None => cat2(language, ":unknown"),
    }
}

// ---------------------------------------------------------------------------
// Reading a finding
// ---------------------------------------------------------------------------
/// The language of a target: what stands before the first colon of its id.
pub open spec fn target_language(target_id: Option<Seq<char>>) -> Option<Seq<char>> {
    match target_id {
        Some(id) => match cut_at(id, ':') {
            Some(sides) => Some(sides.0),
            None => None,
        },
        None => None,
    }
}

/// The language of a finding's target.
pub fn finding_language(finding: &Failure) -> (r: Option<String>)
    ensures
        r.deep_view() == target_language(finding.deep_view().target_id),
{
    match &finding.target_id {
        Some(id) => match split_once(id.as_str(), ':') {
            Some(sides) => Some(sides.0),
            None => None,
        },
        None => None,
    }
}

/// Whether a message calls for a regression test.
pub open spec fn wants_regression(message: Seq<char>) -> bool {
    ||| has_text(message, "mutation survived"@)
    ||| has_text(message, "fuzz"@)
    ||| has_text(message, "minimal failing input"@)
    ||| has_text(message, "cargo test failed"@)
    ||| has_text(message, "go test failed"@)
    ||| has_text(message, "behavioral replay drift"@)
}

/// Whether a message calls for a regression test.
pub fn should_generate_regression_artifact(finding: &Failure) -> (r: bool)
    ensures
        r == wants_regression(finding.message@),
{
    let message = finding.message.as_str();
    contains(message, "mutation survived") || contains(message, "fuzz") || contains(
        message,
        "minimal failing input",
    ) || contains(message, "cargo test failed") || contains(message, "go test failed") || contains(
        message,
        "behavioral replay drift",
    )
}

/// Whether a line of tool output names a failing input.
pub open spec fn names_input(line: Seq<char>) -> bool {
    let low = lower(line);
    has_text(low, "minimal failing input"@) || has_text(low, "failing input"@) || has_text(
        low,
        "failure persistence"@,
    )
}

/// The first line, at or after `from`, that names a failing input.
pub open spec fn first_input_line(lines: Seq<Seq<char>>, from: int) -> Option<Seq<char>>
    decreases lines.len() - from,
{
    if from < 0 || from >= lines.len() {
        None
    } else if names_input(lines[from]) {
        Some(trimmed(lines[from]))
    } else {
        first_input_line(lines, from + 1)
    }
}

/// The failing input that tool output names, trimmed.
pub open spec fn minimized_input(output: Seq<char>) -> Option<Seq<char>> {
    first_input_line(lines_of(output), 0)
}

/// The failing input that tool output names, trimmed.
pub fn extract_minimized_input(output: &str) -> (r: Option<String>)
    ensures
        r.deep_view() == minimized_input(output@),
{
    let all = lines(output);
    let ghost av = all.deep_view();
    let mut i: usize = 0;
    while i < all.len()
        invariant
            i <= all@.len(),
            av == all.deep_view(),
            av == lines_of(output@),
            first_input_line(av, 0) == first_input_line(av, i as int),
        decreases all@.len() - i,
    {
        assert(av[i as int] == all@[i as int]@);
        let low = to_lower(all[i].as_str());
        if contains(low.as_str(), "minimal failing input") || contains(
            low.as_str(),
            "failing input",
        ) || contains(low.as_str(), "failure persistence") {
            return Some(trim(all[i].as_str()));
        }
        i = i + 1;
    }
    None
}

/// The input of a finding: the recorded one, else one that its output names.
pub open spec fn finding_input(finding: FailureModel) -> Option<Seq<char>> {
    let recorded = match finding.repro {
        Some(repro) => repro.input,
        None => None,
    };
    if recorded is Some {
        recorded
    } else if minimized_input(finding.stdout_excerpt) is Some {
        minimized_input(finding.stdout_excerpt)
    } else {
        minimized_input(finding.stderr_excerpt)
    }
}

fn known_input(finding: &Failure) -> (r: Option<String>)
    ensures
        r.deep_view() == finding_input(finding.deep_view()),
{
    if let Some(repro) = &finding.repro {
        if let Some(input) = &repro.input {
            return Some(input.clone());
        }
    }
    match extract_minimized_input(finding.stdout_excerpt.as_str()) {
        Some(input) => Some(input),
        None => extract_minimized_input(finding.stderr_excerpt.as_str()),
    }
}

/// The two sides of a replacement that a repro command describes.
pub open spec fn replacement(command: Seq<char>) -> Option<(Seq<char>, Seq<char>)> {
    match without_prefix(command, "replace `"@) {
        Some(rest) => match find(rest, "` with `"@) {
            Some(at) => match cut_at(rest.skip(at + "` with `"@.len()), '`') {
                Some(sides) => Some((rest.take(at), sides.0)),
                None => None,
            },
            None => None,
        },
        None => None,
    }
}

/// The two sides of a replacement that a repro command describes.
pub fn parse_replacement(command: &str) -> (r: Option<(String, String)>)
    ensures
        r matches Some(p) ==> replacement(command@) == Some((p.0@, p.1@)),
        r is None ==> replacement(command@) is None,
{
    let rest = match strip_prefix(command, "replace `") {
        Some(rest) => rest,
        None => {
            return None;
        },
    };
    let chars = chars_of(rest.as_str());
    let middle = chars_of("` with `");
    match find_index(&chars, &middle, 0) {
        Some(at) => {
            let n: usize = chars.len();
            let from = text_between(&chars, 0, at);
            let behind = text_between(&chars, at + middle.len(), n);
            assert(from@ == rest@.take(at as int));
            assert(behind@ == rest@.skip(at + "` with `"@.len()));
            match split_once(behind.as_str(), '`') {
                Some(sides) => Some((from, sides.0)),
                None => None,
            }
        },
        None => None,
    }
}

/// A program and its arguments on one line.
pub open spec fn command_words(program: Seq<char>, args: Seq<Seq<char>>) -> Seq<char>
    decreases args.len(),
{
    if args.len() == 0 {
        program
    } else {
        command_words(program, args.drop_last()) + " "@ + args.last()
    }
}

/// A program and its arguments on one line.
pub fn command_line(program: &str, args: &Vec<String>) -> (r: String)
    ensures
        r@ == command_words(program@, args.deep_view()),
{
    let mut out = owned(program);
    let ghost all = args.deep_view();
    let mut i: usize = 0;
    assert(all.take(0).len() == 0);
    while i < args.len()
        invariant
            i <= args@.len(),
            all == args.deep_view(),
            out@ == command_words(program@, all.take(i as int)),
        decreases args@.len() - i,
    {
        proof {
            lemma_take_next(all, i as int);
        }
        out.append(" ");
        out.append(args[i].as_str());
        i = i + 1;
    }
    proof {
        lemma_take_all(all);
    }
    out
}

/// The first forty lines of a text.
pub fn excerpt_text(output: &str) -> (r: String)
    ensures
        r@ == joined(at_most(lines_of(output@), 40), "\n"@),
{
    let all = lines(output);
    let first = first_texts(&all, 40);
    join(&first, "\n")
}

// ---------------------------------------------------------------------------
// Domains and sources
// ---------------------------------------------------------------------------
/// Where a finding comes from, by its message and command.
pub open spec fn source_of(message: Seq<char>, command: Seq<char>) -> AssertionSource {
    if has_text(message, "mutation survived"@) {
        AssertionSource::MutationSurvivor
    } else if has_text(message, "fuzz"@) || has_text(command, "-fuzz="@) {
        AssertionSource::FuzzRepro
    } else if has_text(message, "cargo test failed"@) || has_text(message, "go test failed"@) {
        AssertionSource::GeneratedTestFailure
    } else if has_text(message, "differential"@) || has_text(message, "replay"@) {
        AssertionSource::DifferentialReplay
    } else {
        AssertionSource::CoverageGap
    }
}

/// Where a finding comes from, by its message and command.
pub fn assertion_source(finding: &Failure) -> (r: AssertionSource)
    ensures
        r == source_of(finding.message@, finding.command@),
{
    let message = finding.message.as_str();
    if contains(message, "mutation survived") {
        AssertionSource::MutationSurvivor
    } else if contains(message, "fuzz") || contains(finding.command.as_str(), "-fuzz=") {
        AssertionSource::FuzzRepro
    } else if contains(message, "cargo test failed") || contains(message, "go test failed") {
        AssertionSource::GeneratedTestFailure
    } else if contains(message, "differential") || contains(message, "replay") {
        AssertionSource::DifferentialReplay
    } else {
        AssertionSource::CoverageGap
    }
}

/// The domain of a text in small letters: the first whose words it has.
pub open spec fn domain_of_text(text: Seq<char>) -> AssertionDomain {
    if has_text(text, "auth"@) || has_text(text, "permission"@) || has_text(text, "token"@) || has_text(text, "principal"@) {
        AssertionDomain::AuthPermission
    } else if has_text(text, "money"@) || has_text(text, "price"@) || has_text(text, "invoice"@) || has_text(text, "total"@) || has_text(text, "refund"@) || has_text(text, "discount"@) {
        AssertionDomain::Money
    } else if has_text(text, "parse"@) || has_text(text, "format"@) || has_text(text, "normalize"@) || has_text(text, "trim"@) {
        AssertionDomain::Parsing
    } else if has_text(text, "json"@) || has_text(text, "serial"@) || has_text(text, "marshal"@) || has_text(text, "deserialize"@) {
        AssertionDomain::Serialization
    } else if has_text(text, "error"@) || has_text(text, "err"@) || has_text(text, "none"@) || has_text(text, "nil"@) || has_text(text, "null"@) {
        AssertionDomain::ErrorHandling
    } else if has_text(text, "boundary"@) || has_text(text, "comparison"@) || has_text(text, "<"@) || has_text(text, ">"@) || has_text(text, "zero"@) {
        AssertionDomain::Boundary
    } else {
        AssertionDomain::General
    }
}

fn text_domain(text: &str) -> (r: AssertionDomain)
    ensures
        r == domain_of_text(text@),
{
    if contains(text, "auth") || contains(text, "permission") || contains(text, "token") || contains(text, "principal") {
        AssertionDomain::AuthPermission
    } else if contains(text, "money") || contains(text, "price") || contains(text, "invoice") || contains(text, "total") || contains(text, "refund") || contains(text, "discount") {
        AssertionDomain::Money
    } else if contains(text, "parse") || contains(text, "format") || contains(text, "normalize") || contains(text, "trim") {
        AssertionDomain::Parsing
    } else if contains(text, "json") || contains(text, "serial") || contains(text, "marshal") || contains(text, "deserialize") {
        AssertionDomain::Serialization
    } else if contains(text, "error") || contains(text, "err") || contains(text, "none") || contains(text, "nil") || contains(text, "null") {
        AssertionDomain::ErrorHandling
    } else if contains(text, "boundary") || contains(text, "comparison") || contains(text, "<") || contains(text, ">") || contains(text, "zero") {
        AssertionDomain::Boundary
    } else {
        AssertionDomain::General
    }
}

/// The domain of a finding: that of its message, target and command.
pub open spec fn domain_of(finding: FailureModel) -> AssertionDomain {
    domain_of_text(
        lower(
            finding.message + " "@ + or_text(finding.target_id, ""@) + " "@ + finding.command,
        ),
    )
}

/// The domain of a finding: that of its message, target and command.
pub fn assertion_domain(finding: &Failure) -> (r: AssertionDomain)
    ensures
        r == domain_of(finding.deep_view()),
{
    let target = text_or(&finding.target_id, "");
    let words = cat5(
        finding.message.as_str(),
        " ",
        target.as_str(),
        " ",
        finding.command.as_str(),
    );
    let low = to_lower(words.as_str());
    text_domain(low.as_str())
}

/// A list of one text.
pub fn texts_of1(a: &str) -> (r: Vec<String>)
    ensures
        r.deep_view() == seq![a@],
{
    let mut out: Vec<String> = Vec::new();
    out.push(owned(a));
    assert(out.deep_view() == seq![a@]);
    out
}

/// A list of two texts.
pub fn texts_of2(a: &str, b: &str) -> (r: Vec<String>)
    ensures
        r.deep_view() == seq![a@, b@],
{
    let mut out: Vec<String> = Vec::new();
    out.push(owned(a));
    out.push(owned(b));
    assert(out.deep_view() == seq![a@, b@]);
    out
}

/// A list of three texts.
pub fn texts_of3(a: &str, b: &str, c: &str) -> (r: Vec<String>)
    ensures
        r.deep_view() == seq![a@, b@, c@],
{
    let mut out: Vec<String> = Vec::new();
    out.push(owned(a));
    out.push(owned(b));
    out.push(owned(c));
    assert(out.deep_view() == seq![a@, b@, c@]);
    out
}

/// A list of four texts.
pub fn texts_of4(a: &str, b: &str, c: &str, d: &str) -> (r: Vec<String>)
    ensures
        r.deep_view() == seq![a@, b@, c@, d@],
{
    let mut out: Vec<String> = Vec::new();
    out.push(owned(a));
    out.push(owned(b));
    out.push(owned(c));
    out.push(owned(d));
    assert(out.deep_view() == seq![a@, b@, c@, d@]);
    out
}

/// The kinds of test that fit a domain.
pub open spec fn domain_packs(domain: AssertionDomain) -> Seq<Seq<char>> {
    match domain {
        AssertionDomain::AuthPermission => seq!["auth-permission-matrix"@, "principal-boundaries"@],
        AssertionDomain::Money => seq!["money-boundaries"@, "rounding-and-limits"@],
        AssertionDomain::Parsing => seq!["parser-valid-invalid"@, "normalization-boundaries"@],
        AssertionDomain::Serialization => seq!["serialization-roundtrip"@, "missing-field-compatibility"@],
        AssertionDomain::ErrorHandling => seq!["error-paths"@, "empty-and-null-inputs"@],
        AssertionDomain::Boundary => seq!["boundary-neighbors"@, "comparison-edges"@],
        AssertionDomain::General => seq!["general-regression"@],
    }
}

/// The kinds of test that fit a domain.
pub fn semantic_packs_for_domain(domain: AssertionDomain) -> (r: Vec<String>)
    ensures
        r.deep_view() == domain_packs(domain),
{
    match domain {
        AssertionDomain::AuthPermission => texts_of2("auth-permission-matrix", "principal-boundaries"),
        AssertionDomain::Money => texts_of2("money-boundaries", "rounding-and-limits"),
        AssertionDomain::Parsing => texts_of2("parser-valid-invalid", "normalization-boundaries"),
        AssertionDomain::Serialization => texts_of2("serialization-roundtrip", "missing-field-compatibility"),
        AssertionDomain::ErrorHandling => texts_of2("error-paths", "empty-and-null-inputs"),
        AssertionDomain::Boundary => texts_of2("boundary-neighbors", "comparison-edges"),
        AssertionDomain::General => texts_of1("general-regression"),
    }
}

/// A text with `_` and `-` made blanks.
pub open spec fn blank_separators(s: Seq<char>) -> Seq<char> {
    s.map_values(|c: char| if c == '_' || c == '-' { ' ' } else { c })
}

/// A text with `_` and `-` made blanks.
pub fn replace_separators(s: &str) -> (r: String)
    ensures
        r@ == blank_separators(s@),
{
    let chars = chars_of(s);
    let mut out = String::new();
    let mut i: usize = 0;
    assert(out@ == blank_separators(s@.take(0)));
    while i < chars.len()
        invariant
            i <= chars@.len(),
            chars@ == s@,
            out@ == blank_separators(s@.take(i as int)),
        decreases chars@.len() - i,
    {
        let c = chars[i];
        if c == '_' || c == '-' {
            out.push(' ');
        } else {
            out.push(c);
        }
        proof {
            lemma_take_next(s@, i as int);
        }
        i = i + 1;
        assert(out@ == blank_separators(s@.take(i as int)));
    }
    proof {
        lemma_take_all(s@);
    }
    out
}

/// The domain that a name, with blanks between its words, stands for.
pub open spec fn domain_named(name: Seq<char>) -> AssertionDomain {
    if name == "auth permission"@ || name == "auth"@ || name == "permission"@ {
        AssertionDomain::AuthPermission
    } else if name == "money"@ {
        AssertionDomain::Money
    } else if name == "parsing"@ || name == "parser"@ {
        AssertionDomain::Parsing
    } else if name == "serialization"@ {
        AssertionDomain::Serialization
    } else if name == "error handling"@ || name == "error"@ {
        AssertionDomain::ErrorHandling
    } else if name == "boundary"@ {
        AssertionDomain::Boundary
    } else {
        AssertionDomain::General
    }
}

fn named_domain(name: &str) -> (r: AssertionDomain)
    ensures
        r == domain_named(name@),
{
    if same(name, "auth permission") || same(name, "auth") || same(name, "permission") {
        AssertionDomain::AuthPermission
    } else if same(name, "money") {
        AssertionDomain::Money
    } else if same(name, "parsing") || same(name, "parser") {
        AssertionDomain::Parsing
    } else if same(name, "serialization") {
        AssertionDomain::Serialization
    } else if same(name, "error handling") || same(name, "error") {
        AssertionDomain::ErrorHandling
    } else if same(name, "boundary") {
        AssertionDomain::Boundary
    } else {
        AssertionDomain::General
    }
}

/// The kinds of test that fit the domain of this name.
pub fn semantic_packs_for_domain_name(domain: &str) -> (r: Vec<String>)
    ensures
        r.deep_view() == domain_packs(domain_named(blank_separators(domain@))),
{
    let name = replace_separators(domain);
    semantic_packs_for_domain(named_domain(name.as_str()))
}

/// The name of a domain.
pub fn assertion_domain_name(domain: AssertionDomain) -> (r: String)
    ensures
        r@ == domain.label_text(),
{
    owned(domain.label())
}

/// The name of a domain leads back to its kinds of test.
pub proof fn law_domain_name_names_its_packs(domain: AssertionDomain)
    ensures
        domain_packs(domain_named(blank_separators(domain.label_text()))) == domain_packs(domain),
{
    reveal_strlit("auth_permission");
    reveal_strlit("auth permission");
    reveal_strlit("auth");
    reveal_strlit("permission");
    reveal_strlit("money");
    reveal_strlit("parsing");
    reveal_strlit("parser");
    reveal_strlit("serialization");
    reveal_strlit("error_handling");
    reveal_strlit("error handling");
    reveal_strlit("error");
    reveal_strlit("boundary");
    reveal_strlit("general");
    assert(blank_separators("auth_permission"@) =~= "auth permission"@);
    assert(blank_separators("money"@) =~= "money"@);
    assert(blank_separators("parsing"@) =~= "parsing"@);
    assert(blank_separators("serialization"@) =~= "serialization"@);
    assert(blank_separators("error_handling"@) =~= "error handling"@);
    assert(blank_separators("boundary"@) =~= "boundary"@);
    assert(blank_separators("general"@) =~= "general"@);
    assert("money"@[0] != "auth permission"@[0]);
    assert("parsing"@[0] != "auth permission"@[0] && "parsing"@.len() != "permission"@.len()
        && "parsing"@[0] != "money"@[0]);
    assert("serialization"@[0] != "auth permission"@[0] && "serialization"@[0] != "permission"@[0]
        && "serialization"@[0] != "money"@[0]);
    assert("error handling"@.len() != "auth permission"@.len() && "error handling"@[0] != "auth"@[0]
        && "error handling"@[0] != "permission"@[0] && "error handling"@[0] != "money"@[0]
        && "error handling"@[0] != "serialization"@[0]);
    assert("boundary"@[0] != "auth permission"@[0] && "boundary"@[0] != "permission"@[0]
        && "boundary"@[0] != "money"@[0] && "boundary"@[0] != "serialization"@[0]
        && "boundary"@[0] != "error"@[0]);
    assert("general"@[0] != "auth permission"@[0] && "general"@[0] != "permission"@[0]
        && "general"@[0] != "money"@[0] && "general"@[0] != "serialization"@[0]
        && "general"@[0] != "error"@[0] && "general"@[0] != "boundary"@[0]);
}

/// Inputs to try in a domain.
pub open spec fn domain_seeds(domain: AssertionDomain) -> Seq<Seq<char>> {
    match domain {
        AssertionDomain::AuthPermission => seq!["principal=admin"@, "principal=support"@, "principal=guest"@],
        AssertionDomain::Money => seq!["amount=0"@, "amount=1"@, "amount=100"@, "amount=101"@],
        AssertionDomain::Parsing => seq!["input="@, "input=  veritas-seed  "@, "input=not-a-valid-value"@],
        AssertionDomain::Serialization => seq!["{}"@, "{\"id\":\"veritas\"}"@],
        AssertionDomain::ErrorHandling => seq!["missing"@, "invalid"@],
        AssertionDomain::Boundary => seq!["0"@, "1"@, "-1"@],
        AssertionDomain::General => seq!["veritas-seed"@],
    }
}

/// Inputs to try in a domain.
pub fn seed_inputs_for_domain(domain: AssertionDomain) -> (r: Vec<String>)
    ensures
        r.deep_view() == domain_seeds(domain),
{
    match domain {
        AssertionDomain::AuthPermission => texts_of3("principal=admin", "principal=support", "principal=guest"),
        AssertionDomain::Money => texts_of4("amount=0", "amount=1", "amount=100", "amount=101"),
        AssertionDomain::Parsing => texts_of3("input=", "input=  veritas-seed  ", "input=not-a-valid-value"),
        AssertionDomain::Serialization => texts_of2("{}", "{\"id\":\"veritas\"}"),
        AssertionDomain::ErrorHandling => texts_of2("missing", "invalid"),
        AssertionDomain::Boundary => texts_of3("0", "1", "-1"),
        AssertionDomain::General => texts_of1("veritas-seed"),
    }
}

/// The inputs to try for a finding: its own, or those of its domain.
pub open spec fn seed_inputs(finding: FailureModel, domain: AssertionDomain) -> Seq<Seq<char>> {
    match finding_input(finding) {
        Some(input) => seq![trimmed(input)],
        None => domain_seeds(domain),
    }
}

/// The inputs to try for a finding: its own, or those of its domain.
pub fn assertion_seed_inputs(finding: &Failure, domain: AssertionDomain) -> (r: Vec<String>)
    ensures
        r.deep_view() == seed_inputs(finding.deep_view(), domain),
{
    match known_input(finding) {
        Some(input) => {
            let seed = trim(input.as_str());
            texts_of1(seed.as_str())
        },
        None => seed_inputs_for_domain(domain),
    }
}

/// What to assert in a domain.
pub open spec fn domain_expectation(domain: AssertionDomain) -> Seq<char> {
    match domain {
        AssertionDomain::AuthPermission => "Assert allowed, delegated, and denied principals explicitly."@,
        AssertionDomain::Money => "Assert exact cents/rounding/refund behavior at zero and threshold boundaries."@,
        AssertionDomain::Parsing => "Assert accepted, trimmed, and invalid input behavior explicitly."@,
        AssertionDomain::Serialization => "Assert stable round-trip and missing-field behavior explicitly."@,
        AssertionDomain::ErrorHandling => "Assert the error/empty/nil path, not only that the call returns."@,
        AssertionDomain::Boundary => "Assert the exact value on both sides of the changed boundary."@,
        AssertionDomain::General => "Assert the expected output or state transition for the recorded repro."@,
    }
}

fn expectation(domain: AssertionDomain) -> (r: &'static str)
    ensures
        r@ == domain_expectation(domain),
{
    match domain {
        AssertionDomain::AuthPermission => "Assert allowed, delegated, and denied principals explicitly.",
        AssertionDomain::Money => "Assert exact cents/rounding/refund behavior at zero and threshold boundaries.",
        AssertionDomain::Parsing => "Assert accepted, trimmed, and invalid input behavior explicitly.",
        AssertionDomain::Serialization => "Assert stable round-trip and missing-field behavior explicitly.",
        AssertionDomain::ErrorHandling => "Assert the error/empty/nil path, not only that the call returns.",
        AssertionDomain::Boundary => "Assert the exact value on both sides of the changed boundary.",
        AssertionDomain::General => "Assert the expected output or state transition for the recorded repro.",
    }
}

/// What to assert about a surviving replacement.
pub open spec fn replacement_expectation_text(
    language: Seq<char>,
    from: Seq<char>,
    to: Seq<char>,
) -> Seq<char> {
    let t = "Assert the intended "@
        + language
        + " behavior at the smallest seed that distinguishes `"@
        + from
        + "` from `"@
        + to
        + "`."@;
    t
}

fn replacement_expectation(language: &str, from: &str, to: &str) -> (r: String)
    ensures
        r@ == replacement_expectation_text(language@, from@, to@),
{
    let mut out = owned("Assert the intended ");
    out.append(language);
    out.append(" behavior at the smallest seed that distinguishes `");
    out.append(from);
    out.append("` from `");
    out.append(to);
    out.append("`.");
    out
}

/// The replacement of a finding's repro command.
pub open spec fn finding_replacement(finding: FailureModel) -> Option<(Seq<char>, Seq<char>)> {
    match finding.repro {
        Some(repro) => replacement(repro.command),
        None => None,
    }
}

/// What to assert about a finding.
pub open spec fn expected_behavior(
    language: Seq<char>,
    finding: FailureModel,
    domain: AssertionDomain,
) -> Seq<char> {
    match finding_replacement(finding) {
        Some(sides) => replacement_expectation_text(language, sides.0, sides.1),
        None => domain_expectation(domain),
    }
}

/// What to assert about a finding.
pub fn expected_behavior_text(
    language: &str,
    finding: &Failure,
    domain: AssertionDomain,
) -> (r: String)
    ensures
        r@ == expected_behavior(language@, finding.deep_view(), domain),
{
    if let Some(repro) = &finding.repro {
        if let Some(sides) = parse_replacement(repro.command.as_str()) {
            return replacement_expectation(language, sides.0.as_str(), sides.1.as_str());
        }
    }
    owned(expectation(domain))
}

// ---------------------------------------------------------------------------
// Assertion candidates
// ---------------------------------------------------------------------------
/// The assertion candidate of a finding.
pub open spec fn candidate_for(
    language: Seq<char>,
    finding: FailureModel,
) -> AssertionCandidateModel {
    let domain = domain_of(finding);
    AssertionCandidateModel {
        language,
        target_id: target_or_unknown(finding.target_id, language),
        finding_id: finding.id,
        source: source_of(finding.message, finding.command),
        domain,
        semantic_packs: domain_packs(domain),
        title: finding.message,
        seed_inputs: seed_inputs(finding, domain),
        expected_behavior: expected_behavior(language, finding, domain),
        replay_command: match finding.repro {
            Some(repro) => Some(repro.command),
            None => Some(finding.command),
        },
    }
}

/// The assertion candidate of a finding.
pub fn assertion_candidate(language: &str, finding: &Failure) -> (r: AssertionCandidate)
    ensures
        r.deep_view() == candidate_for(language@, finding.deep_view()),
{
    let domain = assertion_domain(finding);
    let replay_command = match &finding.repro {
        Some(repro) => Some(repro.command.clone()),
        None => Some(finding.command.clone()),
    };
    AssertionCandidate {
        language: owned(language),
        target_id: known_target(&finding.target_id, language),
        finding_id: clone_text(&finding.id),
        source: assertion_source(finding),
        domain,
        semantic_packs: semantic_packs_for_domain(domain),
        title: finding.message.clone(),
        seed_inputs: assertion_seed_inputs(finding, domain),
        expected_behavior: expected_behavior_text(language, finding, domain),
        replay_command,
    }
}

/// The assertion candidate that a text holds; nothing where it holds none.
pub open spec fn candidate_in_text(contents: Seq<char>) -> Option<AssertionCandidateModel> {
    match exact_json(contents) {
        Some(value) => assertion_candidate_in(value),
        None => None,
    }
}

/// The artifact of the assertion candidate of one finding, where it calls for
/// a regression test.
pub open spec fn candidate_artifact(
    language: Seq<char>,
    finding: FailureModel,
    index: int,
) -> Option<GeneratedArtifactModel> {
    if wants_regression(finding.message) {
        let candidate = candidate_for(language, finding);
        Some(
            planned(
                language + "-assertion-candidate-"@ + decimal(index),
                language,
                ArtifactKind::AssertionCandidate,
                candidate.target_id,
                ".veritas/assertions/"@ + language + "_"@ + decimal(index) + ".json"@,
                formatted_json(assertion_candidate_document(candidate)),
                "Structured assertion candidate for AI or human regression promotion"@,
            ),
        )
    } else {
        None
    }
}

fn one_candidate_artifact(
    language: &str,
    finding: &Failure,
    index: usize,
) -> (r: Option<GeneratedArtifact>)
    ensures
        r.deep_view() == candidate_artifact(language@, finding.deep_view(), index as int),
        r matches Some(artifact) ==> candidate_in_text(artifact.contents@) == Some(
            candidate_for(language@, finding.deep_view()),
        ),
{
    if !should_generate_regression_artifact(finding) {
        return None;
    }
    let candidate = assertion_candidate(language, finding);
    let number = print_usize(index);
    proof {
        lemma_assertion_candidate_reads(candidate.deep_view());
        lemma_assertion_candidate_is_plain(candidate.deep_view(), 100);
        lemma_plain_values_are_exact(100);
    }
    let contents = formatted(&assertion_candidate_json(&candidate));
    Some(
        plan_artifact(
            cat3(language, "-assertion-candidate-", number.as_str()),
            language,
            ArtifactKind::AssertionCandidate,
            candidate.target_id.clone(),
            cat5(".veritas/assertions/", language, "_", number.as_str(), ".json"),
            contents,
            "Structured assertion candidate for AI or human regression promotion",
        ),
    )
}

/// The artifacts of the assertion candidates of all findings.
pub open spec fn candidate_artifacts(
    language: Seq<char>,
    items: Seq<FailureModel>,
) -> Seq<GeneratedArtifactModel>
    decreases items.len(),
{
    if items.len() == 0 {
        Seq::empty()
    } else {
        let before = candidate_artifacts(language, items.drop_last());
        match candidate_artifact(language, items.last(), (items.len() - 1) as int) {
            Some(one) => before.push(one),
            None => before,
        }
    }
}

/// The assertion candidates of the findings that call for a regression test.
pub open spec fn candidates_of_findings(
    language: Seq<char>,
    items: Seq<FailureModel>,
) -> Seq<AssertionCandidateModel>
    decreases items.len(),
{
    if items.len() == 0 {
        Seq::empty()
    } else {
        let before = candidates_of_findings(language, items.drop_last());
        if wants_regression(items.last().message) {
            before.push(candidate_for(language, items.last()))
        } else {
            before
        }
    }
}

/// The artifacts of the assertion candidates of all findings. Each candidate is read back from
/// its artifact as it was.
pub fn assertion_candidate_artifacts(language: &str, items: &Vec<Failure>) -> (r: Vec<
    GeneratedArtifact,
>)
    ensures
        r.deep_view() == candidate_artifacts(language@, items.deep_view()),
        r@.len() == candidates_of_findings(language@, items.deep_view()).len(),
        forall|k: int|
            0 <= k < r@.len() ==> candidate_in_text((#[trigger] r@[k]).contents@) == Some(
                candidates_of_findings(language@, items.deep_view())[k],
            ),
{
    let mut out: Vec<GeneratedArtifact> = Vec::new();
    let ghost all = items.deep_view();
    let mut i: usize = 0;
    assert(out.deep_view() == candidate_artifacts(language@, all.take(0)));
    while i < items.len()
        invariant
            i <= items@.len(),
            all == items.deep_view(),
            out.deep_view() == candidate_artifacts(language@, all.take(i as int)),
            out@.len() == candidates_of_findings(language@, all.take(i as int)).len(),
            forall|k: int|
                0 <= k < out@.len() ==> candidate_in_text((#[trigger] out@[k]).contents@) == Some(
                    candidates_of_findings(language@, all.take(i as int))[k],
                ),
        decreases items@.len() - i,
    {
        proof {
            lemma_take_next(all, i as int);
        }
        match one_candidate_artifact(language, &items[i], i) {
            Some(one) => {
                out.push(one);
                assert(out.deep_view() =~= candidate_artifacts(language@, all.take(i + 1)));
            },
            None => {},
        }
        i = i + 1;
    }
    proof {
        lemma_take_all(all);
    }
    out
}

// ---------------------------------------------------------------------------
// Corpus entries
// ---------------------------------------------------------------------------
/// The corpus entry of a finding that has an input or an input file.
pub open spec fn entry_for(language: Seq<char>, finding: FailureModel) -> Option<CorpusEntryModel> {
    match finding.repro {
        Some(repro) => if finding_input(finding) is None && repro.path is None {
            None
        } else {
            Some(
                CorpusEntryModel {
                    language,
                    target_id: target_or_unknown(finding.target_id, language),
                    finding_id: finding.id,
                    source: source_of(finding.message, finding.command),
                    input: finding_input(finding),
                    path: repro.path,
                    replay_command: repro.command,
                },
            )
        },
        None => None,
    }
}

fn corpus_entry(language: &str, finding: &Failure) -> (r: Option<CorpusEntry>)
    ensures
        r.deep_view() == entry_for(language@, finding.deep_view()),
{
    match &finding.repro {
        Some(repro) => {
            let input = known_input(finding);
            if input.is_none() && repro.path.is_none() {
                return None;
            }
            Some(
                CorpusEntry {
                    language: owned(language),
                    target_id: known_target(&finding.target_id, language),
                    finding_id: clone_text(&finding.id),
                    source: assertion_source(finding),
                    input,
                    path: clone_text(&repro.path),
                    replay_command: repro.command.clone(),
                },
            )
        },
        None => None,
    }
}

/// The corpus entry that a text holds; nothing where it holds none.
pub open spec fn entry_in_text(contents: Seq<char>) -> Option<CorpusEntryModel> {
    match exact_json(contents) {
        Some(value) => corpus_entry_in(value),
        None => None,
    }
}

/// The artifact of the corpus entry of one finding.
pub open spec fn corpus_artifact(
    language: Seq<char>,
    finding: FailureModel,
    index: int,
) -> Option<GeneratedArtifactModel> {
    match entry_for(language, finding) {
        Some(entry) => Some(
            planned(
                language + "-corpus-entry-"@ + decimal(index),
                language,
                ArtifactKind::CorpusEntry,
                entry.target_id,
                ".veritas/corpus/"@ + language + "_"@ + decimal(index) + ".json"@,
                formatted_json(corpus_entry_document(entry)),
                "Persistent corpus seed metadata for replaying a discovered repro"@,
            ),
        ),
        None => None,
    }
}

fn one_corpus_artifact(
    language: &str,
    finding: &Failure,
    index: usize,
) -> (r: Option<GeneratedArtifact>)
    ensures
        r.deep_view() == corpus_artifact(language@, finding.deep_view(), index as int),
        match (r, entry_for(language@, finding.deep_view())) {
            (Some(artifact), Some(entry)) => entry_in_text(artifact.contents@) == Some(entry),
            (None, None) => true,
            _ => false,
        },
{
    match corpus_entry(language, finding) {
        Some(entry) => {
            let number = print_usize(index);
            proof {
                lemma_corpus_entry_reads(entry.deep_view());
                lemma_corpus_entry_is_plain(entry.deep_view(), 100);
                lemma_plain_values_are_exact(100);
            }
            let contents = formatted(&corpus_entry_json(&entry));
            Some(
                plan_artifact(
                    cat3(language, "-corpus-entry-", number.as_str()),
                    language,
                    ArtifactKind::CorpusEntry,
                    entry.target_id.clone(),
                    cat5(".veritas/corpus/", language, "_", number.as_str(), ".json"),
                    contents,
                    "Persistent corpus seed metadata for replaying a discovered repro",
                ),
            )
        },
        None => None,
    }
}

/// The corpus entries of all findings.
pub open spec fn entries_for(language: Seq<char>, items: Seq<FailureModel>) -> Seq<CorpusEntryModel>
    decreases items.len(),
{
    if items.len() == 0 {
        Seq::empty()
    } else {
        let before = entries_for(language, items.drop_last());
        match entry_for(language, items.last()) {
            Some(one) => before.push(one),
            None => before,
        }
    }
}

/// The artifacts of the corpus entries of all findings.
pub open spec fn corpus_artifacts(
    language: Seq<char>,
    items: Seq<FailureModel>,
) -> Seq<GeneratedArtifactModel>
    decreases items.len(),
{
    if items.len() == 0 {
        Seq::empty()
    } else {
        let before = corpus_artifacts(language, items.drop_last());
        match corpus_artifact(language, items.last(), (items.len() - 1) as int) {
            Some(one) => before.push(one),
            None => before,
        }
    }
}

/// The artifacts of the corpus entries of all findings. Each entry is read back from its
/// artifact as it was.
pub fn corpus_entry_artifacts(language: &str, items: &Vec<Failure>) -> (r: Vec<GeneratedArtifact>)
    ensures
        r.deep_view() == corpus_artifacts(language@, items.deep_view()),
        r@.len() == entries_for(language@, items.deep_view()).len(),
        forall|k: int|
            0 <= k < r@.len() ==> entry_in_text((#[trigger] r@[k]).contents@) == Some(
                entries_for(language@, items.deep_view())[k],
            ),
{
    let mut out: Vec<GeneratedArtifact> = Vec::new();
    let ghost all = items.deep_view();
    let mut i: usize = 0;
    assert(out.deep_view() == corpus_artifacts(language@, all.take(0)));
    while i < items.len()
        invariant
            i <= items@.len(),
            all == items.deep_view(),
            out.deep_view() == corpus_artifacts(language@, all.take(i as int)),
            out@.len() == entries_for(language@, all.take(i as int)).len(),
            forall|k: int|
                0 <= k < out@.len() ==> entry_in_text((#[trigger] out@[k]).contents@) == Some(
                    entries_for(language@, all.take(i as int))[k],
                ),
        decreases items@.len() - i,
    {
        proof {
            lemma_take_next(all, i as int);
        }
        match one_corpus_artifact(language, &items[i], i) {
            Some(one) => {
                out.push(one);
                assert(out.deep_view() =~= corpus_artifacts(language@, all.take(i + 1)));
            },
            None => {},
        }
        i = i + 1;
    }
    proof {
        lemma_take_all(all);
    }
    out
}

// ---------------------------------------------------------------------------
// Repro notes
// ---------------------------------------------------------------------------
/// The note on how to see a finding again.
pub open spec fn repro_note_text(
    finding: FailureModel,
    repro: ReproCaseModel,
    input: Option<Seq<char>>,
) -> Seq<char> {
    let t = "# Repro Case\n\n- Finding: "@
        + finding.message
        + "\n- Command: `"@
        + repro.command
        + "`\n"@;
    let t = match repro.path {
        Some(path) => {
            let t = t + "- Path: `"@ + path + "`\n"@;
            t
        },
        None => {
            t
        },
    };
    let t = match input {
        Some(value) => {
            let t = t + "- Minimized input: `"@ + trimmed(value) + "`\n"@;
            t
        },
        None => {
            let t = t + "- Minimized input: not available from tool output\n"@;
            t
        },
    };
    t
}

fn repro_note(finding: &Failure, repro: &ReproCase, input: &Option<String>) -> (r: String)
    ensures
        r@ == repro_note_text(finding.deep_view(), repro.deep_view(), input.deep_view()),
{
    let mut out = owned("# Repro Case\n\n- Finding: ");
    out.append(finding.message.as_str());
    out.append("\n- Command: `");
    out.append(repro.command.as_str());
    out.append("`\n");
    if let Some(path) = &repro.path {
        out.append("- Path: `");
        out.append(path.as_str());
        out.append("`\n");
    }
    match &input {
        Some(value) => {
            out.append("- Minimized input: `");
            out.append(trim(value.as_str()).as_str());
            out.append("`\n");
        },
        None => {
            out.append("- Minimized input: not available from tool output\n");
        },
    }
    out
}

/// The repro note of one finding that has a repro.
pub open spec fn repro_artifact(
    language: Seq<char>,
    finding: FailureModel,
    index: int,
) -> Option<GeneratedArtifactModel> {
    match finding.repro {
        Some(repro) => Some(
            planned(
                language + "-repro-"@ + decimal(index),
                language,
                ArtifactKind::ReproCase,
                target_or_unknown(finding.target_id, language),
                ".veritas/repros/"@ + language + "_"@ + decimal(index) + ".md"@,
                repro_note_text(finding, repro, finding_input(finding)),
                "Minimized repro summary extracted from verification output"@,
            ),
        ),
        None => None,
    }
}

fn one_repro_artifact(
    language: &str,
    finding: &Failure,
    index: usize,
) -> (r: Option<GeneratedArtifact>)
    ensures
        r.deep_view() == repro_artifact(language@, finding.deep_view(), index as int),
{
    match &finding.repro {
        Some(repro) => {
            let number = print_usize(index);
            let input = known_input(finding);
            let contents = repro_note(finding, repro, &input);
            Some(
                plan_artifact(
                    cat3(language, "-repro-", number.as_str()),
                    language,
                    ArtifactKind::ReproCase,
                    known_target(&finding.target_id, language),
                    cat5(".veritas/repros/", language, "_", number.as_str(), ".md"),
                    contents,
                    "Minimized repro summary extracted from verification output",
                ),
            )
        },
        None => None,
    }
}

/// The repro notes of all findings that have a repro.
pub open spec fn repro_notes(
    language: Seq<char>,
    items: Seq<FailureModel>,
) -> Seq<GeneratedArtifactModel>
    decreases items.len(),
{
    if items.len() == 0 {
        Seq::empty()
    } else {
        let before = repro_notes(language, items.drop_last());
        match repro_artifact(language, items.last(), (items.len() - 1) as int) {
            Some(one) => before.push(one),
            None => before,
        }
    }
}

/// The repro notes of all findings that have a repro.
pub fn repro_artifacts(language: &str, items: &Vec<Failure>) -> (r: Vec<GeneratedArtifact>)
    ensures
        r.deep_view() == repro_notes(language@, items.deep_view()),
{
    let mut out: Vec<GeneratedArtifact> = Vec::new();
    let ghost all = items.deep_view();
    let mut i: usize = 0;
    assert(out.deep_view() == repro_notes(language@, all.take(0)));
    while i < items.len()
        invariant
            i <= items@.len(),
            all == items.deep_view(),
            out.deep_view() == repro_notes(language@, all.take(i as int)),
        decreases items@.len() - i,
    {
        proof {
            lemma_take_next(all, i as int);
        }
        match one_repro_artifact(language, &items[i], i) {
            Some(one) => {
                push_generated_artifact(&mut out, one);
            },
            None => {},
        }
        i = i + 1;
    }
    proof {
        lemma_take_all(all);
    }
    out
}

// ---------------------------------------------------------------------------
// Candidate patches
// ---------------------------------------------------------------------------
/// The shape of test that a message suggests, if any.
pub open spec fn suggested_shape(message: Seq<char>) -> Option<Seq<char>> {
    if has_text(message, "mutation survived"@) {
        Some("Add a focused assertion that fails under the described mutant. Prefer a small unit test next to existing handwritten tests, then rerun `veritas verify` to confirm the mutant is killed.\n"@)
    } else if has_text(message, "fuzz"@) || has_text(message, "minimal failing input"@) {
        Some("Persist the minimized input as a regression case or fuzz corpus entry, then add an assertion for the expected behavior.\n"@)
    } else if has_text(message, "cargo test failed"@) || has_text(message, "go test failed"@) {
        Some("Promote the failing generated harness input into a stable handwritten regression test owned by the target package.\n"@)
    } else {
        None
    }
}

fn test_shape(message: &str) -> (r: Option<&'static str>)
    ensures
        r matches Some(t) ==> suggested_shape(message@) == Some(t@),
        r is None ==> suggested_shape(message@) is None,
{
    if contains(message, "mutation survived") {
        Some("Add a focused assertion that fails under the described mutant. Prefer a small unit test next to existing handwritten tests, then rerun `veritas verify` to confirm the mutant is killed.\n")
    } else if contains(message, "fuzz") || contains(message, "minimal failing input") {
        Some("Persist the minimized input as a regression case or fuzz corpus entry, then add an assertion for the expected behavior.\n")
    } else if contains(message, "cargo test failed") || contains(message, "go test failed") {
        Some("Promote the failing generated harness input into a stable handwritten regression test owned by the target package.\n")
    } else {
        None
    }
}

/// The note that suggests a test for a finding.
pub open spec fn patch_note_text(finding: FailureModel, shape: Seq<char>) -> Seq<char> {
    let t = "# Candidate Verification Patch\n\n- Finding: "@
        + finding.message
        + "\n- Target: `"@
        + or_text(finding.target_id, "unknown"@)
        + "`\n"@;
    let t = match finding.repro {
        Some(repro) => {
            let t = t + "- Repro command: `"@ + repro.command + "`\n"@;
            t
        },
        None => {
            t
        },
    };
    let t = t + "\n## Suggested Test Shape\n\n"@ + shape;
    t
}

fn patch_note(finding: &Failure, shape: &str) -> (r: String)
    ensures
        r@ == patch_note_text(finding.deep_view(), shape@),
{
    let mut out = owned("# Candidate Verification Patch\n\n- Finding: ");
    out.append(finding.message.as_str());
    out.append("\n- Target: `");
    out.append(text_or(&finding.target_id, "unknown").as_str());
    out.append("`\n");
    if let Some(repro) = &finding.repro {
        out.append("- Repro command: `");
        out.append(repro.command.as_str());
        out.append("`\n");
    }
    out.append("\n## Suggested Test Shape\n\n");
    out.append(shape);
    out
}

/// The candidate patch of one finding whose message suggests a test.
pub open spec fn patch_artifact(
    language: Seq<char>,
    finding: FailureModel,
    index: int,
) -> Option<GeneratedArtifactModel> {
    match suggested_shape(finding.message) {
        Some(shape) => Some(
            planned(
                language + "-candidate-patch-"@ + decimal(index),
                language,
                ArtifactKind::CandidatePatch,
                target_or_unknown(finding.target_id, language),
                ".veritas/patches/"@ + language + "_"@ + decimal(index) + ".md"@,
                patch_note_text(finding, shape),
                "AI-ready candidate verification patch guidance"@,
            ),
        ),
        None => None,
    }
}

fn one_patch_artifact(
    language: &str,
    finding: &Failure,
    index: usize,
) -> (r: Option<GeneratedArtifact>)
    ensures
        r.deep_view() == patch_artifact(language@, finding.deep_view(), index as int),
{
    match test_shape(finding.message.as_str()) {
        Some(shape) => {
            let number = print_usize(index);
            Some(
                plan_artifact(
                    cat3(language, "-candidate-patch-", number.as_str()),
                    language,
                    ArtifactKind::CandidatePatch,
                    known_target(&finding.target_id, language),
                    cat5(".veritas/patches/", language, "_", number.as_str(), ".md"),
                    patch_note(finding, shape),
                    "AI-ready candidate verification patch guidance",
                ),
            )
        },
        None => None,
    }
}

/// The candidate patches of all findings.
pub open spec fn patch_artifacts(
    language: Seq<char>,
    items: Seq<FailureModel>,
) -> Seq<GeneratedArtifactModel>
    decreases items.len(),
{
    if items.len() == 0 {
        Seq::empty()
    } else {
        let before = patch_artifacts(language, items.drop_last());
        match patch_artifact(language, items.last(), (items.len() - 1) as int) {
            Some(one) => before.push(one),
            None => before,
        }
    }
}

/// The candidate patches of all findings.
pub fn candidate_patch_artifacts(
    language: &str,
    items: &Vec<Failure>,
) -> (r: Vec<GeneratedArtifact>)
    ensures
        r.deep_view() == patch_artifacts(language@, items.deep_view()),
{
    let mut out: Vec<GeneratedArtifact> = Vec::new();
    let ghost all = items.deep_view();
    let mut i: usize = 0;
    assert(out.deep_view() == patch_artifacts(language@, all.take(0)));
    while i < items.len()
        invariant
            i <= items@.len(),
            all == items.deep_view(),
            out.deep_view() == patch_artifacts(language@, all.take(i as int)),
        decreases items@.len() - i,
    {
        proof {
            lemma_take_next(all, i as int);
        }
        match one_patch_artifact(language, &items[i], i) {
            Some(one) => {
                push_generated_artifact(&mut out, one);
            },
            None => {},
        }
        i = i + 1;
    }
    proof {
        lemma_take_all(all);
    }
    out
}

/// Whether a text has one of some words.
pub open spec fn has_any(text: Seq<char>, words: Seq<Seq<char>>) -> bool {
    exists|i: int| 0 <= i < words.len() && has_text(text, #[trigger] words[i])
}

/// A text is about what one of its words names. Words about permissions go before all others,
/// and a text without such words is about nothing in particular.
pub proof fn law_domains_are_named_by_words(text: Seq<char>)
    ensures
        has_any(text, seq!["auth"@, "permission"@, "token"@, "principal"@])
            <==> domain_of_text(text) == AssertionDomain::AuthPermission,
        domain_of_text(text) == AssertionDomain::Money ==> has_any(
            text,
            seq!["money"@, "price"@, "invoice"@, "total"@, "refund"@, "discount"@],
        ),
        domain_of_text(text) == AssertionDomain::Parsing ==> has_any(
            text,
            seq!["parse"@, "format"@, "normalize"@, "trim"@],
        ),
        domain_of_text(text) == AssertionDomain::Serialization ==> has_any(
            text,
            seq!["json"@, "serial"@, "marshal"@, "deserialize"@],
        ),
        domain_of_text(text) == AssertionDomain::ErrorHandling ==> has_any(
            text,
            seq!["error"@, "err"@, "none"@, "nil"@, "null"@],
        ),
        domain_of_text(text) == AssertionDomain::Boundary ==> has_any(
            text,
            seq!["boundary"@, "comparison"@, "<"@, ">"@, "zero"@],
        ),
        domain_of_text(text) == AssertionDomain::General <==> !has_any(
            text,
            seq![
                "auth"@,
                "permission"@,
                "token"@,
                "principal"@,
                "money"@,
                "price"@,
                "invoice"@,
                "total"@,
                "refund"@,
                "discount"@,
                "parse"@,
                "format"@,
                "normalize"@,
                "trim"@,
                "json"@,
                "serial"@,
                "marshal"@,
                "deserialize"@,
                "error"@,
                "err"@,
                "none"@,
                "nil"@,
                "null"@,
                "boundary"@,
                "comparison"@,
                "<"@,
                ">"@,
                "zero"@,
            ],
        ),
{
    let w0 = seq!["auth"@, "permission"@, "token"@, "principal"@];
    assert(w0[0] == "auth"@);
    assert(w0[1] == "permission"@);
    assert(w0[2] == "token"@);
    assert(w0[3] == "principal"@);
    let w1 = seq!["money"@, "price"@, "invoice"@, "total"@, "refund"@, "discount"@];
    assert(w1[0] == "money"@);
    assert(w1[1] == "price"@);
    assert(w1[2] == "invoice"@);
    assert(w1[3] == "total"@);
    assert(w1[4] == "refund"@);
    assert(w1[5] == "discount"@);
    let w2 = seq!["parse"@, "format"@, "normalize"@, "trim"@];
    assert(w2[0] == "parse"@);
    assert(w2[1] == "format"@);
    assert(w2[2] == "normalize"@);
    assert(w2[3] == "trim"@);
    let w3 = seq!["json"@, "serial"@, "marshal"@, "deserialize"@];
    assert(w3[0] == "json"@);
    assert(w3[1] == "serial"@);
    assert(w3[2] == "marshal"@);
    assert(w3[3] == "deserialize"@);
    let w4 = seq!["error"@, "err"@, "none"@, "nil"@, "null"@];
    assert(w4[0] == "error"@);
    assert(w4[1] == "err"@);
    assert(w4[2] == "none"@);
    assert(w4[3] == "nil"@);
    assert(w4[4] == "null"@);
    let w5 = seq!["boundary"@, "comparison"@, "<"@, ">"@, "zero"@];
    assert(w5[0] == "boundary"@);
    assert(w5[1] == "comparison"@);
    assert(w5[2] == "<"@);
    assert(w5[3] == ">"@);
    assert(w5[4] == "zero"@);
    let all = seq![
        "auth"@,
        "permission"@,
        "token"@,
        "principal"@,
        "money"@,
        "price"@,
        "invoice"@,
        "total"@,
        "refund"@,
        "discount"@,
        "parse"@,
        "format"@,
        "normalize"@,
        "trim"@,
        "json"@,
        "serial"@,
        "marshal"@,
        "deserialize"@,
        "error"@,
        "err"@,
        "none"@,
        "nil"@,
        "null"@,
        "boundary"@,
        "comparison"@,
        "<"@,
        ">"@,
        "zero"@,
    ];
    assert(all[0] == "auth"@);
    assert(all[1] == "permission"@);
    assert(all[2] == "token"@);
    assert(all[3] == "principal"@);
    assert(all[4] == "money"@);
    assert(all[5] == "price"@);
    assert(all[6] == "invoice"@);
    assert(all[7] == "total"@);
    assert(all[8] == "refund"@);
    assert(all[9] == "discount"@);
    assert(all[10] == "parse"@);
    assert(all[11] == "format"@);
    assert(all[12] == "normalize"@);
    assert(all[13] == "trim"@);
    assert(all[14] == "json"@);
    assert(all[15] == "serial"@);
    assert(all[16] == "marshal"@);
    assert(all[17] == "deserialize"@);
    assert(all[18] == "error"@);
    assert(all[19] == "err"@);
    assert(all[20] == "none"@);
    assert(all[21] == "nil"@);
    assert(all[22] == "null"@);
    assert(all[23] == "boundary"@);
    assert(all[24] == "comparison"@);
    assert(all[25] == "<"@);
    assert(all[26] == ">"@);
    assert(all[27] == "zero"@);
}

proof fn lemma_larger_texts_have_words(text: Seq<char>, more: Seq<char>, word: Seq<char>)
    requires
        has_text(text, word),
    ensures
        has_text(text + more, word),
        has_text(more + text, word),
{
    let i = choose|i: int| occurs_at(text, word, i);
    let after = text + more;
    let before = more + text;
    assert(after.subrange(i, i + word.len()) =~= text.subrange(i, i + word.len()));
    assert(before.subrange(more.len() + i, more.len() + i + word.len()) =~= text.subrange(
        i,
        i + word.len(),
    ));
    assert(occurs_at(after, word, i));
    assert(occurs_at(before, word, more.len() + i));
}

/// More text around a finding about permissions does not hide them, whatever else it is about.
pub proof fn law_permissions_are_not_hidden(text: Seq<char>, more: Seq<char>)
    requires
        domain_of_text(text) == AssertionDomain::AuthPermission,
    ensures
        domain_of_text(text + more) == AssertionDomain::AuthPermission,
        domain_of_text(more + text) == AssertionDomain::AuthPermission,
{
    if has_text(text, "auth"@) {
        lemma_larger_texts_have_words(text, more, "auth"@);
    }
    if has_text(text, "permission"@) {
        lemma_larger_texts_have_words(text, more, "permission"@);
    }
    if has_text(text, "token"@) {
        lemma_larger_texts_have_words(text, more, "token"@);
    }
    if has_text(text, "principal"@) {
        lemma_larger_texts_have_words(text, more, "principal"@);
    }
}

/// A surviving mutant is known by its message, whatever the command was; a fuzzed input by its
/// message or command; a failed test by its message; and a replay by its message.
pub proof fn law_sources_are_named_by_messages(message: Seq<char>, command: Seq<char>)
    ensures
        has_text(message, "mutation survived"@) <==> source_of(message, command)
            == AssertionSource::MutationSurvivor,
        source_of(message, command) == AssertionSource::FuzzRepro ==> has_text(message, "fuzz"@)
            || has_text(command, "-fuzz="@),
        (has_text(message, "fuzz"@) || has_text(command, "-fuzz="@)) && !has_text(
            message,
            "mutation survived"@,
        ) ==> source_of(message, command) == AssertionSource::FuzzRepro,
        source_of(message, command) == AssertionSource::GeneratedTestFailure ==> has_text(
            message,
            "cargo test failed"@,
        ) || has_text(message, "go test failed"@),
        source_of(message, command) == AssertionSource::CoverageGap ==> !has_text(message, "replay"@)
            && !has_text(message, "differential"@) && !has_text(message, "go test failed"@)
            && !has_text(message, "cargo test failed"@),
{
}

/// One more finding is one more assertion candidate exactly where its message speaks of a
/// surviving mutant, of fuzzing, of a failing input, of a failed test or of replay drift, and
/// one more corpus entry exactly where it can be replayed with an input or a file.
pub proof fn law_findings_become_candidates(
    language: Seq<char>,
    items: Seq<FailureModel>,
    finding: FailureModel,
)
    ensures
        candidates_of_findings(language, items.push(finding)).len() == candidates_of_findings(
            language,
            items,
        ).len() + (if has_text(finding.message, "mutation survived"@) || has_text(
            finding.message,
            "fuzz"@,
        ) || has_text(finding.message, "minimal failing input"@) || has_text(
            finding.message,
            "cargo test failed"@,
        ) || has_text(finding.message, "go test failed"@) || has_text(
            finding.message,
            "behavioral replay drift"@,
        ) {
            1int
        } else {
            0
        }),
        entries_for(language, items.push(finding)).len() == entries_for(language, items).len() + (
        if finding.repro matches Some(repro) && (repro.path is Some || finding_input(finding)
            is Some) {
            1int
        } else {
            0
        }),
{
    assert(items.push(finding).drop_last() =~= items);
}

} // verus!
