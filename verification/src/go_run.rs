//! Test runs of Go: tests, fuzzing, trying changes, and coverage.
use vstd::prelude::*;

use crate::api::{
    append_command_records, append_coverage_files, append_failures, clone_command_records,
    clone_failures, push_command_record, push_coverage_file, push_failure, ArtifactKind,
    CommandRecord, CommandRecordModel, CoverageFile, CoverageFileModel, CoverageReport,
    CoverageReportModel, Failure, FailureModel, FailureSeverity, GeneratedArtifact,
    GeneratedArtifactModel, ReproCase, ReproCaseModel, RunStatus, TestRunResult,
    TestRunResultModel,
};
use crate::attribution::{
    attribute, attribution, entries_fit, label_total, law_shares_are_rounded_down, share,
    tally_fits,
};
use crate::config::GoPluginConfig;
use crate::findings::{command_line, command_words};
use crate::go_fuzz::{ident_of, safe_ident};
use crate::go_mutation::{MutationCandidate, MutationCandidateModel};
use crate::go_packages::{relative_path, relative_to, tagged_args, with_tags};
use crate::go_plugin::{function_target_id, function_target_id_text};
use crate::go_records::{
    files_of_mutant, make_trial_record, mutant_files, status_of, timed_out, trial_outcome,
    trial_outcome_of, trial_record, MutantFile, MutationTimeout, MutationTimeoutModel,
};
use crate::metrics::{
    no_quality, push_attribution_entry, push_mutation_record, AttributionEntry,
    AttributionEntryModel, FuzzMetrics, MutationAttribution, MutationMetricsModel, MutationRecord,
    MutationRecordModel, MutationStatus, VerificationQuality, VerificationQualityModel,
};
use crate::number::{decimal, print_u64, print_usize};
use crate::pathmap::{put_texts, texts_put, PathTexts, PathTextsModel};
use crate::paths::path_behind;
use crate::seqs::{cat2, cat3, lemma_take_all, lemma_take_next};
use crate::split::{
    at_most_last, join, joined, last_texts, lines, lines_of, push_text, split_whitespace, trim,
    trimmed, words_of,
};
use crate::text::{
    chars_of, clone_texts, contains, cut_at, find, find_index, has_text, is_space,
    lemma_find_is_first, owned, same, space, split_once, starts, starts_with, strip_prefix,
    strip_suffix, text_between, without_suffix,
};
use crate::paths::strip_prefix as strip_path_prefix;

verus! {

// ---------------------------------------------------------------------------
// Commands
// ---------------------------------------------------------------------------
/// The last thirty lines of a text.
pub open spec fn tail_of(value: Seq<char>) -> Seq<char> {
    joined(at_most_last(lines_of(value), 30), "\n"@)
}

/// The last thirty lines of a text.
pub fn excerpt(value: &str) -> (r: String)
    ensures
        r@ == tail_of(value@),
{
    join(&last_texts(&lines(value), 30), "\n")
}

/// The record of something that was not run.
pub open spec fn skipped(
    root: Seq<char>,
    label: Seq<char>,
    reason: Seq<char>,
) -> CommandRecordModel {
    CommandRecordModel {
        program: "veritas"@,
        args: seq!["skip"@, label],
        cwd: root,
        exit_code: None,
        status: RunStatus::Skipped,
        stdout: Seq::empty(),
        stderr: reason,
        duration_ms: 0,
    }
}

/// The record of something that was not run.
pub fn skipped_command(root: &str, label: &str, reason: &str) -> (r: CommandRecord)
    ensures
        r.deep_view() == skipped(root@, label@, reason@),
{
    let mut args: Vec<String> = Vec::new();
    push_text(&mut args, owned("skip"));
    push_text(&mut args, owned(label));
    assert(args.deep_view() =~= seq!["skip"@, label@]);
    let none = String::new();
    assert(none@ =~= Seq::<char>::empty());
    CommandRecord {
        program: owned("veritas"),
        args,
        cwd: owned(root),
        exit_code: None,
        status: RunStatus::Skipped,
        stdout: none,
        stderr: owned(reason),
        duration_ms: 0,
    }
}

/// What is noted of a command that took too long.
pub open spec fn timeout_note_text(
    stderr: Seq<char>,
    seconds: int,
    line: Seq<char>,
) -> Seq<char> {
    let t = stderr;
    let t = if stderr.len() > 0 {
        let t = t + "\n"@;
        t
    } else {
        t
    };
    let t = t + "command timed out after "@ + decimal(seconds) + "s: "@ + line;
    t
}

/// What is noted of a command that took too long.
pub fn timeout_note(stderr: &str, seconds: u64, line: &str) -> (r: String)
    ensures
        r@ == timeout_note_text(stderr@, seconds as int, line@),
{
    let mut out = owned(stderr);
    if stderr.unicode_len() > 0 {
        out.append("\n");
    }
    out.append("command timed out after ");
    out.append(print_u64(seconds).as_str());
    out.append("s: ");
    out.append(line);
    out
}

/// The seconds that a command may take: at least one.
pub fn command_seconds(timeout_seconds: u64) -> (r: u64)
    ensures
        r == if timeout_seconds < 1 {
            1
        } else {
            timeout_seconds
        },
{
    if timeout_seconds < 1 {
        1
    } else {
        timeout_seconds
    }
}

/// Whether some command failed.
pub open spec fn some_failed(items: Seq<CommandRecordModel>) -> bool {
    exists|k: int| 0 <= k < items.len() && (#[trigger] items[k]).status == RunStatus::Failed
}

/// Whether some command failed.
pub fn any_failed(items: &Vec<CommandRecord>) -> (r: bool)
    ensures
        r == some_failed(items.deep_view()),
{
    let ghost all = items.deep_view();
    let mut i: usize = 0;
    while i < items.len()
        invariant
            i <= items@.len(),
            all == items.deep_view(),
            forall|k: int| 0 <= k < i ==> !((#[trigger] all[k]).status == RunStatus::Failed),
        decreases items@.len() - i,
    {
        assert(all[i as int] == items@[i as int].deep_view());
        if items[i].status == RunStatus::Failed {
            return true;
        }
        i = i + 1;
    }
    false
}

/// How many commands failed.
pub open spec fn failed_count(items: Seq<CommandRecordModel>) -> int
    decreases items.len(),
{
    if items.len() == 0 {
        0
    } else {
        failed_count(items.drop_last()) + if items.last().status == RunStatus::Failed {
            1int
        } else {
            0int
        }
    }
}

fn count_failed(items: &Vec<CommandRecord>) -> (r: usize)
    ensures
        r == failed_count(items.deep_view()),
        r <= items@.len(),
{
    let ghost all = items.deep_view();
    let mut n: usize = 0;
    let mut i: usize = 0;
    while i < items.len()
        invariant
            i <= items@.len(),
            n <= i,
            all == items.deep_view(),
            n == failed_count(all.take(i as int)),
        decreases items@.len() - i,
    {
        proof {
            lemma_take_next(all, i as int);
        }
        if items[i].status == RunStatus::Failed {
            n = n + 1;
        }
        i = i + 1;
    }
    proof {
        lemma_take_all(all);
    }
    n
}

/// How many commands were run.
pub open spec fn run_count(items: Seq<CommandRecordModel>) -> int
    decreases items.len(),
{
    if items.len() == 0 {
        0
    } else {
        run_count(items.drop_last()) + if items.last().status != RunStatus::Skipped {
            1int
        } else {
            0int
        }
    }
}

fn count_run(items: &Vec<CommandRecord>) -> (r: usize)
    ensures
        r == run_count(items.deep_view()),
        r <= items@.len(),
{
    let ghost all = items.deep_view();
    let mut n: usize = 0;
    let mut i: usize = 0;
    while i < items.len()
        invariant
            i <= items@.len(),
            n <= i,
            all == items.deep_view(),
            n == run_count(all.take(i as int)),
        decreases items@.len() - i,
    {
        proof {
            lemma_take_next(all, i as int);
        }
        if items[i].status != RunStatus::Skipped {
            n = n + 1;
        }
        i = i + 1;
    }
    proof {
        lemma_take_all(all);
    }
    n
}

// ---------------------------------------------------------------------------
// Failures of commands
// ---------------------------------------------------------------------------
/// Whether a character ends the name of a file in an output.
pub open spec fn ends_name(c: char) -> bool {
    is_space(c) || c == '\'' || c == '"' || c == '`'
}

/// How many characters of a text, from one on, come before the end of a name.
pub open spec fn name_end_from(s: Seq<char>, from: int) -> int
    decreases s.len() - from,
{
    if from < 0 || from >= s.len() || ends_name(s[from]) {
        from
    } else {
        name_end_from(s, from + 1)
    }
}

/// Whether a character stands around a name and is none of it.
pub open spec fn around_name(c: char) -> bool {
    c == ':' || c == ',' || c == '.'
}

/// A name without what stands around it.
pub open spec fn bare_name(s: Seq<char>) -> Seq<char>
    decreases s.len(),
{
    if s.len() == 0 {
        s
    } else if around_name(s[0]) {
        bare_name(s.skip(1))
    } else if around_name(s.last()) {
        bare_name(s.drop_last())
    } else {
        s
    }
}

/// The input that a line of an output says the fuzzer wrote.
pub open spec fn repro_in_line(line: Seq<char>) -> Option<Seq<char>> {
    match find(line, "testdata/fuzz/"@) {
        Some(start) => {
            let name = bare_name(line.subrange(start, name_end_from(line, start)));
            if name.len() == 0 {
                None
            } else {
                Some(name)
            }
        },
        None => None,
    }
}

proof fn lemma_name_end(s: Seq<char>, from: int)
    requires
        0 <= from <= s.len(),
    ensures
        from <= name_end_from(s, from) <= s.len(),
    decreases s.len() - from,
{
    if from < s.len() && !ends_name(s[from]) {
        lemma_name_end(s, from + 1);
    }
}

fn read_bare_name(chars: &Vec<char>, from: usize, to: usize) -> (r: String)
    requires
        from <= to <= chars@.len(),
    ensures
        r@ == bare_name(chars@.subrange(from as int, to as int)),
{
    let ghost goal = bare_name(chars@.subrange(from as int, to as int));
    let mut a: usize = from;
    let mut b: usize = to;
    while a < b && (chars[a] == ':' || chars[a] == ',' || chars[a] == '.')
        invariant
            a <= b <= chars@.len(),
            goal == bare_name(chars@.subrange(a as int, b as int)),
        decreases b - a,
    {
        proof {
            let s = chars@.subrange(a as int, b as int);
            assert(s.skip(1) =~= chars@.subrange(a + 1, b as int));
        }
        a = a + 1;
    }
    while a < b && (chars[b - 1] == ':' || chars[b - 1] == ',' || chars[b - 1] == '.')
        invariant
            a <= b <= chars@.len(),
            a < b ==> !around_name(chars@[a as int]),
            goal == bare_name(chars@.subrange(a as int, b as int)),
        decreases b - a,
    {
        proof {
            let s = chars@.subrange(a as int, b as int);
            assert(s.drop_last() =~= chars@.subrange(a as int, b - 1));
        }
        b = b - 1;
    }
    proof {
        let s = chars@.subrange(a as int, b as int);
        if a < b {
            assert(s[0] == chars@[a as int]);
            assert(s.last() == chars@[b - 1]);
        }
    }
    text_between(chars, a, b)
}

fn read_repro_in_line(line: &str) -> (r: Option<String>)
    ensures
        r.deep_view() == repro_in_line(line@),
{
    let chars = chars_of(line);
    proof {
        lemma_find_is_first(line@, "testdata/fuzz/"@, 0);
    }
    match find_index(&chars, &chars_of("testdata/fuzz/"), 0) {
        Some(start) => {
            let mut end: usize = start;
            while end < chars.len() && !(space(chars[end]) || chars[end] == '\'' || chars[end] == '"'
                || chars[end] == '`')
                invariant
                    start <= end <= chars@.len(),
                    name_end_from(chars@, start as int) == name_end_from(chars@, end as int),
                decreases chars@.len() - end,
            {
                end = end + 1;
            }
            let name = read_bare_name(&chars, start, end);
            if name.as_str().unicode_len() == 0 {
                None
            } else {
                Some(name)
            }
        },
        None => None,
    }
}

/// The input that the lines of an output, from one on, say the fuzzer wrote.
pub open spec fn repro_from(all: Seq<Seq<char>>, from: int) -> Option<Seq<char>>
    decreases all.len() - from,
{
    if from < 0 || from >= all.len() {
        None
    } else {
        match repro_in_line(all[from]) {
            Some(path) => Some(path),
            None => repro_from(all, from + 1),
        }
    }
}

/// The input that an output says the fuzzer wrote.
pub open spec fn repro_in(output: Seq<char>) -> Option<Seq<char>> {
    repro_from(lines_of(output), 0)
}

/// The input that an output says the fuzzer wrote.
pub fn parse_go_fuzz_repro_path(output: &str) -> (r: Option<String>)
    ensures
        r.deep_view() == repro_in(output@),
{
    let all = lines(output);
    let mut i: usize = 0;
    while i < all.len()
        invariant
            i <= all@.len(),
            all.deep_view() == lines_of(output@),
            repro_in(output@) == repro_from(all.deep_view(), i as int),
        decreases all@.len() - i,
    {
        assert(all.deep_view()[i as int] == all@[i as int]@);
        if let Some(path) = read_repro_in_line(all[i].as_str()) {
            return Some(path);
        }
        i = i + 1;
    }
    None
}

/// The first argument, from one on, that names a fuzz target.
pub open spec fn fuzz_argument_from(items: Seq<Seq<char>>, from: int) -> Option<int>
    decreases items.len() - from,
{
    if from < 0 || from >= items.len() {
        None
    } else if starts(items[from], "-fuzz=^"@) {
        Some(from)
    } else {
        fuzz_argument_from(items, from + 1)
    }
}

fn fuzz_argument(items: &Vec<String>) -> (r: Option<usize>)
    ensures
        r matches Some(i) ==> i < items@.len() && fuzz_argument_from(items.deep_view(), 0) == Some(
            i as int,
        ),
        r is None ==> fuzz_argument_from(items.deep_view(), 0) is None,
{
    let ghost all = items.deep_view();
    let mut i: usize = 0;
    while i < items.len()
        invariant
            i <= items@.len(),
            all == items.deep_view(),
            fuzz_argument_from(all, 0) == fuzz_argument_from(all, i as int),
        decreases items@.len() - i,
    {
        assert(all[i as int] == items@[i as int].deep_view());
        if starts_with(items[i].as_str(), "-fuzz=^") {
            return Some(i);
        }
        i = i + 1;
    }
    None
}

/// The fuzz target that arguments name.
pub open spec fn fuzz_target_in(args: Seq<Seq<char>>) -> Option<Seq<char>> {
    match fuzz_argument_from(args, 0) {
        Some(i) => without_suffix(args[i].skip("-fuzz=^"@.len() as int), "$"@),
        None => None,
    }
}

fn read_fuzz_target(args: &Vec<String>) -> (r: Option<String>)
    ensures
        r.deep_view() == fuzz_target_in(args.deep_view()),
{
    match fuzz_argument(args) {
        Some(i) => {
            proof {
                lemma_fuzz_argument(args.deep_view(), 0);
            }
            assert(args.deep_view()[i as int] == args@[i as int]@);
            match strip_prefix(args[i].as_str(), "-fuzz=^") {
                Some(rest) => strip_suffix(rest.as_str(), "$"),
                None => None,
            }
        },
        None => None,
    }
}

proof fn lemma_fuzz_argument(args: Seq<Seq<char>>, from: int)
    requires
        0 <= from,
    ensures
        fuzz_argument_from(args, from) matches Some(i) ==> from <= i < args.len() && starts(
            args[i],
            "-fuzz=^"@,
        ),
    decreases args.len() - from,
{
    if from < args.len() && !starts(args[from], "-fuzz=^"@) {
        lemma_fuzz_argument(args, from + 1);
    }
}

/// What is said of a command that failed.
pub open spec fn failure_message(command: CommandRecordModel) -> Seq<char> {
    match fuzz_target_in(command.args) {
        Some(name) => "go fuzz target `"@ + name + "` failed"@,
        None => if has_text(command.stderr, "timed out after"@) {
            "go command timed out"@
        } else {
            "go test failed"@
        },
    }
}

/// The target and the artifact of a failure: those of the first artifact.
pub open spec fn first_target(artifacts: Seq<GeneratedArtifactModel>) -> Option<Seq<char>> {
    if artifacts.len() == 0 {
        None
    } else {
        Some(artifacts[0].target_id)
    }
}

/// The first artifact, where there is one.
pub open spec fn first_artifact(artifacts: Seq<GeneratedArtifactModel>) -> Option<Seq<char>> {
    if artifacts.len() == 0 {
        None
    } else {
        Some(artifacts[0].id)
    }
}

/// The finding of a command that failed.
pub open spec fn command_failure(
    command: CommandRecordModel,
    artifacts: Seq<GeneratedArtifactModel>,
) -> FailureModel {
    let line = command_words(command.program, command.args);
    let path = repro_in(command.stdout + "\n"@ + command.stderr);
    FailureModel {
        id: None,
        message: failure_message(command),
        severity: if fuzz_target_in(command.args) is Some {
            FailureSeverity::Critical
        } else {
            FailureSeverity::Error
        },
        target_id: first_target(artifacts),
        artifact_id: first_artifact(artifacts),
        command: line,
        stdout_excerpt: tail_of(command.stdout),
        stderr_excerpt: tail_of(command.stderr),
        repro: Some(
            ReproCaseModel {
                command: line,
                input: match path {
                    Some(known) => Some(
                        "promote corpus entry `"@ + known + "` into a regression test"@,
                    ),
                    None => None,
                },
                path,
            },
        ),
    }
}

fn message_of_failure(command: &CommandRecord) -> (r: (String, FailureSeverity))
    ensures
        r.0@ == failure_message(command.deep_view()),
        r.1 == if fuzz_target_in(command.deep_view().args) is Some {
            FailureSeverity::Critical
        } else {
            FailureSeverity::Error
        },
{
    match read_fuzz_target(&command.args) {
        Some(name) => (
            cat3("go fuzz target `", name.as_str(), "` failed"),
            FailureSeverity::Critical,
        ),
        None => {
            if contains(command.stderr.as_str(), "timed out after") {
                (owned("go command timed out"), FailureSeverity::Error)
            } else {
                (owned("go test failed"), FailureSeverity::Error)
            }
        },
    }
}

/// The finding of a command that failed.
pub fn go_command_failure(
    command: &CommandRecord,
    artifacts: &Vec<GeneratedArtifact>,
) -> (r: Failure)
    ensures
        r.deep_view() == command_failure(command.deep_view(), artifacts.deep_view()),
{
    let (message, severity) = message_of_failure(command);
    let output = cat3(command.stdout.as_str(), "\n", command.stderr.as_str());
    let path = parse_go_fuzz_repro_path(output.as_str());
    let input = match &path {
        Some(known) => Some(
            cat3("promote corpus entry `", known.as_str(), "` into a regression test"),
        ),
        None => None,
    };
    let mut target_id: Option<String> = None;
    let mut artifact_id: Option<String> = None;
    assert(artifacts@.len() == artifacts.deep_view().len());
    if artifacts.len() > 0 {
        assert(artifacts.deep_view()[0] == artifacts@[0].deep_view());
        target_id = Some(owned(artifacts[0].target_id.as_str()));
        artifact_id = Some(owned(artifacts[0].id.as_str()));
    }
    Failure {
        id: None,
        message,
        severity,
        target_id,
        artifact_id,
        command: command_line(command.program.as_str(), &command.args),
        stdout_excerpt: excerpt(command.stdout.as_str()),
        stderr_excerpt: excerpt(command.stderr.as_str()),
        repro: Some(
            ReproCase {
                command: command_line(command.program.as_str(), &command.args),
                input,
                path,
            },
        ),
    }
}

fn failure_if(command: &CommandRecord, artifacts: &Vec<GeneratedArtifact>) -> (r: Option<Failure>)
    ensures
        r.deep_view() == if command.deep_view().status == RunStatus::Failed {
            Some(command_failure(command.deep_view(), artifacts.deep_view()))
        } else {
            None
        },
{
    if command.status == RunStatus::Failed {
        Some(go_command_failure(command, artifacts))
    } else {
        None
    }
}

/// The findings of the commands that failed.
pub open spec fn failures_of_commands(
    artifacts: Seq<GeneratedArtifactModel>,
    items: Seq<CommandRecordModel>,
) -> Seq<FailureModel>
    decreases items.len(),
{
    if items.len() == 0 {
        Seq::empty()
    } else {
        let before = failures_of_commands(artifacts, items.drop_last());
        match if items.last().status == RunStatus::Failed { Some(command_failure(items.last(), artifacts)) } else { None } {
            Some(one) => before.push(one),
            None => before,
        }
    }
}

fn command_failures(
    artifacts: &Vec<GeneratedArtifact>,
    items: &Vec<CommandRecord>,
) -> (r: Vec<Failure>)
    ensures
        r.deep_view() == failures_of_commands(artifacts.deep_view(), items.deep_view()),
{
    let mut out: Vec<Failure> = Vec::new();
    let ghost all = items.deep_view();
    let mut i: usize = 0;
    assert(out.deep_view() == failures_of_commands(artifacts.deep_view(), all.take(0)));
    while i < items.len()
        invariant
            i <= items@.len(),
            all == items.deep_view(),
            out.deep_view() == failures_of_commands(artifacts.deep_view(), all.take(i as int)),
        decreases items@.len() - i,
    {
        proof {
            lemma_take_next(all, i as int);
        }
        match failure_if(&items[i], artifacts) {
            Some(one) => {
                push_failure(&mut out, one);
            },
            None => {},
        }
        i = i + 1;
    }
    proof {
        lemma_take_all(all);
    }
    out
}

// ---------------------------------------------------------------------------
// Trying changes
// ---------------------------------------------------------------------------
/// The domain that a label names.
pub open spec fn domain_in(label: Seq<char>) -> Seq<char> {
    if has_text(label, "auth/permission"@) {
        "auth/permission"@
    } else if has_text(label, "money"@) {
        "money"@
    } else if has_text(label, "parsing/normalization"@) {
        "parsing/normalization"@
    } else if has_text(label, "serialization"@) {
        "serialization"@
    } else if has_text(label, "error handling"@) {
        "error handling"@
    } else if has_text(label, "boundary"@) {
        "boundary"@
    } else {
        "general"@
    }
}

/// The domain that a label names.
pub fn mutation_domain_from_label(label: &str) -> (r: &'static str)
    ensures
        r@ == domain_in(label@),
{
    if contains(label, "auth/permission") {
        "auth/permission"
    } else if contains(label, "money") {
        "money"
    } else if contains(label, "parsing/normalization") {
        "parsing/normalization"
    } else if contains(label, "serialization") {
        "serialization"
    } else if contains(label, "error handling") {
        "error handling"
    } else if contains(label, "boundary") {
        "boundary"
    } else {
        "general"
    }
}

/// The operator that a label names.
pub open spec fn operator_in_label(label: Seq<char>) -> Seq<char> {
    if has_text(label, "comparison"@) {
        "comparison"@
    } else if has_text(label, "equality"@) {
        "equality"@
    } else if has_text(label, "boolean"@) {
        "boolean"@
    } else if has_text(label, "arithmetic"@) {
        "arithmetic"@
    } else if has_text(label, "bitwise"@) {
        "bitwise"@
    } else if has_text(label, "assignment"@) {
        "assignment"@
    } else if has_text(label, "increment"@) {
        "increment"@
    } else if has_text(label, "loop"@) {
        "loop"@
    } else if has_text(label, "literal"@) {
        "literal"@
    } else if has_text(label, "negation"@) {
        "negation"@
    } else if has_text(label, "default"@) {
        "default"@
    } else if has_text(label, "nil"@) {
        "nil"@
    } else if has_text(label, "error"@) {
        "error"@
    } else if has_text(label, "boundary"@) {
        "boundary"@
    } else {
        "general"@
    }
}

/// The operator that a label names.
pub fn mutation_operator_from_label(label: &str) -> (r: &'static str)
    ensures
        r@ == operator_in_label(label@),
{
    if contains(label, "comparison") {
        "comparison"
    } else if contains(label, "equality") {
        "equality"
    } else if contains(label, "boolean") {
        "boolean"
    } else if contains(label, "arithmetic") {
        "arithmetic"
    } else if contains(label, "bitwise") {
        "bitwise"
    } else if contains(label, "assignment") {
        "assignment"
    } else if contains(label, "increment") {
        "increment"
    } else if contains(label, "loop") {
        "loop"
    } else if contains(label, "literal") {
        "literal"
    } else if contains(label, "negation") {
        "negation"
    } else if contains(label, "default") {
        "default"
    } else if contains(label, "nil") {
        "nil"
    } else if contains(label, "error") {
        "error"
    } else if contains(label, "boundary") {
        "boundary"
    } else {
        "general"
    }
}

/// What came of a change.
#[derive(Debug, Clone, Copy, PartialEq, Eq, Structural)]
pub enum TrialOutcome {
    Killed,
    Survived,
    TimedOut,
    OutOfBudget,
}

impl TrialOutcome {
    /// Whether the change was tried.
    pub open spec fn tried(self) -> bool {
        self != TrialOutcome::OutOfBudget
    }

    /// The counts of one change.
    pub open spec fn counts(self) -> MutationAttribution {
        MutationAttribution {
            generated: 1,
            runnable: 0,
            executed: if self.tried() {
                1
            } else {
                0
            },
            killed: if self == TrialOutcome::Killed {
                1
            } else {
                0
            },
            survived: if self == TrialOutcome::Survived {
                1
            } else {
                0
            },
            not_covered: 0,
            timed_out: if self == TrialOutcome::TimedOut {
                1
            } else {
                0
            },
            not_viable: 0,
            skipped: 0,
        }
    }

    fn count(self) -> (r: MutationAttribution)
        ensures
            r == self.counts(),
    {
        let mut counts = MutationAttribution::default();
        counts.generated = 1;
        if self == TrialOutcome::Killed {
            counts.executed = 1;
            counts.killed = 1;
        }
        if self == TrialOutcome::Survived {
            counts.executed = 1;
            counts.survived = 1;
        }
        if self == TrialOutcome::TimedOut {
            counts.executed = 1;
            counts.timed_out = 1;
        }
        counts
    }
}

/// A change that was taken up.
#[derive(Debug, PartialEq, Eq)]
pub struct Trial {
    pub label: String,
    pub outcome: TrialOutcome,
}

/// The mathematical value of a `Trial`.
pub struct TrialModel {
    pub label: Seq<char>,
    pub outcome: TrialOutcome,
}

impl DeepView for Trial {
    type V = TrialModel;

    open spec fn deep_view(&self) -> TrialModel {
        TrialModel {
            label: self.label@,
            outcome: self.outcome,
        }
    }
}

impl Clone for Trial {
    fn clone(&self) -> (r: Self)
        ensures
            r.deep_view() == self.deep_view(),
    {
        Trial {
            label: self.label.clone(),
            outcome: self.outcome,
        }
    }
}

/// Puts an item at the end of the list.
pub fn push_trial(items: &mut Vec<Trial>, item: Trial)
    ensures
        final(items).deep_view() == old(items).deep_view().push(item.deep_view()),
        final(items)@.len() == old(items)@.len() + 1,
{
    let ghost before = items.deep_view();
    items.push(item);
    assert(items.deep_view() == before.push(item.deep_view()));
}

/// An entry for the counts of a change under its domain.
pub open spec fn domain_entry(trial: TrialModel) -> AttributionEntryModel {
    AttributionEntryModel { label: domain_in(trial.label), counts: trial.outcome.counts() }
}

fn make_domain_entry(trial: &Trial) -> (r: AttributionEntry)
    ensures
        r.deep_view() == domain_entry(trial.deep_view()),
{
    AttributionEntry {
        label: owned(mutation_domain_from_label(trial.label.as_str())),
        counts: trial.outcome.count(),
    }
}

/// An entry for the counts of a change under its operator.
pub open spec fn operator_entry(trial: TrialModel) -> AttributionEntryModel {
    AttributionEntryModel { label: operator_in_label(trial.label), counts: trial.outcome.counts() }
}

fn make_operator_entry(trial: &Trial) -> (r: AttributionEntry)
    ensures
        r.deep_view() == operator_entry(trial.deep_view()),
{
    AttributionEntry {
        label: owned(mutation_operator_from_label(trial.label.as_str())),
        counts: trial.outcome.count(),
    }
}

/// Entries for the counts of changes under their domains.
pub open spec fn domain_entries_of(items: Seq<TrialModel>) -> Seq<AttributionEntryModel>
    decreases items.len(),
{
    if items.len() == 0 {
        Seq::empty()
    } else {
        domain_entries_of(items.drop_last()).push(domain_entry(items.last()))
    }
}

fn domain_entries(items: &Vec<Trial>) -> (r: Vec<AttributionEntry>)
    ensures
        r.deep_view() == domain_entries_of(items.deep_view()),
{
    let mut out: Vec<AttributionEntry> = Vec::new();
    let ghost all = items.deep_view();
    let mut i: usize = 0;
    assert(out.deep_view() == domain_entries_of(all.take(0)));
    while i < items.len()
        invariant
            i <= items@.len(),
            all == items.deep_view(),
            out.deep_view() == domain_entries_of(all.take(i as int)),
        decreases items@.len() - i,
    {
        proof {
            lemma_take_next(all, i as int);
        }
        push_attribution_entry(&mut out, make_domain_entry(&items[i]));
        i = i + 1;
    }
    proof {
        lemma_take_all(all);
    }
    out
}

/// Entries for the counts of changes under their operators.
pub open spec fn operator_entries_of(items: Seq<TrialModel>) -> Seq<AttributionEntryModel>
    decreases items.len(),
{
    if items.len() == 0 {
        Seq::empty()
    } else {
        operator_entries_of(items.drop_last()).push(operator_entry(items.last()))
    }
}

fn operator_entries(items: &Vec<Trial>) -> (r: Vec<AttributionEntry>)
    ensures
        r.deep_view() == operator_entries_of(items.deep_view()),
{
    let mut out: Vec<AttributionEntry> = Vec::new();
    let ghost all = items.deep_view();
    let mut i: usize = 0;
    assert(out.deep_view() == operator_entries_of(all.take(0)));
    while i < items.len()
        invariant
            i <= items@.len(),
            all == items.deep_view(),
            out.deep_view() == operator_entries_of(all.take(i as int)),
        decreases items@.len() - i,
    {
        proof {
            lemma_take_next(all, i as int);
        }
        push_attribution_entry(&mut out, make_operator_entry(&items[i]));
        i = i + 1;
    }
    proof {
        lemma_take_all(all);
    }
    out
}

/// An entry with the changes that were not tried counted as skipped.
pub open spec fn with_skips(entry: AttributionEntryModel) -> AttributionEntryModel {
    AttributionEntryModel {
        label: entry.label,
        counts: MutationAttribution {
            skipped: if entry.counts.generated >= entry.counts.executed {
                (entry.counts.generated - entry.counts.executed) as usize
            } else {
                0
            },
            ..entry.counts
        },
    }
}

fn add_skips(entry: &AttributionEntry) -> (r: AttributionEntry)
    ensures
        r.deep_view() == with_skips(entry.deep_view()),
{
    let mut changed = entry.clone();
    changed.counts.skipped = if entry.counts.generated >= entry.counts.executed {
        entry.counts.generated - entry.counts.executed
    } else {
        0
    };
    changed
}

/// Entries with the changes that were not tried counted as skipped.
pub open spec fn all_with_skips(items: Seq<AttributionEntryModel>) -> Seq<AttributionEntryModel>
    decreases items.len(),
{
    if items.len() == 0 {
        Seq::empty()
    } else {
        all_with_skips(items.drop_last()).push(with_skips(items.last()))
    }
}

fn finalize_mutation_skips(items: &Vec<AttributionEntry>) -> (r: Vec<AttributionEntry>)
    ensures
        r.deep_view() == all_with_skips(items.deep_view()),
{
    let mut out: Vec<AttributionEntry> = Vec::new();
    let ghost all = items.deep_view();
    let mut i: usize = 0;
    assert(out.deep_view() == all_with_skips(all.take(0)));
    while i < items.len()
        invariant
            i <= items@.len(),
            all == items.deep_view(),
            out.deep_view() == all_with_skips(all.take(i as int)),
        decreases items@.len() - i,
    {
        proof {
            lemma_take_next(all, i as int);
        }
        push_attribution_entry(&mut out, add_skips(&items[i]));
        i = i + 1;
    }
    proof {
        lemma_take_all(all);
    }
    out
}

/// Whether the counts of entries are those of single changes.
pub open spec fn single(entries: Seq<AttributionEntryModel>) -> bool {
    forall|i: int|
        0 <= i < entries.len() ==> (#[trigger] entries[i]).counts == TrialOutcome::Killed.counts()
            || entries[i].counts == TrialOutcome::Survived.counts() || entries[i].counts
            == TrialOutcome::TimedOut.counts() || entries[i].counts
            == TrialOutcome::OutOfBudget.counts()
}

proof fn lemma_single_total(entries: Seq<AttributionEntryModel>, label: Seq<char>)
    requires
        single(entries),
    ensures
        ({
            let t = label_total(entries, label);
            &&& 0 <= t.generated <= entries.len()
            &&& 0 <= t.executed <= t.generated
            &&& 0 <= t.killed
            &&& 0 <= t.survived
            &&& 0 <= t.timed_out
            &&& t.killed + t.survived + t.timed_out == t.executed
            &&& t.runnable == 0
            &&& t.not_covered == 0
            &&& t.not_viable == 0
            &&& t.skipped == 0
        }),
    decreases entries.len(),
{
    if entries.len() > 0 {
        let rest = entries.drop_last();
        assert(single(rest)) by {
            assert forall|i: int| 0 <= i < rest.len() implies (#[trigger] rest[i]).counts
                == TrialOutcome::Killed.counts() || rest[i].counts
                == TrialOutcome::Survived.counts() || rest[i].counts
                == TrialOutcome::TimedOut.counts() || rest[i].counts
                == TrialOutcome::OutOfBudget.counts() by {
                assert(rest[i] == entries[i]);
            }
        }
        lemma_single_total(rest, label);
        assert(entries[entries.len() - 1] == entries.last());
    }
}

proof fn lemma_single_fits(entries: Seq<AttributionEntryModel>)
    requires
        single(entries),
        entries.len() <= usize::MAX,
    ensures
        entries_fit(entries),
{
    assert forall|label: Seq<char>| tally_fits(#[trigger] label_total(entries, label)) by {
        lemma_single_total(entries, label);
    }
}

proof fn lemma_domain_entries(trials: Seq<TrialModel>)
    ensures
        single(domain_entries_of(trials)),
        domain_entries_of(trials).len() == trials.len(),
    decreases trials.len(),
{
    if trials.len() > 0 {
        lemma_domain_entries(trials.drop_last());
    }
}

proof fn lemma_operator_entries(trials: Seq<TrialModel>)
    ensures
        single(operator_entries_of(trials)),
        operator_entries_of(trials).len() == trials.len(),
    decreases trials.len(),
{
    if trials.len() > 0 {
        lemma_operator_entries(trials.drop_last());
    }
}

/// How many changes a test noticed.
pub open spec fn killed_count(items: Seq<TrialModel>) -> int
    decreases items.len(),
{
    if items.len() == 0 {
        0
    } else {
        killed_count(items.drop_last()) + if items.last().outcome == TrialOutcome::Killed {
            1int
        } else {
            0int
        }
    }
}

fn count_killed(items: &Vec<Trial>) -> (r: usize)
    ensures
        r == killed_count(items.deep_view()),
        r <= items@.len(),
{
    let ghost all = items.deep_view();
    let mut n: usize = 0;
    let mut i: usize = 0;
    while i < items.len()
        invariant
            i <= items@.len(),
            n <= i,
            all == items.deep_view(),
            n == killed_count(all.take(i as int)),
        decreases items@.len() - i,
    {
        proof {
            lemma_take_next(all, i as int);
        }
        if items[i].outcome == TrialOutcome::Killed {
            n = n + 1;
        }
        i = i + 1;
    }
    proof {
        lemma_take_all(all);
    }
    n
}

/// How many changes no test noticed.
pub open spec fn survived_count(items: Seq<TrialModel>) -> int
    decreases items.len(),
{
    if items.len() == 0 {
        0
    } else {
        survived_count(items.drop_last()) + if items.last().outcome == TrialOutcome::Survived {
            1int
        } else {
            0int
        }
    }
}

fn count_survived(items: &Vec<Trial>) -> (r: usize)
    ensures
        r == survived_count(items.deep_view()),
        r <= items@.len(),
{
    let ghost all = items.deep_view();
    let mut n: usize = 0;
    let mut i: usize = 0;
    while i < items.len()
        invariant
            i <= items@.len(),
            n <= i,
            all == items.deep_view(),
            n == survived_count(all.take(i as int)),
        decreases items@.len() - i,
    {
        proof {
            lemma_take_next(all, i as int);
        }
        if items[i].outcome == TrialOutcome::Survived {
            n = n + 1;
        }
        i = i + 1;
    }
    proof {
        lemma_take_all(all);
    }
    n
}

/// How many changes ran out of time.
pub open spec fn timed_out_count(items: Seq<TrialModel>) -> int
    decreases items.len(),
{
    if items.len() == 0 {
        0
    } else {
        timed_out_count(items.drop_last()) + if items.last().outcome == TrialOutcome::TimedOut {
            1int
        } else {
            0int
        }
    }
}

fn count_timed_out(items: &Vec<Trial>) -> (r: usize)
    ensures
        r == timed_out_count(items.deep_view()),
        r <= items@.len(),
{
    let ghost all = items.deep_view();
    let mut n: usize = 0;
    let mut i: usize = 0;
    while i < items.len()
        invariant
            i <= items@.len(),
            n <= i,
            all == items.deep_view(),
            n == timed_out_count(all.take(i as int)),
        decreases items@.len() - i,
    {
        proof {
            lemma_take_next(all, i as int);
        }
        if items[i].outcome == TrialOutcome::TimedOut {
            n = n + 1;
        }
        i = i + 1;
    }
    proof {
        lemma_take_all(all);
    }
    n
}

/// How many changes were tried.
pub open spec fn tried_count(items: Seq<TrialModel>) -> int
    decreases items.len(),
{
    if items.len() == 0 {
        0
    } else {
        tried_count(items.drop_last()) + if items.last().outcome.tried() {
            1int
        } else {
            0int
        }
    }
}

fn count_tried(items: &Vec<Trial>) -> (r: usize)
    ensures
        r == tried_count(items.deep_view()),
        r <= items@.len(),
{
    let ghost all = items.deep_view();
    let mut n: usize = 0;
    let mut i: usize = 0;
    while i < items.len()
        invariant
            i <= items@.len(),
            n <= i,
            all == items.deep_view(),
            n == tried_count(all.take(i as int)),
        decreases items@.len() - i,
    {
        proof {
            lemma_take_next(all, i as int);
        }
        if items[i].outcome != TrialOutcome::OutOfBudget {
            n = n + 1;
        }
        i = i + 1;
    }
    proof {
        lemma_take_all(all);
    }
    n
}

/// Trying changes of a project, one after the other.
pub struct MutationRun {
    pub generated: usize,
    pub timeout: MutationTimeout,
    pub trials: Vec<Trial>,
    pub records: Vec<MutationRecord>,
    pub commands: Vec<CommandRecord>,
    pub failures: Vec<Failure>,
}

/// The mathematical value of a `MutationRun`.
pub struct MutationRunModel {
    pub generated: usize,
    pub timeout: MutationTimeoutModel,
    pub trials: Seq<TrialModel>,
    pub records: Seq<MutationRecordModel>,
    pub commands: Seq<CommandRecordModel>,
    pub failures: Seq<FailureModel>,
}

impl DeepView for MutationRun {
    type V = MutationRunModel;

    open spec fn deep_view(&self) -> MutationRunModel {
        MutationRunModel {
            generated: self.generated,
            timeout: self.timeout.deep_view(),
            trials: self.trials.deep_view(),
            records: self.records.deep_view(),
            commands: self.commands.deep_view(),
            failures: self.failures.deep_view(),
        }
    }
}

/// What the output of a command is followed by where no test noticed a change.
pub open spec fn survivor_hint_text(
    stdout: Seq<char>,
    candidate: MutationCandidateModel,
) -> Seq<char> {
    let t = tail_of(stdout);
    let t = if tail_of(stdout).len() > 0 {
        let t = t + "\n"@;
        t
    } else {
        t
    };
    let t = t
        + "Suggested assertion: cover `"@
        + candidate.function
        + "` so replacing `"@
        + candidate.from
        + "` with `"@
        + candidate.to
        + "` fails."@;
    t
}

/// What the output of a command is followed by where no test noticed a change.
pub fn survivor_hint(stdout: &str, candidate: &MutationCandidate) -> (r: String)
    ensures
        r@ == survivor_hint_text(stdout@, candidate.deep_view()),
{
    let mut out = owned(excerpt(stdout).as_str());
    if excerpt(stdout).as_str().unicode_len() > 0 {
        out.append("\n");
    }
    out.append("Suggested assertion: cover `");
    out.append(candidate.function.as_str());
    out.append("` so replacing `");
    out.append(candidate.from.as_str());
    out.append("` with `");
    out.append(candidate.to.as_str());
    out.append("` fails.");
    out
}

/// What is said of a change that no test noticed.
pub open spec fn survivor_message_text(candidate: MutationCandidateModel) -> Seq<char> {
    let t = "mutation survived in Go function `"@
        + candidate.function
        + "`: "@
        + candidate.label;
    t
}

fn survivor_message(candidate: &MutationCandidate) -> (r: String)
    ensures
        r@ == survivor_message_text(candidate.deep_view()),
{
    let mut out = owned("mutation survived in Go function `");
    out.append(candidate.function.as_str());
    out.append("`: ");
    out.append(candidate.label.as_str());
    out
}

/// How a change that no test noticed is made again.
pub open spec fn survivor_repro_text(
    candidate: MutationCandidateModel,
    package_args: Seq<Seq<char>>,
) -> Seq<char> {
    let t = "replace `"@
        + candidate.from
        + "` with `"@
        + candidate.to
        + "` in "@
        + candidate.path
        + " and run go test "@
        + joined(package_args, " "@);
    t
}

fn survivor_repro(candidate: &MutationCandidate, package_args: &Vec<String>) -> (r: String)
    ensures
        r@ == survivor_repro_text(candidate.deep_view(), package_args.deep_view()),
{
    let mut out = owned("replace `");
    out.append(candidate.from.as_str());
    out.append("` with `");
    out.append(candidate.to.as_str());
    out.append("` in ");
    out.append(candidate.path.as_str());
    out.append(" and run go test ");
    out.append(join(package_args, " ").as_str());
    out
}

/// The first artifact, from one on, that is a mutation check.
pub open spec fn mutation_check_from(items: Seq<GeneratedArtifactModel>, from: int) -> Option<int>
    decreases items.len() - from,
{
    if from < 0 || from >= items.len() {
        None
    } else if items[from].kind == ArtifactKind::MutationCheck {
        Some(from)
    } else {
        mutation_check_from(items, from + 1)
    }
}

fn mutation_check(items: &Vec<GeneratedArtifact>) -> (r: Option<usize>)
    ensures
        r matches Some(i) ==> i < items@.len() && mutation_check_from(items.deep_view(), 0) == Some(
            i as int,
        ),
        r is None ==> mutation_check_from(items.deep_view(), 0) is None,
{
    let ghost all = items.deep_view();
    let mut i: usize = 0;
    while i < items.len()
        invariant
            i <= items@.len(),
            all == items.deep_view(),
            mutation_check_from(all, 0) == mutation_check_from(all, i as int),
        decreases items@.len() - i,
    {
        assert(all[i as int] == items@[i as int].deep_view());
        if items[i].kind == ArtifactKind::MutationCheck {
            return Some(i);
        }
        i = i + 1;
    }
    None
}

/// The id of the first mutation check.
pub open spec fn mutation_check_id(artifacts: Seq<GeneratedArtifactModel>) -> Option<Seq<char>> {
    match mutation_check_from(artifacts, 0) {
        Some(i) => Some(artifacts[i].id),
        None => None,
    }
}

fn find_mutation_check(artifacts: &Vec<GeneratedArtifact>) -> (r: Option<String>)
    ensures
        r.deep_view() == mutation_check_id(artifacts.deep_view()),
{
    match mutation_check(artifacts) {
        Some(i) => {
            assert(artifacts.deep_view()[i as int] == artifacts@[i as int].deep_view());
            Some(owned(artifacts[i].id.as_str()))
        },
        None => None,
    }
}

/// The finding of a change that no test noticed, with the command that stands for those
/// that ran.
pub open spec fn survivor(
    artifacts: Seq<GeneratedArtifactModel>,
    package_args: Seq<Seq<char>>,
    candidate: MutationCandidateModel,
    command: CommandRecordModel,
) -> FailureModel {
    FailureModel {
        id: None,
        message: survivor_message_text(candidate),
        severity: FailureSeverity::Warning,
        target_id: Some(function_target_id_text(candidate.path, candidate.function)),
        artifact_id: mutation_check_id(artifacts),
        command: command_words(command.program, command.args),
        stdout_excerpt: survivor_hint_text(command.stdout, candidate),
        stderr_excerpt: tail_of(command.stderr),
        repro: Some(
            ReproCaseModel {
                command: survivor_repro_text(candidate, package_args),
                input: None,
                path: Some(candidate.path),
            },
        ),
    }
}

fn make_survivor(
    artifacts: &Vec<GeneratedArtifact>,
    package_args: &Vec<String>,
    candidate: &MutationCandidate,
    command: &CommandRecord,
) -> (r: Failure)
    ensures
        r.deep_view() == survivor(
            artifacts.deep_view(),
            package_args.deep_view(),
            candidate.deep_view(),
            command.deep_view(),
        ),
{
    Failure {
        id: None,
        message: survivor_message(candidate),
        severity: FailureSeverity::Warning,
        target_id: Some(
            function_target_id(candidate.path.as_str(), candidate.function.as_str()),
        ),
        artifact_id: find_mutation_check(artifacts),
        command: command_line(command.program.as_str(), &command.args),
        stdout_excerpt: survivor_hint(command.stdout.as_str(), candidate),
        stderr_excerpt: excerpt(command.stderr.as_str()),
        repro: Some(
            ReproCase {
                command: survivor_repro(candidate, package_args),
                input: None,
                path: Some(owned(candidate.path.as_str())),
            },
        ),
    }
}

/// The command that stands for those that ran for a change: the first, or a note that
/// there was none.
pub open spec fn representative(
    root: Seq<char>,
    commands: Seq<CommandRecordModel>,
) -> CommandRecordModel {
    if commands.len() == 0 {
        skipped(root, "go mutation checks"@, "no package commands were selected for mutant"@)
    } else {
        commands[0]
    }
}

/// What a run over changes does next: it is done, the budget ends it at a change, or it tries
/// a change.
#[derive(Debug, Clone, Copy, PartialEq, Eq, Structural)]
pub enum MutationStep {
    Done,
    EndOfBudget(usize),
    Try(usize),
}

impl MutationRunModel {
    /// Whether the budget ended the run.
    pub open spec fn out_of_budget(self) -> bool {
        self.trials.len() > 0 && self.trials.last().outcome == TrialOutcome::OutOfBudget
    }

    /// What the run does next: it takes up the changes in order, no more than the limit, until
    /// the budget ends it.
    pub open spec fn next_step(self, max_mutants: usize, nearly_spent: bool) -> MutationStep {
        if self.out_of_budget() || self.trials.len() >= self.generated || self.trials.len()
            >= max_mutants {
            MutationStep::Done
        } else if nearly_spent {
            MutationStep::EndOfBudget(self.trials.len() as usize)
        } else {
            MutationStep::Try(self.trials.len() as usize)
        }
    }

    /// The run after a change was tried.
    pub open spec fn after_trial(
        self,
        root: Seq<char>,
        artifacts: Seq<GeneratedArtifactModel>,
        package_args: Seq<Seq<char>>,
        candidate: MutationCandidateModel,
        commands: Seq<CommandRecordModel>,
    ) -> MutationRunModel {
        let outcome = trial_outcome_of(commands, self.timeout.seconds);
        MutationRunModel {
            trials: self.trials.push(TrialModel { label: candidate.label, outcome }),
            records: self.records.push(
                trial_record(
                    self.trials.len() as int,
                    package_args,
                    candidate,
                    outcome,
                    self.timeout.seconds,
                    commands,
                ),
            ),
            commands: self.commands + commands,
            failures: if outcome == TrialOutcome::Survived {
                self.failures.push(
                    survivor(artifacts, package_args, candidate, representative(root, commands)),
                )
            } else {
                self.failures
            },
            ..self
        }
    }

    /// The run after the budget ended it at a change.
    pub open spec fn after_budget(
        self,
        root: Seq<char>,
        package_args: Seq<Seq<char>>,
        candidate: MutationCandidateModel,
    ) -> MutationRunModel {
        MutationRunModel {
            trials: self.trials.push(
                TrialModel { label: candidate.label, outcome: TrialOutcome::OutOfBudget },
            ),
            records: self.records.push(
                trial_record(
                    self.trials.len() as int,
                    package_args,
                    candidate,
                    TrialOutcome::OutOfBudget,
                    self.timeout.seconds,
                    Seq::empty(),
                ),
            ),
            commands: self.commands.push(
                skipped(
                    root,
                    "go mutation checks"@,
                    "global budget nearly exhausted before remaining mutants"@,
                ),
            ),
            ..self
        }
    }

    /// Whether each survivor has its finding and nothing else has one, and each change that
    /// was taken up has its record, with the status that says what came of it.
    pub open spec fn consistent(self) -> bool {
        &&& self.failures.len() == survived_count(self.trials)
        &&& self.records.len() == self.trials.len()
        &&& forall|i: int|
            0 <= i < self.records.len() ==> (#[trigger] self.records[i]).status == status_of(
                self.trials[i].outcome,
            )
    }

    /// How far the run has come.
    pub open spec fn live_progress_text(self) -> Seq<char> {
        let t = "# go mutation campaign in progress\n\n- Generated: `"@
            + decimal(self.generated as int)
            + "`\n- Executed: `"@
            + decimal(tried_count(self.trials))
            + "`\n- Killed: `"@
            + decimal(killed_count(self.trials))
            + "`\n- Survived: `"@
            + decimal(survived_count(self.trials))
            + "`\n- Timed out: `"@
            + decimal(timed_out_count(self.trials))
            + "`\n"@;
        t
    }

    /// What was measured.
    pub open spec fn quality(self) -> VerificationQualityModel {
        let executed = tried_count(self.trials);
        VerificationQualityModel {
            mutation: MutationMetricsModel {
                generated: self.generated,
                executed: executed as usize,
                killed: killed_count(self.trials) as usize,
                survived: survived_count(self.trials) as usize,
                timed_out: timed_out_count(self.trials) as usize,
                skipped: if self.generated >= executed {
                    (self.generated - executed) as usize
                } else {
                    0
                },
                score_percent: share(killed_count(self.trials), executed),
                records: self.records,
                baseline_duration_ms: Some(self.timeout.baseline_duration_ms),
                computed_timeout_seconds: Some(self.timeout.seconds),
                timeout_source: Some(self.timeout.source),
                by_domain: all_with_skips(attribution(domain_entries_of(self.trials))),
                by_operator: all_with_skips(attribution(operator_entries_of(self.trials))),
                ..no_quality().mutation
            },
            ..no_quality()
        }
    }

    /// The result of the run.
    pub open spec fn result(self, duration_ms: u128) -> TestRunResultModel {
        TestRunResultModel {
            language: "go"@,
            status: if survived_count(self.trials) > 0 {
                RunStatus::Failed
            } else {
                RunStatus::Passed
            },
            commands: self.commands,
            failures: self.failures,
            duration_ms,
            quality: self.quality(),
        }
    }
}

/// The share of a part, however many there are.
fn share_of(part: usize, whole: usize) -> (r: Option<u8>)
    ensures
        r == share(part as int, whole as int),
{
    if whole == 0 {
        return None;
    }
    let value: u128 = part as u128 * 100 / whole as u128;
    if value <= 255 {
        Some(value as u8)
    } else {
        Some(100)
    }
}

impl MutationRun {
    /// A run over so many changes, each of which may take so long.
    pub fn new(generated: usize, timeout: MutationTimeout) -> (r: Self)
        ensures
            r.deep_view() == (MutationRunModel {
                generated,
                timeout: timeout.deep_view(),
                trials: Seq::empty(),
                records: Seq::empty(),
                commands: Seq::empty(),
                failures: Seq::empty(),
            }),
    {
        let run = MutationRun {
            generated,
            timeout,
            trials: Vec::new(),
            records: Vec::new(),
            commands: Vec::new(),
            failures: Vec::new(),
        };
        assert(run.trials.deep_view() =~= Seq::<TrialModel>::empty());
        assert(run.records.deep_view() =~= Seq::<MutationRecordModel>::empty());
        assert(run.commands.deep_view() =~= Seq::<CommandRecordModel>::empty());
        assert(run.failures.deep_view() =~= Seq::<FailureModel>::empty());
        run
    }

    /// What the run does next.
    pub fn step(&self, max_mutants: usize, nearly_spent: bool) -> (r: MutationStep)
        ensures
            r == self.deep_view().next_step(max_mutants, nearly_spent),
    {
        let n: usize = self.trials.len();
        assert(self.trials@.len() == self.trials.deep_view().len());
        if n > 0 {
            assert(self.trials.deep_view().last() == self.trials@[n - 1].deep_view());
            if self.trials[n - 1].outcome == TrialOutcome::OutOfBudget {
                return MutationStep::Done;
            }
        }
        if n >= self.generated || n >= max_mutants {
            MutationStep::Done
        } else if nearly_spent {
            MutationStep::EndOfBudget(n)
        } else {
            MutationStep::Try(n)
        }
    }

    /// Notes what came of a change, and gives the files that are kept of it: it survived
    /// where no command failed, and it ran out of time where those that failed did.
    pub fn record_trial(
        &mut self,
        root: &str,
        artifacts: &Vec<GeneratedArtifact>,
        package_args: &Vec<String>,
        candidate: &MutationCandidate,
        commands: Vec<CommandRecord>,
    ) -> (r: Vec<MutantFile>)
        ensures
            final(self).deep_view() == old(self).deep_view().after_trial(
                root@,
                artifacts.deep_view(),
                package_args.deep_view(),
                candidate.deep_view(),
                commands.deep_view(),
            ),
            r.deep_view() == mutant_files(
                final(self).deep_view().records.last(),
                commands.deep_view(),
            ),
    {
        let seconds: u64 = self.timeout.seconds;
        let outcome = trial_outcome(&commands, seconds);
        assert(self.trials@.len() == self.trials.deep_view().len());
        let record = make_trial_record(
            self.trials.len(),
            package_args,
            candidate,
            outcome,
            seconds,
            &commands,
        );
        let files = files_of_mutant(&record, &commands);
        push_trial(&mut self.trials, Trial { label: owned(candidate.label.as_str()), outcome });
        push_mutation_record(&mut self.records, record);
        assert(commands@.len() == commands.deep_view().len());
        if outcome == TrialOutcome::Survived {
            let command = if commands.len() == 0 {
                skipped_command(
                    root,
                    "go mutation checks",
                    "no package commands were selected for mutant",
                )
            } else {
                assert(commands.deep_view()[0] == commands@[0].deep_view());
                commands[0].clone()
            };
            push_failure(
                &mut self.failures,
                make_survivor(artifacts, package_args, candidate, &command),
            );
        }
        let mut more = commands;
        append_command_records(&mut self.commands, &mut more);
        files
    }

    /// Notes that the budget ended the run at a change, and gives the files that are kept of
    /// it.
    pub fn record_budget_end(
        &mut self,
        root: &str,
        package_args: &Vec<String>,
        candidate: &MutationCandidate,
    ) -> (r: Vec<MutantFile>)
        ensures
            final(self).deep_view() == old(self).deep_view().after_budget(
                root@,
                package_args.deep_view(),
                candidate.deep_view(),
            ),
            r.deep_view() == mutant_files(
                final(self).deep_view().records.last(),
                Seq::empty(),
            ),
    {
        let none: Vec<CommandRecord> = Vec::new();
        assert(none.deep_view() =~= Seq::<CommandRecordModel>::empty());
        assert(self.trials@.len() == self.trials.deep_view().len());
        let record = make_trial_record(
            self.trials.len(),
            package_args,
            candidate,
            TrialOutcome::OutOfBudget,
            self.timeout.seconds,
            &none,
        );
        let files = files_of_mutant(&record, &none);
        push_trial(
            &mut self.trials,
            Trial {
                label: owned(candidate.label.as_str()),
                outcome: TrialOutcome::OutOfBudget,
            },
        );
        push_mutation_record(&mut self.records, record);
        push_command_record(
            &mut self.commands,
            skipped_command(
                root,
                "go mutation checks",
                "global budget nearly exhausted before remaining mutants",
            ),
        );
        files
    }

    /// How far the run has come.
    pub fn live_progress(&self) -> (r: String)
        ensures
            r@ == self.deep_view().live_progress_text(),
    {
        let mut out = owned("# go mutation campaign in progress\n\n- Generated: `");
        out.append(print_usize(self.generated).as_str());
        out.append("`\n- Executed: `");
        out.append(print_usize(count_tried(&self.trials)).as_str());
        out.append("`\n- Killed: `");
        out.append(print_usize(count_killed(&self.trials)).as_str());
        out.append("`\n- Survived: `");
        out.append(print_usize(count_survived(&self.trials)).as_str());
        out.append("`\n- Timed out: `");
        out.append(print_usize(count_timed_out(&self.trials)).as_str());
        out.append("`\n");
        out
    }

    /// The result of the run.
    pub fn finish(self, duration_ms: u128) -> (r: TestRunResult)
        ensures
            r.deep_view() == self.deep_view().result(duration_ms),
    {
        let n: usize = self.trials.len();
        assert(self.trials@.len() == self.trials.deep_view().len());
        let executed: usize = count_tried(&self.trials);
        let killed: usize = count_killed(&self.trials);
        let survived: usize = count_survived(&self.trials);
        let timed_out: usize = count_timed_out(&self.trials);
        let domains = domain_entries(&self.trials);
        let operators = operator_entries(&self.trials);
        proof {
            lemma_domain_entries(self.trials.deep_view());
            lemma_operator_entries(self.trials.deep_view());
            lemma_single_fits(domains.deep_view());
            lemma_single_fits(operators.deep_view());
        }
        let mut quality = VerificationQuality::default();
        quality.mutation.generated = self.generated;
        quality.mutation.executed = executed;
        quality.mutation.killed = killed;
        quality.mutation.survived = survived;
        quality.mutation.timed_out = timed_out;
        quality.mutation.records = self.records;
        quality.mutation.baseline_duration_ms = Some(self.timeout.baseline_duration_ms);
        quality.mutation.computed_timeout_seconds = Some(self.timeout.seconds);
        quality.mutation.timeout_source = Some(self.timeout.source);
        quality.mutation.skipped = if self.generated >= executed {
            self.generated - executed
        } else {
            0
        };
        quality.mutation.score_percent = share_of(killed, executed);
        quality.mutation.by_domain = finalize_mutation_skips(&attribute(&domains));
        quality.mutation.by_operator = finalize_mutation_skips(&attribute(&operators));
        TestRunResult {
            language: owned("go"),
            status: if survived > 0 {
                RunStatus::Failed
            } else {
                RunStatus::Passed
            },
            commands: self.commands,
            failures: self.failures,
            duration_ms,
            quality,
        }
    }
}

/// Every change that was tried was noticed, survived or ran out of time, and no other did.
pub proof fn law_tried_changes_are_killed_or_survive(trials: Seq<TrialModel>)
    ensures
        killed_count(trials) + survived_count(trials) + timed_out_count(trials) == tried_count(
            trials,
        ),
        0 <= killed_count(trials),
        0 <= survived_count(trials),
        0 <= timed_out_count(trials),
        tried_count(trials) <= trials.len(),
    decreases trials.len(),
{
    if trials.len() > 0 {
        law_tried_changes_are_killed_or_survive(trials.drop_last());
    }
}

/// While there is a change left, the limit is not reached and there is time, the next change is
/// tried; where the time is nearly over, the budget ends; and where no change is left or the
/// limit is reached, the run is done.
pub proof fn law_every_change_within_the_limits_is_tried(run: MutationRunModel, max_mutants: usize)
    requires
        run.trials.len() <= usize::MAX,
        forall|i: int|
            0 <= i < run.trials.len() ==> (#[trigger] run.trials[i]).outcome
                != TrialOutcome::OutOfBudget,
    ensures
        run.trials.len() < run.generated && run.trials.len() < max_mutants ==> run.next_step(
            max_mutants,
            false,
        ) == MutationStep::Try(run.trials.len() as usize) && run.next_step(max_mutants, true)
            == MutationStep::EndOfBudget(run.trials.len() as usize),
        run.trials.len() >= run.generated || run.trials.len() >= max_mutants ==> run.next_step(
            max_mutants,
            false,
        ) == MutationStep::Done && run.next_step(max_mutants, true) == MutationStep::Done,
{
    if run.trials.len() > 0 {
        assert(run.trials[run.trials.len() - 1].outcome != TrialOutcome::OutOfBudget);
    }
}

/// A run takes up each change once, in order, and no more than the limit; the end of the
/// budget is its end.
pub proof fn law_runs_stay_within_their_limits(
    run: MutationRunModel,
    root: Seq<char>,
    package_args: Seq<Seq<char>>,
    candidate: MutationCandidateModel,
    max_mutants: usize,
    nearly_spent: bool,
)
    requires
        run.trials.len() <= usize::MAX,
    ensures
        match run.next_step(max_mutants, nearly_spent) {
            MutationStep::Done => true,
            MutationStep::EndOfBudget(i) => i == run.trials.len() && i < max_mutants && i
                < run.generated && nearly_spent,
            MutationStep::Try(i) => i == run.trials.len() && i < max_mutants && i < run.generated
                && !nearly_spent,
        },
        run.after_budget(root, package_args, candidate).next_step(max_mutants, nearly_spent)
            == MutationStep::Done,
{
    let ended = run.after_budget(root, package_args, candidate);
    assert(ended.trials.last().outcome == TrialOutcome::OutOfBudget);
}

/// Each change that survived has a finding, and each change that was taken up has a record
/// with the status that says what came of it, whatever is tried and whenever the budget ends.
pub proof fn law_survivors_have_findings(
    run: MutationRunModel,
    root: Seq<char>,
    artifacts: Seq<GeneratedArtifactModel>,
    package_args: Seq<Seq<char>>,
    candidate: MutationCandidateModel,
    commands: Seq<CommandRecordModel>,
)
    requires
        run.consistent(),
    ensures
        run.after_trial(root, artifacts, package_args, candidate, commands).consistent(),
        run.after_budget(root, package_args, candidate).consistent(),
{
    let tried = run.after_trial(root, artifacts, package_args, candidate, commands);
    assert(tried.trials.drop_last() =~= run.trials);
    let ended = run.after_budget(root, package_args, candidate);
    assert(ended.trials.drop_last() =~= run.trials);
    assert forall|i: int| 0 <= i < tried.records.len() implies (
    #[trigger] tried.records[i]).status == status_of(tried.trials[i].outcome) by {
        if i < run.records.len() {
            assert(tried.records[i] == run.records[i]);
        }
    }
    assert forall|i: int| 0 <= i < ended.records.len() implies (
    #[trigger] ended.records[i]).status == status_of(ended.trials[i].outcome) by {
        if i < run.records.len() {
            assert(ended.records[i] == run.records[i]);
        }
    }
}

/// A change that runs out of time is counted once and recorded as such, is no finding, and
/// does not end the run.
pub proof fn law_timed_out_changes_are_counted(
    run: MutationRunModel,
    root: Seq<char>,
    artifacts: Seq<GeneratedArtifactModel>,
    package_args: Seq<Seq<char>>,
    candidate: MutationCandidateModel,
    commands: Seq<CommandRecordModel>,
    max_mutants: usize,
)
    requires
        run.trials.len() < usize::MAX,
        trial_outcome_of(commands, run.timeout.seconds) == TrialOutcome::TimedOut,
    ensures
        ({
            let after = run.after_trial(root, artifacts, package_args, candidate, commands);
            let before = run.quality().mutation;
            let counted = after.quality().mutation;
            &&& counted.timed_out == before.timed_out + 1
            &&& counted.executed == before.executed + 1
            &&& counted.killed == before.killed
            &&& counted.survived == before.survived
            &&& counted.records.len() == before.records.len() + 1
            &&& counted.records.last().status == MutationStatus::TimedOut
            &&& counted.records.last().skip_reason is Some
            &&& after.failures == run.failures
            &&& after.trials.len() < run.generated && after.trials.len() < max_mutants
                ==> after.next_step(max_mutants, false) == MutationStep::Try(
                after.trials.len() as usize,
            )
        }),
{
    let after = run.after_trial(root, artifacts, package_args, candidate, commands);
    assert(after.trials.drop_last() =~= run.trials);
    law_tried_changes_are_killed_or_survive(run.trials);
    law_tried_changes_are_killed_or_survive(after.trials);
}

/// A change that makes a test fail in time is killed: it is counted and recorded as killed and
/// is no finding. A change under which no test fails survived: it is counted and recorded as a
/// survivor, is a finding, and makes the run fail. Nothing else is counted.
pub proof fn law_failing_tests_kill_a_change(
    run: MutationRunModel,
    root: Seq<char>,
    artifacts: Seq<GeneratedArtifactModel>,
    package_args: Seq<Seq<char>>,
    candidate: MutationCandidateModel,
    commands: Seq<CommandRecordModel>,
    duration_ms: u128,
)
    requires
        run.trials.len() < usize::MAX,
    ensures
        ({
            let after = run.after_trial(root, artifacts, package_args, candidate, commands);
            let before = run.quality().mutation;
            let counted = after.quality().mutation;
            &&& counted.executed == before.executed + 1
            &&& counted.records.len() == before.records.len() + 1
            &&& counted.records.last().from == Some(candidate.from)
            &&& counted.records.last().to == Some(candidate.to)
            &&& counted.records.last().path == candidate.path
            &&& counted.records.last().symbol == candidate.function
            &&& (exists|k: int|
                0 <= k < commands.len() && (#[trigger] commands[k]).status == RunStatus::Failed
                    && !timed_out(commands[k], run.timeout.seconds)) ==> {
                &&& counted.killed == before.killed + 1
                &&& counted.survived == before.survived
                &&& counted.timed_out == before.timed_out
                &&& counted.records.last().status == MutationStatus::Killed
                &&& after.failures == run.failures
            }
            &&& (forall|k: int|
                0 <= k < commands.len() ==> (#[trigger] commands[k]).status != RunStatus::Failed)
                ==> {
                &&& counted.survived == before.survived + 1
                &&& counted.killed == before.killed
                &&& counted.timed_out == before.timed_out
                &&& counted.records.last().status == MutationStatus::Lived
                &&& after.failures.len() == run.failures.len() + 1
                &&& after.result(duration_ms).status == RunStatus::Failed
            }
        }),
{
    let after = run.after_trial(root, artifacts, package_args, candidate, commands);
    assert(after.trials.drop_last() =~= run.trials);
    law_tried_changes_are_killed_or_survive(run.trials);
    law_tried_changes_are_killed_or_survive(after.trials);
}

/// The share of killed changes is that of the changes that were tried, in whole percent, and a
/// run without a survivor passes.
pub proof fn law_runs_measure_what_was_killed(run: MutationRunModel, duration_ms: u128)
    requires
        run.trials.len() <= usize::MAX,
    ensures
        ({
            let m = run.quality().mutation;
            &&& m.generated == run.generated
            &&& m.executed > 0 ==> (m.score_percent matches Some(percent) && percent * m.executed
                <= m.killed * 100 && m.killed * 100 < (percent + 1) * m.executed)
            &&& m.executed == 0 ==> m.score_percent is None
            &&& m.survived == 0 <==> run.result(duration_ms).status == RunStatus::Passed
            &&& run.result(duration_ms).failures == run.failures
        }),
{
    law_tried_changes_are_killed_or_survive(run.trials);
    let killed = killed_count(run.trials);
    let executed = tried_count(run.trials);
    if executed > 0 {
        law_shares_are_rounded_down(killed, executed);
    }
}

// ---------------------------------------------------------------------------
// A test run
// ---------------------------------------------------------------------------
/// What came of fuzzing: it was skipped for want of time, or commands ran.
pub enum FuzzPhase {
    Skipped,
    Ran(Vec<CommandRecord>),
}

/// The mathematical value of a `FuzzPhase`.
pub enum FuzzPhaseModel {
    Skipped,
    Ran(Seq<CommandRecordModel>),
}

impl DeepView for FuzzPhase {
    type V = FuzzPhaseModel;

    open spec fn deep_view(&self) -> FuzzPhaseModel {
        match self {
            FuzzPhase::Skipped => FuzzPhaseModel::Skipped,
            FuzzPhase::Ran(commands) => FuzzPhaseModel::Ran(commands.deep_view()),
        }
    }
}

/// What came of trying changes: it was skipped for want of time, or it ran.
pub enum MutationPhase {
    Skipped,
    Ran(TestRunResult),
}

/// The mathematical value of a `MutationPhase`.
pub enum MutationPhaseModel {
    Skipped,
    Ran(TestRunResultModel),
}

impl DeepView for MutationPhase {
    type V = MutationPhaseModel;

    open spec fn deep_view(&self) -> MutationPhaseModel {
        match self {
            MutationPhase::Skipped => MutationPhaseModel::Skipped,
            MutationPhase::Ran(result) => MutationPhaseModel::Ran(result.deep_view()),
        }
    }
}

/// Whether changes are tried: the commands so far passed, and a mutation check asks for
/// it.
pub open spec fn wants_mutation(
    commands: Seq<CommandRecordModel>,
    artifacts: Seq<GeneratedArtifactModel>,
) -> bool {
    !some_failed(commands) && mutation_check_id(artifacts) is Some
}

/// Whether changes are tried.
pub fn should_run_mutation(
    commands: &Vec<CommandRecord>,
    artifacts: &Vec<GeneratedArtifact>,
) -> (r: bool)
    ensures
        r == wants_mutation(commands.deep_view(), artifacts.deep_view()),
{
    !any_failed(commands) && find_mutation_check(artifacts).is_some()
}

/// The commands of the tests and of fuzzing, which is taken up where the tests passed.
pub open spec fn commands_before_mutation(
    root: Seq<char>,
    tests: Seq<CommandRecordModel>,
    fuzz: FuzzPhaseModel,
) -> Seq<CommandRecordModel> {
    if some_failed(tests) {
        tests
    } else {
        match fuzz {
            FuzzPhaseModel::Skipped => tests.push(
                skipped(
                    root,
                    "go fuzz targets"@,
                    "global budget nearly exhausted before remaining fuzz targets"@,
                ),
            ),
            FuzzPhaseModel::Ran(commands) => tests + commands,
        }
    }
}

/// The commands of the tests and of fuzzing, which is taken up where the tests passed.
pub fn commands_so_far(root: &str, tests: &Vec<CommandRecord>, fuzz: &FuzzPhase) -> (r: Vec<
    CommandRecord,
>)
    ensures
        r.deep_view() == commands_before_mutation(root@, tests.deep_view(), fuzz.deep_view()),
{
    let mut commands = clone_command_records(tests);
    if !any_failed(tests) {
        match fuzz {
            FuzzPhase::Skipped => {
                push_command_record(
                    &mut commands,
                    skipped_command(
                        root,
                        "go fuzz targets",
                        "global budget nearly exhausted before remaining fuzz targets",
                    ),
                );
            },
            FuzzPhase::Ran(more) => {
                let mut tail = clone_command_records(more);
                append_command_records(&mut commands, &mut tail);
            },
        }
    }
    commands
}

/// What was measured of fuzzing.
pub open spec fn fuzz_quality(tests: Seq<CommandRecordModel>, fuzz: FuzzPhaseModel) -> FuzzMetrics {
    match fuzz {
        FuzzPhaseModel::Ran(commands) => if some_failed(tests) {
            no_quality().fuzz
        } else {
            FuzzMetrics {
                targets_executed: run_count(commands) as usize,
                failures: failed_count(commands) as usize,
                ..no_quality().fuzz
            }
        },
        FuzzPhaseModel::Skipped => no_quality().fuzz,
    }
}

/// The result of a test run: the tests, then fuzzing where they passed, then changes
/// where everything passed and a mutation check asks for them.
pub open spec fn test_run(
    root: Seq<char>,
    artifacts: Seq<GeneratedArtifactModel>,
    tests: Seq<CommandRecordModel>,
    fuzz: FuzzPhaseModel,
    mutation: MutationPhaseModel,
    duration_ms: u128,
) -> TestRunResultModel {
    let before = commands_before_mutation(root, tests, fuzz);
    let failures = failures_of_commands(artifacts, before);
    let first = TestRunResultModel {
        language: "go"@,
        status: if some_failed(before) {
            RunStatus::Failed
        } else {
            RunStatus::Passed
        },
        commands: before,
        failures,
        duration_ms,
        quality: VerificationQualityModel { fuzz: fuzz_quality(tests, fuzz), ..no_quality() },
    };
    if !wants_mutation(before, artifacts) {
        first
    } else {
        match mutation {
            MutationPhaseModel::Skipped => TestRunResultModel {
                commands: before.push(
                    skipped(
                        root,
                        "go mutation checks"@,
                        "global budget nearly exhausted after tests and fuzzing"@,
                    ),
                ),
                ..first
            },
            MutationPhaseModel::Ran(result) => TestRunResultModel {
                status: if result.status == RunStatus::Failed {
                    RunStatus::Failed
                } else {
                    first.status
                },
                commands: before + result.commands,
                failures: failures + result.failures,
                quality: VerificationQualityModel {
                    mutation: result.quality.mutation,
                    ..first.quality
                },
                ..first
            },
        }
    }
}

/// The result of a test run.
pub fn run_tests(
    root: &str,
    artifacts: &Vec<GeneratedArtifact>,
    tests: &Vec<CommandRecord>,
    fuzz: &FuzzPhase,
    mutation: &MutationPhase,
    duration_ms: u128,
) -> (r: TestRunResult)
    ensures
        r.deep_view() == test_run(
            root@,
            artifacts.deep_view(),
            tests.deep_view(),
            fuzz.deep_view(),
            mutation.deep_view(),
            duration_ms,
        ),
{
    let mut commands = commands_so_far(root, tests, fuzz);
    let mut failures = command_failures(artifacts, &commands);
    let mut quality = VerificationQuality::default();
    if let FuzzPhase::Ran(ran) = fuzz {
        if !any_failed(tests) {
            quality.fuzz.targets_executed = count_run(ran);
            quality.fuzz.failures = count_failed(ran);
        }
    }
    let mut status = if any_failed(&commands) {
        RunStatus::Failed
    } else {
        RunStatus::Passed
    };
    if should_run_mutation(&commands, artifacts) {
        match mutation {
            MutationPhase::Skipped => {
                push_command_record(
                    &mut commands,
                    skipped_command(
                        root,
                        "go mutation checks",
                        "global budget nearly exhausted after tests and fuzzing",
                    ),
                );
            },
            MutationPhase::Ran(result) => {
                if result.status == RunStatus::Failed {
                    status = RunStatus::Failed;
                }
                let mut more_failures = clone_failures(&result.failures);
                append_failures(&mut failures, &mut more_failures);
                let mut more = clone_command_records(&result.commands);
                append_command_records(&mut commands, &mut more);
                quality.mutation = result.quality.mutation.clone();
            },
        }
    }
    TestRunResult { language: owned("go"), status, commands, failures, duration_ms, quality }
}

/// Where a test failed, nothing is fuzzed and no change is tried: the result is the same
/// whatever came of these.
pub proof fn law_failed_tests_end_the_run(
    root: Seq<char>,
    artifacts: Seq<GeneratedArtifactModel>,
    tests: Seq<CommandRecordModel>,
    fuzz: FuzzPhaseModel,
    mutation: MutationPhaseModel,
    duration_ms: u128,
)
    requires
        some_failed(tests),
    ensures
        test_run(root, artifacts, tests, fuzz, mutation, duration_ms).status == RunStatus::Failed,
        test_run(root, artifacts, tests, fuzz, mutation, duration_ms).commands == tests,
        test_run(root, artifacts, tests, fuzz, mutation, duration_ms).quality == no_quality(),
{
}

// ---------------------------------------------------------------------------
// Coverage
// ---------------------------------------------------------------------------
/// The last line, before one, that speaks of coverage.
pub open spec fn coverage_line_before(all: Seq<Seq<char>>, n: int) -> Option<Seq<char>>
    decreases n,
{
    if n <= 0 || n > all.len() {
        None
    } else if has_text(all[n - 1], "coverage:"@) {
        Some(all[n - 1])
    } else {
        coverage_line_before(all, n - 1)
    }
}

/// What an output says of the coverage.
pub open spec fn coverage_summary(stdout: Seq<char>) -> Seq<char> {
    let all = lines_of(stdout);
    match coverage_line_before(all, all.len() as int) {
        Some(line) => trimmed(line),
        None => "coverage collected"@,
    }
}

/// What an output says of the coverage.
pub fn go_coverage_summary(stdout: &str) -> (r: String)
    ensures
        r@ == coverage_summary(stdout@),
{
    let all = lines(stdout);
    let ghost model = all.deep_view();
    let mut n: usize = all.len();
    assert(all@.len() == model.len());
    while n > 0
        invariant
            n <= all@.len(),
            model == all.deep_view(),
            model == lines_of(stdout@),
            coverage_line_before(model, model.len() as int) == coverage_line_before(model, n as int),
        decreases n,
    {
        assert(model[n - 1] == all@[n - 1]@);
        assert(all@.len() == model.len());
        if contains(all[n - 1].as_str(), "coverage:") {
            return trim(all[n - 1].as_str());
        }
        n = n - 1;
    }
    owned("coverage collected")
}

/// What a line of a profile says: a file, and a range of it that was not covered.
pub open spec fn uncovered_in(line: Seq<char>) -> Option<(Seq<char>, Seq<char>)> {
    match cut_at(line, ' ') {
        Some(sides) => {
            let fields = words_of(sides.1);
            if fields.len() < 2 || fields[1] != "0"@ {
                None
            } else {
                cut_at(sides.0, ':')
            }
        },
        None => None,
    }
}

fn read_uncovered(line: &str) -> (r: Option<(String, String)>)
    ensures
        r matches Some(pair) ==> uncovered_in(line@) == Some((pair.0@, pair.1@)),
        r is None ==> uncovered_in(line@) is None,
{
    match split_once(line, ' ') {
        Some(sides) => {
            let fields = split_whitespace(sides.1.as_str());
            assert(fields@.len() == fields.deep_view().len());
            if fields.len() < 2 {
                return None;
            }
            assert(fields.deep_view()[1] == fields@[1]@);
            if !same(fields[1].as_str(), "0") {
                return None;
            }
            split_once(sides.0.as_str(), ':')
        },
        None => None,
    }
}

/// The ranges that lines of a profile, from the second on and up to one, say were not
/// covered, by file.
pub open spec fn uncovered_before(root: Seq<char>, all: Seq<Seq<char>>, n: int) -> Seq<
    PathTextsModel,
>
    decreases n,
{
    if n <= 1 {
        Seq::empty()
    } else {
        let before = uncovered_before(root, all, n - 1);
        match uncovered_in(all[n - 1]) {
            Some(pair) => texts_put(
                before,
                relative_to(pair.0, path_behind(pair.0, root)),
                seq![pair.1],
                true,
            ),
            None => before,
        }
    }
}

fn collect_uncovered(root: &str, contents: &str) -> (r: Vec<PathTexts>)
    ensures
        r.deep_view() == uncovered_before(
            root@,
            lines_of(contents@),
            lines_of(contents@).len() as int,
        ),
{
    let all = lines(contents);
    let ghost model = all.deep_view();
    assert(all@.len() == model.len());
    let mut entries: Vec<PathTexts> = Vec::new();
    assert(entries.deep_view() =~= Seq::<PathTextsModel>::empty());
    if all.len() < 2 {
        return entries;
    }
    let mut i: usize = 1;
    while i < all.len()
        invariant
            1 <= i <= all@.len(),
            model == all.deep_view(),
            model == lines_of(contents@),
            entries.deep_view() == uncovered_before(root@, model, i as int),
        decreases all@.len() - i,
    {
        assert(model[i as int] == all@[i as int]@);
        if let Some(pair) = read_uncovered(all[i].as_str()) {
            let rest = strip_path_prefix(pair.0.as_str(), root);
            let path = relative_path(pair.0.as_str(), &rest);
            let mut one: Vec<String> = Vec::new();
            push_text(&mut one, owned(pair.1.as_str()));
            assert(one.deep_view() =~= seq![pair.1@]);
            put_texts(&mut entries, path.as_str(), &one, true);
        }
        i = i + 1;
    }
    assert(all@.len() == model.len());
    entries
}

/// A file of which ranges were not covered.
pub open spec fn coverage_file(entry: PathTextsModel) -> CoverageFileModel {
    CoverageFileModel {
        path: entry.path,
        line_coverage_percent: None,
        uncovered_ranges: entry.texts,
    }
}

fn make_coverage_file(entry: &PathTexts) -> (r: CoverageFile)
    ensures
        r.deep_view() == coverage_file(entry.deep_view()),
{
    CoverageFile {
        path: owned(entry.path.as_str()),
        line_coverage_percent: None,
        uncovered_ranges: clone_texts(&entry.texts),
    }
}

/// Files of which ranges were not covered.
pub open spec fn coverage_files_of(items: Seq<PathTextsModel>) -> Seq<CoverageFileModel>
    decreases items.len(),
{
    if items.len() == 0 {
        Seq::empty()
    } else {
        coverage_files_of(items.drop_last()).push(coverage_file(items.last()))
    }
}

fn coverage_files(items: &Vec<PathTexts>) -> (r: Vec<CoverageFile>)
    ensures
        r.deep_view() == coverage_files_of(items.deep_view()),
{
    let mut out: Vec<CoverageFile> = Vec::new();
    let ghost all = items.deep_view();
    let mut i: usize = 0;
    assert(out.deep_view() == coverage_files_of(all.take(0)));
    while i < items.len()
        invariant
            i <= items@.len(),
            all == items.deep_view(),
            out.deep_view() == coverage_files_of(all.take(i as int)),
        decreases items@.len() - i,
    {
        proof {
            lemma_take_next(all, i as int);
        }
        push_coverage_file(&mut out, make_coverage_file(&items[i]));
        i = i + 1;
    }
    proof {
        lemma_take_all(all);
    }
    out
}

/// The files of a profile, with the ranges that were not covered.
pub open spec fn profile_files(root: Seq<char>, contents: Seq<char>) -> Seq<CoverageFileModel> {
    coverage_files_of(uncovered_before(root, lines_of(contents), lines_of(contents).len() as int))
}

/// The files of a profile, with the ranges that were not covered.
pub fn parse_go_coverprofile(root: &str, contents: &str) -> (r: Vec<CoverageFile>)
    ensures
        r.deep_view() == profile_files(root@, contents@),
{
    coverage_files(&collect_uncovered(root, contents))
}

/// A run for the coverage of a module: the command, where it could be started, and the
/// profile that it wrote.
#[derive(Debug, PartialEq, Eq)]
pub struct CoverageRun {
    pub module_root: String,
    pub command: Option<CommandRecord>,
    pub profile: String,
}

/// The mathematical value of a `CoverageRun`.
pub struct CoverageRunModel {
    pub module_root: Seq<char>,
    pub command: Option<CommandRecordModel>,
    pub profile: Seq<char>,
}

impl DeepView for CoverageRun {
    type V = CoverageRunModel;

    open spec fn deep_view(&self) -> CoverageRunModel {
        CoverageRunModel {
            module_root: self.module_root@,
            command: self.command.deep_view(),
            profile: self.profile@,
        }
    }
}

impl Clone for CoverageRun {
    fn clone(&self) -> (r: Self)
        ensures
            r.deep_view() == self.deep_view(),
    {
        CoverageRun {
            module_root: self.module_root.clone(),
            command: match &self.command {
                Some(command) => Some(command.clone()),
                None => None,
            },
            profile: self.profile.clone(),
        }
    }
}

/// What is said of a run for the coverage of a module.
pub open spec fn run_summary(run: CoverageRunModel) -> Seq<char> {
    run.module_root + match run.command {
        Some(command) => if command.status == RunStatus::Failed {
            ": not collected: "@ + tail_of(command.stderr)
        } else {
            ": "@ + coverage_summary(command.stdout)
        },
        None => ": not collected: failed to run go test"@,
    }
}

fn summarize_run(run: &CoverageRun) -> (r: String)
    ensures
        r@ == run_summary(run.deep_view()),
{
    let rest = match &run.command {
        Some(command) => {
            if command.status == RunStatus::Failed {
                cat2(": not collected: ", excerpt(command.stderr.as_str()).as_str())
            } else {
                cat2(": ", go_coverage_summary(command.stdout.as_str()).as_str())
            }
        },
        None => owned(": not collected: failed to run go test"),
    };
    cat2(run.module_root.as_str(), rest.as_str())
}

/// The files of a run for the coverage of a module; none where it failed.
pub open spec fn run_files(root: Seq<char>, run: CoverageRunModel) -> Seq<CoverageFileModel> {
    match run.command {
        Some(command) => if command.status == RunStatus::Failed {
            Seq::empty()
        } else {
            profile_files(root, run.profile)
        },
        None => Seq::empty(),
    }
}

fn files_of_run(root: &str, run: &CoverageRun) -> (r: Vec<CoverageFile>)
    ensures
        r.deep_view() == run_files(root@, run.deep_view()),
{
    if let Some(command) = &run.command {
        if command.status != RunStatus::Failed {
            return parse_go_coverprofile(root, run.profile.as_str());
        }
    }
    let none: Vec<CoverageFile> = Vec::new();
    assert(none.deep_view() =~= Seq::<CoverageFileModel>::empty());
    none
}

/// What is said of runs for the coverage of modules.
pub open spec fn run_summaries_of(items: Seq<CoverageRunModel>) -> Seq<Seq<char>>
    decreases items.len(),
{
    if items.len() == 0 {
        Seq::empty()
    } else {
        run_summaries_of(items.drop_last()).push(run_summary(items.last()))
    }
}

fn run_summaries(items: &Vec<CoverageRun>) -> (r: Vec<String>)
    ensures
        r.deep_view() == run_summaries_of(items.deep_view()),
{
    let mut out: Vec<String> = Vec::new();
    let ghost all = items.deep_view();
    let mut i: usize = 0;
    assert(out.deep_view() == run_summaries_of(all.take(0)));
    while i < items.len()
        invariant
            i <= items@.len(),
            all == items.deep_view(),
            out.deep_view() == run_summaries_of(all.take(i as int)),
        decreases items@.len() - i,
    {
        proof {
            lemma_take_next(all, i as int);
        }
        push_text(&mut out, summarize_run(&items[i]));
        i = i + 1;
    }
    proof {
        lemma_take_all(all);
    }
    out
}

/// The files of runs, run by run.
pub open spec fn files_of_runs(
    root: Seq<char>,
    runs: Seq<CoverageRunModel>,
) -> Seq<CoverageFileModel>
    decreases runs.len(),
{
    if runs.len() == 0 {
        Seq::empty()
    } else {
        files_of_runs(root, runs.drop_last()) + run_files(root, runs.last())
    }
}

fn collect_files(root: &str, runs: &Vec<CoverageRun>) -> (r: Vec<CoverageFile>)
    ensures
        r.deep_view() == files_of_runs(root@, runs.deep_view()),
{
    let mut files: Vec<CoverageFile> = Vec::new();
    let ghost all = runs.deep_view();
    let mut i: usize = 0;
    assert(files.deep_view() =~= files_of_runs(root@, all.take(0)));
    while i < runs.len()
        invariant
            i <= runs@.len(),
            all == runs.deep_view(),
            files.deep_view() == files_of_runs(root@, all.take(i as int)),
        decreases runs@.len() - i,
    {
        proof {
            lemma_take_next(all, i as int);
        }
        let mut more = files_of_run(root, &runs[i]);
        append_coverage_files(&mut files, &mut more);
        i = i + 1;
    }
    proof {
        lemma_take_all(all);
    }
    files
}

/// The coverage of a project, from the runs for its modules.
pub open spec fn coverage_of(root: Seq<char>, runs: Seq<CoverageRunModel>) -> CoverageReportModel {
    CoverageReportModel {
        tool: "go test -coverprofile"@,
        summary: if runs.len() == 0 {
            "coverage collected"@
        } else {
            joined(run_summaries_of(runs), "; "@)
        },
        files: files_of_runs(root, runs),
    }
}

/// The coverage of a project, from the runs for its modules.
pub fn collect_coverage(root: &str, runs: &Vec<CoverageRun>) -> (r: CoverageReport)
    ensures
        r.deep_view() == coverage_of(root@, runs.deep_view()),
{
    assert(runs@.len() == runs.deep_view().len());
    let summary = if runs.len() == 0 {
        owned("coverage collected")
    } else {
        join(&run_summaries(runs), "; ")
    };
    CoverageReport {
        tool: owned("go test -coverprofile"),
        summary,
        files: collect_files(root, runs),
    }
}

/// What is reported where the coverage is switched off.
pub fn coverage_disabled() -> (r: CoverageReport)
    ensures
        r.deep_view() == (CoverageReportModel {
            tool: "go test -coverprofile"@,
            summary: "not collected: disabled by Go plugin config"@,
            files: Seq::empty(),
        }),
{
    let files: Vec<CoverageFile> = Vec::new();
    assert(files.deep_view() =~= Seq::<CoverageFileModel>::empty());
    CoverageReport {
        tool: owned("go test -coverprofile"),
        summary: owned("not collected: disabled by Go plugin config"),
        files,
    }
}

/// The name of the profile of a module.
pub open spec fn coverage_profile_name_text(module_root: Seq<char>) -> Seq<char> {
    let t = "go-cover-"@ + ident_of(module_root) + ".out"@;
    t
}

/// The name of the profile of a module.
pub fn coverage_profile_name(module_root: &str) -> (r: String)
    ensures
        r@ == coverage_profile_name_text(module_root@),
{
    let mut out = owned("go-cover-");
    out.append(safe_ident(module_root).as_str());
    out.append(".out");
    out
}

/// The arguments that run the tests of packages for their coverage.
pub fn go_cover_args(
    config: &GoPluginConfig,
    profile: &str,
    package_args: &Vec<String>,
) -> (r: Vec<String>)
    ensures
        r.deep_view() == with_tags(
            "test"@,
            config.deep_view().build_tags,
            seq!["-coverprofile="@ + profile@] + package_args.deep_view(),
        ),
{
    let mut rest: Vec<String> = Vec::new();
    push_text(&mut rest, cat2("-coverprofile=", profile));
    let ghost front = rest.deep_view();
    assert(front =~= seq!["-coverprofile="@ + profile@]);
    let mut more = clone_texts(package_args);
    rest.append(&mut more);
    assert(rest.deep_view() =~= front + package_args.deep_view());
    tagged_args("test", config, &rest)
}

} // verus!
