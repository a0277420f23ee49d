//! The records of the changes of Go sources that were tried: how long a change may take,
//! whether it ran out of time, and the files that are kept of it.
use vstd::prelude::*;

use crate::api::{CommandRecord, CommandRecordModel, LineRange, RunStatus};
use crate::config::GoPluginConfig;
use crate::documents::{mutation_record_document, mutation_record_json};
use crate::findings::{command_line, command_words};
use crate::generated::{slug, stable_slug};
use crate::go_mutation::{MutationCandidate, MutationCandidateModel};
use crate::go_run::{
    any_failed, domain_in, mutation_domain_from_label, mutation_operator_from_label,
    operator_in_label, some_failed, timeout_note, timeout_note_text, TrialOutcome,
};
use crate::json::{formatted, formatted_json};
use crate::metrics::{MutationRecord, MutationRecordModel, MutationStatus};
use crate::number::{decimal, print_u64, print_usize};
use crate::readback::lemma_decimal_reads;
use crate::seqs::{lemma_take_all, lemma_take_next};
use crate::split::{join, joined, push_text};
use crate::text::{ends, ends_with, is_digit, or_text, owned, same, text_or};

verus! {

// ---------------------------------------------------------------------------
// How long a change may take
// ---------------------------------------------------------------------------
/// How long commands took together.
pub open spec fn total_ms(items: Seq<CommandRecordModel>) -> int
    decreases items.len(),
{
    if items.len() == 0 {
        0
    } else {
        total_ms(items.drop_last()) + items.last().duration_ms
    }
}

/// How long commands took together, no more than a limit.
pub open spec fn capped_ms(items: Seq<CommandRecordModel>, most: int) -> int {
    if total_ms(items) > most {
        most
    } else {
        total_ms(items)
    }
}

/// How long commands took together, no more than a limit.
pub fn sum_ms(items: &Vec<CommandRecord>, most: u128) -> (r: u128)
    ensures
        r == capped_ms(items.deep_view(), most as int),
{
    let ghost all = items.deep_view();
    let mut total: u128 = 0;
    let mut i: usize = 0;
    while i < items.len()
        invariant
            i <= items@.len(),
            all == items.deep_view(),
            total <= most,
            total == capped_ms(all.take(i as int), most as int),
        decreases items@.len() - i,
    {
        proof {
            lemma_take_next(all, i as int);
        }
        if items[i].duration_ms > most - total {
            total = most;
        } else {
            total = total + items[i].duration_ms;
        }
        i = i + 1;
    }
    proof {
        lemma_take_all(all);
    }
    total
}

/// How long the commands that try a change may take, and where the number comes from.
#[derive(Debug, PartialEq, Eq)]
pub struct MutationTimeout {
    pub baseline_duration_ms: u64,
    pub seconds: u64,
    pub source: String,
}

/// The mathematical value of a `MutationTimeout`.
pub struct MutationTimeoutModel {
    pub baseline_duration_ms: u64,
    pub seconds: u64,
    pub source: Seq<char>,
}

impl DeepView for MutationTimeout {
    type V = MutationTimeoutModel;

    open spec fn deep_view(&self) -> MutationTimeoutModel {
        MutationTimeoutModel {
            baseline_duration_ms: self.baseline_duration_ms,
            seconds: self.seconds,
            source: self.source@,
        }
    }
}

/// At least one.
pub open spec fn one_or_more(n: u64) -> u64 {
    if n < 1 {
        1
    } else {
        n
    }
}

/// The least seconds that a change is given.
pub open spec fn least_seconds(min_seconds: Option<u64>) -> u64 {
    match min_seconds {
        Some(n) => one_or_more(n),
        None => 1,
    }
}

/// The most seconds that a change is given: those of a command where no number is set.
pub open spec fn most_seconds(max_seconds: Option<u64>, command_seconds: u64) -> u64 {
    match max_seconds {
        Some(n) => one_or_more(n),
        None => one_or_more(command_seconds),
    }
}

/// The seconds that a change is given: where there is a coefficient, so many times what
/// the tests took before any change, rounded up, and kept within the least and the most;
/// else those of a command.
pub open spec fn trial_seconds(
    baseline_ms: u64,
    coefficient: u64,
    min_seconds: Option<u64>,
    max_seconds: Option<u64>,
    command_seconds: u64,
) -> int {
    if coefficient == 0 {
        one_or_more(command_seconds) as int
    } else {
        let scaled = (baseline_ms * coefficient + 999) / 1000;
        let least = least_seconds(min_seconds);
        let most = most_seconds(max_seconds, command_seconds);
        let raised = if scaled < least {
            least as int
        } else {
            scaled
        };
        if raised > most {
            most as int
        } else {
            raised
        }
    }
}

/// Where the seconds that a change is given come from.
pub open spec fn timeout_source_text(
    baseline_ms: u64,
    coefficient: u64,
    min_seconds: Option<u64>,
    max_seconds: Option<u64>,
    command_seconds: u64,
) -> Seq<char> {
    if coefficient == 0 {
        "command_timeout_seconds"@
    } else {
        let t = "baseline duration "@
            + decimal(baseline_ms as int)
            + "ms x "@
            + decimal(coefficient as int)
            + ", from "@
            + decimal(least_seconds(min_seconds) as int)
            + "s to "@
            + decimal(most_seconds(max_seconds, command_seconds) as int)
            + "s"@;
        t
    }
}

/// How long the commands that try a change may take.
pub open spec fn timeout_of(
    tests: Seq<CommandRecordModel>,
    coefficient: u64,
    min_seconds: Option<u64>,
    max_seconds: Option<u64>,
    command_seconds: u64,
) -> MutationTimeoutModel {
    let baseline = capped_ms(tests, u64::MAX as int) as u64;
    MutationTimeoutModel {
        baseline_duration_ms: baseline,
        seconds: trial_seconds(
            baseline,
            coefficient,
            min_seconds,
            max_seconds,
            command_seconds,
        ) as u64,
        source: timeout_source_text(
            baseline,
            coefficient,
            min_seconds,
            max_seconds,
            command_seconds,
        ),
    }
}

fn at_least_one(n: u64) -> (r: u64)
    ensures
        r == one_or_more(n),
{
    if n < 1 {
        1
    } else {
        n
    }
}

/// How long the commands that try a change may take: the settings say how many times as
/// long as the tests took before any change.
pub fn mutation_timeout(tests: &Vec<CommandRecord>, config: &GoPluginConfig) -> (r:
    MutationTimeout)
    ensures
        r.deep_view() == timeout_of(
            tests.deep_view(),
            config.mutation.timeout_coefficient,
            config.mutation.timeout_min_seconds,
            config.mutation.timeout_max_seconds,
            config.command_timeout_seconds,
        ),
{
    let coefficient: u64 = config.mutation.timeout_coefficient;
    let total: u128 = sum_ms(tests, u64::MAX as u128);
    let baseline: u64 = total as u64;
    if coefficient == 0 {
        return MutationTimeout {
            baseline_duration_ms: baseline,
            seconds: at_least_one(config.command_timeout_seconds),
            source: owned("command_timeout_seconds"),
        };
    }
    let least: u64 = match config.mutation.timeout_min_seconds {
        Some(n) => at_least_one(n),
        None => 1,
    };
    let most: u64 = match config.mutation.timeout_max_seconds {
        Some(n) => at_least_one(n),
        None => at_least_one(config.command_timeout_seconds),
    };
    assert(baseline * coefficient <= 0xffff_ffff_ffff_ffff * 0xffff_ffff_ffff_ffff)
        by (nonlinear_arith)
        requires
            0 <= baseline <= 0xffff_ffff_ffff_ffff,
            0 <= coefficient <= 0xffff_ffff_ffff_ffff,
    ;
    assert(0 <= baseline * coefficient) by (nonlinear_arith)
        requires
            0 <= baseline,
            0 <= coefficient,
    ;
    let scaled: u128 = (baseline as u128 * coefficient as u128 + 999) / 1000;
    let raised: u128 = if scaled < least as u128 {
        least as u128
    } else {
        scaled
    };
    let seconds: u64 = if raised > most as u128 {
        most
    } else {
        raised as u64
    };
    let mut source = owned("baseline duration ");
    source.append(print_u64(baseline).as_str());
    source.append("ms x ");
    source.append(print_u64(coefficient).as_str());
    source.append(", from ");
    source.append(print_u64(least).as_str());
    source.append("s to ");
    source.append(print_u64(most).as_str());
    source.append("s");
    MutationTimeout { baseline_duration_ms: baseline, seconds, source }
}

/// A change is given at least one second and no more than the most; where the numbers
/// allow it, at least the least, and at least so many times what the tests took where that
/// is no more than the most.
pub proof fn law_trial_seconds_stay_within_their_limits(
    baseline_ms: u64,
    coefficient: u64,
    min_seconds: Option<u64>,
    max_seconds: Option<u64>,
    command_seconds: u64,
)
    ensures
        ({
            let seconds = trial_seconds(
                baseline_ms,
                coefficient,
                min_seconds,
                max_seconds,
                command_seconds,
            );
            let least = least_seconds(min_seconds);
            let most = most_seconds(max_seconds, command_seconds);
            &&& 1 <= seconds <= u64::MAX
            &&& coefficient > 0 ==> seconds <= most
            &&& coefficient > 0 && least <= most ==> least <= seconds
            &&& coefficient > 0 && seconds < most ==> seconds * 1000 >= baseline_ms * coefficient
            &&& coefficient == 0 ==> seconds == one_or_more(command_seconds)
        }),
{
}

/// With a coefficient, a change is given the fewest whole seconds that are so many times what
/// the tests took, unless they are fewer than the least number or more than the most; the most
/// number wins over the least. Without numbers of its own, it has one second at least and the
/// seconds of a command at most.
pub proof fn law_trial_seconds_are_rounded_up(
    baseline_ms: u64,
    coefficient: u64,
    least: u64,
    most: u64,
    command_seconds: u64,
)
    requires
        coefficient > 0,
        least >= 1,
        most >= 1,
        command_seconds >= 1,
    ensures
        ({
            let wanted = baseline_ms * coefficient;
            let seconds = trial_seconds(
                baseline_ms,
                coefficient,
                Some(least),
                Some(most),
                command_seconds,
            );
            let plain = trial_seconds(baseline_ms, coefficient, None, None, command_seconds);
            &&& least < seconds < most ==> (seconds - 1) * 1000 < wanted && wanted <= seconds * 1000
            &&& wanted <= least * 1000 && least <= most ==> seconds == least
            &&& wanted > (most - 1) * 1000 ==> seconds == most
            &&& least > most ==> seconds == most
            &&& 1 < plain < command_seconds ==> (plain - 1) * 1000 < wanted && wanted <= plain * 1000
            &&& wanted <= 1000 ==> plain == 1
            &&& wanted > (command_seconds - 1) * 1000 ==> plain == command_seconds
        }),
{
}

// ---------------------------------------------------------------------------
// Running out of time
// ---------------------------------------------------------------------------
/// The note that ends the errors of a command that ran out of time.
pub open spec fn expiry_note(command: CommandRecordModel, seconds: u64) -> Seq<char> {
    timeout_note_text(""@, seconds as int, command_words(command.program, command.args))
}

/// Whether a command ran out of time.
pub open spec fn timed_out(command: CommandRecordModel, seconds: u64) -> bool {
    command.status == RunStatus::Failed && ends(command.stderr, expiry_note(command, seconds))
}

/// Whether a command ran out of time.
pub fn command_timed_out(command: &CommandRecord, seconds: u64) -> (r: bool)
    ensures
        r == timed_out(command.deep_view(), seconds),
{
    let line = command_line(command.program.as_str(), &command.args);
    let note = timeout_note("", seconds, line.as_str());
    command.status == RunStatus::Failed && ends_with(command.stderr.as_str(), note.as_str())
}

/// A command whose errors were noted to have run out of time did so.
pub proof fn law_noted_timeouts_are_seen(
    command: CommandRecordModel,
    errors: Seq<char>,
    seconds: u64,
)
    requires
        command.status == RunStatus::Failed,
        command.stderr == timeout_note_text(
            errors,
            seconds as int,
            command_words(command.program, command.args),
        ),
    ensures
        timed_out(command, seconds),
{
    let note = expiry_note(command, seconds);
    reveal_strlit("");
    assert(""@.len() == 0);
    let words = "command timed out after "@ + decimal(seconds as int) + "s: "@ + command_words(
        command.program,
        command.args,
    );
    assert(note =~= words);
    assert(command.stderr.skip(command.stderr.len() - note.len()) =~= note);
}

/// Whether some command failed without running out of time.
pub open spec fn some_noticed(items: Seq<CommandRecordModel>, seconds: u64) -> bool {
    exists|k: int|
        0 <= k < items.len() && (#[trigger] items[k]).status == RunStatus::Failed && !timed_out(
            items[k],
            seconds,
        )
}

fn any_noticed(items: &Vec<CommandRecord>, seconds: u64) -> (r: bool)
    ensures
        r == some_noticed(items.deep_view(), seconds),
{
    let ghost all = items.deep_view();
    let mut i: usize = 0;
    while i < items.len()
        invariant
            i <= items@.len(),
            all == items.deep_view(),
            forall|k: int|
                0 <= k < i ==> !((#[trigger] all[k]).status == RunStatus::Failed && !timed_out(
                    all[k],
                    seconds,
                )),
        decreases items@.len() - i,
    {
        assert(all[i as int] == items@[i as int].deep_view());
        if items[i].status == RunStatus::Failed && !command_timed_out(&items[i], seconds) {
            return true;
        }
        i = i + 1;
    }
    false
}

/// What came of a change: it was noticed where a command failed, it ran out of time where
/// every command that failed did so, and else it survived.
pub open spec fn trial_outcome_of(commands: Seq<CommandRecordModel>, seconds: u64) -> TrialOutcome {
    if some_noticed(commands, seconds) {
        TrialOutcome::Killed
    } else if some_failed(commands) {
        TrialOutcome::TimedOut
    } else {
        TrialOutcome::Survived
    }
}

/// What came of a change.
pub fn trial_outcome(commands: &Vec<CommandRecord>, seconds: u64) -> (r: TrialOutcome)
    ensures
        r == trial_outcome_of(commands.deep_view(), seconds),
{
    if any_noticed(commands, seconds) {
        TrialOutcome::Killed
    } else if any_failed(commands) {
        TrialOutcome::TimedOut
    } else {
        TrialOutcome::Survived
    }
}

/// A change whose commands failed only for want of time is neither noticed nor a survivor,
/// and one of whose commands failed otherwise is noticed however many ran out of time.
pub proof fn law_running_out_of_time_is_no_notice(
    commands: Seq<CommandRecordModel>,
    seconds: u64,
    place: int,
)
    requires
        0 <= place < commands.len(),
        commands[place].status == RunStatus::Failed,
    ensures
        !timed_out(commands[place], seconds) ==> trial_outcome_of(commands, seconds)
            == TrialOutcome::Killed,
        (forall|k: int|
            0 <= k < commands.len() && (#[trigger] commands[k]).status == RunStatus::Failed
                ==> timed_out(commands[k], seconds)) ==> trial_outcome_of(commands, seconds)
            == TrialOutcome::TimedOut,
{
}

// ---------------------------------------------------------------------------
// Records
// ---------------------------------------------------------------------------
/// The status of a mutant by what came of it.
pub open spec fn status_of(outcome: TrialOutcome) -> MutationStatus {
    match outcome {
        TrialOutcome::Killed => MutationStatus::Killed,
        TrialOutcome::Survived => MutationStatus::Lived,
        TrialOutcome::TimedOut => MutationStatus::TimedOut,
        TrialOutcome::OutOfBudget => MutationStatus::Skipped,
    }
}

fn record_status(outcome: TrialOutcome) -> (r: MutationStatus)
    ensures
        r == status_of(outcome),
{
    match outcome {
        TrialOutcome::Killed => MutationStatus::Killed,
        TrialOutcome::Survived => MutationStatus::Lived,
        TrialOutcome::TimedOut => MutationStatus::TimedOut,
        TrialOutcome::OutOfBudget => MutationStatus::Skipped,
    }
}

/// The id of a mutant: its file, its function and its bytes.
pub open spec fn mutant_id_text(candidate: MutationCandidateModel) -> Seq<char> {
    let t = candidate.path
        + ":"@
        + candidate.function
        + ":"@
        + decimal(candidate.start_byte as int)
        + ":"@
        + decimal(candidate.end_byte as int);
    t
}

/// The id of a mutant: its file, its function and its bytes.
pub fn mutant_id(candidate: &MutationCandidate) -> (r: String)
    ensures
        r@ == mutant_id_text(candidate.deep_view()),
{
    let mut out = owned(candidate.path.as_str());
    out.append(":");
    out.append(candidate.function.as_str());
    out.append(":");
    out.append(print_usize(candidate.start_byte).as_str());
    out.append(":");
    out.append(print_usize(candidate.end_byte).as_str());
    out
}

/// The change of a mutant as a diff.
pub open spec fn mutant_diff_text(candidate: MutationCandidateModel) -> Seq<char> {
    let t = "@@ bytes "@
        + decimal(candidate.start_byte as int)
        + ".."@
        + decimal(candidate.end_byte as int)
        + " @@\n-"@
        + candidate.from
        + "\n+"@
        + candidate.to;
    t
}

fn mutant_diff(candidate: &MutationCandidate) -> (r: String)
    ensures
        r@ == mutant_diff_text(candidate.deep_view()),
{
    let mut out = owned("@@ bytes ");
    out.append(print_usize(candidate.start_byte).as_str());
    out.append("..");
    out.append(print_usize(candidate.end_byte).as_str());
    out.append(" @@\n-");
    out.append(candidate.from.as_str());
    out.append("\n+");
    out.append(candidate.to.as_str());
    out
}

/// The test that would notice a mutant.
pub open spec fn mutant_test_text(candidate: MutationCandidateModel) -> Seq<char> {
    let t = "cover `"@
        + candidate.function
        + "` so replacing `"@
        + candidate.from
        + "` with `"@
        + candidate.to
        + "` fails"@;
    t
}

fn mutant_test(candidate: &MutationCandidate) -> (r: String)
    ensures
        r@ == mutant_test_text(candidate.deep_view()),
{
    let mut out = owned("cover `");
    out.append(candidate.function.as_str());
    out.append("` so replacing `");
    out.append(candidate.from.as_str());
    out.append("` with `");
    out.append(candidate.to.as_str());
    out.append("` fails");
    out
}

/// Why the tests say nothing of a mutant, where they do not.
pub open spec fn reason_of(outcome: TrialOutcome, seconds: u64) -> Option<Seq<char>> {
    match outcome {
        TrialOutcome::Killed => None,
        TrialOutcome::Survived => None,
        TrialOutcome::TimedOut => Some(
            "mutant ran out of time after "@ + decimal(seconds as int)
                + "s; add deterministic test seams so that its tests end"@,
        ),
        TrialOutcome::OutOfBudget => Some(
            "global budget nearly exhausted before remaining mutants"@,
        ),
    }
}

fn skip_reason(outcome: TrialOutcome, seconds: u64) -> (r: Option<String>)
    ensures
        r.deep_view() == reason_of(outcome, seconds),
{
    match outcome {
        TrialOutcome::Killed => None,
        TrialOutcome::Survived => None,
        TrialOutcome::TimedOut => {
            let mut out = owned("mutant ran out of time after ");
            out.append(print_u64(seconds).as_str());
            out.append("s; add deterministic test seams so that its tests end");
            Some(out)
        },
        TrialOutcome::OutOfBudget => Some(
            owned("global budget nearly exhausted before remaining mutants"),
        ),
    }
}

/// The lines of commands.
pub open spec fn lines_of_commands(items: Seq<CommandRecordModel>) -> Seq<Seq<char>>
    decreases items.len(),
{
    if items.len() == 0 {
        Seq::empty()
    } else {
        lines_of_commands(items.drop_last()).push(
            command_words(items.last().program, items.last().args),
        )
    }
}

fn command_lines(items: &Vec<CommandRecord>) -> (r: Vec<String>)
    ensures
        r.deep_view() == lines_of_commands(items.deep_view()),
{
    let mut out: Vec<String> = Vec::new();
    let ghost all = items.deep_view();
    let mut i: usize = 0;
    assert(out.deep_view() == lines_of_commands(all.take(0)));
    while i < items.len()
        invariant
            i <= items@.len(),
            all == items.deep_view(),
            out.deep_view() == lines_of_commands(all.take(i as int)),
        decreases items@.len() - i,
    {
        proof {
            lemma_take_next(all, i as int);
        }
        push_text(&mut out, command_line(items[i].program.as_str(), &items[i].args));
        i = i + 1;
    }
    proof {
        lemma_take_all(all);
    }
    out
}

/// Whether the tests of all packages are run.
pub open spec fn all_packages(package_args: Seq<Seq<char>>) -> bool {
    package_args == seq!["./..."@]
}

fn is_all_packages(package_args: &Vec<String>) -> (r: bool)
    ensures
        r == all_packages(package_args.deep_view()),
{
    assert(package_args@.len() == package_args.deep_view().len());
    if package_args.len() == 1 {
        assert(package_args.deep_view()[0] == package_args@[0]@);
        let found = same(package_args[0].as_str(), "./...");
        assert(found ==> package_args.deep_view() =~= seq!["./..."@]);
        found
    } else {
        assert(seq!["./..."@].len() == 1);
        false
    }
}

/// How the tests that a mutant runs against were picked.
pub open spec fn selection_hint(package_args: Seq<Seq<char>>) -> Seq<char> {
    if all_packages(package_args) {
        "all packages of the selected modules"@
    } else {
        "selected packages and their reverse dependencies"@
    }
}

/// Why the tests of all packages are run, where they are.
pub open spec fn selection_fallback(package_args: Seq<Seq<char>>) -> Option<Seq<char>> {
    if all_packages(package_args) {
        Some("no narrower package scope was selected"@)
    } else {
        None
    }
}

/// The name that the files of a mutant share: its id in plain letters, and its place in the
/// run.
pub open spec fn mutant_stem(candidate: MutationCandidateModel, place: int) -> Seq<char> {
    slug(mutant_id_text(candidate)) + "-"@ + decimal(place)
}

/// The path of a file of a mutant.
pub open spec fn mutant_path(directory: Seq<char>, stem: Seq<char>, ending: Seq<char>) -> Seq<char> {
    ".veritas/mutations/"@ + directory + "/"@ + stem + ending
}

fn make_mutant_path(directory: &str, stem: &str, ending: &str) -> (r: String)
    ensures
        r@ == mutant_path(directory@, stem@, ending@),
{
    let mut out = owned(".veritas/mutations/");
    out.append(directory);
    out.append("/");
    out.append(stem);
    out.append(ending);
    out
}

/// A value where there is cause for it.
pub open spec fn some_if<A>(cause: bool, value: A) -> Option<A> {
    if cause {
        Some(value)
    } else {
        None
    }
}

fn text_if(cause: bool, value: String) -> (r: Option<String>)
    ensures
        r.deep_view() == some_if(cause, value@),
{
    if cause {
        Some(value)
    } else {
        None
    }
}

/// The record of a change that was taken up: what was changed, what came of it, what ran,
/// and where its files are.
pub open spec fn trial_record(
    place: int,
    package_args: Seq<Seq<char>>,
    candidate: MutationCandidateModel,
    outcome: TrialOutcome,
    seconds: u64,
    commands: Seq<CommandRecordModel>,
) -> MutationRecordModel {
    let stem = mutant_stem(candidate, place);
    let ran = commands.len() > 0;
    MutationRecordModel {
        id: mutant_id_text(candidate),
        language: "go"@,
        path: candidate.path,
        symbol: candidate.function,
        operator: operator_in_label(candidate.label),
        domain: domain_in(candidate.label),
        status: status_of(outcome),
        from: Some(candidate.from),
        to: Some(candidate.to),
        line_range: None,
        source_span: Some(LineRange { start: candidate.start_byte, end: candidate.end_byte }),
        diff: Some(mutant_diff_text(candidate)),
        risk_note: None,
        suggested_test: Some(mutant_test_text(candidate)),
        skip_reason: reason_of(outcome, seconds),
        selected_test_command: some_if(ran, joined(lines_of_commands(commands), " && "@)),
        test_selection_hint: Some(selection_hint(package_args)),
        test_selection_fallback: selection_fallback(package_args),
        brittleness_probe: false,
        command: some_if(ran, command_words(commands[0].program, commands[0].args)),
        duration_ms: capped_ms(commands, u128::MAX as int) as u128,
        diff_path: Some(mutant_path("diffs"@, stem, ".diff"@)),
        outcome_path: Some(mutant_path("records"@, stem, ".json"@)),
        command_log_path: some_if(ran, mutant_path("logs"@, stem, ".command.log"@)),
        stdout_log_path: some_if(ran, mutant_path("logs"@, stem, ".stdout.log"@)),
        stderr_log_path: some_if(ran, mutant_path("logs"@, stem, ".stderr.log"@)),
    }
}

/// The record of a change that was taken up.
pub fn make_trial_record(
    place: usize,
    package_args: &Vec<String>,
    candidate: &MutationCandidate,
    outcome: TrialOutcome,
    seconds: u64,
    commands: &Vec<CommandRecord>,
) -> (r: MutationRecord)
    ensures
        r.deep_view() == trial_record(
            place as int,
            package_args.deep_view(),
            candidate.deep_view(),
            outcome,
            seconds,
            commands.deep_view(),
        ),
{
    let id = mutant_id(candidate);
    let mut stem = stable_slug(id.as_str());
    stem.append("-");
    stem.append(print_usize(place).as_str());
    let name = stem.as_str();
    assert(name@ == mutant_stem(candidate.deep_view(), place as int));
    assert(commands@.len() == commands.deep_view().len());
    let ran = commands.len() > 0;
    let command: Option<String> = if ran {
        assert(commands.deep_view()[0] == commands@[0].deep_view());
        Some(command_line(commands[0].program.as_str(), &commands[0].args))
    } else {
        None
    };
    let everything = is_all_packages(package_args);
    MutationRecord {
        id,
        language: owned("go"),
        path: owned(candidate.path.as_str()),
        symbol: owned(candidate.function.as_str()),
        operator: owned(mutation_operator_from_label(candidate.label.as_str())),
        domain: owned(mutation_domain_from_label(candidate.label.as_str())),
        status: record_status(outcome),
        from: Some(owned(candidate.from.as_str())),
        to: Some(owned(candidate.to.as_str())),
        line_range: None,
        source_span: Some(LineRange { start: candidate.start_byte, end: candidate.end_byte }),
        diff: Some(mutant_diff(candidate)),
        risk_note: None,
        suggested_test: Some(mutant_test(candidate)),
        skip_reason: skip_reason(outcome, seconds),
        selected_test_command: text_if(ran, join(&command_lines(commands), " && ")),
        test_selection_hint: Some(
            if everything {
                owned("all packages of the selected modules")
            } else {
                owned("selected packages and their reverse dependencies")
            },
        ),
        test_selection_fallback: text_if(
            everything,
            owned("no narrower package scope was selected"),
        ),
        brittleness_probe: false,
        command,
        duration_ms: sum_ms(commands, u128::MAX),
        diff_path: Some(make_mutant_path("diffs", name, ".diff")),
        outcome_path: Some(make_mutant_path("records", name, ".json")),
        command_log_path: text_if(ran, make_mutant_path("logs", name, ".command.log")),
        stdout_log_path: text_if(ran, make_mutant_path("logs", name, ".stdout.log")),
        stderr_log_path: text_if(ran, make_mutant_path("logs", name, ".stderr.log")),
    }
}

// ---------------------------------------------------------------------------
// Files
// ---------------------------------------------------------------------------
/// A file that is kept of a mutant.
#[derive(Debug, PartialEq, Eq)]
pub struct MutantFile {
    pub path: String,
    pub contents: String,
}

/// The mathematical value of a `MutantFile`.
pub struct MutantFileModel {
    pub path: Seq<char>,
    pub contents: Seq<char>,
}

impl DeepView for MutantFile {
    type V = MutantFileModel;

    open spec fn deep_view(&self) -> MutantFileModel {
        MutantFileModel { path: self.path@, contents: self.contents@ }
    }
}

/// What commands printed, each behind its line: their errors, or their output.
pub open spec fn printed_by(items: Seq<CommandRecordModel>, errors: bool) -> Seq<char>
    decreases items.len(),
{
    if items.len() == 0 {
        Seq::empty()
    } else {
        let command = items.last();
        printed_by(items.drop_last(), errors) + "$ "@ + command_words(
            command.program,
            command.args,
        ) + "\n"@ + (if errors {
            command.stderr
        } else {
            command.stdout
        }) + "\n"@
    }
}

fn print_output(items: &Vec<CommandRecord>, errors: bool) -> (r: String)
    ensures
        r@ == printed_by(items.deep_view(), errors),
{
    let mut out = String::new();
    let ghost all = items.deep_view();
    let mut i: usize = 0;
    assert(out@ =~= printed_by(all.take(0), errors));
    while i < items.len()
        invariant
            i <= items@.len(),
            all == items.deep_view(),
            out@ == printed_by(all.take(i as int), errors),
        decreases items@.len() - i,
    {
        proof {
            lemma_take_next(all, i as int);
        }
        out.append("$ ");
        out.append(command_line(items[i].program.as_str(), &items[i].args).as_str());
        out.append("\n");
        if errors {
            out.append(items[i].stderr.as_str());
        } else {
            out.append(items[i].stdout.as_str());
        }
        out.append("\n");
        i = i + 1;
    }
    proof {
        lemma_take_all(all);
    }
    out
}

/// A file where it has a path.
pub open spec fn file_at(path: Option<Seq<char>>, contents: Seq<char>) -> Seq<MutantFileModel> {
    match path {
        Some(path) => seq![MutantFileModel { path, contents }],
        None => Seq::empty(),
    }
}

fn push_file(out: &mut Vec<MutantFile>, path: &Option<String>, contents: String)
    ensures
        final(out).deep_view() == old(out).deep_view() + file_at(path.deep_view(), contents@),
{
    let ghost before = out.deep_view();
    if let Some(known) = path {
        out.push(MutantFile { path: owned(known.as_str()), contents });
    }
    assert(out.deep_view() =~= before + file_at(path.deep_view(), contents@));
}

/// The files that are kept of a mutant: its diff, its record, and what its commands were
/// and printed.
pub open spec fn mutant_files(
    record: MutationRecordModel,
    commands: Seq<CommandRecordModel>,
) -> Seq<MutantFileModel> {
    file_at(record.diff_path, or_text(record.diff, ""@)) + file_at(
        record.outcome_path,
        formatted_json(mutation_record_document(record)),
    ) + file_at(record.command_log_path, joined(lines_of_commands(commands), "\n"@)) + file_at(
        record.stdout_log_path,
        printed_by(commands, false),
    ) + file_at(record.stderr_log_path, printed_by(commands, true))
}

/// The files that are kept of a mutant.
pub fn files_of_mutant(record: &MutationRecord, commands: &Vec<CommandRecord>) -> (r: Vec<
    MutantFile,
>)
    ensures
        r.deep_view() == mutant_files(record.deep_view(), commands.deep_view()),
{
    let mut out: Vec<MutantFile> = Vec::new();
    assert(out.deep_view() =~= Seq::<MutantFileModel>::empty());
    push_file(&mut out, &record.diff_path, text_or(&record.diff, ""));
    push_file(&mut out, &record.outcome_path, formatted(&mutation_record_json(record)));
    push_file(&mut out, &record.command_log_path, join(&command_lines(commands), "\n"));
    push_file(&mut out, &record.stdout_log_path, print_output(commands, false));
    push_file(&mut out, &record.stderr_log_path, print_output(commands, true));
    assert(out.deep_view() =~= mutant_files(record.deep_view(), commands.deep_view()));
    out
}

/// Two changes of a run share no file, whatever they change: a file of one never has the path
/// of the same file of the other.
pub proof fn law_mutants_share_no_files(
    one: MutationCandidateModel,
    other: MutationCandidateModel,
    place: int,
    other_place: int,
    directory: Seq<char>,
    ending: Seq<char>,
)
    requires
        0 <= place,
        0 <= other_place,
        place != other_place,
    ensures
        mutant_path(directory, mutant_stem(one, place), ending) != mutant_path(
            directory,
            mutant_stem(other, other_place),
            ending,
        ),
{
    let first = mutant_stem(one, place);
    let second = mutant_stem(other, other_place);
    let a = mutant_path(directory, first, ending);
    let b = mutant_path(directory, second, ending);
    if a == b {
        let head = ".veritas/mutations/"@ + directory + "/"@;
        assert(a =~= head + first + ending);
        assert(b =~= head + second + ending);
        assert(first.len() == second.len());
        assert(a.subrange(head.len() as int, (head.len() + first.len()) as int) =~= first);
        assert(b.subrange(head.len() as int, (head.len() + second.len()) as int) =~= second);
        lemma_stems_differ(
            slug(mutant_id_text(one)),
            slug(mutant_id_text(other)),
            place,
            other_place,
        );
    }
}

proof fn lemma_stems_differ(one: Seq<char>, other: Seq<char>, place: int, other_place: int)
    requires
        0 <= place,
        0 <= other_place,
        place != other_place,
    ensures
        one + "-"@ + decimal(place) != other + "-"@ + decimal(other_place),
{
    let first = one + "-"@ + decimal(place);
    let second = other + "-"@ + decimal(other_place);
    let n = decimal(place).len();
    let m = decimal(other_place).len();
    lemma_decimal_reads(place);
    lemma_decimal_reads(other_place);
    reveal_strlit("-");
    if first == second {
        let end = first.len() as int;
        if n == m {
            assert(first.skip(end - n) =~= decimal(place));
            assert(second.skip(end - m) =~= decimal(other_place));
        } else if n < m {
            assert(first[end - n - 1] == '-');
            assert(second[end - n - 1] == decimal(other_place)[m - n - 1]);
            assert(is_digit(decimal(other_place)[m - n - 1]));
        } else {
            assert(second[end - m - 1] == '-');
            assert(first[end - m - 1] == decimal(place)[n - m - 1]);
            assert(is_digit(decimal(place)[n - m - 1]));
        }
    }
}

/// Each path that the record of a change names is one of the files that are kept of it.
pub proof fn law_recorded_paths_are_kept(
    place: int,
    package_args: Seq<Seq<char>>,
    candidate: MutationCandidateModel,
    outcome: TrialOutcome,
    seconds: u64,
    commands: Seq<CommandRecordModel>,
)
    ensures
        ({
            let record = trial_record(
                place,
                package_args,
                candidate,
                outcome,
                seconds,
                commands,
            );
            let files = mutant_files(record, commands);
            &&& files.len() == if commands.len() > 0 {
                5int
            } else {
                2int
            }
            &&& record.diff_path == Some(files[0].path)
            &&& record.outcome_path == Some(files[1].path)
            &&& commands.len() > 0 ==> record.command_log_path == Some(files[2].path)
                && record.stdout_log_path == Some(files[3].path) && record.stderr_log_path == Some(
                files[4].path,
            )
            &&& commands.len() == 0 ==> record.command_log_path is None
                && record.stdout_log_path is None && record.stderr_log_path is None
        }),
{
}

} // verus!
