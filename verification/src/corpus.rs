//! The corpus: inputs that once made a test fail, replayed by their commands.
use vstd::prelude::*;

use crate::api::{
    clone_failures, push_command_record, push_failure, push_generated_artifact,
    push_test_run_result, ArtifactKind, ArtifactStatus, CommandRecord, CommandRecordModel, Failure,
    FailureModel, FailureSeverity, GeneratedArtifact, GeneratedArtifactModel, ReproCase,
    ReproCaseModel, RunStatus, TestRunResult, TestRunResultModel, VerificationReport,
    VerificationReportModel,
};
use crate::documents::read_corpus_entry;
use crate::findings::{entry_in_text, excerpt_text};
use crate::ids::{all_identified, assign_finding_ids};
use crate::json::{number, parse_exact, pretty, pretty_json, text, Json, JsonModel, Members};
use crate::metrics::{no_quality, RegressionMetrics, VerificationQuality, VerificationQualityModel};
use crate::number::{decimal, print_u64};
use crate::records::{CorpusEntry, CorpusEntryModel};
use crate::seqs::{lemma_take_all, lemma_take_next};
use crate::split::{at_most, joined, lines_of, push_text, trim_start, trimmed_start};
use crate::text::{clone_text, owned, starts, starts_with};

verus! {

// ---------------------------------------------------------------------------
// Entries
// ---------------------------------------------------------------------------
/// Whether a command of an entry can be run; others are words for a reader.
pub open spec fn executable(command: Seq<char>) -> bool {
    ||| starts(trimmed_start(command), "cargo "@)
    ||| starts(trimmed_start(command), "go "@)
    ||| starts(trimmed_start(command), "(cd "@)
    ||| starts(trimmed_start(command), "./"@)
}

/// Whether a command of an entry can be run; others are words for a reader.
pub fn is_executable_replay_command(command: &str) -> (r: bool)
    ensures
        r == executable(command@),
{
    let bare = trim_start(command);
    let text = bare.as_str();
    starts_with(text, "cargo ") || starts_with(text, "go ") || starts_with(text, "(cd ") || starts_with(text, "./")
}

/// The corpus entry that a file holds; nothing where it holds none.
pub fn parse_corpus_entry(contents: &str) -> (r: Option<CorpusEntry>)
    ensures
        r.deep_view() == entry_in_text(contents@),
{
    match parse_exact(contents) {
        Some(value) => read_corpus_entry(&value),
        None => None,
    }
}

/// What a replay does with an entry.
#[derive(Debug, Clone, Copy, PartialEq, Eq, Structural)]
pub enum CorpusStep {
    Guidance,
    DryRun,
    Execute,
}

impl CorpusStep {
    /// Why an entry is not run.
    pub open spec fn reason(self) -> Seq<char> {
        match self {
            CorpusStep::Guidance => "corpus replay command is guidance, not an executable test command"@,
            CorpusStep::DryRun => "dry run"@,
            CorpusStep::Execute => ""@,
        }
    }

    fn reason_text(self) -> (r: &'static str)
        ensures
            r@ == self.reason(),
    {
        match self {
            CorpusStep::Guidance => "corpus replay command is guidance, not an executable test command",
            CorpusStep::DryRun => "dry run",
            CorpusStep::Execute => "",
        }
    }
}

/// What a replay does with an entry.
pub open spec fn corpus_step_for(command: Seq<char>, dry_run: bool) -> CorpusStep {
    if !executable(command) {
        CorpusStep::Guidance
    } else if dry_run {
        CorpusStep::DryRun
    } else {
        CorpusStep::Execute
    }
}

/// What a replay does with an entry.
pub fn corpus_step(entry: &CorpusEntry, dry_run: bool) -> (r: CorpusStep)
    ensures
        r == corpus_step_for(entry.deep_view().replay_command, dry_run),
{
    if !is_executable_replay_command(entry.replay_command.as_str()) {
        CorpusStep::Guidance
    } else if dry_run {
        CorpusStep::DryRun
    } else {
        CorpusStep::Execute
    }
}

/// A dry run executes nothing.
pub proof fn law_dry_replay_runs_nothing(command: Seq<char>)
    ensures
        corpus_step_for(command, true) != CorpusStep::Execute,
{
}

/// The record of an entry that was not run.
pub open spec fn skipped_record(
    root: Seq<char>,
    command: Seq<char>,
    reason: Seq<char>,
) -> CommandRecordModel {
    CommandRecordModel {
        program: "veritas"@,
        args: seq!["replay-corpus"@, command],
        cwd: root,
        exit_code: None,
        status: RunStatus::Skipped,
        stdout: Seq::empty(),
        stderr: reason,
        duration_ms: 0,
    }
}

/// The record of an entry that was not run.
pub fn skipped_command_record(root: &str, command: &str, reason: &str) -> (r: CommandRecord)
    ensures
        r.deep_view() == skipped_record(root@, command@, reason@),
{
    let mut args: Vec<String> = Vec::new();
    push_text(&mut args, owned("replay-corpus"));
    push_text(&mut args, owned(command));
    assert(args.deep_view() =~= seq!["replay-corpus"@, command@]);
    let none = String::new();
    assert(none@ =~= Seq::<char>::empty());
    CommandRecord {
        program: owned("veritas"),
        args,
        cwd: owned(root),
        exit_code: None,
        status: RunStatus::Skipped,
        stdout: none,
        stderr: owned(reason),
        duration_ms: 0,
    }
}

/// What is noted of a command of an entry that took too long.
pub open spec fn replay_timeout_note_text(seconds: int, stderr: Seq<char>) -> Seq<char> {
    let t = "corpus replay command timed out after "@ + decimal(seconds) + "s\n"@ + stderr;
    t
}

/// What is noted of a command of an entry that took too long.
pub fn replay_timeout_note(seconds: u64, stderr: &str) -> (r: String)
    ensures
        r@ == replay_timeout_note_text(seconds as int, stderr@),
{
    let mut out = owned("corpus replay command timed out after ");
    out.append(print_u64(seconds).as_str());
    out.append("s\n");
    out.append(stderr);
    out
}

/// What is said of an entry whose command failed.
pub open spec fn replay_failure_message_text(target_id: Seq<char>) -> Seq<char> {
    let t = "corpus replay failed for `"@ + target_id + "`"@;
    t
}

fn replay_failure_message(target_id: &str) -> (r: String)
    ensures
        r@ == replay_failure_message_text(target_id@),
{
    let mut out = owned("corpus replay failed for `");
    out.append(target_id);
    out.append("`");
    out
}

/// The finding of an entry whose command failed.
pub open spec fn replay_failure(
    entry: CorpusEntryModel,
    command: CommandRecordModel,
) -> FailureModel {
    FailureModel {
        id: None,
        message: replay_failure_message_text(entry.target_id),
        severity: FailureSeverity::Error,
        target_id: Some(entry.target_id),
        artifact_id: None,
        command: entry.replay_command,
        stdout_excerpt: joined(at_most(lines_of(command.stdout), 40), "\n"@),
        stderr_excerpt: joined(at_most(lines_of(command.stderr), 40), "\n"@),
        repro: Some(
            ReproCaseModel {
                command: entry.replay_command,
                input: entry.input,
                path: entry.path,
            },
        ),
    }
}

fn make_replay_failure(entry: &CorpusEntry, command: &CommandRecord) -> (r: Failure)
    ensures
        r.deep_view() == replay_failure(entry.deep_view(), command.deep_view()),
{
    Failure {
        id: None,
        message: replay_failure_message(entry.target_id.as_str()),
        severity: FailureSeverity::Error,
        target_id: Some(owned(entry.target_id.as_str())),
        artifact_id: None,
        command: owned(entry.replay_command.as_str()),
        stdout_excerpt: excerpt_text(command.stdout.as_str()),
        stderr_excerpt: excerpt_text(command.stderr.as_str()),
        repro: Some(
            ReproCase {
                command: owned(entry.replay_command.as_str()),
                input: clone_text(&entry.input),
                path: clone_text(&entry.path),
            },
        ),
    }
}

// ---------------------------------------------------------------------------
// Replays
// ---------------------------------------------------------------------------
/// How many commands have a status.
pub open spec fn status_count(items: Seq<CommandRecordModel>, status: RunStatus) -> int
    decreases items.len(),
{
    if items.len() == 0 {
        0
    } else {
        status_count(items.drop_last(), status) + if items.last().status == status {
            1int
        } else {
            0int
        }
    }
}

/// How many commands have a status.
pub fn count_status(items: &Vec<CommandRecord>, status: RunStatus) -> (r: usize)
    ensures
        r == status_count(items.deep_view(), status),
        r <= items@.len(),
{
    let ghost all = items.deep_view();
    let mut n: usize = 0;
    let mut i: usize = 0;
    while i < items.len()
        invariant
            i <= items@.len(),
            n <= i,
            all == items.deep_view(),
            n == status_count(all.take(i as int), status),
        decreases items@.len() - i,
    {
        proof {
            lemma_take_next(all, i as int);
        }
        if items[i].status == status {
            n = n + 1;
        }
        i = i + 1;
    }
    proof {
        lemma_take_all(all);
    }
    n
}

/// A replay of the corpus, entry by entry.
pub struct CorpusReplay {
    pub commands: Vec<CommandRecord>,
    pub failures: Vec<Failure>,
}

/// The mathematical value of a `CorpusReplay`.
pub struct CorpusReplayModel {
    pub commands: Seq<CommandRecordModel>,
    pub failures: Seq<FailureModel>,
}

impl DeepView for CorpusReplay {
    type V = CorpusReplayModel;

    open spec fn deep_view(&self) -> CorpusReplayModel {
        CorpusReplayModel {
            commands: self.commands.deep_view(),
            failures: self.failures.deep_view(),
        }
    }
}

impl CorpusReplayModel {
    /// The replay after an entry, with the command that stands for it.
    pub open spec fn after(
        self,
        entry: CorpusEntryModel,
        command: CommandRecordModel,
    ) -> CorpusReplayModel {
        CorpusReplayModel {
            commands: self.commands.push(command),
            failures: if command.status == RunStatus::Failed {
                self.failures.push(replay_failure(entry, command))
            } else {
                self.failures
            },
        }
    }

    /// Whether there is a finding for each command that failed, and no other.
    pub open spec fn consistent(self) -> bool {
        self.failures.len() == status_count(self.commands, RunStatus::Failed)
    }

    /// What was measured.
    pub open spec fn quality(self) -> VerificationQualityModel {
        let passed = status_count(self.commands, RunStatus::Passed);
        let failed = status_count(self.commands, RunStatus::Failed);
        let skipped = status_count(self.commands, RunStatus::Skipped);
        VerificationQualityModel {
            regression: RegressionMetrics {
                corpus_entries: (passed + failed + skipped) as usize,
                corpus_replayed: (passed + failed) as usize,
                corpus_passed: passed as usize,
                corpus_failed: failed as usize,
                corpus_skipped: skipped as usize,
                ..no_quality().regression
            },
            ..no_quality()
        }
    }

    /// The result: it failed where an entry did, and passed where one did and none failed.
    pub open spec fn result(self, duration_ms: u128) -> TestRunResultModel {
        TestRunResultModel {
            language: "corpus"@,
            status: if status_count(self.commands, RunStatus::Failed) > 0 {
                RunStatus::Failed
            } else if status_count(self.commands, RunStatus::Passed) > 0 {
                RunStatus::Passed
            } else {
                RunStatus::Skipped
            },
            commands: self.commands,
            failures: self.failures,
            duration_ms,
            quality: self.quality(),
        }
    }
}

/// Every entry passed, failed or was skipped.
pub proof fn law_every_entry_is_counted(commands: Seq<CommandRecordModel>)
    ensures
        status_count(commands, RunStatus::Passed) + status_count(commands, RunStatus::Failed)
            + status_count(commands, RunStatus::Skipped) == commands.len(),
        status_count(commands, RunStatus::Passed) >= 0,
        status_count(commands, RunStatus::Failed) >= 0,
        status_count(commands, RunStatus::Skipped) >= 0,
    decreases commands.len(),
{
    if commands.len() > 0 {
        law_every_entry_is_counted(commands.drop_last());
    }
}

/// There is a finding for each command that failed, and no other, after every entry.
pub proof fn law_failed_replays_are_found(
    replay: CorpusReplayModel,
    entry: CorpusEntryModel,
    command: CommandRecordModel,
)
    requires
        replay.consistent(),
    ensures
        replay.after(entry, command).consistent(),
{
    assert(replay.after(entry, command).commands.drop_last() =~= replay.commands);
}

impl CorpusReplay {
    /// A replay before its first entry.
    pub fn new() -> (r: Self)
        ensures
            r.deep_view() == (CorpusReplayModel {
                commands: Seq::empty(),
                failures: Seq::empty(),
            }),
    {
        let replay = CorpusReplay { commands: Vec::new(), failures: Vec::new() };
        assert(replay.commands.deep_view() =~= Seq::<CommandRecordModel>::empty());
        assert(replay.failures.deep_view() =~= Seq::<FailureModel>::empty());
        replay
    }

    /// Notes what came of the command of an entry.
    pub fn record(&mut self, entry: &CorpusEntry, command: CommandRecord)
        ensures
            final(self).deep_view() == old(self).deep_view().after(
                entry.deep_view(),
                command.deep_view(),
            ),
    {
        if command.status == RunStatus::Failed {
            push_failure(&mut self.failures, make_replay_failure(entry, &command));
        }
        push_command_record(&mut self.commands, command);
    }

    /// Notes that an entry is not run.
    pub fn skip(&mut self, root: &str, entry: &CorpusEntry, step: CorpusStep)
        ensures
            final(self).deep_view() == old(self).deep_view().after(
                entry.deep_view(),
                skipped_record(root@, entry.deep_view().replay_command, step.reason()),
            ),
    {
        let command = skipped_command_record(
            root,
            entry.replay_command.as_str(),
            step.reason_text(),
        );
        self.record(entry, command);
    }

    /// The result of the replay.
    pub fn finish(self, duration_ms: u128) -> (r: TestRunResult)
        ensures
            r.deep_view() == self.deep_view().result(duration_ms),
    {
        let n: usize = self.commands.len();
        proof {
            law_every_entry_is_counted(self.commands.deep_view());
            assert(self.commands@.len() == self.commands.deep_view().len());
        }
        let passed: usize = count_status(&self.commands, RunStatus::Passed);
        let failed: usize = count_status(&self.commands, RunStatus::Failed);
        let skipped: usize = count_status(&self.commands, RunStatus::Skipped);
        let status = if failed > 0 {
            RunStatus::Failed
        } else if passed > 0 {
            RunStatus::Passed
        } else {
            RunStatus::Skipped
        };
        let mut quality = VerificationQuality::default();
        quality.regression.corpus_entries = passed + failed + skipped;
        quality.regression.corpus_replayed = passed + failed;
        quality.regression.corpus_passed = passed;
        quality.regression.corpus_failed = failed;
        quality.regression.corpus_skipped = skipped;
        TestRunResult {
            language: owned("corpus"),
            status,
            commands: self.commands,
            failures: self.failures,
            duration_ms,
            quality,
        }
    }
}

/// The summary of a replay.
pub open spec fn corpus_replay_document(run: TestRunResultModel) -> JsonModel {
    JsonModel::Object(
        seq![
            ("version"@, JsonModel::Number(decimal(1))),
            ("mode"@, JsonModel::Text("corpus_replay"@)),
            ("status"@, JsonModel::Text(run.status.label_text())),
            ("commands"@, JsonModel::Number(decimal(run.commands.len() as int))),
            ("passed"@, JsonModel::Number(decimal(run.quality.regression.corpus_passed as int))),
            ("failed"@, JsonModel::Number(decimal(run.quality.regression.corpus_failed as int))),
            ("skipped"@, JsonModel::Number(decimal(run.quality.regression.corpus_skipped as int))),
        ],
    )
}

fn corpus_replay_json(run: &TestRunResult) -> (r: Json)
    ensures
        r.deep_view() == corpus_replay_document(run.deep_view()),
{
    let mut members = Members::new();
    assert(run.commands@.len() == run.commands.deep_view().len());
    members.put("version", number(1));
    members.put("mode", text("corpus_replay"));
    members.put("status", text(run.status.label()));
    members.put("commands", number(run.commands.len() as u64));
    members.put("passed", number(run.quality.regression.corpus_passed as u64));
    members.put("failed", number(run.quality.regression.corpus_failed as u64));
    members.put("skipped", number(run.quality.regression.corpus_skipped as u64));
    assert(members.model() =~= corpus_replay_document(run.deep_view())->Object_0);
    members.finish()
}

/// The artifact of a replay.
pub open spec fn replay_artifact(run: TestRunResultModel) -> GeneratedArtifactModel {
    GeneratedArtifactModel {
        id: "corpus-replay"@,
        language: "corpus"@,
        kind: ArtifactKind::CorpusReplay,
        target_id: "corpus:replay"@,
        path: ".veritas/corpus/replay_result.json"@,
        contents: pretty_json(corpus_replay_document(run)),
        description: "Corpus replay execution summary"@,
        status: ArtifactStatus::Planned,
    }
}

/// The artifact of a replay.
pub fn corpus_replay_artifact(run: &TestRunResult) -> (r: GeneratedArtifact)
    ensures
        r.deep_view() == replay_artifact(run.deep_view()),
{
    GeneratedArtifact {
        id: owned("corpus-replay"),
        language: owned("corpus"),
        kind: ArtifactKind::CorpusReplay,
        target_id: owned("corpus:replay"),
        path: owned(".veritas/corpus/replay_result.json"),
        contents: pretty(&corpus_replay_json(run)),
        description: owned("Corpus replay execution summary"),
        status: ArtifactStatus::Planned,
    }
}

/// The report of a replay.
pub open spec fn replay_report(run: TestRunResultModel) -> VerificationReportModel {
    VerificationReportModel {
        project: None,
        targets: Seq::empty(),
        plan: None,
        artifacts: seq![replay_artifact(run)],
        runs: seq![run],
        coverage: Seq::empty(),
        findings: all_identified(run.failures),
        quality: no_quality(),
        suggested_next_steps: seq![
            "Promote failing corpus entries into package-owned regression tests."@,
            "Remove stale corpus metadata when replay commands are no longer valid."@,
        ],
    }
}

/// The report of a replay, with its findings identified.
pub fn replay_corpus(run: TestRunResult) -> (r: VerificationReport)
    ensures
        r.deep_view() == replay_report(run.deep_view()),
{
    let mut report = VerificationReport::empty();
    push_generated_artifact(&mut report.artifacts, corpus_replay_artifact(&run));
    report.findings = clone_failures(&run.failures);
    push_test_run_result(&mut report.runs, run);
    push_text(
        &mut report.suggested_next_steps,
        owned("Promote failing corpus entries into package-owned regression tests."),
    );
    push_text(
        &mut report.suggested_next_steps,
        owned("Remove stale corpus metadata when replay commands are no longer valid."),
    );
    assert(report.artifacts.deep_view() =~= seq![replay_artifact(run.deep_view())]);
    assert(report.runs.deep_view() =~= seq![run.deep_view()]);
    assert(report.suggested_next_steps.deep_view() =~= seq![
        "Promote failing corpus entries into package-owned regression tests."@,
        "Remove stale corpus metadata when replay commands are no longer valid."@,
    ]);
    assign_finding_ids(&mut report);
    report
}

/// Commands of cargo and go, of a subshell that changes its directory and of a file beside it
/// are run, unless the replay is dry; all others are words for a reader.
pub proof fn law_only_commands_are_run(command: Seq<char>, rest: Seq<char>)
    ensures
        corpus_step_for("cargo "@ + rest, false) == CorpusStep::Execute,
        corpus_step_for("go "@ + rest, false) == CorpusStep::Execute,
        corpus_step_for("(cd "@ + rest, false) == CorpusStep::Execute,
        corpus_step_for("./"@ + rest, false) == CorpusStep::Execute,
        corpus_step_for(command, true) != CorpusStep::Execute,
        corpus_step_for(command, true) == CorpusStep::Guidance <==> corpus_step_for(command, false)
            == CorpusStep::Guidance,
        corpus_step_for(command, false) == CorpusStep::Execute ==> {
            let words = trimmed_start(command);
            words.len() >= 2 && (words[0] == 'c' || words[0] == 'g' || words[0] == '(' || words[0]
                == '.')
        },
{
    reveal_strlit("cargo ");
    reveal_strlit("go ");
    reveal_strlit("(cd ");
    reveal_strlit("./");
    assert(trimmed_start("cargo "@ + rest) == "cargo "@ + rest);
    assert(trimmed_start("go "@ + rest) == "go "@ + rest);
    assert(trimmed_start("(cd "@ + rest) == "(cd "@ + rest);
    assert(trimmed_start("./"@ + rest) == "./"@ + rest);
    assert(("cargo "@ + rest).subrange(0, 6) =~= "cargo "@);
    assert(("go "@ + rest).subrange(0, 3) =~= "go "@);
    assert(("(cd "@ + rest).subrange(0, 4) =~= "(cd "@);
    assert(("./"@ + rest).subrange(0, 2) =~= "./"@);
    let words = trimmed_start(command);
    if starts(words, "cargo "@) {
        assert(words.subrange(0, 6)[0] == words[0]);
    }
    if starts(words, "go "@) {
        assert(words.subrange(0, 3)[0] == words[0]);
    }
    if starts(words, "(cd "@) {
        assert(words.subrange(0, 4)[0] == words[0]);
    }
    if starts(words, "./"@) {
        assert(words.subrange(0, 2)[0] == words[0]);
    }
}

} // verus!
