//! Behavioral replay: what a function did with the cases of a manifest, compared
//! with what it did before.
use vstd::prelude::*;
use vstd::utf8::encode_utf8;

use crate::api::{
    append_generated_artifacts, clone_generated_artifacts, push_failure, ArtifactKind, Failure,
    FailureModel, FailureSeverity, GeneratedArtifact, GeneratedArtifactModel, LineRange, ReproCase,
    ReproCaseModel, VerificationReport, VerificationTarget, VerificationTargetModel,
};
use crate::documents::{optional_line_range_document, optional_line_range_json};
use crate::evolution::{artifact_kind_in, artifacts_of_kind};
use crate::fields::{array_under, find_array, find_text, text_under};
use crate::findings::{plan_artifact, planned};
use crate::ids::{
    fnv1a64, fnv_hash, law_hashes_tell_bytes_apart, law_hex_digits_tell_numbers_apart, push_bytes,
};
use crate::json::{
    as_array, as_bool, as_text, at, big_number, clone_json, compact, compact_json, distinct_names,
    is_named, is_plain, is_plain_number, keeps_texts, lemma_array_model, member, member_before,
    number, number_or_null, optional_text, optional_u64, parse, parsed_json, pretty, pretty_json,
    text, text_or_null, Items, Json, JsonModel, Members,
};
use crate::number::{decimal, hex_digits, print_hex, signed_decimal};
use crate::order::{
    lemma_sorted_set_ascending, lemma_sorted_set_items, lemma_text_lt_irreflexive, sorted_set,
    text_lt, ByText,
};
use crate::quality::lemma_wide_sum;
use crate::readback::lemma_line_range_is_plain;
use crate::seqs::{cat2, cat3, cat4, lemma_take_all, lemma_take_next};
use crate::signatures::{by_name, document_in, names_of, object_by_name, read_document};
use crate::split::{join, joined, lines, lines_of, push_text};
use crate::text::{or_text, owned, same, starts, starts_with, text_or};

verus! {

// ---------------------------------------------------------------------------
// Cases and observations
// ---------------------------------------------------------------------------
/// A case of a replay: inputs for a function.
#[derive(Debug)]
pub struct BehaviorReplayCase {
    pub name: String,
    pub inputs: Vec<Json>,
    pub assertion: Option<String>,
    pub argument_tuple: bool,
}

/// The mathematical value of a `BehaviorReplayCase`.
pub struct BehaviorReplayCaseModel {
    pub name: Seq<char>,
    pub inputs: Seq<JsonModel>,
    pub assertion: Option<Seq<char>>,
    pub argument_tuple: bool,
}

impl DeepView for BehaviorReplayCase {
    type V = BehaviorReplayCaseModel;

    open spec fn deep_view(&self) -> BehaviorReplayCaseModel {
        BehaviorReplayCaseModel {
            name: self.name@,
            inputs: self.inputs.deep_view(),
            assertion: self.assertion.deep_view(),
            argument_tuple: self.argument_tuple,
        }
    }
}

/// How a plugin's replay of a case ended.
#[derive(Debug, Clone, Copy, PartialEq, Eq, Structural)]
pub enum BehaviorReplayStatus {
    Observed,
    Failed,
    Unsupported,
}

impl BehaviorReplayStatus {
    /// The name in reports and configuration files.
    pub open spec fn label_text(self) -> Seq<char> {
        match self {
            BehaviorReplayStatus::Observed => "observed"@,
            BehaviorReplayStatus::Failed => "failed"@,
            BehaviorReplayStatus::Unsupported => "unsupported"@,
        }
    }

    /// The name in reports and configuration files.
    pub fn label(self) -> (r: &'static str)
        ensures
            r@ == self.label_text(),
    {
        match self {
            BehaviorReplayStatus::Observed => "observed",
            BehaviorReplayStatus::Failed => "failed",
            BehaviorReplayStatus::Unsupported => "unsupported",
        }
    }
}

/// What a plugin saw when it replayed a case.
#[derive(Debug)]
pub struct BehaviorReplayObservation {
    pub status: BehaviorReplayStatus,
    pub output: Json,
    pub command: Option<String>,
    pub duration_ms: Option<u64>,
    pub stdout_excerpt: Option<String>,
    pub stderr_excerpt: Option<String>,
}

/// The mathematical value of a `BehaviorReplayObservation`.
pub struct BehaviorReplayObservationModel {
    pub status: BehaviorReplayStatus,
    pub output: JsonModel,
    pub command: Option<Seq<char>>,
    pub duration_ms: Option<u64>,
    pub stdout_excerpt: Option<Seq<char>>,
    pub stderr_excerpt: Option<Seq<char>>,
}

impl DeepView for BehaviorReplayObservation {
    type V = BehaviorReplayObservationModel;

    open spec fn deep_view(&self) -> BehaviorReplayObservationModel {
        BehaviorReplayObservationModel {
            status: self.status,
            output: self.output.deep_view(),
            command: self.command.deep_view(),
            duration_ms: self.duration_ms,
            stdout_excerpt: self.stdout_excerpt.deep_view(),
            stderr_excerpt: self.stderr_excerpt.deep_view(),
        }
    }
}

/// What a plugin saw of one case, by the name of the case.
#[derive(Debug)]
pub struct NamedObservation {
    pub case_name: String,
    pub observation: BehaviorReplayObservation,
}

/// The mathematical value of a `NamedObservation`.
pub struct NamedObservationModel {
    pub case_name: Seq<char>,
    pub observation: BehaviorReplayObservationModel,
}

impl DeepView for NamedObservation {
    type V = NamedObservationModel;

    open spec fn deep_view(&self) -> NamedObservationModel {
        NamedObservationModel {
            case_name: self.case_name@,
            observation: self.observation.deep_view(),
        }
    }
}

/// What is known of a target when it is replayed: its source, or why it could not be
/// read, and what the plugin saw of its cases.
#[derive(Debug)]
pub struct TargetFacts {
    pub source: String,
    pub observations: Vec<NamedObservation>,
}

/// The mathematical value of a `TargetFacts`.
pub struct TargetFactsModel {
    pub source: Seq<char>,
    pub observations: Seq<NamedObservationModel>,
}

impl DeepView for TargetFacts {
    type V = TargetFactsModel;

    open spec fn deep_view(&self) -> TargetFactsModel {
        TargetFactsModel {
            source: self.source@,
            observations: self.observations.deep_view(),
        }
    }
}

/// Copies values.
pub fn clone_values(items: &Vec<Json>) -> (r: Vec<Json>)
    ensures
        r.deep_view() == items.deep_view(),
{
    let mut out: Vec<Json> = Vec::new();
    let mut i: usize = 0;
    while i < items.len()
        invariant
            i <= items@.len(),
            out@.len() == i,
            forall|k: int| 0 <= k < i ==> (#[trigger] out@[k]).deep_view() == items@[k].deep_view(),
        decreases items@.len() - i,
    {
        out.push(clone_json(&items[i]));
        i = i + 1;
    }
    assert(out.deep_view() =~= items.deep_view());
    out
}

/// The case that a manifest holds.
pub open spec fn case_in(value: JsonModel) -> BehaviorReplayCaseModel {
    BehaviorReplayCaseModel {
        name: match as_text(at(value, "name"@)) {
            Some(name) => name,
            None => "case"@,
        },
        inputs: match as_array(at(value, "inputs"@)) {
            Some(inputs) => inputs,
            None => Seq::empty(),
        },
        assertion: as_text(at(value, "assertion"@)),
        argument_tuple: as_bool(at(value, "argument_tuple"@)) == Some(true),
    }
}

/// The case that a manifest holds.
pub fn behavior_replay_case(value: &Json) -> (r: BehaviorReplayCase)
    ensures
        r.deep_view() == case_in(value.deep_view()),
{
    let name = match find_text(value, "name") {
        Some(name) => name,
        None => owned("case"),
    };
    let inputs = match find_array(value, "inputs") {
        Some(list) => clone_values(list),
        None => {
            let none: Vec<Json> = Vec::new();
            assert(none.deep_view() =~= Seq::<JsonModel>::empty());
            none
        },
    };
    let argument_tuple = match value.get("argument_tuple") {
        Some(flag) => match flag.as_flag() {
            Some(given) => given,
            None => false,
        },
        None => false,
    };
    BehaviorReplayCase {
        name,
        inputs,
        assertion: find_text(value, "assertion"),
        argument_tuple,
    }
}

/// A list of values as a JSON array.
fn array_of(items: &Vec<Json>) -> (r: Json)
    ensures
        r.deep_view() == JsonModel::Array(items.deep_view()),
{
    let out = clone_values(items);
    proof {
        lemma_array_model(out);
        assert(out.deep_view() =~= Seq::new(out@.len(), |i: int| out@[i].deep_view()));
    }
    Json::Array(out)
}

/// A replay case as a document.
pub open spec fn case_document(replay_case: BehaviorReplayCaseModel) -> JsonModel {
    JsonModel::Object(
        seq![
            ("name"@, JsonModel::Text(replay_case.name)),
            ("inputs"@, JsonModel::Array(replay_case.inputs)),
            ("assertion"@, text_or_null(replay_case.assertion)),
            ("argument_tuple"@, JsonModel::Bool(replay_case.argument_tuple)),
        ],
    )
}

fn case_json(replay_case: &BehaviorReplayCase) -> (r: Json)
    ensures
        r.deep_view() == case_document(replay_case.deep_view()),
{
    let mut members = Members::new();
    members.put("name", text(replay_case.name.as_str()));
    members.put("inputs", array_of(&replay_case.inputs));
    members.put("assertion", optional_text(&replay_case.assertion));
    members.put("argument_tuple", Json::Bool(replay_case.argument_tuple));
    assert(members.model() =~= case_document(replay_case.deep_view())->Object_0);
    members.finish()
}

// ---------------------------------------------------------------------------
// Source
// ---------------------------------------------------------------------------
/// The lines of a list from one number to another, counted from one.
pub open spec fn lines_between(lines: Seq<Seq<char>>, range: LineRange) -> Seq<Seq<char>>
    decreases lines.len(),
{
    if lines.len() == 0 {
        Seq::empty()
    } else if range.start <= lines.len() <= range.end {
        lines_between(lines.drop_last(), range).push(lines.last())
    } else {
        lines_between(lines.drop_last(), range)
    }
}

fn cut_lines(lines: &Vec<String>, range: LineRange) -> (r: Vec<String>)
    ensures
        r.deep_view() == lines_between(lines.deep_view(), range),
{
    let ghost all = lines.deep_view();
    let mut out: Vec<String> = Vec::new();
    let mut i: usize = 0;
    assert(out.deep_view() =~= lines_between(all.take(0), range));
    while i < lines.len()
        invariant
            i <= lines@.len(),
            all == lines.deep_view(),
            out.deep_view() == lines_between(all.take(i as int), range),
        decreases lines@.len() - i,
    {
        proof {
            lemma_take_next(all, i as int);
        }
        let line = lines[i].clone();
        i = i + 1;
        if range.start <= i && i <= range.end {
            push_text(&mut out, line);
        }
    }
    proof {
        lemma_take_all(all);
    }
    out
}

/// The source of a target: its lines, where they are known and the file has them, or
/// the whole file.
pub open spec fn source_fragment(contents: Seq<char>, range: Option<LineRange>) -> Seq<char> {
    match range {
        Some(given) => {
            let cut = lines_between(lines_of(contents), given);
            if cut.len() > 0 {
                joined(cut, "\n"@)
            } else {
                contents
            }
        },
        None => contents,
    }
}

/// The source of a target in the contents of its file.
pub fn target_source_fragment(contents: &str, target: &VerificationTarget) -> (r: String)
    ensures
        r@ == source_fragment(contents@, target.line_range),
{
    if let Some(range) = target.line_range {
        let cut = cut_lines(&lines(contents), range);
        assert(cut@.len() == cut.deep_view().len());
        if cut.len() > 0 {
            return join(&cut, "\n");
        }
    }
    owned(contents)
}

// ---------------------------------------------------------------------------
// Observing
// ---------------------------------------------------------------------------
/// The value of an observation that may not be there.
pub open spec fn seen_view(seen: Option<&BehaviorReplayObservation>) -> Option<
    BehaviorReplayObservationModel,
> {
    match seen {
        Some(o) => Some(o.deep_view()),
        None => None,
    }
}

/// How an observation came about.
pub open spec fn observation_status(
    source: Seq<char>,
    seen: Option<BehaviorReplayObservationModel>,
) -> Seq<char> {
    match seen {
        Some(o) => o.status.label_text(),
        None => if starts(source, "failed to"@) {
            "missing_target"@
        } else {
            "fingerprint_only"@
        },
    }
}

fn status_words(source: &str, seen: Option<&BehaviorReplayObservation>) -> (r: String)
    ensures
        r@ == observation_status(source@, seen_view(seen)),
{
    match seen {
        Some(o) => owned(o.status.label()),
        None => if starts_with(source, "failed to") {
            owned("missing_target")
        } else {
            owned("fingerprint_only")
        },
    }
}

/// Whether an observation is of a run of the function.
pub open spec fn executed(seen: Option<BehaviorReplayObservationModel>) -> bool {
    seen matches Some(o) && o.status != BehaviorReplayStatus::Unsupported
}

/// What stands for the behavior of a function: the output of a run, or its source.
pub open spec fn behavior_text(
    source: Seq<char>,
    seen: Option<BehaviorReplayObservationModel>,
) -> Seq<char> {
    if executed(seen) {
        compact_json(seen->0.output)
    } else {
        source
    }
}

/// The bytes that identify a behavior: the language, the target, its signature, the
/// inputs and what stands for the behavior, with a zero byte between them.
pub open spec fn behavior_bytes(
    language: Seq<char>,
    target: VerificationTargetModel,
    inputs: Seq<JsonModel>,
    behavior: Seq<char>,
) -> Seq<u8> {
    encode_utf8(language).push(0) + encode_utf8(target.id).push(0) + encode_utf8(
        or_text(target.signature, ""@),
    ).push(0) + encode_utf8(compact_json(JsonModel::Array(inputs))).push(0) + encode_utf8(
        behavior,
    )
}

/// The hash of a text: sixteen hexadecimal digits.
pub open spec fn text_hash(s: Seq<char>) -> Seq<char> {
    hex_digits(fnv_hash(encode_utf8(s)) as int, 16)
}

fn hash_of_text(s: &str) -> (r: String)
    ensures
        r@ == text_hash(s@),
{
    let mut bytes: Vec<u8> = Vec::new();
    push_bytes(&mut bytes, s);
    assert(bytes@ =~= encode_utf8(s@));
    print_hex(fnv1a64(&bytes))
}

/// The hash of a behavior: sixteen hexadecimal digits.
pub open spec fn behavior_hash(
    language: Seq<char>,
    target: VerificationTargetModel,
    inputs: Seq<JsonModel>,
    behavior: Seq<char>,
) -> Seq<char> {
    hex_digits(fnv_hash(behavior_bytes(language, target, inputs, behavior)) as int, 16)
}

fn hash_of_behavior(
    language: &str,
    target: &VerificationTarget,
    inputs: &Vec<Json>,
    behavior: &str,
) -> (r: String)
    ensures
        r@ == behavior_hash(language@, target.deep_view(), inputs.deep_view(), behavior@),
{
    let mut bytes: Vec<u8> = Vec::new();
    push_bytes(&mut bytes, language);
    bytes.push(0);
    push_bytes(&mut bytes, target.id.as_str());
    bytes.push(0);
    push_bytes(&mut bytes, text_or(&target.signature, "").as_str());
    bytes.push(0);
    push_bytes(&mut bytes, compact(&array_of(inputs)).as_str());
    bytes.push(0);
    push_bytes(&mut bytes, behavior);
    assert(bytes@ =~= behavior_bytes(
        language@,
        target.deep_view(),
        inputs.deep_view(),
        behavior@,
    ));
    print_hex(fnv1a64(&bytes))
}

/// A hash has sixteen characters.
pub proof fn law_hash_length(n: int, width: nat)
    ensures
        hex_digits(n, width).len() == width,
    decreases width,
{
    if width > 0 {
        law_hash_length(n / 16, (width - 1) as nat);
    }
}

/// How an observation was made.
pub open spec fn observation_note(executed: bool) -> Seq<char> {
    if executed {
        "executable replay output fingerprint from plugin-owned harness"@
    } else {
        "stable fallback fingerprint from target source, signature, and replay inputs"@
    }
}

fn note_words(executed: bool) -> (r: &'static str)
    ensures
        r@ == observation_note(executed),
{
    if executed {
        "executable replay output fingerprint from plugin-owned harness"
    } else {
        "stable fallback fingerprint from target source, signature, and replay inputs"
    }
}

/// What is added to an observation of a plugin.
pub open spec fn plugin_members(seen: Option<BehaviorReplayObservationModel>) -> Seq<
    (Seq<char>, JsonModel),
> {
    match seen {
        Some(o) => seq![
            ("output"@, o.output),
            ("command"@, text_or_null(o.command)),
            (
                "duration_ms"@,
                number_or_null(
                    match o.duration_ms {
                        Some(n) => Some(n as int),
                        None => None,
                    },
                ),
            ),
            ("stdout_excerpt"@, text_or_null(o.stdout_excerpt)),
            ("stderr_excerpt"@, text_or_null(o.stderr_excerpt)),
        ],
        None => Seq::empty(),
    }
}

/// The observation of a case.
pub open spec fn observation_document(
    language: Seq<char>,
    target: VerificationTargetModel,
    inputs: Seq<JsonModel>,
    id: Seq<char>,
    source: Seq<char>,
    seen: Option<BehaviorReplayObservationModel>,
) -> JsonModel {
    JsonModel::Object(
        seq![
            ("id"@, JsonModel::Text(id)),
            ("status"@, JsonModel::Text(observation_status(source, seen))),
            ("target_id"@, JsonModel::Text(target.id)),
            ("path"@, JsonModel::Text(target.path)),
            ("symbol"@, text_or_null(target.symbol)),
            ("signature"@, text_or_null(target.signature)),
            ("inputs"@, JsonModel::Array(inputs)),
            (
                "behavior_hash"@,
                JsonModel::Text(
                    behavior_hash(language, target, inputs, behavior_text(source, seen)),
                ),
            ),
            ("source_hash"@, JsonModel::Text(text_hash(source))),
            ("line_range"@, optional_line_range_document(target.line_range)),
            ("observation"@, JsonModel::Text(observation_note(executed(seen)))),
        ] + plugin_members(seen),
    )
}

fn behavior_words(source: &str, seen: Option<&BehaviorReplayObservation>) -> (r: String)
    ensures
        r@ == behavior_text(source@, seen_view(seen)),
{
    match seen {
        Some(o) => if o.status != BehaviorReplayStatus::Unsupported {
            compact(&o.output)
        } else {
            owned(source)
        },
        None => owned(source),
    }
}

fn is_executed(seen: Option<&BehaviorReplayObservation>) -> (r: bool)
    ensures
        r == executed(seen_view(seen)),
{
    match seen {
        Some(o) => o.status != BehaviorReplayStatus::Unsupported,
        None => false,
    }
}

/// The observation of a case.
pub fn behavior_observation(
    language: &str,
    target: &VerificationTarget,
    replay_case: &BehaviorReplayCase,
    id: &str,
    source: &str,
    seen: Option<&BehaviorReplayObservation>,
) -> (r: Json)
    ensures
        r.deep_view() == observation_document(
            language@,
            target.deep_view(),
            replay_case.deep_view().inputs,
            id@,
            source@,
            seen_view(seen),
        ),
{
    let hash = hash_of_behavior(
        language,
        target,
        &replay_case.inputs,
        behavior_words(source, seen).as_str(),
    );
    let mut members = Members::new();
    members.put("id", text(id));
    members.put("status", text(status_words(source, seen).as_str()));
    members.put("target_id", text(target.id.as_str()));
    members.put("path", text(target.path.as_str()));
    members.put("symbol", optional_text(&target.symbol));
    members.put("signature", optional_text(&target.signature));
    members.put("inputs", array_of(&replay_case.inputs));
    members.put("behavior_hash", text(hash.as_str()));
    members.put("source_hash", text(hash_of_text(source).as_str()));
    members.put("line_range", optional_line_range_json(&target.line_range));
    members.put("observation", text(note_words(is_executed(seen))));
    if let Some(o) = seen {
        members.put("output", clone_json(&o.output));
        members.put("command", optional_text(&o.command));
        members.put("duration_ms", optional_u64(o.duration_ms));
        members.put("stdout_excerpt", optional_text(&o.stdout_excerpt));
        members.put("stderr_excerpt", optional_text(&o.stderr_excerpt));
    }
    assert(members.model() =~= observation_document(
        language@,
        target.deep_view(),
        replay_case.deep_view().inputs,
        id@,
        source@,
        seen_view(seen),
    )->Object_0);
    members.finish()
}

// ---------------------------------------------------------------------------
// Comparing
// ---------------------------------------------------------------------------
/// The hash that an earlier observation has.
pub open spec fn recorded_hash(previous: Option<JsonModel>) -> Option<Seq<char>> {
    match previous {
        Some(value) => text_under(value, "behavior_hash"@),
        None => None,
    }
}

/// How a behavior compares with an earlier observation.
#[derive(Clone, Copy, PartialEq, Eq, Structural)]
pub enum ReplayOutcome {
    Unchanged,
    Changed,
    New,
}

impl ReplayOutcome {
    /// The name of an outcome in documents.
    pub open spec fn label_text(self) -> Seq<char> {
        match self {
            ReplayOutcome::Unchanged => "unchanged"@,
            ReplayOutcome::Changed => "changed"@,
            ReplayOutcome::New => "new"@,
        }
    }

    /// The name in reports and configuration files.
    pub fn label(self) -> (r: &'static str)
        ensures
            r@ == self.label_text(),
    {
        match self {
            ReplayOutcome::Unchanged => "unchanged",
            ReplayOutcome::Changed => "changed",
            ReplayOutcome::New => "new",
        }
    }
}

/// How a behavior compares with an earlier observation, by the two hashes.
pub open spec fn compared(previous: Option<JsonModel>, hash: Seq<char>) -> ReplayOutcome {
    match recorded_hash(previous) {
        Some(earlier) => if earlier == hash {
            ReplayOutcome::Unchanged
        } else {
            ReplayOutcome::Changed
        },
        None => ReplayOutcome::New,
    }
}

/// How a behavior compares with an earlier observation.
pub fn compare_behavior(previous: Option<&Json>, hash: &str) -> (r: ReplayOutcome)
    ensures
        r == compared(json_view(previous), hash@),
{
    match previous {
        Some(value) => match find_text(value, "behavior_hash") {
            Some(earlier) => if same(earlier.as_str(), hash) {
                ReplayOutcome::Unchanged
            } else {
                ReplayOutcome::Changed
            },
            None => ReplayOutcome::New,
        },
        None => ReplayOutcome::New,
    }
}

/// The value of a document that may not be there.
pub open spec fn json_view(value: Option<&Json>) -> Option<JsonModel> {
    match value {
        Some(v) => Some(v.deep_view()),
        None => None,
    }
}

/// The message of a drift.
pub open spec fn drift_message_text(id: Seq<char>, case_name: Seq<char>) -> Seq<char> {
    let t = "behavioral replay drift for `"@ + id + "` case `"@ + case_name + "`"@;
    t
}

fn drift_message(id: &str, case_name: &str) -> (r: String)
    ensures
        r@ == drift_message_text(id@, case_name@),
{
    let mut out = owned("behavioral replay drift for `");
    out.append(id);
    out.append("` case `");
    out.append(case_name);
    out.append("`");
    out
}

/// How to deal with a drift.
pub open spec fn drift_review_text(id: Seq<char>, case_name: Seq<char>) -> Seq<char> {
    let t = "review behavior drift for `"@
        + id
        + "` case `"@
        + case_name
        + "` and promote or accept the baseline"@;
    t
}

fn drift_review(id: &str, case_name: &str) -> (r: String)
    ensures
        r@ == drift_review_text(id@, case_name@),
{
    let mut out = owned("review behavior drift for `");
    out.append(id);
    out.append("` case `");
    out.append(case_name);
    out.append("` and promote or accept the baseline");
    out
}

/// The path of the behavior baseline of a language.
pub open spec fn behavior_baseline_path(language: Seq<char>) -> Seq<char> {
    ".veritas/baselines/"@ + language + "_behavior.json"@
}

/// The path of the behavior baseline of a language.
pub fn baseline_path(language: &str) -> (r: String)
    ensures
        r@ == behavior_baseline_path(language@),
{
    cat3(".veritas/baselines/", language, "_behavior.json")
}

/// The finding on a behavior that changed.
pub open spec fn drift_failure(
    language: Seq<char>,
    target: VerificationTargetModel,
    case_name: Seq<char>,
    previous: Option<JsonModel>,
    inputs: Seq<JsonModel>,
    hash: Seq<char>,
) -> FailureModel {
    FailureModel {
        id: None,
        message: drift_message_text(target.id, case_name),
        severity: FailureSeverity::Warning,
        target_id: Some(target.id),
        artifact_id: Some(language + "-differential-replay-result"@),
        command: "veritas verify --lang "@ + language + " --target "@ + target.path,
        stdout_excerpt: "previous: "@ + or_text(recorded_hash(previous), "missing"@)
            + "\ncurrent: "@ + hash,
        stderr_excerpt: Seq::empty(),
        repro: Some(
            ReproCaseModel {
                command: drift_review_text(target.id, case_name),
                input: Some(compact_json(JsonModel::Array(inputs))),
                path: Some(behavior_baseline_path(language)),
            },
        ),
    }
}

/// The finding on a behavior that changed.
pub fn behavior_drift_failure(
    language: &str,
    target: &VerificationTarget,
    replay_case: &BehaviorReplayCase,
    previous: Option<&Json>,
    hash: &str,
) -> (r: Failure)
    ensures
        r.deep_view() == drift_failure(
            language@,
            target.deep_view(),
            replay_case.deep_view().name,
            json_view(previous),
            replay_case.deep_view().inputs,
            hash@,
        ),
{
    let earlier = match previous {
        Some(value) => find_text(value, "behavior_hash"),
        None => None,
    };
    let stderr_excerpt = String::new();
    assert(stderr_excerpt@ =~= Seq::<char>::empty());
    Failure {
        id: None,
        message: drift_message(target.id.as_str(), replay_case.name.as_str()),
        severity: FailureSeverity::Warning,
        target_id: Some(target.id.clone()),
        artifact_id: Some(cat2(language, "-differential-replay-result")),
        command: cat4("veritas verify --lang ", language, " --target ", target.path.as_str()),
        stdout_excerpt: cat4(
            "previous: ",
            text_or(&earlier, "missing").as_str(),
            "\ncurrent: ",
            hash,
        ),
        stderr_excerpt,
        repro: Some(
            ReproCase {
                command: drift_review(target.id.as_str(), replay_case.name.as_str()),
                input: Some(compact(&array_of(&replay_case.inputs))),
                path: Some(baseline_path(language)),
            },
        ),
    }
}

/// The earlier observation of a comparison, or null.
pub open spec fn value_or_null(value: Option<JsonModel>) -> JsonModel {
    match value {
        Some(v) => v,
        None => JsonModel::Null,
    }
}

fn optional_value(value: Option<&Json>) -> (r: Json)
    ensures
        r.deep_view() == value_or_null(json_view(value)),
{
    match value {
        Some(v) => clone_json(v),
        None => Json::Null,
    }
}

/// The comparison of a case with an earlier observation.
pub open spec fn comparison_document(
    id: Seq<char>,
    target_id: Seq<char>,
    replay_case: BehaviorReplayCaseModel,
    outcome: ReplayOutcome,
    previous: Option<JsonModel>,
    current: JsonModel,
) -> JsonModel {
    JsonModel::Object(
        seq![
            ("id"@, JsonModel::Text(id)),
            ("target_id"@, JsonModel::Text(target_id)),
            ("case"@, case_document(replay_case)),
            ("outcome"@, JsonModel::Text(outcome.label_text())),
            ("previous"@, value_or_null(previous)),
            ("current"@, current),
        ],
    )
}

fn comparison_json(
    id: &str,
    target_id: &str,
    replay_case: &BehaviorReplayCase,
    outcome: ReplayOutcome,
    previous: Option<&Json>,
    current: &Json,
) -> (r: Json)
    ensures
        r.deep_view() == comparison_document(id@, target_id@, replay_case.deep_view(), outcome, json_view(previous), current.deep_view()),
{
    let mut members = Members::new();
    members.put("id", text(id));
    members.put("target_id", text(target_id));
    members.put("case", case_json(replay_case));
    members.put("outcome", text(outcome.label()));
    members.put("previous", optional_value(previous));
    members.put("current", clone_json(current));
    assert(members.model() =~= comparison_document(id@, target_id@, replay_case.deep_view(), outcome, json_view(previous), current.deep_view())->Object_0);
    members.finish()
}

// ---------------------------------------------------------------------------
// The log of a replay
// ---------------------------------------------------------------------------
/// What a replay has seen.
pub struct ReplayLog {
    pub observations: Members,
    pub comparisons: Items,
    pub failures: Vec<Failure>,
}

/// The mathematical value of a `ReplayLog`.
pub struct ReplayLogModel {
    pub observations: Seq<(Seq<char>, JsonModel)>,
    pub comparisons: Seq<JsonModel>,
    pub failures: Seq<FailureModel>,
}

impl DeepView for ReplayLog {
    type V = ReplayLogModel;

    open spec fn deep_view(&self) -> ReplayLogModel {
        ReplayLogModel {
            observations: self.observations.model(),
            comparisons: self.comparisons.model(),
            failures: self.failures.deep_view(),
        }
    }
}

/// A log of nothing.
pub open spec fn empty_log() -> ReplayLogModel {
    ReplayLogModel {
        observations: Seq::empty(),
        comparisons: Seq::empty(),
        failures: Seq::empty(),
    }
}

/// What the plugin saw of a case: the last of what it says under the name.
pub open spec fn seen_of(observations: Seq<NamedObservationModel>, name: Seq<char>) -> Option<
    BehaviorReplayObservationModel,
>
    decreases observations.len(),
{
    if observations.len() == 0 {
        None
    } else if observations.last().case_name == name {
        Some(observations.last().observation)
    } else {
        seen_of(observations.drop_last(), name)
    }
}

fn find_seen<'a>(observations: &'a Vec<NamedObservation>, name: &str) -> (r: Option<
    &'a BehaviorReplayObservation,
>)
    ensures
        seen_view(r) == seen_of(observations.deep_view(), name@),
{
    let ghost all = observations.deep_view();
    let mut i: usize = observations.len();
    proof {
        lemma_take_all(all);
    }
    while i > 0
        invariant
            i <= observations@.len(),
            all == observations.deep_view(),
            seen_of(all, name@) == seen_of(all.take(i as int), name@),
        decreases i,
    {
        proof {
            lemma_take_next(all, i - 1);
        }
        assert(all[i - 1] == observations@[i - 1].deep_view());
        if same(observations[i - 1].case_name.as_str(), name) {
            return Some(&observations[i - 1].observation);
        }
        i = i - 1;
    }
    None
}

/// The log after a case of a target.
pub open spec fn after_case(
    log: ReplayLogModel,
    language: Seq<char>,
    target: VerificationTargetModel,
    facts: TargetFactsModel,
    previous: JsonModel,
    replay_case: BehaviorReplayCaseModel,
) -> ReplayLogModel {
    let id = target.id + "::"@ + replay_case.name;
    let seen = seen_of(facts.observations, replay_case.name);
    let current = observation_document(
        language,
        target,
        replay_case.inputs,
        id,
        facts.source,
        seen,
    );
    let hash = behavior_hash(
        language,
        target,
        replay_case.inputs,
        behavior_text(facts.source, seen),
    );
    let earlier = member(previous, id);
    let outcome = compared(earlier, hash);
    ReplayLogModel {
        observations: log.observations.push((id, current)),
        comparisons: log.comparisons.push(
            comparison_document(id, target.id, replay_case, outcome, earlier, current),
        ),
        failures: if outcome == ReplayOutcome::Changed {
            log.failures.push(
                drift_failure(
                    language,
                    target,
                    replay_case.name,
                    earlier,
                    replay_case.inputs,
                    hash,
                ),
            )
        } else {
            log.failures
        },
    }
}

fn log_case(
    log: &mut ReplayLog,
    language: &str,
    target: &VerificationTarget,
    facts: &TargetFacts,
    previous: &Json,
    replay_case: &BehaviorReplayCase,
)
    ensures
        final(log).deep_view() == after_case(
            old(log).deep_view(),
            language@,
            target.deep_view(),
            facts.deep_view(),
            previous.deep_view(),
            replay_case.deep_view(),
        ),
{
    let id = cat3(target.id.as_str(), "::", replay_case.name.as_str());
    let seen = find_seen(&facts.observations, replay_case.name.as_str());
    let current = behavior_observation(
        language,
        target,
        replay_case,
        id.as_str(),
        facts.source.as_str(),
        seen,
    );
    let hash = hash_of_behavior(
        language,
        target,
        &replay_case.inputs,
        behavior_words(facts.source.as_str(), seen).as_str(),
    );
    let earlier = previous.get(id.as_str());
    let outcome = compare_behavior(earlier, hash.as_str());
    if outcome == ReplayOutcome::Changed {
        push_failure(
            &mut log.failures,
            behavior_drift_failure(language, target, replay_case, earlier, hash.as_str()),
        );
    }
    log.comparisons.put(
        comparison_json(id.as_str(), target.id.as_str(), replay_case, outcome, earlier, &current),
    );
    log.observations.put(id.as_str(), current);
}

/// The log after the cases of a target.
pub open spec fn after_cases(
    log: ReplayLogModel,
    language: Seq<char>,
    target: VerificationTargetModel,
    facts: TargetFactsModel,
    previous: JsonModel,
    cases: Seq<JsonModel>,
) -> ReplayLogModel
    decreases cases.len(),
{
    if cases.len() == 0 {
        log
    } else {
        after_case(
            after_cases(log, language, target, facts, previous, cases.drop_last()),
            language,
            target,
            facts,
            previous,
            case_in(cases.last()),
        )
    }
}

fn log_cases(
    log: &mut ReplayLog,
    language: &str,
    target: &VerificationTarget,
    facts: &TargetFacts,
    previous: &Json,
    cases: &Vec<Json>,
)
    ensures
        final(log).deep_view() == after_cases(
            old(log).deep_view(),
            language@,
            target.deep_view(),
            facts.deep_view(),
            previous.deep_view(),
            cases.deep_view(),
        ),
{
    let ghost before = log.deep_view();
    let ghost all = cases.deep_view();
    let mut i: usize = 0;
    assert(all.take(0).len() == 0);
    while i < cases.len()
        invariant
            i <= cases@.len(),
            all == cases.deep_view(),
            log.deep_view() == after_cases(
                before,
                language@,
                target.deep_view(),
                facts.deep_view(),
                previous.deep_view(),
                all.take(i as int),
            ),
        decreases cases@.len() - i,
    {
        proof {
            lemma_take_next(all, i as int);
        }
        let replay_case = behavior_replay_case(&cases[i]);
        log_case(log, language, target, facts, previous, &replay_case);
        i = i + 1;
    }
    proof {
        lemma_take_all(all);
    }
}

/// The place of the last target with an id.
pub open spec fn last_target(targets: Seq<VerificationTargetModel>, id: Seq<char>) -> Option<int>
    decreases targets.len(),
{
    if targets.len() == 0 {
        None
    } else if targets.last().id == id {
        Some(targets.len() - 1)
    } else {
        last_target(targets.drop_last(), id)
    }
}

/// The place of the last target with an id.
pub fn find_last_target(targets: &Vec<VerificationTarget>, id: &str) -> (r: Option<usize>)
    ensures
        r matches Some(i) ==> i < targets@.len() && last_target(targets.deep_view(), id@) == Some(
            i as int,
        ),
        r is None ==> last_target(targets.deep_view(), id@) is None,
{
    let ghost all = targets.deep_view();
    let mut i: usize = targets.len();
    proof {
        lemma_take_all(all);
    }
    while i > 0
        invariant
            i <= targets@.len(),
            all == targets.deep_view(),
            last_target(all, id@) == last_target(all.take(i as int), id@),
        decreases i,
    {
        proof {
            lemma_take_next(all, i - 1);
        }
        assert(all[i - 1] == targets@[i - 1].deep_view());
        if same(targets[i - 1].id.as_str(), id) {
            return Some(i - 1);
        }
        i = i - 1;
    }
    None
}

/// What is known of the target at a place.
pub open spec fn facts_at(facts: Seq<TargetFactsModel>, i: int) -> TargetFactsModel {
    if 0 <= i < facts.len() {
        facts[i]
    } else {
        TargetFactsModel { source: Seq::empty(), observations: Seq::empty() }
    }
}

/// The id of the target of an entry of a manifest.
pub open spec fn entry_target(entry: JsonModel) -> Seq<char> {
    or_text(text_under(entry, "target_id"@), ""@)
}

/// The cases of an entry of a manifest.
pub open spec fn entry_cases(entry: JsonModel) -> Seq<JsonModel> {
    match array_under(entry, "cases"@) {
        Some(cases) => cases,
        None => Seq::empty(),
    }
}

/// The log after an entry of a manifest.
pub open spec fn after_entry(
    log: ReplayLogModel,
    language: Seq<char>,
    targets: Seq<VerificationTargetModel>,
    facts: Seq<TargetFactsModel>,
    previous: JsonModel,
    entry: JsonModel,
) -> ReplayLogModel {
    match last_target(targets, entry_target(entry)) {
        Some(i) => after_cases(
            log,
            language,
            targets[i],
            facts_at(facts, i),
            previous,
            entry_cases(entry),
        ),
        None => log,
    }
}

fn log_entry(
    log: &mut ReplayLog,
    language: &str,
    targets: &Vec<VerificationTarget>,
    facts: &Vec<TargetFacts>,
    previous: &Json,
    entry: &Json,
)
    ensures
        final(log).deep_view() == after_entry(
            old(log).deep_view(),
            language@,
            targets.deep_view(),
            facts.deep_view(),
            previous.deep_view(),
            entry.deep_view(),
        ),
{
    let id = match find_text(entry, "target_id") {
        Some(id) => id,
        None => owned(""),
    };
    if let Some(i) = find_last_target(targets, id.as_str()) {
        assert(targets.deep_view()[i as int] == targets@[i as int].deep_view());
        match find_array(entry, "cases") {
            Some(cases) => {
                if i < facts.len() {
                    assert(facts.deep_view()[i as int] == facts@[i as int].deep_view());
                    log_cases(log, language, &targets[i], &facts[i], previous, cases);
                } else {
                    let none = TargetFacts { source: String::new(), observations: Vec::new() };
                    assert(none.source@ =~= Seq::<char>::empty());
                    assert(none.observations.deep_view() =~= Seq::empty());
                    log_cases(log, language, &targets[i], &none, previous, cases);
                }
            },
            None => {},
        }
    }
}

/// The log after the entries of a manifest.
pub open spec fn after_entries(
    log: ReplayLogModel,
    language: Seq<char>,
    targets: Seq<VerificationTargetModel>,
    facts: Seq<TargetFactsModel>,
    previous: JsonModel,
    entries: Seq<JsonModel>,
) -> ReplayLogModel
    decreases entries.len(),
{
    if entries.len() == 0 {
        log
    } else {
        after_entry(
            after_entries(log, language, targets, facts, previous, entries.drop_last()),
            language,
            targets,
            facts,
            previous,
            entries.last(),
        )
    }
}

fn log_entries(
    log: &mut ReplayLog,
    language: &str,
    targets: &Vec<VerificationTarget>,
    facts: &Vec<TargetFacts>,
    previous: &Json,
    entries: &Vec<Json>,
)
    ensures
        final(log).deep_view() == after_entries(
            old(log).deep_view(),
            language@,
            targets.deep_view(),
            facts.deep_view(),
            previous.deep_view(),
            entries.deep_view(),
        ),
{
    let ghost before = log.deep_view();
    let ghost all = entries.deep_view();
    let mut i: usize = 0;
    assert(all.take(0).len() == 0);
    while i < entries.len()
        invariant
            i <= entries@.len(),
            all == entries.deep_view(),
            log.deep_view() == after_entries(
                before,
                language@,
                targets.deep_view(),
                facts.deep_view(),
                previous.deep_view(),
                all.take(i as int),
            ),
        decreases entries@.len() - i,
    {
        proof {
            lemma_take_next(all, i as int);
        }
        log_entry(log, language, targets, facts, previous, &entries[i]);
        i = i + 1;
    }
    proof {
        lemma_take_all(all);
    }
}

// ---------------------------------------------------------------------------
// Manifests
// ---------------------------------------------------------------------------
/// The documents of the replay manifests among artifacts.
pub open spec fn manifest_values(items: Seq<GeneratedArtifactModel>) -> Seq<JsonModel>
    decreases items.len(),
{
    if items.len() == 0 {
        Seq::empty()
    } else {
        let before = manifest_values(items.drop_last());
        match manifest_value(items.last()) {
            Some(one) => before.push(one),
            None => before,
        }
    }
}

/// The JSON documents of manifest records.
pub fn manifest_documents(items: &Vec<GeneratedArtifact>) -> (r: Vec<Json>)
    ensures
        r.deep_view() == manifest_values(items.deep_view()),
{
    let mut out: Vec<Json> = Vec::new();
    let ghost all = items.deep_view();
    let mut i: usize = 0;
    assert(out.deep_view() == manifest_values(all.take(0)));
    while i < items.len()
        invariant
            i <= items@.len(),
            all == items.deep_view(),
            out.deep_view() == manifest_values(all.take(i as int)),
        decreases items@.len() - i,
    {
        proof {
            lemma_take_next(all, i as int);
        }
        match read_manifest(&items[i]) {
            Some(one) => {
                push_value(&mut out, one);
            },
            None => {},
        }
        i = i + 1;
    }
    proof {
        lemma_take_all(all);
    }
    out
}

/// The document of an artifact, where it is a replay manifest.
pub open spec fn manifest_value(artifact: GeneratedArtifactModel) -> Option<JsonModel> {
    if artifact.kind == ArtifactKind::DifferentialReplay {
        parsed_json(artifact.contents)
    } else {
        None
    }
}

fn read_manifest(artifact: &GeneratedArtifact) -> (r: Option<Json>)
    ensures
        r.deep_view() == manifest_value(artifact.deep_view()),
{
    if artifact.kind == ArtifactKind::DifferentialReplay {
        parse(artifact.contents.as_str())
    } else {
        None
    }
}

fn push_value(items: &mut Vec<Json>, value: Json)
    ensures
        final(items).deep_view() == old(items).deep_view().push(value.deep_view()),
{
    let ghost before = items.deep_view();
    items.push(value);
    assert(items.deep_view() =~= before.push(value.deep_view()));
}

/// The entries of a manifest.
pub open spec fn entries_of(manifest: JsonModel) -> Seq<JsonModel> {
    match array_under(manifest, "targets"@) {
        Some(entries) => entries,
        None => Seq::empty(),
    }
}

/// How many entries manifests have.
pub open spec fn entry_count(manifests: Seq<JsonModel>) -> int
    decreases manifests.len(),
{
    if manifests.len() == 0 {
        0
    } else {
        entry_count(manifests.drop_last()) + entries_of(manifests.last()).len()
    }
}

/// The log after manifests.
pub open spec fn after_manifests(
    language: Seq<char>,
    targets: Seq<VerificationTargetModel>,
    facts: Seq<TargetFactsModel>,
    previous: JsonModel,
    manifests: Seq<JsonModel>,
) -> ReplayLogModel
    decreases manifests.len(),
{
    if manifests.len() == 0 {
        empty_log()
    } else {
        after_entries(
            after_manifests(language, targets, facts, previous, manifests.drop_last()),
            language,
            targets,
            facts,
            previous,
            entries_of(manifests.last()),
        )
    }
}

fn log_manifests(
    language: &str,
    targets: &Vec<VerificationTarget>,
    facts: &Vec<TargetFacts>,
    previous: &Json,
    manifests: &Vec<Json>,
) -> (r: (ReplayLog, u128))
    ensures
        r.0.deep_view() == after_manifests(
            language@,
            targets.deep_view(),
            facts.deep_view(),
            previous.deep_view(),
            manifests.deep_view(),
        ),
        r.1 == entry_count(manifests.deep_view()),
{
    let ghost all = manifests.deep_view();
    let mut log = ReplayLog {
        observations: Members::new(),
        comparisons: Items::new(),
        failures: Vec::new(),
    };
    assert(log.failures.deep_view() =~= Seq::<FailureModel>::empty());
    let mut total: u128 = 0;
    let mut i: usize = 0;
    assert(all.take(0).len() == 0);
    while i < manifests.len()
        invariant
            i <= manifests@.len(),
            all == manifests.deep_view(),
            log.deep_view() == after_manifests(
                language@,
                targets.deep_view(),
                facts.deep_view(),
                previous.deep_view(),
                all.take(i as int),
            ),
            total == entry_count(all.take(i as int)),
            total <= i * usize::MAX,
        decreases manifests@.len() - i,
    {
        proof {
            lemma_take_next(all, i as int);
        }
        match find_array(&manifests[i], "targets") {
            Some(entries) => {
                assert(entries@.len() == entries.deep_view().len());
                proof {
                    lemma_wide_sum(total, i, entries@.len() as usize);
                }
                total = total + entries.len() as u128;
                log_entries(&mut log, language, targets, facts, previous, entries);
            },
            None => {
                proof {
                    lemma_wide_sum(total, i, 0);
                }
            },
        }
        i = i + 1;
    }
    proof {
        lemma_take_all(all);
    }
    (log, total)
}

// ---------------------------------------------------------------------------
// Results
// ---------------------------------------------------------------------------
/// The behavior baseline after a replay.
pub open spec fn baseline_document(
    language: Seq<char>,
    observations: Seq<(Seq<char>, JsonModel)>,
) -> JsonModel {
    JsonModel::Object(
        seq![
            ("version"@, JsonModel::Number(decimal(1))),
            ("language"@, JsonModel::Text(language)),
            ("mode"@, JsonModel::Text("behavioral_replay_baseline"@)),
            ("observations"@, JsonModel::Object(by_name(observations))),
        ],
    )
}

fn baseline_json(language: &str, observations: Members) -> (r: Json)
    ensures
        r.deep_view() == baseline_document(language@, observations.model()),
{
    let ghost seen = observations.model();
    let mut members = Members::new();
    members.put("version", number(1));
    members.put("language", text(language));
    members.put("mode", text("behavioral_replay_baseline"));
    members.put("observations", object_by_name(observations));
    assert(members.model() =~= baseline_document(language@, seen)->Object_0);
    members.finish()
}

/// Whether behavior changed, in words.
pub open spec fn drift_status(changed: int) -> Seq<char> {
    if changed == 0 {
        "unchanged_or_new"@
    } else {
        "changed"@
    }
}

/// The result of a replay.
pub open spec fn result_document(
    language: Seq<char>,
    manifests: int,
    targets: int,
    log: ReplayLogModel,
) -> JsonModel {
    JsonModel::Object(
        seq![
            ("version"@, JsonModel::Number(decimal(1))),
            ("language"@, JsonModel::Text(language)),
            ("mode"@, JsonModel::Text("differential_replay_result"@)),
            ("manifests"@, JsonModel::Number(decimal(manifests))),
            ("targets"@, JsonModel::Number(decimal(targets))),
            ("cases"@, JsonModel::Number(decimal(log.comparisons.len() as int))),
            ("changed"@, JsonModel::Number(decimal(log.failures.len() as int))),
            ("status"@, JsonModel::Text(drift_status(log.failures.len() as int))),
            ("comparisons"@, JsonModel::Array(log.comparisons)),
            (
                "next_step"@,
                JsonModel::Text(
                    "Review changed observations, promote intentional behavior into assertions, or accept the updated behavior baseline after review."@,
                ),
            ),
        ],
    )
}

fn result_json(
    language: &str,
    manifests: usize,
    targets: u128,
    comparisons: Items,
    changed: usize,
    Ghost(log): Ghost<ReplayLogModel>,
) -> (r: Json)
    requires
        comparisons.model() == log.comparisons,
        changed == log.failures.len(),
    ensures
        r.deep_view() == result_document(language@, manifests as int, targets as int, log),
{
    let cases: usize = comparisons.list.len();
    let mut members = Members::new();
    members.put("version", number(1));
    members.put("language", text(language));
    members.put("mode", text("differential_replay_result"));
    members.put("manifests", number(manifests as u64));
    members.put("targets", big_number(targets));
    members.put("cases", number(cases as u64));
    members.put("changed", number(changed as u64));
    members.put(
        "status",
        text(
            if changed == 0 {
                "unchanged_or_new"
            } else {
                "changed"
            },
        ),
    );
    members.put("comparisons", comparisons.finish());
    members.put(
        "next_step",
        text("Review changed observations, promote intentional behavior into assertions, or accept the updated behavior baseline after review."),
    );
    assert(members.model() =~= result_document(
        language@,
        manifests as int,
        targets as int,
        log,
    )->Object_0);
    members.finish()
}

/// The earlier observations of a baseline document.
pub open spec fn earlier_observations(baseline: Option<JsonModel>) -> JsonModel {
    match baseline {
        Some(value) => at(value, "observations"@),
        None => JsonModel::Null,
    }
}

/// The artifacts of a replay: the new baseline and the result.
pub open spec fn replay_artifacts_of(
    language: Seq<char>,
    manifests: int,
    targets: int,
    log: ReplayLogModel,
) -> Seq<GeneratedArtifactModel> {
    seq![
        planned(
            language + "-behavior-baseline"@,
            language,
            ArtifactKind::DifferentialBaseline,
            language + ":project"@,
            behavior_baseline_path(language),
            pretty_json(baseline_document(language, log.observations)),
            "Behavioral replay baseline for selected public APIs"@,
        ),
        planned(
            language + "-differential-replay-result"@,
            language,
            ArtifactKind::ReplayResult,
            language + ":differential"@,
            ".veritas/differential/"@ + language + "_result.json"@,
            pretty_json(result_document(language, manifests, targets, log)),
            "Differential replay comparison summary for selected public APIs"@,
        ),
    ]
}

/// Whether observations are ordinary values, which are read back as they were written.
pub open spec fn plain_observations(observations: Seq<(Seq<char>, JsonModel)>) -> bool {
    forall|i: int| 0 <= i < observations.len() ==> is_plain((#[trigger] observations[i]).1, 98)
}

/// Whether no object in observations has a name twice, and nothing in them is too deep to be
/// read.
pub open spec fn named_observations(observations: Seq<(Seq<char>, JsonModel)>) -> bool {
    forall|i: int| 0 <= i < observations.len() ==> is_named((#[trigger] observations[i]).1, 98)
}

/// Whether a text has the texts of a document, wherever it is read at all.
pub open spec fn baseline_kept(contents: Seq<char>, document: JsonModel) -> bool {
    parsed_json(contents) matches Some(read) ==> keeps_texts(document, read, 100)
}

proof fn lemma_last_value_is_named(
    members: Seq<(Seq<char>, JsonModel)>,
    name: Seq<char>,
    n: int,
)
    requires
        named_observations(members),
        0 <= n <= members.len(),
    ensures
        member_before(members, name, n) matches Some(value) ==> is_named(value, 98),
    decreases n,
{
    if n > 0 {
        lemma_last_value_is_named(members, name, n - 1);
        assert(is_named(members[n - 1].1, 98));
    }
}

proof fn lemma_baseline_is_named(language: Seq<char>, observations: Seq<(Seq<char>, JsonModel)>)
    requires
        named_observations(observations),
    ensures
        is_named(baseline_document(language, observations), 100),
{
    let held = by_name(observations);
    let keys = sorted_set::<ByText>(names_of(observations));
    lemma_by_name_is_distinct(observations);
    assert forall|i: int| 0 <= i < held.len() implies is_named((#[trigger] held[i]).1, 98) by {
        lemma_last_value_is_named(observations, keys[i], observations.len() as int);
    }
    assert(is_named(JsonModel::Object(held), 99));
    let members = baseline_document(language, observations)->Object_0;
    lemma_baseline_names(language, observations);
    assert forall|i: int| 0 <= i < members.len() implies is_named((#[trigger] members[i]).1, 99) by {
        assert(i == 0 || i == 1 || i == 2 || i == 3);
    }
}

proof fn lemma_by_name_is_distinct(members: Seq<(Seq<char>, JsonModel)>)
    ensures
        distinct_names(by_name(members)),
{
    let held = by_name(members);
    let keys = sorted_set::<ByText>(names_of(members));
    lemma_sorted_set_ascending::<ByText>(names_of(members));
    assert forall|i: int, j: int| 0 <= i < j < held.len() implies (#[trigger] held[i]).0 != (
    #[trigger] held[j]).0 by {
        assert(text_lt(keys[i], keys[j]));
        lemma_text_lt_irreflexive(keys[i]);
    }
}

proof fn lemma_baseline_names(language: Seq<char>, observations: Seq<(Seq<char>, JsonModel)>)
    ensures
        distinct_names(baseline_document(language, observations)->Object_0),
        member(baseline_document(language, observations), "observations"@) == Some(
            JsonModel::Object(by_name(observations)),
        ),
{
    reveal_strlit("version");
    reveal_strlit("language");
    reveal_strlit("mode");
    reveal_strlit("observations");
    assert("version"@.len() == 7);
    assert("language"@.len() == 8);
    assert("mode"@.len() == 4);
    assert("observations"@.len() == 12);
    let members = baseline_document(language, observations)->Object_0;
    assert(members[3].0 == "observations"@);
    reveal_with_fuel(member_before, 2);
}

proof fn lemma_last_value_is_plain(
    members: Seq<(Seq<char>, JsonModel)>,
    name: Seq<char>,
    n: int,
)
    requires
        plain_observations(members),
        0 <= n <= members.len(),
    ensures
        member_before(members, name, n) matches Some(value) ==> is_plain(value, 98),
    decreases n,
{
    if n > 0 {
        lemma_last_value_is_plain(members, name, n - 1);
        assert(is_plain(members[n - 1].1, 98));
    }
}

proof fn lemma_baseline_is_plain(language: Seq<char>, observations: Seq<(Seq<char>, JsonModel)>)
    requires
        plain_observations(observations),
    ensures
        is_plain(baseline_document(language, observations), 100),
{
    let held = by_name(observations);
    let keys = sorted_set::<ByText>(names_of(observations));
    lemma_by_name_is_distinct(observations);
    assert forall|i: int| 0 <= i < held.len() implies is_plain((#[trigger] held[i]).1, 98) by {
        lemma_last_value_is_plain(observations, keys[i], observations.len() as int);
    }
    assert(is_plain(JsonModel::Object(held), 99));
    let members = baseline_document(language, observations)->Object_0;
    lemma_baseline_names(language, observations);
    assert(is_plain_number(decimal(1))) by {
        assert(decimal(1) == signed_decimal(1));
    }
    assert forall|i: int| 0 <= i < members.len() implies is_plain((#[trigger] members[i]).1, 99) by {
        assert(i == 0 || i == 1 || i == 2 || i == 3);
    }
}

/// Replays manifests against an earlier baseline: the artifacts, and a finding for
/// each behavior that changed. `facts` holds what is known of each target; `count`
/// is the number of manifests, those among them that cannot be read too.
pub fn replay_manifests(
    language: &str,
    targets: &Vec<VerificationTarget>,
    facts: &Vec<TargetFacts>,
    baseline: &Option<Json>,
    manifests: &Vec<Json>,
    count: usize,
) -> (r: (Vec<GeneratedArtifact>, Vec<Failure>))
    ensures
        ({
            let log = after_manifests(
                language@,
                targets.deep_view(),
                facts.deep_view(),
                earlier_observations(baseline.deep_view()),
                manifests.deep_view(),
            );
            &&& r.0.deep_view() == replay_artifacts_of(
                language@,
                count as int,
                entry_count(manifests.deep_view()),
                log,
            )
            &&& r.1.deep_view() == log.failures
            &&& plain_observations(log.observations) ==> parsed_json(
                r.0.deep_view()[0].contents,
            ) == Some(baseline_document(language@, log.observations))
            &&& named_observations(log.observations) ==> baseline_kept(
                r.0.deep_view()[0].contents,
                baseline_document(language@, log.observations),
            )
        }),
{
    let nothing = Json::Null;
    let previous = match baseline {
        Some(value) => match value.get("observations") {
            Some(observations) => observations,
            None => &nothing,
        },
        None => &nothing,
    };
    let (log, total) = log_manifests(language, targets, facts, previous, manifests);
    let ghost seen = log.deep_view();
    let changed: usize = log.failures.len();
    assert(changed == log.failures.deep_view().len());
    let result = result_json(language, count, total, log.comparisons, changed, Ghost(seen));
    proof {
        if plain_observations(seen.observations) {
            lemma_baseline_is_plain(language@, seen.observations);
        }
        if named_observations(seen.observations) {
            lemma_baseline_is_named(language@, seen.observations);
        }
    }
    let baseline = pretty(&baseline_json(language, log.observations));
    let mut out: Vec<GeneratedArtifact> = Vec::new();
    out.push(
        plan_artifact(
            cat2(language, "-behavior-baseline"),
            language,
            ArtifactKind::DifferentialBaseline,
            cat2(language, ":project"),
            baseline_path(language),
            baseline,
            "Behavioral replay baseline for selected public APIs",
        ),
    );
    out.push(
        plan_artifact(
            cat2(language, "-differential-replay-result"),
            language,
            ArtifactKind::ReplayResult,
            cat2(language, ":differential"),
            cat3(".veritas/differential/", language, "_result.json"),
            pretty(&result),
            "Differential replay comparison summary for selected public APIs",
        ),
    );
    assert(out.deep_view() =~= replay_artifacts_of(
        language@,
        count as int,
        entry_count(manifests.deep_view()),
        seen,
    ));
    (out, log.failures)
}

/// Replays the manifests among the artifacts of a report and those that it is about
/// to get. `facts` holds what is known of each target of the report; `baseline` is
/// the earlier baseline file, where there is one. Nothing is done where there is no
/// manifest.
pub fn replay_result_artifacts(
    language: &str,
    report: &VerificationReport,
    pending: &Vec<GeneratedArtifact>,
    facts: &Vec<TargetFacts>,
    baseline: &Option<String>,
) -> (r: (Vec<GeneratedArtifact>, Vec<Failure>))
    ensures
        ({
            let all = report.deep_view().artifacts + pending.deep_view();
            let count = artifact_kind_in(all, ArtifactKind::DifferentialReplay);
            let log = after_manifests(
                language@,
                report.deep_view().targets,
                facts.deep_view(),
                earlier_observations(document_in(baseline.deep_view())),
                manifest_values(all),
            );
            &&& count == 0 ==> r.0@.len() == 0 && r.1@.len() == 0
            &&& count > 0 ==> r.0.deep_view() == replay_artifacts_of(
                language@,
                count,
                entry_count(manifest_values(all)),
                log,
            ) && r.1.deep_view() == log.failures && (plain_observations(log.observations)
                ==> parsed_json(r.0.deep_view()[0].contents) == Some(
                baseline_document(language@, log.observations),
            )) && (named_observations(log.observations) ==> baseline_kept(
                r.0.deep_view()[0].contents,
                baseline_document(language@, log.observations),
            ))
        }),
{
    let mut all = clone_generated_artifacts(&report.artifacts);
    let mut more = clone_generated_artifacts(pending);
    append_generated_artifacts(&mut all, &mut more);
    let count = artifacts_of_kind(&all, ArtifactKind::DifferentialReplay);
    if count == 0 {
        return (Vec::new(), Vec::new());
    }
    replay_manifests(
        language,
        &report.targets,
        facts,
        &read_document(baseline),
        &manifest_documents(&all),
        count,
    )
}

proof fn lemma_observation_has_its_hash(
    language: Seq<char>,
    target: VerificationTargetModel,
    inputs: Seq<JsonModel>,
    id: Seq<char>,
    source: Seq<char>,
    seen: Option<BehaviorReplayObservationModel>,
)
    ensures
        recorded_hash(Some(observation_document(language, target, inputs, id, source, seen)))
            == Some(behavior_hash(language, target, inputs, behavior_text(source, seen))),
{
    reveal_strlit("behavior_hash");
    reveal_strlit("source_hash");
    reveal_strlit("line_range");
    reveal_strlit("observation");
    reveal_strlit("output");
    reveal_strlit("command");
    reveal_strlit("duration_ms");
    reveal_strlit("stdout_excerpt");
    reveal_strlit("stderr_excerpt");
    reveal_with_fuel(member_before, 10);
    let doc = observation_document(language, target, inputs, id, source, seen)->Object_0;
    if seen is Some {
        assert(doc.len() == 16);
        assert(doc[15].0 == "stderr_excerpt"@);
        assert(doc[14].0 == "stdout_excerpt"@);
        assert(doc[13].0 == "duration_ms"@);
        assert(doc[12].0 == "command"@);
        assert(doc[11].0 == "output"@);
    } else {
        assert(doc.len() == 11);
    }
    assert(doc[10].0 == "observation"@);
    assert(doc[9].0 == "line_range"@);
    assert(doc[8].0 == "source_hash"@);
    assert(doc[7].0 == "behavior_hash"@);
}

/// A behavior compared with its own observation is unchanged.
pub proof fn law_recorded_behavior_is_unchanged(
    language: Seq<char>,
    target: VerificationTargetModel,
    inputs: Seq<JsonModel>,
    id: Seq<char>,
    source: Seq<char>,
    seen: Option<BehaviorReplayObservationModel>,
)
    ensures
        compared(
            Some(observation_document(language, target, inputs, id, source, seen)),
            behavior_hash(language, target, inputs, behavior_text(source, seen)),
        ) == ReplayOutcome::Unchanged,
{
    lemma_observation_has_its_hash(language, target, inputs, id, source, seen);
}

/// The observation of a case of a target.
pub open spec fn observation_of(
    language: Seq<char>,
    target: VerificationTargetModel,
    facts: TargetFactsModel,
    value: JsonModel,
) -> (Seq<char>, JsonModel) {
    let replay_case = case_in(value);
    let id = target.id + "::"@ + replay_case.name;
    (
        id,
        observation_document(
            language,
            target,
            replay_case.inputs,
            id,
            facts.source,
            seen_of(facts.observations, replay_case.name),
        ),
    )
}

/// What a replay of cases records does not depend on what was known before.
proof fn lemma_recorded_observations(
    log: ReplayLogModel,
    language: Seq<char>,
    target: VerificationTargetModel,
    facts: TargetFactsModel,
    previous: JsonModel,
    cases: Seq<JsonModel>,
)
    ensures
        after_cases(log, language, target, facts, previous, cases).observations == log.observations
            + cases.map_values(|value: JsonModel| observation_of(language, target, facts, value)),
    decreases cases.len(),
{
    let record = |value: JsonModel| observation_of(language, target, facts, value);
    if cases.len() > 0 {
        lemma_recorded_observations(log, language, target, facts, previous, cases.drop_last());
        assert(cases.map_values(record) =~= cases.drop_last().map_values(record).push(
            record(cases.last()),
        ));
    }
    assert(after_cases(log, language, target, facts, previous, cases).observations
        =~= log.observations + cases.map_values(record));
}

proof fn lemma_value_at(members: Seq<(Seq<char>, JsonModel)>, n: int, i: int)
    requires
        0 <= i < n <= members.len(),
        forall|j: int| i < j < n ==> (#[trigger] members[j]).0 != members[i].0,
    ensures
        member_before(members, members[i].0, n) == Some(members[i].1),
    decreases n,
{
    if i < n - 1 {
        assert(members[n - 1].0 != members[i].0);
        lemma_value_at(members, n - 1, i);
    }
}

/// The value under the name of a member is that of a member with the same name.
pub proof fn lemma_value_under(members: Seq<(Seq<char>, JsonModel)>, n: int, i: int) -> (j: int)
    requires
        0 <= i < n <= members.len(),
    ensures
        0 <= j < n,
        members[j].0 == members[i].0,
        member_before(members, members[i].0, n) == Some(members[j].1),
    decreases n,
{
    if members[n - 1].0 == members[i].0 {
        n - 1
    } else {
        lemma_value_under(members, n - 1, i)
    }
}

/// An object by name has the same value under each name as the members it is made of.
pub proof fn lemma_by_name_keeps_values(members: Seq<(Seq<char>, JsonModel)>, i: int) -> (j: int)
    requires
        0 <= i < members.len(),
    ensures
        0 <= j < members.len(),
        members[j].0 == members[i].0,
        member(JsonModel::Object(by_name(members)), members[i].0) == Some(members[j].1),
{
    let name = members[i].0;
    let names = names_of(members);
    let keys = sorted_set::<ByText>(names);
    lemma_sorted_set_items(names);
    lemma_sorted_set_ascending::<ByText>(names);
    assert(names[i] == name);
    assert(names.contains(name));
    assert(keys.contains(name));
    let k = choose|k: int| 0 <= k < keys.len() && keys[k] == name;
    let sorted = by_name(members);
    assert forall|l: int| k < l < sorted.len() implies (#[trigger] sorted[l]).0 != sorted[k].0 by {
        assert(text_lt(keys[k], keys[l]));
        lemma_text_lt_irreflexive(keys[k]);
    }
    lemma_value_at(sorted, sorted.len() as int, k);
    lemma_value_under(members, members.len() as int, i)
}

/// Whether observations with the same id have the same hash.
pub open spec fn one_hash_each(observations: Seq<(Seq<char>, JsonModel)>) -> bool {
    forall|i: int, j: int|
        0 <= i < observations.len() && 0 <= j < observations.len() && (
        #[trigger] observations[i]).0 == (#[trigger] observations[j]).0 ==> recorded_hash(
            Some(observations[i].1),
        ) == recorded_hash(Some(observations[j].1))
}

/// Whether earlier observations hold the hash of each of some observations under its id.
pub open spec fn holds_hashes(
    previous: JsonModel,
    observations: Seq<(Seq<char>, JsonModel)>,
) -> bool {
    forall|i: int|
        0 <= i < observations.len() ==> recorded_hash(
            member(previous, (#[trigger] observations[i]).0),
        ) == recorded_hash(Some(observations[i].1))
}

/// Whether a log has no finding and every comparison in it came out unchanged.
pub open spec fn all_unchanged(log: ReplayLogModel) -> bool {
    &&& log.failures.len() == 0
    &&& forall|i: int|
        0 <= i < log.comparisons.len() ==> text_under(#[trigger] log.comparisons[i], "outcome"@)
            == Some("unchanged"@)
}

proof fn lemma_comparison_has_its_outcome(
    id: Seq<char>,
    target_id: Seq<char>,
    replay_case: BehaviorReplayCaseModel,
    outcome: ReplayOutcome,
    previous: Option<JsonModel>,
    current: JsonModel,
)
    ensures
        text_under(
            comparison_document(id, target_id, replay_case, outcome, previous, current),
            "outcome"@,
        ) == Some(outcome.label_text()),
{
    reveal_strlit("outcome");
    reveal_strlit("previous");
    reveal_strlit("current");
    assert("outcome"@[0] == 'o');
    assert("previous"@[0] == 'p');
    assert("current"@[0] == 'c');
    let members = comparison_document(
        id,
        target_id,
        replay_case,
        outcome,
        previous,
        current,
    )->Object_0;
    assert(members[3].0 == "outcome"@);
    lemma_value_at(members, members.len() as int, 3);
}

/// What a replay of an entry records does not depend on what was known before.
proof fn lemma_entry_records(
    one: ReplayLogModel,
    other: ReplayLogModel,
    language: Seq<char>,
    targets: Seq<VerificationTargetModel>,
    facts: Seq<TargetFactsModel>,
    before: JsonModel,
    after: JsonModel,
    entry: JsonModel,
)
    requires
        one.observations == other.observations,
    ensures
        after_entry(one, language, targets, facts, before, entry).observations == after_entry(
            other,
            language,
            targets,
            facts,
            after,
            entry,
        ).observations,
        one.observations.is_prefix_of(
            after_entry(one, language, targets, facts, before, entry).observations,
        ),
{
    if let Some(i) = last_target(targets, entry_target(entry)) {
        let known = facts_at(facts, i);
        let cases = entry_cases(entry);
        lemma_recorded_observations(one, language, targets[i], known, before, cases);
        lemma_recorded_observations(other, language, targets[i], known, after, cases);
    }
}

proof fn lemma_entries_record(
    one: ReplayLogModel,
    other: ReplayLogModel,
    language: Seq<char>,
    targets: Seq<VerificationTargetModel>,
    facts: Seq<TargetFactsModel>,
    before: JsonModel,
    after: JsonModel,
    entries: Seq<JsonModel>,
)
    requires
        one.observations == other.observations,
    ensures
        after_entries(one, language, targets, facts, before, entries).observations
            == after_entries(other, language, targets, facts, after, entries).observations,
        one.observations.is_prefix_of(
            after_entries(one, language, targets, facts, before, entries).observations,
        ),
    decreases entries.len(),
{
    if entries.len() > 0 {
        let rest = entries.drop_last();
        lemma_entries_record(one, other, language, targets, facts, before, after, rest);
        let first = after_entries(one, language, targets, facts, before, rest);
        let second = after_entries(other, language, targets, facts, after, rest);
        lemma_entry_records(
            first,
            second,
            language,
            targets,
            facts,
            before,
            after,
            entries.last(),
        );
        let end = after_entries(one, language, targets, facts, before, entries).observations;
        assert(one.observations =~= end.take(one.observations.len() as int)) by {
            assert forall|i: int| 0 <= i < one.observations.len() implies one.observations[i]
                == end[i] by {
                assert(one.observations[i] == first.observations[i]);
                assert(first.observations[i] == end[i]);
            }
        }
    }
}

proof fn lemma_manifests_record(
    language: Seq<char>,
    targets: Seq<VerificationTargetModel>,
    facts: Seq<TargetFactsModel>,
    before: JsonModel,
    after: JsonModel,
    manifests: Seq<JsonModel>,
)
    ensures
        after_manifests(language, targets, facts, before, manifests).observations
            == after_manifests(language, targets, facts, after, manifests).observations,
    decreases manifests.len(),
{
    if manifests.len() > 0 {
        let rest = manifests.drop_last();
        lemma_manifests_record(language, targets, facts, before, after, rest);
        lemma_entries_record(
            after_manifests(language, targets, facts, before, rest),
            after_manifests(language, targets, facts, after, rest),
            language,
            targets,
            facts,
            before,
            after,
            entries_of(manifests.last()),
        );
    }
}

proof fn lemma_held_cases_are_unchanged(
    log: ReplayLogModel,
    language: Seq<char>,
    target: VerificationTargetModel,
    facts: TargetFactsModel,
    previous: JsonModel,
    cases: Seq<JsonModel>,
)
    requires
        all_unchanged(log),
        holds_hashes(
            previous,
            after_cases(log, language, target, facts, previous, cases).observations,
        ),
    ensures
        all_unchanged(after_cases(log, language, target, facts, previous, cases)),
    decreases cases.len(),
{
    if cases.len() > 0 {
        let rest = after_cases(log, language, target, facts, previous, cases.drop_last());
        let end = after_cases(log, language, target, facts, previous, cases);
        assert forall|i: int| 0 <= i < rest.observations.len() implies recorded_hash(
            member(previous, (#[trigger] rest.observations[i]).0),
        ) == recorded_hash(Some(rest.observations[i].1)) by {
            assert(end.observations[i] == rest.observations[i]);
        }
        lemma_held_cases_are_unchanged(
            log,
            language,
            target,
            facts,
            previous,
            cases.drop_last(),
        );
        let replay_case = case_in(cases.last());
        let id = target.id + "::"@ + replay_case.name;
        let seen = seen_of(facts.observations, replay_case.name);
        let place = end.observations.len() - 1;
        assert(end.observations[place].0 == id);
        lemma_observation_has_its_hash(
            language,
            target,
            replay_case.inputs,
            id,
            facts.source,
            seen,
        );
        lemma_comparison_has_its_outcome(
            id,
            target.id,
            replay_case,
            ReplayOutcome::Unchanged,
            member(previous, id),
            end.observations[place].1,
        );
        assert forall|i: int| 0 <= i < end.comparisons.len() implies text_under(
            #[trigger] end.comparisons[i],
            "outcome"@,
        ) == Some("unchanged"@) by {
            if i < rest.comparisons.len() {
                assert(end.comparisons[i] == rest.comparisons[i]);
            }
        }
    }
}

proof fn lemma_held_entries_are_unchanged(
    log: ReplayLogModel,
    language: Seq<char>,
    targets: Seq<VerificationTargetModel>,
    facts: Seq<TargetFactsModel>,
    previous: JsonModel,
    entries: Seq<JsonModel>,
)
    requires
        all_unchanged(log),
        holds_hashes(
            previous,
            after_entries(log, language, targets, facts, previous, entries).observations,
        ),
    ensures
        all_unchanged(after_entries(log, language, targets, facts, previous, entries)),
    decreases entries.len(),
{
    if entries.len() > 0 {
        let rest = after_entries(log, language, targets, facts, previous, entries.drop_last());
        let end = after_entries(log, language, targets, facts, previous, entries);
        lemma_entry_records(
            rest,
            rest,
            language,
            targets,
            facts,
            previous,
            previous,
            entries.last(),
        );
        assert forall|i: int| 0 <= i < rest.observations.len() implies recorded_hash(
            member(previous, (#[trigger] rest.observations[i]).0),
        ) == recorded_hash(Some(rest.observations[i].1)) by {
            assert(end.observations[i] == rest.observations[i]);
        }
        lemma_held_entries_are_unchanged(
            log,
            language,
            targets,
            facts,
            previous,
            entries.drop_last(),
        );
        if let Some(i) = last_target(targets, entry_target(entries.last())) {
            lemma_held_cases_are_unchanged(
                rest,
                language,
                targets[i],
                facts_at(facts, i),
                previous,
                entry_cases(entries.last()),
            );
        }
    }
}

proof fn lemma_held_manifests_are_unchanged(
    language: Seq<char>,
    targets: Seq<VerificationTargetModel>,
    facts: Seq<TargetFactsModel>,
    previous: JsonModel,
    manifests: Seq<JsonModel>,
)
    requires
        holds_hashes(
            previous,
            after_manifests(language, targets, facts, previous, manifests).observations,
        ),
    ensures
        all_unchanged(after_manifests(language, targets, facts, previous, manifests)),
    decreases manifests.len(),
{
    if manifests.len() > 0 {
        let rest = after_manifests(language, targets, facts, previous, manifests.drop_last());
        let end = after_manifests(language, targets, facts, previous, manifests);
        let entries = entries_of(manifests.last());
        lemma_entries_record(
            rest,
            rest,
            language,
            targets,
            facts,
            previous,
            previous,
            entries,
        );
        assert forall|i: int| 0 <= i < rest.observations.len() implies recorded_hash(
            member(previous, (#[trigger] rest.observations[i]).0),
        ) == recorded_hash(Some(rest.observations[i].1)) by {
            assert(end.observations[i] == rest.observations[i]);
        }
        lemma_held_manifests_are_unchanged(
            language,
            targets,
            facts,
            previous,
            manifests.drop_last(),
        );
        lemma_held_entries_are_unchanged(rest, language, targets, facts, previous, entries);
    }
}

/// A replay whose observations have one hash for each id, repeated with nothing changed
/// against the baseline that it wrote, finds nothing, compares every case as unchanged, and
/// writes the same baseline again: with the baseline as a document, and with its text as it is
/// read.
/// Reading need not keep the numbers of the baseline, since the hash that is compared is a
/// text.
pub proof fn law_unchanged_behavior_shows_no_drift(
    language: Seq<char>,
    targets: Seq<VerificationTargetModel>,
    facts: Seq<TargetFactsModel>,
    earlier: JsonModel,
    manifests: Seq<JsonModel>,
    count: int,
)
    requires
        one_hash_each(
            after_manifests(language, targets, facts, earlier, manifests).observations,
        ),
    ensures
        ({
            let first = after_manifests(language, targets, facts, earlier, manifests);
            let baseline = baseline_document(language, first.observations);
            let again = after_manifests(
                language,
                targets,
                facts,
                earlier_observations(Some(baseline)),
                manifests,
            );
            let entries = entry_count(manifests);
            let written = replay_artifacts_of(language, count, entries, first)[0];
            &&& all_unchanged(again)
            &&& again.comparisons.len() == again.observations.len()
            &&& again.observations == first.observations
            &&& replay_artifacts_of(language, count, entries, again)[0] == written
            &&& parsed_json(written.contents) matches Some(read) ==> keeps_texts(
                baseline,
                read,
                100,
            ) ==> {
                let reread = after_manifests(
                    language,
                    targets,
                    facts,
                    earlier_observations(document_in(Some(written.contents))),
                    manifests,
                );
                &&& all_unchanged(reread)
                &&& reread.observations == first.observations
                &&& replay_artifacts_of(language, count, entries, reread)[0] == written
            }
        }),
{
    let first = after_manifests(language, targets, facts, earlier, manifests);
    let baseline = baseline_document(language, first.observations);
    let previous = JsonModel::Object(by_name(first.observations));
    lemma_baseline_names(language, first.observations);
    assert forall|i: int| 0 <= i < first.observations.len() implies recorded_hash(
        member(previous, (#[trigger] first.observations[i]).0),
    ) == recorded_hash(Some(first.observations[i].1)) by {
        let j = lemma_by_name_keeps_values(first.observations, i);
        assert(first.observations[j].0 == first.observations[i].0);
    }
    lemma_known_hashes_are_unchanged(language, targets, facts, earlier, previous, manifests);
    let written = pretty_json(baseline);
    if let Some(read) = parsed_json(written) {
        if keeps_texts(baseline, read, 100) {
            lemma_all_observations_have_hashes(language, targets, facts, earlier, manifests);
            lemma_kept_member(baseline, read, "observations"@, 99);
            let kept = at(read, "observations"@);
            assert forall|i: int| 0 <= i < first.observations.len() implies recorded_hash(
                member(kept, (#[trigger] first.observations[i]).0),
            ) == recorded_hash(Some(first.observations[i].1)) by {
                let j = lemma_by_name_keeps_values(first.observations, i);
                assert(first.observations[j].0 == first.observations[i].0);
                lemma_kept_member(previous, kept, first.observations[i].0, 98);
                let own = first.observations[j].1;
                let held = member(kept, first.observations[i].0)->0;
                lemma_kept_member(own, held, "behavior_hash"@, 97);
            }
            lemma_known_hashes_are_unchanged(language, targets, facts, earlier, kept, manifests);
        }
    }
}

/// A member of an object that keeps the texts of another keeps the texts of its member.
proof fn lemma_kept_member(value: JsonModel, other: JsonModel, name: Seq<char>, depth: nat)
    requires
        keeps_texts(value, other, depth + 1),
        value is Object,
    ensures
        member(value, name) is Some <==> member(other, name) is Some,
        member(value, name) matches Some(inner) ==> keeps_texts(
            inner,
            member(other, name)->0,
            depth,
        ),
{
    lemma_kept_before(
        value->Object_0,
        other->Object_0,
        name,
        depth,
        value->Object_0.len() as int,
    );
}

proof fn lemma_kept_before(
    members: Seq<(Seq<char>, JsonModel)>,
    others: Seq<(Seq<char>, JsonModel)>,
    name: Seq<char>,
    depth: nat,
    n: int,
)
    requires
        0 <= n <= members.len(),
        others.len() == members.len(),
        forall|i: int|
            0 <= i < members.len() ==> (#[trigger] members[i]).0 == others[i].0 && keeps_texts(
                members[i].1,
                others[i].1,
                depth,
            ),
    ensures
        member_before(members, name, n) is Some <==> member_before(others, name, n) is Some,
        member_before(members, name, n) matches Some(inner) ==> keeps_texts(
            inner,
            member_before(others, name, n)->0,
            depth,
        ),
    decreases n,
{
    if n > 0 {
        assert(members[n - 1].0 == others[n - 1].0);
        lemma_kept_before(members, others, name, depth, n - 1);
    }
}

/// A replay against observations that hold the hashes of what it records finds nothing.
proof fn lemma_known_hashes_are_unchanged(
    language: Seq<char>,
    targets: Seq<VerificationTargetModel>,
    facts: Seq<TargetFactsModel>,
    earlier: JsonModel,
    previous: JsonModel,
    manifests: Seq<JsonModel>,
)
    requires
        holds_hashes(
            previous,
            after_manifests(language, targets, facts, earlier, manifests).observations,
        ),
    ensures
        ({
            let again = after_manifests(language, targets, facts, previous, manifests);
            &&& all_unchanged(again)
            &&& again.comparisons.len() == again.observations.len()
            &&& again.observations == after_manifests(
                language,
                targets,
                facts,
                earlier,
                manifests,
            ).observations
        }),
{
    lemma_manifests_record(language, targets, facts, earlier, previous, manifests);
    lemma_held_manifests_are_unchanged(language, targets, facts, previous, manifests);
    lemma_each_case_is_compared(language, targets, facts, previous, manifests);
}

/// Whether each observation is an object with the text of its hash.
spec fn have_hashes(observations: Seq<(Seq<char>, JsonModel)>) -> bool {
    forall|i: int|
        0 <= i < observations.len() ==> (#[trigger] observations[i]).1 is Object && recorded_hash(
            Some(observations[i].1),
        ) is Some
}

proof fn lemma_cases_have_hashes(
    log: ReplayLogModel,
    language: Seq<char>,
    target: VerificationTargetModel,
    facts: TargetFactsModel,
    previous: JsonModel,
    cases: Seq<JsonModel>,
)
    requires
        have_hashes(log.observations),
    ensures
        have_hashes(
            after_cases(log, language, target, facts, previous, cases).observations,
        ),
    decreases cases.len(),
{
    if cases.len() > 0 {
        lemma_cases_have_hashes(log, language, target, facts, previous, cases.drop_last());
        let replay_case = case_in(cases.last());
        lemma_observation_has_its_hash(
            language,
            target,
            replay_case.inputs,
            target.id + "::"@ + replay_case.name,
            facts.source,
            seen_of(facts.observations, replay_case.name),
        );
    }
}

proof fn lemma_entries_have_hashes(
    log: ReplayLogModel,
    language: Seq<char>,
    targets: Seq<VerificationTargetModel>,
    facts: Seq<TargetFactsModel>,
    previous: JsonModel,
    entries: Seq<JsonModel>,
)
    requires
        have_hashes(log.observations),
    ensures
        have_hashes(
            after_entries(log, language, targets, facts, previous, entries).observations,
        ),
    decreases entries.len(),
{
    if entries.len() > 0 {
        let rest = entries.drop_last();
        lemma_entries_have_hashes(log, language, targets, facts, previous, rest);
        if let Some(i) = last_target(targets, entry_target(entries.last())) {
            lemma_cases_have_hashes(
                after_entries(log, language, targets, facts, previous, rest),
                language,
                targets[i],
                facts_at(facts, i),
                previous,
                entry_cases(entries.last()),
            );
        }
    }
}

proof fn lemma_all_observations_have_hashes(
    language: Seq<char>,
    targets: Seq<VerificationTargetModel>,
    facts: Seq<TargetFactsModel>,
    previous: JsonModel,
    manifests: Seq<JsonModel>,
)
    ensures
        have_hashes(
            after_manifests(language, targets, facts, previous, manifests).observations,
        ),
    decreases manifests.len(),
{
    if manifests.len() > 0 {
        let rest = manifests.drop_last();
        lemma_all_observations_have_hashes(language, targets, facts, previous, rest);
        lemma_entries_have_hashes(
            after_manifests(language, targets, facts, previous, rest),
            language,
            targets,
            facts,
            previous,
            entries_of(manifests.last()),
        );
    }
}

proof fn lemma_cases_are_compared(
    log: ReplayLogModel,
    language: Seq<char>,
    target: VerificationTargetModel,
    facts: TargetFactsModel,
    previous: JsonModel,
    cases: Seq<JsonModel>,
)
    requires
        log.comparisons.len() == log.observations.len(),
    ensures
        ({
            let end = after_cases(log, language, target, facts, previous, cases);
            end.comparisons.len() == end.observations.len()
        }),
    decreases cases.len(),
{
    if cases.len() > 0 {
        lemma_cases_are_compared(log, language, target, facts, previous, cases.drop_last());
    }
}

proof fn lemma_entries_are_compared(
    log: ReplayLogModel,
    language: Seq<char>,
    targets: Seq<VerificationTargetModel>,
    facts: Seq<TargetFactsModel>,
    previous: JsonModel,
    entries: Seq<JsonModel>,
)
    requires
        log.comparisons.len() == log.observations.len(),
    ensures
        ({
            let end = after_entries(log, language, targets, facts, previous, entries);
            end.comparisons.len() == end.observations.len()
        }),
    decreases entries.len(),
{
    if entries.len() > 0 {
        let rest = entries.drop_last();
        lemma_entries_are_compared(log, language, targets, facts, previous, rest);
        if let Some(i) = last_target(targets, entry_target(entries.last())) {
            lemma_cases_are_compared(
                after_entries(log, language, targets, facts, previous, rest),
                language,
                targets[i],
                facts_at(facts, i),
                previous,
                entry_cases(entries.last()),
            );
        }
    }
}

proof fn lemma_each_case_is_compared(
    language: Seq<char>,
    targets: Seq<VerificationTargetModel>,
    facts: Seq<TargetFactsModel>,
    previous: JsonModel,
    manifests: Seq<JsonModel>,
)
    ensures
        ({
            let end = after_manifests(language, targets, facts, previous, manifests);
            end.comparisons.len() == end.observations.len()
        }),
    decreases manifests.len(),
{
    if manifests.len() > 0 {
        let rest = manifests.drop_last();
        lemma_each_case_is_compared(language, targets, facts, previous, rest);
        lemma_entries_are_compared(
            after_manifests(language, targets, facts, previous, rest),
            language,
            targets,
            facts,
            previous,
            entries_of(manifests.last()),
        );
    }
}

/// An observation of a case whose inputs are ordinary values, and of which the plugin saw
/// nothing or an ordinary output in a time of at most 64 bits, is an ordinary value.
#[verifier::rlimit(50)]
pub proof fn law_ordinary_observations_are_plain(
    language: Seq<char>,
    target: VerificationTargetModel,
    inputs: Seq<JsonModel>,
    id: Seq<char>,
    source: Seq<char>,
    seen: Option<BehaviorReplayObservationModel>,
)
    requires
        forall|i: int| 0 <= i < inputs.len() ==> is_plain(#[trigger] inputs[i], 96),
        seen matches Some(o) ==> is_plain(o.output, 97) && (o.duration_ms matches Some(n) ==> n
            <= u64::MAX),
    ensures
        is_plain(observation_document(language, target, inputs, id, source, seen), 98),
{
    let members = observation_document(language, target, inputs, id, source, seen)->Object_0;
    reveal_strlit("id");
    reveal_strlit("status");
    reveal_strlit("target_id");
    reveal_strlit("path");
    reveal_strlit("symbol");
    reveal_strlit("signature");
    reveal_strlit("inputs");
    reveal_strlit("behavior_hash");
    reveal_strlit("source_hash");
    reveal_strlit("line_range");
    reveal_strlit("observation");
    reveal_strlit("output");
    reveal_strlit("command");
    reveal_strlit("duration_ms");
    reveal_strlit("stdout_excerpt");
    reveal_strlit("stderr_excerpt");
    assert("id"@.len() == 2);
    assert("status"@.len() == 6);
    assert("target_id"@.len() == 9);
    assert("path"@.len() == 4);
    assert("symbol"@.len() == 6);
    assert("signature"@.len() == 9);
    assert("inputs"@.len() == 6);
    assert("behavior_hash"@.len() == 13);
    assert("source_hash"@.len() == 11);
    assert("line_range"@.len() == 10);
    assert("observation"@.len() == 11);
    assert("output"@.len() == 6);
    assert("command"@.len() == 7);
    assert("duration_ms"@.len() == 11);
    assert("stdout_excerpt"@.len() == 14);
    assert("stderr_excerpt"@.len() == 14);
    assert("status"@[0] == 's');
    assert("status"@[1] == 't');
    assert("symbol"@[0] == 's');
    assert("symbol"@[1] == 'y');
    assert("inputs"@[0] == 'i');
    assert("output"@[0] == 'o');
    assert("target_id"@[0] == 't');
    assert("signature"@[0] == 's');
    assert("source_hash"@[0] == 's');
    assert("observation"@[0] == 'o');
    assert("duration_ms"@[0] == 'd');
    assert("stdout_excerpt"@[3] == 'o');
    assert("stderr_excerpt"@[3] == 'e');
    assert(distinct_names(members));
    if let Some(range) = target.line_range {
        lemma_line_range_is_plain(range, 97);
    }
    assert(is_plain(JsonModel::Array(inputs), 97));
    if let Some(o) = seen {
        if let Some(n) = o.duration_ms {
            assert(is_plain_number(signed_decimal(n as int)));
        }
    }
    assert forall|i: int| 0 <= i < members.len() implies is_plain((#[trigger] members[i]).1, 97) by {
        assert(i == 0 || i == 1 || i == 2 || i == 3 || i == 4 || i == 5 || i == 6 || i == 7 || i == 8
            || i == 9 || i == 10 || i == 11 || i == 12 || i == 13 || i == 14 || i == 15);
    }
}

/// A behavior whose hash is not the recorded one is a finding.
pub proof fn law_changed_behavior_is_found(
    log: ReplayLogModel,
    language: Seq<char>,
    target: VerificationTargetModel,
    facts: TargetFactsModel,
    previous: JsonModel,
    replay_case: BehaviorReplayCaseModel,
)
    requires
        recorded_hash(member(previous, target.id + "::"@ + replay_case.name)) matches Some(earlier)
            && earlier != behavior_hash(
            language,
            target,
            replay_case.inputs,
            behavior_text(facts.source, seen_of(facts.observations, replay_case.name)),
        ),
    ensures
        after_case(log, language, target, facts, previous, replay_case).failures.len()
            == log.failures.len() + 1,
{
}

/// Without a baseline no behavior has drifted.
pub proof fn law_first_replay_finds_no_drift(
    log: ReplayLogModel,
    language: Seq<char>,
    target: VerificationTargetModel,
    facts: TargetFactsModel,
    cases: Seq<JsonModel>,
)
    ensures
        after_cases(log, language, target, facts, JsonModel::Null, cases).failures == log.failures,
    decreases cases.len(),
{
    if cases.len() > 0 {
        law_first_replay_finds_no_drift(log, language, target, facts, cases.drop_last());
    }
}

// ---------------------------------------------------------------------------
// The source of a target
// ---------------------------------------------------------------------------
proof fn lemma_lines_between(lines: Seq<Seq<char>>, range: LineRange)
    ensures
        ({
            let from = if range.start == 0 {
                0int
            } else {
                range.start - 1
            };
            let to = if range.end <= lines.len() {
                range.end as int
            } else {
                lines.len() as int
            };
            &&& from < to ==> lines_between(lines, range) == lines.subrange(from, to)
            &&& from >= to ==> lines_between(lines, range).len() == 0
        }),
    decreases lines.len(),
{
    if lines.len() > 0 {
        let rest = lines.drop_last();
        lemma_lines_between(rest, range);
        let from = if range.start == 0 {
            0int
        } else {
            range.start - 1
        };
        let n = lines.len() as int;
        if range.start <= n <= range.end {
            if from < n - 1 {
                assert(lines.subrange(from, n) =~= rest.subrange(from, n - 1).push(lines.last()));
            } else {
                assert(lines_between(rest, range).len() == 0);
                assert(lines.subrange(from, n) =~= lines_between(rest, range).push(lines.last()));
            }
        } else if range.end < n && from < range.end {
            assert(lines.subrange(from, range.end as int) =~= rest.subrange(
                from,
                range.end as int,
            ));
        }
    }
}

/// The source of a target is its lines, from the first to the last and no others, with line
/// ends between them: as many lines as its range has.
pub proof fn law_source_is_the_lines_of_the_target(contents: Seq<char>, range: LineRange)
    requires
        1 <= range.start <= range.end <= lines_of(contents).len(),
    ensures
        source_fragment(contents, Some(range)) == joined(
            lines_of(contents).subrange(range.start - 1, range.end as int),
            seq!['\n'],
        ),
{
    lemma_lines_between(lines_of(contents), range);
    reveal_strlit("\n");
    assert("\n"@ =~= seq!['\n']);
}

/// Without a range, or where the file ends before the range starts, the source of a target is
/// the whole file; where the file ends within the range, the source is the lines up to its
/// end.
pub proof fn law_source_of_other_ranges(contents: Seq<char>, range: LineRange)
    ensures
        source_fragment(contents, None) == contents,
        range.start > lines_of(contents).len() ==> source_fragment(contents, Some(range))
            == contents,
        range.start > range.end ==> source_fragment(contents, Some(range)) == contents,
        1 <= range.start <= lines_of(contents).len() < range.end ==> source_fragment(
            contents,
            Some(range),
        ) == joined(lines_of(contents).skip(range.start - 1), seq!['\n']),
{
    lemma_lines_between(lines_of(contents), range);
    reveal_strlit("\n");
    assert("\n"@ =~= seq!['\n']);
    let lines = lines_of(contents);
    if 1 <= range.start <= lines.len() < range.end {
        assert(lines.subrange(range.start - 1, lines.len() as int) =~= lines.skip(
            range.start - 1,
        ));
    }
}

/// Files that agree on the lines of a target give it the same source, whatever else they
/// hold.
pub proof fn law_source_depends_on_its_lines_alone(
    one: Seq<char>,
    other: Seq<char>,
    range: LineRange,
)
    requires
        1 <= range.start <= range.end,
        range.end <= lines_of(one).len(),
        range.end <= lines_of(other).len(),
        forall|line: int|
            range.start <= line <= range.end ==> #[trigger] lines_of(one)[line - 1]
                == lines_of(other)[line - 1],
    ensures
        source_fragment(one, Some(range)) == source_fragment(other, Some(range)),
{
    lemma_lines_between(lines_of(one), range);
    lemma_lines_between(lines_of(other), range);
    let first = lines_of(one).subrange(range.start - 1, range.end as int);
    let second = lines_of(other).subrange(range.start - 1, range.end as int);
    assert forall|i: int| 0 <= i < first.len() implies first[i] == second[i] by {
        let line = range.start + i;
        assert(lines_of(one)[line - 1] == lines_of(other)[line - 1]);
    }
    assert(first =~= second);
}

// ---------------------------------------------------------------------------
// Drift
// ---------------------------------------------------------------------------
/// Whether a comparison came out as changed.
pub open spec fn is_drift(comparison: JsonModel) -> bool {
    text_under(comparison, "outcome"@) == Some("changed"@)
}

/// Whether a comparison came out as unchanged.
pub open spec fn is_steady(comparison: JsonModel) -> bool {
    text_under(comparison, "outcome"@) == Some("unchanged"@)
}

/// Whether there is a finding on the target of a comparison.
pub open spec fn is_reported(failures: Seq<FailureModel>, comparison: JsonModel) -> bool {
    exists|f: int|
        0 <= f < failures.len() && (#[trigger] failures[f]).target_id == text_under(
            comparison,
            "target_id"@,
        )
}

/// Whether a finding is on the target of a comparison that came out as changed.
pub open spec fn reports_drift(failure: FailureModel, comparisons: Seq<JsonModel>) -> bool {
    exists|i: int|
        0 <= i < comparisons.len() && is_drift(#[trigger] comparisons[i]) && failure.target_id
            == text_under(comparisons[i], "target_id"@)
}

/// Whether the comparison of an observation came out as its hash and the recorded one ask.
spec fn is_compared(previous: JsonModel, seen: (Seq<char>, JsonModel), comparison: JsonModel) -> bool {
    &&& recorded_hash(Some(seen.1)) is Some
    &&& text_under(seen.1, "target_id"@) is Some
    &&& text_under(comparison, "target_id"@) == text_under(seen.1, "target_id"@)
    &&& text_under(comparison, "outcome"@) == Some(
        compared(member(previous, seen.0), recorded_hash(Some(seen.1))->0).label_text(),
    )
}

spec fn is_consistent(log: ReplayLogModel, previous: JsonModel) -> bool {
    &&& log.comparisons.len() == log.observations.len()
    &&& forall|i: int|
        0 <= i < log.comparisons.len() ==> is_compared(
            previous,
            log.observations[i],
            #[trigger] log.comparisons[i],
        )
    &&& forall|f: int|
        0 <= f < log.failures.len() ==> reports_drift(#[trigger] log.failures[f], log.comparisons)
    &&& forall|i: int|
        0 <= i < log.comparisons.len() && is_drift(#[trigger] log.comparisons[i]) ==> is_reported(
            log.failures,
            log.comparisons[i],
        )
}

proof fn lemma_observation_has_its_target(
    language: Seq<char>,
    target: VerificationTargetModel,
    inputs: Seq<JsonModel>,
    id: Seq<char>,
    source: Seq<char>,
    seen: Option<BehaviorReplayObservationModel>,
)
    ensures
        text_under(
            observation_document(language, target, inputs, id, source, seen),
            "target_id"@,
        ) == Some(target.id),
{
    reveal_strlit("target_id");
    reveal_strlit("path");
    reveal_strlit("symbol");
    reveal_strlit("signature");
    reveal_strlit("inputs");
    reveal_strlit("behavior_hash");
    reveal_strlit("source_hash");
    reveal_strlit("line_range");
    reveal_strlit("observation");
    reveal_strlit("output");
    reveal_strlit("command");
    reveal_strlit("duration_ms");
    reveal_strlit("stdout_excerpt");
    reveal_strlit("stderr_excerpt");
    let doc = observation_document(language, target, inputs, id, source, seen)->Object_0;
    assert(doc[2].0 == "target_id"@);
    assert("target_id"@.len() == 9);
    assert("target_id"@[0] == 't');
    assert("signature"@[0] == 's');
    assert forall|j: int| 2 < j < doc.len() implies (#[trigger] doc[j]).0 != doc[2].0 by {
        assert(j == 3 || j == 4 || j == 5 || j == 6 || j == 7 || j == 8 || j == 9 || j == 10 || j
            == 11 || j == 12 || j == 13 || j == 14 || j == 15);
    }
    lemma_value_at(doc, doc.len() as int, 2);
}

proof fn lemma_comparison_has_its_target(
    id: Seq<char>,
    target_id: Seq<char>,
    replay_case: BehaviorReplayCaseModel,
    outcome: ReplayOutcome,
    previous: Option<JsonModel>,
    current: JsonModel,
)
    ensures
        text_under(
            comparison_document(id, target_id, replay_case, outcome, previous, current),
            "target_id"@,
        ) == Some(target_id),
{
    reveal_strlit("target_id");
    reveal_strlit("case");
    reveal_strlit("outcome");
    reveal_strlit("previous");
    reveal_strlit("current");
    let members = comparison_document(
        id,
        target_id,
        replay_case,
        outcome,
        previous,
        current,
    )->Object_0;
    assert(members[1].0 == "target_id"@);
    assert forall|j: int| 1 < j < members.len() implies (#[trigger] members[j]).0 != members[1].0 by {
        assert(j == 2 || j == 3 || j == 4 || j == 5);
    }
    lemma_value_at(members, members.len() as int, 1);
}

proof fn lemma_outcome_names()
    ensures
        "changed"@ != "unchanged"@,
        "changed"@ != "new"@,
        "unchanged"@ != "new"@,
{
    reveal_strlit("changed");
    reveal_strlit("unchanged");
    reveal_strlit("new");
    assert("changed"@.len() == 7);
    assert("unchanged"@.len() == 9);
    assert("new"@.len() == 3);
}

proof fn lemma_case_is_consistent(
    log: ReplayLogModel,
    language: Seq<char>,
    target: VerificationTargetModel,
    facts: TargetFactsModel,
    previous: JsonModel,
    replay_case: BehaviorReplayCaseModel,
)
    requires
        is_consistent(log, previous),
    ensures
        is_consistent(
            after_case(log, language, target, facts, previous, replay_case),
            previous,
        ),
{
    let end = after_case(log, language, target, facts, previous, replay_case);
    let id = target.id + "::"@ + replay_case.name;
    let seen = seen_of(facts.observations, replay_case.name);
    let hash = behavior_hash(
        language,
        target,
        replay_case.inputs,
        behavior_text(facts.source, seen),
    );
    let n = log.comparisons.len() as int;
    let current = end.observations[n].1;
    let outcome = compared(member(previous, id), hash);
    lemma_outcome_names();
    lemma_observation_has_its_hash(language, target, replay_case.inputs, id, facts.source, seen);
    lemma_observation_has_its_target(language, target, replay_case.inputs, id, facts.source, seen);
    lemma_comparison_has_its_outcome(
        id,
        target.id,
        replay_case,
        outcome,
        member(previous, id),
        current,
    );
    lemma_comparison_has_its_target(
        id,
        target.id,
        replay_case,
        outcome,
        member(previous, id),
        current,
    );
    assert forall|i: int| 0 <= i < end.comparisons.len() implies is_compared(
        previous,
        end.observations[i],
        #[trigger] end.comparisons[i],
    ) by {
        if i < n {
            assert(end.comparisons[i] == log.comparisons[i]);
            assert(end.observations[i] == log.observations[i]);
        }
    }
    assert forall|f: int| 0 <= f < end.failures.len() implies reports_drift(
        #[trigger] end.failures[f],
        end.comparisons,
    ) by {
        if f < log.failures.len() {
            assert(end.failures[f] == log.failures[f]);
            let i = choose|i: int|
                0 <= i < log.comparisons.len() && is_drift(#[trigger] log.comparisons[i])
                    && log.failures[f].target_id == text_under(log.comparisons[i], "target_id"@);
            assert(end.comparisons[i] == log.comparisons[i]);
        } else {
            assert(is_drift(end.comparisons[n]));
        }
    }
    assert forall|i: int|
        0 <= i < end.comparisons.len() && is_drift(#[trigger] end.comparisons[i]) implies is_reported(
        end.failures,
        end.comparisons[i],
    ) by {
        if i < n {
            assert(end.comparisons[i] == log.comparisons[i]);
            let f = choose|f: int|
                0 <= f < log.failures.len() && (#[trigger] log.failures[f]).target_id == text_under(
                    log.comparisons[i],
                    "target_id"@,
                );
            assert(end.failures[f] == log.failures[f]);
        } else {
            assert(end.failures[log.failures.len() as int].target_id == Some(target.id));
        }
    }
}

proof fn lemma_cases_are_consistent(
    log: ReplayLogModel,
    language: Seq<char>,
    target: VerificationTargetModel,
    facts: TargetFactsModel,
    previous: JsonModel,
    cases: Seq<JsonModel>,
)
    requires
        is_consistent(log, previous),
    ensures
        is_consistent(after_cases(log, language, target, facts, previous, cases), previous),
    decreases cases.len(),
{
    if cases.len() > 0 {
        let rest = cases.drop_last();
        lemma_cases_are_consistent(log, language, target, facts, previous, rest);
        lemma_case_is_consistent(
            after_cases(log, language, target, facts, previous, rest),
            language,
            target,
            facts,
            previous,
            case_in(cases.last()),
        );
    }
}

proof fn lemma_entries_are_consistent(
    log: ReplayLogModel,
    language: Seq<char>,
    targets: Seq<VerificationTargetModel>,
    facts: Seq<TargetFactsModel>,
    previous: JsonModel,
    entries: Seq<JsonModel>,
)
    requires
        is_consistent(log, previous),
    ensures
        is_consistent(after_entries(log, language, targets, facts, previous, entries), previous),
    decreases entries.len(),
{
    if entries.len() > 0 {
        let rest = entries.drop_last();
        lemma_entries_are_consistent(log, language, targets, facts, previous, rest);
        if let Some(i) = last_target(targets, entry_target(entries.last())) {
            lemma_cases_are_consistent(
                after_entries(log, language, targets, facts, previous, rest),
                language,
                targets[i],
                facts_at(facts, i),
                previous,
                entry_cases(entries.last()),
            );
        }
    }
}

proof fn lemma_manifests_are_consistent(
    language: Seq<char>,
    targets: Seq<VerificationTargetModel>,
    facts: Seq<TargetFactsModel>,
    previous: JsonModel,
    manifests: Seq<JsonModel>,
)
    ensures
        is_consistent(after_manifests(language, targets, facts, previous, manifests), previous),
    decreases manifests.len(),
{
    if manifests.len() > 0 {
        let rest = manifests.drop_last();
        lemma_manifests_are_consistent(language, targets, facts, previous, rest);
        lemma_entries_are_consistent(
            after_manifests(language, targets, facts, previous, rest),
            language,
            targets,
            facts,
            previous,
            entries_of(manifests.last()),
        );
    }
}

/// Whether two replays recorded the same cases in the same order, and the same of one target.
spec fn agree_on(
    one: Seq<(Seq<char>, JsonModel)>,
    other: Seq<(Seq<char>, JsonModel)>,
    id: Seq<char>,
) -> bool {
    &&& one.len() == other.len()
    &&& forall|i: int|
        0 <= i < one.len() ==> (#[trigger] one[i]).0 == other[i].0 && text_under(
            one[i].1,
            "target_id"@,
        ) == text_under(other[i].1, "target_id"@) && (text_under(one[i].1, "target_id"@) == Some(id)
            ==> one[i] == other[i])
}

proof fn lemma_cases_agree(
    one: ReplayLogModel,
    other: ReplayLogModel,
    language: Seq<char>,
    target: VerificationTargetModel,
    before: TargetFactsModel,
    after: TargetFactsModel,
    earlier: JsonModel,
    previous: JsonModel,
    cases: Seq<JsonModel>,
    id: Seq<char>,
)
    requires
        agree_on(one.observations, other.observations, id),
        target.id == id ==> before == after,
    ensures
        agree_on(
            after_cases(one, language, target, before, earlier, cases).observations,
            after_cases(other, language, target, after, previous, cases).observations,
            id,
        ),
    decreases cases.len(),
{
    if cases.len() > 0 {
        let rest = cases.drop_last();
        lemma_cases_agree(
            one,
            other,
            language,
            target,
            before,
            after,
            earlier,
            previous,
            rest,
            id,
        );
        let replay_case = case_in(cases.last());
        let own = target.id + "::"@ + replay_case.name;
        lemma_observation_has_its_target(
            language,
            target,
            replay_case.inputs,
            own,
            before.source,
            seen_of(before.observations, replay_case.name),
        );
        lemma_observation_has_its_target(
            language,
            target,
            replay_case.inputs,
            own,
            after.source,
            seen_of(after.observations, replay_case.name),
        );
        let first = after_cases(one, language, target, before, earlier, rest).observations;
        let second = after_cases(other, language, target, after, previous, rest).observations;
        let a = after_cases(one, language, target, before, earlier, cases).observations;
        let b = after_cases(other, language, target, after, previous, cases).observations;
        assert forall|i: int| 0 <= i < a.len() implies (#[trigger] a[i]).0 == b[i].0 && text_under(
            a[i].1,
            "target_id"@,
        ) == text_under(b[i].1, "target_id"@) && (text_under(a[i].1, "target_id"@) == Some(id)
            ==> a[i] == b[i]) by {
            if i < first.len() {
                assert(a[i] == first[i]);
                assert(b[i] == second[i]);
            }
        }
    }
}

proof fn lemma_entries_agree(
    one: ReplayLogModel,
    other: ReplayLogModel,
    language: Seq<char>,
    targets: Seq<VerificationTargetModel>,
    before: Seq<TargetFactsModel>,
    after: Seq<TargetFactsModel>,
    earlier: JsonModel,
    previous: JsonModel,
    entries: Seq<JsonModel>,
    id: Seq<char>,
)
    requires
        agree_on(one.observations, other.observations, id),
        last_target(targets, id) matches Some(t) ==> facts_at(before, t) == facts_at(after, t),
    ensures
        agree_on(
            after_entries(one, language, targets, before, earlier, entries).observations,
            after_entries(other, language, targets, after, previous, entries).observations,
            id,
        ),
    decreases entries.len(),
{
    if entries.len() > 0 {
        let rest = entries.drop_last();
        lemma_entries_agree(
            one,
            other,
            language,
            targets,
            before,
            after,
            earlier,
            previous,
            rest,
            id,
        );
        let named = entry_target(entries.last());
        if let Some(t) = last_target(targets, named) {
            lemma_last_target(targets, named);
            lemma_cases_agree(
                after_entries(one, language, targets, before, earlier, rest),
                after_entries(other, language, targets, after, previous, rest),
                language,
                targets[t],
                facts_at(before, t),
                facts_at(after, t),
                earlier,
                previous,
                entry_cases(entries.last()),
                id,
            );
        }
    }
}

proof fn lemma_last_target(targets: Seq<VerificationTargetModel>, id: Seq<char>)
    ensures
        last_target(targets, id) matches Some(t) ==> 0 <= t < targets.len() && targets[t].id == id,
    decreases targets.len(),
{
    if targets.len() > 0 && targets.last().id != id {
        lemma_last_target(targets.drop_last(), id);
    }
}

proof fn lemma_manifests_agree(
    language: Seq<char>,
    targets: Seq<VerificationTargetModel>,
    before: Seq<TargetFactsModel>,
    after: Seq<TargetFactsModel>,
    earlier: JsonModel,
    previous: JsonModel,
    manifests: Seq<JsonModel>,
    id: Seq<char>,
)
    requires
        last_target(targets, id) matches Some(t) ==> facts_at(before, t) == facts_at(after, t),
    ensures
        agree_on(
            after_manifests(language, targets, before, earlier, manifests).observations,
            after_manifests(language, targets, after, previous, manifests).observations,
            id,
        ),
    decreases manifests.len(),
{
    if manifests.len() > 0 {
        let rest = manifests.drop_last();
        lemma_manifests_agree(
            language,
            targets,
            before,
            after,
            earlier,
            previous,
            rest,
            id,
        );
        lemma_entries_agree(
            after_manifests(language, targets, before, earlier, rest),
            after_manifests(language, targets, after, previous, rest),
            language,
            targets,
            before,
            after,
            earlier,
            previous,
            entries_of(manifests.last()),
            id,
        );
    }
}

/// A replay against the baseline of an earlier one compares case by case: a case whose hash
/// is that of the earlier replay is unchanged, and any other is changed. Each change is
/// reported as a finding on its target, and there is no other finding.
pub proof fn law_drift_is_a_change_of_the_hash(
    language: Seq<char>,
    targets: Seq<VerificationTargetModel>,
    before: Seq<TargetFactsModel>,
    after: Seq<TargetFactsModel>,
    earlier: JsonModel,
    manifests: Seq<JsonModel>,
)
    requires
        one_hash_each(
            after_manifests(language, targets, before, earlier, manifests).observations,
        ),
    ensures
        ({
            let first = after_manifests(language, targets, before, earlier, manifests);
            let second = after_manifests(
                language,
                targets,
                after,
                earlier_observations(Some(baseline_document(language, first.observations))),
                manifests,
            );
            &&& second.comparisons.len() == first.observations.len()
            &&& second.observations.len() == first.observations.len()
            &&& forall|i: int|
                0 <= i < second.comparisons.len() ==> if recorded_hash(
                    Some(second.observations[i].1),
                ) == recorded_hash(Some(first.observations[i].1)) {
                    is_steady(#[trigger] second.comparisons[i])
                } else {
                    is_drift(second.comparisons[i]) && is_reported(
                        second.failures,
                        second.comparisons[i],
                    )
                }
            &&& forall|f: int|
                0 <= f < second.failures.len() ==> reports_drift(
                    #[trigger] second.failures[f],
                    second.comparisons,
                )
        }),
{
    let first = after_manifests(language, targets, before, earlier, manifests);
    let previous = JsonModel::Object(by_name(first.observations));
    lemma_baseline_names(language, first.observations);
    lemma_manifests_are_consistent(language, targets, before, earlier, manifests);
    lemma_manifests_are_consistent(language, targets, after, previous, manifests);
    let second = after_manifests(language, targets, after, previous, manifests);
    lemma_manifests_match(language, targets, before, after, earlier, previous, manifests);
    assert forall|i: int| 0 <= i < second.comparisons.len() implies if recorded_hash(
        Some(second.observations[i].1),
    ) == recorded_hash(Some(first.observations[i].1)) {
        is_steady(#[trigger] second.comparisons[i])
    } else {
        is_drift(second.comparisons[i]) && is_reported(second.failures, second.comparisons[i])
    } by {
        let j = lemma_by_name_keeps_values(first.observations, i);
        assert(first.observations[j].0 == first.observations[i].0);
        assert(first.observations[i].0 == second.observations[i].0);
        assert(is_compared(previous, second.observations[i], second.comparisons[i]));
        assert(is_compared(earlier, first.observations[i], first.comparisons[i]));
    }
}

/// Two replays of the same manifests record the same cases.
proof fn lemma_manifests_match(
    language: Seq<char>,
    targets: Seq<VerificationTargetModel>,
    before: Seq<TargetFactsModel>,
    after: Seq<TargetFactsModel>,
    earlier: JsonModel,
    previous: JsonModel,
    manifests: Seq<JsonModel>,
)
    ensures
        ({
            let one = after_manifests(language, targets, before, earlier, manifests).observations;
            let other = after_manifests(language, targets, after, previous, manifests).observations;
            &&& one.len() == other.len()
            &&& forall|i: int| 0 <= i < one.len() ==> (#[trigger] one[i]).0 == other[i].0
        }),
{
    lemma_some_id_is_free(targets);
    let id = choose|id: Seq<char>| last_target(targets, id) is None;
    lemma_manifests_agree(language, targets, before, after, earlier, previous, manifests, id);
}

proof fn lemma_some_id_is_free(targets: Seq<VerificationTargetModel>)
    ensures
        exists|id: Seq<char>| last_target(targets, id) is None,
{
    let most = lemma_ids_are_bounded(targets);
    let id = Seq::new(most + 1, |i: int| 'x');
    lemma_last_target(targets, id);
    assert(last_target(targets, id) is None);
}

proof fn lemma_ids_are_bounded(targets: Seq<VerificationTargetModel>) -> (most: nat)
    ensures
        forall|t: int| 0 <= t < targets.len() ==> (#[trigger] targets[t]).id.len() <= most,
    decreases targets.len(),
{
    if targets.len() == 0 {
        0
    } else {
        let rest = targets.drop_last();
        let most = lemma_ids_are_bounded(rest);
        assert forall|t: int| 0 <= t < targets.len() implies (#[trigger] targets[t]).id.len()
            <= most + targets.last().id.len() by {
            if t < rest.len() {
                assert(rest[t] == targets[t]);
            }
        }
        most + targets.last().id.len()
    }
}

/// A target that nobody touched does not drift: where the file of a target agrees with the
/// earlier one on the lines of the target, and the plugin saw the same of it, every case of
/// the target compares as unchanged with the baseline of the earlier replay, and there is no
/// finding on it, whatever changed elsewhere.
pub proof fn law_untouched_targets_do_not_drift(
    language: Seq<char>,
    targets: Seq<VerificationTargetModel>,
    before: Seq<TargetFactsModel>,
    after: Seq<TargetFactsModel>,
    earlier: JsonModel,
    manifests: Seq<JsonModel>,
    t: int,
    old_file: Seq<char>,
    new_file: Seq<char>,
)
    requires
        one_hash_each(
            after_manifests(language, targets, before, earlier, manifests).observations,
        ),
        0 <= t < targets.len(),
        t < before.len(),
        t < after.len(),
        forall|k: int| t < k < targets.len() ==> (#[trigger] targets[k]).id != targets[t].id,
        before[t].source == source_fragment(old_file, targets[t].line_range),
        after[t].source == source_fragment(new_file, targets[t].line_range),
        before[t].observations == after[t].observations,
        targets[t].line_range matches Some(range) && 1 <= range.start <= range.end && range.end
            <= lines_of(old_file).len() && range.end <= lines_of(new_file).len() && forall|line: int|
            range.start <= line <= range.end ==> #[trigger] lines_of(old_file)[line - 1]
                == lines_of(new_file)[line - 1],
    ensures
        ({
            let first = after_manifests(language, targets, before, earlier, manifests);
            let second = after_manifests(
                language,
                targets,
                after,
                earlier_observations(Some(baseline_document(language, first.observations))),
                manifests,
            );
            &&& forall|i: int|
                0 <= i < second.comparisons.len() && text_under(
                    #[trigger] second.comparisons[i],
                    "target_id"@,
                ) == Some(targets[t].id) ==> is_steady(second.comparisons[i])
            &&& forall|f: int|
                0 <= f < second.failures.len() ==> (#[trigger] second.failures[f]).target_id
                    != Some(targets[t].id)
        }),
{
    let first = after_manifests(language, targets, before, earlier, manifests);
    let previous = JsonModel::Object(by_name(first.observations));
    let second = after_manifests(language, targets, after, previous, manifests);
    let id = targets[t].id;
    law_source_depends_on_its_lines_alone(old_file, new_file, targets[t].line_range->0);
    assert(before[t] == after[t]);
    lemma_last_of(targets, t);
    lemma_baseline_names(language, first.observations);
    lemma_manifests_agree(language, targets, before, after, earlier, previous, manifests, id);
    law_drift_is_a_change_of_the_hash(language, targets, before, after, earlier, manifests);
    lemma_manifests_are_consistent(language, targets, after, previous, manifests);
    lemma_outcome_names();
    assert forall|i: int|
        0 <= i < second.comparisons.len() && text_under(
            #[trigger] second.comparisons[i],
            "target_id"@,
        ) == Some(id) implies is_steady(second.comparisons[i]) by {
        assert(is_compared(previous, second.observations[i], second.comparisons[i]));
        assert(first.observations[i].0 == second.observations[i].0);
    }
    assert forall|f: int| 0 <= f < second.failures.len() implies (
    #[trigger] second.failures[f]).target_id != Some(id) by {
        assert(reports_drift(second.failures[f], second.comparisons));
        let i = choose|i: int|
            0 <= i < second.comparisons.len() && is_drift(#[trigger] second.comparisons[i])
                && second.failures[f].target_id == text_under(
                second.comparisons[i],
                "target_id"@,
            );
        if second.failures[f].target_id == Some(id) {
            assert(is_steady(second.comparisons[i]));
        }
    }
}

proof fn lemma_last_of(targets: Seq<VerificationTargetModel>, t: int)
    requires
        0 <= t < targets.len(),
        forall|k: int| t < k < targets.len() ==> (#[trigger] targets[k]).id != targets[t].id,
    ensures
        last_target(targets, targets[t].id) == Some(t),
    decreases targets.len(),
{
    if t < targets.len() - 1 {
        assert(targets[targets.len() - 1].id != targets[t].id);
        let rest = targets.drop_last();
        assert forall|k: int| t < k < rest.len() implies (#[trigger] rest[k]).id != rest[t].id by {
            assert(rest[k] == targets[k]);
        }
        lemma_last_of(rest, t);
    }
}

/// What stands for the behavior of a function is the output of a run, where the plugin ran it,
/// and its source otherwise: a run whose output is the same hides an edit of the source, and
/// without a run an edit of the source is seen, as is another output of a run.
pub proof fn law_behavior_is_the_output_or_the_source(
    one: Seq<char>,
    other: Seq<char>,
    seen: BehaviorReplayObservationModel,
    again: BehaviorReplayObservationModel,
)
    ensures
        behavior_text(one, None) == one,
        seen.status == BehaviorReplayStatus::Unsupported ==> behavior_text(one, Some(seen)) == one,
        seen.status != BehaviorReplayStatus::Unsupported ==> behavior_text(one, Some(seen))
            == behavior_text(other, Some(seen)),
        seen.status != BehaviorReplayStatus::Unsupported && again.status
            != BehaviorReplayStatus::Unsupported && behavior_text(one, Some(seen))
            == behavior_text(other, Some(again)) ==> compact_json(seen.output) == compact_json(
            again.output,
        ),
{
}

/// Behaviors whose texts differ in one byte have different hashes, so that the edit is a drift.
pub proof fn law_edited_behavior_has_another_hash(
    language: Seq<char>,
    target: VerificationTargetModel,
    inputs: Seq<JsonModel>,
    one: Seq<char>,
    other: Seq<char>,
    k: int,
)
    requires
        encode_utf8(one).len() == encode_utf8(other).len(),
        0 <= k < encode_utf8(one).len(),
        encode_utf8(one)[k] != encode_utf8(other)[k],
        forall|i: int|
            0 <= i < encode_utf8(one).len() && i != k ==> encode_utf8(one)[i] == encode_utf8(
                other,
            )[i],
    ensures
        behavior_hash(language, target, inputs, one) != behavior_hash(
            language,
            target,
            inputs,
            other,
        ),
{
    let a = behavior_bytes(language, target, inputs, one);
    let b = behavior_bytes(language, target, inputs, other);
    let front = a.len() - encode_utf8(one).len();
    assert(b.len() - encode_utf8(other).len() == front);
    assert forall|i: int| 0 <= i < a.len() && i != front + k implies a[i] == b[i] by {
        if i >= front {
            assert(a[i] == encode_utf8(one)[i - front]);
            assert(b[i] == encode_utf8(other)[i - front]);
        }
    }
    assert(a[front + k] == encode_utf8(one)[k]);
    assert(b[front + k] == encode_utf8(other)[k]);
    law_hashes_tell_bytes_apart(a, b, front + k);
    if behavior_hash(language, target, inputs, one) == behavior_hash(
        language,
        target,
        inputs,
        other,
    ) {
        law_hex_digits_tell_numbers_apart(fnv_hash(a), fnv_hash(b));
    }
}

} // verus!
