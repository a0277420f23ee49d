//! The engine: what is verified, what is observed of it, and the reports.
use vstd::prelude::*;

use crate::api::{
    append_coverage_reports, append_failures, append_generated_artifacts,
    append_verification_targets, clone_failures, clone_generated_artifacts, clone_project_infos,
    clone_verification_strategies, clone_verification_targets, empty_report,
    push_generated_artifact, push_test_run_result, push_verification_target, ArtifactKind,
    ArtifactStatus, CoverageReport, CoverageReportModel, Failure, FailureModel, GeneratedArtifact,
    GeneratedArtifactModel, ProjectInfo, ProjectInfoModel, RiskLevel, TargetKind, TestRunResult,
    TestRunResultModel, VerificationPlan, VerificationPlanModel, VerificationReport,
    VerificationReportModel, VerificationStrategy, VerificationTarget, VerificationTargetModel,
};
use crate::campaign::{
    budget_artifacts, budget_plan_artifacts, campaign_artifacts, mutation_campaign_artifacts,
    mutation_trend_artifacts, trend_artifacts, trend_fits,
};
use crate::changes::{
    agent_artifact, ai_feedback_artifact, change_digest_artifact, changed_targets, digest_artifact,
    expand_report_targets, merge_artifacts, merged_artifacts, report_targets,
    targets_for_changed_files, ChangedFile, ChangedFileModel,
};
use crate::config::{VeritasConfig, VeritasConfigModel};
use crate::documents::{
    quality_baseline_document, quality_baseline_in, quality_baseline_json, read_quality_baseline,
    read_verification_report, verification_report_document, verification_report_in,
    verification_report_json,
};
use crate::evolution::{artifact_kind_in, evolution_artifacts, evolution_of};
use crate::fields::{all_texts, read_all_texts};
use crate::findings::{
    assertion_candidate_artifacts, candidate_artifacts, candidate_patch_artifacts,
    corpus_artifacts, corpus_entry_artifacts, patch_artifacts, repro_artifacts, repro_notes,
    texts_of1,
};
use crate::go_packages::{normal_dir, normalize_package_dir, relative_path, relative_to};
use crate::go_plugin::{push_some, some_artifact};
use crate::ids::{all_identified, assign_finding_ids};
use crate::json::{
    as_array, exact_json, formatted, formatted_json, lemma_plain_values_are_exact, parse_exact,
    texts, texts_model, Json, JsonModel,
};
use crate::metrics::{
    no_quality, PerformanceMetrics, VerificationQuality, VerificationQualityModel,
};
use crate::order::{sorted_set, to_sorted_set, ByText};
use crate::paths::{
    extension, is_absolute, joined_path, path_behind, path_extension, path_parts, path_same,
    rooted, same_path,
};
use crate::planner::has_strategy;
use crate::quality::mutants_fit;
use crate::readback::{
    lemma_quality_baseline_is_exact, lemma_quality_baseline_reads, lemma_texts_are_plain,
    lemma_texts_read, lemma_verification_report_is_exact, lemma_verification_report_reads,
    quality_baseline_keeps, verification_report_keeps,
};
use crate::records::{QualityBaseline, QualityBaselineModel};
use crate::regressions::{feedback, feedback_artifacts, regression_artifacts, regression_notes};
use crate::replay::{
    after_manifests, earlier_observations, entry_count, manifest_values, replay_artifacts_of,
    replay_result_artifacts, TargetFacts, TargetFactsModel,
};
use crate::schedule::RunBudget;
use crate::score::{next_steps_for, suggested_next_steps};
use crate::seqs::{cat2, cat3, lemma_take_all, lemma_take_next};
use crate::signatures::{
    api_baseline_artifact, baseline_artifact, by_name, differential_replay_artifact, document_in,
    known_signatures, manifest_artifact, record_in, signature_failures, signatures_of,
};
use crate::split::push_text;
use crate::text::{clone_texts, or_text, owned, same, text_or};
use crate::paths::join as join_path;
use crate::paths::starts_with as path_starts_with;
use crate::paths::strip_prefix as strip_path_prefix;

verus! {

// ---------------------------------------------------------------------------
// Plugins
// ---------------------------------------------------------------------------
/// A plugin under the id of its language.
pub struct RegisteredPlugin<P> {
    pub id: String,
    pub plugin: P,
}

/// The plugins of an engine.
pub struct PluginRegistry<P> {
    plugins: Vec<RegisteredPlugin<P>>,
}

/// The first plugin, from one on, for a language.
pub open spec fn plugin_from<P>(
    plugins: Seq<RegisteredPlugin<P>>,
    language: Seq<char>,
    from: int,
) -> Option<int>
    decreases plugins.len() - from,
{
    if from < 0 || from >= plugins.len() {
        None
    } else if plugins[from].id@ == language {
        Some(from)
    } else {
        plugin_from(plugins, language, from + 1)
    }
}

impl<P> PluginRegistry<P> {
    /// The plugins, in the order in which they were registered.
    pub closed spec fn registered(&self) -> Seq<RegisteredPlugin<P>> {
        self.plugins@
    }

    /// A registry of plugins.
    pub fn new(plugins: Vec<RegisteredPlugin<P>>) -> (r: Self)
        ensures
            r.registered() == plugins@,
    {
        PluginRegistry { plugins }
    }

    /// The plugins, in the order in which they were registered.
    pub fn plugins(&self) -> (r: &Vec<RegisteredPlugin<P>>)
        ensures
            r@ == self.registered(),
    {
        &self.plugins
    }

    /// The first plugin for a language, or what is said where there is none.
    pub fn get(&self, language: &str) -> (r: Result<&P, String>)
        ensures
            match plugin_from(self.registered(), language@, 0) {
                Some(i) => r matches Ok(plugin) && *plugin == self.registered()[i].plugin,
                None => r matches Err(message) && message@ == no_plugin_text(language@),
            },
    {
        let mut i: usize = 0;
        while i < self.plugins.len()
            invariant
                i <= self.plugins@.len(),
                plugin_from(self.plugins@, language@, 0) == plugin_from(
                    self.plugins@,
                    language@,
                    i as int,
                ),
            decreases self.plugins@.len() - i,
        {
            if same(self.plugins[i].id.as_str(), language) {
                return Ok(&self.plugins[i].plugin);
            }
            i = i + 1;
        }
        Err(no_plugin(language))
    }
}

/// What is said where no plugin is registered for a language.
pub open spec fn no_plugin_text(language: Seq<char>) -> Seq<char> {
    let t = "no plugin registered for language `"@ + language + "`"@;
    t
}

fn no_plugin(language: &str) -> (r: String)
    ensures
        r@ == no_plugin_text(language@),
{
    let mut out = owned("no plugin registered for language `");
    out.append(language);
    out.append("`");
    out
}

/// The projects that were found, and their targets.
#[derive(Debug, PartialEq, Eq)]
pub struct ScanResult {
    pub projects: Vec<ProjectInfo>,
    pub targets: Vec<VerificationTarget>,
}

/// The mathematical value of a `ScanResult`.
pub struct ScanResultModel {
    pub projects: Seq<ProjectInfoModel>,
    pub targets: Seq<VerificationTargetModel>,
}

impl DeepView for ScanResult {
    type V = ScanResultModel;

    open spec fn deep_view(&self) -> ScanResultModel {
        ScanResultModel {
            projects: self.projects.deep_view(),
            targets: self.targets.deep_view(),
        }
    }
}

impl Clone for ScanResult {
    fn clone(&self) -> (r: Self)
        ensures
            r.deep_view() == self.deep_view(),
    {
        ScanResult {
            projects: clone_project_infos(&self.projects),
            targets: clone_verification_targets(&self.targets),
        }
    }
}

impl ScanResult {
    /// Nothing found.
    pub fn new() -> (r: Self)
        ensures
            r.deep_view() == (ScanResultModel { projects: Seq::empty(), targets: Seq::empty() }),
    {
        let r = ScanResult { projects: Vec::new(), targets: Vec::new() };
        assert(r.projects.deep_view() =~= Seq::<ProjectInfoModel>::empty());
        assert(r.targets.deep_view() =~= Seq::<VerificationTargetModel>::empty());
        r
    }

    /// Adds a project with its targets.
    pub fn scan(&mut self, project: ProjectInfo, targets: Vec<VerificationTarget>)
        ensures
            final(self).deep_view() == (ScanResultModel {
                projects: old(self).deep_view().projects.push(project.deep_view()),
                targets: old(self).deep_view().targets + targets.deep_view(),
            }),
    {
        let ghost before = self.projects.deep_view();
        self.projects.push(project);
        assert(self.projects.deep_view() =~= before.push(project.deep_view()));
        let mut more = targets;
        append_verification_targets(&mut self.targets, &mut more);
    }
}

// ---------------------------------------------------------------------------
// Targets
// ---------------------------------------------------------------------------
/// What to do after a scan.
pub open spec fn scan_step() -> Seq<char> {
    "Run `veritas verify --lang rust --target <path>`, `veritas verify --lang go --target <path>`, `veritas verify --lang python --target <path>`, or `veritas verify --lang typescript --target <path>`."@
}

/// The report of a scan: the first project, and the targets of all.
pub fn scan_report(scan: &ScanResult) -> (r: VerificationReport)
    ensures
        r.deep_view() == (VerificationReportModel {
            project: if scan.projects@.len() > 0 {
                Some(scan.deep_view().projects[0])
            } else {
                None
            },
            targets: scan.deep_view().targets,
            suggested_next_steps: seq![scan_step()],
            ..empty_report()
        }),
{
    let mut report = VerificationReport::empty();
    if scan.projects.len() > 0 {
        report.project = Some(scan.projects[0].clone());
    }
    report.targets = clone_verification_targets(&scan.targets);
    report.suggested_next_steps = texts_of1(
        "Run `veritas verify --lang rust --target <path>`, `veritas verify --lang go --target <path>`, `veritas verify --lang python --target <path>`, or `veritas verify --lang typescript --target <path>`.",
    );
    report
}

/// A path that was asked for, seen from a directory: what is left of it behind the
/// directory, or all of it; the directory itself is `.`.
pub open spec fn path_from_root(full: Seq<char>, rest: Option<Seq<char>>) -> Seq<char> {
    normal_dir(relative_to(full, rest))
}

/// A path that was asked for, with what is left of it behind a directory.
pub fn target_path_from_root(full: &str, rest: &Option<String>) -> (r: String)
    ensures
        r@ == path_from_root(full@, rest.deep_view()),
{
    normalize_package_dir(relative_path(full, rest).as_str())
}

/// A path that was asked for, in full.
pub open spec fn full_path(root: Seq<char>, path: Seq<char>) -> Seq<char> {
    if rooted(path) {
        path
    } else {
        joined_path(root, path)
    }
}

/// A path that was asked for, seen from a directory.
pub fn normalize_target_path(root: &str, path: &str) -> (r: String)
    ensures
        r@ == path_from_root(full_path(root@, path@), path_behind(full_path(root@, path@), root@)),
{
    let full = if is_absolute(path) {
        owned(path)
    } else {
        join_path(root, path)
    };
    let rest = strip_path_prefix(full.as_str(), root);
    target_path_from_root(full.as_str(), &rest)
}

/// The first target, from one on, at a path.
pub open spec fn target_at_from(
    items: Seq<VerificationTargetModel>,
    path: Seq<char>,
    from: int,
) -> Option<int>
    decreases items.len() - from,
{
    if from < 0 || from >= items.len() {
        None
    } else if same_path(items[from].path, path) {
        Some(from)
    } else {
        target_at_from(items, path, from + 1)
    }
}

fn target_at(items: &Vec<VerificationTarget>, path: &str) -> (r: Option<usize>)
    ensures
        r matches Some(i) ==> i < items@.len() && target_at_from(items.deep_view(), path@, 0) == Some(
            i as int,
        ),
        r is None ==> target_at_from(items.deep_view(), path@, 0) is None,
{
    let ghost all = items.deep_view();
    let mut i: usize = 0;
    while i < items.len()
        invariant
            i <= items@.len(),
            all == items.deep_view(),
            target_at_from(all, path@, 0) == target_at_from(all, path@, i as int),
        decreases items@.len() - i,
    {
        assert(all[i as int] == items@[i as int].deep_view());
        if path_same(items[i].path.as_str(), path) {
            return Some(i);
        }
        i = i + 1;
    }
    None
}

/// The first target, from one on, above or below a path.
pub open spec fn target_near_from(
    items: Seq<VerificationTargetModel>,
    path: Seq<char>,
    from: int,
) -> Option<int>
    decreases items.len() - from,
{
    if from < 0 || from >= items.len() {
        None
    } else if path_parts(path).is_prefix_of(path_parts(items[from].path)) || path_parts(items[from].path).is_prefix_of(path_parts(path)) {
        Some(from)
    } else {
        target_near_from(items, path, from + 1)
    }
}

fn target_near(items: &Vec<VerificationTarget>, path: &str) -> (r: Option<usize>)
    ensures
        r matches Some(i) ==> i < items@.len() && target_near_from(items.deep_view(), path@, 0) == Some(
            i as int,
        ),
        r is None ==> target_near_from(items.deep_view(), path@, 0) is None,
{
    let ghost all = items.deep_view();
    let mut i: usize = 0;
    while i < items.len()
        invariant
            i <= items@.len(),
            all == items.deep_view(),
            target_near_from(all, path@, 0) == target_near_from(all, path@, i as int),
        decreases items@.len() - i,
    {
        assert(all[i as int] == items@[i as int].deep_view());
        if path_starts_with(items[i].path.as_str(), path) || path_starts_with(path, items[i].path.as_str()) {
            return Some(i);
        }
        i = i + 1;
    }
    None
}

/// The first target, from one on, that is not the project.
pub open spec fn target_inside_from(items: Seq<VerificationTargetModel>, from: int) -> Option<int>
    decreases items.len() - from,
{
    if from < 0 || from >= items.len() {
        None
    } else if items[from].kind != TargetKind::Project {
        Some(from)
    } else {
        target_inside_from(items, from + 1)
    }
}

fn target_inside(items: &Vec<VerificationTarget>) -> (r: Option<usize>)
    ensures
        r matches Some(i) ==> i < items@.len() && target_inside_from(items.deep_view(), 0) == Some(
            i as int,
        ),
        r is None ==> target_inside_from(items.deep_view(), 0) is None,
{
    let ghost all = items.deep_view();
    let mut i: usize = 0;
    while i < items.len()
        invariant
            i <= items@.len(),
            all == items.deep_view(),
            target_inside_from(all, 0) == target_inside_from(all, i as int),
        decreases items@.len() - i,
    {
        assert(all[i as int] == items@[i as int].deep_view());
        if items[i].kind != TargetKind::Project {
            return Some(i);
        }
        i = i + 1;
    }
    None
}

/// A file that was asked for.
pub open spec fn asked_file_model(language: Seq<char>, path: Seq<char>) -> VerificationTargetModel {
    VerificationTargetModel {
        id: language + ":"@ + path,
        language: language,
        kind: TargetKind::File,
        path: path,
        symbol: None,
        signature: None,
        line_range: None,
        description: "explicit CLI file target"@,
        risk: RiskLevel::Medium,
    }
}

fn asked_file(language: &str, path: &str) -> (r: VerificationTarget)
    ensures
        r.deep_view() == asked_file_model(language@, path@),
{
    VerificationTarget {
        id: cat3(language, ":", path),
        language: owned(language),
        kind: TargetKind::File,
        path: owned(path),
        symbol: None,
        signature: None,
        line_range: None,
        description: owned("explicit CLI file target"),
        risk: RiskLevel::Medium,
    }
}

/// A path that was asked for, of some kind.
pub open spec fn asked_path_model(
    language: Seq<char>,
    path: Seq<char>,
    kind: TargetKind,
) -> VerificationTargetModel {
    VerificationTargetModel {
        id: language + ":"@ + path,
        language: language,
        kind: kind,
        path: path,
        symbol: None,
        signature: None,
        line_range: None,
        description: "explicit CLI target"@,
        risk: RiskLevel::Medium,
    }
}

fn asked_path(language: &str, path: &str, kind: TargetKind) -> (r: VerificationTarget)
    ensures
        r.deep_view() == asked_path_model(language@, path@, kind),
{
    VerificationTarget {
        id: cat3(language, ":", path),
        language: owned(language),
        kind: kind,
        path: owned(path),
        symbol: None,
        signature: None,
        line_range: None,
        description: owned("explicit CLI target"),
        risk: RiskLevel::Medium,
    }
}

/// A whole project.
pub open spec fn whole_project_model(language: Seq<char>) -> VerificationTargetModel {
    VerificationTargetModel {
        id: language + ":project"@,
        language: language,
        kind: TargetKind::Project,
        path: "."@,
        symbol: None,
        signature: None,
        line_range: None,
        description: "whole project"@,
        risk: RiskLevel::Medium,
    }
}

fn whole_project(language: &str) -> (r: VerificationTarget)
    ensures
        r.deep_view() == whole_project_model(language@),
{
    VerificationTarget {
        id: cat2(language, ":project"),
        language: owned(language),
        kind: TargetKind::Project,
        path: owned("."),
        symbol: None,
        signature: None,
        line_range: None,
        description: owned("whole project"),
        risk: RiskLevel::Medium,
    }
}

/// The target of a run without a path: the first that is not the project, or the whole
/// project.
pub open spec fn default_target(
    language: Seq<char>,
    targets: Seq<VerificationTargetModel>,
) -> VerificationTargetModel {
    match target_inside_from(targets, 0) {
        Some(i) => targets[i],
        None => whole_project_model(language),
    }
}

/// The target of a run without a path.
pub fn run_target(language: &str, targets: &Vec<VerificationTarget>) -> (r: VerificationTarget)
    ensures
        r.deep_view() == default_target(language@, targets.deep_view()),
{
    match target_inside(targets) {
        Some(i) => {
            assert(targets.deep_view()[i as int] == targets@[i as int].deep_view());
            targets[i].clone()
        },
        None => whole_project(language),
    }
}

/// The target that is asked for: a file as such; else the first target at the path, or
/// the first above or below it, or the path itself. Without a path, the first target
/// that is not the project.
pub open spec fn target_for(
    language: Seq<char>,
    path: Option<Seq<char>>,
    targets: Seq<VerificationTargetModel>,
) -> VerificationTargetModel {
    match path {
        Some(relative) => if relative != "."@ && path_extension(relative) is Some {
            asked_file_model(language, relative)
        } else {
            match (target_at_from(targets, relative, 0), target_near_from(targets, relative, 0)) {
                (Some(i), _) => targets[i],
                (None, Some(i)) => targets[i],
                (None, None) => asked_path_model(
                    language,
                    relative,
                    if path_extension(relative) is Some {
                        TargetKind::File
                    } else {
                        TargetKind::Package
                    },
                ),
            }
        },
        None => default_target(language, targets),
    }
}

/// The target that is asked for.
pub fn resolve_target_from_targets(
    language: &str,
    path: &Option<String>,
    targets: &Vec<VerificationTarget>,
) -> (r: VerificationTarget)
    ensures
        r.deep_view() == target_for(language@, path.deep_view(), targets.deep_view()),
{
    match path {
        Some(relative) => {
            let named = extension(relative.as_str()).is_some();
            if !same(relative.as_str(), ".") && named {
                return asked_file(language, relative.as_str());
            }
            if let Some(i) = target_at(targets, relative.as_str()) {
                assert(targets.deep_view()[i as int] == targets@[i as int].deep_view());
                return targets[i].clone();
            }
            if let Some(i) = target_near(targets, relative.as_str()) {
                assert(targets.deep_view()[i as int] == targets@[i as int].deep_view());
                return targets[i].clone();
            }
            asked_path(
                language,
                relative.as_str(),
                if named {
                    TargetKind::File
                } else {
                    TargetKind::Package
                },
            )
        },
        None => run_target(language, targets),
    }
}

proof fn lemma_first_at(items: Seq<VerificationTargetModel>, path: Seq<char>, from: int)
    requires
        0 <= from <= items.len(),
    ensures
        target_at_from(items, path, from) matches Some(i) ==> from <= i < items.len() && path_parts(
            items[i].path,
        ) == path_parts(path) && forall|j: int|
            from <= j < i ==> path_parts((#[trigger] items[j]).path) != path_parts(path),
        target_at_from(items, path, from) is None ==> forall|j: int|
            from <= j < items.len() ==> path_parts((#[trigger] items[j]).path) != path_parts(path),
    decreases items.len() - from,
{
    if from < items.len() && !same_path(items[from].path, path) {
        lemma_first_at(items, path, from + 1);
    }
}

/// Whether a path is above or below another one, or the same.
pub open spec fn is_near(a: Seq<char>, b: Seq<char>) -> bool {
    path_parts(a).is_prefix_of(path_parts(b)) || path_parts(b).is_prefix_of(path_parts(a))
}

proof fn lemma_first_near(items: Seq<VerificationTargetModel>, path: Seq<char>, from: int)
    requires
        0 <= from <= items.len(),
    ensures
        target_near_from(items, path, from) matches Some(i) ==> from <= i < items.len() && is_near(
            items[i].path,
            path,
        ) && forall|j: int| from <= j < i ==> !is_near((#[trigger] items[j]).path, path),
        target_near_from(items, path, from) is None ==> forall|j: int|
            from <= j < items.len() ==> !is_near((#[trigger] items[j]).path, path),
    decreases items.len() - from,
{
    if from < items.len() && !is_near(items[from].path, path) {
        lemma_first_near(items, path, from + 1);
    }
}

proof fn lemma_first_inside(items: Seq<VerificationTargetModel>, from: int)
    requires
        0 <= from <= items.len(),
    ensures
        target_inside_from(items, from) matches Some(i) ==> from <= i < items.len()
            && items[i].kind != TargetKind::Project && forall|j: int|
            from <= j < i ==> (#[trigger] items[j]).kind == TargetKind::Project,
        target_inside_from(items, from) is None ==> forall|j: int|
            from <= j < items.len() ==> (#[trigger] items[j]).kind == TargetKind::Project,
    decreases items.len() - from,
{
    if from < items.len() && items[from].kind == TargetKind::Project {
        lemma_first_inside(items, from + 1);
    }
}

/// A path without an extension asks for the first target at it, whatever is above or below it;
/// where there is none, for the first target above or below it; and where there is none of
/// these, for a package of its own.
pub proof fn law_paths_ask_for_their_targets(
    language: Seq<char>,
    path: Seq<char>,
    targets: Seq<VerificationTargetModel>,
    i: int,
)
    requires
        path == "."@ || path_extension(path) is None,
    ensures
        0 <= i < targets.len() && path_parts(targets[i].path) == path_parts(path) && (forall|j: int|
            0 <= j < i ==> path_parts((#[trigger] targets[j]).path) != path_parts(path))
            ==> target_for(language, Some(path), targets) == targets[i],
        0 <= i < targets.len() && is_near(targets[i].path, path) && (forall|j: int|
            0 <= j < targets.len() ==> path_parts((#[trigger] targets[j]).path) != path_parts(path))
            && (forall|j: int| 0 <= j < i ==> !is_near((#[trigger] targets[j]).path, path))
            ==> target_for(language, Some(path), targets) == targets[i],
        (forall|j: int| 0 <= j < targets.len() ==> !is_near((#[trigger] targets[j]).path, path))
            && path_extension(path) is None ==> {
            let target = target_for(language, Some(path), targets);
            &&& target.kind == TargetKind::Package
            &&& target.path == path
            &&& target.language == language
            &&& target.id == language + ":"@ + path
        },
{
    lemma_first_at(targets, path, 0);
    lemma_first_near(targets, path, 0);
    if 0 <= i < targets.len() {
        assert(path_parts(targets[i].path) == path_parts(path) ==> target_at_from(targets, path, 0)
            is Some);
    }
    match target_at_from(targets, path, 0) {
        Some(k) => {
            assert(is_near(targets[k].path, path));
        },
        None => {},
    }
}

/// A path with an extension asks for that file, whatever the targets are, and no path asks for
/// the first target that is not the project, or for the project where there is no other.
pub proof fn law_files_are_asked_for_as_such(
    language: Seq<char>,
    path: Seq<char>,
    targets: Seq<VerificationTargetModel>,
    i: int,
)
    ensures
        path != "."@ && path_extension(path) is Some ==> {
            let target = target_for(language, Some(path), targets);
            &&& target.kind == TargetKind::File
            &&& target.path == path
            &&& target.language == language
            &&& target.id == language + ":"@ + path
        },
        0 <= i < targets.len() && targets[i].kind != TargetKind::Project && (forall|j: int|
            0 <= j < i ==> (#[trigger] targets[j]).kind == TargetKind::Project) ==> target_for(
            language,
            None,
            targets,
        ) == targets[i],
        (forall|j: int|
            0 <= j < targets.len() ==> (#[trigger] targets[j]).kind == TargetKind::Project) ==> {
            let target = target_for(language, None, targets);
            &&& target.kind == TargetKind::Project
            &&& target.path == "."@
            &&& target.language == language
        },
{
    lemma_first_inside(targets, 0);
    match target_inside_from(targets, 0) {
        Some(k) => {
            assert(targets[k].kind != TargetKind::Project);
        },
        None => {},
    }
}

// ---------------------------------------------------------------------------
// Plans and artifacts
// ---------------------------------------------------------------------------
/// A plan with the strategies that were asked for, where there are any.
pub open spec fn with_requested(
    plan: VerificationPlanModel,
    requested: Seq<VerificationStrategy>,
) -> VerificationPlanModel {
    if requested.len() == 0 {
        plan
    } else {
        VerificationPlanModel { strategies: requested, ..plan }
    }
}

/// A plan with the strategies that were asked for, where there are any.
pub fn requested_plan(plan: &VerificationPlan, requested: &Vec<VerificationStrategy>) -> (r:
    VerificationPlan)
    ensures
        r.deep_view() == with_requested(plan.deep_view(), requested@),
{
    let mut changed = plan.clone();
    if requested.len() > 0 {
        changed.strategies = clone_verification_strategies(requested);
    }
    changed
}

/// A plan that runs nothing.
pub fn generation_plan(plan: &VerificationPlan, requested: &Vec<VerificationStrategy>) -> (r:
    VerificationPlan)
    ensures
        r.deep_view() == (VerificationPlanModel {
            run_existing_tests: false,
            run_generated_tests: false,
            ..with_requested(plan.deep_view(), requested@)
        }),
{
    let mut changed = requested_plan(plan, requested);
    changed.run_existing_tests = false;
    changed.run_generated_tests = false;
    changed
}

/// An artifact that was written.
pub open spec fn as_written(artifact: GeneratedArtifactModel) -> GeneratedArtifactModel {
    GeneratedArtifactModel { status: ArtifactStatus::Written, ..artifact }
}

fn written_artifact(artifact: &GeneratedArtifact) -> (r: GeneratedArtifact)
    ensures
        r.deep_view() == as_written(artifact.deep_view()),
{
    let mut changed = artifact.clone();
    changed.status = ArtifactStatus::Written;
    changed
}

/// Artifacts that were written.
pub open spec fn all_written(items: Seq<GeneratedArtifactModel>) -> Seq<GeneratedArtifactModel>
    decreases items.len(),
{
    if items.len() == 0 {
        Seq::empty()
    } else {
        all_written(items.drop_last()).push(as_written(items.last()))
    }
}

/// Artifacts that were written.
pub fn written_artifacts(items: &Vec<GeneratedArtifact>) -> (r: Vec<GeneratedArtifact>)
    ensures
        r.deep_view() == all_written(items.deep_view()),
{
    let mut out: Vec<GeneratedArtifact> = Vec::new();
    let ghost all = items.deep_view();
    let mut i: usize = 0;
    assert(out.deep_view() == all_written(all.take(0)));
    while i < items.len()
        invariant
            i <= items@.len(),
            all == items.deep_view(),
            out.deep_view() == all_written(all.take(i as int)),
        decreases items@.len() - i,
    {
        proof {
            lemma_take_next(all, i as int);
        }
        push_generated_artifact(&mut out, written_artifact(&items[i]));
        i = i + 1;
    }
    proof {
        lemma_take_all(all);
    }
    out
}

/// The artifacts of a plan, with the one of the cache, merged, and marked as written
/// where the plan writes them.
pub open spec fn planned_artifacts(
    artifacts: Seq<GeneratedArtifactModel>,
    cache: Option<GeneratedArtifactModel>,
    write: bool,
) -> Seq<GeneratedArtifactModel> {
    let merged = merged_artifacts(artifacts + some_artifact(cache));
    if write {
        all_written(merged)
    } else {
        merged
    }
}

/// The artifacts of a plan.
pub fn plan_artifacts(
    artifacts: Vec<GeneratedArtifact>,
    cache: Option<GeneratedArtifact>,
    write: bool,
) -> (r: Vec<GeneratedArtifact>)
    ensures
        r.deep_view() == planned_artifacts(artifacts.deep_view(), cache.deep_view(), write),
{
    let mut all = artifacts;
    push_some(&mut all, cache);
    let merged = merge_artifacts(&all);
    if write {
        written_artifacts(&merged)
    } else {
        merged
    }
}

// ---------------------------------------------------------------------------
// Observations
// ---------------------------------------------------------------------------
/// What the observations of a report depend on besides the report: the signatures and
/// the behavior that were recorded, what is known of the targets now, the quality that
/// was accepted, and the statuses of mutants that are shown.
pub struct ObservationInputs {
    pub api_baseline: Option<String>,
    pub behavior_baseline: Option<String>,
    pub facts: Vec<TargetFacts>,
    pub quality_baseline: Option<QualityBaseline>,
    pub output_statuses: Vec<String>,
}

/// The mathematical value of an `ObservationInputs`.
pub struct ObservationInputsModel {
    pub api_baseline: Option<Seq<char>>,
    pub behavior_baseline: Option<Seq<char>>,
    pub facts: Seq<TargetFactsModel>,
    pub quality_baseline: Option<QualityBaselineModel>,
    pub output_statuses: Seq<Seq<char>>,
}

impl DeepView for ObservationInputs {
    type V = ObservationInputsModel;

    open spec fn deep_view(&self) -> ObservationInputsModel {
        ObservationInputsModel {
            api_baseline: self.api_baseline.deep_view(),
            behavior_baseline: self.behavior_baseline.deep_view(),
            facts: self.facts.deep_view(),
            quality_baseline: self.quality_baseline.deep_view(),
            output_statuses: self.output_statuses.deep_view(),
        }
    }
}

/// The artifacts and findings of comparing signatures.
#[verifier::opaque]
pub open spec fn compared(
    language: Seq<char>,
    report: VerificationReportModel,
    baseline: Option<Seq<char>>,
) -> (Seq<GeneratedArtifactModel>, Seq<FailureModel>) {
    (
        seq![
            baseline_artifact(language, report.targets),
            manifest_artifact(language, report.targets),
        ],
        signature_failures(
            language,
            known_signatures(record_in(baseline)),
            by_name(signatures_of(report.targets)),
        ),
    )
}

/// The artifacts and findings of replaying behavior.
#[verifier::opaque]
pub open spec fn replayed(
    language: Seq<char>,
    report: VerificationReportModel,
    pending: Seq<GeneratedArtifactModel>,
    inputs: ObservationInputsModel,
) -> (Seq<GeneratedArtifactModel>, Seq<FailureModel>) {
    let all = report.artifacts + pending;
    let count = artifact_kind_in(all, ArtifactKind::DifferentialReplay);
    if count == 0 {
        (Seq::empty(), Seq::empty())
    } else {
        let log = after_manifests(
            language,
            report.targets,
            inputs.facts,
            earlier_observations(document_in(inputs.behavior_baseline)),
            manifest_values(all),
        );
        (
            replay_artifacts_of(language, count, entry_count(manifest_values(all)), log),
            log.failures,
        )
    }
}

/// The artifacts and findings of the comparison, where it is asked for.
pub open spec fn first_observations(
    language: Seq<char>,
    report: VerificationReportModel,
    inputs: ObservationInputsModel,
    differential: bool,
) -> (Seq<GeneratedArtifactModel>, Seq<FailureModel>) {
    if differential {
        compared(language, report, inputs.api_baseline)
    } else {
        (Seq::empty(), Seq::empty())
    }
}

/// The artifacts of the comparison and of the replay, and the report with their findings.
pub open spec fn second_observations(
    language: Seq<char>,
    report: VerificationReportModel,
    inputs: ObservationInputsModel,
    differential: bool,
) -> (Seq<GeneratedArtifactModel>, VerificationReportModel) {
    let (first, failures) = first_observations(language, report, inputs, differential);
    let known = VerificationReportModel { findings: report.findings + failures, ..report };
    let (more, drift) = replayed(language, known, first, inputs);
    (first + more, VerificationReportModel { findings: known.findings + drift, ..known })
}

/// The artifacts that are made of findings.
#[verifier::opaque]
pub open spec fn finding_artifacts(
    language: Seq<char>,
    report: VerificationReportModel,
) -> Seq<GeneratedArtifactModel> {
    feedback(language, report) + repro_notes(language, report.findings) + candidate_artifacts(
        language,
        report.findings,
    ) + corpus_artifacts(language, report.findings) + patch_artifacts(language, report.findings)
        + regression_notes(language, report.findings)
}

/// All the artifacts of observations, in the order in which they are made, given those
/// of the comparison and of the replay.
#[verifier::opaque]
pub open spec fn observation_artifacts(
    language: Seq<char>,
    report: VerificationReportModel,
    before: Seq<GeneratedArtifactModel>,
    inputs: ObservationInputsModel,
) -> Seq<GeneratedArtifactModel> {
    let known = before + finding_artifacts(language, report);
    known + evolution_of(language, report, known) + budget_artifacts(language, report)
        + trend_artifacts(language, report, inputs.quality_baseline) + campaign_artifacts(
        language,
        report,
        inputs.output_statuses,
    )
}

/// Whether the numbers of a report are small enough for its observations.
pub open spec fn observable(
    language: Seq<char>,
    report: VerificationReportModel,
    inputs: ObservationInputsModel,
    differential: bool,
) -> bool {
    let (_, known) = second_observations(language, report, inputs, differential);
    trend_fits(known, inputs.quality_baseline) && mutants_fit(known, Seq::empty())
}

/// A report with its observations: the findings of the comparison and of the replay, and
/// all the artifacts, marked as written where they are.
pub open spec fn observed(
    language: Seq<char>,
    report: VerificationReportModel,
    inputs: ObservationInputsModel,
    differential: bool,
    write: bool,
) -> VerificationReportModel {
    let (before, known) = second_observations(language, report, inputs, differential);
    let artifacts = observation_artifacts(language, known, before, inputs);
    VerificationReportModel {
        artifacts: report.artifacts + if write {
            all_written(artifacts)
        } else {
            artifacts
        },
        ..known
    }
}

fn compare_signatures(
    language: &str,
    report: &VerificationReport,
    baseline: &Option<String>,
) -> (r: (Vec<GeneratedArtifact>, Vec<Failure>))
    ensures
        (r.0.deep_view(), r.1.deep_view()) == compared(
            language@,
            report.deep_view(),
            baseline.deep_view(),
        ),
{
    reveal(compared);
    let mut artifacts: Vec<GeneratedArtifact> = Vec::new();
    let (known, failures) = api_baseline_artifact(language, &report.targets, baseline);
    push_generated_artifact(&mut artifacts, known);
    push_generated_artifact(
        &mut artifacts,
        differential_replay_artifact(language, &report.targets),
    );
    assert(artifacts.deep_view() =~= compared(
        language@,
        report.deep_view(),
        baseline.deep_view(),
    ).0);
    (artifacts, failures)
}

proof fn lemma_kind_count(artifacts: Seq<GeneratedArtifactModel>, kind: ArtifactKind)
    ensures
        artifact_kind_in(artifacts, kind) >= 0,
    decreases artifacts.len(),
{
    if artifacts.len() > 0 {
        lemma_kind_count(artifacts.drop_last(), kind);
    }
}

fn replay_behavior(
    language: &str,
    report: &VerificationReport,
    pending: &Vec<GeneratedArtifact>,
    inputs: &ObservationInputs,
) -> (r: (Vec<GeneratedArtifact>, Vec<Failure>))
    ensures
        (r.0.deep_view(), r.1.deep_view()) == replayed(
            language@,
            report.deep_view(),
            pending.deep_view(),
            inputs.deep_view(),
        ),
{
    reveal(replayed);
    let r = replay_result_artifacts(
        language,
        report,
        pending,
        &inputs.facts,
        &inputs.behavior_baseline,
    );
    proof {
        lemma_kind_count(
            report.deep_view().artifacts + pending.deep_view(),
            ArtifactKind::DifferentialReplay,
        );
        if r.0@.len() == 0 {
            assert(r.0.deep_view() =~= Seq::<GeneratedArtifactModel>::empty());
        }
        if r.1@.len() == 0 {
            assert(r.1.deep_view() =~= Seq::<FailureModel>::empty());
        }
    }
    r
}

fn push_first_observations(
    language: &str,
    report: &mut VerificationReport,
    inputs: &ObservationInputs,
    differential: bool,
) -> (r: Vec<GeneratedArtifact>)
    ensures
        ({
            let (first, failures) = first_observations(
                language@,
                old(report).deep_view(),
                inputs.deep_view(),
                differential,
            );
            &&& r.deep_view() == first
            &&& final(report).deep_view() == (VerificationReportModel {
                findings: old(report).deep_view().findings + failures,
                ..old(report).deep_view()
            })
        }),
{
    let mut artifacts: Vec<GeneratedArtifact> = Vec::new();
    assert(artifacts.deep_view() =~= Seq::<GeneratedArtifactModel>::empty());
    let ghost before = report.findings.deep_view();
    if differential {
        let (found, more) = compare_signatures(language, report, &inputs.api_baseline);
        artifacts = found;
        let mut failures = more;
        append_failures(&mut report.findings, &mut failures);
    } else {
        assert(before + Seq::<FailureModel>::empty() =~= before);
    }
    artifacts
}

fn push_second_observations(
    language: &str,
    report: &mut VerificationReport,
    inputs: &ObservationInputs,
    differential: bool,
) -> (r: Vec<GeneratedArtifact>)
    ensures
        (r.deep_view(), final(report).deep_view()) == second_observations(
            language@,
            old(report).deep_view(),
            inputs.deep_view(),
            differential,
        ),
{
    let mut artifacts = push_first_observations(language, report, inputs, differential);
    let ghost first = artifacts.deep_view();
    let ghost known = report.deep_view();
    let (results, drift) = replay_behavior(language, report, &artifacts, inputs);
    let mut more = results;
    let mut failures = drift;
    append_generated_artifacts(&mut artifacts, &mut more);
    append_failures(&mut report.findings, &mut failures);
    artifacts
}

fn push_finding_artifacts(
    artifacts: &mut Vec<GeneratedArtifact>,
    language: &str,
    report: &VerificationReport,
)
    ensures
        final(artifacts).deep_view() == old(artifacts).deep_view() + finding_artifacts(
            language@,
            report.deep_view(),
        ),
{
    reveal(finding_artifacts);
    let ghost before = artifacts.deep_view();
    let mut notes = feedback_artifacts(language, report);
    append_generated_artifacts(artifacts, &mut notes);
    let mut repros = repro_artifacts(language, &report.findings);
    append_generated_artifacts(artifacts, &mut repros);
    let mut candidates = assertion_candidate_artifacts(language, &report.findings);
    append_generated_artifacts(artifacts, &mut candidates);
    let mut entries = corpus_entry_artifacts(language, &report.findings);
    append_generated_artifacts(artifacts, &mut entries);
    let mut patches = candidate_patch_artifacts(language, &report.findings);
    append_generated_artifacts(artifacts, &mut patches);
    let mut regressions = regression_artifacts(language, &report.findings);
    append_generated_artifacts(artifacts, &mut regressions);
    assert(artifacts.deep_view() =~= before + finding_artifacts(language@, report.deep_view()));
}

fn finish_observations(
    language: &str,
    known: &VerificationReport,
    before: Vec<GeneratedArtifact>,
    inputs: &ObservationInputs,
) -> (r: Option<Vec<GeneratedArtifact>>)
    ensures
        r is Some == (trend_fits(known.deep_view(), inputs.deep_view().quality_baseline)
            && mutants_fit(known.deep_view(), Seq::empty())),
        r matches Some(artifacts) ==> artifacts.deep_view() == observation_artifacts(
            language@,
            known.deep_view(),
            before.deep_view(),
            inputs.deep_view(),
        ),
{
    reveal(observation_artifacts);
    let mut artifacts = before;
    push_finding_artifacts(&mut artifacts, language, known);
    let mut evolution = evolution_artifacts(language, known, &artifacts);
    append_generated_artifacts(&mut artifacts, &mut evolution);
    let mut budget = budget_plan_artifacts(language, known);
    append_generated_artifacts(&mut artifacts, &mut budget);
    let trend = mutation_trend_artifacts(language, known, inputs.quality_baseline.as_ref());
    let campaign = mutation_campaign_artifacts(language, known, &inputs.output_statuses);
    match (trend, campaign) {
        (Some(trends), Some(campaigns)) => {
            let mut first = trends;
            let mut second = campaigns;
            append_generated_artifacts(&mut artifacts, &mut first);
            append_generated_artifacts(&mut artifacts, &mut second);
            Some(artifacts)
        },
        _ => None,
    }
}

/// A report with its observations; nothing where its numbers are too large for them.
pub fn add_observation_artifacts(
    language: &str,
    report: &VerificationReport,
    inputs: &ObservationInputs,
    differential: bool,
    write: bool,
) -> (r: Option<VerificationReport>)
    ensures
        r is Some == observable(language@, report.deep_view(), inputs.deep_view(), differential),
        r matches Some(after) ==> after.deep_view() == observed(
            language@,
            report.deep_view(),
            inputs.deep_view(),
            differential,
            write,
        ),
{
    let mut known = report.clone();
    let before = push_second_observations(language, &mut known, inputs, differential);
    match finish_observations(language, &known, before, inputs) {
        Some(artifacts) => {
            let mut finished = if write {
                written_artifacts(&artifacts)
            } else {
                artifacts
            };
            append_generated_artifacts(&mut known.artifacts, &mut finished);
            Some(known)
        },
        None => None,
    }
}

/// Observations keep the targets, runs and coverage of a report, and every artifact and
/// finding that it has.
pub proof fn law_observations_keep_what_is_there(
    language: Seq<char>,
    report: VerificationReportModel,
    inputs: ObservationInputsModel,
    differential: bool,
    write: bool,
)
    ensures
        ({
            let after = observed(language, report, inputs, differential, write);
            &&& after.targets == report.targets
            &&& after.runs == report.runs
            &&& after.coverage == report.coverage
            &&& after.plan == report.plan
            &&& report.artifacts.is_prefix_of(after.artifacts)
            &&& report.findings.is_prefix_of(after.findings)
        }),
{
    let (first, failures) = first_observations(language, report, inputs, differential);
    let known = VerificationReportModel { findings: report.findings + failures, ..report };
    let (more, drift) = replayed(language, known, first, inputs);
    assert(report.findings + failures + drift =~= report.findings + (failures + drift));
}

// ---------------------------------------------------------------------------
// Reports
// ---------------------------------------------------------------------------
/// The engine: what it is configured to do.
pub struct CoreEngine {
    config: VeritasConfig,
}

impl CoreEngine {
    /// The configuration.
    pub closed spec fn settings(&self) -> VeritasConfigModel {
        self.config.deep_view()
    }

    /// An engine.
    pub fn new(config: VeritasConfig) -> (r: Self)
        ensures
            r.settings() == config.deep_view(),
    {
        CoreEngine { config }
    }

    /// The configuration.
    pub fn config(&self) -> (r: &VeritasConfig)
        ensures
            r.deep_view() == self.settings(),
    {
        &self.config
    }

    /// The statuses of mutants that are shown for a language: all where there is none.
    pub fn mutation_output_statuses(&self, language: &str) -> (r: Vec<String>)
        ensures
            r.deep_view() == shown_statuses(self.settings(), language@),
    {
        if same(language, "go") {
            clone_texts(&self.config.plugins.go.mutation.output_statuses)
        } else if same(language, "rust") {
            clone_texts(&self.config.plugins.rust.mutation.output_statuses)
        } else {
            let none: Vec<String> = Vec::new();
            assert(none.deep_view() =~= Seq::<Seq<char>>::empty());
            none
        }
    }

    /// The budget of a run.
    pub fn budget(&self) -> (r: RunBudget)
        ensures
            r.total_seconds == if self.settings().budget_seconds < 1 {
                1
            } else {
                self.settings().budget_seconds
            },
    {
        RunBudget::new(self.config.budget_seconds)
    }
}

/// The statuses of mutants that are shown for a language: all where there is none.
pub open spec fn shown_statuses(config: VeritasConfigModel, language: Seq<char>) -> Seq<Seq<char>> {
    if language == "go"@ {
        config.plugins.go.mutation.output_statuses
    } else if language == "rust"@ {
        config.plugins.rust.mutation.output_statuses
    } else {
        Seq::empty()
    }
}

/// Whether a plan compares signatures and behavior.
pub fn is_differential(plan: &VerificationPlan) -> (r: bool)
    ensures
        r == plan.deep_view().strategies.contains(VerificationStrategy::DifferentialTests),
{
    has_strategy(&plan.strategies, VerificationStrategy::DifferentialTests)
}

/// Whether a plan runs tests.
pub fn runs_tests(plan: &VerificationPlan) -> (r: bool)
    ensures
        r == (plan.run_existing_tests || plan.run_generated_tests),
{
    plan.run_existing_tests || plan.run_generated_tests
}

/// The report of a verification before its observations, with its findings identified.
pub open spec fn verified_report(
    language: Seq<char>,
    project: ProjectInfoModel,
    target: VerificationTargetModel,
    targets: Seq<VerificationTargetModel>,
    plan: VerificationPlanModel,
    artifacts: Seq<GeneratedArtifactModel>,
    run: TestRunResultModel,
    coverage: Seq<CoverageReportModel>,
) -> VerificationReportModel {
    VerificationReportModel {
        project: Some(project),
        targets: report_targets(target, targets),
        plan: Some(plan),
        artifacts,
        runs: seq![run],
        coverage,
        findings: all_identified(run.failures),
        quality: no_quality(),
        suggested_next_steps: next_steps_for(language),
    }
}

/// The report of a verification before its observations, with its findings identified.
pub fn verify(
    language: &str,
    project: ProjectInfo,
    target: &VerificationTarget,
    targets: &Vec<VerificationTarget>,
    plan: VerificationPlan,
    artifacts: Vec<GeneratedArtifact>,
    run: TestRunResult,
    coverage: Vec<CoverageReport>,
) -> (r: VerificationReport)
    ensures
        r.deep_view() == verified_report(
            language@,
            project.deep_view(),
            target.deep_view(),
            targets.deep_view(),
            plan.deep_view(),
            artifacts.deep_view(),
            run.deep_view(),
            coverage.deep_view(),
        ),
{
    let findings = clone_failures(&run.failures);
    let mut runs: Vec<TestRunResult> = Vec::new();
    push_test_run_result(&mut runs, run);
    assert(runs.deep_view() =~= seq![run.deep_view()]);
    let mut report = VerificationReport {
        project: Some(project),
        targets: expand_report_targets(target, targets),
        plan: Some(plan),
        artifacts,
        runs,
        coverage,
        findings,
        quality: VerificationQuality::default(),
        suggested_next_steps: suggested_next_steps(language),
    };
    assign_finding_ids(&mut report);
    report
}

/// A report with its findings identified and its times noted.
pub open spec fn with_times(
    report: VerificationReportModel,
    performance: PerformanceMetrics,
) -> VerificationReportModel {
    VerificationReportModel {
        quality: VerificationQualityModel { performance, ..report.quality },
        ..report
    }
}

/// Notes the times that a verification took.
pub fn note_times(report: &mut VerificationReport, performance: PerformanceMetrics)
    ensures
        final(report).deep_view() == with_times(old(report).deep_view(), performance),
{
    report.quality.performance = performance;
}

/// The report of a generation, before it is measured.
pub fn generate(
    language: &str,
    project: ProjectInfo,
    target: VerificationTarget,
    plan: VerificationPlan,
    artifacts: Vec<GeneratedArtifact>,
) -> (r: VerificationReport)
    ensures
        r.deep_view() == (VerificationReportModel {
            project: Some(project.deep_view()),
            targets: seq![target.deep_view()],
            plan: Some(plan.deep_view()),
            artifacts: artifacts.deep_view(),
            suggested_next_steps: next_steps_for(language@),
            ..empty_report()
        }),
{
    let mut report = VerificationReport::empty();
    report.project = Some(project);
    push_verification_target(&mut report.targets, target);
    assert(report.targets.deep_view() =~= seq![target.deep_view()]);
    report.plan = Some(plan);
    report.artifacts = artifacts;
    report.suggested_next_steps = suggested_next_steps(language);
    report
}

/// The report where no file changed.
pub open spec fn nothing_changed() -> VerificationReportModel {
    VerificationReportModel {
        suggested_next_steps: seq![
            "No changed files were detected from git diff or untracked files."@,
        ],
        ..empty_report()
    }
}

/// The report where no file changed.
pub fn unchanged_report() -> (r: VerificationReport)
    ensures
        r.deep_view() == nothing_changed(),
{
    let mut report = VerificationReport::empty();
    push_text(
        &mut report.suggested_next_steps,
        owned("No changed files were detected from git diff or untracked files."),
    );
    assert(report.suggested_next_steps.deep_view() =~= nothing_changed().suggested_next_steps);
    report
}

/// What a verification of changed files begins with: where no file changed it is over with
/// the report that says so, whatever plugins there are, and else it goes on.
pub fn start_changed(changed: &Vec<ChangedFile>) -> (r: Option<VerificationReport>)
    ensures
        changed@.len() == 0 ==> (r matches Some(report) && report.deep_view()
            == nothing_changed()),
        changed@.len() > 0 ==> r is None,
{
    if changed.len() == 0 {
        Some(unchanged_report())
    } else {
        None
    }
}

/// The work of one plugin on its changed targets: the targets, what was generated for
/// them, and the plan of the first of them.
pub struct ChangedWork {
    pub targets: Vec<VerificationTarget>,
    pub generated: Vec<GeneratedArtifact>,
    pub plan: Option<VerificationPlan>,
}

impl ChangedWork {
    /// The work of a plugin before its first target: none where none of its targets changed.
    pub fn start(id: &str, targets: &Vec<VerificationTarget>, changed: &Vec<ChangedFile>) -> (r:
        Option<Self>)
        ensures
            r is Some <==> changed_targets(id@, targets.deep_view(), changed.deep_view()).len() > 0,
            r matches Some(work) ==> work.targets.deep_view() == changed_targets(
                id@,
                targets.deep_view(),
                changed.deep_view(),
            ) && work.generated@.len() == 0 && work.plan is None,
    {
        let own = targets_for_changed_files(id, targets, changed);
        assert(own@.len() == own.deep_view().len());
        if own.len() == 0 {
            return None;
        }
        Some(ChangedWork { targets: own, generated: Vec::new(), plan: None })
    }

    /// Adds a target: what was generated for it, and its plan where it is the first.
    pub fn add_target(&mut self, plan: &VerificationPlan, generated: Vec<GeneratedArtifact>)
        ensures
            final(self).targets.deep_view() == old(self).targets.deep_view(),
            final(self).generated.deep_view() == old(self).generated.deep_view()
                + generated.deep_view(),
            final(self).plan.deep_view() == first_of(old(self).plan.deep_view(), plan.deep_view()),
    {
        let mut more = generated;
        append_generated_artifacts(&mut self.generated, &mut more);
        if self.plan.is_none() {
            self.plan = Some(plan.clone());
        }
    }

    /// The plan that the work runs under and its artifacts: none where the budget left no
    /// target, and the plugin is passed over.
    pub fn finish(self, cache: Option<GeneratedArtifact>) -> (r: Option<
        (VerificationPlan, Vec<VerificationTarget>, Vec<GeneratedArtifact>),
    >)
        ensures
            r is Some <==> self.plan is Some,
            r matches Some(done) ==> Some(done.0.deep_view()) == self.plan.deep_view()
                && done.1.deep_view() == self.targets.deep_view() && done.2.deep_view()
                == planned_artifacts(
                self.generated.deep_view(),
                cache.deep_view(),
                done.0.deep_view().write_generated_tests,
            ),
    {
        match self.plan {
            None => None,
            Some(plan) => {
                let write = plan.write_generated_tests;
                let artifacts = plan_artifacts(self.generated, cache, write);
                Some((plan, self.targets, artifacts))
            },
        }
    }
}

// ---------------------------------------------------------------------------
// Runs over several plugins
// ---------------------------------------------------------------------------
/// What is noted where the budget ends the planning of a plugin.
pub open spec fn skipped_targets_note_text(id: Seq<char>) -> Seq<char> {
    let t = "Skipped remaining "@
        + id
        + " changed targets because the global budget was nearly exhausted."@;
    t
}

fn skipped_targets_note(id: &str) -> (r: String)
    ensures
        r@ == skipped_targets_note_text(id@),
{
    let mut out = owned("Skipped remaining ");
    out.append(id);
    out.append(" changed targets because the global budget was nearly exhausted.");
    out
}

/// The first of two values.
pub open spec fn first_of<A>(known: Option<A>, fresh: A) -> Option<A> {
    match known {
        Some(value) => Some(value),
        None => Some(fresh),
    }
}

/// A report with the work of a plugin on changed targets added.
pub open spec fn with_changed(
    report: VerificationReportModel,
    project: ProjectInfoModel,
    plan: VerificationPlanModel,
    targets: Seq<VerificationTargetModel>,
    artifacts: Seq<GeneratedArtifactModel>,
    run: TestRunResultModel,
    coverage: Seq<CoverageReportModel>,
) -> VerificationReportModel {
    VerificationReportModel {
        project: first_of(report.project, project),
        plan: first_of(report.plan, plan),
        targets: report.targets + targets,
        artifacts: report.artifacts + artifacts,
        coverage: report.coverage + coverage,
        findings: report.findings + run.failures,
        runs: report.runs.push(run),
        ..report
    }
}

/// A report with a run of a plugin added.
pub open spec fn with_run(
    report: VerificationReportModel,
    project: ProjectInfoModel,
    targets: Seq<VerificationTargetModel>,
    run: TestRunResultModel,
) -> VerificationReportModel {
    VerificationReportModel {
        project: first_of(report.project, project),
        targets: report.targets + targets,
        findings: report.findings + run.failures,
        runs: report.runs.push(run),
        ..report
    }
}

/// A report with the changed targets of a plugin added, and the artifact of its cache.
pub open spec fn with_reviewed(
    report: VerificationReportModel,
    project: ProjectInfoModel,
    targets: Seq<VerificationTargetModel>,
    cache: Option<GeneratedArtifactModel>,
) -> VerificationReportModel {
    VerificationReportModel {
        project: first_of(report.project, project),
        targets: report.targets + targets,
        artifacts: report.artifacts + some_artifact(cache),
        ..report
    }
}

/// The failures of runs, run by run.
pub open spec fn failures_of_runs(runs: Seq<TestRunResultModel>) -> Seq<FailureModel>
    decreases runs.len(),
{
    if runs.len() == 0 {
        Seq::empty()
    } else {
        failures_of_runs(runs.drop_last()) + runs.last().failures
    }
}

/// The findings of a report are the failures of its runs, however many plugins add to it.
pub proof fn law_findings_are_failures_of_runs(
    report: VerificationReportModel,
    project: ProjectInfoModel,
    plan: VerificationPlanModel,
    targets: Seq<VerificationTargetModel>,
    artifacts: Seq<GeneratedArtifactModel>,
    run: TestRunResultModel,
    coverage: Seq<CoverageReportModel>,
)
    requires
        report.findings == failures_of_runs(report.runs),
    ensures
        ({
            let changed = with_changed(report, project, plan, targets, artifacts, run, coverage);
            let ran = with_run(report, project, targets, run);
            &&& changed.findings == failures_of_runs(changed.runs)
            &&& ran.findings == failures_of_runs(ran.runs)
        }),
{
    assert(report.runs.push(run).drop_last() =~= report.runs);
}

/// A run over several plugins: the report that they add to.
pub struct CombinedRun {
    pub report: VerificationReport,
}

impl CombinedRun {
    /// A run to which nothing was added.
    pub fn new() -> (r: Self)
        ensures
            r.report.deep_view() == empty_report(),
    {
        CombinedRun { report: VerificationReport::empty() }
    }

    /// Notes that the budget ended the run.
    fn note_budget_spent(&mut self)
        ensures
            final(self).report.deep_view() == (VerificationReportModel {
                suggested_next_steps: old(self).report.deep_view().suggested_next_steps.push(
                    "Global budget was exhausted before all plugins were verified."@,
                ),
                ..old(self).report.deep_view()
            }),
    {
        push_text(
            &mut self.report.suggested_next_steps,
            owned("Global budget was exhausted before all plugins were verified."),
        );
    }

    /// Notes that the budget ended the planning of a plugin.
    fn note_skipped_targets(&mut self, id: &str)
        ensures
            final(self).report.deep_view() == (VerificationReportModel {
                suggested_next_steps: old(self).report.deep_view().suggested_next_steps.push(
                    skipped_targets_note_text(id@),
                ),
                ..old(self).report.deep_view()
            }),
    {
        push_text(&mut self.report.suggested_next_steps, skipped_targets_note(id));
    }

    /// Whether the next plugin is taken up: it is unless the budget is spent, which is noted.
    pub fn start_plugin(&mut self, spent: bool) -> (r: bool)
        ensures
            r == !spent,
            !spent ==> final(self).report.deep_view() == old(self).report.deep_view(),
            spent ==> final(self).report.deep_view() == (VerificationReportModel {
                suggested_next_steps: old(self).report.deep_view().suggested_next_steps.push(
                    "Global budget was exhausted before all plugins were verified."@,
                ),
                ..old(self).report.deep_view()
            }),
    {
        if spent {
            self.note_budget_spent();
        }
        !spent
    }

    /// Whether the next target of a plugin is taken up: it is unless the budget is nearly
    /// spent, which is noted.
    pub fn start_target(&mut self, id: &str, nearly_spent: bool) -> (r: bool)
        ensures
            r == !nearly_spent,
            !nearly_spent ==> final(self).report.deep_view() == old(self).report.deep_view(),
            nearly_spent ==> final(self).report.deep_view() == (VerificationReportModel {
                suggested_next_steps: old(self).report.deep_view().suggested_next_steps.push(
                    skipped_targets_note_text(id@),
                ),
                ..old(self).report.deep_view()
            }),
    {
        if nearly_spent {
            self.note_skipped_targets(id);
        }
        !nearly_spent
    }

    fn keep_project(&mut self, project: ProjectInfo)
        ensures
            final(self).report.deep_view() == (VerificationReportModel {
                project: first_of(old(self).report.deep_view().project, project.deep_view()),
                ..old(self).report.deep_view()
            }),
    {
        if self.report.project.is_none() {
            self.report.project = Some(project);
        }
    }

    fn add_result(&mut self, targets: Vec<VerificationTarget>, run: TestRunResult)
        ensures
            final(self).report.deep_view() == (VerificationReportModel {
                targets: old(self).report.deep_view().targets + targets.deep_view(),
                findings: old(self).report.deep_view().findings + run.deep_view().failures,
                runs: old(self).report.deep_view().runs.push(run.deep_view()),
                ..old(self).report.deep_view()
            }),
    {
        let mut more = targets;
        append_verification_targets(&mut self.report.targets, &mut more);
        let mut failures = clone_failures(&run.failures);
        append_failures(&mut self.report.findings, &mut failures);
        push_test_run_result(&mut self.report.runs, run);
    }

    /// Adds the work of a plugin on changed targets.
    pub fn add_changed(
        &mut self,
        project: ProjectInfo,
        plan: &VerificationPlan,
        targets: Vec<VerificationTarget>,
        artifacts: Vec<GeneratedArtifact>,
        run: TestRunResult,
        coverage: Vec<CoverageReport>,
    )
        ensures
            final(self).report.deep_view() == with_changed(
                old(self).report.deep_view(),
                project.deep_view(),
                plan.deep_view(),
                targets.deep_view(),
                artifacts.deep_view(),
                run.deep_view(),
                coverage.deep_view(),
            ),
    {
        self.keep_project(project);
        if self.report.plan.is_none() {
            self.report.plan = Some(plan.clone());
        }
        self.add_result(targets, run);
        let mut more = artifacts;
        append_generated_artifacts(&mut self.report.artifacts, &mut more);
        let mut measured = coverage;
        append_coverage_reports(&mut self.report.coverage, &mut measured);
    }

    /// Adds a run of a plugin.
    pub fn add_run(
        &mut self,
        project: ProjectInfo,
        targets: Vec<VerificationTarget>,
        run: TestRunResult,
    )
        ensures
            final(self).report.deep_view() == with_run(
                old(self).report.deep_view(),
                project.deep_view(),
                targets.deep_view(),
                run.deep_view(),
            ),
    {
        self.keep_project(project);
        self.add_result(targets, run);
    }

    /// Adds the changed targets of a plugin, and the artifact of its cache.
    pub fn add_reviewed(
        &mut self,
        project: ProjectInfo,
        targets: Vec<VerificationTarget>,
        cache: Option<GeneratedArtifact>,
    )
        ensures
            final(self).report.deep_view() == with_reviewed(
                old(self).report.deep_view(),
                project.deep_view(),
                targets.deep_view(),
                cache.deep_view(),
            ),
    {
        self.keep_project(project);
        let mut more = targets;
        append_verification_targets(&mut self.report.targets, &mut more);
        push_some(&mut self.report.artifacts, cache);
    }

    /// The report of changed targets before its observations: the next steps come before
    /// the notes, and the findings are identified.
    pub fn verify_changed(self, language: &Option<String>) -> (r: VerificationReport)
        ensures
            r.deep_view() == (VerificationReportModel {
                suggested_next_steps: next_steps_for(
                    or_text(language.deep_view(), "changed targets"@),
                ) + self.report.deep_view().suggested_next_steps,
                findings: all_identified(self.report.deep_view().findings),
                ..self.report.deep_view()
            }),
    {
        let mut report = self.report;
        let mut steps = suggested_next_steps(text_or(language, "changed targets").as_str());
        let ghost front = steps.deep_view();
        let mut notes = clone_texts(&report.suggested_next_steps);
        let ghost back = notes.deep_view();
        steps.append(&mut notes);
        assert(steps.deep_view() =~= front + back);
        report.suggested_next_steps = steps;
        assign_finding_ids(&mut report);
        report
    }

    /// The report of runs before it is measured, with its findings identified.
    pub fn run(self, language: &Option<String>) -> (r: VerificationReport)
        ensures
            r.deep_view() == (VerificationReportModel {
                suggested_next_steps: next_steps_for(
                    or_text(language.deep_view(), "detected projects"@),
                ),
                findings: all_identified(self.report.deep_view().findings),
                ..self.report.deep_view()
            }),
    {
        let mut report = self.report;
        report.suggested_next_steps = suggested_next_steps(
            text_or(language, "detected projects").as_str(),
        );
        assign_finding_ids(&mut report);
        report
    }

    /// The report of a review before it is measured: what changed and what an agent should
    /// know come before the other artifacts.
    pub fn review_ai(self, changed: &Vec<ChangedFile>, diff: &str, write: bool) -> (r:
        VerificationReport)
        ensures
            r.deep_view() == review(self.report.deep_view(), changed.deep_view(), diff@, write),
    {
        let mut report = self.report;
        let mut artifacts: Vec<GeneratedArtifact> = Vec::new();
        push_generated_artifact(
            &mut artifacts,
            change_digest_artifact(changed, &report.targets, diff),
        );
        push_generated_artifact(&mut artifacts, ai_feedback_artifact(changed, &report.targets));
        let ghost front = artifacts.deep_view();
        assert(front =~= seq![
            digest_artifact(changed.deep_view(), report.deep_view().targets, diff@),
            agent_artifact(changed.deep_view(), report.deep_view().targets),
        ]);
        let mut more = clone_generated_artifacts(&report.artifacts);
        append_generated_artifacts(&mut artifacts, &mut more);
        report.artifacts = if write {
            written_artifacts(&artifacts)
        } else {
            artifacts
        };
        let mut steps: Vec<String> = Vec::new();
        push_text(
            &mut steps,
            owned(
                "Feed `.veritas/ai/agent_feedback.md` back into the coding agent before asking it to patch tests or code.",
            ),
        );
        push_text(
            &mut steps,
            owned("Run `veritas verify --changed --profile ci` after the agent responds."),
        );
        assert(steps.deep_view() =~= review_steps());
        report.suggested_next_steps = steps;
        report
    }
}

/// What to do after a review.
pub open spec fn review_steps() -> Seq<Seq<char>> {
    seq![
        "Feed `.veritas/ai/agent_feedback.md` back into the coding agent before asking it to patch tests or code."@,
        "Run `veritas verify --changed --profile ci` after the agent responds."@,
    ]
}

/// The report of a review.
pub open spec fn review(
    report: VerificationReportModel,
    changed: Seq<ChangedFileModel>,
    diff: Seq<char>,
    write: bool,
) -> VerificationReportModel {
    let artifacts = seq![
        digest_artifact(changed, report.targets, diff),
        agent_artifact(changed, report.targets),
    ] + report.artifacts;
    VerificationReportModel {
        artifacts: if write {
            all_written(artifacts)
        } else {
            artifacts
        },
        suggested_next_steps: review_steps(),
        ..report
    }
}

// ---------------------------------------------------------------------------
// Saved files
// ---------------------------------------------------------------------------
/// Where the last report of a project is saved.
pub fn report_path() -> (r: &'static str)
    ensures
        r@ == ".veritas/report.json"@,
{
    ".veritas/report.json"
}

/// The report that a text holds; nothing where it holds none.
pub open spec fn report_in_text(contents: Seq<char>) -> Option<VerificationReportModel> {
    match exact_json(contents) {
        Some(value) => verification_report_in(value),
        None => None,
    }
}

/// The text of a report. A report whose counts by domain and operator are in order, as counts
/// are made, is read back from its text as it was.
pub fn save_report(report: &VerificationReport) -> (r: String)
    ensures
        r@ == formatted_json(verification_report_document(report.deep_view())),
        verification_report_keeps(report.deep_view()) ==> report_in_text(r@) == Some(
            report.deep_view(),
        ),
{
    proof {
        if verification_report_keeps(report.deep_view()) {
            lemma_verification_report_reads(report.deep_view());
            lemma_verification_report_is_exact(report.deep_view(), 100);
        }
    }
    formatted(&verification_report_json(report))
}

/// The report that a file holds; nothing where it holds none.
pub fn read_saved_report(contents: &str) -> (r: Option<VerificationReport>)
    ensures
        r.deep_view() == report_in_text(contents@),
{
    match parse_exact(contents) {
        Some(value) => read_verification_report(&value),
        None => None,
    }
}

/// The accepted quality that a text holds; nothing where it holds none.
pub open spec fn baseline_in_text(contents: Seq<char>) -> Option<QualityBaselineModel> {
    match exact_json(contents) {
        Some(value) => quality_baseline_in(value),
        None => None,
    }
}

/// The text of an accepted quality. One whose counts by domain and operator are in order is
/// read back from its text as it was.
pub fn save_quality_baseline(baseline: &QualityBaseline) -> (r: String)
    ensures
        r@ == formatted_json(quality_baseline_document(baseline.deep_view())),
        quality_baseline_keeps(baseline.deep_view()) ==> baseline_in_text(r@) == Some(
            baseline.deep_view(),
        ),
{
    proof {
        if quality_baseline_keeps(baseline.deep_view()) {
            lemma_quality_baseline_reads(baseline.deep_view());
            lemma_quality_baseline_is_exact(baseline.deep_view(), 100);
        }
    }
    formatted(&quality_baseline_json(baseline))
}

/// The accepted quality that a file holds; nothing where it holds none.
pub fn quality_baseline(contents: &str) -> (r: Option<QualityBaseline>)
    ensures
        r.deep_view() == baseline_in_text(contents@),
{
    match parse_exact(contents) {
        Some(value) => read_quality_baseline(&value),
        None => None,
    }
}

/// The ids in a document of accepted findings: in order, each once.
pub open spec fn ids_in_document(value: JsonModel) -> Option<Seq<Seq<char>>> {
    match as_array(value) {
        Some(items) => match all_texts(items) {
            Some(ids) => Some(sorted_set::<ByText>(ids)),
            None => None,
        },
        None => None,
    }
}

/// The ids in a document of accepted findings: in order, each once.
pub fn accepted_ids(value: &Json) -> (r: Option<Vec<String>>)
    ensures
        r.deep_view() == ids_in_document(value.deep_view()),
{
    match value.as_list() {
        Some(items) => match read_all_texts(items) {
            Some(ids) => Some(to_sorted_set::<ByText>(&ids)),
            None => None,
        },
        None => None,
    }
}

/// The text of accepted findings. They are read back from it in order, each once.
pub fn save_accepted_ids(ids: &Vec<String>) -> (r: String)
    ensures
        r@ == formatted_json(texts_model(ids.deep_view())),
        ids_in_text(Some(r@)) == Some(sorted_set::<ByText>(ids.deep_view())),
{
    proof {
        lemma_texts_read(ids.deep_view());
        lemma_texts_are_plain(ids.deep_view(), 100);
        lemma_plain_values_are_exact(100);
    }
    formatted(&texts(ids))
}

/// The accepted findings that a text holds: none where there is no text, and nothing where
/// the text holds no list of ids.
pub open spec fn ids_in_text(contents: Option<Seq<char>>) -> Option<Seq<Seq<char>>> {
    match contents {
        Some(known) => match exact_json(known) {
            Some(value) => ids_in_document(value),
            None => None,
        },
        None => Some(Seq::empty()),
    }
}

/// The accepted findings that a file holds: none where there is no file, and nothing
/// where the file holds no list of ids.
pub fn accepted_finding_ids(contents: &Option<String>) -> (r: Option<Vec<String>>)
    ensures
        r.deep_view() == ids_in_text(contents.deep_view()),
{
    match contents {
        Some(known) => match parse_exact(known.as_str()) {
            Some(value) => accepted_ids(&value),
            None => None,
        },
        None => {
            let none: Vec<String> = Vec::new();
            assert(none.deep_view() =~= Seq::<Seq<char>>::empty());
            Some(none)
        },
    }
}

} // verus!
