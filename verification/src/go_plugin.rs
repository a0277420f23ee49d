//! The plugin for Go: targets, and the artifacts that are generated for them.
use vstd::prelude::*;

use crate::api::{
    append_generated_artifacts, append_verification_targets, push_generated_artifact,
    push_verification_target, ArtifactKind, ArtifactStatus, GeneratedArtifact,
    GeneratedArtifactModel, ProjectInfo, ProjectInfoModel, RiskLevel, TargetKind, VerificationPlan,
    VerificationStrategy, VerificationTarget, VerificationTargetModel,
};
use crate::config::{GoPluginConfig, GoPluginConfigModel};
use crate::documents::{line_range_document, line_range_json};
use crate::findings::texts_of1;
use crate::go_fuzz::{
    fuzz_file, handwritten_fuzz_exists, has_fuzz_target, ident_of, module_slug, render_fuzz_file,
    safe_ident, slug_of, GoFuzzTargets, GoFuzzTargetsModel,
};
use crate::go_packages::{
    clone_go_modules, clone_go_packages, is_go_file, path_in_project, prefix_module_path, scope,
    scoped_package_dirs, GoModule, GoModuleModel, GoPackage, GoPackageModel,
};
use crate::go_source::{clone_go_functions, push_go_function, GoFunction, GoFunctionModel};
use crate::json::{
    number, optional_text, pretty, pretty_json, text, text_or_null, texts, texts_model, Items,
    Json, JsonModel, Members,
};
use crate::number::{decimal, print_u64, print_usize};
use crate::order::{has, holds, sorted_set, to_sorted_set};
use crate::pathmap::{
    find_texts, law_put_texts_are_found, law_putting_texts_keeps_the_order, put_texts, texts_put,
    texts_under, well_ordered, PathTexts, PathTextsModel,
};
use crate::paths::{
    joined_path, package_dir, package_dir_path, path_extension, path_same, same_path, ByPath,
};
use crate::planner::has_strategy;
use crate::seqs::{cat2, cat3, lemma_take_all, lemma_take_next};
use crate::split::{at_most, first_texts, join, joined, push_text};
use crate::text::{clone_texts, contains, has_text, lower, owned, same, to_lower};
use crate::paths::join as join_path;

verus! {

// ---------------------------------------------------------------------------
// Projects
// ---------------------------------------------------------------------------
/// What was found in a Go project.
#[derive(Debug, PartialEq, Eq)]
pub struct GoVerificationContext {
    pub modules: Vec<GoModule>,
    pub packages: Vec<GoPackage>,
    pub functions: Vec<GoFunction>,
    pub fuzz_targets: GoFuzzTargets,
}

/// The mathematical value of a `GoVerificationContext`.
pub struct GoVerificationContextModel {
    pub modules: Seq<GoModuleModel>,
    pub packages: Seq<GoPackageModel>,
    pub functions: Seq<GoFunctionModel>,
    pub fuzz_targets: GoFuzzTargetsModel,
}

impl DeepView for GoVerificationContext {
    type V = GoVerificationContextModel;

    open spec fn deep_view(&self) -> GoVerificationContextModel {
        GoVerificationContextModel {
            modules: self.modules.deep_view(),
            packages: self.packages.deep_view(),
            functions: self.functions.deep_view(),
            fuzz_targets: self.fuzz_targets.deep_view(),
        }
    }
}

impl Clone for GoVerificationContext {
    fn clone(&self) -> (r: Self)
        ensures
            r.deep_view() == self.deep_view(),
    {
        GoVerificationContext {
            modules: clone_go_modules(&self.modules),
            packages: clone_go_packages(&self.packages),
            functions: clone_go_functions(&self.functions),
            fuzz_targets: self.fuzz_targets.clone(),
        }
    }
}

/// Whether a name hints at something that is worth more care.
pub open spec fn risky_name(name: Seq<char>) -> bool {
    ||| has_text(lower(name), "parse"@)
    ||| has_text(lower(name), "auth"@)
    ||| has_text(lower(name), "permission"@)
    ||| has_text(lower(name), "money"@)
    ||| has_text(lower(name), "price"@)
    ||| has_text(lower(name), "invoice"@)
    ||| has_text(lower(name), "token"@)
    ||| has_text(lower(name), "crypto"@)
    ||| has_text(lower(name), "serialize"@)
    ||| has_text(lower(name), "network"@)
    ||| has_text(lower(name), "refund"@)
    ||| has_text(lower(name), "discount"@)
}

/// How much care a name calls for.
pub open spec fn risk_of(name: Seq<char>) -> RiskLevel {
    if risky_name(name) {
        RiskLevel::High
    } else {
        RiskLevel::Medium
    }
}

/// How much care a name calls for.
pub fn infer_risk(name: &str) -> (r: RiskLevel)
    ensures
        r == risk_of(name@),
{
    let lowered = to_lower(name);
    let text = lowered.as_str();
    if contains(text, "parse") || contains(text, "auth") || contains(text, "permission") || contains(text, "money") || contains(text, "price") || contains(text, "invoice") || contains(text, "token") || contains(text, "crypto") || contains(text, "serialize") || contains(text, "network") || contains(text, "refund") || contains(text, "discount") {
        RiskLevel::High
    } else {
        RiskLevel::Medium
    }
}

/// How many modules there are, in words.
pub open spec fn module_count_text(count: int) -> Seq<char> {
    let t = decimal(count as int) + " Go modules"@;
    t
}

fn module_count(count: usize) -> (r: String)
    ensures
        r@ == module_count_text(count as int),
{
    let mut out = owned(print_usize(count).as_str());
    out.append(" Go modules");
    out
}

/// The manifests of modules.
pub open spec fn module_manifests(items: Seq<GoModuleModel>) -> Seq<Seq<char>>
    decreases items.len(),
{
    if items.len() == 0 {
        Seq::empty()
    } else {
        module_manifests(items.drop_last()).push(path_in_project(items.last().root, "go.mod"@))
    }
}

fn manifests_of(items: &Vec<GoModule>) -> (r: Vec<String>)
    ensures
        r.deep_view() == module_manifests(items.deep_view()),
{
    let mut out: Vec<String> = Vec::new();
    let ghost all = items.deep_view();
    let mut i: usize = 0;
    assert(out.deep_view() == module_manifests(all.take(0)));
    while i < items.len()
        invariant
            i <= items@.len(),
            all == items.deep_view(),
            out.deep_view() == module_manifests(all.take(i as int)),
        decreases items@.len() - i,
    {
        proof {
            lemma_take_next(all, i as int);
        }
        push_text(&mut out, prefix_module_path(items[i].root.as_str(), "go.mod"));
        i = i + 1;
    }
    proof {
        lemma_take_all(all);
    }
    out
}

/// The project that modules make up; nothing where there is none.
pub open spec fn project_of(modules: Seq<GoModuleModel>, root: Seq<char>) -> Option<
    ProjectInfoModel,
> {
    if modules.len() == 0 {
        None
    } else {
        Some(
            ProjectInfoModel {
                language: "go"@,
                name: if modules.len() == 1 {
                    modules[0].declared_path
                } else {
                    module_count_text(modules.len() as int)
                },
                root,
                manifests: module_manifests(modules),
            },
        )
    }
}

/// The project that modules make up; nothing where there is none.
pub fn detect_project(modules: &Vec<GoModule>, root: &str) -> (r: Option<ProjectInfo>)
    ensures
        r.deep_view() == project_of(modules.deep_view(), root@),
{
    assert(modules@.len() == modules.deep_view().len());
    if modules.len() == 0 {
        return None;
    }
    assert(modules.deep_view()[0] == modules@[0].deep_view());
    let name = if modules.len() == 1 {
        owned(modules[0].declared_path.as_str())
    } else {
        module_count(modules.len())
    };
    Some(
        ProjectInfo {
            language: owned("go"),
            name,
            root: owned(root),
            manifests: manifests_of(modules),
        },
    )
}

// ---------------------------------------------------------------------------
// Targets
// ---------------------------------------------------------------------------
/// The id of a function.
pub open spec fn function_target_id_text(path: Seq<char>, symbol: Seq<char>) -> Seq<char> {
    let t = "go:"@ + path + ":"@ + symbol;
    t
}

/// The id of a function.
pub fn function_target_id(path: &str, symbol: &str) -> (r: String)
    ensures
        r@ == function_target_id_text(path@, symbol@),
{
    let mut out = owned("go:");
    out.append(path);
    out.append(":");
    out.append(symbol);
    out
}

/// What a function is.
pub open spec fn function_description_text(
    receiver: Option<Seq<char>>,
    name: Seq<char>,
) -> Seq<char> {
    let t = Seq::<char>::empty();
    let t = match receiver {
        Some(known) => {
            let t = t + "Go method "@ + known + "."@;
            t
        },
        None => {
            let t = t + "Go function "@;
            t
        },
    };
    let t = t + name;
    t
}

fn function_description(receiver: &Option<String>, name: &str) -> (r: String)
    ensures
        r@ == function_description_text(receiver.deep_view(), name@),
{
    let mut out = String::new();
    match receiver {
        Some(known) => {
            out.append("Go method ");
            out.append(known.as_str());
            out.append(".");
        },
        None => {
            out.append("Go function ");
        },
    }
    out.append(name);
    out
}

/// A function as a target.
pub open spec fn function_target_model(function: GoFunctionModel) -> VerificationTargetModel {
    VerificationTargetModel {
        id: function_target_id_text(function.path, function.symbol),
        language: "go"@,
        kind: TargetKind::Function,
        path: function.path,
        symbol: Some(function.symbol),
        signature: Some(function.signature),
        line_range: Some(function.line_range),
        description: function_description_text(function.receiver, function.name),
        risk: risk_of(function.symbol),
    }
}

fn function_target(function: &GoFunction) -> (r: VerificationTarget)
    ensures
        r.deep_view() == function_target_model(function.deep_view()),
{
    VerificationTarget {
        id: function_target_id(function.path.as_str(), function.symbol.as_str()),
        language: owned("go"),
        kind: TargetKind::Function,
        path: owned(function.path.as_str()),
        symbol: Some(owned(function.symbol.as_str())),
        signature: Some(owned(function.signature.as_str())),
        line_range: Some(function.line_range),
        description: function_description(&function.receiver, function.name.as_str()),
        risk: infer_risk(function.symbol.as_str()),
    }
}

/// A package as a target.
pub open spec fn package_target_model(package: Seq<char>) -> VerificationTargetModel {
    VerificationTargetModel {
        id: "go:"@ + package,
        language: "go"@,
        kind: TargetKind::Package,
        path: package,
        symbol: None,
        signature: None,
        line_range: None,
        description: "Go package "@ + package,
        risk: RiskLevel::Medium,
    }
}

fn package_target(package: &str) -> (r: VerificationTarget)
    ensures
        r.deep_view() == package_target_model(package@),
{
    VerificationTarget {
        id: cat2("go:", package),
        language: owned("go"),
        kind: TargetKind::Package,
        path: owned(package),
        symbol: None,
        signature: None,
        line_range: None,
        description: cat2("Go package ", package),
        risk: RiskLevel::Medium,
    }
}

/// What a project of modules is.
pub open spec fn project_description(modules: Seq<GoModuleModel>) -> Seq<char> {
    if modules.len() == 1 {
        "Go module "@ + modules[0].declared_path
    } else {
        module_count_text(modules.len() as int)
    }
}

fn describe_project(modules: &Vec<GoModule>) -> (r: String)
    ensures
        r@ == project_description(modules.deep_view()),
{
    assert(modules@.len() == modules.deep_view().len());
    if modules.len() == 1 {
        assert(modules.deep_view()[0] == modules@[0].deep_view());
        cat2("Go module ", modules[0].declared_path.as_str())
    } else {
        module_count(modules.len())
    }
}

/// A project as a target.
pub open spec fn project_target_model(modules: Seq<GoModuleModel>) -> VerificationTargetModel {
    VerificationTargetModel {
        id: "go:project"@,
        language: "go"@,
        kind: TargetKind::Project,
        path: "."@,
        symbol: None,
        signature: None,
        line_range: None,
        description: project_description(modules),
        risk: RiskLevel::Medium,
    }
}

fn project_target(modules: &Vec<GoModule>) -> (r: VerificationTarget)
    ensures
        r.deep_view() == project_target_model(modules.deep_view()),
{
    VerificationTarget {
        id: owned("go:project"),
        language: owned("go"),
        kind: TargetKind::Project,
        path: owned("."),
        symbol: None,
        signature: None,
        line_range: None,
        description: describe_project(modules),
        risk: RiskLevel::Medium,
    }
}

/// Functions as targets.
pub open spec fn function_targets_of(items: Seq<GoFunctionModel>) -> Seq<VerificationTargetModel>
    decreases items.len(),
{
    if items.len() == 0 {
        Seq::empty()
    } else {
        function_targets_of(items.drop_last()).push(function_target_model(items.last()))
    }
}

fn function_targets(items: &Vec<GoFunction>) -> (r: Vec<VerificationTarget>)
    ensures
        r.deep_view() == function_targets_of(items.deep_view()),
{
    let mut out: Vec<VerificationTarget> = Vec::new();
    let ghost all = items.deep_view();
    let mut i: usize = 0;
    assert(out.deep_view() == function_targets_of(all.take(0)));
    while i < items.len()
        invariant
            i <= items@.len(),
            all == items.deep_view(),
            out.deep_view() == function_targets_of(all.take(i as int)),
        decreases items@.len() - i,
    {
        proof {
            lemma_take_next(all, i as int);
        }
        push_verification_target(&mut out, function_target(&items[i]));
        i = i + 1;
    }
    proof {
        lemma_take_all(all);
    }
    out
}

/// Packages as targets.
pub open spec fn package_targets_of(items: Seq<Seq<char>>) -> Seq<VerificationTargetModel>
    decreases items.len(),
{
    if items.len() == 0 {
        Seq::empty()
    } else {
        package_targets_of(items.drop_last()).push(package_target_model(items.last()))
    }
}

fn package_targets(items: &Vec<String>) -> (r: Vec<VerificationTarget>)
    ensures
        r.deep_view() == package_targets_of(items.deep_view()),
{
    let mut out: Vec<VerificationTarget> = Vec::new();
    let ghost all = items.deep_view();
    let mut i: usize = 0;
    assert(out.deep_view() == package_targets_of(all.take(0)));
    while i < items.len()
        invariant
            i <= items@.len(),
            all == items.deep_view(),
            out.deep_view() == package_targets_of(all.take(i as int)),
        decreases items@.len() - i,
    {
        proof {
            lemma_take_next(all, i as int);
        }
        push_verification_target(&mut out, package_target(items[i].as_str()));
        i = i + 1;
    }
    proof {
        lemma_take_all(all);
    }
    out
}

/// The directories of packages.
pub open spec fn package_dirs_of(items: Seq<GoPackageModel>) -> Seq<Seq<char>>
    decreases items.len(),
{
    if items.len() == 0 {
        Seq::empty()
    } else {
        package_dirs_of(items.drop_last()).push(items.last().dir)
    }
}

fn dirs_of_packages(items: &Vec<GoPackage>) -> (r: Vec<String>)
    ensures
        r.deep_view() == package_dirs_of(items.deep_view()),
{
    let mut out: Vec<String> = Vec::new();
    let ghost all = items.deep_view();
    let mut i: usize = 0;
    assert(out.deep_view() == package_dirs_of(all.take(0)));
    while i < items.len()
        invariant
            i <= items@.len(),
            all == items.deep_view(),
            out.deep_view() == package_dirs_of(all.take(i as int)),
        decreases items@.len() - i,
    {
        proof {
            lemma_take_next(all, i as int);
        }
        push_text(&mut out, owned(items[i].dir.as_str()));
        i = i + 1;
    }
    proof {
        lemma_take_all(all);
    }
    out
}

/// The directories of functions.
pub open spec fn function_dirs_of(items: Seq<GoFunctionModel>) -> Seq<Seq<char>>
    decreases items.len(),
{
    if items.len() == 0 {
        Seq::empty()
    } else {
        function_dirs_of(items.drop_last()).push(package_dir_path(items.last().path))
    }
}

fn dirs_of_functions(items: &Vec<GoFunction>) -> (r: Vec<String>)
    ensures
        r.deep_view() == function_dirs_of(items.deep_view()),
{
    let mut out: Vec<String> = Vec::new();
    let ghost all = items.deep_view();
    let mut i: usize = 0;
    assert(out.deep_view() == function_dirs_of(all.take(0)));
    while i < items.len()
        invariant
            i <= items@.len(),
            all == items.deep_view(),
            out.deep_view() == function_dirs_of(all.take(i as int)),
        decreases items@.len() - i,
    {
        proof {
            lemma_take_next(all, i as int);
        }
        push_text(&mut out, package_dir(items[i].path.as_str()));
        i = i + 1;
    }
    proof {
        lemma_take_all(all);
    }
    out
}

/// The targets of a project: the project, its functions, and the directories of its
/// packages and functions, in order and each once.
pub open spec fn targets_of(context: GoVerificationContextModel) -> Seq<VerificationTargetModel> {
    seq![project_target_model(context.modules)] + function_targets_of(context.functions)
        + package_targets_of(
        sorted_set::<ByPath>(
            package_dirs_of(context.packages) + function_dirs_of(context.functions),
        ),
    )
}

/// The targets of a project.
pub fn discover_targets(context: &GoVerificationContext) -> (r: Vec<VerificationTarget>)
    ensures
        r.deep_view() == targets_of(context.deep_view()),
{
    let mut targets: Vec<VerificationTarget> = Vec::new();
    push_verification_target(&mut targets, project_target(&context.modules));
    assert(targets.deep_view() =~= seq![project_target_model(context.deep_view().modules)]);
    let mut functions = function_targets(&context.functions);
    append_verification_targets(&mut targets, &mut functions);
    let mut dirs = dirs_of_packages(&context.packages);
    let mut more = dirs_of_functions(&context.functions);
    let ghost front = dirs.deep_view();
    let ghost back = more.deep_view();
    dirs.append(&mut more);
    assert(dirs.deep_view() =~= front + back);
    let mut packages = package_targets(&to_sorted_set::<ByPath>(&dirs));
    append_verification_targets(&mut targets, &mut packages);
    targets
}

/// Two functions whose symbols hold no colon have the same id only where their paths and
/// their symbols are the same.
pub proof fn law_function_ids_tell_functions_apart(
    path: Seq<char>,
    symbol: Seq<char>,
    other_path: Seq<char>,
    other_symbol: Seq<char>,
)
    requires
        !symbol.contains(':'),
        !other_symbol.contains(':'),
        function_target_id_text(path, symbol) == function_target_id_text(other_path, other_symbol),
    ensures
        path == other_path,
        symbol == other_symbol,
{
    reveal_strlit("go:");
    reveal_strlit(":");
    let a = function_target_id_text(path, symbol);
    let b = function_target_id_text(other_path, other_symbol);
    let i: int = 3 + path.len() as int;
    let j: int = 3 + other_path.len() as int;
    assert(a.len() == i + 1 + symbol.len());
    assert(b.len() == j + 1 + other_symbol.len());
    assert(symbol =~= a.skip(i + 1));
    assert(other_symbol =~= b.skip(j + 1));
    assert(a[i] == ':');
    assert(b[j] == ':');
    if i < j {
        assert(a.skip(i + 1)[j - i - 1] == ':');
        assert(symbol.contains(':'));
    } else if j < i {
        assert(b.skip(j + 1)[i - j - 1] == ':');
        assert(other_symbol.contains(':'));
    }
    assert(path =~= a.subrange(3, i));
    assert(other_path =~= b.subrange(3, j));
}

// ---------------------------------------------------------------------------
// What a target selects
// ---------------------------------------------------------------------------
/// Whether a target selects a function.
pub open spec fn selects(target: VerificationTargetModel, function: GoFunctionModel) -> bool {
    match target.symbol {
        Some(symbol) => function.symbol == symbol && same_path(function.path, target.path),
        None => same_path(package_dir_path(function.path), target.path) || same_path(
            function.path,
            target.path,
        ) || target.kind == TargetKind::Project,
    }
}

fn is_selected(target: &VerificationTarget, function: &GoFunction) -> (r: bool)
    ensures
        r == selects(target.deep_view(), function.deep_view()),
{
    match &target.symbol {
        Some(symbol) => same(function.symbol.as_str(), symbol.as_str()) && path_same(
            function.path.as_str(),
            target.path.as_str(),
        ),
        None => path_same(package_dir(function.path.as_str()).as_str(), target.path.as_str())
            || path_same(function.path.as_str(), target.path.as_str()) || target.kind
            == TargetKind::Project,
    }
}

/// The functions that a target selects.
pub open spec fn functions_selected(
    target: VerificationTargetModel,
    items: Seq<GoFunctionModel>,
) -> Seq<GoFunctionModel>
    decreases items.len(),
{
    if items.len() == 0 {
        Seq::empty()
    } else if selects(target, items.last()) {
        functions_selected(target, items.drop_last()).push(items.last())
    } else {
        functions_selected(target, items.drop_last())
    }
}

/// The functions that a target selects.
pub fn selected_functions(
    target: &VerificationTarget,
    items: &Vec<GoFunction>,
) -> (r: Vec<GoFunction>)
    ensures
        r.deep_view() == functions_selected(target.deep_view(), items.deep_view()),
{
    let mut out: Vec<GoFunction> = Vec::new();
    let ghost all = items.deep_view();
    let mut i: usize = 0;
    assert(out.deep_view() == functions_selected(target.deep_view(), all.take(0)));
    while i < items.len()
        invariant
            i <= items@.len(),
            all == items.deep_view(),
            out.deep_view() == functions_selected(target.deep_view(), all.take(i as int)),
        decreases items@.len() - i,
    {
        proof {
            lemma_take_next(all, i as int);
        }
        if is_selected(target, &items[i]) {
            push_go_function(&mut out, items[i].clone());
        }
        i = i + 1;
    }
    proof {
        lemma_take_all(all);
    }
    out
}

/// The directories of what a target selects, in order, each once.
pub open spec fn dirs_selected(
    target: VerificationTargetModel,
    selected: Seq<GoFunctionModel>,
) -> Seq<Seq<char>> {
    let dirs = sorted_set::<ByPath>(function_dirs_of(selected));
    if dirs.len() > 0 || target.kind == TargetKind::Project {
        dirs
    } else if path_extension(target.path) == Some("go"@) {
        seq![package_dir_path(target.path)]
    } else {
        seq![target.path]
    }
}

/// The directories of what a target selects, in order, each once.
pub fn selected_package_dirs(
    target: &VerificationTarget,
    selected: &Vec<GoFunction>,
) -> (r: Vec<String>)
    ensures
        r.deep_view() == dirs_selected(target.deep_view(), selected.deep_view()),
{
    let mut dirs = to_sorted_set::<ByPath>(&dirs_of_functions(selected));
    assert(dirs@.len() == dirs.deep_view().len());
    if dirs.len() == 0 && target.kind != TargetKind::Project {
        let dir = if is_go_file(target.path.as_str()) {
            package_dir(target.path.as_str())
        } else {
            owned(target.path.as_str())
        };
        push_text(&mut dirs, dir);
        assert(dirs.deep_view() =~= dirs_selected(target.deep_view(), selected.deep_view()));
    }
    dirs
}

/// The directories that a run for a target is about.
pub open spec fn dirs_in_view(
    context: GoVerificationContextModel,
    config: GoPluginConfigModel,
    target: VerificationTargetModel,
    selected: Seq<Seq<char>>,
) -> Seq<Seq<char>> {
    if selected.len() > 0 {
        if context.packages.len() > 0 {
            scope(
                context.packages,
                selected,
                config.reverse_dependency_depth as int,
                config.max_packages as int,
            )
        } else {
            selected
        }
    } else if target.kind == TargetKind::Project {
        sorted_set::<ByPath>(at_most(package_dirs_of(context.packages), config.max_packages as int))
    } else {
        Seq::empty()
    }
}

/// The directories that a run for a target is about.
pub fn awareness_package_dirs(
    context: &GoVerificationContext,
    config: &GoPluginConfig,
    target: &VerificationTarget,
    selected_dirs: &Vec<String>,
) -> (r: Vec<String>)
    ensures
        r.deep_view() == dirs_in_view(
            context.deep_view(),
            config.deep_view(),
            target.deep_view(),
            selected_dirs.deep_view(),
        ),
{
    assert(selected_dirs@.len() == selected_dirs.deep_view().len());
    assert(context.packages@.len() == context.packages.deep_view().len());
    if selected_dirs.len() > 0 {
        if context.packages.len() > 0 {
            return scoped_package_dirs(
                &context.packages,
                selected_dirs,
                config.reverse_dependency_depth,
                config.max_packages,
            );
        }
        return clone_texts(selected_dirs);
    }
    if target.kind == TargetKind::Project {
        let dirs = dirs_of_packages(&context.packages);
        return to_sorted_set::<ByPath>(&first_texts(&dirs, config.max_packages));
    }
    let none: Vec<String> = Vec::new();
    assert(none.deep_view() =~= Seq::<Seq<char>>::empty());
    none
}

/// Why a package runs, or that it does not.
pub open spec fn run_reason(
    scoped: Seq<Seq<char>>,
    selected: Seq<Seq<char>>,
    dir: Seq<char>,
) -> Seq<char> {
    if holds::<ByPath>(selected, dir) {
        "selected target"@
    } else if holds::<ByPath>(scoped, dir) {
        "reverse dependency"@
    } else {
        "not scheduled"@
    }
}

/// Why a package runs, or that it does not.
pub fn package_run_reason(
    scoped_dirs: &Vec<String>,
    selected_dirs: &Vec<String>,
    dir: &str,
) -> (r: &'static str)
    ensures
        r@ == run_reason(scoped_dirs.deep_view(), selected_dirs.deep_view(), dir@),
{
    let chosen = has::<ByPath>(selected_dirs, dir);
    let reached = has::<ByPath>(scoped_dirs, dir);
    if chosen {
        "selected target"
    } else if reached {
        "reverse dependency"
    } else {
        "not scheduled"
    }
}

// ---------------------------------------------------------------------------
// Package awareness
// ---------------------------------------------------------------------------
/// The first package, from one on, in a directory.
pub open spec fn package_at_from(
    items: Seq<GoPackageModel>,
    dir: Seq<char>,
    from: int,
) -> Option<int>
    decreases items.len() - from,
{
    if from < 0 || from >= items.len() {
        None
    } else if same_path(items[from].dir, dir) {
        Some(from)
    } else {
        package_at_from(items, dir, from + 1)
    }
}

fn package_at(items: &Vec<GoPackage>, dir: &str) -> (r: Option<usize>)
    ensures
        r matches Some(i) ==> i < items@.len() && package_at_from(items.deep_view(), dir@, 0) == Some(
            i as int,
        ),
        r is None ==> package_at_from(items.deep_view(), dir@, 0) is None,
{
    let ghost all = items.deep_view();
    let mut i: usize = 0;
    while i < items.len()
        invariant
            i <= items@.len(),
            all == items.deep_view(),
            package_at_from(all, dir@, 0) == package_at_from(all, dir@, i as int),
        decreases items@.len() - i,
    {
        assert(all[i as int] == items@[i as int].deep_view());
        if path_same(items[i].dir.as_str(), dir) {
            return Some(i);
        }
        i = i + 1;
    }
    None
}

/// The fuzz targets of a package in words.
pub open spec fn fuzz_cell(entries: Seq<PathTextsModel>, dir: Seq<char>) -> Seq<char> {
    match texts_under(entries, dir) {
        Some(names) => if names.len() == 0 {
            "none"@
        } else {
            joined(names, ", "@)
        },
        None => "none"@,
    }
}

/// The fuzz targets of a package in words.
pub fn awareness_fuzz_cell(entries: &Vec<PathTexts>, dir: &str) -> (r: String)
    ensures
        r@ == fuzz_cell(entries.deep_view(), dir@),
{
    match find_texts(entries, dir) {
        Some(names) => {
            assert(names@.len() == names.deep_view().len());
            if names.len() == 0 {
                owned("none")
            } else {
                join(names, ", ")
            }
        },
        None => owned("none"),
    }
}

/// The package in a directory.
pub open spec fn package_in(
    packages: Seq<GoPackageModel>,
    dir: Seq<char>,
) -> Option<GoPackageModel> {
    match package_at_from(packages, dir, 0) {
        Some(i) => Some(packages[i]),
        None => None,
    }
}

/// The package in a directory.
pub fn find_package<'a>(packages: &'a Vec<GoPackage>, dir: &str) -> (r: Option<&'a GoPackage>)
    ensures
        r matches Some(package) ==> package_in(packages.deep_view(), dir@) == Some(
            package.deep_view(),
        ),
        r is None ==> package_in(packages.deep_view(), dir@) is None,
{
    match package_at(packages, dir) {
        Some(i) => {
            assert(packages.deep_view()[i as int] == packages@[i as int].deep_view());
            Some(&packages[i])
        },
        None => None,
    }
}

/// The import path of a package, where it is known.
pub open spec fn import_cell(package: Option<GoPackageModel>) -> Seq<char> {
    match package {
        Some(known) => known.import_path,
        None => "unknown"@,
    }
}

/// What kinds of tests a package has, where it is known.
pub open spec fn tests_cell(package: Option<GoPackageModel>) -> Seq<char> {
    match package {
        Some(known) => known.test_kinds(),
        None => "unknown"@,
    }
}

/// The row of a package.
pub open spec fn awareness_row_text(
    dir: Seq<char>,
    import_path: Seq<char>,
    reason: Seq<char>,
    tests: Seq<char>,
    handwritten: Seq<char>,
    generated: Seq<char>,
) -> Seq<char> {
    let t = "| `"@
        + dir
        + "` | `"@
        + import_path
        + "` | `"@
        + reason
        + "` | `"@
        + tests
        + "` | `"@
        + handwritten
        + "` | `"@
        + generated
        + "` |\n"@;
    t
}

fn awareness_row(
    dir: &str,
    import_path: &str,
    reason: &str,
    tests: &str,
    handwritten: &str,
    generated: &str,
) -> (r: String)
    ensures
        r@ == awareness_row_text(dir@, import_path@, reason@, tests@, handwritten@, generated@),
{
    let mut out = owned("| `");
    out.append(dir);
    out.append("` | `");
    out.append(import_path);
    out.append("` | `");
    out.append(reason);
    out.append("` | `");
    out.append(tests);
    out.append("` | `");
    out.append(handwritten);
    out.append("` | `");
    out.append(generated);
    out.append("` |\n");
    out
}

/// The row of a directory.
pub open spec fn row_of(
    context: GoVerificationContextModel,
    scoped: Seq<Seq<char>>,
    selected: Seq<Seq<char>>,
    dir: Seq<char>,
) -> Seq<char> {
    let package = package_in(context.packages, dir);
    awareness_row_text(
        dir,
        import_cell(package),
        run_reason(scoped, selected, dir),
        tests_cell(package),
        fuzz_cell(context.fuzz_targets.handwritten, dir),
        fuzz_cell(context.fuzz_targets.generated, dir),
    )
}

fn make_row(
    context: &GoVerificationContext,
    scoped: &Vec<String>,
    selected: &Vec<String>,
    dir: &str,
) -> (r: String)
    ensures
        r@ == row_of(context.deep_view(), scoped.deep_view(), selected.deep_view(), dir@),
{
    let reason = package_run_reason(scoped, selected, dir);
    let handwritten = awareness_fuzz_cell(&context.fuzz_targets.handwritten, dir);
    let generated = awareness_fuzz_cell(&context.fuzz_targets.generated, dir);
    match find_package(&context.packages, dir) {
        Some(package) => awareness_row(
            dir,
            package.import_path.as_str(),
            reason,
            package.test_package_kinds(),
            handwritten.as_str(),
            generated.as_str(),
        ),
        None => awareness_row(
            dir,
            "unknown",
            reason,
            "unknown",
            handwritten.as_str(),
            generated.as_str(),
        ),
    }
}

/// What is suggested for a directory: a fuzz target where there are tests and none, and
/// a look where there is one and no code.
pub open spec fn suggestions_for(context: GoVerificationContextModel, dir: Seq<char>) -> Seq<char> {
    let package = package_in(context.packages, dir);
    let handwritten = fuzz_cell(context.fuzz_targets.handwritten, dir);
    (if package is Some && package->0.tested() && handwritten == "none"@ {
        "- `"@ + dir
            + "` has tests but no handwritten fuzz target around the changed surface.\n"@
    } else {
        Seq::empty()
    }) + (if handwritten != "none"@ && package is Some && package->0.go_files.len() == 0 {
        "- `"@ + dir
            + "` exposes fuzzing from test-only files; confirm the package under test is still in scope.\n"@
    } else {
        Seq::empty()
    })
}

fn push_suggestions(out: &mut String, context: &GoVerificationContext, dir: &str)
    ensures
        final(out)@ == old(out)@ + suggestions_for(context.deep_view(), dir@),
{
    let ghost before = out@;
    let handwritten = awareness_fuzz_cell(&context.fuzz_targets.handwritten, dir);
    let none = same(handwritten.as_str(), "none");
    if let Some(package) = find_package(&context.packages, dir) {
        assert(package.go_files@.len() == package.go_files.deep_view().len());
        if package.has_tests() && none {
            out.append("- `");
            out.append(dir);
            out.append("` has tests but no handwritten fuzz target around the changed surface.\n");
        }
        if !none && package.go_files.len() == 0 {
            out.append("- `");
            out.append(dir);
            out.append(
                "` exposes fuzzing from test-only files; confirm the package under test is still in scope.\n",
            );
        }
    }
    assert(out@ =~= before + suggestions_for(context.deep_view(), dir@));
}

/// The rows of directories.
pub open spec fn rows_of(
    items: Seq<Seq<char>>,
    context: GoVerificationContextModel,
    scoped: Seq<Seq<char>>,
    selected: Seq<Seq<char>>,
) -> Seq<char>
    decreases items.len(),
{
    if items.len() == 0 {
        Seq::empty()
    } else {
        rows_of(items.drop_last(), context, scoped, selected) + row_of(context, scoped, selected, items.last())
    }
}

fn push_rows(
    out: &mut String,
    items: &Vec<String>,
    context: &GoVerificationContext,
    scoped: &Vec<String>,
    selected: &Vec<String>,
)
    ensures
        final(out)@ == old(out)@ + rows_of(items.deep_view(), context.deep_view(), scoped.deep_view(), selected.deep_view()),
{
    let ghost before = out@;
    let ghost all = items.deep_view();
    let mut i: usize = 0;
    assert(out@ == before + rows_of(all.take(0), context.deep_view(), scoped.deep_view(), selected.deep_view()));
    while i < items.len()
        invariant
            i <= items@.len(),
            all == items.deep_view(),
            out@ == before + rows_of(all.take(i as int), context.deep_view(), scoped.deep_view(), selected.deep_view()),
        decreases items@.len() - i,
    {
        proof {
            lemma_take_next(all, i as int);
        }
        let ghost so_far = out@;
        out.append(make_row(context, scoped, selected, items[i].as_str()).as_str());
        assert(so_far + row_of(context.deep_view(), scoped.deep_view(), selected.deep_view(), all[i as int]) =~= before + (rows_of(all.take(i as int), context.deep_view(), scoped.deep_view(), selected.deep_view()) + row_of(context.deep_view(), scoped.deep_view(), selected.deep_view(), all[i as int])));
        i = i + 1;
        assert(out@ == before + rows_of(all.take(i as int), context.deep_view(), scoped.deep_view(), selected.deep_view()));
    }
    proof {
        lemma_take_all(all);
    }
}

/// What is suggested for directories.
pub open spec fn all_suggestions(
    items: Seq<Seq<char>>,
    context: GoVerificationContextModel,
) -> Seq<char>
    decreases items.len(),
{
    if items.len() == 0 {
        Seq::empty()
    } else {
        all_suggestions(items.drop_last(), context) + suggestions_for(context, items.last())
    }
}

fn push_all_suggestions(out: &mut String, items: &Vec<String>, context: &GoVerificationContext)
    ensures
        final(out)@ == old(out)@ + all_suggestions(items.deep_view(), context.deep_view()),
{
    let ghost before = out@;
    let ghost all = items.deep_view();
    let mut i: usize = 0;
    assert(out@ == before + all_suggestions(all.take(0), context.deep_view()));
    while i < items.len()
        invariant
            i <= items@.len(),
            all == items.deep_view(),
            out@ == before + all_suggestions(all.take(i as int), context.deep_view()),
        decreases items@.len() - i,
    {
        proof {
            lemma_take_next(all, i as int);
        }
        let ghost so_far = out@;
        push_suggestions(out, context, items[i].as_str());
        assert(so_far + suggestions_for(context.deep_view(), all[i as int]) =~= before + (all_suggestions(all.take(i as int), context.deep_view()) + suggestions_for(context.deep_view(), all[i as int])));
        i = i + 1;
        assert(out@ == before + all_suggestions(all.take(i as int), context.deep_view()));
    }
    proof {
        lemma_take_all(all);
    }
}

/// The head of the summary.
pub open spec fn awareness_head_text(
    target_id: Seq<char>,
    config: GoPluginConfigModel,
) -> Seq<char> {
    let t = "# Go Package Awareness\n\nGenerated by veritas. Review before committing.\n\n- Target: `"@
        + target_id
        + "`\n- Reverse dependency depth: `"@
        + decimal(config.reverse_dependency_depth as int)
        + "`\n- Max fuzz targets per package: `"@
        + decimal(config.max_fuzz_targets as int)
        + "`\n- Command timeout: `"@
        + decimal(config.command_timeout_seconds as int)
        + "s`\n\n| Package | Import path | Run reason | Tests | Handwritten fuzz | Generated fuzz |\n| --- | --- | --- | --- | --- | --- |\n"@;
    t
}

fn awareness_head(target_id: &str, config: &GoPluginConfig) -> (r: String)
    ensures
        r@ == awareness_head_text(target_id@, config.deep_view()),
{
    let mut out = owned("# Go Package Awareness\n\nGenerated by veritas. Review before committing.\n\n- Target: `");
    out.append(target_id);
    out.append("`\n- Reverse dependency depth: `");
    out.append(print_usize(config.reverse_dependency_depth).as_str());
    out.append("`\n- Max fuzz targets per package: `");
    out.append(print_usize(config.max_fuzz_targets).as_str());
    out.append("`\n- Command timeout: `");
    out.append(print_u64(config.command_timeout_seconds).as_str());
    out.append("s`\n\n| Package | Import path | Run reason | Tests | Handwritten fuzz | Generated fuzz |\n| --- | --- | --- | --- | --- | --- |\n");
    out
}

/// The summary of the packages that a run for a target is about.
pub open spec fn awareness_of(
    context: GoVerificationContextModel,
    config: GoPluginConfigModel,
    target: VerificationTargetModel,
    selected: Seq<Seq<char>>,
) -> Seq<char> {
    let dirs = dirs_in_view(context, config, target, selected);
    let suggestions = all_suggestions(dirs, context);
    awareness_head_text(target.id, config) + rows_of(dirs, context, dirs, selected) + (
    if suggestions.len() > 0 {
        "\n## Suggestions\n\n"@ + suggestions
    } else {
        Seq::empty()
    })
}

/// The artifact of a summary.
pub open spec fn awareness_artifact_model(
    target: VerificationTargetModel,
    contents: Seq<char>,
) -> GeneratedArtifactModel {
    GeneratedArtifactModel {
        id: "go-package-awareness-"@ + slug_of(target.path, target.symbol),
        language: "go"@,
        kind: ArtifactKind::PackageAwareness,
        target_id: target.id,
        path: ".veritas/feedback/go_packages.md"@,
        contents: contents,
        description: "Changed Go package test and fuzz awareness summary"@,
        status: ArtifactStatus::Planned,
    }
}

fn awareness_artifact(target: &VerificationTarget, contents: &str) -> (r: GeneratedArtifact)
    ensures
        r.deep_view() == awareness_artifact_model(target.deep_view(), contents@),
{
    GeneratedArtifact {
        id: cat2("go-package-awareness-", module_slug(target.path.as_str(), &target.symbol).as_str()),
        language: owned("go"),
        kind: ArtifactKind::PackageAwareness,
        target_id: owned(target.id.as_str()),
        path: owned(".veritas/feedback/go_packages.md"),
        contents: owned(contents),
        description: owned("Changed Go package test and fuzz awareness summary"),
        status: ArtifactStatus::Planned,
    }
}

/// The summary of the packages that a run for a target is about; nothing where it is
/// about none.
pub fn package_awareness_artifact(
    context: &GoVerificationContext,
    config: &GoPluginConfig,
    target: &VerificationTarget,
    selected_dirs: &Vec<String>,
) -> (r: Option<GeneratedArtifact>)
    ensures
        r.deep_view() == awareness_model(
            context.deep_view(),
            config.deep_view(),
            target.deep_view(),
            selected_dirs.deep_view(),
        ),
{
    let dirs = awareness_package_dirs(context, config, target, selected_dirs);
    assert(dirs@.len() == dirs.deep_view().len());
    if dirs.len() == 0 {
        return None;
    }
    let mut contents = awareness_head(target.id.as_str(), config);
    push_rows(&mut contents, &dirs, context, &dirs, selected_dirs);
    let mut suggestions = String::new();
    push_all_suggestions(&mut suggestions, &dirs, context);
    assert(suggestions@ =~= all_suggestions(dirs.deep_view(), context.deep_view()));
    if suggestions.as_str().unicode_len() > 0 {
        contents.append("\n## Suggestions\n\n");
        contents.append(suggestions.as_str());
    }
    assert(contents@ =~= awareness_of(
        context.deep_view(),
        config.deep_view(),
        target.deep_view(),
        selected_dirs.deep_view(),
    ));
    Some(awareness_artifact(target, contents.as_str()))
}

/// The summary of the packages that a run for a target is about, where there are any.
pub open spec fn awareness_model(
    context: GoVerificationContextModel,
    config: GoPluginConfigModel,
    target: VerificationTargetModel,
    selected: Seq<Seq<char>>,
) -> Option<GeneratedArtifactModel> {
    if dirs_in_view(context, config, target, selected).len() == 0 {
        None
    } else {
        Some(awareness_artifact_model(target, awareness_of(context, config, target, selected)))
    }
}

// ---------------------------------------------------------------------------
// The package graph
// ---------------------------------------------------------------------------
/// A module in the package graph.
pub open spec fn module_node_document(module: GoModuleModel) -> JsonModel {
    JsonModel::Object(
        seq![
            ("module_path"@, JsonModel::Text(module.declared_path)),
            ("root"@, JsonModel::Text(module.root)),
        ],
    )
}

fn module_node_json(module: &GoModule) -> (r: Json)
    ensures
        r.deep_view() == module_node_document(module.deep_view()),
{
    let mut members = Members::new();
    members.put("module_path", text(module.declared_path.as_str()));
    members.put("root", text(module.root.as_str()));
    assert(members.model() =~= module_node_document(module.deep_view())->Object_0);
    members.finish()
}

/// The fuzz targets of a package.
pub open spec fn names_under(entries: Seq<PathTextsModel>, dir: Seq<char>) -> Seq<Seq<char>> {
    match texts_under(entries, dir) {
        Some(names) => names,
        None => Seq::empty(),
    }
}

fn names_json(entries: &Vec<PathTexts>, dir: &str) -> (r: Json)
    ensures
        r.deep_view() == texts_model(names_under(entries.deep_view(), dir@)),
{
    match find_texts(entries, dir) {
        Some(names) => texts(names),
        None => {
            let none: Vec<String> = Vec::new();
            assert(none.deep_view() =~= Seq::<Seq<char>>::empty());
            texts(&none)
        },
    }
}

/// A package in the package graph.
pub open spec fn package_node_document(
    context: GoVerificationContextModel,
    scoped: Seq<Seq<char>>,
    selected: Seq<Seq<char>>,
    package: GoPackageModel,
) -> JsonModel {
    JsonModel::Object(
        seq![
            ("dir"@, JsonModel::Text(package.dir)),
            ("import_path"@, JsonModel::Text(package.import_path)),
            ("imports"@, texts_model(package.imports)),
            ("test_imports"@, texts_model(package.test_imports)),
            ("external_test_imports"@, texts_model(package.x_test_imports)),
            ("has_tests"@, JsonModel::Bool(package.tested())),
            ("test_package_kinds"@, JsonModel::Text(package.test_kinds())),
            ("handwritten_fuzz"@, texts_model(names_under(context.fuzz_targets.handwritten, package.dir))),
            ("generated_fuzz"@, texts_model(names_under(context.fuzz_targets.generated, package.dir))),
            ("run_reason"@, JsonModel::Text(run_reason(scoped, selected, package.dir))),
        ],
    )
}

fn package_node_json(
    context: &GoVerificationContext,
    scoped: &Vec<String>,
    selected: &Vec<String>,
    package: &GoPackage,
) -> (r: Json)
    ensures
        r.deep_view() == package_node_document(context.deep_view(), scoped.deep_view(), selected.deep_view(), package.deep_view()),
{
    let mut members = Members::new();
    members.put("dir", text(package.dir.as_str()));
    members.put("import_path", text(package.import_path.as_str()));
    members.put("imports", texts(&package.imports));
    members.put("test_imports", texts(&package.test_imports));
    members.put("external_test_imports", texts(&package.x_test_imports));
    members.put("has_tests", Json::Bool(package.has_tests()));
    members.put("test_package_kinds", text(package.test_package_kinds()));
    members.put("handwritten_fuzz", names_json(&context.fuzz_targets.handwritten, package.dir.as_str()));
    members.put("generated_fuzz", names_json(&context.fuzz_targets.generated, package.dir.as_str()));
    members.put("run_reason", text(package_run_reason(scoped, selected, package.dir.as_str())));
    assert(members.model() =~= package_node_document(context.deep_view(), scoped.deep_view(), selected.deep_view(), package.deep_view())->Object_0);
    members.finish()
}

/// Modules in the package graph.
pub open spec fn module_node_documents(items: Seq<GoModuleModel>) -> Seq<JsonModel>
    decreases items.len(),
{
    if items.len() == 0 {
        Seq::empty()
    } else {
        module_node_documents(items.drop_last()).push(module_node_document(items.last()))
    }
}

fn module_node_list(items: &Vec<GoModule>) -> (r: Json)
    ensures
        r.deep_view() == JsonModel::Array(module_node_documents(items.deep_view())),
{
    let mut out = Items::new();
    let ghost all = items.deep_view();
    let mut i: usize = 0;
    assert(out.model() =~= module_node_documents(all.take(0)));
    while i < items.len()
        invariant
            i <= items@.len(),
            all == items.deep_view(),
            out.model() == module_node_documents(all.take(i as int)),
        decreases items@.len() - i,
    {
        proof {
            lemma_take_next(all, i as int);
        }
        out.put(module_node_json(&items[i]));
        i = i + 1;
    }
    proof {
        lemma_take_all(all);
    }
    out.finish()
}

/// Packages in the package graph.
pub open spec fn package_node_documents(
    context: GoVerificationContextModel,
    scoped: Seq<Seq<char>>,
    selected: Seq<Seq<char>>,
    items: Seq<GoPackageModel>,
) -> Seq<JsonModel>
    decreases items.len(),
{
    if items.len() == 0 {
        Seq::empty()
    } else {
        package_node_documents(context, scoped, selected, items.drop_last()).push(package_node_document(context, scoped, selected, items.last()))
    }
}

fn package_node_list(
    context: &GoVerificationContext,
    scoped: &Vec<String>,
    selected: &Vec<String>,
    items: &Vec<GoPackage>,
) -> (r: Json)
    ensures
        r.deep_view() == JsonModel::Array(package_node_documents(context.deep_view(), scoped.deep_view(), selected.deep_view(), items.deep_view())),
{
    let mut out = Items::new();
    let ghost all = items.deep_view();
    let mut i: usize = 0;
    assert(out.model() =~= package_node_documents(context.deep_view(), scoped.deep_view(), selected.deep_view(), all.take(0)));
    while i < items.len()
        invariant
            i <= items@.len(),
            all == items.deep_view(),
            out.model() == package_node_documents(context.deep_view(), scoped.deep_view(), selected.deep_view(), all.take(i as int)),
        decreases items@.len() - i,
    {
        proof {
            lemma_take_next(all, i as int);
        }
        out.put(package_node_json(context, scoped, selected, &items[i]));
        i = i + 1;
    }
    proof {
        lemma_take_all(all);
    }
    out.finish()
}

/// The package graph.
pub open spec fn package_graph_document(
    context: GoVerificationContextModel,
    config: GoPluginConfigModel,
    target: VerificationTargetModel,
    scoped: Seq<Seq<char>>,
    selected: Seq<Seq<char>>,
) -> JsonModel {
    JsonModel::Object(
        seq![
            ("target_id"@, JsonModel::Text(target.id)),
            ("reverse_dependency_depth"@, JsonModel::Number(decimal(config.reverse_dependency_depth as int))),
            ("max_packages"@, JsonModel::Number(decimal(config.max_packages as int))),
            ("modules"@, JsonModel::Array(module_node_documents(context.modules))),
            ("packages"@, JsonModel::Array(package_node_documents(context, scoped, selected, context.packages))),
        ],
    )
}

fn package_graph_json(
    context: &GoVerificationContext,
    config: &GoPluginConfig,
    target: &VerificationTarget,
    scoped: &Vec<String>,
    selected: &Vec<String>,
) -> (r: Json)
    ensures
        r.deep_view() == package_graph_document(context.deep_view(), config.deep_view(), target.deep_view(), scoped.deep_view(), selected.deep_view()),
{
    let mut members = Members::new();
    members.put("target_id", text(target.id.as_str()));
    members.put("reverse_dependency_depth", number(config.reverse_dependency_depth as u64));
    members.put("max_packages", number(config.max_packages as u64));
    members.put("modules", module_node_list(&context.modules));
    members.put("packages", package_node_list(context, scoped, selected, &context.packages));
    assert(members.model() =~= package_graph_document(context.deep_view(), config.deep_view(), target.deep_view(), scoped.deep_view(), selected.deep_view())->Object_0);
    members.finish()
}

/// The artifact of a package graph.
pub open spec fn graph_artifact_model(
    target: VerificationTargetModel,
    contents: Seq<char>,
) -> GeneratedArtifactModel {
    GeneratedArtifactModel {
        id: "go-package-graph-"@ + slug_of(target.path, target.symbol),
        language: "go"@,
        kind: ArtifactKind::PackageGraph,
        target_id: target.id,
        path: ".veritas/package_graph/go.json"@,
        contents: contents,
        description: "Machine-readable Go package graph and scoped-run reasons"@,
        status: ArtifactStatus::Planned,
    }
}

fn graph_artifact(target: &VerificationTarget, contents: &str) -> (r: GeneratedArtifact)
    ensures
        r.deep_view() == graph_artifact_model(target.deep_view(), contents@),
{
    GeneratedArtifact {
        id: cat2("go-package-graph-", module_slug(target.path.as_str(), &target.symbol).as_str()),
        language: owned("go"),
        kind: ArtifactKind::PackageGraph,
        target_id: owned(target.id.as_str()),
        path: owned(".veritas/package_graph/go.json"),
        contents: owned(contents),
        description: owned("Machine-readable Go package graph and scoped-run reasons"),
        status: ArtifactStatus::Planned,
    }
}

/// The package graph of a project, where it has modules or packages.
pub open spec fn graph_model(
    context: GoVerificationContextModel,
    config: GoPluginConfigModel,
    target: VerificationTargetModel,
    selected: Seq<Seq<char>>,
) -> Option<GeneratedArtifactModel> {
    if context.packages.len() == 0 && context.modules.len() == 0 {
        None
    } else {
        Some(
            graph_artifact_model(
                target,
                pretty_json(
                    package_graph_document(
                        context,
                        config,
                        target,
                        dirs_in_view(context, config, target, selected),
                        selected,
                    ),
                ),
            ),
        )
    }
}

/// The package graph of a project, where it has modules or packages.
pub fn package_graph_artifact(
    context: &GoVerificationContext,
    config: &GoPluginConfig,
    target: &VerificationTarget,
    selected_dirs: &Vec<String>,
) -> (r: Option<GeneratedArtifact>)
    ensures
        r.deep_view() == graph_model(
            context.deep_view(),
            config.deep_view(),
            target.deep_view(),
            selected_dirs.deep_view(),
        ),
{
    assert(context.packages@.len() == context.packages.deep_view().len());
    assert(context.modules@.len() == context.modules.deep_view().len());
    if context.packages.len() == 0 && context.modules.len() == 0 {
        return None;
    }
    let scoped = awareness_package_dirs(context, config, target, selected_dirs);
    let document = package_graph_json(context, config, target, &scoped, selected_dirs);
    let contents = pretty(&document);
    Some(graph_artifact(target, contents.as_str()))
}

// ---------------------------------------------------------------------------
// The symbol graph
// ---------------------------------------------------------------------------
/// A function in the symbol graph.
pub open spec fn symbol_node_document(function: GoFunctionModel) -> JsonModel {
    JsonModel::Object(
        seq![
            ("id"@, JsonModel::Text(function_target_id_text(function.path, function.symbol))),
            ("path"@, JsonModel::Text(function.path)),
            ("package_name"@, JsonModel::Text(function.package_name)),
            ("symbol"@, JsonModel::Text(function.symbol)),
            ("name"@, JsonModel::Text(function.name)),
            ("receiver"@, text_or_null(function.receiver)),
            ("signature"@, JsonModel::Text(function.signature)),
            ("line_range"@, line_range_document(function.line_range)),
            ("risk"@, JsonModel::Text(risk_of(function.symbol).label_text())),
            ("calls"@, texts_model(function.calls)),
        ],
    )
}

fn symbol_node_json(function: &GoFunction) -> (r: Json)
    ensures
        r.deep_view() == symbol_node_document(function.deep_view()),
{
    let mut members = Members::new();
    members.put("id", text(function_target_id(function.path.as_str(), function.symbol.as_str()).as_str()));
    members.put("path", text(function.path.as_str()));
    members.put("package_name", text(function.package_name.as_str()));
    members.put("symbol", text(function.symbol.as_str()));
    members.put("name", text(function.name.as_str()));
    members.put("receiver", optional_text(&function.receiver));
    members.put("signature", text(function.signature.as_str()));
    members.put("line_range", line_range_json(&function.line_range));
    members.put("risk", text(infer_risk(function.symbol.as_str()).label()));
    members.put("calls", texts(&function.calls));
    assert(members.model() =~= symbol_node_document(function.deep_view())->Object_0);
    members.finish()
}

/// Functions in the symbol graph.
pub open spec fn symbol_node_documents(items: Seq<GoFunctionModel>) -> Seq<JsonModel>
    decreases items.len(),
{
    if items.len() == 0 {
        Seq::empty()
    } else {
        symbol_node_documents(items.drop_last()).push(symbol_node_document(items.last()))
    }
}

fn symbol_node_list(items: &Vec<GoFunction>) -> (r: Json)
    ensures
        r.deep_view() == JsonModel::Array(symbol_node_documents(items.deep_view())),
{
    let mut out = Items::new();
    let ghost all = items.deep_view();
    let mut i: usize = 0;
    assert(out.model() =~= symbol_node_documents(all.take(0)));
    while i < items.len()
        invariant
            i <= items@.len(),
            all == items.deep_view(),
            out.model() == symbol_node_documents(all.take(i as int)),
        decreases items@.len() - i,
    {
        proof {
            lemma_take_next(all, i as int);
        }
        out.put(symbol_node_json(&items[i]));
        i = i + 1;
    }
    proof {
        lemma_take_all(all);
    }
    out.finish()
}

/// Whether a function is in the symbol graph of a path and a symbol.
pub open spec fn in_graph(
    path: Seq<char>,
    symbol: Option<Seq<char>>,
    function: GoFunctionModel,
) -> bool {
    match symbol {
        Some(wanted) => function.symbol == wanted && same_path(function.path, path),
        None => same_path(package_dir_path(function.path), path) || same_path(function.path, path)
            || path == "."@,
    }
}

fn is_in_graph(path: &str, symbol: &Option<String>, function: &GoFunction) -> (r: bool)
    ensures
        r == in_graph(path@, symbol.deep_view(), function.deep_view()),
{
    match symbol {
        Some(wanted) => same(function.symbol.as_str(), wanted.as_str()) && path_same(
            function.path.as_str(),
            path,
        ),
        None => path_same(package_dir(function.path.as_str()).as_str(), path) || path_same(
            function.path.as_str(),
            path,
        ) || same(path, "."),
    }
}

/// The functions in the symbol graph of a path and a symbol.
pub open spec fn functions_in_graph(
    path: Seq<char>,
    symbol: Option<Seq<char>>,
    items: Seq<GoFunctionModel>,
) -> Seq<GoFunctionModel>
    decreases items.len(),
{
    if items.len() == 0 {
        Seq::empty()
    } else if in_graph(path, symbol, items.last()) {
        functions_in_graph(path, symbol, items.drop_last()).push(items.last())
    } else {
        functions_in_graph(path, symbol, items.drop_last())
    }
}

fn graph_functions(
    path: &str,
    symbol: &Option<String>,
    items: &Vec<GoFunction>,
) -> (r: Vec<GoFunction>)
    ensures
        r.deep_view() == functions_in_graph(path@, symbol.deep_view(), items.deep_view()),
{
    let mut out: Vec<GoFunction> = Vec::new();
    let ghost all = items.deep_view();
    let mut i: usize = 0;
    assert(out.deep_view() == functions_in_graph(path@, symbol.deep_view(), all.take(0)));
    while i < items.len()
        invariant
            i <= items@.len(),
            all == items.deep_view(),
            out.deep_view() == functions_in_graph(path@, symbol.deep_view(), all.take(i as int)),
        decreases items@.len() - i,
    {
        proof {
            lemma_take_next(all, i as int);
        }
        if is_in_graph(path, symbol, &items[i]) {
            push_go_function(&mut out, items[i].clone());
        }
        i = i + 1;
    }
    proof {
        lemma_take_all(all);
    }
    out
}

/// The symbol graph of a target.
pub open spec fn symbol_graph_document(
    target_id: Seq<char>,
    symbols: Seq<GoFunctionModel>,
) -> JsonModel {
    JsonModel::Object(
        seq![
            ("target_id"@, JsonModel::Text(target_id)),
            ("symbols"@, JsonModel::Array(symbol_node_documents(symbols))),
        ],
    )
}

fn symbol_graph_json(target_id: &str, symbols: &Vec<GoFunction>) -> (r: Json)
    ensures
        r.deep_view() == symbol_graph_document(target_id@, symbols.deep_view()),
{
    let mut members = Members::new();
    members.put("target_id", text(target_id));
    members.put("symbols", symbol_node_list(symbols));
    assert(members.model() =~= symbol_graph_document(target_id@, symbols.deep_view())->Object_0);
    members.finish()
}

/// The artifact of a symbol graph.
pub open spec fn symbols_artifact_model(
    target_id: Seq<char>,
    slug: Seq<char>,
    contents: Seq<char>,
) -> GeneratedArtifactModel {
    GeneratedArtifactModel {
        id: "go-symbol-graph-"@ + slug,
        language: "go"@,
        kind: ArtifactKind::SymbolGraph,
        target_id: target_id,
        path: ".veritas/symbol_graph/go_"@ + slug + ".json"@,
        contents: contents,
        description: "Machine-readable Go symbol graph with receiver and call hints"@,
        status: ArtifactStatus::Planned,
    }
}

fn symbols_artifact(target_id: &str, slug: &str, contents: &str) -> (r: GeneratedArtifact)
    ensures
        r.deep_view() == symbols_artifact_model(target_id@, slug@, contents@),
{
    GeneratedArtifact {
        id: cat2("go-symbol-graph-", slug),
        language: owned("go"),
        kind: ArtifactKind::SymbolGraph,
        target_id: owned(target_id),
        path: cat3(".veritas/symbol_graph/go_", slug, ".json"),
        contents: owned(contents),
        description: owned("Machine-readable Go symbol graph with receiver and call hints"),
        status: ArtifactStatus::Planned,
    }
}

/// The symbol graph of a target.
pub open spec fn symbols_model(
    functions: Seq<GoFunctionModel>,
    target_id: Seq<char>,
    path: Seq<char>,
    symbol: Option<Seq<char>>,
) -> GeneratedArtifactModel {
    symbols_artifact_model(
        target_id,
        slug_of(path, symbol),
        pretty_json(symbol_graph_document(target_id, functions_in_graph(path, symbol, functions))),
    )
}

/// The symbol graph of a target.
pub fn symbol_graph_artifact(
    context: &GoVerificationContext,
    target_id: &str,
    target_path: &str,
    target_symbol: &Option<String>,
) -> (r: GeneratedArtifact)
    ensures
        r.deep_view() == symbols_model(
            context.deep_view().functions,
            target_id@,
            target_path@,
            target_symbol.deep_view(),
        ),
{
    let symbols = graph_functions(target_path, target_symbol, &context.functions);
    let document = symbol_graph_json(target_id, &symbols);
    let contents = pretty(&document);
    let slug = module_slug(target_path, target_symbol);
    symbols_artifact(target_id, slug.as_str(), contents.as_str())
}

// ---------------------------------------------------------------------------
// Generated tests
// ---------------------------------------------------------------------------
/// Whether a harness is written for a function: it has no receiver, its parameters can
/// be fuzzed, and nobody wrote a fuzz target for it.
pub open spec fn wants_harness(
    handwritten: Seq<PathTextsModel>,
    function: GoFunctionModel,
) -> bool {
    function.receiver is None && function.params.len() > 0 && !has_fuzz_target(
        handwritten,
        package_dir_path(function.path),
        function.name,
    )
}

fn needs_harness(fuzz_targets: &GoFuzzTargets, function: &GoFunction) -> (r: bool)
    ensures
        r == wants_harness(fuzz_targets.deep_view().handwritten, function.deep_view()),
{
    assert(function.params@.len() == function.params.deep_view().len());
    function.receiver.is_none() && function.params.len() > 0 && !handwritten_fuzz_exists(
        fuzz_targets,
        package_dir(function.path.as_str()).as_str(),
        function,
    )
}

/// The functions for which a harness is written.
pub open spec fn functions_fuzzed(
    fuzz_targets: GoFuzzTargetsModel,
    items: Seq<GoFunctionModel>,
) -> Seq<GoFunctionModel>
    decreases items.len(),
{
    if items.len() == 0 {
        Seq::empty()
    } else if wants_harness(fuzz_targets.handwritten, items.last()) {
        functions_fuzzed(fuzz_targets, items.drop_last()).push(items.last())
    } else {
        functions_fuzzed(fuzz_targets, items.drop_last())
    }
}

fn functions_to_fuzz(fuzz_targets: &GoFuzzTargets, items: &Vec<GoFunction>) -> (r: Vec<GoFunction>)
    ensures
        r.deep_view() == functions_fuzzed(fuzz_targets.deep_view(), items.deep_view()),
{
    let mut out: Vec<GoFunction> = Vec::new();
    let ghost all = items.deep_view();
    let mut i: usize = 0;
    assert(out.deep_view() == functions_fuzzed(fuzz_targets.deep_view(), all.take(0)));
    while i < items.len()
        invariant
            i <= items@.len(),
            all == items.deep_view(),
            out.deep_view() == functions_fuzzed(fuzz_targets.deep_view(), all.take(i as int)),
        decreases items@.len() - i,
    {
        proof {
            lemma_take_next(all, i as int);
        }
        if needs_harness(fuzz_targets, &items[i]) {
            push_go_function(&mut out, items[i].clone());
        }
        i = i + 1;
    }
    proof {
        lemma_take_all(all);
    }
    out
}

/// The functions of a package.
pub open spec fn functions_of_package(
    package: Seq<char>,
    items: Seq<GoFunctionModel>,
) -> Seq<GoFunctionModel>
    decreases items.len(),
{
    if items.len() == 0 {
        Seq::empty()
    } else if same_path(package_dir_path(items.last().path), package) {
        functions_of_package(package, items.drop_last()).push(items.last())
    } else {
        functions_of_package(package, items.drop_last())
    }
}

fn functions_in_package(package: &str, items: &Vec<GoFunction>) -> (r: Vec<GoFunction>)
    ensures
        r.deep_view() == functions_of_package(package@, items.deep_view()),
{
    let mut out: Vec<GoFunction> = Vec::new();
    let ghost all = items.deep_view();
    let mut i: usize = 0;
    assert(out.deep_view() == functions_of_package(package@, all.take(0)));
    while i < items.len()
        invariant
            i <= items@.len(),
            all == items.deep_view(),
            out.deep_view() == functions_of_package(package@, all.take(i as int)),
        decreases items@.len() - i,
    {
        proof {
            lemma_take_next(all, i as int);
        }
        if path_same(package_dir(items[i].path.as_str()).as_str(), package) {
            push_go_function(&mut out, items[i].clone());
        }
        i = i + 1;
    }
    proof {
        lemma_take_all(all);
    }
    out
}

/// A file in a package.
pub open spec fn file_in(package: Seq<char>, name: Seq<char>) -> Seq<char> {
    if package == "."@ {
        name
    } else {
        joined_path(package, name)
    }
}

/// A file in a package.
pub fn file_in_package(package: &str, name: &str) -> (r: String)
    ensures
        r@ == file_in(package@, name@),
{
    if same(package, ".") {
        owned(name)
    } else {
        join_path(package, name)
    }
}

/// The harnesses of a package.
pub open spec fn harness_artifact_model(
    target_id: Seq<char>,
    package: Seq<char>,
    functions: Seq<GoFunctionModel>,
) -> GeneratedArtifactModel {
    GeneratedArtifactModel {
        id: "go-fuzz-"@ + ident_of(package),
        language: "go"@,
        kind: ArtifactKind::FuzzHarness,
        target_id: target_id,
        path: file_in(package, "veritas_fuzz_test.go"@),
        contents: fuzz_file(functions),
        description: "Generated Go testing.F fuzz harnesses"@,
        status: ArtifactStatus::Planned,
    }
}

fn harness_artifact(
    target_id: &str,
    package: &str,
    functions: &Vec<GoFunction>,
) -> (r: GeneratedArtifact)
    ensures
        r.deep_view() == harness_artifact_model(target_id@, package@, functions.deep_view()),
{
    GeneratedArtifact {
        id: cat2("go-fuzz-", safe_ident(package).as_str()),
        language: owned("go"),
        kind: ArtifactKind::FuzzHarness,
        target_id: owned(target_id),
        path: file_in_package(package, "veritas_fuzz_test.go"),
        contents: render_fuzz_file(functions),
        description: owned("Generated Go testing.F fuzz harnesses"),
        status: ArtifactStatus::Planned,
    }
}

fn harness_of_package(target_id: &str, package: &str, functions: &Vec<GoFunction>) -> (r:
    GeneratedArtifact)
    ensures
        r.deep_view() == harness_artifact_model(
            target_id@,
            package@,
            functions_of_package(package@, functions.deep_view()),
        ),
{
    let own = functions_in_package(package, functions);
    harness_artifact(target_id, package, &own)
}

/// The harnesses of functions, package by package.
pub open spec fn harness_artifacts_of(
    target_id: Seq<char>,
    functions: Seq<GoFunctionModel>,
    items: Seq<Seq<char>>,
) -> Seq<GeneratedArtifactModel>
    decreases items.len(),
{
    if items.len() == 0 {
        Seq::empty()
    } else {
        harness_artifacts_of(target_id, functions, items.drop_last()).push(harness_artifact_model(target_id, items.last(), functions_of_package(items.last(), functions)))
    }
}

fn harness_artifacts(
    target_id: &str,
    functions: &Vec<GoFunction>,
    items: &Vec<String>,
) -> (r: Vec<GeneratedArtifact>)
    ensures
        r.deep_view() == harness_artifacts_of(target_id@, functions.deep_view(), items.deep_view()),
{
    let mut out: Vec<GeneratedArtifact> = Vec::new();
    let ghost all = items.deep_view();
    let mut i: usize = 0;
    assert(out.deep_view() == harness_artifacts_of(target_id@, functions.deep_view(), all.take(0)));
    while i < items.len()
        invariant
            i <= items@.len(),
            all == items.deep_view(),
            out.deep_view() == harness_artifacts_of(target_id@, functions.deep_view(), all.take(i as int)),
        decreases items@.len() - i,
    {
        proof {
            lemma_take_next(all, i as int);
        }
        push_generated_artifact(&mut out, harness_of_package(target_id, items[i].as_str(), functions));
        i = i + 1;
    }
    proof {
        lemma_take_all(all);
    }
    out
}

/// What a mutation check is about.
pub open spec fn mutation_check_words(
    target_id: Seq<char>,
    path: Seq<char>,
    symbol: Option<Seq<char>>,
) -> Seq<char> {
    let t = "language=go\ntarget_id="@ + target_id + "\npath="@ + path + "\nsymbol="@;
    let t = match symbol {
        Some(known) => {
            let t = t + known;
            t
        },
        None => {
            t
        },
    };
    let t = t + "\n"@;
    t
}

fn mutation_check_text(target_id: &str, path: &str, symbol: &Option<String>) -> (r: String)
    ensures
        r@ == mutation_check_words(target_id@, path@, symbol.deep_view()),
{
    let mut out = owned("language=go\ntarget_id=");
    out.append(target_id);
    out.append("\npath=");
    out.append(path);
    out.append("\nsymbol=");
    if let Some(known) = symbol {
        out.append(known.as_str());
    }
    out.append("\n");
    out
}

/// The mutation check of a target.
pub open spec fn mutation_artifact_model(
    target: VerificationTargetModel,
) -> GeneratedArtifactModel {
    GeneratedArtifactModel {
        id: "go-mutation-"@ + slug_of(target.path, target.symbol),
        language: "go"@,
        kind: ArtifactKind::MutationCheck,
        target_id: target.id,
        path: ".veritas/mutations/go_"@ + slug_of(target.path, target.symbol) + ".txt"@,
        contents: mutation_check_words(target.id, target.path, target.symbol),
        description: "Deterministic Go mutation probes for selected functions"@,
        status: ArtifactStatus::Planned,
    }
}

fn mutation_artifact(target: &VerificationTarget) -> (r: GeneratedArtifact)
    ensures
        r.deep_view() == mutation_artifact_model(target.deep_view()),
{
    let slug = module_slug(target.path.as_str(), &target.symbol);
    GeneratedArtifact {
        id: cat2("go-mutation-", slug.as_str()),
        language: owned("go"),
        kind: ArtifactKind::MutationCheck,
        target_id: owned(target.id.as_str()),
        path: cat3(".veritas/mutations/go_", slug.as_str(), ".txt"),
        contents: mutation_check_text(target.id.as_str(), target.path.as_str(), &target.symbol),
        description: owned("Deterministic Go mutation probes for selected functions"),
        status: ArtifactStatus::Planned,
    }
}

/// The artifacts of a target: the summary and the graph of its packages, its symbol
/// graph, harnesses where fuzzing is planned, and a mutation check where that is.
pub open spec fn tests_for(
    context: GoVerificationContextModel,
    config: GoPluginConfigModel,
    target: VerificationTargetModel,
    strategies: Seq<VerificationStrategy>,
) -> Seq<GeneratedArtifactModel> {
    let selected = functions_selected(target, context.functions);
    let dirs = dirs_selected(target, selected);
    let fuzzed = functions_fuzzed(context.fuzz_targets, selected);
    some_artifact(awareness_model(context, config, target, dirs)) + some_artifact(
        graph_model(context, config, target, dirs),
    ) + seq![symbols_model(context.functions, target.id, target.path, target.symbol)] + (
    if strategies.contains(VerificationStrategy::Fuzzing) {
        harness_artifacts_of(target.id, fuzzed, sorted_set::<ByPath>(function_dirs_of(fuzzed)))
    } else {
        Seq::empty()
    }) + (if strategies.contains(VerificationStrategy::MutationChecks) && dirs.len() > 0 {
        seq![mutation_artifact_model(target)]
    } else {
        Seq::empty()
    })
}

/// One artifact, or none.
pub open spec fn some_artifact(artifact: Option<GeneratedArtifactModel>) -> Seq<
    GeneratedArtifactModel,
> {
    match artifact {
        Some(known) => seq![known],
        None => Seq::empty(),
    }
}

/// One artifact, or none.
pub fn push_some(artifacts: &mut Vec<GeneratedArtifact>, artifact: Option<GeneratedArtifact>)
    ensures
        final(artifacts).deep_view() == old(artifacts).deep_view() + some_artifact(
            artifact.deep_view(),
        ),
{
    let ghost before = artifacts.deep_view();
    if let Some(known) = artifact {
        push_generated_artifact(artifacts, known);
    }
    assert(artifacts.deep_view() =~= before + some_artifact(artifact.deep_view()));
}

/// The artifacts of a target.
pub fn generate_tests(
    context: &GoVerificationContext,
    config: &GoPluginConfig,
    target: &VerificationTarget,
    plan: &VerificationPlan,
) -> (r: Vec<GeneratedArtifact>)
    ensures
        r.deep_view() == tests_for(
            context.deep_view(),
            config.deep_view(),
            target.deep_view(),
            plan.deep_view().strategies,
        ),
{
    let selected = selected_functions(target, &context.functions);
    let dirs = selected_package_dirs(target, &selected);
    let mut artifacts: Vec<GeneratedArtifact> = Vec::new();
    assert(artifacts.deep_view() =~= Seq::<GeneratedArtifactModel>::empty());
    push_some(&mut artifacts, package_awareness_artifact(context, config, target, &dirs));
    push_some(&mut artifacts, package_graph_artifact(context, config, target, &dirs));
    push_some(
        &mut artifacts,
        Some(
            symbol_graph_artifact(
                context,
                target.id.as_str(),
                target.path.as_str(),
                &target.symbol,
            ),
        ),
    );
    let mut harnesses: Vec<GeneratedArtifact> = Vec::new();
    assert(harnesses.deep_view() =~= Seq::<GeneratedArtifactModel>::empty());
    if has_strategy(&plan.strategies, VerificationStrategy::Fuzzing) {
        let fuzzed = functions_to_fuzz(&context.fuzz_targets, &selected);
        let packages = to_sorted_set::<ByPath>(&dirs_of_functions(&fuzzed));
        harnesses = harness_artifacts(target.id.as_str(), &fuzzed, &packages);
    }
    append_generated_artifacts(&mut artifacts, &mut harnesses);
    assert(dirs@.len() == dirs.deep_view().len());
    let mutated = has_strategy(&plan.strategies, VerificationStrategy::MutationChecks)
        && dirs.len() > 0;
    push_some(
        &mut artifacts,
        if mutated {
            Some(mutation_artifact(target))
        } else {
            None
        },
    );
    assert(artifacts.deep_view() =~= tests_for(
        context.deep_view(),
        config.deep_view(),
        target.deep_view(),
        plan.deep_view().strategies,
    ));
    artifacts
}

// ---------------------------------------------------------------------------
// The plugin
// ---------------------------------------------------------------------------
/// The plugin for Go: how it is configured, and the packages whose coverage is measured next,
/// by project.
#[derive(Debug)]
pub struct GoPlugin {
    config: GoPluginConfig,
    coverage_package_args: Vec<PathTexts>,
}

/// The mathematical value of a `GoPlugin`.
pub struct GoPluginModel {
    pub config: GoPluginConfigModel,
    pub coverage_package_args: Seq<PathTextsModel>,
}

impl DeepView for GoPlugin {
    type V = GoPluginModel;

    closed spec fn deep_view(&self) -> GoPluginModel {
        GoPluginModel {
            config: self.config.deep_view(),
            coverage_package_args: self.coverage_package_args.deep_view(),
        }
    }
}

/// The packages whose coverage is measured in a project: those that were remembered, or all.
pub open spec fn packages_to_cover(plugin: GoPluginModel, root: Seq<char>) -> Seq<Seq<char>> {
    match texts_under(plugin.coverage_package_args, root) {
        Some(args) => args,
        None => seq!["./..."@],
    }
}

impl GoPlugin {
    /// A plugin that remembers nothing.
    pub fn new(config: GoPluginConfig) -> (r: Self)
        ensures
            r.deep_view() == (GoPluginModel {
                config: config.deep_view(),
                coverage_package_args: Seq::empty(),
            }),
            well_ordered(r.deep_view().coverage_package_args),
    {
        let plugin = GoPlugin { config, coverage_package_args: Vec::new() };
        assert(plugin.coverage_package_args.deep_view() =~= Seq::<PathTextsModel>::empty());
        plugin
    }

    /// How the plugin is configured.
    pub fn config(&self) -> (r: &GoPluginConfig)
        ensures
            r.deep_view() == self.deep_view().config,
    {
        &self.config
    }

    /// Remembers the packages that were tested in a project.
    pub fn remember_coverage_package_args(&mut self, root: &str, package_args: &Vec<String>)
        requires
            well_ordered(old(self).deep_view().coverage_package_args),
        ensures
            final(self).deep_view() == (GoPluginModel {
                config: old(self).deep_view().config,
                coverage_package_args: texts_put(
                    old(self).deep_view().coverage_package_args,
                    root@,
                    package_args.deep_view(),
                    false,
                ),
            }),
            well_ordered(final(self).deep_view().coverage_package_args),
    {
        proof {
            law_putting_texts_keeps_the_order(
                self.coverage_package_args.deep_view(),
                root@,
                package_args.deep_view(),
                false,
            );
        }
        put_texts(&mut self.coverage_package_args, root, package_args, false);
    }

    /// The packages whose coverage is measured in a project.
    pub fn coverage_package_args(&self, root: &str) -> (r: Vec<String>)
        ensures
            r.deep_view() == packages_to_cover(self.deep_view(), root@),
    {
        match find_texts(&self.coverage_package_args, root) {
            Some(args) => clone_texts(args),
            None => texts_of1("./..."),
        }
    }
}

/// Coverage is measured of the packages that were tested last in a project.
pub proof fn law_tested_packages_are_covered(
    plugin: GoPluginModel,
    root: Seq<char>,
    args: Seq<Seq<char>>,
)
    requires
        well_ordered(plugin.coverage_package_args),
    ensures
        packages_to_cover(
            GoPluginModel {
                config: plugin.config,
                coverage_package_args: texts_put(plugin.coverage_package_args, root, args, false),
            },
            root,
        ) == args,
{
    law_put_texts_are_found(plugin.coverage_package_args, root, args, false);
}

/// A name is of high risk where it has one of the words that call for care, however they are
/// written, and of medium risk where it has none.
pub proof fn law_careful_words_are_of_high_risk(name: Seq<char>, other: Seq<char>)
    ensures
        risk_of(name) == RiskLevel::High <==> {
            ||| has_text(lower(name), "parse"@)
            ||| has_text(lower(name), "auth"@)
            ||| has_text(lower(name), "permission"@)
            ||| has_text(lower(name), "money"@)
            ||| has_text(lower(name), "price"@)
            ||| has_text(lower(name), "invoice"@)
            ||| has_text(lower(name), "token"@)
            ||| has_text(lower(name), "crypto"@)
            ||| has_text(lower(name), "serialize"@)
            ||| has_text(lower(name), "network"@)
            ||| has_text(lower(name), "refund"@)
            ||| has_text(lower(name), "discount"@)
        },
        risk_of(name) == RiskLevel::High || risk_of(name) == RiskLevel::Medium,
        lower(name) == lower(other) ==> risk_of(name) == risk_of(other),
{
}

} // verus!
