//! Configuration: its defaults, what a file changes, and what the command line
//! changes on top.
use vstd::prelude::*;

use crate::api::{clone_risk_levels, FailureSeverity, RiskLevel};
use crate::number::{decimal, print_usize};
use crate::text::{clone_text, clone_texts, owned};

verus! {

/// Where plans come from.
#[derive(Debug, Clone, Copy, PartialEq, Eq, Structural)]
pub enum PlannerMode {
    Deterministic,
    ExternalLlm,
}

impl PlannerMode {
    /// The name of the variant.
    pub open spec fn name_text(self) -> Seq<char> {
        match self {
            PlannerMode::Deterministic => "Deterministic"@,
            PlannerMode::ExternalLlm => "ExternalLlm"@,
        }
    }

    /// The name of the variant.
    pub fn name(self) -> (r: &'static str)
        ensures
            r@ == self.name_text(),
    {
        match self {
            PlannerMode::Deterministic => "Deterministic",
            PlannerMode::ExternalLlm => "ExternalLlm",
        }
    }

    /// The name in reports and configuration files.
    pub open spec fn label_text(self) -> Seq<char> {
        match self {
            PlannerMode::Deterministic => "deterministic"@,
            PlannerMode::ExternalLlm => "external_llm"@,
        }
    }

    /// The name in reports and configuration files.
    pub fn label(self) -> (r: &'static str)
        ensures
            r@ == self.label_text(),
    {
        match self {
            PlannerMode::Deterministic => "deterministic",
            PlannerMode::ExternalLlm => "external_llm",
        }
    }
}

/// How mutants are chosen and run.
#[derive(Debug, PartialEq, Eq)]
pub struct MutationConfig {
    pub enabled_domains: Vec<String>,
    pub disabled_domains: Vec<String>,
    pub enabled_operators: Vec<String>,
    pub disabled_operators: Vec<String>,
    pub include_paths: Vec<String>,
    pub exclude_paths: Vec<String>,
    pub include_symbols: Vec<String>,
    pub exclude_symbols: Vec<String>,
    pub include_mutant_ids: Vec<String>,
    pub exclude_mutant_ids: Vec<String>,
    pub dry_run: bool,
    pub max_mutants: Option<usize>,
    pub workers: usize,
    pub test_cpu: Option<usize>,
    pub timeout_coefficient: u64,
    pub timeout_min_seconds: Option<u64>,
    pub timeout_max_seconds: Option<u64>,
    pub shard_index: Option<usize>,
    pub shard_count: Option<usize>,
    pub output_statuses: Vec<String>,
}

/// The mathematical value of a `MutationConfig`.
pub struct MutationConfigModel {
    pub enabled_domains: Seq<Seq<char>>,
    pub disabled_domains: Seq<Seq<char>>,
    pub enabled_operators: Seq<Seq<char>>,
    pub disabled_operators: Seq<Seq<char>>,
    pub include_paths: Seq<Seq<char>>,
    pub exclude_paths: Seq<Seq<char>>,
    pub include_symbols: Seq<Seq<char>>,
    pub exclude_symbols: Seq<Seq<char>>,
    pub include_mutant_ids: Seq<Seq<char>>,
    pub exclude_mutant_ids: Seq<Seq<char>>,
    pub dry_run: bool,
    pub max_mutants: Option<usize>,
    pub workers: usize,
    pub test_cpu: Option<usize>,
    pub timeout_coefficient: u64,
    pub timeout_min_seconds: Option<u64>,
    pub timeout_max_seconds: Option<u64>,
    pub shard_index: Option<usize>,
    pub shard_count: Option<usize>,
    pub output_statuses: Seq<Seq<char>>,
}

impl DeepView for MutationConfig {
    type V = MutationConfigModel;

    open spec fn deep_view(&self) -> MutationConfigModel {
        MutationConfigModel {
            enabled_domains: self.enabled_domains.deep_view(),
            disabled_domains: self.disabled_domains.deep_view(),
            enabled_operators: self.enabled_operators.deep_view(),
            disabled_operators: self.disabled_operators.deep_view(),
            include_paths: self.include_paths.deep_view(),
            exclude_paths: self.exclude_paths.deep_view(),
            include_symbols: self.include_symbols.deep_view(),
            exclude_symbols: self.exclude_symbols.deep_view(),
            include_mutant_ids: self.include_mutant_ids.deep_view(),
            exclude_mutant_ids: self.exclude_mutant_ids.deep_view(),
            dry_run: self.dry_run,
            max_mutants: self.max_mutants,
            workers: self.workers,
            test_cpu: self.test_cpu,
            timeout_coefficient: self.timeout_coefficient,
            timeout_min_seconds: self.timeout_min_seconds,
            timeout_max_seconds: self.timeout_max_seconds,
            shard_index: self.shard_index,
            shard_count: self.shard_count,
            output_statuses: self.output_statuses.deep_view(),
        }
    }
}

impl Clone for MutationConfig {
    fn clone(&self) -> (r: Self)
        ensures
            r.deep_view() == self.deep_view(),
    {
        MutationConfig {
            enabled_domains: clone_texts(&self.enabled_domains),
            disabled_domains: clone_texts(&self.disabled_domains),
            enabled_operators: clone_texts(&self.enabled_operators),
            disabled_operators: clone_texts(&self.disabled_operators),
            include_paths: clone_texts(&self.include_paths),
            exclude_paths: clone_texts(&self.exclude_paths),
            include_symbols: clone_texts(&self.include_symbols),
            exclude_symbols: clone_texts(&self.exclude_symbols),
            include_mutant_ids: clone_texts(&self.include_mutant_ids),
            exclude_mutant_ids: clone_texts(&self.exclude_mutant_ids),
            dry_run: self.dry_run,
            max_mutants: self.max_mutants,
            workers: self.workers,
            test_cpu: self.test_cpu,
            timeout_coefficient: self.timeout_coefficient,
            timeout_min_seconds: self.timeout_min_seconds,
            timeout_max_seconds: self.timeout_max_seconds,
            shard_index: self.shard_index,
            shard_count: self.shard_count,
            output_statuses: clone_texts(&self.output_statuses),
        }
    }
}

/// Which findings and scores fail a run.
#[derive(Debug, PartialEq, Eq)]
pub struct PolicyConfig {
    pub fail_on_severity: FailureSeverity,
    pub fail_on_languages: Vec<String>,
    pub fail_on_artifact_kinds: Vec<String>,
    pub fail_on_target_risks: Vec<RiskLevel>,
    pub min_mutation_score: Option<u8>,
    pub min_mutation_efficacy: Option<u8>,
    pub min_mutant_coverage: Option<u8>,
}

/// The mathematical value of a `PolicyConfig`.
pub struct PolicyConfigModel {
    pub fail_on_severity: FailureSeverity,
    pub fail_on_languages: Seq<Seq<char>>,
    pub fail_on_artifact_kinds: Seq<Seq<char>>,
    pub fail_on_target_risks: Seq<RiskLevel>,
    pub min_mutation_score: Option<u8>,
    pub min_mutation_efficacy: Option<u8>,
    pub min_mutant_coverage: Option<u8>,
}

impl DeepView for PolicyConfig {
    type V = PolicyConfigModel;

    open spec fn deep_view(&self) -> PolicyConfigModel {
        PolicyConfigModel {
            fail_on_severity: self.fail_on_severity,
            fail_on_languages: self.fail_on_languages.deep_view(),
            fail_on_artifact_kinds: self.fail_on_artifact_kinds.deep_view(),
            fail_on_target_risks: self.fail_on_target_risks@,
            min_mutation_score: self.min_mutation_score,
            min_mutation_efficacy: self.min_mutation_efficacy,
            min_mutant_coverage: self.min_mutant_coverage,
        }
    }
}

impl Clone for PolicyConfig {
    fn clone(&self) -> (r: Self)
        ensures
            r.deep_view() == self.deep_view(),
    {
        PolicyConfig {
            fail_on_severity: self.fail_on_severity,
            fail_on_languages: clone_texts(&self.fail_on_languages),
            fail_on_artifact_kinds: clone_texts(&self.fail_on_artifact_kinds),
            fail_on_target_risks: clone_risk_levels(&self.fail_on_target_risks),
            min_mutation_score: self.min_mutation_score,
            min_mutation_efficacy: self.min_mutation_efficacy,
            min_mutant_coverage: self.min_mutant_coverage,
        }
    }
}

/// How plans are made.
#[derive(Debug, PartialEq, Eq)]
pub struct PlannerConfig {
    pub mode: PlannerMode,
    pub command: Option<String>,
    pub fail_on_error: bool,
}

/// The mathematical value of a `PlannerConfig`.
pub struct PlannerConfigModel {
    pub mode: PlannerMode,
    pub command: Option<Seq<char>>,
    pub fail_on_error: bool,
}

impl DeepView for PlannerConfig {
    type V = PlannerConfigModel;

    open spec fn deep_view(&self) -> PlannerConfigModel {
        PlannerConfigModel {
            mode: self.mode,
            command: self.command.deep_view(),
            fail_on_error: self.fail_on_error,
        }
    }
}

impl Clone for PlannerConfig {
    fn clone(&self) -> (r: Self)
        ensures
            r.deep_view() == self.deep_view(),
    {
        PlannerConfig {
            mode: self.mode,
            command: clone_text(&self.command),
            fail_on_error: self.fail_on_error,
        }
    }
}

/// Settings of the Rust plugin.
#[derive(Debug, PartialEq, Eq)]
pub struct RustPluginConfig {
    pub property_framework: String,
    pub command_timeout_seconds: u64,
    pub coverage_enabled: bool,
    pub coverage_timeout_seconds: u64,
    pub cargo_jobs: usize,
    pub test_threads: usize,
    pub systemd_scope: bool,
    pub memory_max: Option<String>,
    pub cpu_quota: Option<String>,
    pub mutation: MutationConfig,
}

/// The mathematical value of a `RustPluginConfig`.
pub struct RustPluginConfigModel {
    pub property_framework: Seq<char>,
    pub command_timeout_seconds: u64,
    pub coverage_enabled: bool,
    pub coverage_timeout_seconds: u64,
    pub cargo_jobs: usize,
    pub test_threads: usize,
    pub systemd_scope: bool,
    pub memory_max: Option<Seq<char>>,
    pub cpu_quota: Option<Seq<char>>,
    pub mutation: MutationConfigModel,
}

impl DeepView for RustPluginConfig {
    type V = RustPluginConfigModel;

    open spec fn deep_view(&self) -> RustPluginConfigModel {
        RustPluginConfigModel {
            property_framework: self.property_framework@,
            command_timeout_seconds: self.command_timeout_seconds,
            coverage_enabled: self.coverage_enabled,
            coverage_timeout_seconds: self.coverage_timeout_seconds,
            cargo_jobs: self.cargo_jobs,
            test_threads: self.test_threads,
            systemd_scope: self.systemd_scope,
            memory_max: self.memory_max.deep_view(),
            cpu_quota: self.cpu_quota.deep_view(),
            mutation: self.mutation.deep_view(),
        }
    }
}

impl Clone for RustPluginConfig {
    fn clone(&self) -> (r: Self)
        ensures
            r.deep_view() == self.deep_view(),
    {
        RustPluginConfig {
            property_framework: self.property_framework.clone(),
            command_timeout_seconds: self.command_timeout_seconds,
            coverage_enabled: self.coverage_enabled,
            coverage_timeout_seconds: self.coverage_timeout_seconds,
            cargo_jobs: self.cargo_jobs,
            test_threads: self.test_threads,
            systemd_scope: self.systemd_scope,
            memory_max: clone_text(&self.memory_max),
            cpu_quota: clone_text(&self.cpu_quota),
            mutation: self.mutation.clone(),
        }
    }
}

/// Settings of the Go plugin.
#[derive(Debug, PartialEq, Eq)]
pub struct GoPluginConfig {
    pub fuzz_seconds: u64,
    pub fuzz_existing: bool,
    pub fuzz_concurrency: usize,
    pub coverage_enabled: bool,
    pub reverse_dependency_depth: usize,
    pub max_fuzz_targets: usize,
    pub command_timeout_seconds: u64,
    pub max_packages: usize,
    pub max_mutants: usize,
    pub build_tags: Vec<String>,
    pub mutation: MutationConfig,
}

/// The mathematical value of a `GoPluginConfig`.
pub struct GoPluginConfigModel {
    pub fuzz_seconds: u64,
    pub fuzz_existing: bool,
    pub fuzz_concurrency: usize,
    pub coverage_enabled: bool,
    pub reverse_dependency_depth: usize,
    pub max_fuzz_targets: usize,
    pub command_timeout_seconds: u64,
    pub max_packages: usize,
    pub max_mutants: usize,
    pub build_tags: Seq<Seq<char>>,
    pub mutation: MutationConfigModel,
}

impl DeepView for GoPluginConfig {
    type V = GoPluginConfigModel;

    open spec fn deep_view(&self) -> GoPluginConfigModel {
        GoPluginConfigModel {
            fuzz_seconds: self.fuzz_seconds,
            fuzz_existing: self.fuzz_existing,
            fuzz_concurrency: self.fuzz_concurrency,
            coverage_enabled: self.coverage_enabled,
            reverse_dependency_depth: self.reverse_dependency_depth,
            max_fuzz_targets: self.max_fuzz_targets,
            command_timeout_seconds: self.command_timeout_seconds,
            max_packages: self.max_packages,
            max_mutants: self.max_mutants,
            build_tags: self.build_tags.deep_view(),
            mutation: self.mutation.deep_view(),
        }
    }
}

impl Clone for GoPluginConfig {
    fn clone(&self) -> (r: Self)
        ensures
            r.deep_view() == self.deep_view(),
    {
        GoPluginConfig {
            fuzz_seconds: self.fuzz_seconds,
            fuzz_existing: self.fuzz_existing,
            fuzz_concurrency: self.fuzz_concurrency,
            coverage_enabled: self.coverage_enabled,
            reverse_dependency_depth: self.reverse_dependency_depth,
            max_fuzz_targets: self.max_fuzz_targets,
            command_timeout_seconds: self.command_timeout_seconds,
            max_packages: self.max_packages,
            max_mutants: self.max_mutants,
            build_tags: clone_texts(&self.build_tags),
            mutation: self.mutation.clone(),
        }
    }
}

/// Settings of the Python plugin.
#[derive(Debug, PartialEq, Eq)]
pub struct PythonPluginConfig {
    pub command_timeout_seconds: u64,
    pub coverage_enabled: bool,
    pub mutation: MutationConfig,
}

/// The mathematical value of a `PythonPluginConfig`.
pub struct PythonPluginConfigModel {
    pub command_timeout_seconds: u64,
    pub coverage_enabled: bool,
    pub mutation: MutationConfigModel,
}

impl DeepView for PythonPluginConfig {
    type V = PythonPluginConfigModel;

    open spec fn deep_view(&self) -> PythonPluginConfigModel {
        PythonPluginConfigModel {
            command_timeout_seconds: self.command_timeout_seconds,
            coverage_enabled: self.coverage_enabled,
            mutation: self.mutation.deep_view(),
        }
    }
}

impl Clone for PythonPluginConfig {
    fn clone(&self) -> (r: Self)
        ensures
            r.deep_view() == self.deep_view(),
    {
        PythonPluginConfig {
            command_timeout_seconds: self.command_timeout_seconds,
            coverage_enabled: self.coverage_enabled,
            mutation: self.mutation.clone(),
        }
    }
}

/// Settings of the TypeScript plugin.
#[derive(Debug, PartialEq, Eq)]
pub struct TypeScriptPluginConfig {
    pub command_timeout_seconds: u64,
    pub mutation: MutationConfig,
}

/// The mathematical value of a `TypeScriptPluginConfig`.
pub struct TypeScriptPluginConfigModel {
    pub command_timeout_seconds: u64,
    pub mutation: MutationConfigModel,
}

impl DeepView for TypeScriptPluginConfig {
    type V = TypeScriptPluginConfigModel;

    open spec fn deep_view(&self) -> TypeScriptPluginConfigModel {
        TypeScriptPluginConfigModel {
            command_timeout_seconds: self.command_timeout_seconds,
            mutation: self.mutation.deep_view(),
        }
    }
}

impl Clone for TypeScriptPluginConfig {
    fn clone(&self) -> (r: Self)
        ensures
            r.deep_view() == self.deep_view(),
    {
        TypeScriptPluginConfig {
            command_timeout_seconds: self.command_timeout_seconds,
            mutation: self.mutation.clone(),
        }
    }
}

/// Settings of every plugin.
#[derive(Debug, PartialEq, Eq)]
pub struct PluginConfigs {
    pub rust: RustPluginConfig,
    pub go: GoPluginConfig,
    pub python: PythonPluginConfig,
    pub typescript: TypeScriptPluginConfig,
}

/// The mathematical value of a `PluginConfigs`.
pub struct PluginConfigsModel {
    pub rust: RustPluginConfigModel,
    pub go: GoPluginConfigModel,
    pub python: PythonPluginConfigModel,
    pub typescript: TypeScriptPluginConfigModel,
}

impl DeepView for PluginConfigs {
    type V = PluginConfigsModel;

    open spec fn deep_view(&self) -> PluginConfigsModel {
        PluginConfigsModel {
            rust: self.rust.deep_view(),
            go: self.go.deep_view(),
            python: self.python.deep_view(),
            typescript: self.typescript.deep_view(),
        }
    }
}

impl Clone for PluginConfigs {
    fn clone(&self) -> (r: Self)
        ensures
            r.deep_view() == self.deep_view(),
    {
        PluginConfigs {
            rust: self.rust.clone(),
            go: self.go.clone(),
            python: self.python.clone(),
            typescript: self.typescript.clone(),
        }
    }
}

/// All settings.
#[derive(Debug, PartialEq, Eq)]
pub struct VeritasConfig {
    pub budget_seconds: u64,
    pub write_generated_tests: bool,
    pub fail_on_generated_test_failure: bool,
    pub fail_on_findings: bool,
    pub planner: PlannerConfig,
    pub policy: PolicyConfig,
    pub plugins: PluginConfigs,
}

/// The mathematical value of a `VeritasConfig`.
pub struct VeritasConfigModel {
    pub budget_seconds: u64,
    pub write_generated_tests: bool,
    pub fail_on_generated_test_failure: bool,
    pub fail_on_findings: bool,
    pub planner: PlannerConfigModel,
    pub policy: PolicyConfigModel,
    pub plugins: PluginConfigsModel,
}

impl DeepView for VeritasConfig {
    type V = VeritasConfigModel;

    open spec fn deep_view(&self) -> VeritasConfigModel {
        VeritasConfigModel {
            budget_seconds: self.budget_seconds,
            write_generated_tests: self.write_generated_tests,
            fail_on_generated_test_failure: self.fail_on_generated_test_failure,
            fail_on_findings: self.fail_on_findings,
            planner: self.planner.deep_view(),
            policy: self.policy.deep_view(),
            plugins: self.plugins.deep_view(),
        }
    }
}

impl Clone for VeritasConfig {
    fn clone(&self) -> (r: Self)
        ensures
            r.deep_view() == self.deep_view(),
    {
        VeritasConfig {
            budget_seconds: self.budget_seconds,
            write_generated_tests: self.write_generated_tests,
            fail_on_generated_test_failure: self.fail_on_generated_test_failure,
            fail_on_findings: self.fail_on_findings,
            planner: self.planner.clone(),
            policy: self.policy.clone(),
            plugins: self.plugins.clone(),
        }
    }
}

// ---------------------------------------------------------------------------
// What a configuration file may say
// ---------------------------------------------------------------------------
/// An optional list of levels by its contents.
pub open spec fn levels_view(levels: Option<Vec<RiskLevel>>) -> Option<Seq<RiskLevel>> {
    match levels {
        Some(list) => Some(list@),
        None => None,
    }
}

fn clone_levels(levels: &Option<Vec<RiskLevel>>) -> (r: Option<Vec<RiskLevel>>)
    ensures
        levels_view(r) == levels_view(*levels),
{
    match levels {
        Some(list) => Some(clone_risk_levels(list)),
        None => None,
    }
}

fn clone_list(list: &Option<Vec<String>>) -> (r: Option<Vec<String>>)
    ensures
        r.deep_view() == list.deep_view(),
{
    match list {
        Some(items) => Some(clone_texts(items)),
        None => None,
    }
}

/// A `mutation` section.
#[derive(Debug, PartialEq, Eq)]
pub struct MutationConfigPartial {
    pub enabled_domains: Option<Vec<String>>,
    pub disabled_domains: Option<Vec<String>>,
    pub enabled_operators: Option<Vec<String>>,
    pub disabled_operators: Option<Vec<String>>,
    pub include_paths: Option<Vec<String>>,
    pub exclude_paths: Option<Vec<String>>,
    pub include_symbols: Option<Vec<String>>,
    pub exclude_symbols: Option<Vec<String>>,
    pub include_mutant_ids: Option<Vec<String>>,
    pub exclude_mutant_ids: Option<Vec<String>>,
    pub dry_run: Option<bool>,
    pub max_mutants: Option<usize>,
    pub workers: Option<usize>,
    pub test_cpu: Option<usize>,
    pub timeout_coefficient: Option<u64>,
    pub timeout_min_seconds: Option<u64>,
    pub timeout_max_seconds: Option<u64>,
    pub shard_index: Option<usize>,
    pub shard_count: Option<usize>,
    pub output_statuses: Option<Vec<String>>,
}

/// The mathematical value of a `MutationConfigPartial`.
pub struct MutationConfigPartialModel {
    pub enabled_domains: Option<Seq<Seq<char>>>,
    pub disabled_domains: Option<Seq<Seq<char>>>,
    pub enabled_operators: Option<Seq<Seq<char>>>,
    pub disabled_operators: Option<Seq<Seq<char>>>,
    pub include_paths: Option<Seq<Seq<char>>>,
    pub exclude_paths: Option<Seq<Seq<char>>>,
    pub include_symbols: Option<Seq<Seq<char>>>,
    pub exclude_symbols: Option<Seq<Seq<char>>>,
    pub include_mutant_ids: Option<Seq<Seq<char>>>,
    pub exclude_mutant_ids: Option<Seq<Seq<char>>>,
    pub dry_run: Option<bool>,
    pub max_mutants: Option<usize>,
    pub workers: Option<usize>,
    pub test_cpu: Option<usize>,
    pub timeout_coefficient: Option<u64>,
    pub timeout_min_seconds: Option<u64>,
    pub timeout_max_seconds: Option<u64>,
    pub shard_index: Option<usize>,
    pub shard_count: Option<usize>,
    pub output_statuses: Option<Seq<Seq<char>>>,
}

impl DeepView for MutationConfigPartial {
    type V = MutationConfigPartialModel;

    open spec fn deep_view(&self) -> MutationConfigPartialModel {
        MutationConfigPartialModel {
            enabled_domains: self.enabled_domains.deep_view(),
            disabled_domains: self.disabled_domains.deep_view(),
            enabled_operators: self.enabled_operators.deep_view(),
            disabled_operators: self.disabled_operators.deep_view(),
            include_paths: self.include_paths.deep_view(),
            exclude_paths: self.exclude_paths.deep_view(),
            include_symbols: self.include_symbols.deep_view(),
            exclude_symbols: self.exclude_symbols.deep_view(),
            include_mutant_ids: self.include_mutant_ids.deep_view(),
            exclude_mutant_ids: self.exclude_mutant_ids.deep_view(),
            dry_run: self.dry_run,
            max_mutants: self.max_mutants,
            workers: self.workers,
            test_cpu: self.test_cpu,
            timeout_coefficient: self.timeout_coefficient,
            timeout_min_seconds: self.timeout_min_seconds,
            timeout_max_seconds: self.timeout_max_seconds,
            shard_index: self.shard_index,
            shard_count: self.shard_count,
            output_statuses: self.output_statuses.deep_view(),
        }
    }
}

impl Clone for MutationConfigPartial {
    fn clone(&self) -> (r: Self)
        ensures
            r.deep_view() == self.deep_view(),
    {
        MutationConfigPartial {
            enabled_domains: clone_list(&self.enabled_domains),
            disabled_domains: clone_list(&self.disabled_domains),
            enabled_operators: clone_list(&self.enabled_operators),
            disabled_operators: clone_list(&self.disabled_operators),
            include_paths: clone_list(&self.include_paths),
            exclude_paths: clone_list(&self.exclude_paths),
            include_symbols: clone_list(&self.include_symbols),
            exclude_symbols: clone_list(&self.exclude_symbols),
            include_mutant_ids: clone_list(&self.include_mutant_ids),
            exclude_mutant_ids: clone_list(&self.exclude_mutant_ids),
            dry_run: self.dry_run,
            max_mutants: self.max_mutants,
            workers: self.workers,
            test_cpu: self.test_cpu,
            timeout_coefficient: self.timeout_coefficient,
            timeout_min_seconds: self.timeout_min_seconds,
            timeout_max_seconds: self.timeout_max_seconds,
            shard_index: self.shard_index,
            shard_count: self.shard_count,
            output_statuses: clone_list(&self.output_statuses),
        }
    }
}

/// A copy of mutation config partial.
pub fn clone_mutation_config_partial(
    item: &Option<MutationConfigPartial>,
) -> (r: Option<MutationConfigPartial>)
    ensures
        r.deep_view() == item.deep_view(),
{
    match item {
        Some(value) => Some(value.clone()),
        None => None,
    }
}

/// The `veritas` section.
#[derive(Debug, PartialEq, Eq)]
pub struct VeritasSection {
    pub budget_seconds: Option<u64>,
    pub write_generated_tests: Option<bool>,
    pub fail_on_generated_test_failure: Option<bool>,
    pub fail_on_findings: Option<bool>,
}

/// The mathematical value of a `VeritasSection`.
pub struct VeritasSectionModel {
    pub budget_seconds: Option<u64>,
    pub write_generated_tests: Option<bool>,
    pub fail_on_generated_test_failure: Option<bool>,
    pub fail_on_findings: Option<bool>,
}

impl DeepView for VeritasSection {
    type V = VeritasSectionModel;

    open spec fn deep_view(&self) -> VeritasSectionModel {
        VeritasSectionModel {
            budget_seconds: self.budget_seconds,
            write_generated_tests: self.write_generated_tests,
            fail_on_generated_test_failure: self.fail_on_generated_test_failure,
            fail_on_findings: self.fail_on_findings,
        }
    }
}

impl Clone for VeritasSection {
    fn clone(&self) -> (r: Self)
        ensures
            r.deep_view() == self.deep_view(),
    {
        VeritasSection {
            budget_seconds: self.budget_seconds,
            write_generated_tests: self.write_generated_tests,
            fail_on_generated_test_failure: self.fail_on_generated_test_failure,
            fail_on_findings: self.fail_on_findings,
        }
    }
}

/// A copy of veritas section.
pub fn clone_veritas_section(item: &Option<VeritasSection>) -> (r: Option<VeritasSection>)
    ensures
        r.deep_view() == item.deep_view(),
{
    match item {
        Some(value) => Some(value.clone()),
        None => None,
    }
}

/// The `planner` section.
#[derive(Debug, PartialEq, Eq)]
pub struct PlannerSection {
    pub mode: Option<PlannerMode>,
    pub command: Option<String>,
    pub fail_on_error: Option<bool>,
}

/// The mathematical value of a `PlannerSection`.
pub struct PlannerSectionModel {
    pub mode: Option<PlannerMode>,
    pub command: Option<Seq<char>>,
    pub fail_on_error: Option<bool>,
}

impl DeepView for PlannerSection {
    type V = PlannerSectionModel;

    open spec fn deep_view(&self) -> PlannerSectionModel {
        PlannerSectionModel {
            mode: self.mode,
            command: self.command.deep_view(),
            fail_on_error: self.fail_on_error,
        }
    }
}

impl Clone for PlannerSection {
    fn clone(&self) -> (r: Self)
        ensures
            r.deep_view() == self.deep_view(),
    {
        PlannerSection {
            mode: self.mode,
            command: clone_text(&self.command),
            fail_on_error: self.fail_on_error,
        }
    }
}

/// A copy of planner section.
pub fn clone_planner_section(item: &Option<PlannerSection>) -> (r: Option<PlannerSection>)
    ensures
        r.deep_view() == item.deep_view(),
{
    match item {
        Some(value) => Some(value.clone()),
        None => None,
    }
}

/// The `policy` section.
#[derive(Debug, PartialEq, Eq)]
pub struct PolicySection {
    pub fail_on_severity: Option<FailureSeverity>,
    pub fail_on_languages: Option<Vec<String>>,
    pub fail_on_artifact_kinds: Option<Vec<String>>,
    pub fail_on_target_risks: Option<Vec<RiskLevel>>,
    pub min_mutation_score: Option<u8>,
    pub min_mutation_efficacy: Option<u8>,
    pub min_mutant_coverage: Option<u8>,
}

/// The mathematical value of a `PolicySection`.
pub struct PolicySectionModel {
    pub fail_on_severity: Option<FailureSeverity>,
    pub fail_on_languages: Option<Seq<Seq<char>>>,
    pub fail_on_artifact_kinds: Option<Seq<Seq<char>>>,
    pub fail_on_target_risks: Option<Seq<RiskLevel>>,
    pub min_mutation_score: Option<u8>,
    pub min_mutation_efficacy: Option<u8>,
    pub min_mutant_coverage: Option<u8>,
}

impl DeepView for PolicySection {
    type V = PolicySectionModel;

    open spec fn deep_view(&self) -> PolicySectionModel {
        PolicySectionModel {
            fail_on_severity: self.fail_on_severity,
            fail_on_languages: self.fail_on_languages.deep_view(),
            fail_on_artifact_kinds: self.fail_on_artifact_kinds.deep_view(),
            fail_on_target_risks: levels_view(self.fail_on_target_risks),
            min_mutation_score: self.min_mutation_score,
            min_mutation_efficacy: self.min_mutation_efficacy,
            min_mutant_coverage: self.min_mutant_coverage,
        }
    }
}

impl Clone for PolicySection {
    fn clone(&self) -> (r: Self)
        ensures
            r.deep_view() == self.deep_view(),
    {
        PolicySection {
            fail_on_severity: self.fail_on_severity,
            fail_on_languages: clone_list(&self.fail_on_languages),
            fail_on_artifact_kinds: clone_list(&self.fail_on_artifact_kinds),
            fail_on_target_risks: clone_levels(&self.fail_on_target_risks),
            min_mutation_score: self.min_mutation_score,
            min_mutation_efficacy: self.min_mutation_efficacy,
            min_mutant_coverage: self.min_mutant_coverage,
        }
    }
}

/// A copy of policy section.
pub fn clone_policy_section(item: &Option<PolicySection>) -> (r: Option<PolicySection>)
    ensures
        r.deep_view() == item.deep_view(),
{
    match item {
        Some(value) => Some(value.clone()),
        None => None,
    }
}

/// The `plugins.rust` section.
#[derive(Debug, PartialEq, Eq)]
pub struct RustPluginConfigPartial {
    pub property_framework: Option<String>,
    pub command_timeout_seconds: Option<u64>,
    pub coverage_enabled: Option<bool>,
    pub coverage_timeout_seconds: Option<u64>,
    pub cargo_jobs: Option<usize>,
    pub test_threads: Option<usize>,
    pub systemd_scope: Option<bool>,
    pub memory_max: Option<String>,
    pub cpu_quota: Option<String>,
    pub mutation: Option<MutationConfigPartial>,
}

/// The mathematical value of a `RustPluginConfigPartial`.
pub struct RustPluginConfigPartialModel {
    pub property_framework: Option<Seq<char>>,
    pub command_timeout_seconds: Option<u64>,
    pub coverage_enabled: Option<bool>,
    pub coverage_timeout_seconds: Option<u64>,
    pub cargo_jobs: Option<usize>,
    pub test_threads: Option<usize>,
    pub systemd_scope: Option<bool>,
    pub memory_max: Option<Seq<char>>,
    pub cpu_quota: Option<Seq<char>>,
    pub mutation: Option<MutationConfigPartialModel>,
}

impl DeepView for RustPluginConfigPartial {
    type V = RustPluginConfigPartialModel;

    open spec fn deep_view(&self) -> RustPluginConfigPartialModel {
        RustPluginConfigPartialModel {
            property_framework: self.property_framework.deep_view(),
            command_timeout_seconds: self.command_timeout_seconds,
            coverage_enabled: self.coverage_enabled,
            coverage_timeout_seconds: self.coverage_timeout_seconds,
            cargo_jobs: self.cargo_jobs,
            test_threads: self.test_threads,
            systemd_scope: self.systemd_scope,
            memory_max: self.memory_max.deep_view(),
            cpu_quota: self.cpu_quota.deep_view(),
            mutation: self.mutation.deep_view(),
        }
    }
}

impl Clone for RustPluginConfigPartial {
    fn clone(&self) -> (r: Self)
        ensures
            r.deep_view() == self.deep_view(),
    {
        RustPluginConfigPartial {
            property_framework: clone_text(&self.property_framework),
            command_timeout_seconds: self.command_timeout_seconds,
            coverage_enabled: self.coverage_enabled,
            coverage_timeout_seconds: self.coverage_timeout_seconds,
            cargo_jobs: self.cargo_jobs,
            test_threads: self.test_threads,
            systemd_scope: self.systemd_scope,
            memory_max: clone_text(&self.memory_max),
            cpu_quota: clone_text(&self.cpu_quota),
            mutation: clone_mutation_config_partial(&self.mutation),
        }
    }
}

/// A copy of rust plugin config partial.
pub fn clone_rust_plugin_config_partial(
    item: &Option<RustPluginConfigPartial>,
) -> (r: Option<RustPluginConfigPartial>)
    ensures
        r.deep_view() == item.deep_view(),
{
    match item {
        Some(value) => Some(value.clone()),
        None => None,
    }
}

/// The `plugins.go` section.
#[derive(Debug, PartialEq, Eq)]
pub struct GoPluginConfigPartial {
    pub fuzz_seconds: Option<u64>,
    pub fuzz_existing: Option<bool>,
    pub fuzz_concurrency: Option<usize>,
    pub coverage_enabled: Option<bool>,
    pub reverse_dependency_depth: Option<usize>,
    pub max_fuzz_targets: Option<usize>,
    pub command_timeout_seconds: Option<u64>,
    pub max_packages: Option<usize>,
    pub max_mutants: Option<usize>,
    pub build_tags: Option<Vec<String>>,
    pub mutation: Option<MutationConfigPartial>,
}

/// The mathematical value of a `GoPluginConfigPartial`.
pub struct GoPluginConfigPartialModel {
    pub fuzz_seconds: Option<u64>,
    pub fuzz_existing: Option<bool>,
    pub fuzz_concurrency: Option<usize>,
    pub coverage_enabled: Option<bool>,
    pub reverse_dependency_depth: Option<usize>,
    pub max_fuzz_targets: Option<usize>,
    pub command_timeout_seconds: Option<u64>,
    pub max_packages: Option<usize>,
    pub max_mutants: Option<usize>,
    pub build_tags: Option<Seq<Seq<char>>>,
    pub mutation: Option<MutationConfigPartialModel>,
}

impl DeepView for GoPluginConfigPartial {
    type V = GoPluginConfigPartialModel;

    open spec fn deep_view(&self) -> GoPluginConfigPartialModel {
        GoPluginConfigPartialModel {
            fuzz_seconds: self.fuzz_seconds,
            fuzz_existing: self.fuzz_existing,
            fuzz_concurrency: self.fuzz_concurrency,
            coverage_enabled: self.coverage_enabled,
            reverse_dependency_depth: self.reverse_dependency_depth,
            max_fuzz_targets: self.max_fuzz_targets,
            command_timeout_seconds: self.command_timeout_seconds,
            max_packages: self.max_packages,
            max_mutants: self.max_mutants,
            build_tags: self.build_tags.deep_view(),
            mutation: self.mutation.deep_view(),
        }
    }
}

impl Clone for GoPluginConfigPartial {
    fn clone(&self) -> (r: Self)
        ensures
            r.deep_view() == self.deep_view(),
    {
        GoPluginConfigPartial {
            fuzz_seconds: self.fuzz_seconds,
            fuzz_existing: self.fuzz_existing,
            fuzz_concurrency: self.fuzz_concurrency,
            coverage_enabled: self.coverage_enabled,
            reverse_dependency_depth: self.reverse_dependency_depth,
            max_fuzz_targets: self.max_fuzz_targets,
            command_timeout_seconds: self.command_timeout_seconds,
            max_packages: self.max_packages,
            max_mutants: self.max_mutants,
            build_tags: clone_list(&self.build_tags),
            mutation: clone_mutation_config_partial(&self.mutation),
        }
    }
}

/// A copy of go plugin config partial.
pub fn clone_go_plugin_config_partial(
    item: &Option<GoPluginConfigPartial>,
) -> (r: Option<GoPluginConfigPartial>)
    ensures
        r.deep_view() == item.deep_view(),
{
    match item {
        Some(value) => Some(value.clone()),
        None => None,
    }
}

/// The `plugins.python` section.
#[derive(Debug, PartialEq, Eq)]
pub struct PythonPluginConfigPartial {
    pub command_timeout_seconds: Option<u64>,
    pub coverage_enabled: Option<bool>,
    pub mutation: Option<MutationConfigPartial>,
}

/// The mathematical value of a `PythonPluginConfigPartial`.
pub struct PythonPluginConfigPartialModel {
    pub command_timeout_seconds: Option<u64>,
    pub coverage_enabled: Option<bool>,
    pub mutation: Option<MutationConfigPartialModel>,
}

impl DeepView for PythonPluginConfigPartial {
    type V = PythonPluginConfigPartialModel;

    open spec fn deep_view(&self) -> PythonPluginConfigPartialModel {
        PythonPluginConfigPartialModel {
            command_timeout_seconds: self.command_timeout_seconds,
            coverage_enabled: self.coverage_enabled,
            mutation: self.mutation.deep_view(),
        }
    }
}

impl Clone for PythonPluginConfigPartial {
    fn clone(&self) -> (r: Self)
        ensures
            r.deep_view() == self.deep_view(),
    {
        PythonPluginConfigPartial {
            command_timeout_seconds: self.command_timeout_seconds,
            coverage_enabled: self.coverage_enabled,
            mutation: clone_mutation_config_partial(&self.mutation),
        }
    }
}

/// A copy of python plugin config partial.
pub fn clone_python_plugin_config_partial(
    item: &Option<PythonPluginConfigPartial>,
) -> (r: Option<PythonPluginConfigPartial>)
    ensures
        r.deep_view() == item.deep_view(),
{
    match item {
        Some(value) => Some(value.clone()),
        None => None,
    }
}

/// The `plugins.typescript` section.
#[derive(Debug, PartialEq, Eq)]
pub struct TypeScriptPluginConfigPartial {
    pub command_timeout_seconds: Option<u64>,
    pub mutation: Option<MutationConfigPartial>,
}

/// The mathematical value of a `TypeScriptPluginConfigPartial`.
pub struct TypeScriptPluginConfigPartialModel {
    pub command_timeout_seconds: Option<u64>,
    pub mutation: Option<MutationConfigPartialModel>,
}

impl DeepView for TypeScriptPluginConfigPartial {
    type V = TypeScriptPluginConfigPartialModel;

    open spec fn deep_view(&self) -> TypeScriptPluginConfigPartialModel {
        TypeScriptPluginConfigPartialModel {
            command_timeout_seconds: self.command_timeout_seconds,
            mutation: self.mutation.deep_view(),
        }
    }
}

impl Clone for TypeScriptPluginConfigPartial {
    fn clone(&self) -> (r: Self)
        ensures
            r.deep_view() == self.deep_view(),
    {
        TypeScriptPluginConfigPartial {
            command_timeout_seconds: self.command_timeout_seconds,
            mutation: clone_mutation_config_partial(&self.mutation),
        }
    }
}

/// A copy of type script plugin config partial.
pub fn clone_type_script_plugin_config_partial(
    item: &Option<TypeScriptPluginConfigPartial>,
) -> (r: Option<TypeScriptPluginConfigPartial>)
    ensures
        r.deep_view() == item.deep_view(),
{
    match item {
        Some(value) => Some(value.clone()),
        None => None,
    }
}

/// The `plugins` section.
#[derive(Debug, PartialEq, Eq)]
pub struct PluginSection {
    pub rust: Option<RustPluginConfigPartial>,
    pub go: Option<GoPluginConfigPartial>,
    pub python: Option<PythonPluginConfigPartial>,
    pub typescript: Option<TypeScriptPluginConfigPartial>,
}

/// The mathematical value of a `PluginSection`.
pub struct PluginSectionModel {
    pub rust: Option<RustPluginConfigPartialModel>,
    pub go: Option<GoPluginConfigPartialModel>,
    pub python: Option<PythonPluginConfigPartialModel>,
    pub typescript: Option<TypeScriptPluginConfigPartialModel>,
}

impl DeepView for PluginSection {
    type V = PluginSectionModel;

    open spec fn deep_view(&self) -> PluginSectionModel {
        PluginSectionModel {
            rust: self.rust.deep_view(),
            go: self.go.deep_view(),
            python: self.python.deep_view(),
            typescript: self.typescript.deep_view(),
        }
    }
}

impl Clone for PluginSection {
    fn clone(&self) -> (r: Self)
        ensures
            r.deep_view() == self.deep_view(),
    {
        PluginSection {
            rust: clone_rust_plugin_config_partial(&self.rust),
            go: clone_go_plugin_config_partial(&self.go),
            python: clone_python_plugin_config_partial(&self.python),
            typescript: clone_type_script_plugin_config_partial(&self.typescript),
        }
    }
}

/// A copy of plugin section.
pub fn clone_plugin_section(item: &Option<PluginSection>) -> (r: Option<PluginSection>)
    ensures
        r.deep_view() == item.deep_view(),
{
    match item {
        Some(value) => Some(value.clone()),
        None => None,
    }
}

/// The sections of a configuration file.
#[derive(Debug, PartialEq, Eq)]
pub struct ConfigFile {
    pub veritas: Option<VeritasSection>,
    pub planner: Option<PlannerSection>,
    pub policy: Option<PolicySection>,
    pub mutation: Option<MutationConfigPartial>,
    pub plugins: Option<PluginSection>,
}

/// The mathematical value of a `ConfigFile`.
pub struct ConfigFileModel {
    pub veritas: Option<VeritasSectionModel>,
    pub planner: Option<PlannerSectionModel>,
    pub policy: Option<PolicySectionModel>,
    pub mutation: Option<MutationConfigPartialModel>,
    pub plugins: Option<PluginSectionModel>,
}

impl DeepView for ConfigFile {
    type V = ConfigFileModel;

    open spec fn deep_view(&self) -> ConfigFileModel {
        ConfigFileModel {
            veritas: self.veritas.deep_view(),
            planner: self.planner.deep_view(),
            policy: self.policy.deep_view(),
            mutation: self.mutation.deep_view(),
            plugins: self.plugins.deep_view(),
        }
    }
}

impl Clone for ConfigFile {
    fn clone(&self) -> (r: Self)
        ensures
            r.deep_view() == self.deep_view(),
    {
        ConfigFile {
            veritas: clone_veritas_section(&self.veritas),
            planner: clone_planner_section(&self.planner),
            policy: clone_policy_section(&self.policy),
            mutation: clone_mutation_config_partial(&self.mutation),
            plugins: clone_plugin_section(&self.plugins),
        }
    }
}

// ---------------------------------------------------------------------------
// Defaults
// ---------------------------------------------------------------------------
/// The default selection of mutants: no filter, no limit.
pub open spec fn default_mutation() -> MutationConfigModel {
    MutationConfigModel {
        enabled_domains: Seq::empty(),
        disabled_domains: Seq::empty(),
        enabled_operators: Seq::empty(),
        disabled_operators: Seq::empty(),
        include_paths: Seq::empty(),
        exclude_paths: Seq::empty(),
        include_symbols: Seq::empty(),
        exclude_symbols: Seq::empty(),
        include_mutant_ids: Seq::empty(),
        exclude_mutant_ids: Seq::empty(),
        dry_run: false,
        max_mutants: None,
        workers: 0,
        test_cpu: None,
        timeout_coefficient: 0,
        timeout_min_seconds: None,
        timeout_max_seconds: None,
        shard_index: None,
        shard_count: None,
        output_statuses: Seq::empty(),
    }
}

impl Default for MutationConfig {
    fn default() -> (r: Self)
        ensures
            r.deep_view() == default_mutation(),
    {
        let r = MutationConfig {
            enabled_domains: Vec::new(),
            disabled_domains: Vec::new(),
            enabled_operators: Vec::new(),
            disabled_operators: Vec::new(),
            include_paths: Vec::new(),
            exclude_paths: Vec::new(),
            include_symbols: Vec::new(),
            exclude_symbols: Vec::new(),
            include_mutant_ids: Vec::new(),
            exclude_mutant_ids: Vec::new(),
            dry_run: false,
            max_mutants: None,
            workers: 0,
            test_cpu: None,
            timeout_coefficient: 0,
            timeout_min_seconds: None,
            timeout_max_seconds: None,
            shard_index: None,
            shard_count: None,
            output_statuses: Vec::new(),
        };
        assert(r.deep_view() == default_mutation()) by {
            assert(r.enabled_domains.deep_view() =~= Seq::empty());
            assert(r.disabled_domains.deep_view() =~= Seq::empty());
            assert(r.enabled_operators.deep_view() =~= Seq::empty());
            assert(r.disabled_operators.deep_view() =~= Seq::empty());
            assert(r.include_paths.deep_view() =~= Seq::empty());
            assert(r.exclude_paths.deep_view() =~= Seq::empty());
            assert(r.include_symbols.deep_view() =~= Seq::empty());
            assert(r.exclude_symbols.deep_view() =~= Seq::empty());
            assert(r.include_mutant_ids.deep_view() =~= Seq::empty());
            assert(r.exclude_mutant_ids.deep_view() =~= Seq::empty());
            assert(r.output_statuses.deep_view() =~= Seq::empty());
        }
        r
    }
}

/// The settings without a configuration file.
pub open spec fn default_config() -> VeritasConfigModel {
    VeritasConfigModel {
        budget_seconds: 120,
        write_generated_tests: true,
        fail_on_generated_test_failure: true,
        fail_on_findings: false,
        planner: PlannerConfigModel {
            mode: PlannerMode::Deterministic,
            command: None,
            fail_on_error: false,
        },
        policy: PolicyConfigModel {
            fail_on_severity: FailureSeverity::Error,
            fail_on_languages: Seq::empty(),
            fail_on_artifact_kinds: Seq::empty(),
            fail_on_target_risks: Seq::empty(),
            min_mutation_score: None,
            min_mutation_efficacy: None,
            min_mutant_coverage: None,
        },
        plugins: PluginConfigsModel {
            rust: RustPluginConfigModel {
                property_framework: "proptest"@,
                command_timeout_seconds: 120,
                coverage_enabled: false,
                coverage_timeout_seconds: 120,
                cargo_jobs: 1,
                test_threads: 1,
                systemd_scope: false,
                memory_max: None,
                cpu_quota: None,
                mutation: default_mutation(),
            },
            go: GoPluginConfigModel {
                fuzz_seconds: 10,
                fuzz_existing: true,
                fuzz_concurrency: 2,
                coverage_enabled: true,
                reverse_dependency_depth: 1,
                max_fuzz_targets: 20,
                command_timeout_seconds: 120,
                max_packages: 64,
                max_mutants: 8,
                build_tags: Seq::empty(),
                mutation: default_mutation(),
            },
            python: PythonPluginConfigModel {
                command_timeout_seconds: 120,
                coverage_enabled: false,
                mutation: default_mutation(),
            },
            typescript: TypeScriptPluginConfigModel {
                command_timeout_seconds: 120,
                mutation: default_mutation(),
            },
        },
    }
}

impl Default for VeritasConfig {
    fn default() -> (r: Self)
        ensures
            r.deep_view() == default_config(),
    {
        let r = VeritasConfig {
            budget_seconds: 120,
            write_generated_tests: true,
            fail_on_generated_test_failure: true,
            fail_on_findings: false,
            planner: PlannerConfig {
                mode: PlannerMode::Deterministic,
                command: None,
                fail_on_error: false,
            },
            policy: PolicyConfig {
                fail_on_severity: FailureSeverity::Error,
                fail_on_languages: Vec::new(),
                fail_on_artifact_kinds: Vec::new(),
                fail_on_target_risks: Vec::new(),
                min_mutation_score: None,
                min_mutation_efficacy: None,
                min_mutant_coverage: None,
            },
            plugins: PluginConfigs {
                rust: RustPluginConfig {
                    property_framework: owned("proptest"),
                    command_timeout_seconds: 120,
                    coverage_enabled: false,
                    coverage_timeout_seconds: 120,
                    cargo_jobs: 1,
                    test_threads: 1,
                    systemd_scope: false,
                    memory_max: None,
                    cpu_quota: None,
                    mutation: MutationConfig::default(),
                },
                go: GoPluginConfig {
                    fuzz_seconds: 10,
                    fuzz_existing: true,
                    fuzz_concurrency: 2,
                    coverage_enabled: true,
                    reverse_dependency_depth: 1,
                    max_fuzz_targets: 20,
                    command_timeout_seconds: 120,
                    max_packages: 64,
                    max_mutants: 8,
                    build_tags: Vec::new(),
                    mutation: MutationConfig::default(),
                },
                python: PythonPluginConfig {
                    command_timeout_seconds: 120,
                    coverage_enabled: false,
                    mutation: MutationConfig::default(),
                },
                typescript: TypeScriptPluginConfig {
                    command_timeout_seconds: 120,
                    mutation: MutationConfig::default(),
                },
            },
        };
        assert(r.deep_view() == default_config()) by {
            assert(r.policy.fail_on_languages.deep_view() =~= Seq::empty());
            assert(r.policy.fail_on_artifact_kinds.deep_view() =~= Seq::empty());
            assert(r.policy.fail_on_target_risks@ =~= Seq::empty());
            assert(r.plugins.go.build_tags.deep_view() =~= Seq::empty());
        }
        r
    }
}

// ---------------------------------------------------------------------------
// Reading a file
// ---------------------------------------------------------------------------
/// The value that a section states, or the one that stands.
pub open spec fn stated<T>(value: Option<T>, standing: T) -> T {
    match value {
        Some(v) => v,
        None => standing,
    }
}

/// At least one.
pub open spec fn one_or_more(n: usize) -> usize {
    if n < 1 {
        1
    } else {
        n
    }
}

fn raise_to_one(n: usize) -> (r: usize)
    ensures
        r == one_or_more(n),
{
    if n < 1 {
        1
    } else {
        n
    }
}

/// A percentage: at most one hundred.
pub open spec fn percent(n: u8) -> u8 {
    if n > 100 {
        100
    } else {
        n
    }
}

fn cap_percent(n: u8) -> (r: u8)
    ensures
        r == percent(n),
{
    if n > 100 {
        100
    } else {
        n
    }
}

/// A limit that a section states is at least one.
pub open spec fn stated_limit(value: Option<usize>, standing: Option<usize>) -> Option<usize> {
    match value {
        Some(v) => Some(one_or_more(v)),
        None => standing,
    }
}

/// A percentage that a section states is at most one hundred.
pub open spec fn stated_percent(value: Option<u8>, standing: Option<u8>) -> Option<u8> {
    match value {
        Some(v) => Some(percent(v)),
        None => standing,
    }
}

/// An optional setting that a section states.
pub open spec fn stated_option<T>(value: Option<T>, standing: Option<T>) -> Option<T> {
    match value {
        Some(v) => Some(v),
        None => standing,
    }
}

/// The value that is stated, or the one that stands.
fn chosen<T: Copy>(value: Option<T>, standing: T) -> (r: T)
    ensures
        r == stated(value, standing),
{
    match value {
        Some(v) => v,
        None => standing,
    }
}

fn chosen_option<T: Copy>(value: Option<T>, standing: Option<T>) -> (r: Option<T>)
    ensures
        r == stated_option(value, standing),
{
    match value {
        Some(v) => Some(v),
        None => standing,
    }
}

fn chosen_limit(value: Option<usize>, standing: Option<usize>) -> (r: Option<usize>)
    ensures
        r == stated_limit(value, standing),
{
    match value {
        Some(v) => Some(raise_to_one(v)),
        None => standing,
    }
}

fn chosen_percent(value: Option<u8>, standing: Option<u8>) -> (r: Option<u8>)
    ensures
        r == stated_percent(value, standing),
{
    match value {
        Some(v) => Some(cap_percent(v)),
        None => standing,
    }
}

/// A number of workers that a section states is at least one.
pub open spec fn stated_workers(value: Option<usize>, standing: usize) -> usize {
    match value {
        Some(v) => one_or_more(v),
        None => standing,
    }
}

fn chosen_workers(value: Option<usize>, standing: usize) -> (r: usize)
    ensures
        r == stated_workers(value, standing),
{
    match value {
        Some(v) => raise_to_one(v),
        None => standing,
    }
}

fn chosen_text(value: &Option<String>, standing: &String) -> (r: String)
    ensures
        r@ == stated(value.deep_view(), standing@),
{
    match value {
        Some(v) => v.clone(),
        None => standing.clone(),
    }
}

fn chosen_text_option(value: &Option<String>, standing: &Option<String>) -> (r: Option<String>)
    ensures
        r.deep_view() == stated_option(value.deep_view(), standing.deep_view()),
{
    match value {
        Some(v) => Some(v.clone()),
        None => clone_text(standing),
    }
}

fn chosen_texts(value: &Option<Vec<String>>, standing: &Vec<String>) -> (r: Vec<String>)
    ensures
        r.deep_view() == stated(value.deep_view(), standing.deep_view()),
{
    match value {
        Some(v) => clone_texts(v),
        None => clone_texts(standing),
    }
}

fn chosen_levels(value: &Option<Vec<RiskLevel>>, standing: &Vec<RiskLevel>) -> (r: Vec<RiskLevel>)
    ensures
        r@ == stated(levels_view(*value), standing@),
{
    match value {
        Some(v) => clone_risk_levels(v),
        None => clone_risk_levels(standing),
    }
}

/// The selection of mutants after a `mutation` section.
pub open spec fn with_mutation(
    config: MutationConfigModel,
    partial: MutationConfigPartialModel,
) -> MutationConfigModel {
    MutationConfigModel {
        enabled_domains: stated(partial.enabled_domains, config.enabled_domains),
        disabled_domains: stated(partial.disabled_domains, config.disabled_domains),
        enabled_operators: stated(partial.enabled_operators, config.enabled_operators),
        disabled_operators: stated(partial.disabled_operators, config.disabled_operators),
        include_paths: stated(partial.include_paths, config.include_paths),
        exclude_paths: stated(partial.exclude_paths, config.exclude_paths),
        include_symbols: stated(partial.include_symbols, config.include_symbols),
        exclude_symbols: stated(partial.exclude_symbols, config.exclude_symbols),
        include_mutant_ids: stated(partial.include_mutant_ids, config.include_mutant_ids),
        exclude_mutant_ids: stated(partial.exclude_mutant_ids, config.exclude_mutant_ids),
        dry_run: stated(partial.dry_run, config.dry_run),
        max_mutants: stated_limit(partial.max_mutants, config.max_mutants),
        workers: stated(partial.workers, config.workers),
        test_cpu: stated_limit(partial.test_cpu, config.test_cpu),
        timeout_coefficient: stated(partial.timeout_coefficient, config.timeout_coefficient),
        timeout_min_seconds: stated_option(partial.timeout_min_seconds, config.timeout_min_seconds),
        timeout_max_seconds: stated_option(partial.timeout_max_seconds, config.timeout_max_seconds),
        shard_index: stated_option(partial.shard_index, config.shard_index),
        shard_count: stated_limit(partial.shard_count, config.shard_count),
        output_statuses: stated(partial.output_statuses, config.output_statuses),
    }
}

/// Lets a `mutation` section change the selection of mutants.
pub fn apply_mutation_config(config: &mut MutationConfig, partial: &MutationConfigPartial)
    ensures
        final(config).deep_view() == with_mutation(old(config).deep_view(), partial.deep_view()),
{
    *config = MutationConfig {
        enabled_domains: chosen_texts(&partial.enabled_domains, &config.enabled_domains),
        disabled_domains: chosen_texts(&partial.disabled_domains, &config.disabled_domains),
        enabled_operators: chosen_texts(&partial.enabled_operators, &config.enabled_operators),
        disabled_operators: chosen_texts(&partial.disabled_operators, &config.disabled_operators),
        include_paths: chosen_texts(&partial.include_paths, &config.include_paths),
        exclude_paths: chosen_texts(&partial.exclude_paths, &config.exclude_paths),
        include_symbols: chosen_texts(&partial.include_symbols, &config.include_symbols),
        exclude_symbols: chosen_texts(&partial.exclude_symbols, &config.exclude_symbols),
        include_mutant_ids: chosen_texts(&partial.include_mutant_ids, &config.include_mutant_ids),
        exclude_mutant_ids: chosen_texts(&partial.exclude_mutant_ids, &config.exclude_mutant_ids),
        dry_run: chosen(partial.dry_run, config.dry_run),
        max_mutants: chosen_limit(partial.max_mutants, config.max_mutants),
        workers: chosen(partial.workers, config.workers),
        test_cpu: chosen_limit(partial.test_cpu, config.test_cpu),
        timeout_coefficient: chosen(partial.timeout_coefficient, config.timeout_coefficient),
        timeout_min_seconds: chosen_option(partial.timeout_min_seconds, config.timeout_min_seconds),
        timeout_max_seconds: chosen_option(partial.timeout_max_seconds, config.timeout_max_seconds),
        shard_index: chosen_option(partial.shard_index, config.shard_index),
        shard_count: chosen_limit(partial.shard_count, config.shard_count),
        output_statuses: chosen_texts(&partial.output_statuses, &config.output_statuses),
    };
}

/// The selection of mutants after an optional section.
pub open spec fn with_own_mutation(
    section: Option<MutationConfigPartialModel>,
    standing: MutationConfigModel,
) -> MutationConfigModel {
    match section {
        Some(partial) => with_mutation(standing, partial),
        None => standing,
    }
}

fn chosen_mutation(
    section: &Option<MutationConfigPartial>,
    standing: &MutationConfig,
) -> (r: MutationConfig)
    ensures
        r.deep_view() == with_own_mutation(section.deep_view(), standing.deep_view()),
{
    let mut config = standing.clone();
    if let Some(partial) = section {
        apply_mutation_config(&mut config, partial);
    }
    config
}

/// The planner after a `planner` section.
pub open spec fn with_planner(
    config: PlannerConfigModel,
    partial: PlannerSectionModel,
) -> PlannerConfigModel {
    PlannerConfigModel {
        mode: stated(partial.mode, config.mode),
        command: stated_option(partial.command, config.command),
        fail_on_error: stated(partial.fail_on_error, config.fail_on_error),
    }
}

fn apply_planner(config: PlannerConfig, section: &Option<PlannerSection>) -> (r: PlannerConfig)
    ensures
        section is None ==> r.deep_view() == config.deep_view(),
        section matches Some(partial) ==> r.deep_view() == with_planner(
            config.deep_view(),
            partial.deep_view(),
        ),
{
    let partial = match section {
        Some(partial) => partial,
        None => {
            return config;
        },
    };
    PlannerConfig {
        mode: chosen(partial.mode, config.mode),
        command: chosen_text_option(&partial.command, &config.command),
        fail_on_error: chosen(partial.fail_on_error, config.fail_on_error),
    }
}

/// The policy after a `policy` section.
pub open spec fn with_policy(
    config: PolicyConfigModel,
    partial: PolicySectionModel,
) -> PolicyConfigModel {
    PolicyConfigModel {
        fail_on_severity: stated(partial.fail_on_severity, config.fail_on_severity),
        fail_on_languages: stated(partial.fail_on_languages, config.fail_on_languages),
        fail_on_artifact_kinds: stated(partial.fail_on_artifact_kinds, config.fail_on_artifact_kinds),
        fail_on_target_risks: stated(partial.fail_on_target_risks, config.fail_on_target_risks),
        min_mutation_score: stated_percent(partial.min_mutation_score, config.min_mutation_score),
        min_mutation_efficacy: stated_percent(partial.min_mutation_efficacy, config.min_mutation_efficacy),
        min_mutant_coverage: stated_percent(partial.min_mutant_coverage, config.min_mutant_coverage),
    }
}

fn apply_policy(config: PolicyConfig, section: &Option<PolicySection>) -> (r: PolicyConfig)
    ensures
        section is None ==> r.deep_view() == config.deep_view(),
        section matches Some(partial) ==> r.deep_view() == with_policy(
            config.deep_view(),
            partial.deep_view(),
        ),
{
    let partial = match section {
        Some(partial) => partial,
        None => {
            return config;
        },
    };
    PolicyConfig {
        fail_on_severity: chosen(partial.fail_on_severity, config.fail_on_severity),
        fail_on_languages: chosen_texts(&partial.fail_on_languages, &config.fail_on_languages),
        fail_on_artifact_kinds: chosen_texts(&partial.fail_on_artifact_kinds, &config.fail_on_artifact_kinds),
        fail_on_target_risks: chosen_levels(&partial.fail_on_target_risks, &config.fail_on_target_risks),
        min_mutation_score: chosen_percent(partial.min_mutation_score, config.min_mutation_score),
        min_mutation_efficacy: chosen_percent(partial.min_mutation_efficacy, config.min_mutation_efficacy),
        min_mutant_coverage: chosen_percent(partial.min_mutant_coverage, config.min_mutant_coverage),
    }
}

/// The Rust plugin after its section.
pub open spec fn with_rust(
    config: RustPluginConfigModel,
    partial: RustPluginConfigPartialModel,
) -> RustPluginConfigModel {
    RustPluginConfigModel {
        property_framework: stated(partial.property_framework, config.property_framework),
        command_timeout_seconds: stated(partial.command_timeout_seconds, config.command_timeout_seconds),
        coverage_enabled: stated(partial.coverage_enabled, config.coverage_enabled),
        coverage_timeout_seconds: stated(partial.coverage_timeout_seconds, config.coverage_timeout_seconds),
        cargo_jobs: stated(partial.cargo_jobs, config.cargo_jobs),
        test_threads: stated(partial.test_threads, config.test_threads),
        systemd_scope: stated(partial.systemd_scope, config.systemd_scope),
        memory_max: stated_option(partial.memory_max, config.memory_max),
        cpu_quota: stated_option(partial.cpu_quota, config.cpu_quota),
        mutation: with_own_mutation(partial.mutation, config.mutation),
    }
}

fn apply_rust(
    config: RustPluginConfig,
    section: &Option<RustPluginConfigPartial>,
) -> (r: RustPluginConfig)
    ensures
        section is None ==> r.deep_view() == config.deep_view(),
        section matches Some(partial) ==> r.deep_view() == with_rust(
            config.deep_view(),
            partial.deep_view(),
        ),
{
    let partial = match section {
        Some(partial) => partial,
        None => {
            return config;
        },
    };
    RustPluginConfig {
        property_framework: chosen_text(&partial.property_framework, &config.property_framework),
        command_timeout_seconds: chosen(partial.command_timeout_seconds, config.command_timeout_seconds),
        coverage_enabled: chosen(partial.coverage_enabled, config.coverage_enabled),
        coverage_timeout_seconds: chosen(partial.coverage_timeout_seconds, config.coverage_timeout_seconds),
        cargo_jobs: chosen(partial.cargo_jobs, config.cargo_jobs),
        test_threads: chosen(partial.test_threads, config.test_threads),
        systemd_scope: chosen(partial.systemd_scope, config.systemd_scope),
        memory_max: chosen_text_option(&partial.memory_max, &config.memory_max),
        cpu_quota: chosen_text_option(&partial.cpu_quota, &config.cpu_quota),
        mutation: chosen_mutation(&partial.mutation, &config.mutation),
    }
}

/// The Go plugin after its section.
pub open spec fn with_go(
    config: GoPluginConfigModel,
    partial: GoPluginConfigPartialModel,
) -> GoPluginConfigModel {
    GoPluginConfigModel {
        fuzz_seconds: stated(partial.fuzz_seconds, config.fuzz_seconds),
        fuzz_existing: stated(partial.fuzz_existing, config.fuzz_existing),
        fuzz_concurrency: stated_workers(partial.fuzz_concurrency, config.fuzz_concurrency),
        coverage_enabled: stated(partial.coverage_enabled, config.coverage_enabled),
        reverse_dependency_depth: stated(partial.reverse_dependency_depth, config.reverse_dependency_depth),
        max_fuzz_targets: stated(partial.max_fuzz_targets, config.max_fuzz_targets),
        command_timeout_seconds: stated(partial.command_timeout_seconds, config.command_timeout_seconds),
        max_packages: stated(partial.max_packages, config.max_packages),
        max_mutants: stated(partial.max_mutants, config.max_mutants),
        build_tags: stated(partial.build_tags, config.build_tags),
        mutation: with_own_mutation(partial.mutation, config.mutation),
    }
}

fn apply_go(config: GoPluginConfig, section: &Option<GoPluginConfigPartial>) -> (r: GoPluginConfig)
    ensures
        section is None ==> r.deep_view() == config.deep_view(),
        section matches Some(partial) ==> r.deep_view() == with_go(
            config.deep_view(),
            partial.deep_view(),
        ),
{
    let partial = match section {
        Some(partial) => partial,
        None => {
            return config;
        },
    };
    GoPluginConfig {
        fuzz_seconds: chosen(partial.fuzz_seconds, config.fuzz_seconds),
        fuzz_existing: chosen(partial.fuzz_existing, config.fuzz_existing),
        fuzz_concurrency: chosen_workers(partial.fuzz_concurrency, config.fuzz_concurrency),
        coverage_enabled: chosen(partial.coverage_enabled, config.coverage_enabled),
        reverse_dependency_depth: chosen(partial.reverse_dependency_depth, config.reverse_dependency_depth),
        max_fuzz_targets: chosen(partial.max_fuzz_targets, config.max_fuzz_targets),
        command_timeout_seconds: chosen(partial.command_timeout_seconds, config.command_timeout_seconds),
        max_packages: chosen(partial.max_packages, config.max_packages),
        max_mutants: chosen(partial.max_mutants, config.max_mutants),
        build_tags: chosen_texts(&partial.build_tags, &config.build_tags),
        mutation: chosen_mutation(&partial.mutation, &config.mutation),
    }
}

/// The Python plugin after its section.
pub open spec fn with_python(
    config: PythonPluginConfigModel,
    partial: PythonPluginConfigPartialModel,
) -> PythonPluginConfigModel {
    PythonPluginConfigModel {
        command_timeout_seconds: stated(partial.command_timeout_seconds, config.command_timeout_seconds),
        coverage_enabled: stated(partial.coverage_enabled, config.coverage_enabled),
        mutation: with_own_mutation(partial.mutation, config.mutation),
    }
}

fn apply_python(
    config: PythonPluginConfig,
    section: &Option<PythonPluginConfigPartial>,
) -> (r: PythonPluginConfig)
    ensures
        section is None ==> r.deep_view() == config.deep_view(),
        section matches Some(partial) ==> r.deep_view() == with_python(
            config.deep_view(),
            partial.deep_view(),
        ),
{
    let partial = match section {
        Some(partial) => partial,
        None => {
            return config;
        },
    };
    PythonPluginConfig {
        command_timeout_seconds: chosen(partial.command_timeout_seconds, config.command_timeout_seconds),
        coverage_enabled: chosen(partial.coverage_enabled, config.coverage_enabled),
        mutation: chosen_mutation(&partial.mutation, &config.mutation),
    }
}

/// The TypeScript plugin after its section.
pub open spec fn with_typescript(
    config: TypeScriptPluginConfigModel,
    partial: TypeScriptPluginConfigPartialModel,
) -> TypeScriptPluginConfigModel {
    TypeScriptPluginConfigModel {
        command_timeout_seconds: stated(partial.command_timeout_seconds, config.command_timeout_seconds),
        mutation: with_own_mutation(partial.mutation, config.mutation),
    }
}

fn apply_typescript(
    config: TypeScriptPluginConfig,
    section: &Option<TypeScriptPluginConfigPartial>,
) -> (r: TypeScriptPluginConfig)
    ensures
        section is None ==> r.deep_view() == config.deep_view(),
        section matches Some(partial) ==> r.deep_view() == with_typescript(
            config.deep_view(),
            partial.deep_view(),
        ),
{
    let partial = match section {
        Some(partial) => partial,
        None => {
            return config;
        },
    };
    TypeScriptPluginConfig {
        command_timeout_seconds: chosen(partial.command_timeout_seconds, config.command_timeout_seconds),
        mutation: chosen_mutation(&partial.mutation, &config.mutation),
    }
}

/// Every plugin after the shared `mutation` section.
pub open spec fn with_shared_mutation(
    config: PluginConfigsModel,
    partial: MutationConfigPartialModel,
) -> PluginConfigsModel {
    PluginConfigsModel {
        rust: RustPluginConfigModel {
            mutation: with_mutation(config.rust.mutation, partial),
            ..config.rust
        },
        go: GoPluginConfigModel {
            mutation: with_mutation(config.go.mutation, partial),
            ..config.go
        },
        python: PythonPluginConfigModel {
            mutation: with_mutation(config.python.mutation, partial),
            ..config.python
        },
        typescript: TypeScriptPluginConfigModel {
            mutation: with_mutation(config.typescript.mutation, partial),
            ..config.typescript
        },
    }
}

/// Every plugin after the `plugins` section.
pub open spec fn with_plugins(
    config: PluginConfigsModel,
    section: PluginSectionModel,
) -> PluginConfigsModel {
    PluginConfigsModel {
        rust: match section.rust {
            Some(partial) => with_rust(config.rust, partial),
            None => config.rust,
        },
        go: match section.go {
            Some(partial) => with_go(config.go, partial),
            None => config.go,
        },
        python: match section.python {
            Some(partial) => with_python(config.python, partial),
            None => config.python,
        },
        typescript: match section.typescript {
            Some(partial) => with_typescript(config.typescript, partial),
            None => config.typescript,
        },
    }
}

/// The plugins' settings after the shared section, then after their own.
pub open spec fn plugins_from_file(
    config: PluginConfigsModel,
    mutation: Option<MutationConfigPartialModel>,
    plugins: Option<PluginSectionModel>,
) -> PluginConfigsModel {
    let shared = match mutation {
        Some(partial) => with_shared_mutation(config, partial),
        None => config,
    };
    match plugins {
        Some(section) => with_plugins(shared, section),
        None => shared,
    }
}

fn load_plugins(
    config: PluginConfigs,
    mutation: &Option<MutationConfigPartial>,
    plugins: &Option<PluginSection>,
) -> (r: PluginConfigs)
    ensures
        r.deep_view() == plugins_from_file(
            config.deep_view(),
            mutation.deep_view(),
            plugins.deep_view(),
        ),
{
    let mut config = config;
    if let Some(section) = mutation {
        apply_mutation_config(&mut config.rust.mutation, section);
        apply_mutation_config(&mut config.go.mutation, section);
        apply_mutation_config(&mut config.python.mutation, section);
        apply_mutation_config(&mut config.typescript.mutation, section);
    }
    match plugins {
        Some(section) => PluginConfigs {
            rust: apply_rust(config.rust, &section.rust),
            go: apply_go(config.go, &section.go),
            python: apply_python(config.python, &section.python),
            typescript: apply_typescript(config.typescript, &section.typescript),
        },
        None => config,
    }
}

/// The budget and the three switches of the `veritas` section.
pub open spec fn general_section(section: Option<VeritasSectionModel>) -> (u64, bool, bool, bool) {
    match section {
        Some(s) => (
            stated(s.budget_seconds, 120),
            stated(s.write_generated_tests, true),
            stated(s.fail_on_generated_test_failure, true),
            stated(s.fail_on_findings, false),
        ),
        None => (120, true, true, false),
    }
}

fn general_settings(section: &Option<VeritasSection>) -> (r: (u64, bool, bool, bool))
    ensures
        r == general_section(section.deep_view()),
{
    match section {
        Some(s) => (
            chosen(s.budget_seconds, 120),
            chosen(s.write_generated_tests, true),
            chosen(s.fail_on_generated_test_failure, true),
            chosen(s.fail_on_findings, false),
        ),
        None => (120, true, true, false),
    }
}

/// The settings that a configuration file gives: each setting that the file
/// states, bounded, and the default of every other.
pub open spec fn config_from_file(file: ConfigFileModel) -> VeritasConfigModel {
    let base = default_config();
    VeritasConfigModel {
        budget_seconds: general_section(file.veritas).0,
        write_generated_tests: general_section(file.veritas).1,
        fail_on_generated_test_failure: general_section(file.veritas).2,
        fail_on_findings: general_section(file.veritas).3,
        planner: match file.planner {
            Some(section) => with_planner(base.planner, section),
            None => base.planner,
        },
        policy: match file.policy {
            Some(section) => with_policy(base.policy, section),
            None => base.policy,
        },
        plugins: plugins_from_file(base.plugins, file.mutation, file.plugins),
    }
}

impl VeritasConfig {
    /// The settings for a project whose configuration file, if it has one,
    /// says `file`.
    pub fn load(file: Option<ConfigFile>) -> (r: Self)
        ensures
            file is None ==> r.deep_view() == default_config(),
            file matches Some(parsed) ==> r.deep_view() == config_from_file(parsed.deep_view()),
    {
        let base = VeritasConfig::default();
        let parsed = match file {
            Some(parsed) => parsed,
            None => {
                return base;
            },
        };
        let general = general_settings(&parsed.veritas);
        VeritasConfig {
            budget_seconds: general.0,
            write_generated_tests: general.1,
            fail_on_generated_test_failure: general.2,
            fail_on_findings: general.3,
            planner: apply_planner(base.planner, &parsed.planner),
            policy: apply_policy(base.policy, &parsed.policy),
            plugins: load_plugins(base.plugins, &parsed.mutation, &parsed.plugins),
        }
    }
}

/// A file without sections changes nothing.
pub proof fn law_empty_file_gives_defaults(file: ConfigFileModel)
    requires
        file.veritas is None,
        file.planner is None,
        file.policy is None,
        file.mutation is None,
        file.plugins is None,
    ensures
        config_from_file(file) == default_config(),
{
}

/// Whether a selection of mutants has no limit of zero.
pub open spec fn limits_positive(config: MutationConfigModel) -> bool {
    &&& config.max_mutants matches Some(n) ==> n >= 1
    &&& config.test_cpu matches Some(n) ==> n >= 1
    &&& config.shard_count matches Some(n) ==> n >= 1
}

/// Whatever a file says, policy percentages are at most one hundred, and
/// limits and the fuzz concurrency are at least one.
pub proof fn law_loaded_settings_are_bounded(file: ConfigFileModel)
    ensures
        ({
            let c = config_from_file(file);
            &&& c.policy.min_mutation_score matches Some(n) ==> n <= 100
            &&& c.policy.min_mutation_efficacy matches Some(n) ==> n <= 100
            &&& c.policy.min_mutant_coverage matches Some(n) ==> n <= 100
            &&& c.plugins.go.fuzz_concurrency >= 1
            &&& limits_positive(c.plugins.rust.mutation)
            &&& limits_positive(c.plugins.go.mutation)
            &&& limits_positive(c.plugins.python.mutation)
            &&& limits_positive(c.plugins.typescript.mutation)
        }),
{
    let base = default_config().plugins;
    let shared = match file.mutation {
        Some(partial) => with_shared_mutation(base, partial),
        None => base,
    };
    if let Some(partial) = file.mutation {
        lemma_limits_stay_positive(default_mutation(), partial);
    }
    if let Some(section) = file.plugins {
        if let Some(own) = section.rust {
            if let Some(partial) = own.mutation {
                lemma_limits_stay_positive(shared.rust.mutation, partial);
            }
        }
        if let Some(own) = section.go {
            if let Some(partial) = own.mutation {
                lemma_limits_stay_positive(shared.go.mutation, partial);
            }
        }
        if let Some(own) = section.python {
            if let Some(partial) = own.mutation {
                lemma_limits_stay_positive(shared.python.mutation, partial);
            }
        }
        if let Some(own) = section.typescript {
            if let Some(partial) = own.mutation {
                lemma_limits_stay_positive(shared.typescript.mutation, partial);
            }
        }
    }
}

/// A `mutation` section leaves no limit of zero.
proof fn lemma_limits_stay_positive(
    config: MutationConfigModel,
    partial: MutationConfigPartialModel,
)
    requires
        limits_positive(config),
    ensures
        limits_positive(with_mutation(config, partial)),
{
}

/// The shared `mutation` section reaches every plugin that has no section of
/// its own.
pub proof fn law_shared_mutation_reaches_every_plugin(
    file: ConfigFileModel,
    section: MutationConfigPartialModel,
)
    requires
        file.mutation == Some(section),
        file.plugins is None,
    ensures
        config_from_file(file).plugins.rust.mutation == with_mutation(default_mutation(), section),
        config_from_file(file).plugins.go.mutation == with_mutation(default_mutation(), section),
        config_from_file(file).plugins.python.mutation == with_mutation(
            default_mutation(),
            section,
        ),
        config_from_file(file).plugins.typescript.mutation == with_mutation(
            default_mutation(),
            section,
        ),
{
}

/// A plugin's own `mutation` section has the last word on what it states.
pub proof fn law_own_mutation_section_wins(
    file: ConfigFileModel,
    section: PluginSectionModel,
    go: GoPluginConfigPartialModel,
    own: MutationConfigPartialModel,
)
    requires
        file.plugins == Some(section),
        section.go == Some(go),
        go.mutation == Some(own),
    ensures
        own.dry_run matches Some(v) ==> config_from_file(file).plugins.go.mutation.dry_run == v,
        own.workers matches Some(v) ==> config_from_file(file).plugins.go.mutation.workers == v,
        own.enabled_operators matches Some(v) ==> config_from_file(
            file,
        ).plugins.go.mutation.enabled_operators == v,
        own.disabled_operators matches Some(v) ==> config_from_file(
            file,
        ).plugins.go.mutation.disabled_operators == v,
{
}

// ---------------------------------------------------------------------------
// The profile for continuous integration
// ---------------------------------------------------------------------------
/// A named set of tighter settings.
#[derive(Debug, Clone, Copy, PartialEq, Eq, Structural)]
pub enum VerifyProfile {
    Ci,
}

/// The smaller of two numbers.
pub open spec fn lesser(a: int, b: int) -> int {
    if a < b {
        a
    } else {
        b
    }
}

/// A number of workers brought between one and two.
pub open spec fn one_or_two(n: usize) -> usize {
    if n < 1 {
        1
    } else if n > 2 {
        2
    } else {
        n
    }
}

fn clamp_workers(n: usize) -> (r: usize)
    ensures
        r == one_or_two(n),
{
    if n < 1 {
        1
    } else if n > 2 {
        2
    } else {
        n
    }
}

fn cap(n: u64, most: u64) -> (r: u64)
    ensures
        r == lesser(n as int, most as int),
{
    if n < most {
        n
    } else {
        most
    }
}

fn cap_count(n: usize, most: usize) -> (r: usize)
    ensures
        r == lesser(n as int, most as int),
{
    if n < most {
        n
    } else {
        most
    }
}

/// The settings under the profile for continuous integration: coverage is
/// off, every limit is tightened, and findings of error severity fail.
pub open spec fn ci_config(c: VeritasConfigModel) -> VeritasConfigModel {
    VeritasConfigModel {
        budget_seconds: lesser(c.budget_seconds as int, 120) as u64,
        fail_on_findings: true,
        policy: PolicyConfigModel {
            fail_on_severity: if c.policy.fail_on_severity.rank() < FailureSeverity::Error.rank() {
                FailureSeverity::Error
            } else {
                c.policy.fail_on_severity
            },
            ..c.policy
        },
        plugins: PluginConfigsModel {
            rust: RustPluginConfigModel {
                coverage_enabled: false,
                command_timeout_seconds: lesser(
                    c.plugins.rust.command_timeout_seconds as int,
                    120,
                ) as u64,
                coverage_timeout_seconds: lesser(
                    c.plugins.rust.coverage_timeout_seconds as int,
                    60,
                ) as u64,
                cargo_jobs: one_or_two(c.plugins.rust.cargo_jobs),
                test_threads: one_or_two(c.plugins.rust.test_threads),
                ..c.plugins.rust
            },
            go: GoPluginConfigModel {
                coverage_enabled: false,
                fuzz_seconds: lesser(c.plugins.go.fuzz_seconds as int, 5) as u64,
                fuzz_concurrency: one_or_two(c.plugins.go.fuzz_concurrency),
                reverse_dependency_depth: lesser(
                    c.plugins.go.reverse_dependency_depth as int,
                    1,
                ) as usize,
                max_fuzz_targets: lesser(c.plugins.go.max_fuzz_targets as int, 5) as usize,
                command_timeout_seconds: lesser(
                    c.plugins.go.command_timeout_seconds as int,
                    90,
                ) as u64,
                max_packages: lesser(c.plugins.go.max_packages as int, 16) as usize,
                max_mutants: lesser(c.plugins.go.max_mutants as int, 4) as usize,
                ..c.plugins.go
            },
            typescript: TypeScriptPluginConfigModel {
                command_timeout_seconds: lesser(
                    c.plugins.typescript.command_timeout_seconds as int,
                    90,
                ) as u64,
                ..c.plugins.typescript
            },
            python: PythonPluginConfigModel { coverage_enabled: false, ..c.plugins.python },
            ..c.plugins
        },
        ..c
    }
}

/// Applies a profile to the settings.
pub fn apply_verify_profile(config: &mut VeritasConfig, profile: Option<VerifyProfile>)
    ensures
        profile is None ==> final(config).deep_view() == old(config).deep_view(),
        profile == Some(VerifyProfile::Ci) ==> final(config).deep_view() == ci_config(
            old(config).deep_view(),
        ),
{
    if profile.is_none() {
        return;
    }
    config.budget_seconds = cap(config.budget_seconds, 120);
    config.fail_on_findings = true;
    if config.policy.fail_on_severity.below(FailureSeverity::Error) {
        config.policy.fail_on_severity = FailureSeverity::Error;
    }
    config.plugins.rust.coverage_enabled = false;
    config.plugins.rust.command_timeout_seconds = cap(
        config.plugins.rust.command_timeout_seconds,
        120,
    );
    config.plugins.rust.coverage_timeout_seconds = cap(
        config.plugins.rust.coverage_timeout_seconds,
        60,
    );
    config.plugins.rust.cargo_jobs = clamp_workers(config.plugins.rust.cargo_jobs);
    config.plugins.rust.test_threads = clamp_workers(config.plugins.rust.test_threads);
    config.plugins.go.coverage_enabled = false;
    config.plugins.go.fuzz_seconds = cap(config.plugins.go.fuzz_seconds, 5);
    config.plugins.go.fuzz_concurrency = clamp_workers(config.plugins.go.fuzz_concurrency);
    config.plugins.go.reverse_dependency_depth = cap_count(
        config.plugins.go.reverse_dependency_depth,
        1,
    );
    config.plugins.go.max_fuzz_targets = cap_count(config.plugins.go.max_fuzz_targets, 5);
    config.plugins.go.command_timeout_seconds = cap(
        config.plugins.go.command_timeout_seconds,
        90,
    );
    config.plugins.go.max_packages = cap_count(config.plugins.go.max_packages, 16);
    config.plugins.go.max_mutants = cap_count(config.plugins.go.max_mutants, 4);
    config.plugins.typescript.command_timeout_seconds = cap(
        config.plugins.typescript.command_timeout_seconds,
        90,
    );
    config.plugins.python.coverage_enabled = false;
}

/// The profile for continuous integration raises no limit of time, fuzzing,
/// packages or mutants, and turns coverage off.
pub proof fn law_ci_profile_tightens(c: VeritasConfigModel)
    ensures
        ci_config(c).budget_seconds <= c.budget_seconds,
        ci_config(c).plugins.rust.command_timeout_seconds
            <= c.plugins.rust.command_timeout_seconds,
        ci_config(c).plugins.go.command_timeout_seconds <= c.plugins.go.command_timeout_seconds,
        ci_config(c).plugins.go.fuzz_seconds <= c.plugins.go.fuzz_seconds,
        ci_config(c).plugins.go.max_fuzz_targets <= c.plugins.go.max_fuzz_targets,
        ci_config(c).plugins.go.max_packages <= c.plugins.go.max_packages,
        ci_config(c).plugins.go.max_mutants <= c.plugins.go.max_mutants,
        ci_config(c).plugins.go.reverse_dependency_depth
            <= c.plugins.go.reverse_dependency_depth,
        !ci_config(c).plugins.rust.coverage_enabled,
        !ci_config(c).plugins.go.coverage_enabled,
        !ci_config(c).plugins.python.coverage_enabled,
        ci_config(c).fail_on_findings,
        ci_config(c).policy.fail_on_severity.rank() >= FailureSeverity::Error.rank(),
{
}

/// Applying the profile twice is applying it once.
pub proof fn law_ci_profile_idempotent(c: VeritasConfigModel)
    ensures
        ci_config(ci_config(c)) == ci_config(c),
{
}

// ---------------------------------------------------------------------------
// Choosing mutants on the command line
// ---------------------------------------------------------------------------
/// What `mutants list` was asked to show.
#[derive(Debug, PartialEq, Eq)]
pub struct MutantSelection {
    pub domain: Vec<String>,
    pub operator: Vec<String>,
    pub include_path: Vec<String>,
    pub exclude_path: Vec<String>,
    pub include_symbol: Vec<String>,
    pub exclude_symbol: Vec<String>,
    pub max_mutants: Option<usize>,
    pub shard_index: Option<usize>,
    pub shard_count: Option<usize>,
}

/// The mathematical value of a `MutantSelection`.
pub struct MutantSelectionModel {
    pub domain: Seq<Seq<char>>,
    pub operator: Seq<Seq<char>>,
    pub include_path: Seq<Seq<char>>,
    pub exclude_path: Seq<Seq<char>>,
    pub include_symbol: Seq<Seq<char>>,
    pub exclude_symbol: Seq<Seq<char>>,
    pub max_mutants: Option<usize>,
    pub shard_index: Option<usize>,
    pub shard_count: Option<usize>,
}

impl DeepView for MutantSelection {
    type V = MutantSelectionModel;

    open spec fn deep_view(&self) -> MutantSelectionModel {
        MutantSelectionModel {
            domain: self.domain.deep_view(),
            operator: self.operator.deep_view(),
            include_path: self.include_path.deep_view(),
            exclude_path: self.exclude_path.deep_view(),
            include_symbol: self.include_symbol.deep_view(),
            exclude_symbol: self.exclude_symbol.deep_view(),
            max_mutants: self.max_mutants,
            shard_index: self.shard_index,
            shard_count: self.shard_count,
        }
    }
}

impl Clone for MutantSelection {
    fn clone(&self) -> (r: Self)
        ensures
            r.deep_view() == self.deep_view(),
    {
        MutantSelection {
            domain: clone_texts(&self.domain),
            operator: clone_texts(&self.operator),
            include_path: clone_texts(&self.include_path),
            exclude_path: clone_texts(&self.exclude_path),
            include_symbol: clone_texts(&self.include_symbol),
            exclude_symbol: clone_texts(&self.exclude_symbol),
            max_mutants: self.max_mutants,
            shard_index: self.shard_index,
            shard_count: self.shard_count,
        }
    }
}

/// What is wrong with the shard flags, if anything: an index without a count,
/// a count of zero, or an index that is not below the count.
pub open spec fn shard_flags_fault(
    shard_index: Option<usize>,
    shard_count: Option<usize>,
) -> Option<Seq<char>> {
    match shard_count {
        None => if shard_index is Some {
            Some("--shard-index requires --shard-count"@)
        } else {
            None
        },
        Some(count) => if count == 0 {
            Some("--shard-count must be greater than zero"@)
        } else {
            match shard_index {
                Some(index) => if index >= count {
                    Some(
                        "--shard-index "@ + decimal(index as int)
                            + " must be less than --shard-count "@ + decimal(count as int),
                    )
                } else {
                    None
                },
                None => None,
            }
        },
    }
}

/// Refuses shard flags that name no shard.
pub fn validate_mutants_shard_flags(
    shard_index: Option<usize>,
    shard_count: Option<usize>,
) -> (r: Result<(), String>)
    ensures
        r is Ok <==> shard_flags_fault(shard_index, shard_count) is None,
        r matches Err(message) ==> shard_flags_fault(shard_index, shard_count) == Some(message@),
{
    let count: usize = match shard_count {
        Some(count) => count,
        None => {
            if shard_index.is_some() {
                return Err(owned("--shard-index requires --shard-count"));
            }
            return Ok(());
        },
    };
    if count == 0 {
        return Err(owned("--shard-count must be greater than zero"));
    }
    if let Some(index) = shard_index {
        if index >= count {
            let mut message = owned("--shard-index ");
            message.append(print_usize(index).as_str());
            message.append(" must be less than --shard-count ");
            message.append(print_usize(count).as_str());
            return Err(message);
        }
    }
    Ok(())
}

/// A list from the command line, where it is not empty, or the standing one.
pub open spec fn named_or_standing(
    named: Seq<Seq<char>>,
    standing: Seq<Seq<char>>,
) -> Seq<Seq<char>> {
    if named.len() == 0 {
        standing
    } else {
        named
    }
}

/// The selection of mutants for a listing: nothing runs, and what the command
/// line names replaces what was configured.
pub open spec fn listed_mutation(
    config: MutationConfigModel,
    selection: MutantSelectionModel,
) -> MutationConfigModel {
    MutationConfigModel {
        dry_run: true,
        enabled_domains: named_or_standing(selection.domain, config.enabled_domains),
        enabled_operators: named_or_standing(selection.operator, config.enabled_operators),
        include_paths: named_or_standing(selection.include_path, config.include_paths),
        exclude_paths: named_or_standing(selection.exclude_path, config.exclude_paths),
        include_symbols: named_or_standing(selection.include_symbol, config.include_symbols),
        exclude_symbols: named_or_standing(selection.exclude_symbol, config.exclude_symbols),
        max_mutants: stated_limit(selection.max_mutants, config.max_mutants),
        shard_index: selection.shard_index,
        shard_count: selection.shard_count,
        ..config
    }
}

fn replace_named(standing: &mut Vec<String>, named: &Vec<String>)
    ensures
        final(standing).deep_view() == named_or_standing(
            named.deep_view(),
            old(standing).deep_view(),
        ),
{
    assert(named.deep_view().len() == named@.len());
    if !named.is_empty() {
        *standing = clone_texts(named);
    }
}

fn select_listed(config: &mut MutationConfig, selection: &MutantSelection)
    ensures
        final(config).deep_view() == listed_mutation(
            old(config).deep_view(),
            selection.deep_view(),
        ),
{
    config.dry_run = true;
    replace_named(&mut config.enabled_domains, &selection.domain);
    replace_named(&mut config.enabled_operators, &selection.operator);
    replace_named(&mut config.include_paths, &selection.include_path);
    replace_named(&mut config.exclude_paths, &selection.exclude_path);
    replace_named(&mut config.include_symbols, &selection.include_symbol);
    replace_named(&mut config.exclude_symbols, &selection.exclude_symbol);
    if let Some(max_mutants) = selection.max_mutants {
        config.max_mutants = Some(raise_to_one(max_mutants));
    }
    config.shard_index = selection.shard_index;
    config.shard_count = selection.shard_count;
}

/// The settings for a listing of mutants.
pub open spec fn listed_config(
    c: VeritasConfigModel,
    selection: MutantSelectionModel,
) -> VeritasConfigModel {
    VeritasConfigModel {
        plugins: PluginConfigsModel {
            rust: RustPluginConfigModel {
                mutation: listed_mutation(c.plugins.rust.mutation, selection),
                ..c.plugins.rust
            },
            go: GoPluginConfigModel {
                mutation: listed_mutation(c.plugins.go.mutation, selection),
                max_mutants: match selection.max_mutants {
                    Some(n) => one_or_more(n),
                    None => c.plugins.go.max_mutants,
                },
                ..c.plugins.go
            },
            python: PythonPluginConfigModel {
                mutation: listed_mutation(c.plugins.python.mutation, selection),
                ..c.plugins.python
            },
            typescript: TypeScriptPluginConfigModel {
                mutation: listed_mutation(c.plugins.typescript.mutation, selection),
                ..c.plugins.typescript
            },
        },
        ..c
    }
}

/// Sets the settings up for a listing of mutants. Shard flags that name no
/// shard are refused, and the settings then stay as they were.
pub fn apply_mutants_list_config(
    config: &mut VeritasConfig,
    selection: &MutantSelection,
) -> (r: Result<(), String>)
    ensures
        r is Ok <==> shard_flags_fault(selection.shard_index, selection.shard_count) is None,
        r is Ok ==> final(config).deep_view() == listed_config(
            old(config).deep_view(),
            selection.deep_view(),
        ),
        r matches Err(message) ==> shard_flags_fault(
            selection.shard_index,
            selection.shard_count,
        ) == Some(message@) && final(config).deep_view() == old(config).deep_view(),
{
    match validate_mutants_shard_flags(selection.shard_index, selection.shard_count) {
        Ok(()) => {},
        Err(message) => {
            return Err(message);
        },
    }
    select_listed(&mut config.plugins.rust.mutation, selection);
    select_listed(&mut config.plugins.go.mutation, selection);
    select_listed(&mut config.plugins.python.mutation, selection);
    select_listed(&mut config.plugins.typescript.mutation, selection);
    if let Some(max_mutants) = selection.max_mutants {
        config.plugins.go.max_mutants = raise_to_one(max_mutants);
    }
    Ok(())
}

/// The settings for a run of named mutants only.
pub open spec fn config_for_mutants(
    c: VeritasConfigModel,
    ids: Seq<Seq<char>>,
) -> VeritasConfigModel {
    VeritasConfigModel {
        plugins: PluginConfigsModel {
            rust: RustPluginConfigModel {
                mutation: MutationConfigModel {
                    include_mutant_ids: ids,
                    ..c.plugins.rust.mutation
                },
                ..c.plugins.rust
            },
            go: GoPluginConfigModel {
                mutation: MutationConfigModel {
                    include_mutant_ids: ids,
                    ..c.plugins.go.mutation
                },
                ..c.plugins.go
            },
            python: PythonPluginConfigModel {
                mutation: MutationConfigModel {
                    include_mutant_ids: ids,
                    ..c.plugins.python.mutation
                },
                ..c.plugins.python
            },
            typescript: TypeScriptPluginConfigModel {
                mutation: MutationConfigModel {
                    include_mutant_ids: ids,
                    ..c.plugins.typescript.mutation
                },
                ..c.plugins.typescript
            },
        },
        ..c
    }
}

/// Sets the settings up for a run of named mutants only.
pub fn apply_mutants_run_config(config: &mut VeritasConfig, ids: &Vec<String>)
    ensures
        final(config).deep_view() == config_for_mutants(
            old(config).deep_view(),
            ids.deep_view(),
        ),
{
    config.plugins.rust.mutation.include_mutant_ids = clone_texts(ids);
    config.plugins.go.mutation.include_mutant_ids = clone_texts(ids);
    config.plugins.python.mutation.include_mutant_ids = clone_texts(ids);
    config.plugins.typescript.mutation.include_mutant_ids = clone_texts(ids);
}

// ---------------------------------------------------------------------------
// Where the file stands
// ---------------------------------------------------------------------------
/// The name of the configuration file to read: `veritas.toml` comes before
/// `.veritas.toml`.
pub open spec fn config_file_name(plain: bool, hidden: bool) -> Option<Seq<char>> {
    if plain {
        Some("veritas.toml"@)
    } else if hidden {
        Some(".veritas.toml"@)
    } else {
        None
    }
}

/// The configuration file to read, given which of the two exist.
pub fn config_path(plain_exists: bool, hidden_exists: bool) -> (r: Option<String>)
    ensures
        r.deep_view() == config_file_name(plain_exists, hidden_exists),
{
    if plain_exists {
        Some(owned("veritas.toml"))
    } else if hidden_exists {
        Some(owned(".veritas.toml"))
    } else {
        None
    }
}

/// A setting of a `mutation` section replaces what stands, and a setting that it does not state
/// stays as it is; a limit of zero is taken as one.
pub proof fn law_stated_selections_win(
    config: MutationConfigModel,
    partial: MutationConfigPartialModel,
)
    ensures
        ({
            let after = with_mutation(config, partial);
            &&& partial.enabled_domains matches Some(value) ==> after.enabled_domains == value
            &&& partial.enabled_domains is None ==> after.enabled_domains == config.enabled_domains
            &&& partial.disabled_domains matches Some(value) ==> after.disabled_domains == value
            &&& partial.disabled_domains is None ==> after.disabled_domains == config.disabled_domains
            &&& partial.enabled_operators matches Some(value) ==> after.enabled_operators == value
            &&& partial.enabled_operators is None ==> after.enabled_operators == config.enabled_operators
            &&& partial.disabled_operators matches Some(value) ==> after.disabled_operators == value
            &&& partial.disabled_operators is None ==> after.disabled_operators == config.disabled_operators
            &&& partial.include_paths matches Some(value) ==> after.include_paths == value
            &&& partial.include_paths is None ==> after.include_paths == config.include_paths
            &&& partial.exclude_paths matches Some(value) ==> after.exclude_paths == value
            &&& partial.exclude_paths is None ==> after.exclude_paths == config.exclude_paths
            &&& partial.include_symbols matches Some(value) ==> after.include_symbols == value
            &&& partial.include_symbols is None ==> after.include_symbols == config.include_symbols
            &&& partial.exclude_symbols matches Some(value) ==> after.exclude_symbols == value
            &&& partial.exclude_symbols is None ==> after.exclude_symbols == config.exclude_symbols
            &&& partial.include_mutant_ids matches Some(value) ==> after.include_mutant_ids == value
            &&& partial.include_mutant_ids is None ==> after.include_mutant_ids == config.include_mutant_ids
            &&& partial.exclude_mutant_ids matches Some(value) ==> after.exclude_mutant_ids == value
            &&& partial.exclude_mutant_ids is None ==> after.exclude_mutant_ids == config.exclude_mutant_ids
            &&& partial.output_statuses matches Some(value) ==> after.output_statuses == value
            &&& partial.output_statuses is None ==> after.output_statuses == config.output_statuses
            &&& partial.dry_run matches Some(value) ==> after.dry_run == value
            &&& partial.dry_run is None ==> after.dry_run == config.dry_run
            &&& partial.workers matches Some(value) ==> after.workers == value
            &&& partial.workers is None ==> after.workers == config.workers
            &&& partial.timeout_coefficient matches Some(value) ==> after.timeout_coefficient == value
            &&& partial.timeout_coefficient is None ==> after.timeout_coefficient == config.timeout_coefficient
            &&& partial.timeout_min_seconds is Some ==> after.timeout_min_seconds == partial.timeout_min_seconds
            &&& partial.timeout_min_seconds is None ==> after.timeout_min_seconds == config.timeout_min_seconds
            &&& partial.timeout_max_seconds is Some ==> after.timeout_max_seconds == partial.timeout_max_seconds
            &&& partial.timeout_max_seconds is None ==> after.timeout_max_seconds == config.timeout_max_seconds
            &&& partial.shard_index is Some ==> after.shard_index == partial.shard_index
            &&& partial.shard_index is None ==> after.shard_index == config.shard_index
            &&& partial.max_mutants matches Some(n) ==> after.max_mutants == Some(
                if n == 0 {
                    1usize
                } else {
                    n
                },
            )
            &&& partial.max_mutants is None ==> after.max_mutants == config.max_mutants
            &&& partial.test_cpu matches Some(n) ==> after.test_cpu == Some(
                if n == 0 {
                    1usize
                } else {
                    n
                },
            )
            &&& partial.test_cpu is None ==> after.test_cpu == config.test_cpu
            &&& partial.shard_count matches Some(n) ==> after.shard_count == Some(
                if n == 0 {
                    1usize
                } else {
                    n
                },
            )
            &&& partial.shard_count is None ==> after.shard_count == config.shard_count
        }),
{
}

/// A setting of a `policy` section replaces the default, and a setting that it does not state is
/// the default; a percentage above one hundred is taken as one hundred.
pub proof fn law_stated_policies_win(file: ConfigFileModel, section: PolicySectionModel)
    requires
        file.policy == Some(section),
    ensures
        ({
            let after = config_from_file(file).policy;
            &&& section.min_mutation_score matches Some(n) ==> after.min_mutation_score == Some(
                if n <= 100 {
                    n
                } else {
                    100u8
                },
            )
            &&& section.min_mutation_score is None ==> after.min_mutation_score == default_config().policy.min_mutation_score
            &&& section.min_mutation_efficacy matches Some(n) ==> after.min_mutation_efficacy == Some(
                if n <= 100 {
                    n
                } else {
                    100u8
                },
            )
            &&& section.min_mutation_efficacy is None ==> after.min_mutation_efficacy == default_config().policy.min_mutation_efficacy
            &&& section.min_mutant_coverage matches Some(n) ==> after.min_mutant_coverage == Some(
                if n <= 100 {
                    n
                } else {
                    100u8
                },
            )
            &&& section.min_mutant_coverage is None ==> after.min_mutant_coverage == default_config().policy.min_mutant_coverage
            &&& section.fail_on_severity matches Some(value) ==> after.fail_on_severity == value
            &&& section.fail_on_severity is None ==> after.fail_on_severity == default_config().policy.fail_on_severity
            &&& section.fail_on_languages matches Some(value) ==> after.fail_on_languages == value
            &&& section.fail_on_languages is None ==> after.fail_on_languages == default_config().policy.fail_on_languages
            &&& section.fail_on_artifact_kinds matches Some(value) ==> after.fail_on_artifact_kinds == value
            &&& section.fail_on_artifact_kinds is None ==> after.fail_on_artifact_kinds == default_config().policy.fail_on_artifact_kinds
            &&& section.fail_on_target_risks matches Some(value) ==> after.fail_on_target_risks == value
            &&& section.fail_on_target_risks is None ==> after.fail_on_target_risks == default_config().policy.fail_on_target_risks
        }),
{
}

/// Shard flags are refused exactly where they name no shard: an index needs a count, and is
/// below it.
pub proof fn law_shard_flags_name_a_shard(shard_index: Option<usize>, shard_count: Option<usize>)
    ensures
        shard_flags_fault(shard_index, shard_count) is None <==> {
            ||| shard_index is None && shard_count is None
            ||| shard_index is None && shard_count is Some && shard_count->0 >= 1
            ||| shard_index is Some && shard_count is Some && shard_index->0 < shard_count->0
        },
{
}

/// A listing of mutants runs nothing, in no language. Lists that the command line names replace
/// what was configured, and others stay.
pub proof fn law_listings_run_nothing(c: VeritasConfigModel, selection: MutantSelectionModel)
    ensures
        listed_config(c, selection).plugins.rust.mutation.dry_run,
        listed_config(c, selection).plugins.go.mutation.dry_run,
        listed_config(c, selection).plugins.python.mutation.dry_run,
        listed_config(c, selection).plugins.typescript.mutation.dry_run,
        ({
            let before = c.plugins.go.mutation;
            let after = listed_config(c, selection).plugins.go.mutation;
            &&& selection.domain.len() > 0 ==> after.enabled_domains == selection.domain
            &&& selection.domain.len() == 0 ==> after.enabled_domains == before.enabled_domains
            &&& selection.operator.len() > 0 ==> after.enabled_operators == selection.operator
            &&& selection.operator.len() == 0 ==> after.enabled_operators == before.enabled_operators
            &&& selection.include_path.len() > 0 ==> after.include_paths == selection.include_path
            &&& selection.include_path.len() == 0 ==> after.include_paths == before.include_paths
            &&& selection.exclude_path.len() > 0 ==> after.exclude_paths == selection.exclude_path
            &&& selection.exclude_path.len() == 0 ==> after.exclude_paths == before.exclude_paths
            &&& selection.include_symbol.len() > 0 ==> after.include_symbols == selection.include_symbol
            &&& selection.include_symbol.len() == 0 ==> after.include_symbols == before.include_symbols
            &&& selection.exclude_symbol.len() > 0 ==> after.exclude_symbols == selection.exclude_symbol
            &&& selection.exclude_symbol.len() == 0 ==> after.exclude_symbols == before.exclude_symbols
            &&& after.shard_index == selection.shard_index
            &&& after.shard_count == selection.shard_count
        }),
        listed_config(c, selection).policy == c.policy,
        listed_config(c, selection).planner == c.planner,
        listed_config(c, selection).budget_seconds == c.budget_seconds,
{
}

} // verus!
