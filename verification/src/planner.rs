//! Plans: what to do for a target, decided by the configuration or by an external
//! command that is kept within it.
use vstd::prelude::*;

use crate::api::{
    clone_verification_strategies, ProjectInfo, ProjectInfoModel, VerificationPlan,
    VerificationPlanModel, VerificationStrategy, VerificationTarget, VerificationTargetModel,
};
use crate::config::{PlannerMode, VeritasConfig, VeritasConfigModel};
use crate::documents::{
    optional_verification_plan_at, project_info_document, project_info_json,
    read_optional_verification_plan_at, read_verification_plan, verification_plan_document,
    verification_plan_in, verification_plan_json, verification_strategy_documents,
    verification_strategy_list, verification_target_document, verification_target_json,
};
use crate::findings::texts_of3;
use crate::json::{
    as_record, compact, compact_json, exact_json, named_fields, number, parse_exact, text, texts,
    texts_model, Json, JsonModel, Members,
};
use crate::number::decimal;
use crate::seqs::{lemma_take_all, lemma_take_next};
use crate::split::{trim, trimmed};
use crate::text::owned;

verus! {

// ---------------------------------------------------------------------------
// Planners
// ---------------------------------------------------------------------------
/// The value of a plan that may have failed.
pub open spec fn plan_view(r: Result<VerificationPlan, String>) -> Result<
    VerificationPlanModel,
    Seq<char>,
> {
    match r {
        Ok(plan) => Ok(plan.deep_view()),
        Err(message) => Err(message@),
    }
}

/// What decides how a target is verified.
pub trait VerificationPlanner {
    /// The plan for a target of a project, or why there is none.
    fn plan(&self, project: &ProjectInfo, target: &VerificationTarget) -> (r: Result<
        VerificationPlan,
        String,
    >);
}

/// All strategies, in the order in which they are planned.
pub open spec fn all_strategies() -> Seq<VerificationStrategy> {
    seq![
        VerificationStrategy::ExistingTests,
        VerificationStrategy::UnitTests,
        VerificationStrategy::PropertyTests,
        VerificationStrategy::Fuzzing,
        VerificationStrategy::DifferentialTests,
        VerificationStrategy::MutationChecks,
        VerificationStrategy::CoverageFeedback,
    ]
}

/// A planner that plans the same for every target.
pub struct DeterministicPlanner {
    pub config: VeritasConfig,
    pub strategies: Vec<VerificationStrategy>,
}

/// The plan that a configuration and strategies give for a target.
pub open spec fn plan_for(
    config: VeritasConfigModel,
    strategies: Seq<VerificationStrategy>,
    target: VerificationTargetModel,
) -> VerificationPlanModel {
    VerificationPlanModel {
        target_id: target.id,
        strategies,
        budget_seconds: config.budget_seconds,
        write_generated_tests: config.write_generated_tests,
        run_existing_tests: true,
        run_generated_tests: true,
        fail_on_generated_test_failure: config.fail_on_generated_test_failure,
    }
}

impl DeterministicPlanner {
    /// A planner with all strategies.
    pub fn new(config: VeritasConfig) -> (r: Self)
        ensures
            r.config.deep_view() == config.deep_view(),
            r.strategies@ == all_strategies(),
    {
        let mut strategies: Vec<VerificationStrategy> = Vec::new();
        strategies.push(VerificationStrategy::ExistingTests);
        strategies.push(VerificationStrategy::UnitTests);
        strategies.push(VerificationStrategy::PropertyTests);
        strategies.push(VerificationStrategy::Fuzzing);
        strategies.push(VerificationStrategy::DifferentialTests);
        strategies.push(VerificationStrategy::MutationChecks);
        strategies.push(VerificationStrategy::CoverageFeedback);
        assert(strategies@ =~= all_strategies());
        DeterministicPlanner { config, strategies }
    }

    /// The plan for a target.
    pub fn make_plan(&self, target: &VerificationTarget) -> (r: VerificationPlan)
        ensures
            r.deep_view() == plan_for(
                self.config.deep_view(),
                self.strategies@,
                target.deep_view(),
            ),
    {
        VerificationPlan {
            target_id: target.id.clone(),
            strategies: clone_verification_strategies(&self.strategies),
            budget_seconds: self.config.budget_seconds,
            write_generated_tests: self.config.write_generated_tests,
            run_existing_tests: true,
            run_generated_tests: true,
            fail_on_generated_test_failure: self.config.fail_on_generated_test_failure,
        }
    }
}

impl VerificationPlanner for DeterministicPlanner {
    fn plan(&self, project: &ProjectInfo, target: &VerificationTarget) -> (r: Result<
        VerificationPlan,
        String,
    >)
        ensures
            plan_view(r) == Ok::<VerificationPlanModel, Seq<char>>(
                plan_for(self.config.deep_view(), self.strategies@, target.deep_view()),
            ),
    {
        Ok(self.make_plan(target))
    }
}

// ---------------------------------------------------------------------------
// The external planner
// ---------------------------------------------------------------------------
/// A planner that asks a command, within what a deterministic planner allows.
pub struct ExternalLlmPlanner {
    pub command: String,
    pub fail_on_error: bool,
    pub fallback: DeterministicPlanner,
}

/// What an external planner has to keep to.
pub open spec fn constraints_document(
    max_budget_seconds: u64,
    allowed: Seq<VerificationStrategy>,
) -> JsonModel {
    JsonModel::Object(
        seq![
            ("max_budget_seconds"@, JsonModel::Number(decimal(max_budget_seconds as int))),
            ("allowed_strategies"@, JsonModel::Array(verification_strategy_documents(allowed))),
            ("run_scope"@, JsonModel::Text("selected_target_only"@)),
            ("safety_notes"@, texts_model(
                seq![
                    "Do not broaden target scope beyond the provided target."@,
                    "Do not request unbounded fuzzing, mutation, or coverage."@,
                    "Return JSON only; commands are executed by veritas, not by the planner."@,
                ],
            )),
        ],
    )
}

fn constraints_json(max_budget_seconds: u64, allowed: &Vec<VerificationStrategy>) -> (r: Json)
    ensures
        r.deep_view() == constraints_document(max_budget_seconds, allowed@),
{
    let mut members = Members::new();
    members.put("max_budget_seconds", number(max_budget_seconds));
    members.put("allowed_strategies", verification_strategy_list(allowed));
    members.put("run_scope", text("selected_target_only"));
    members.put("safety_notes", texts(&texts_of3(
        "Do not broaden target scope beyond the provided target.",
        "Do not request unbounded fuzzing, mutation, or coverage.",
        "Return JSON only; commands are executed by veritas, not by the planner.",
    )));
    assert(members.model() =~= constraints_document(max_budget_seconds, allowed@)->Object_0);
    members.finish()
}

/// What an external planner is asked.
pub open spec fn planner_request_document(
    project: ProjectInfoModel,
    target: VerificationTargetModel,
    default_plan: VerificationPlanModel,
    allowed: Seq<VerificationStrategy>,
) -> JsonModel {
    JsonModel::Object(
        seq![
            ("project"@, project_info_document(project)),
            ("target"@, verification_target_document(target)),
            ("default_plan"@, verification_plan_document(default_plan)),
            ("constraints"@, constraints_document(default_plan.budget_seconds, allowed)),
        ],
    )
}

fn planner_request_json(
    project: &ProjectInfo,
    target: &VerificationTarget,
    default_plan: &VerificationPlan,
    allowed: &Vec<VerificationStrategy>,
) -> (r: Json)
    ensures
        r.deep_view() == planner_request_document(project.deep_view(), target.deep_view(), default_plan.deep_view(), allowed@),
{
    let mut members = Members::new();
    members.put("project", project_info_json(project));
    members.put("target", verification_target_json(target));
    members.put("default_plan", verification_plan_json(default_plan));
    members.put("constraints", constraints_json(default_plan.budget_seconds, allowed));
    assert(members.model() =~= planner_request_document(project.deep_view(), target.deep_view(), default_plan.deep_view(), allowed@)->Object_0);
    members.finish()
}

/// The strategies among some that are allowed.
pub open spec fn allowed_of(
    items: Seq<VerificationStrategy>,
    allowed: Seq<VerificationStrategy>,
) -> Seq<VerificationStrategy> {
    items.filter(|s: VerificationStrategy| allowed.contains(s))
}

/// Whether a strategy is among some.
pub fn has_strategy(items: &Vec<VerificationStrategy>, wanted: VerificationStrategy) -> (r: bool)
    ensures
        r == items@.contains(wanted),
{
    let mut i: usize = 0;
    while i < items.len()
        invariant
            i <= items@.len(),
            forall|k: int| 0 <= k < i ==> #[trigger] items@[k] != wanted,
        decreases items@.len() - i,
    {
        if items[i] == wanted {
            return true;
        }
        i = i + 1;
    }
    false
}

fn keep_allowed(items: &Vec<VerificationStrategy>, allowed: &Vec<VerificationStrategy>) -> (r: Vec<
    VerificationStrategy,
>)
    ensures
        r@ == allowed_of(items@, allowed@),
{
    let ghost keep = |s: VerificationStrategy| allowed@.contains(s);
    let mut out: Vec<VerificationStrategy> = Vec::new();
    let mut i: usize = 0;
    reveal(Seq::filter);
    assert(items@.take(0).filter(keep) =~= Seq::empty());
    while i < items.len()
        invariant
            i <= items@.len(),
            keep == (|s: VerificationStrategy| allowed@.contains(s)),
            out@ == items@.take(i as int).filter(keep),
        decreases items@.len() - i,
    {
        proof {
            reveal(Seq::filter);
            lemma_take_next(items@, i as int);
        }
        if has_strategy(allowed, items[i]) {
            out.push(items[i]);
        }
        i = i + 1;
    }
    proof {
        lemma_take_all(items@);
    }
    out
}

/// A plan brought within what the default plan allows: for its target, within its
/// budget, with allowed strategies, or those of the default where none is left.
pub open spec fn constrained(
    default_plan: VerificationPlanModel,
    plan: VerificationPlanModel,
    allowed: Seq<VerificationStrategy>,
) -> VerificationPlanModel {
    let kept = allowed_of(plan.strategies, allowed);
    VerificationPlanModel {
        target_id: default_plan.target_id,
        strategies: if kept.len() == 0 {
            default_plan.strategies
        } else {
            kept
        },
        budget_seconds: if plan.budget_seconds < default_plan.budget_seconds {
            plan.budget_seconds
        } else {
            default_plan.budget_seconds
        },
        write_generated_tests: default_plan.write_generated_tests && plan.write_generated_tests,
        run_existing_tests: plan.run_existing_tests,
        run_generated_tests: plan.run_generated_tests,
        fail_on_generated_test_failure: default_plan.fail_on_generated_test_failure,
    }
}

/// The plan that an answer holds, by the document of the answer: the plan itself, or
/// what it has under `plan`. It fails where the document is no answer.
pub open spec fn answered_plan(value: JsonModel) -> Option<Option<VerificationPlanModel>> {
    match verification_plan_in(value) {
        Some(plan) => Some(Some(plan)),
        None => {
            let record = as_record(value, seq!["plan"@]);
            if record is Object {
                optional_verification_plan_at(record, "plan"@)
            } else {
                None
            }
        },
    }
}

/// The plan that an answer holds, by the document of the answer.
pub fn plan_in_answer(value: &Json) -> (r: Option<Option<VerificationPlan>>)
    ensures
        r.deep_view() == answered_plan(value.deep_view()),
{
    match read_verification_plan(value) {
        Some(plan) => Some(Some(plan)),
        None => {
            let names = vec!["plan"];
            assert(names.deep_view() =~= seq!["plan"@]);
            match named_fields(value, &names) {
                Some(record) => read_optional_verification_plan_at(&record, "plan"),
                None => match value {
                    Json::Object(_) => read_optional_verification_plan_at(value, "plan"),
                    _ => None,
                },
            }
        },
    }
}

/// What the output of a planner command says: no plan where it is blank, and an error
/// where it is no answer.
pub open spec fn planner_answer(stdout: Seq<char>) -> Result<Option<VerificationPlanModel>, Seq<
    char,
>> {
    if trimmed(stdout).len() == 0 {
        Ok(None)
    } else {
        match exact_json(stdout) {
            Some(value) => match answered_plan(value) {
                Some(plan) => Ok(plan),
                None => Err("planner command returned invalid JSON"@),
            },
            None => Err("planner command returned invalid JSON"@),
        }
    }
}

/// The value of an answer.
pub open spec fn answer_view(r: Result<Option<VerificationPlan>, String>) -> Result<
    Option<VerificationPlanModel>,
    Seq<char>,
> {
    match r {
        Ok(plan) => Ok(plan.deep_view()),
        Err(message) => Err(message@),
    }
}

/// Reads the output of a planner command.
pub fn read_planner_answer(stdout: &str) -> (r: Result<Option<VerificationPlan>, String>)
    ensures
        answer_view(r) == planner_answer(stdout@),
{
    if trim(stdout).as_str().is_empty() {
        return Ok(None);
    }
    match parse_exact(stdout) {
        Some(value) => match plan_in_answer(&value) {
            Some(plan) => Ok(plan),
            None => Err(owned("planner command returned invalid JSON")),
        },
        None => Err(owned("planner command returned invalid JSON")),
    }
}

impl ExternalLlmPlanner {
    /// What the planner is asked, on one line.
    pub fn request(&self, project: &ProjectInfo, target: &VerificationTarget) -> (r: String)
        ensures
            r@ == compact_json(
                planner_request_document(
                    project.deep_view(),
                    target.deep_view(),
                    plan_for(
                        self.fallback.config.deep_view(),
                        self.fallback.strategies@,
                        target.deep_view(),
                    ),
                    self.fallback.strategies@,
                ),
            ),
    {
        let default_plan = self.fallback.make_plan(target);
        compact(&planner_request_json(project, target, &default_plan, &self.fallback.strategies))
    }

    /// A plan brought within what the default plan allows.
    pub fn constrain_plan(&self, default_plan: VerificationPlan, plan: VerificationPlan) -> (r:
        VerificationPlan)
        ensures
            r.deep_view() == constrained(
                default_plan.deep_view(),
                plan.deep_view(),
                self.fallback.strategies@,
            ),
    {
        let kept = keep_allowed(&plan.strategies, &self.fallback.strategies);
        VerificationPlan {
            target_id: default_plan.target_id,
            strategies: if kept.len() == 0 {
                default_plan.strategies
            } else {
                kept
            },
            budget_seconds: if plan.budget_seconds < default_plan.budget_seconds {
                plan.budget_seconds
            } else {
                default_plan.budget_seconds
            },
            write_generated_tests: default_plan.write_generated_tests
                && plan.write_generated_tests,
            run_existing_tests: plan.run_existing_tests,
            run_generated_tests: plan.run_generated_tests,
            fail_on_generated_test_failure: default_plan.fail_on_generated_test_failure,
        }
    }

    /// The plan after the command has answered: the one it gave, within what is allowed;
    /// the default where it gave none; and where it failed, its error or the default.
    pub fn plan_from_answer(
        &self,
        target: &VerificationTarget,
        answer: Result<Option<VerificationPlan>, String>,
    ) -> (r: Result<VerificationPlan, String>)
        ensures
            plan_view(r) == plan_after(
                plan_for(
                    self.fallback.config.deep_view(),
                    self.fallback.strategies@,
                    target.deep_view(),
                ),
                self.fallback.strategies@,
                self.fail_on_error,
                answer_view(answer),
            ),
    {
        let default_plan = self.fallback.make_plan(target);
        match answer {
            Ok(Some(plan)) => Ok(self.constrain_plan(default_plan, plan)),
            Ok(None) => Ok(default_plan),
            Err(message) => if self.fail_on_error {
                Err(message)
            } else {
                Ok(default_plan)
            },
        }
    }
}

/// The plan after an external planner has answered.
pub open spec fn plan_after(
    default_plan: VerificationPlanModel,
    allowed: Seq<VerificationStrategy>,
    fail_on_error: bool,
    answer: Result<Option<VerificationPlanModel>, Seq<char>>,
) -> Result<VerificationPlanModel, Seq<char>> {
    match answer {
        Ok(Some(plan)) => Ok(constrained(default_plan, plan, allowed)),
        Ok(None) => Ok(default_plan),
        Err(message) => if fail_on_error {
            Err(message)
        } else {
            Ok(default_plan)
        },
    }
}

/// An external planner cannot go beyond the default plan: it keeps the target, does not
/// raise the budget, uses allowed strategies only, and cannot make files be written or
/// failures be forgiven against the configuration.
pub proof fn law_external_plans_stay_within_the_default(
    default_plan: VerificationPlanModel,
    plan: VerificationPlanModel,
    allowed: Seq<VerificationStrategy>,
)
    requires
        forall|i: int|
            0 <= i < default_plan.strategies.len() ==> allowed.contains(
                #[trigger] default_plan.strategies[i],
            ),
    ensures
        ({
            let r = constrained(default_plan, plan, allowed);
            &&& r.target_id == default_plan.target_id
            &&& r.budget_seconds <= default_plan.budget_seconds
            &&& forall|i: int|
                0 <= i < r.strategies.len() ==> allowed.contains(#[trigger] r.strategies[i])
            &&& r.write_generated_tests ==> default_plan.write_generated_tests
            &&& r.fail_on_generated_test_failure == default_plan.fail_on_generated_test_failure
            &&& default_plan.strategies.len() > 0 ==> r.strategies.len() > 0
        }),
{
    let keep = |s: VerificationStrategy| allowed.contains(s);
    let kept = allowed_of(plan.strategies, allowed);
    assert forall|i: int| 0 <= i < kept.len() implies allowed.contains(#[trigger] kept[i]) by {
        plan.strategies.lemma_filter_pred(keep, i);
    }
}

/// The default plan of a deterministic planner is within what it allows.
pub proof fn law_default_plan_is_allowed(
    config: VeritasConfigModel,
    strategies: Seq<VerificationStrategy>,
    target: VerificationTargetModel,
)
    ensures
        forall|i: int|
            0 <= i < plan_for(config, strategies, target).strategies.len() ==> strategies.contains(
                #[trigger] plan_for(config, strategies, target).strategies[i],
            ),
{
}

/// Whether a configuration asks for an external planner, and which command.
pub open spec fn external_command(config: VeritasConfigModel) -> Option<Seq<char>> {
    if config.planner.mode == PlannerMode::ExternalLlm {
        config.planner.command
    } else {
        None
    }
}

/// The external planner of a configuration that asks for one.
pub fn external_planner(config: &VeritasConfig) -> (r: Option<ExternalLlmPlanner>)
    ensures
        r is Some == (external_command(config.deep_view()) is Some),
        r matches Some(planner) ==> {
            &&& external_command(config.deep_view()) == Some(planner.command@)
            &&& planner.fail_on_error == config.planner.fail_on_error
            &&& planner.fallback.config.deep_view() == config.deep_view()
            &&& planner.fallback.strategies@ == all_strategies()
        },
{
    if config.planner.mode != PlannerMode::ExternalLlm {
        return None;
    }
    match &config.planner.command {
        Some(command) => Some(
            ExternalLlmPlanner {
                command: command.clone(),
                fail_on_error: config.planner.fail_on_error,
                fallback: DeterministicPlanner::new(config.clone()),
            },
        ),
        None => None,
    }
}

} // verus!
