//! What findings and percentages make a run fail, and which language is meant.
use vstd::prelude::*;

use crate::api::{
    ArtifactKind, Failure, FailureModel, FailureSeverity, GeneratedArtifactModel, RiskLevel,
    VerificationReport, VerificationReportModel, VerificationStrategy, VerificationTargetModel,
};
use crate::config::{
    ci_config, default_config, PolicyConfigModel, VerifyProfile, VeritasConfig, VeritasConfigModel,
};
use crate::evolve::{find_target, target_from};
use crate::findings::{finding_language, target_language};
use crate::generated::{artifact_from, find_artifact};
use crate::metrics::MutationMetricsModel;
use crate::number::{decimal, print_u8, print_usize};
use crate::paths::{extension, path_extension};
use crate::seqs::{lemma_take_all, lemma_take_next};
use crate::text::{find_char_from, list_has, owned, same};

verus! {

// ---------------------------------------------------------------------------
// What a report says of a finding
// ---------------------------------------------------------------------------
/// The artifact of a finding, where the report has it.
pub open spec fn artifact_of_finding(
    report: VerificationReportModel,
    finding: FailureModel,
) -> Option<GeneratedArtifactModel> {
    match finding.artifact_id {
        Some(id) => match artifact_from(report.artifacts, id, 0) {
            Some(i) => Some(report.artifacts[i]),
            None => None,
        },
        None => None,
    }
}

fn find_finding_artifact(report: &VerificationReport, finding: &Failure) -> (r: Option<usize>)
    ensures
        match r {
            Some(i) => i < report.artifacts@.len() && artifact_of_finding(
                report.deep_view(),
                finding.deep_view(),
            ) == Some(report.artifacts@[i as int].deep_view()),
            None => artifact_of_finding(report.deep_view(), finding.deep_view()) is None,
        },
{
    match &finding.artifact_id {
        Some(id) => match find_artifact(&report.artifacts, id.as_str()) {
            Some(i) => {
                assert(report.artifacts.deep_view()[i as int] == report.artifacts@[i as int].deep_view());
                Some(i)
            },
            None => None,
        },
        None => None,
    }
}

/// The language of a finding: that of its target, or else that of its artifact.
pub open spec fn language_in_report(
    report: VerificationReportModel,
    finding: FailureModel,
) -> Option<Seq<char>> {
    match target_language(finding.target_id) {
        Some(language) => Some(language),
        None => match artifact_of_finding(report, finding) {
            Some(artifact) => Some(artifact.language),
            None => None,
        },
    }
}

/// The language of a finding: that of its target, or else that of its artifact.
pub fn finding_language_in(report: &VerificationReport, finding: &Failure) -> (r: Option<String>)
    ensures
        r.deep_view() == language_in_report(report.deep_view(), finding.deep_view()),
{
    match finding_language(finding) {
        Some(language) => Some(language),
        None => match find_finding_artifact(report, finding) {
            Some(i) => Some(owned(report.artifacts[i].language.as_str())),
            None => None,
        },
    }
}

/// The kind of the artifact of a finding.
pub fn finding_artifact_kind(report: &VerificationReport, finding: &Failure) -> (r: Option<
    ArtifactKind,
>)
    ensures
        r == match artifact_of_finding(report.deep_view(), finding.deep_view()) {
            Some(artifact) => Some(artifact.kind),
            None => None,
        },
{
    match find_finding_artifact(report, finding) {
        Some(i) => Some(report.artifacts[i].kind),
        None => None,
    }
}

/// The risk of the target of a finding, where the report has the target.
pub open spec fn risk_in_report(
    report: VerificationReportModel,
    finding: FailureModel,
) -> Option<RiskLevel> {
    match finding.target_id {
        Some(id) => match target_from(report.targets, id, 0) {
            Some(i) => Some(report.targets[i].risk),
            None => None,
        },
        None => None,
    }
}

/// The risk of the target of a finding, where the report has the target.
pub fn finding_target_risk(report: &VerificationReport, finding: &Failure) -> (r: Option<RiskLevel>)
    ensures
        r == risk_in_report(report.deep_view(), finding.deep_view()),
{
    match &finding.target_id {
        Some(id) => match find_target(&report.targets, id.as_str()) {
            Some(i) => {
                assert(report.targets.deep_view()[i as int] == report.targets@[i as int].deep_view());
                Some(report.targets[i].risk)
            },
            None => None,
        },
        None => None,
    }
}

// ---------------------------------------------------------------------------
// Policy
// ---------------------------------------------------------------------------
/// Whether a policy is about a finding: its severity is high enough, and its language, the
/// kind of its artifact and the risk of its target are among those that the policy lists,
/// wherever it lists any.
pub open spec fn is_policed(
    policy: PolicyConfigModel,
    report: VerificationReportModel,
    finding: FailureModel,
) -> bool {
    &&& finding.severity.rank() >= policy.fail_on_severity.rank()
    &&& policy.fail_on_languages.len() > 0 ==> match language_in_report(report, finding) {
        Some(language) => policy.fail_on_languages.contains(language),
        None => false,
    }
    &&& policy.fail_on_artifact_kinds.len() > 0 ==> match artifact_of_finding(report, finding) {
        Some(artifact) => policy.fail_on_artifact_kinds.contains(artifact.kind.label_text()),
        None => false,
    }
    &&& policy.fail_on_target_risks.len() > 0 ==> match risk_in_report(report, finding) {
        Some(risk) => policy.fail_on_target_risks.contains(risk),
        None => false,
    }
}

fn has_risk(risks: &Vec<RiskLevel>, wanted: RiskLevel) -> (r: bool)
    ensures
        r == risks@.contains(wanted),
{
    let mut i: usize = 0;
    while i < risks.len()
        invariant
            i <= risks@.len(),
            forall|k: int| 0 <= k < i ==> risks@[k] != wanted,
        decreases risks@.len() - i,
    {
        if risks[i] == wanted {
            return true;
        }
        i = i + 1;
    }
    false
}

/// Whether a policy is about a finding.
pub fn finding_matches_policy(
    config: &VeritasConfig,
    report: &VerificationReport,
    finding: &Failure,
) -> (r: bool)
    ensures
        r == is_policed(config.deep_view().policy, report.deep_view(), finding.deep_view()),
{
    let policy = &config.policy;
    assert(policy.fail_on_languages@.len() == policy.fail_on_languages.deep_view().len());
    assert(policy.fail_on_artifact_kinds@.len() == policy.fail_on_artifact_kinds.deep_view().len());
    if finding.severity.below(policy.fail_on_severity) {
        return false;
    }
    if policy.fail_on_languages.len() > 0 {
        match finding_language_in(report, finding) {
            Some(language) => {
                if !list_has(&policy.fail_on_languages, language.as_str()) {
                    return false;
                }
            },
            None => return false,
        }
    }
    if policy.fail_on_artifact_kinds.len() > 0 {
        match finding_artifact_kind(report, finding) {
            Some(kind) => {
                if !list_has(&policy.fail_on_artifact_kinds, kind.label()) {
                    return false;
                }
            },
            None => return false,
        }
    }
    if policy.fail_on_target_risks.len() > 0 {
        match finding_target_risk(report, finding) {
            Some(risk) => {
                if !has_risk(&policy.fail_on_target_risks, risk) {
                    return false;
                }
            },
            None => return false,
        }
    }
    true
}

/// Whether a finding fails a policy: the policy is about it, and it is not accepted.
pub open spec fn fails_policy(
    policy: PolicyConfigModel,
    report: VerificationReportModel,
    accepted: Seq<Seq<char>>,
    finding: FailureModel,
) -> bool {
    !(finding.id matches Some(id) && accepted.contains(id)) && is_policed(policy, report, finding)
}

fn is_failing(
    config: &VeritasConfig,
    report: &VerificationReport,
    accepted: &Vec<String>,
    finding: &Failure,
) -> (r: bool)
    ensures
        r == fails_policy(
            config.deep_view().policy,
            report.deep_view(),
            accepted.deep_view(),
            finding.deep_view(),
        ),
{
    if let Some(id) = &finding.id {
        if list_has(accepted, id.as_str()) {
            return false;
        }
    }
    finding_matches_policy(config, report, finding)
}

/// How many findings fail a policy.
pub open spec fn failing_count(
    items: Seq<FailureModel>,
    policy: PolicyConfigModel,
    report: VerificationReportModel,
    accepted: Seq<Seq<char>>,
) -> int
    decreases items.len(),
{
    if items.len() == 0 {
        0
    } else {
        failing_count(items.drop_last(), policy, report, accepted) + if fails_policy(policy, report, accepted, items.last()) {
            1int
        } else {
            0int
        }
    }
}

fn count_failing(
    items: &Vec<Failure>,
    config: &VeritasConfig,
    report: &VerificationReport,
    accepted: &Vec<String>,
) -> (r: usize)
    ensures
        r == failing_count(items.deep_view(), config.deep_view().policy, report.deep_view(), accepted.deep_view()),
        r <= items@.len(),
{
    let ghost all = items.deep_view();
    let mut n: usize = 0;
    let mut i: usize = 0;
    while i < items.len()
        invariant
            i <= items@.len(),
            n <= i,
            all == items.deep_view(),
            n == failing_count(all.take(i as int), config.deep_view().policy, report.deep_view(), accepted.deep_view()),
        decreases items@.len() - i,
    {
        proof {
            lemma_take_next(all, i as int);
        }
        if is_failing(config, report, accepted, &items[i]) {
            n = n + 1;
        }
        i = i + 1;
    }
    proof {
        lemma_take_all(all);
    }
    n
}

/// What is said of a percentage below its least value.
pub open spec fn score_below_text(name: Seq<char>, score: u8, least: u8) -> Seq<char> {
    let t = name
        + " "@
        + decimal(score as int)
        + "% is below policy minimum "@
        + decimal(least as int)
        + "%"@;
    t
}

fn score_below(name: &str, score: u8, least: u8) -> (r: String)
    ensures
        r@ == score_below_text(name@, score, least),
{
    let mut out = owned(name);
    out.append(" ");
    out.append(print_u8(score).as_str());
    out.append("% is below policy minimum ");
    out.append(print_u8(least).as_str());
    out.append("%");
    out
}

/// What is said of a percentage that is not known.
pub open spec fn score_missing_text(name: Seq<char>, least: u8) -> Seq<char> {
    let t = name
        + " was unavailable but policy minimum is "@
        + decimal(least as int)
        + "%"@;
    t
}

fn score_missing(name: &str, least: u8) -> (r: String)
    ensures
        r@ == score_missing_text(name@, least),
{
    let mut out = owned(name);
    out.append(" was unavailable but policy minimum is ");
    out.append(print_u8(least).as_str());
    out.append("%");
    out
}

/// What is said of findings that fail a policy.
pub open spec fn findings_failing_text(count: int) -> Seq<char> {
    let t = "verification produced "@ + decimal(count) + " policy-failing finding(s)"@;
    t
}

fn findings_failing(count: usize) -> (r: String)
    ensures
        r@ == findings_failing_text(count as int),
{
    let mut out = owned("verification produced ");
    out.append(print_usize(count).as_str());
    out.append(" policy-failing finding(s)");
    out
}

/// What is said of a percentage and its least value: nothing where it is kept or there is
/// none.
pub open spec fn percent_objection(
    name: Seq<char>,
    score: Option<u8>,
    least: Option<u8>,
) -> Option<Seq<char>> {
    match (least, score) {
        (Some(least), Some(score)) => if score < least {
            Some(score_below_text(name, score, least))
        } else {
            None
        },
        (Some(least), None) => Some(score_missing_text(name, least)),
        (None, _) => None,
    }
}

fn object_to_percent(name: &str, score: Option<u8>, least: Option<u8>) -> (r: Option<String>)
    ensures
        r.deep_view() == percent_objection(name@, score, least),
{
    match least {
        Some(least) => match score {
            Some(score) => if score < least {
                Some(score_below(name, score, least))
            } else {
                None
            },
            None => Some(score_missing(name, least)),
        },
        None => None,
    }
}

/// The share of the mutants that were killed, of those that matter for correctness where
/// that is known.
pub open spec fn policed_score(mutation: MutationMetricsModel) -> Option<u8> {
    match mutation.correctness_score_percent {
        Some(score) => Some(score),
        None => mutation.score_percent,
    }
}

/// What a policy objects to in a report: the first of a mutation score, an efficacy and a
/// coverage of mutants that are too low, and of findings that fail it.
pub open spec fn objection(
    config: VeritasConfigModel,
    report: VerificationReportModel,
    accepted: Seq<Seq<char>>,
) -> Option<Seq<char>> {
    let policy = config.policy;
    let mutation = report.quality.mutation;
    match percent_objection(
        "correctness mutation score"@,
        policed_score(mutation),
        policy.min_mutation_score,
    ) {
        Some(text) => Some(text),
        None => match percent_objection(
            "mutation efficacy"@,
            mutation.efficacy_percent,
            policy.min_mutation_efficacy,
        ) {
            Some(text) => Some(text),
            None => match percent_objection(
                "mutant coverage"@,
                mutation.mutant_coverage_percent,
                policy.min_mutant_coverage,
            ) {
                Some(text) => Some(text),
                None => {
                    let failing = failing_count(report.findings, policy, report, accepted);
                    if config.fail_on_findings && failing > 0 {
                        Some(findings_failing_text(failing))
                    } else {
                        None
                    }
                },
            },
        },
    }
}

/// Objects to a report that a policy does not let pass. `accepted` are the findings that
/// are accepted in its project.
pub fn enforce_failure_policy(
    config: &VeritasConfig,
    report: &VerificationReport,
    accepted: &Vec<String>,
) -> (r: Result<(), String>)
    ensures
        match objection(config.deep_view(), report.deep_view(), accepted.deep_view()) {
            Some(text) => r matches Err(message) && message@ == text,
            None => r is Ok,
        },
{
    let policy = &config.policy;
    let mutation = &report.quality.mutation;
    let score = match mutation.correctness_score_percent {
        Some(score) => Some(score),
        None => mutation.score_percent,
    };
    if let Some(text) = object_to_percent(
        "correctness mutation score",
        score,
        policy.min_mutation_score,
    ) {
        return Err(text);
    }
    if let Some(text) = object_to_percent(
        "mutation efficacy",
        mutation.efficacy_percent,
        policy.min_mutation_efficacy,
    ) {
        return Err(text);
    }
    if let Some(text) = object_to_percent(
        "mutant coverage",
        mutation.mutant_coverage_percent,
        policy.min_mutant_coverage,
    ) {
        return Err(text);
    }
    if config.fail_on_findings {
        let failing: usize = count_failing(&report.findings, config, report, accepted);
        if failing > 0 {
            return Err(findings_failing(failing));
        }
    }
    Ok(())
}

/// A report without findings passes a policy that asks for no percentages.
pub proof fn law_nothing_found_passes(
    config: VeritasConfigModel,
    report: VerificationReportModel,
    accepted: Seq<Seq<char>>,
)
    requires
        config.policy.min_mutation_score is None,
        config.policy.min_mutation_efficacy is None,
        config.policy.min_mutant_coverage is None,
        report.findings.len() == 0,
    ensures
        objection(config, report, accepted) is None,
{
}

/// A finding that is accepted fails no policy.
pub proof fn law_accepted_findings_pass(
    policy: PolicyConfigModel,
    report: VerificationReportModel,
    accepted: Seq<Seq<char>>,
    finding: FailureModel,
)
    requires
        finding.id matches Some(id) && accepted.contains(id),
    ensures
        !fails_policy(policy, report, accepted, finding),
{
}

/// Whether a percentage that must not be below `least` is below it or unknown.
pub open spec fn falls_short(score: Option<u8>, least: Option<u8>) -> bool {
    least is Some && (score is None || score->0 < least->0)
}

/// Whether a policy names no languages, artifact kinds or risks that findings must have.
pub open spec fn takes_any_finding(policy: PolicyConfigModel) -> bool {
    &&& policy.fail_on_languages.len() == 0
    &&& policy.fail_on_artifact_kinds.len() == 0
    &&& policy.fail_on_target_risks.len() == 0
}

proof fn lemma_some_finding_fails(
    items: Seq<FailureModel>,
    policy: PolicyConfigModel,
    report: VerificationReportModel,
    accepted: Seq<Seq<char>>,
)
    ensures
        failing_count(items, policy, report, accepted) == items.filter(
            |finding: FailureModel| fails_policy(policy, report, accepted, finding),
        ).len(),
        failing_count(items, policy, report, accepted) > 0 <==> exists|i: int|
            0 <= i < items.len() && fails_policy(policy, report, accepted, #[trigger] items[i]),
    decreases items.len(),
{
    reveal(Seq::filter);
    let fails = |finding: FailureModel| fails_policy(policy, report, accepted, finding);
    if items.len() > 0 {
        let rest = items.drop_last();
        lemma_some_finding_fails(rest, policy, report, accepted);
        assert(fails(items.last()) == fails_policy(policy, report, accepted, items.last()));
        if failing_count(rest, policy, report, accepted) > 0 {
            let i = choose|i: int|
                0 <= i < rest.len() && fails_policy(policy, report, accepted, #[trigger] rest[i]);
            assert(items[i] == rest[i]);
            assert(fails_policy(policy, report, accepted, items[i]));
        }
        if fails_policy(policy, report, accepted, items.last()) {
            assert(fails_policy(policy, report, accepted, items[items.len() - 1]));
        }
        if exists|i: int|
            0 <= i < items.len() && fails_policy(policy, report, accepted, #[trigger] items[i]) {
            let i = choose|i: int|
                0 <= i < items.len() && fails_policy(policy, report, accepted, #[trigger] items[i]);
            if i < rest.len() {
                assert(fails_policy(policy, report, accepted, rest[i]));
            }
        }
        assert(failing_count(rest, policy, report, accepted) >= 0);
    }
}

proof fn lemma_accepted(accepted: Seq<Seq<char>>, finding: FailureModel)
    ensures
        (exists|k: int| 0 <= k < accepted.len() && finding.id == Some(#[trigger] accepted[k])) == (
        finding.id matches Some(id) && accepted.contains(id)),
{
    if let Some(id) = finding.id {
        if accepted.contains(id) {
            let k = choose|k: int| 0 <= k < accepted.len() && accepted[k] == id;
            assert(finding.id == Some(accepted[k]));
        }
    }
}

/// A finding that is not accepted, and whose severity is the one that the policy fails on or
/// a higher one, fails a policy that takes any finding.
pub proof fn law_severe_findings_fail(
    config: VeritasConfigModel,
    report: VerificationReportModel,
    accepted: Seq<Seq<char>>,
    i: int,
)
    requires
        config.fail_on_findings,
        takes_any_finding(config.policy),
        0 <= i < report.findings.len(),
        (report.findings[i].severity == config.policy.fail_on_severity || report.findings[i].severity == FailureSeverity::Critical || config.policy.fail_on_severity == FailureSeverity::Info || (report.findings[i].severity == FailureSeverity::Error && config.policy.fail_on_severity == FailureSeverity::Warning)),
        !(exists|k: int| 0 <= k < accepted.len() && report.findings[i].id == Some(#[trigger] accepted[k])),
    ensures
        objection(config, report, accepted) is Some,
{
    lemma_accepted(accepted, report.findings[i]);
    lemma_some_finding_fails(report.findings, config.policy, report, accepted);
    assert(fails_policy(config.policy, report, accepted, report.findings[i]));
}

/// An error that is not accepted fails the default policy for continuous integration, and so
/// does a critical finding; a warning does not.
pub proof fn law_errors_fail_the_default_policy(
    report: VerificationReportModel,
    accepted: Seq<Seq<char>>,
)
    ensures
        objection(ci_config(default_config()), report, accepted) is Some <==> exists|i: int|
            0 <= i < report.findings.len() && (report.findings[i].severity
                == FailureSeverity::Error || report.findings[i].severity
                == FailureSeverity::Critical) && !(exists|k: int| 0 <= k < accepted.len() && report.findings[i].id == Some(#[trigger] accepted[k])),
{
    let config = ci_config(default_config());
    assert(takes_any_finding(config.policy));
    law_unlisted_policies_fail_on_severity(config, report, accepted);
    assert forall|i: int| 0 <= i < report.findings.len() implies (report.findings[i].severity == config.policy.fail_on_severity || report.findings[i].severity == FailureSeverity::Critical || config.policy.fail_on_severity == FailureSeverity::Info || (report.findings[i].severity == FailureSeverity::Error && config.policy.fail_on_severity == FailureSeverity::Warning)) == (report.findings[i].severity == FailureSeverity::Error || report.findings[i].severity
        == FailureSeverity::Critical) by {
    }
}

/// A policy that takes any finding objects to a report exactly where a percentage falls
/// short, or findings make a run fail and one that is not accepted is severe enough.
pub proof fn law_unlisted_policies_fail_on_severity(
    config: VeritasConfigModel,
    report: VerificationReportModel,
    accepted: Seq<Seq<char>>,
)
    requires
        takes_any_finding(config.policy),
    ensures
        ({
            let policy = config.policy;
            let mutation = report.quality.mutation;
            let score = if mutation.correctness_score_percent is Some {
                mutation.correctness_score_percent
            } else {
                mutation.score_percent
            };
            objection(config, report, accepted) is Some <==> falls_short(
                score,
                policy.min_mutation_score,
            ) || falls_short(mutation.efficacy_percent, policy.min_mutation_efficacy)
                || falls_short(mutation.mutant_coverage_percent, policy.min_mutant_coverage) || (
            config.fail_on_findings && exists|i: int|
                0 <= i < report.findings.len() && (report.findings[i].severity == policy.fail_on_severity || report.findings[i].severity == FailureSeverity::Critical || policy.fail_on_severity == FailureSeverity::Info || (report.findings[i].severity == FailureSeverity::Error && policy.fail_on_severity == FailureSeverity::Warning)) && !(exists|k: int| 0 <= k < accepted.len() && report.findings[i].id == Some(#[trigger] accepted[k])))
        }),
{
    lemma_some_finding_fails(report.findings, config.policy, report, accepted);
    assert forall|i: int| 0 <= i < report.findings.len() implies ((report.findings[i].severity == config.policy.fail_on_severity || report.findings[i].severity == FailureSeverity::Critical || config.policy.fail_on_severity == FailureSeverity::Info || (report.findings[i].severity == FailureSeverity::Error && config.policy.fail_on_severity == FailureSeverity::Warning)) && !(exists|k: int| 0 <= k < accepted.len() && report.findings[i].id == Some(#[trigger] accepted[k]))) == fails_policy(
        config.policy,
        report,
        accepted,
        report.findings[i],
    ) by {
        lemma_accepted(accepted, report.findings[i]);
    }
}

/// Whatever a policy lists, a finding fails it only where it is severe enough and not
/// accepted, a longer list of accepted findings fails no more, and a percentage that falls
/// short fails it in any case.
pub proof fn law_no_list_makes_a_policy_stricter(
    config: VeritasConfigModel,
    report: VerificationReportModel,
    accepted: Seq<Seq<char>>,
    more: Seq<Seq<char>>,
)
    ensures
        forall|i: int|
            0 <= i < report.findings.len() && fails_policy(
                config.policy,
                report,
                accepted,
                #[trigger] report.findings[i],
            ) ==> (report.findings[i].severity == config.policy.fail_on_severity || report.findings[i].severity == FailureSeverity::Critical || config.policy.fail_on_severity == FailureSeverity::Info || (report.findings[i].severity == FailureSeverity::Error && config.policy.fail_on_severity == FailureSeverity::Warning))
                && !(exists|k: int| 0 <= k < accepted.len() && report.findings[i].id == Some(#[trigger] accepted[k])),
        objection(config, report, accepted + more) is Some ==> objection(config, report, accepted)
            is Some,
        falls_short(report.quality.mutation.efficacy_percent, config.policy.min_mutation_efficacy)
            ==> objection(config, report, accepted) is Some,
        falls_short(
            report.quality.mutation.mutant_coverage_percent,
            config.policy.min_mutant_coverage,
        ) ==> objection(config, report, accepted) is Some,
        report.quality.mutation.correctness_score_percent is Some && falls_short(
            report.quality.mutation.correctness_score_percent,
            config.policy.min_mutation_score,
        ) ==> objection(config, report, accepted) is Some,
        report.quality.mutation.correctness_score_percent is None && falls_short(
            report.quality.mutation.score_percent,
            config.policy.min_mutation_score,
        ) ==> objection(config, report, accepted) is Some,
{
    let policy = config.policy;
    assert forall|i: int|
        0 <= i < report.findings.len() && fails_policy(
            policy,
            report,
            accepted,
            #[trigger] report.findings[i],
        ) implies (report.findings[i].severity == policy.fail_on_severity || report.findings[i].severity == FailureSeverity::Critical || policy.fail_on_severity == FailureSeverity::Info || (report.findings[i].severity == FailureSeverity::Error && policy.fail_on_severity == FailureSeverity::Warning))
        && !(exists|k: int| 0 <= k < accepted.len() && report.findings[i].id == Some(#[trigger] accepted[k])) by {
        lemma_accepted(accepted, report.findings[i]);
    }
    lemma_some_finding_fails(report.findings, policy, report, accepted);
    lemma_some_finding_fails(report.findings, policy, report, accepted + more);
    assert forall|i: int|
        0 <= i < report.findings.len() && fails_policy(
            policy,
            report,
            accepted + more,
            #[trigger] report.findings[i],
        ) implies fails_policy(policy, report, accepted, report.findings[i]) by {
        if let Some(id) = report.findings[i].id {
            if accepted.contains(id) {
                let k = choose|k: int| 0 <= k < accepted.len() && accepted[k] == id;
                assert((accepted + more)[k] == id);
            }
        }
    }
}

/// A policy that takes any finding and asks for no percentage says how many findings are
/// severe enough and not accepted.
pub proof fn law_failing_findings_are_counted(
    config: VeritasConfigModel,
    report: VerificationReportModel,
    accepted: Seq<Seq<char>>,
)
    requires
        config.fail_on_findings,
        takes_any_finding(config.policy),
        config.policy.min_mutation_score is None,
        config.policy.min_mutation_efficacy is None,
        config.policy.min_mutant_coverage is None,
    ensures
        ({
            let failing = report.findings.filter(
                |finding: FailureModel|
                    (finding.severity == config.policy.fail_on_severity || finding.severity == FailureSeverity::Critical || config.policy.fail_on_severity == FailureSeverity::Info || (finding.severity == FailureSeverity::Error && config.policy.fail_on_severity == FailureSeverity::Warning)) && !(exists|k: int| 0 <= k < accepted.len() && finding.id == Some(#[trigger] accepted[k])),
            ).len() as int;
            objection(config, report, accepted) == if failing > 0 {
                Some("verification produced "@ + decimal(failing) + " policy-failing finding(s)"@)
            } else {
                None
            }
        }),
{
    lemma_severe_count(report.findings, config.policy, report, accepted);
}

proof fn lemma_severe_count(
    items: Seq<FailureModel>,
    policy: PolicyConfigModel,
    report: VerificationReportModel,
    accepted: Seq<Seq<char>>,
)
    requires
        takes_any_finding(policy),
    ensures
        failing_count(items, policy, report, accepted) == items.filter(
            |finding: FailureModel|
                (finding.severity == policy.fail_on_severity || finding.severity == FailureSeverity::Critical || policy.fail_on_severity == FailureSeverity::Info || (finding.severity == FailureSeverity::Error && policy.fail_on_severity == FailureSeverity::Warning)) && !(exists|k: int| 0 <= k < accepted.len() && finding.id == Some(#[trigger] accepted[k])),
        ).len(),
    decreases items.len(),
{
    reveal(Seq::filter);
    if items.len() > 0 {
        lemma_severe_count(items.drop_last(), policy, report, accepted);
        lemma_accepted(accepted, items.last());
    }
}

/// A policy that lists languages fails on no finding whose target id starts with another
/// one, and on every unaccepted and severe one whose target id starts with one of them.
pub proof fn law_listed_languages_fail(
    config: VeritasConfigModel,
    report: VerificationReportModel,
    accepted: Seq<Seq<char>>,
    i: int,
    language: Seq<char>,
    rest: Seq<char>,
)
    requires
        config.fail_on_findings,
        config.policy.fail_on_languages.len() > 0,
        config.policy.fail_on_artifact_kinds.len() == 0,
        config.policy.fail_on_target_risks.len() == 0,
        0 <= i < report.findings.len(),
        !language.contains(':'),
        report.findings[i].target_id == Some(language + seq![':'] + rest),
        (report.findings[i].severity == config.policy.fail_on_severity || report.findings[i].severity == FailureSeverity::Critical || config.policy.fail_on_severity == FailureSeverity::Info || (report.findings[i].severity == FailureSeverity::Error && config.policy.fail_on_severity == FailureSeverity::Warning)),
        !(exists|k: int| 0 <= k < accepted.len() && report.findings[i].id == Some(#[trigger] accepted[k])),
    ensures
        config.policy.fail_on_languages.contains(language) ==> objection(config, report, accepted)
            is Some,
        config.policy.fail_on_languages.contains(language) == fails_policy(
            config.policy,
            report,
            accepted,
            report.findings[i],
        ),
{
    let id = language + seq![':'] + rest;
    lemma_first_char(id, ':', language.len() as int, 0);
    assert(id.take(language.len() as int) =~= language);
    lemma_accepted(accepted, report.findings[i]);
    lemma_some_finding_fails(report.findings, config.policy, report, accepted);
}

proof fn lemma_first_char(s: Seq<char>, c: char, at: int, from: int)
    requires
        0 <= from <= at < s.len(),
        s[at] == c,
        forall|k: int| from <= k < at ==> s[k] != c,
    ensures
        find_char_from(s, c, from) == Some(at),
    decreases at - from,
{
    if from < at {
        lemma_first_char(s, c, at, from + 1);
    }
}

/// A policy that lists risks fails on an unaccepted and severe finding exactly where the one
/// target of the report with the id that the finding names has one of them.
pub proof fn law_listed_risks_fail(
    config: VeritasConfigModel,
    report: VerificationReportModel,
    accepted: Seq<Seq<char>>,
    i: int,
    t: int,
)
    requires
        config.fail_on_findings,
        config.policy.fail_on_languages.len() == 0,
        config.policy.fail_on_artifact_kinds.len() == 0,
        config.policy.fail_on_target_risks.len() > 0,
        0 <= i < report.findings.len(),
        0 <= t < report.targets.len(),
        report.findings[i].target_id == Some(report.targets[t].id),
        forall|k: int|
            0 <= k < report.targets.len() && k != t ==> (#[trigger] report.targets[k]).id
                != report.targets[t].id,
        (report.findings[i].severity == config.policy.fail_on_severity || report.findings[i].severity == FailureSeverity::Critical || config.policy.fail_on_severity == FailureSeverity::Info || (report.findings[i].severity == FailureSeverity::Error && config.policy.fail_on_severity == FailureSeverity::Warning)),
        !(exists|k: int| 0 <= k < accepted.len() && report.findings[i].id == Some(#[trigger] accepted[k])),
    ensures
        config.policy.fail_on_target_risks.contains(report.targets[t].risk) ==> objection(
            config,
            report,
            accepted,
        ) is Some,
        config.policy.fail_on_target_risks.contains(report.targets[t].risk) == fails_policy(
            config.policy,
            report,
            accepted,
            report.findings[i],
        ),
{
    lemma_only_target(report.targets, t, 0);
    lemma_accepted(accepted, report.findings[i]);
    lemma_some_finding_fails(report.findings, config.policy, report, accepted);
}

proof fn lemma_only_target(targets: Seq<VerificationTargetModel>, t: int, from: int)
    requires
        0 <= from <= t < targets.len(),
        forall|k: int| 0 <= k < targets.len() && k != t ==> (#[trigger] targets[k]).id
            != targets[t].id,
    ensures
        target_from(targets, targets[t].id, from) == Some(t),
    decreases t - from,
{
    if from < t {
        assert(targets[from].id != targets[t].id);
        lemma_only_target(targets, t, from + 1);
    }
}

/// A policy that lists artifact kinds fails on an unaccepted and severe finding exactly where
/// the one artifact of the report with the id that the finding names is of one of them.
pub proof fn law_listed_kinds_fail(
    config: VeritasConfigModel,
    report: VerificationReportModel,
    accepted: Seq<Seq<char>>,
    i: int,
    a: int,
)
    requires
        config.fail_on_findings,
        config.policy.fail_on_languages.len() == 0,
        config.policy.fail_on_artifact_kinds.len() > 0,
        config.policy.fail_on_target_risks.len() == 0,
        0 <= i < report.findings.len(),
        0 <= a < report.artifacts.len(),
        report.findings[i].artifact_id == Some(report.artifacts[a].id),
        forall|k: int|
            0 <= k < report.artifacts.len() && k != a ==> (#[trigger] report.artifacts[k]).id
                != report.artifacts[a].id,
        (report.findings[i].severity == config.policy.fail_on_severity || report.findings[i].severity == FailureSeverity::Critical || config.policy.fail_on_severity == FailureSeverity::Info || (report.findings[i].severity == FailureSeverity::Error && config.policy.fail_on_severity == FailureSeverity::Warning)),
        !(exists|k: int| 0 <= k < accepted.len() && report.findings[i].id == Some(#[trigger] accepted[k])),
    ensures
        ({
            let label = report.artifacts[a].kind.label_text();
            &&& config.policy.fail_on_artifact_kinds.contains(label) ==> objection(
                config,
                report,
                accepted,
            ) is Some
            &&& config.policy.fail_on_artifact_kinds.contains(label) == fails_policy(
                config.policy,
                report,
                accepted,
                report.findings[i],
            )
        }),
{
    lemma_only_artifact(report.artifacts, a, 0);
    lemma_accepted(accepted, report.findings[i]);
    lemma_some_finding_fails(report.findings, config.policy, report, accepted);
}

proof fn lemma_only_artifact(artifacts: Seq<GeneratedArtifactModel>, a: int, from: int)
    requires
        0 <= from <= a < artifacts.len(),
        forall|k: int| 0 <= k < artifacts.len() && k != a ==> (#[trigger] artifacts[k]).id
            != artifacts[a].id,
    ensures
        artifact_from(artifacts, artifacts[a].id, from) == Some(a),
    decreases a - from,
{
    if from < a {
        assert(artifacts[from].id != artifacts[a].id);
        lemma_only_artifact(artifacts, a, from + 1);
    }
}

// ---------------------------------------------------------------------------
// Languages
// ---------------------------------------------------------------------------
/// Which files stand at the root of a project, and whether scripts stand somewhere below it.
#[derive(Debug, Clone, Copy, PartialEq, Eq, Structural)]
pub struct RootFiles {
    pub cargo_toml: bool,
    pub go_mod: bool,
    pub pyproject_toml: bool,
    pub setup_py: bool,
    pub setup_cfg: bool,
    pub requirements_txt: bool,
    pub package_json: bool,
    pub tsconfig_json: bool,
    pub jsconfig_json: bool,
    pub scripts: bool,
}

impl Default for RootFiles {
    fn default() -> (r: Self)
        ensures
            r == (RootFiles {
                cargo_toml: false,
                go_mod: false,
                pyproject_toml: false,
                setup_py: false,
                setup_cfg: false,
                requirements_txt: false,
                package_json: false,
                tsconfig_json: false,
                jsconfig_json: false,
                scripts: false,
            }),
    {
        RootFiles {
            cargo_toml: false,
            go_mod: false,
            pyproject_toml: false,
            setup_py: false,
            setup_cfg: false,
            requirements_txt: false,
            package_json: false,
            tsconfig_json: false,
            jsconfig_json: false,
            scripts: false,
        }
    }
}

/// Whether an extension is that of a script.
pub open spec fn is_script_extension(extension: Option<Seq<char>>) -> bool {
    match extension {
        Some(e) => e == "ts"@ || e == "tsx"@ || e == "js"@ || e == "jsx"@ || e == "mjs"@ || e == "cjs"@,
        None => false,
    }
}

/// Whether a path is that of a script.
pub fn is_script_file(path: &str) -> (r: bool)
    ensures
        r == is_script_extension(path_extension(path@)),
{
    match extension(path) {
        Some(e) => same(e.as_str(), "ts") || same(e.as_str(), "tsx") || same(e.as_str(), "js") || same(e.as_str(), "jsx") || same(e.as_str(), "mjs") || same(e.as_str(), "cjs"),
        None => false,
    }
}

/// Whether scripts are not looked for under a name.
pub open spec fn hides_scripts(name: Seq<char>) -> bool {
    ||| name == ".git"@
    ||| name == ".veritas"@
    ||| name == "node_modules"@
    ||| name == "dist"@
    ||| name == "build"@
    ||| name == "coverage"@
    ||| name == ".next"@
    ||| name == ".nuxt"@
    ||| name == "target"@
}

/// Whether scripts are not looked for under a name.
pub fn skips_script_search(name: &str) -> (r: bool)
    ensures
        r == hides_scripts(name@),
{
    same(name, ".git") || same(name, ".veritas") || same(name, "node_modules") || same(name, "dist") || same(name, "build") || same(name, "coverage") || same(name, ".next") || same(name, ".nuxt") || same(name, "target")
}

/// Whether scripts are looked for in a directory so many directories below the root.
pub fn searches_for_scripts(depth: usize) -> (r: bool)
    ensures
        r == (depth <= 4),
{
    depth <= 4
}

/// The language of a file, by its extension.
pub open spec fn language_of_extension(extension: Option<Seq<char>>) -> Option<Seq<char>> {
    if extension == Some("rs"@) {
        Some("rust"@)
    } else if extension == Some("go"@) {
        Some("go"@)
    } else if extension == Some("py"@) {
        Some("python"@)
    } else if is_script_extension(extension) {
        Some("typescript"@)
    } else {
        None
    }
}

fn language_of_file(path: &str) -> (r: Option<String>)
    ensures
        r.deep_view() == language_of_extension(path_extension(path@)),
{
    match extension(path) {
        Some(e) => if same(e.as_str(), "rs") {
            Some(owned("rust"))
        } else if same(e.as_str(), "go") {
            Some(owned("go"))
        } else if same(e.as_str(), "py") {
            Some(owned("python"))
        } else if is_script_file(path) {
            Some(owned("typescript"))
        } else {
            None
        },
        None => None,
    }
}

/// Whether there is a project of scripts.
pub open spec fn has_script_project(files: RootFiles) -> bool {
    files.package_json || files.tsconfig_json || files.jsconfig_json || files.scripts
}

/// The language of a project, by the files at its root.
pub open spec fn language_of_project(
    strategy: VerificationStrategy,
    files: RootFiles,
) -> Option<Seq<char>> {
    if strategy == VerificationStrategy::Fuzzing && files.go_mod {
        Some("go"@)
    } else if files.cargo_toml {
        Some("rust"@)
    } else if files.go_mod {
        Some("go"@)
    } else if files.pyproject_toml || files.setup_py || files.setup_cfg {
        Some("python"@)
    } else if has_script_project(files) {
        Some("typescript"@)
    } else {
        None
    }
}

/// The language that is meant where none is named: that of the target, or else that of the
/// project.
pub open spec fn inferred_language(
    target: Option<Seq<char>>,
    strategy: VerificationStrategy,
    files: RootFiles,
) -> Option<Seq<char>> {
    let own = match target {
        Some(path) => language_of_extension(path_extension(path)),
        None => None,
    };
    match own {
        Some(language) => Some(language),
        None => language_of_project(strategy, files),
    }
}

/// The language that is meant where none is named; what is said where it cannot be told.
pub fn infer_language(
    target: &Option<String>,
    strategy: VerificationStrategy,
    files: RootFiles,
) -> (r: Result<String, String>)
    ensures
        match inferred_language(target.deep_view(), strategy, files) {
            Some(language) => r matches Ok(found) && found@ == language,
            None => r matches Err(message) && message@
                == "could not infer language; pass --lang rust, --lang go, --lang python, or --lang typescript"@,
        },
{
    if let Some(path) = target {
        if let Some(language) = language_of_file(path.as_str()) {
            return Ok(language);
        }
    }
    if strategy == VerificationStrategy::Fuzzing && files.go_mod {
        Ok(owned("go"))
    } else if files.cargo_toml {
        Ok(owned("rust"))
    } else if files.go_mod {
        Ok(owned("go"))
    } else if files.pyproject_toml || files.setup_py || files.setup_cfg {
        Ok(owned("python"))
    } else if files.package_json || files.tsconfig_json || files.jsconfig_json || files.scripts {
        Ok(owned("typescript"))
    } else {
        Err(
            owned(
                "could not infer language; pass --lang rust, --lang go, --lang python, or --lang typescript",
            ),
        )
    }
}

/// Whether a run verifies what changed: where that is asked for, and in continuous
/// integration.
pub open spec fn wants_changes(changed: bool, profile: Option<VerifyProfile>) -> bool {
    changed || match profile {
        Some(VerifyProfile::Ci) => true,
        None => false,
    }
}

/// Whether changed code and a target are both asked for.
pub open spec fn verify_conflict(
    changed: bool,
    profile: Option<VerifyProfile>,
    target: Option<Seq<char>>,
) -> bool {
    wants_changes(changed, profile) && target is Some
}

/// Whether a run verifies what changed: where that is asked for, and in continuous
/// integration. Changed code and a target cannot both be asked for.
pub fn verifies_changes(
    changed: bool,
    profile: Option<VerifyProfile>,
    target: &Option<String>,
) -> (r: Result<bool, String>)
    ensures
        if verify_conflict(changed, profile, target.deep_view()) {
            r matches Err(message) && message@ == "--changed cannot be combined with --target"@
        } else {
            r == Ok::<bool, String>(wants_changes(changed, profile))
        },
{
    let wanted = changed || match profile {
        Some(VerifyProfile::Ci) => true,
        None => false,
    };
    if wanted && target.is_some() {
        Err(owned("--changed cannot be combined with --target"))
    } else {
        Ok(wanted)
    }
}

} // verus!
