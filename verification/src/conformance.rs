//! Whether the plugins of languages keep to what is asked of plugins.
use vstd::prelude::*;

use crate::api::{
    push_verification_target, LineRange, ProjectInfo, ProjectInfoModel, TargetKind, TestRunResult,
    TestRunResultModel, VerificationReport, VerificationReportModel, VerificationTarget,
    VerificationTargetModel,
};
use crate::bench::{count_kind, targets_of_kind};
use crate::counts::{counts_of, label_count, label_counts, LabelCount, LabelCountModel};
use crate::engine::{ScanResult, ScanResultModel};
use crate::json::{number, text, texts, texts_model, Items, Json, JsonModel, Members};
use crate::metrics::{
    append_mutation_records, clone_mutation_records, MutationRecord, MutationRecordModel,
};
use crate::number::{decimal, print_usize};
use crate::order::{lemma_sorted_set_items, sorted_set, ByText};
use crate::output::{gives, print_document, printed, unsupported_format, OutputFormat};
use crate::paths::{is_absolute, rooted};
use crate::seqs::{lemma_take_all, lemma_take_next};
use crate::split::{push_text, trim, trimmed};
use crate::text::{clone_texts, list_has, owned, same};

verus! {

/// What was found of the plugin of a language.
#[derive(Debug, PartialEq, Eq)]
pub struct ConformancePluginReport {
    pub language: String,
    pub project: String,
    pub targets: usize,
    pub function_targets: usize,
    pub file_targets: usize,
    pub package_targets: usize,
    pub line_ranges: usize,
    pub mutation_records: usize,
    pub invalid_mutation_records: usize,
    pub failures: Vec<String>,
}

/// The mathematical value of a `ConformancePluginReport`.
pub struct ConformancePluginReportModel {
    pub language: Seq<char>,
    pub project: Seq<char>,
    pub targets: usize,
    pub function_targets: usize,
    pub file_targets: usize,
    pub package_targets: usize,
    pub line_ranges: usize,
    pub mutation_records: usize,
    pub invalid_mutation_records: usize,
    pub failures: Seq<Seq<char>>,
}

impl DeepView for ConformancePluginReport {
    type V = ConformancePluginReportModel;

    open spec fn deep_view(&self) -> ConformancePluginReportModel {
        ConformancePluginReportModel {
            language: self.language@,
            project: self.project@,
            targets: self.targets,
            function_targets: self.function_targets,
            file_targets: self.file_targets,
            package_targets: self.package_targets,
            line_ranges: self.line_ranges,
            mutation_records: self.mutation_records,
            invalid_mutation_records: self.invalid_mutation_records,
            failures: self.failures.deep_view(),
        }
    }
}

impl Clone for ConformancePluginReport {
    fn clone(&self) -> (r: Self)
        ensures
            r.deep_view() == self.deep_view(),
    {
        ConformancePluginReport {
            language: self.language.clone(),
            project: self.project.clone(),
            targets: self.targets,
            function_targets: self.function_targets,
            file_targets: self.file_targets,
            package_targets: self.package_targets,
            line_ranges: self.line_ranges,
            mutation_records: self.mutation_records,
            invalid_mutation_records: self.invalid_mutation_records,
            failures: clone_texts(&self.failures),
        }
    }
}

/// A copy of conformance plugin reports.
pub fn clone_conformance_plugin_reports(
    items: &Vec<ConformancePluginReport>,
) -> (r: Vec<ConformancePluginReport>)
    ensures
        r.deep_view() == items.deep_view(),
        r@.len() == items@.len(),
{
    let mut out: Vec<ConformancePluginReport> = Vec::new();
    let mut i: usize = 0;
    while i < items.len()
        invariant
            i <= items@.len(),
            out@.len() == i,
            forall|j: int| 0 <= j < i ==> #[trigger] out@[j].deep_view() == items@[j].deep_view(),
        decreases items@.len() - i,
    {
        out.push(items[i].clone());
        i = i + 1;
    }
    assert(out.deep_view() == items.deep_view());
    out
}

/// Puts an item at the end of the list.
pub fn push_conformance_plugin_report(
    items: &mut Vec<ConformancePluginReport>,
    item: ConformancePluginReport,
)
    ensures
        final(items).deep_view() == old(items).deep_view().push(item.deep_view()),
        final(items)@.len() == old(items)@.len() + 1,
{
    let ghost before = items.deep_view();
    items.push(item);
    assert(items.deep_view() == before.push(item.deep_view()));
}

/// What was found of the plugins.
#[derive(Debug, PartialEq, Eq)]
pub struct ConformanceReport {
    pub passed: bool,
    pub plugins: Vec<ConformancePluginReport>,
}

/// The mathematical value of a `ConformanceReport`.
pub struct ConformanceReportModel {
    pub passed: bool,
    pub plugins: Seq<ConformancePluginReportModel>,
}

impl DeepView for ConformanceReport {
    type V = ConformanceReportModel;

    open spec fn deep_view(&self) -> ConformanceReportModel {
        ConformanceReportModel {
            passed: self.passed,
            plugins: self.plugins.deep_view(),
        }
    }
}

impl Clone for ConformanceReport {
    fn clone(&self) -> (r: Self)
        ensures
            r.deep_view() == self.deep_view(),
    {
        ConformanceReport {
            passed: self.passed,
            plugins: clone_conformance_plugin_reports(&self.plugins),
        }
    }
}

/// The domains and operators of mutants that there are.
#[derive(Debug, PartialEq, Eq)]
pub struct KnownMutants {
    pub domains: Vec<String>,
    pub operators: Vec<String>,
}

/// The mathematical value of a `KnownMutants`.
pub struct KnownMutantsModel {
    pub domains: Seq<Seq<char>>,
    pub operators: Seq<Seq<char>>,
}

impl DeepView for KnownMutants {
    type V = KnownMutantsModel;

    open spec fn deep_view(&self) -> KnownMutantsModel {
        KnownMutantsModel {
            domains: self.domains.deep_view(),
            operators: self.operators.deep_view(),
        }
    }
}

impl Clone for KnownMutants {
    fn clone(&self) -> (r: Self)
        ensures
            r.deep_view() == self.deep_view(),
    {
        KnownMutants {
            domains: clone_texts(&self.domains),
            operators: clone_texts(&self.operators),
        }
    }
}

// ---------------------------------------------------------------------------
// Targets
// ---------------------------------------------------------------------------
/// The targets of a language.
pub open spec fn targets_in(
    language: Seq<char>,
    items: Seq<VerificationTargetModel>,
) -> Seq<VerificationTargetModel>
    decreases items.len(),
{
    if items.len() == 0 {
        Seq::empty()
    } else if items.last().language == language {
        targets_in(language, items.drop_last()).push(items.last())
    } else {
        targets_in(language, items.drop_last())
    }
}

fn targets_in_language(
    language: &str,
    items: &Vec<VerificationTarget>,
) -> (r: Vec<VerificationTarget>)
    ensures
        r.deep_view() == targets_in(language@, items.deep_view()),
{
    let mut out: Vec<VerificationTarget> = Vec::new();
    let ghost all = items.deep_view();
    let mut i: usize = 0;
    assert(out.deep_view() == targets_in(language@, all.take(0)));
    while i < items.len()
        invariant
            i <= items@.len(),
            all == items.deep_view(),
            out.deep_view() == targets_in(language@, all.take(i as int)),
        decreases items@.len() - i,
    {
        proof {
            lemma_take_next(all, i as int);
        }
        if same(items[i].language.as_str(), language) {
            push_verification_target(&mut out, items[i].clone());
        }
        i = i + 1;
    }
    proof {
        lemma_take_all(all);
    }
    out
}

/// Whether some target is the project itself.
pub open spec fn some_project_target(items: Seq<VerificationTargetModel>) -> bool {
    exists|k: int| 0 <= k < items.len() && (#[trigger] items[k]).kind == TargetKind::Project && items[k].path == "."@
}

fn any_project_target(items: &Vec<VerificationTarget>) -> (r: bool)
    ensures
        r == some_project_target(items.deep_view()),
{
    let ghost all = items.deep_view();
    let mut i: usize = 0;
    while i < items.len()
        invariant
            i <= items@.len(),
            all == items.deep_view(),
            forall|k: int| 0 <= k < i ==> !((#[trigger] all[k]).kind == TargetKind::Project && all[k].path == "."@),
        decreases items@.len() - i,
    {
        assert(all[i as int] == items@[i as int].deep_view());
        if items[i].kind == TargetKind::Project && same(items[i].path.as_str(), ".") {
            return true;
        }
        i = i + 1;
    }
    false
}

/// What is said of a target that is not the project but has its path.
pub open spec fn root_path_problem_text(target: VerificationTargetModel) -> Seq<char> {
    let t = "non-project target `"@ + target.id + "` uses root path"@;
    t
}

fn root_path_problem(target: &VerificationTarget) -> (r: String)
    ensures
        r@ == root_path_problem_text(target.deep_view()),
{
    let mut out = owned("non-project target `");
    out.append(target.id.as_str());
    out.append("` uses root path");
    out
}

/// What is said of a function without a symbol.
pub open spec fn symbol_problem_text(target: VerificationTargetModel) -> Seq<char> {
    let t = "function target `"@ + target.id + "` has no symbol"@;
    t
}

fn symbol_problem(target: &VerificationTarget) -> (r: String)
    ensures
        r@ == symbol_problem_text(target.deep_view()),
{
    let mut out = owned("function target `");
    out.append(target.id.as_str());
    out.append("` has no symbol");
    out
}

/// What is said of lines that are none.
pub open spec fn range_problem_text(
    target: VerificationTargetModel,
    range: LineRange,
) -> Seq<char> {
    let t = "target `"@
        + target.id
        + "` has invalid line range "@
        + decimal(range.start as int)
        + "-"@
        + decimal(range.end as int);
    t
}

fn range_problem(target: &VerificationTarget, range: LineRange) -> (r: String)
    ensures
        r@ == range_problem_text(target.deep_view(), range),
{
    let mut out = owned("target `");
    out.append(target.id.as_str());
    out.append("` has invalid line range ");
    out.append(print_usize(range.start).as_str());
    out.append("-");
    out.append(print_usize(range.end).as_str());
    out
}

/// What is said of a function without lines.
pub open spec fn no_range_problem_text(target: VerificationTargetModel) -> Seq<char> {
    let t = "function target `"@ + target.id + "` has no line range"@;
    t
}

fn no_range_problem(target: &VerificationTarget) -> (r: String)
    ensures
        r@ == no_range_problem_text(target.deep_view()),
{
    let mut out = owned("function target `");
    out.append(target.id.as_str());
    out.append("` has no line range");
    out
}

/// What is said of a target whose path is not there.
pub open spec fn absence_problem_text(target: VerificationTargetModel) -> Seq<char> {
    let t = "target `"@ + target.id + "` path `"@ + target.path + "` does not exist"@;
    t
}

fn absence_problem(target: &VerificationTarget) -> (r: String)
    ensures
        r@ == absence_problem_text(target.deep_view()),
{
    let mut out = owned("target `");
    out.append(target.id.as_str());
    out.append("` path `");
    out.append(target.path.as_str());
    out.append("` does not exist");
    out
}

/// One text where a condition holds, none elsewhere.
pub open spec fn said_if(condition: bool, text: Seq<char>) -> Seq<Seq<char>> {
    if condition {
        seq![text]
    } else {
        Seq::empty()
    }
}

fn push_if(out: &mut Vec<String>, condition: bool, text: String)
    ensures
        final(out).deep_view() == old(out).deep_view() + said_if(condition, text@),
{
    let ghost before = out.deep_view();
    if condition {
        push_text(out, text);
    }
    assert(out.deep_view() =~= before + said_if(condition, text@));
}

/// Whether lines are counted from one and end behind their start.
pub open spec fn is_range(range: LineRange) -> bool {
    range.start > 0 && range.end >= range.start
}

/// What is said of the lines of a target.
pub open spec fn range_problems(target: VerificationTargetModel) -> Seq<Seq<char>> {
    match target.line_range {
        Some(range) => said_if(!is_range(range), range_problem_text(target, range)),
        None => said_if(target.kind == TargetKind::Function, no_range_problem_text(target)),
    }
}

/// What is said of a target; `absent` are the paths that are not there.
pub open spec fn target_problems(target: VerificationTargetModel, absent: Seq<Seq<char>>) -> Seq<
    Seq<char>,
> {
    said_if(trimmed(target.id).len() == 0, "target with empty stable id"@) + said_if(
        (target.kind == TargetKind::File || target.kind == TargetKind::Function) && target.path
            == "."@,
        root_path_problem_text(target),
    ) + said_if(
        target.kind == TargetKind::Function && target.symbol is None,
        symbol_problem_text(target),
    ) + range_problems(target) + said_if(
        target.path != "."@ && absent.contains(target.path),
        absence_problem_text(target),
    )
}

fn push_target_problems(out: &mut Vec<String>, target: &VerificationTarget, absent: &Vec<String>)
    ensures
        final(out).deep_view() == old(out).deep_view() + target_problems(
            target.deep_view(),
            absent.deep_view(),
        ),
{
    let ghost before = out.deep_view();
    let id = trim(target.id.as_str());
    push_if(out, id.as_str().unicode_len() == 0, owned("target with empty stable id"));
    push_if(
        out,
        (target.kind == TargetKind::File || target.kind == TargetKind::Function) && same(
            target.path.as_str(),
            ".",
        ),
        root_path_problem(target),
    );
    push_if(
        out,
        target.kind == TargetKind::Function && target.symbol.is_none(),
        symbol_problem(target),
    );
    match target.line_range {
        Some(range) => {
            push_if(out, range.start == 0 || range.end < range.start, range_problem(target, range));
        },
        None => {
            push_if(out, target.kind == TargetKind::Function, no_range_problem(target));
        },
    }
    push_if(
        out,
        !same(target.path.as_str(), ".") && list_has(absent, target.path.as_str()),
        absence_problem(target),
    );
    assert(out.deep_view() =~= before + target_problems(target.deep_view(), absent.deep_view()));
}

/// What is said of targets, in order.
pub open spec fn all_target_problems(
    items: Seq<VerificationTargetModel>,
    absent: Seq<Seq<char>>,
) -> Seq<Seq<char>>
    decreases items.len(),
{
    if items.len() == 0 {
        Seq::empty()
    } else {
        all_target_problems(items.drop_last(), absent) + target_problems(items.last(), absent)
    }
}

fn push_all_target_problems(
    out: &mut Vec<String>,
    items: &Vec<VerificationTarget>,
    absent: &Vec<String>,
)
    ensures
        final(out).deep_view() == old(out).deep_view() + all_target_problems(items.deep_view(), absent.deep_view()),
{
    let ghost before = out.deep_view();
    let ghost all = items.deep_view();
    let mut i: usize = 0;
    assert(out.deep_view() =~= before + all_target_problems(all.take(0), absent.deep_view()));
    while i < items.len()
        invariant
            i <= items@.len(),
            all == items.deep_view(),
            out.deep_view() == before + all_target_problems(all.take(i as int), absent.deep_view()),
        decreases items@.len() - i,
    {
        proof {
            lemma_take_next(all, i as int);
            assert(all[i as int] == items@[i as int].deep_view());
        }
        push_target_problems(out, &items[i], absent);
        i = i + 1;
        assert(out.deep_view() =~= before + all_target_problems(all.take(i as int), absent.deep_view()));
    }
    proof {
        lemma_take_all(all);
    }
}

/// The names of targets.
pub open spec fn ids_of_targets(items: Seq<VerificationTargetModel>) -> Seq<Seq<char>>
    decreases items.len(),
{
    if items.len() == 0 {
        Seq::empty()
    } else {
        ids_of_targets(items.drop_last()).push(items.last().id)
    }
}

fn target_ids(items: &Vec<VerificationTarget>) -> (r: Vec<String>)
    ensures
        r.deep_view() == ids_of_targets(items.deep_view()),
{
    let mut out: Vec<String> = Vec::new();
    let ghost all = items.deep_view();
    let mut i: usize = 0;
    assert(out.deep_view() == ids_of_targets(all.take(0)));
    while i < items.len()
        invariant
            i <= items@.len(),
            all == items.deep_view(),
            out.deep_view() == ids_of_targets(all.take(i as int)),
        decreases items@.len() - i,
    {
        proof {
            lemma_take_next(all, i as int);
        }
        push_text(&mut out, owned(items[i].id.as_str()));
        i = i + 1;
    }
    proof {
        lemma_take_all(all);
    }
    out
}

/// What is said of a name that several targets have.
pub open spec fn repeat_problem_text(count: LabelCountModel) -> Seq<char> {
    let t = "target id `"@
        + count.label
        + "` appears "@
        + decimal(count.count as int)
        + " times"@;
    t
}

fn repeat_problem(count: &LabelCount) -> (r: String)
    ensures
        r@ == repeat_problem_text(count.deep_view()),
{
    let mut out = owned("target id `");
    out.append(count.label.as_str());
    out.append("` appears ");
    out.append(print_usize(count.count).as_str());
    out.append(" times");
    out
}

/// What is said of names that several targets have.
pub open spec fn repeat_problems(items: Seq<LabelCountModel>) -> Seq<Seq<char>>
    decreases items.len(),
{
    if items.len() == 0 {
        Seq::empty()
    } else {
        repeat_problems(items.drop_last()) + said_if(items.last().count > 1, repeat_problem_text(items.last()))
    }
}

fn push_repeats(out: &mut Vec<String>, items: &Vec<LabelCount>)
    ensures
        final(out).deep_view() == old(out).deep_view() + repeat_problems(items.deep_view()),
{
    let ghost before = out.deep_view();
    let ghost all = items.deep_view();
    let mut i: usize = 0;
    assert(out.deep_view() =~= before + repeat_problems(all.take(0)));
    while i < items.len()
        invariant
            i <= items@.len(),
            all == items.deep_view(),
            out.deep_view() == before + repeat_problems(all.take(i as int)),
        decreases items@.len() - i,
    {
        proof {
            lemma_take_next(all, i as int);
            assert(all[i as int] == items@[i as int].deep_view());
        }
        push_if(out, items[i].count > 1, repeat_problem(&items[i]));
        i = i + 1;
        assert(out.deep_view() =~= before + repeat_problems(all.take(i as int)));
    }
    proof {
        lemma_take_all(all);
    }
}

/// How many targets have lines.
pub open spec fn range_count(items: Seq<VerificationTargetModel>) -> int
    decreases items.len(),
{
    if items.len() == 0 {
        0
    } else {
        range_count(items.drop_last()) + if items.last().line_range is Some {
            1int
        } else {
            0int
        }
    }
}

fn count_ranges(items: &Vec<VerificationTarget>) -> (r: usize)
    ensures
        r == range_count(items.deep_view()),
        r <= items@.len(),
{
    let ghost all = items.deep_view();
    let mut n: usize = 0;
    let mut i: usize = 0;
    while i < items.len()
        invariant
            i <= items@.len(),
            n <= i,
            all == items.deep_view(),
            n == range_count(all.take(i as int)),
        decreases items@.len() - i,
    {
        proof {
            lemma_take_next(all, i as int);
        }
        if items[i].line_range.is_some() {
            n = n + 1;
        }
        i = i + 1;
    }
    proof {
        lemma_take_all(all);
    }
    n
}

// ---------------------------------------------------------------------------
// Mutants
// ---------------------------------------------------------------------------
/// What is said of a mutant of a domain that there is not.
pub open spec fn domain_problem_text(record: MutationRecordModel) -> Seq<char> {
    let t = "mutation record `"@
        + record.id
        + "` has invalid domain `"@
        + record.domain
        + "`"@;
    t
}

fn domain_problem(record: &MutationRecord) -> (r: String)
    ensures
        r@ == domain_problem_text(record.deep_view()),
{
    let mut out = owned("mutation record `");
    out.append(record.id.as_str());
    out.append("` has invalid domain `");
    out.append(record.domain.as_str());
    out.append("`");
    out
}

/// What is said of a mutant of an operator that there is not.
pub open spec fn operator_problem_text(record: MutationRecordModel) -> Seq<char> {
    let t = "mutation record `"@
        + record.id
        + "` has invalid operator `"@
        + record.operator
        + "`"@;
    t
}

fn operator_problem(record: &MutationRecord) -> (r: String)
    ensures
        r@ == operator_problem_text(record.deep_view()),
{
    let mut out = owned("mutation record `");
    out.append(record.id.as_str());
    out.append("` has invalid operator `");
    out.append(record.operator.as_str());
    out.append("`");
    out
}

/// What is said of a mutant whose path is not one inside the project.
pub open spec fn path_problem_text(record: MutationRecordModel) -> Seq<char> {
    let t = "mutation record `"@
        + record.id
        + "` has invalid source-relative path `"@
        + record.path
        + "`"@;
    t
}

fn path_problem(record: &MutationRecord) -> (r: String)
    ensures
        r@ == path_problem_text(record.deep_view()),
{
    let mut out = owned("mutation record `");
    out.append(record.id.as_str());
    out.append("` has invalid source-relative path `");
    out.append(record.path.as_str());
    out.append("`");
    out
}

/// What is said of a mutant without a place.
pub open spec fn span_problem_text(record: MutationRecordModel) -> Seq<char> {
    let t = "mutation record `"@ + record.id + "` has no source byte span"@;
    t
}

fn span_problem(record: &MutationRecord) -> (r: String)
    ensures
        r@ == span_problem_text(record.deep_view()),
{
    let mut out = owned("mutation record `");
    out.append(record.id.as_str());
    out.append("` has no source byte span");
    out
}

/// What is said of a mutant.
pub open spec fn record_problems(record: MutationRecordModel, known: KnownMutantsModel) -> Seq<
    Seq<char>,
> {
    said_if(!known.domains.contains(record.domain), domain_problem_text(record)) + said_if(
        !known.operators.contains(record.operator),
        operator_problem_text(record),
    ) + said_if(trimmed(record.id).len() == 0, "mutation record with empty stable id"@) + said_if(
        record.path == "."@ || rooted(record.path),
        path_problem_text(record),
    ) + said_if(record.source_span is None, span_problem_text(record))
}

fn push_record_problems(out: &mut Vec<String>, record: &MutationRecord, known: &KnownMutants)
    ensures
        final(out).deep_view() == old(out).deep_view() + record_problems(
            record.deep_view(),
            known.deep_view(),
        ),
{
    let ghost before = out.deep_view();
    push_if(out, !list_has(&known.domains, record.domain.as_str()), domain_problem(record));
    push_if(out, !list_has(&known.operators, record.operator.as_str()), operator_problem(record));
    let id = trim(record.id.as_str());
    push_if(
        out,
        id.as_str().unicode_len() == 0,
        owned("mutation record with empty stable id"),
    );
    push_if(
        out,
        same(record.path.as_str(), ".") || is_absolute(record.path.as_str()),
        path_problem(record),
    );
    push_if(out, record.source_span.is_none(), span_problem(record));
    assert(out.deep_view() =~= before + record_problems(record.deep_view(), known.deep_view()));
}

/// What is said of mutants, in order.
pub open spec fn all_record_problems(
    items: Seq<MutationRecordModel>,
    known: KnownMutantsModel,
) -> Seq<Seq<char>>
    decreases items.len(),
{
    if items.len() == 0 {
        Seq::empty()
    } else {
        all_record_problems(items.drop_last(), known) + record_problems(items.last(), known)
    }
}

fn push_all_record_problems(
    out: &mut Vec<String>,
    items: &Vec<MutationRecord>,
    known: &KnownMutants,
)
    ensures
        final(out).deep_view() == old(out).deep_view() + all_record_problems(items.deep_view(), known.deep_view()),
{
    let ghost before = out.deep_view();
    let ghost all = items.deep_view();
    let mut i: usize = 0;
    assert(out.deep_view() =~= before + all_record_problems(all.take(0), known.deep_view()));
    while i < items.len()
        invariant
            i <= items@.len(),
            all == items.deep_view(),
            out.deep_view() == before + all_record_problems(all.take(i as int), known.deep_view()),
        decreases items@.len() - i,
    {
        proof {
            lemma_take_next(all, i as int);
            assert(all[i as int] == items@[i as int].deep_view());
        }
        push_record_problems(out, &items[i], known);
        i = i + 1;
        assert(out.deep_view() =~= before + all_record_problems(all.take(i as int), known.deep_view()));
    }
    proof {
        lemma_take_all(all);
    }
}

/// The mutants of the runs of a language.
pub open spec fn records_of_language(
    items: Seq<TestRunResultModel>,
    language: Seq<char>,
) -> Seq<MutationRecordModel>
    decreases items.len(),
{
    if items.len() == 0 {
        Seq::empty()
    } else {
        records_of_language(items.drop_last(), language) + (if items.last().language == language { items.last().quality.mutation.records } else { Seq::empty() })
    }
}

fn push_records(out: &mut Vec<MutationRecord>, items: &Vec<TestRunResult>, language: &str)
    ensures
        final(out).deep_view() == old(out).deep_view() + records_of_language(items.deep_view(), language@),
{
    let ghost before = out.deep_view();
    let ghost all = items.deep_view();
    let mut i: usize = 0;
    assert(out.deep_view() =~= before + records_of_language(all.take(0), language@));
    while i < items.len()
        invariant
            i <= items@.len(),
            all == items.deep_view(),
            out.deep_view() == before + records_of_language(all.take(i as int), language@),
        decreases items@.len() - i,
    {
        proof {
            lemma_take_next(all, i as int);
            assert(all[i as int] == items@[i as int].deep_view());
        }
        if same(items[i].language.as_str(), language) {
            let mut more = clone_mutation_records(&items[i].quality.mutation.records);
            append_mutation_records(out, &mut more);
        }
        i = i + 1;
        assert(out.deep_view() =~= before + records_of_language(all.take(i as int), language@));
    }
    proof {
        lemma_take_all(all);
    }
}

/// The mutants that a saved report has of a language: none without such a report.
pub open spec fn saved_records(
    saved: Option<VerificationReportModel>,
    language: Seq<char>,
) -> Seq<MutationRecordModel> {
    match saved {
        Some(report) => records_of_language(report.runs, language),
        None => Seq::empty(),
    }
}

fn collect_saved_records(saved: &Option<VerificationReport>, language: &str) -> (r: Vec<
    MutationRecord,
>)
    ensures
        r.deep_view() == saved_records(saved.deep_view(), language@),
{
    let mut out: Vec<MutationRecord> = Vec::new();
    if let Some(report) = saved {
        push_records(&mut out, &report.runs, language);
    }
    assert(out.deep_view() =~= saved_records(saved.deep_view(), language@));
    out
}

// ---------------------------------------------------------------------------
// Plugins
// ---------------------------------------------------------------------------
/// What was found of the plugin that found a project. A plugin has a target for the project
/// itself and names every target once; its functions have symbols and lines, its paths are
/// there, and its mutants have a known domain and operator, a name, a path inside the project
/// and a place.
pub open spec fn plugin_report(
    project: ProjectInfoModel,
    targets: Seq<VerificationTargetModel>,
    absent: Seq<Seq<char>>,
    saved: Option<VerificationReportModel>,
    known: KnownMutantsModel,
) -> ConformancePluginReportModel {
    let own = targets_in(project.language, targets);
    let records = saved_records(saved, project.language);
    let invalid = all_record_problems(records, known);
    ConformancePluginReportModel {
        language: project.language,
        project: project.name,
        targets: own.len() as usize,
        function_targets: targets_of_kind(own, TargetKind::Function) as usize,
        file_targets: targets_of_kind(own, TargetKind::File) as usize,
        package_targets: targets_of_kind(own, TargetKind::Package) as usize,
        line_ranges: range_count(own) as usize,
        mutation_records: records.len() as usize,
        invalid_mutation_records: invalid.len() as usize,
        failures: said_if(!some_project_target(own), "missing project target at `.`"@)
            + all_target_problems(own, absent) + repeat_problems(counts_of(ids_of_targets(own)))
            + invalid,
    }
}

fn check_plugin(
    project: &ProjectInfo,
    targets: &Vec<VerificationTarget>,
    absent: &Vec<String>,
    saved: &Option<VerificationReport>,
    known: &KnownMutants,
) -> (r: ConformancePluginReport)
    ensures
        r.deep_view() == plugin_report(
            project.deep_view(),
            targets.deep_view(),
            absent.deep_view(),
            saved.deep_view(),
            known.deep_view(),
        ),
{
    let own = targets_in_language(project.language.as_str(), targets);
    let records = collect_saved_records(saved, project.language.as_str());
    let mut failures: Vec<String> = Vec::new();
    assert(failures.deep_view() =~= Seq::<Seq<char>>::empty());
    let has_project = any_project_target(&own);
    push_if(&mut failures, !has_project, owned("missing project target at `.`"));
    push_all_target_problems(&mut failures, &own, absent);
    push_repeats(&mut failures, &label_counts(&target_ids(&own)));
    let mut invalid: Vec<String> = Vec::new();
    assert(invalid.deep_view() =~= Seq::<Seq<char>>::empty());
    push_all_record_problems(&mut invalid, &records, known);
    assert(invalid.deep_view() =~= all_record_problems(records.deep_view(), known.deep_view()));
    let invalid_mutation_records: usize = invalid.len();
    assert(invalid@.len() == invalid.deep_view().len());
    push_all_record_problems(&mut failures, &records, known);
    assert(own@.len() == own.deep_view().len());
    assert(records@.len() == records.deep_view().len());
    let report = ConformancePluginReport {
        language: owned(project.language.as_str()),
        project: owned(project.name.as_str()),
        targets: own.len(),
        function_targets: count_kind(&own, TargetKind::Function),
        file_targets: count_kind(&own, TargetKind::File),
        package_targets: count_kind(&own, TargetKind::Package),
        line_ranges: count_ranges(&own),
        mutation_records: records.len(),
        invalid_mutation_records,
        failures,
    };
    assert(report.failures.deep_view() =~= plugin_report(
        project.deep_view(),
        targets.deep_view(),
        absent.deep_view(),
        saved.deep_view(),
        known.deep_view(),
    ).failures);
    report
}

/// What was found of the plugins that found projects.
pub open spec fn plugin_reports(
    targets: Seq<VerificationTargetModel>,
    absent: Seq<Seq<char>>,
    saved: Option<VerificationReportModel>,
    known: KnownMutantsModel,
    items: Seq<ProjectInfoModel>,
) -> Seq<ConformancePluginReportModel>
    decreases items.len(),
{
    if items.len() == 0 {
        Seq::empty()
    } else {
        plugin_reports(targets, absent, saved, known, items.drop_last()).push(plugin_report(items.last(), targets, absent, saved, known))
    }
}

fn check_plugins(
    targets: &Vec<VerificationTarget>,
    absent: &Vec<String>,
    saved: &Option<VerificationReport>,
    known: &KnownMutants,
    items: &Vec<ProjectInfo>,
) -> (r: Vec<ConformancePluginReport>)
    ensures
        r.deep_view() == plugin_reports(targets.deep_view(), absent.deep_view(), saved.deep_view(), known.deep_view(), items.deep_view()),
{
    let mut out: Vec<ConformancePluginReport> = Vec::new();
    let ghost all = items.deep_view();
    let mut i: usize = 0;
    assert(out.deep_view() == plugin_reports(targets.deep_view(), absent.deep_view(), saved.deep_view(), known.deep_view(), all.take(0)));
    while i < items.len()
        invariant
            i <= items@.len(),
            all == items.deep_view(),
            out.deep_view() == plugin_reports(targets.deep_view(), absent.deep_view(), saved.deep_view(), known.deep_view(), all.take(i as int)),
        decreases items@.len() - i,
    {
        proof {
            lemma_take_next(all, i as int);
        }
        push_conformance_plugin_report(&mut out, check_plugin(&items[i], targets, absent, saved, known));
        i = i + 1;
    }
    proof {
        lemma_take_all(all);
    }
    out
}

/// Whether something is said of some plugin.
pub open spec fn some_failing(items: Seq<ConformancePluginReportModel>) -> bool {
    exists|k: int| 0 <= k < items.len() && (#[trigger] items[k]).failures.len() > 0
}

fn any_failing(items: &Vec<ConformancePluginReport>) -> (r: bool)
    ensures
        r == some_failing(items.deep_view()),
{
    let ghost all = items.deep_view();
    let mut i: usize = 0;
    while i < items.len()
        invariant
            i <= items@.len(),
            all == items.deep_view(),
            forall|k: int| 0 <= k < i ==> !((#[trigger] all[k]).failures.len() > 0),
        decreases items@.len() - i,
    {
        assert(all[i as int] == items@[i as int].deep_view());
        assert(items@[i as int].failures@.len() == all[i as int].failures.len());
        if items[i].failures.len() > 0 {
            return true;
        }
        i = i + 1;
    }
    false
}

/// What was found of the plugins: they pass where there is one and nothing is said of any.
pub open spec fn conformance_of(
    scan: ScanResultModel,
    absent: Seq<Seq<char>>,
    saved: Option<VerificationReportModel>,
    known: KnownMutantsModel,
) -> ConformanceReportModel {
    let plugins = plugin_reports(scan.targets, absent, saved, known, scan.projects);
    ConformanceReportModel { passed: plugins.len() > 0 && !some_failing(plugins), plugins }
}

/// What was found of the plugins that found something in a project. `absent` are the paths
/// of targets that are not there, `saved` is the report of the last run and `known` are the
/// domains and operators of mutants that there are.
pub fn run_plugin_conformance(
    scan: &ScanResult,
    absent: &Vec<String>,
    saved: &Option<VerificationReport>,
    known: &KnownMutants,
) -> (r: ConformanceReport)
    ensures
        r.deep_view() == conformance_of(
            scan.deep_view(),
            absent.deep_view(),
            saved.deep_view(),
            known.deep_view(),
        ),
{
    let plugins = check_plugins(&scan.targets, absent, saved, known, &scan.projects);
    assert(plugins@.len() == plugins.deep_view().len());
    let failing = any_failing(&plugins);
    ConformanceReport { passed: plugins.len() > 0 && !failing, plugins }
}

/// Plugins pass only where each has a target for its project and its targets and mutants are
/// in order.
pub proof fn law_conforming_plugins_are_in_order(
    scan: ScanResultModel,
    absent: Seq<Seq<char>>,
    saved: Option<VerificationReportModel>,
    known: KnownMutantsModel,
    i: int,
)
    requires
        conformance_of(scan, absent, saved, known).passed,
        0 <= i < scan.projects.len(),
    ensures
        ({
            let own = targets_in(scan.projects[i].language, scan.targets);
            &&& some_project_target(own)
            &&& all_target_problems(own, absent).len() == 0
            &&& all_record_problems(saved_records(saved, scan.projects[i].language), known).len()
                == 0
        }),
{
    lemma_reports_are_per_project(scan.targets, absent, saved, known, scan.projects, i);
    let plugins = plugin_reports(scan.targets, absent, saved, known, scan.projects);
    assert(plugins[i].failures.len() == 0);
}

proof fn lemma_own_target(language: Seq<char>, items: Seq<VerificationTargetModel>, t: int)
    requires
        0 <= t < items.len(),
        items[t].language == language,
    ensures
        targets_in(language, items).contains(items[t]),
    decreases items.len(),
{
    let own = targets_in(language, items);
    if t < items.len() - 1 {
        lemma_own_target(language, items.drop_last(), t);
        let before = targets_in(language, items.drop_last());
        let k = choose|k: int| 0 <= k < before.len() && before[k] == items[t];
        assert(own[k] == items[t]);
    } else {
        assert(own[own.len() - 1] == items[t]);
    }
}

proof fn lemma_target_without_problems(
    items: Seq<VerificationTargetModel>,
    absent: Seq<Seq<char>>,
    k: int,
)
    requires
        0 <= k < items.len(),
        all_target_problems(items, absent).len() == 0,
    ensures
        target_problems(items[k], absent).len() == 0,
    decreases items.len(),
{
    if k < items.len() - 1 {
        lemma_target_without_problems(items.drop_last(), absent, k);
    }
}

proof fn lemma_saved_record(
    items: Seq<TestRunResultModel>,
    language: Seq<char>,
    r: int,
    k: int,
)
    requires
        0 <= r < items.len(),
        items[r].language == language,
        0 <= k < items[r].quality.mutation.records.len(),
    ensures
        records_of_language(items, language).contains(items[r].quality.mutation.records[k]),
    decreases items.len(),
{
    let all = records_of_language(items, language);
    let before = records_of_language(items.drop_last(), language);
    let one = items[r].quality.mutation.records[k];
    if r < items.len() - 1 {
        lemma_saved_record(items.drop_last(), language, r, k);
        let j = choose|j: int| 0 <= j < before.len() && before[j] == one;
        assert(all[j] == one);
    } else {
        assert(all[before.len() + k] == one);
    }
}

proof fn lemma_record_without_problems(
    items: Seq<MutationRecordModel>,
    known: KnownMutantsModel,
    k: int,
)
    requires
        0 <= k < items.len(),
        all_record_problems(items, known).len() == 0,
    ensures
        record_problems(items[k], known).len() == 0,
    decreases items.len(),
{
    if k < items.len() - 1 {
        lemma_record_without_problems(items.drop_last(), known, k);
    }
}

/// Where the plugins pass, every target of a found project has a name; a file or a function
/// has a path inside the project, a function has a symbol and lines, lines start at one or
/// later and do not end before their start, and no path is missing.
pub proof fn law_conforming_targets_are_complete(
    scan: ScanResultModel,
    absent: Seq<Seq<char>>,
    saved: Option<VerificationReportModel>,
    known: KnownMutantsModel,
    i: int,
    t: int,
)
    requires
        conformance_of(scan, absent, saved, known).passed,
        0 <= i < scan.projects.len(),
        0 <= t < scan.targets.len(),
        scan.targets[t].language == scan.projects[i].language,
    ensures
        ({
            let target = scan.targets[t];
            &&& trimmed(target.id).len() > 0
            &&& target.kind == TargetKind::File || target.kind == TargetKind::Function
                ==> target.path != "."@
            &&& target.kind == TargetKind::Function ==> target.symbol is Some && target.line_range
                is Some
            &&& target.line_range matches Some(range) ==> 1 <= range.start <= range.end
            &&& absent.contains(target.path) ==> target.path == "."@
        }),
{
    law_conforming_plugins_are_in_order(scan, absent, saved, known, i);
    let language = scan.projects[i].language;
    let own = targets_in(language, scan.targets);
    lemma_own_target(language, scan.targets, t);
    let k = choose|k: int| 0 <= k < own.len() && own[k] == scan.targets[t];
    lemma_target_without_problems(own, absent, k);
}

/// Where the plugins pass, every mutant that was saved for a found project has a known domain
/// and operator, a name, a path inside the project and a place.
pub proof fn law_conforming_mutants_are_complete(
    scan: ScanResultModel,
    absent: Seq<Seq<char>>,
    report: VerificationReportModel,
    known: KnownMutantsModel,
    i: int,
    r: int,
    k: int,
)
    requires
        conformance_of(scan, absent, Some(report), known).passed,
        0 <= i < scan.projects.len(),
        0 <= r < report.runs.len(),
        report.runs[r].language == scan.projects[i].language,
        0 <= k < report.runs[r].quality.mutation.records.len(),
    ensures
        ({
            let record = report.runs[r].quality.mutation.records[k];
            &&& known.domains.contains(record.domain)
            &&& known.operators.contains(record.operator)
            &&& trimmed(record.id).len() > 0
            &&& record.path != "."@
            &&& !(record.path.len() > 0 && record.path[0] == '/')
            &&& record.source_span is Some
        }),
{
    law_conforming_plugins_are_in_order(scan, absent, Some(report), known, i);
    let language = scan.projects[i].language;
    let records = records_of_language(report.runs, language);
    let one = report.runs[r].quality.mutation.records[k];
    lemma_saved_record(report.runs, language, r, k);
    let j = choose|j: int| 0 <= j < records.len() && records[j] == one;
    lemma_record_without_problems(records, known, j);
}

proof fn lemma_label_twice(items: Seq<Seq<char>>, a: int, b: int)
    requires
        0 <= a < b < items.len(),
        items[a] == items[b],
    ensures
        label_count(items, items[a]) >= 2,
    decreases items.len(),
{
    if b < items.len() - 1 {
        lemma_label_twice(items.drop_last(), a, b);
    } else {
        lemma_label_once(items.drop_last(), a);
    }
}

proof fn lemma_label_once(items: Seq<Seq<char>>, a: int)
    requires
        0 <= a < items.len(),
    ensures
        label_count(items, items[a]) >= 1,
    decreases items.len(),
{
    lemma_label_bound(items.drop_last(), items[a]);
    if a < items.len() - 1 {
        lemma_label_once(items.drop_last(), a);
    }
}

proof fn lemma_label_bound(items: Seq<Seq<char>>, label: Seq<char>)
    ensures
        0 <= label_count(items, label) <= items.len(),
    decreases items.len(),
{
    if items.len() > 0 {
        lemma_label_bound(items.drop_last(), label);
    }
}

proof fn lemma_ids_follow(items: Seq<VerificationTargetModel>)
    ensures
        ids_of_targets(items).len() == items.len(),
        forall|k: int| 0 <= k < items.len() ==> #[trigger] ids_of_targets(items)[k] == items[k].id,
    decreases items.len(),
{
    if items.len() > 0 {
        lemma_ids_follow(items.drop_last());
    }
}

proof fn lemma_no_repeat(items: Seq<LabelCountModel>, k: int)
    requires
        0 <= k < items.len(),
        repeat_problems(items).len() == 0,
    ensures
        items[k].count <= 1,
    decreases items.len(),
{
    if k < items.len() - 1 {
        lemma_no_repeat(items.drop_last(), k);
    }
}

/// Where the plugins pass, no two targets of a found project have the same name.
pub proof fn law_conforming_targets_have_their_own_names(
    scan: ScanResultModel,
    absent: Seq<Seq<char>>,
    saved: Option<VerificationReportModel>,
    known: KnownMutantsModel,
    i: int,
    a: int,
    b: int,
)
    requires
        conformance_of(scan, absent, saved, known).passed,
        0 <= i < scan.projects.len(),
        ({
            let own = targets_in(scan.projects[i].language, scan.targets);
            0 <= a < b < own.len() <= usize::MAX
        }),
    ensures
        ({
            let own = targets_in(scan.projects[i].language, scan.targets);
            own[a].id != own[b].id
        }),
{
    lemma_reports_are_per_project(scan.targets, absent, saved, known, scan.projects, i);
    let plugins = plugin_reports(scan.targets, absent, saved, known, scan.projects);
    assert(plugins[i].failures.len() == 0);
    let own = targets_in(scan.projects[i].language, scan.targets);
    let ids = ids_of_targets(own);
    lemma_ids_follow(own);
    if own[a].id == own[b].id {
        assert(ids[a] == ids[b]);
        lemma_label_twice(ids, a, b);
        lemma_label_bound(ids, ids[a]);
        lemma_sorted_set_items(ids);
        let names = sorted_set::<ByText>(ids);
        assert(ids.contains(ids[a]));
        assert(names.contains(ids[a]));
        let k = choose|k: int| 0 <= k < names.len() && names[k] == ids[a];
        let all = counts_of(ids);
        assert(all[k].count == label_count(ids, ids[a]));
        lemma_no_repeat(all, k);
    }
}

proof fn lemma_reports_are_per_project(
    targets: Seq<VerificationTargetModel>,
    absent: Seq<Seq<char>>,
    saved: Option<VerificationReportModel>,
    known: KnownMutantsModel,
    items: Seq<ProjectInfoModel>,
    i: int,
)
    requires
        0 <= i < items.len(),
    ensures
        plugin_reports(targets, absent, saved, known, items).len() == items.len(),
        plugin_reports(targets, absent, saved, known, items)[i] == plugin_report(
            items[i],
            targets,
            absent,
            saved,
            known,
        ),
    decreases items.len(),
{
    if i < items.len() - 1 {
        lemma_reports_are_per_project(targets, absent, saved, known, items.drop_last(), i);
    } else if items.len() > 1 {
        lemma_reports_are_per_project(targets, absent, saved, known, items.drop_last(), 0);
    } else {
        assert(plugin_reports(targets, absent, saved, known, items.drop_last()).len() == 0);
    }
}

// ---------------------------------------------------------------------------
// Text
// ---------------------------------------------------------------------------
/// The row of a plugin.
pub open spec fn plugin_row_text(plugin: ConformancePluginReportModel) -> Seq<char> {
    let t = "| "@
        + plugin.language
        + " | "@
        + plugin.project
        + " | "@
        + decimal(plugin.targets as int)
        + " | "@
        + decimal(plugin.function_targets as int)
        + " | "@
        + decimal(plugin.line_ranges as int)
        + " | "@
        + decimal(plugin.mutation_records as int)
        + " | "@
        + decimal(plugin.invalid_mutation_records as int)
        + " | "@
        + decimal(plugin.failures.len() as int)
        + " |\n"@;
    t
}

fn plugin_row(plugin: &ConformancePluginReport) -> (r: String)
    ensures
        r@ == plugin_row_text(plugin.deep_view()),
{
    assert(plugin.failures@.len() == plugin.failures.deep_view().len());
    let mut out = owned("| ");
    out.append(plugin.language.as_str());
    out.append(" | ");
    out.append(plugin.project.as_str());
    out.append(" | ");
    out.append(print_usize(plugin.targets).as_str());
    out.append(" | ");
    out.append(print_usize(plugin.function_targets).as_str());
    out.append(" | ");
    out.append(print_usize(plugin.line_ranges).as_str());
    out.append(" | ");
    out.append(print_usize(plugin.mutation_records).as_str());
    out.append(" | ");
    out.append(print_usize(plugin.invalid_mutation_records).as_str());
    out.append(" | ");
    out.append(print_usize(plugin.failures.len()).as_str());
    out.append(" |\n");
    out
}

/// The rows of plugins.
pub open spec fn plugin_rows(items: Seq<ConformancePluginReportModel>) -> Seq<char>
    decreases items.len(),
{
    if items.len() == 0 {
        Seq::empty()
    } else {
        plugin_rows(items.drop_last()) + plugin_row_text(items.last())
    }
}

fn push_rows(out: &mut String, items: &Vec<ConformancePluginReport>)
    ensures
        final(out)@ == old(out)@ + plugin_rows(items.deep_view()),
{
    let ghost before = out@;
    let ghost all = items.deep_view();
    let mut i: usize = 0;
    assert(out@ == before + plugin_rows(all.take(0)));
    while i < items.len()
        invariant
            i <= items@.len(),
            all == items.deep_view(),
            out@ == before + plugin_rows(all.take(i as int)),
        decreases items@.len() - i,
    {
        proof {
            lemma_take_next(all, i as int);
        }
        let ghost so_far = out@;
        out.append(plugin_row(&items[i]).as_str());
        assert(out@ =~= before + (plugin_rows(all.take(i as int)) + plugin_row_text(all[i as int])));
        i = i + 1;
        assert(out@ == before + plugin_rows(all.take(i as int)));
    }
    proof {
        lemma_take_all(all);
    }
}

/// What is said of a plugin.
pub open spec fn failure_lines(items: Seq<Seq<char>>) -> Seq<char>
    decreases items.len(),
{
    if items.len() == 0 {
        Seq::empty()
    } else {
        failure_lines(items.drop_last()) + ("- "@ + items.last() + "\n"@)
    }
}

fn push_failures(out: &mut String, items: &Vec<String>)
    ensures
        final(out)@ == old(out)@ + failure_lines(items.deep_view()),
{
    let ghost before = out@;
    let ghost all = items.deep_view();
    let mut i: usize = 0;
    assert(out@ == before + failure_lines(all.take(0)));
    while i < items.len()
        invariant
            i <= items@.len(),
            all == items.deep_view(),
            out@ == before + failure_lines(all.take(i as int)),
        decreases items@.len() - i,
    {
        proof {
            lemma_take_next(all, i as int);
        }
        let ghost so_far = out@;
        out.append("- ");
        out.append(items[i].as_str());
        out.append("\n");
        assert(out@ =~= before + (failure_lines(all.take(i as int)) + ("- "@ + all[i as int] + "\n"@)));
        i = i + 1;
        assert(out@ == before + failure_lines(all.take(i as int)));
    }
    proof {
        lemma_take_all(all);
    }
}

/// What is said of a plugin, under its language; nothing where nothing is said.
pub open spec fn plugin_section(plugin: ConformancePluginReportModel) -> Seq<char> {
    if plugin.failures.len() == 0 {
        Seq::empty()
    } else {
        "\n## "@ + plugin.language + "\n"@ + failure_lines(plugin.failures)
    }
}

fn push_section(out: &mut String, plugin: &ConformancePluginReport)
    ensures
        final(out)@ == old(out)@ + plugin_section(plugin.deep_view()),
{
    let ghost before = out@;
    assert(plugin.failures@.len() == plugin.failures.deep_view().len());
    if plugin.failures.len() > 0 {
        out.append("\n## ");
        out.append(plugin.language.as_str());
        out.append("\n");
        push_failures(out, &plugin.failures);
    }
    assert(out@ =~= before + plugin_section(plugin.deep_view()));
}

/// What is said of plugins.
pub open spec fn plugin_sections(items: Seq<ConformancePluginReportModel>) -> Seq<char>
    decreases items.len(),
{
    if items.len() == 0 {
        Seq::empty()
    } else {
        plugin_sections(items.drop_last()) + plugin_section(items.last())
    }
}

fn push_sections(out: &mut String, items: &Vec<ConformancePluginReport>)
    ensures
        final(out)@ == old(out)@ + plugin_sections(items.deep_view()),
{
    let ghost before = out@;
    let ghost all = items.deep_view();
    let mut i: usize = 0;
    assert(out@ == before + plugin_sections(all.take(0)));
    while i < items.len()
        invariant
            i <= items@.len(),
            all == items.deep_view(),
            out@ == before + plugin_sections(all.take(i as int)),
        decreases items@.len() - i,
    {
        proof {
            lemma_take_next(all, i as int);
        }
        let ghost so_far = out@;
        push_section(out, &items[i]);
        assert(out@ =~= before + (plugin_sections(all.take(i as int)) + plugin_section(all[i as int])));
        i = i + 1;
        assert(out@ == before + plugin_sections(all.take(i as int)));
    }
    proof {
        lemma_take_all(all);
    }
}

/// What was found of the plugins in words.
pub open spec fn conformance_words(report: ConformanceReportModel) -> Seq<char> {
    "# veritas conformance\n\n- Passed: `"@ + (if report.passed {
        "true"@
    } else {
        "false"@
    }) + "`\n- Plugins: `"@ + decimal(report.plugins.len() as int)
        + "`\n\n| Language | Project | Targets | Functions | Line ranges | Mutation records | Invalid mutations | Failures |\n| --- | --- | ---: | ---: | ---: | ---: | ---: | ---: |\n"@
        + plugin_rows(report.plugins) + plugin_sections(report.plugins)
}

fn render_conformance(report: &ConformanceReport) -> (r: String)
    ensures
        r@ == conformance_words(report.deep_view()),
{
    assert(report.plugins@.len() == report.plugins.deep_view().len());
    let mut out = owned("# veritas conformance\n\n- Passed: `");
    out.append(
        if report.passed {
            "true"
        } else {
            "false"
        },
    );
    out.append("`\n- Plugins: `");
    out.append(print_usize(report.plugins.len()).as_str());
    out.append(
        "`\n\n| Language | Project | Targets | Functions | Line ranges | Mutation records | Invalid mutations | Failures |\n| --- | --- | ---: | ---: | ---: | ---: | ---: | ---: |\n",
    );
    push_rows(&mut out, &report.plugins);
    push_sections(&mut out, &report.plugins);
    out
}

/// A conformance plugin report as a JSON document.
pub open spec fn conformance_plugin_report_document(v: ConformancePluginReportModel) -> JsonModel {
    JsonModel::Object(
        seq![
            ("language"@, JsonModel::Text(v.language)),
            ("project"@, JsonModel::Text(v.project)),
            ("targets"@, JsonModel::Number(decimal(v.targets as int))),
            ("function_targets"@, JsonModel::Number(decimal(v.function_targets as int))),
            ("file_targets"@, JsonModel::Number(decimal(v.file_targets as int))),
            ("package_targets"@, JsonModel::Number(decimal(v.package_targets as int))),
            ("line_ranges"@, JsonModel::Number(decimal(v.line_ranges as int))),
            ("mutation_records"@, JsonModel::Number(decimal(v.mutation_records as int))),
            ("invalid_mutation_records"@, JsonModel::Number(decimal(v.invalid_mutation_records as int))),
            ("failures"@, texts_model(v.failures)),
        ],
    )
}

/// A conformance plugin report as a JSON value.
pub fn conformance_plugin_report_json(v: &ConformancePluginReport) -> (r: Json)
    ensures
        r.deep_view() == conformance_plugin_report_document(v.deep_view()),
{
    let mut members = Members::new();
    members.put("language", text(v.language.as_str()));
    members.put("project", text(v.project.as_str()));
    members.put("targets", number(v.targets as u64));
    members.put("function_targets", number(v.function_targets as u64));
    members.put("file_targets", number(v.file_targets as u64));
    members.put("package_targets", number(v.package_targets as u64));
    members.put("line_ranges", number(v.line_ranges as u64));
    members.put("mutation_records", number(v.mutation_records as u64));
    members.put("invalid_mutation_records", number(v.invalid_mutation_records as u64));
    members.put("failures", texts(&v.failures));
    assert(members.model() =~= conformance_plugin_report_document(v.deep_view())->Object_0);
    members.finish()
}

/// The JSON documents of conformance plugin report records.
pub open spec fn conformance_plugin_report_documents(
    items: Seq<ConformancePluginReportModel>,
) -> Seq<JsonModel> {
    items.map_values(|v: ConformancePluginReportModel| conformance_plugin_report_document(v))
}

/// A JSON array of conformance plugin report records.
pub fn conformance_plugin_report_list(items: &Vec<ConformancePluginReport>) -> (r: Json)
    ensures
        r.deep_view() == JsonModel::Array(conformance_plugin_report_documents(items.deep_view())),
{
    let mut out = Items::new();
    let ghost all = items.deep_view();
    let mut i: usize = 0;
    assert(out.model() =~= conformance_plugin_report_documents(all.take(0)));
    while i < items.len()
        invariant
            i <= items@.len(),
            all == items.deep_view(),
            out.model() == conformance_plugin_report_documents(all.take(i as int)),
        decreases items@.len() - i,
    {
        out.put(conformance_plugin_report_json(&items[i]));
        proof {
            lemma_take_next(all, i as int);
        }
        assert(out.model() =~= conformance_plugin_report_documents(all.take(i + 1)));
        i = i + 1;
    }
    proof {
        lemma_take_all(all);
    }
    out.finish()
}

/// A conformance report as a JSON document.
pub open spec fn conformance_report_document(v: ConformanceReportModel) -> JsonModel {
    JsonModel::Object(
        seq![
            ("passed"@, JsonModel::Bool(v.passed)),
            ("plugins"@, JsonModel::Array(conformance_plugin_report_documents(v.plugins))),
        ],
    )
}

/// A conformance report as a JSON value.
pub fn conformance_report_json(v: &ConformanceReport) -> (r: Json)
    ensures
        r.deep_view() == conformance_report_document(v.deep_view()),
{
    let mut members = Members::new();
    members.put("passed", Json::Bool(v.passed));
    members.put("plugins", conformance_plugin_report_list(&v.plugins));
    assert(members.model() =~= conformance_report_document(v.deep_view())->Object_0);
    members.finish()
}

/// What the check of the plugins prints.
pub fn print_conformance_report(
    report: &ConformanceReport,
    format: OutputFormat,
) -> (r: Result<String, String>)
    ensures
        gives(
            r,
            printed(
                format,
                conformance_words(report.deep_view()),
                conformance_report_document(report.deep_view()),
                "conformance"@,
            ),
        ),
{
    match format {
        OutputFormat::Markdown => Ok(render_conformance(report)),
        OutputFormat::Json => Ok(print_document(&conformance_report_json(report))),
        OutputFormat::Sarif => Err(unsupported_format("conformance")),
        OutputFormat::Junit => Err(unsupported_format("conformance")),
    }
}

} // verus!
