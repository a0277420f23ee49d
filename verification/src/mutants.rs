//! The mutants of reports and campaigns.
use vstd::prelude::*;

use crate::api::{VerificationReport, VerificationReportModel};
use crate::bench::{percent_or_na, percent_text};
use crate::counts::{
    counts_document, counts_json, counts_of, label_counts, LabelCount, LabelCountModel,
};
use crate::documents::{mutation_record_documents, mutation_record_list};
use crate::evolution::{records_of_runs, run_records};
use crate::findings::{blank_separators, replace_separators};
use crate::json::{
    as_array, as_text, at, clone_json, lemma_array_model, number, parse, parsed_json, pretty,
    pretty_json, texts, texts_model, Json, JsonModel, Members,
};
use crate::metrics::{MutationRecord, MutationRecordModel};
use crate::number::{decimal, print_usize};
use crate::order::{
    ascending, lemma_sorted_set_ascending, lemma_sorted_set_items, sorted_set, to_sorted_set,
    ByText,
};
use crate::output::{gives, print_document, printed, unsupported_format, OutputFormat};
use crate::seqs::{lemma_take_all, lemma_take_next};
use crate::split::push_text;
use crate::text::{list_has, lower, owned, same, to_lower};

verus! {

// ---------------------------------------------------------------------------
// Campaigns
// ---------------------------------------------------------------------------
/// Why a campaign cannot be used.
#[derive(Debug, Clone, Copy, PartialEq, Eq, Structural)]
pub enum CampaignError {
    /// The file holds no document.
    NotParsed,
    /// The document has no list of records.
    NoRecords,
    /// No record has a status that is asked for.
    NoMutants,
}

/// The records of a campaign: those of the document itself, or of its metrics.
pub open spec fn campaign_records(value: JsonModel) -> Option<Seq<JsonModel>> {
    match as_array(at(value, "records"@)) {
        Some(records) => Some(records),
        None => as_array(at(at(value, "metrics"@), "records"@)),
    }
}

fn find_records(value: &Json) -> (r: Option<&Vec<Json>>)
    ensures
        match r {
            Some(records) => campaign_records(value.deep_view()) == Some(records.deep_view()),
            None => campaign_records(value.deep_view()) is None,
        },
{
    if let Some(part) = value.get("records") {
        if let Some(records) = part.as_list() {
            return Some(records);
        }
    }
    if let Some(metrics) = value.get("metrics") {
        if let Some(part) = metrics.get("records") {
            return part.as_list();
        }
    }
    None
}

/// The records of the text of a campaign, or why there are none.
pub open spec fn records_in_text(contents: Seq<char>) -> Result<Seq<JsonModel>, CampaignError> {
    match parsed_json(contents) {
        Some(value) => match campaign_records(value) {
            Some(records) => Ok(records),
            None => Err(CampaignError::NoRecords),
        },
        None => Err(CampaignError::NotParsed),
    }
}

/// A status with blanks between its words, in lower case.
pub open spec fn plain_status(status: Seq<char>) -> Seq<char> {
    lower(blank_separators(status))
}

/// A status with blanks between its words, in lower case.
pub fn normalize_status(status: &str) -> (r: String)
    ensures
        r@ == plain_status(status@),
{
    to_lower(replace_separators(status).as_str())
}

/// Statuses with blanks between their words, in lower case.
pub open spec fn plain_statuses_of(items: Seq<Seq<char>>) -> Seq<Seq<char>>
    decreases items.len(),
{
    if items.len() == 0 {
        Seq::empty()
    } else {
        plain_statuses_of(items.drop_last()).push(plain_status(items.last()))
    }
}

fn plain_statuses(items: &Vec<String>) -> (r: Vec<String>)
    ensures
        r.deep_view() == plain_statuses_of(items.deep_view()),
{
    let mut out: Vec<String> = Vec::new();
    let ghost all = items.deep_view();
    let mut i: usize = 0;
    assert(out.deep_view() == plain_statuses_of(all.take(0)));
    while i < items.len()
        invariant
            i <= items@.len(),
            all == items.deep_view(),
            out.deep_view() == plain_statuses_of(all.take(i as int)),
        decreases items@.len() - i,
    {
        proof {
            lemma_take_next(all, i as int);
        }
        push_text(&mut out, normalize_status(items[i].as_str()));
        i = i + 1;
    }
    proof {
        lemma_take_all(all);
    }
    out
}

/// The text of a part of a record, where it is a text.
pub open spec fn record_text(record: JsonModel, name: Seq<char>) -> Option<Seq<char>> {
    as_text(at(record, name))
}

fn read_record_text(record: &Json, name: &str) -> (r: Option<String>)
    ensures
        r.deep_view() == record_text(record.deep_view(), name@),
{
    match record.get(name) {
        Some(part) => match part.as_str() {
            Some(text) => Some(owned(text.as_str())),
            None => None,
        },
        None => None,
    }
}

/// The name of the mutant of a record, where the mutant has one of these statuses.
pub open spec fn wanted_id(wanted: Seq<Seq<char>>, record: JsonModel) -> Option<Seq<char>> {
    match record_text(record, "status"@) {
        Some(status) => if wanted.contains(plain_status(status)) {
            record_text(record, "id"@)
        } else {
            None
        },
        None => None,
    }
}

fn find_wanted_id(wanted: &Vec<String>, record: &Json) -> (r: Option<String>)
    ensures
        r.deep_view() == wanted_id(wanted.deep_view(), record.deep_view()),
{
    match read_record_text(record, "status") {
        Some(status) => if list_has(wanted, normalize_status(status.as_str()).as_str()) {
            read_record_text(record, "id")
        } else {
            None
        },
        None => None,
    }
}

/// The names of the mutants that have one of these statuses.
pub open spec fn wanted_ids_in(wanted: Seq<Seq<char>>, items: Seq<JsonModel>) -> Seq<Seq<char>>
    decreases items.len(),
{
    if items.len() == 0 {
        Seq::empty()
    } else {
        let before = wanted_ids_in(wanted, items.drop_last());
        match wanted_id(wanted, items.last()) {
            Some(one) => before.push(one),
            None => before,
        }
    }
}

fn wanted_ids(wanted: &Vec<String>, items: &Vec<Json>) -> (r: Vec<String>)
    ensures
        r.deep_view() == wanted_ids_in(wanted.deep_view(), items.deep_view()),
{
    let mut out: Vec<String> = Vec::new();
    let ghost all = items.deep_view();
    let mut i: usize = 0;
    assert(out.deep_view() == wanted_ids_in(wanted.deep_view(), all.take(0)));
    while i < items.len()
        invariant
            i <= items@.len(),
            all == items.deep_view(),
            out.deep_view() == wanted_ids_in(wanted.deep_view(), all.take(i as int)),
        decreases items@.len() - i,
    {
        proof {
            lemma_take_next(all, i as int);
            assert(all[i as int] == items@[i as int].deep_view());
        }
        match find_wanted_id(wanted, &items[i]) {
            Some(one) => {
                push_text(&mut out, one);
            },
            None => {},
        }
        i = i + 1;
    }
    proof {
        lemma_take_all(all);
    }
    out
}

/// The names of the mutants of a campaign that have one of these statuses, or why there are
/// none.
pub open spec fn ids_from_campaign(
    contents: Seq<char>,
    statuses: Seq<Seq<char>>,
) -> Result<Seq<Seq<char>>, CampaignError> {
    match records_in_text(contents) {
        Ok(records) => {
            let ids = wanted_ids_in(plain_statuses_of(statuses), records);
            if ids.len() == 0 {
                Err(CampaignError::NoMutants)
            } else {
                Ok(ids)
            }
        },
        Err(error) => Err(error),
    }
}

/// The names of the mutants of a campaign that have one of these statuses, or why there are
/// none.
pub fn mutant_ids_from_campaign(contents: &str, statuses: &Vec<String>) -> (r: Result<
    Vec<String>,
    CampaignError,
>)
    ensures
        match ids_from_campaign(contents@, statuses.deep_view()) {
            Ok(ids) => r matches Ok(found) && found.deep_view() == ids,
            Err(error) => r matches Err(e) && e == error,
        },
{
    match parse(contents) {
        Some(value) => match find_records(&value) {
            Some(records) => {
                let ids = wanted_ids(&plain_statuses(statuses), records);
                assert(ids@.len() == ids.deep_view().len());
                if ids.len() == 0 {
                    Err(CampaignError::NoMutants)
                } else {
                    Ok(ids)
                }
            },
            None => Err(CampaignError::NoRecords),
        },
        None => Err(CampaignError::NotParsed),
    }
}

// ---------------------------------------------------------------------------
// Merging
// ---------------------------------------------------------------------------
/// The names of records.
pub open spec fn record_ids(items: Seq<JsonModel>) -> Seq<Seq<char>>
    decreases items.len(),
{
    if items.len() == 0 {
        Seq::empty()
    } else {
        let before = record_ids(items.drop_last());
        match record_text(items.last(), "id"@) {
            Some(one) => before.push(one),
            None => before,
        }
    }
}

fn ids_of_records(items: &Vec<Json>) -> (r: Vec<String>)
    ensures
        r.deep_view() == record_ids(items.deep_view()),
{
    let mut out: Vec<String> = Vec::new();
    let ghost all = items.deep_view();
    let mut i: usize = 0;
    assert(out.deep_view() == record_ids(all.take(0)));
    while i < items.len()
        invariant
            i <= items@.len(),
            all == items.deep_view(),
            out.deep_view() == record_ids(all.take(i as int)),
        decreases items@.len() - i,
    {
        proof {
            lemma_take_next(all, i as int);
            assert(all[i as int] == items@[i as int].deep_view());
        }
        match read_record_text(&items[i], "id") {
            Some(one) => {
                push_text(&mut out, one);
            },
            None => {},
        }
        i = i + 1;
    }
    proof {
        lemma_take_all(all);
    }
    out
}

fn has_id(record: &Json, id: &str) -> (r: bool)
    ensures
        r == (record_text(record.deep_view(), "id"@) == Some(id@)),
{
    match read_record_text(record, "id") {
        Some(own) => same(own.as_str(), id),
        None => false,
    }
}

/// The place of the first record with a name.
pub open spec fn record_from(items: Seq<JsonModel>, id: Seq<char>, from: int) -> Option<int>
    decreases items.len() - from,
{
    if from < 0 || from >= items.len() {
        None
    } else if record_text(items[from], "id"@) == Some(id) {
        Some(from)
    } else {
        record_from(items, id, from + 1)
    }
}

fn find_record(items: &Vec<Json>, id: &str) -> (r: Option<usize>)
    ensures
        r matches Some(i) ==> i < items@.len() && record_from(items.deep_view(), id@, 0) == Some(
            i as int,
        ),
        r is None ==> record_from(items.deep_view(), id@, 0) is None,
{
    let ghost all = items.deep_view();
    let mut i: usize = 0;
    while i < items.len()
        invariant
            i <= items@.len(),
            all == items.deep_view(),
            record_from(all, id@, 0) == record_from(all, id@, i as int),
        decreases items@.len() - i,
    {
        assert(all[i as int] == items@[i as int].deep_view());
        if has_id(&items[i], id) {
            return Some(i);
        }
        i = i + 1;
    }
    None
}

/// The records with the names that records have: of each name the first, in the order of
/// the names.
pub open spec fn merged_records(records: Seq<JsonModel>) -> Seq<JsonModel> {
    sorted_set::<ByText>(record_ids(records)).map_values(
        |id: Seq<char>|
            match record_from(records, id, 0) {
                Some(i) => records[i],
                None => JsonModel::Null,
            },
    )
}

fn merge_records(records: &Vec<Json>) -> (r: Vec<Json>)
    ensures
        r.deep_view() == merged_records(records.deep_view()),
{
    let ids = to_sorted_set::<ByText>(&ids_of_records(records));
    let ghost all = ids.deep_view();
    let ghost model = records.deep_view();
    let ghost pick = |id: Seq<char>|
        match record_from(model, id, 0) {
            Some(i) => model[i],
            None => JsonModel::Null,
        };
    let mut out: Vec<Json> = Vec::new();
    let mut i: usize = 0;
    assert(out.deep_view() =~= all.take(0).map_values(pick));
    while i < ids.len()
        invariant
            i <= ids@.len(),
            all == ids.deep_view(),
            model == records.deep_view(),
            pick == (|id: Seq<char>|
                match record_from(model, id, 0) {
                    Some(i) => model[i],
                    None => JsonModel::Null,
                }),
            out.deep_view() == all.take(i as int).map_values(pick),
        decreases ids@.len() - i,
    {
        let ghost before = out.deep_view();
        match find_record(records, ids[i].as_str()) {
            Some(k) => {
                assert(model[k as int] == records@[k as int].deep_view());
                out.push(clone_json(&records[k]));
            },
            None => {
                out.push(Json::Null);
            },
        }
        assert(out.deep_view() =~= before.push(pick(all[i as int])));
        i = i + 1;
        assert(out.deep_view() =~= all.take(i as int).map_values(pick));
    }
    proof {
        lemma_take_all(all);
    }
    assert(out.deep_view() =~= merged_records(records.deep_view()));
    out
}

/// The statuses of records.
pub open spec fn record_statuses(items: Seq<JsonModel>) -> Seq<Seq<char>>
    decreases items.len(),
{
    if items.len() == 0 {
        Seq::empty()
    } else {
        let before = record_statuses(items.drop_last());
        match record_text(items.last(), "status"@) {
            Some(one) => before.push(one),
            None => before,
        }
    }
}

fn statuses_of_records(items: &Vec<Json>) -> (r: Vec<String>)
    ensures
        r.deep_view() == record_statuses(items.deep_view()),
{
    let mut out: Vec<String> = Vec::new();
    let ghost all = items.deep_view();
    let mut i: usize = 0;
    assert(out.deep_view() == record_statuses(all.take(0)));
    while i < items.len()
        invariant
            i <= items@.len(),
            all == items.deep_view(),
            out.deep_view() == record_statuses(all.take(i as int)),
        decreases items@.len() - i,
    {
        proof {
            lemma_take_next(all, i as int);
            assert(all[i as int] == items@[i as int].deep_view());
        }
        match read_record_text(&items[i], "status") {
            Some(one) => {
                push_text(&mut out, one);
            },
            None => {},
        }
        i = i + 1;
    }
    proof {
        lemma_take_all(all);
    }
    out
}

/// The text of a campaign and the path that it was read from.
#[derive(Debug, PartialEq, Eq)]
pub struct CampaignSource {
    pub path: String,
    pub contents: String,
}

/// The mathematical value of a `CampaignSource`.
pub struct CampaignSourceModel {
    pub path: Seq<char>,
    pub contents: Seq<char>,
}

impl DeepView for CampaignSource {
    type V = CampaignSourceModel;

    open spec fn deep_view(&self) -> CampaignSourceModel {
        CampaignSourceModel {
            path: self.path@,
            contents: self.contents@,
        }
    }
}

impl Clone for CampaignSource {
    fn clone(&self) -> (r: Self)
        ensures
            r.deep_view() == self.deep_view(),
    {
        CampaignSource {
            path: self.path.clone(),
            contents: self.contents.clone(),
        }
    }
}

/// Several campaigns as one.
#[derive(Debug)]
pub struct MergedCampaign {
    pub sources: Vec<String>,
    pub by_status: Vec<LabelCount>,
    pub records: Vec<Json>,
}

/// The mathematical value of a `MergedCampaign`.
pub struct MergedCampaignModel {
    pub sources: Seq<Seq<char>>,
    pub by_status: Seq<LabelCountModel>,
    pub records: Seq<JsonModel>,
}

impl DeepView for MergedCampaign {
    type V = MergedCampaignModel;

    open spec fn deep_view(&self) -> MergedCampaignModel {
        MergedCampaignModel {
            sources: self.sources.deep_view(),
            by_status: self.by_status.deep_view(),
            records: self.records.deep_view(),
        }
    }
}

/// The paths of campaigns and their records, in order; the first campaign that cannot be
/// used, and why, where there is one.
pub open spec fn gathered(sources: Seq<CampaignSourceModel>) -> Result<
    (Seq<Seq<char>>, Seq<JsonModel>),
    (int, CampaignError),
>
    decreases sources.len(),
{
    if sources.len() == 0 {
        Ok((Seq::empty(), Seq::empty()))
    } else {
        match gathered(sources.drop_last()) {
            Ok(before) => match records_in_text(sources.last().contents) {
                Ok(records) => Ok((before.0.push(sources.last().path), before.1 + records)),
                Err(error) => Err((sources.len() - 1, error)),
            },
            Err(error) => Err(error),
        }
    }
}

proof fn lemma_gathered_before(sources: Seq<CampaignSourceModel>, n: int)
    requires
        0 <= n <= sources.len(),
        gathered(sources.take(n)) is Err,
    ensures
        gathered(sources) == gathered(sources.take(n)),
    decreases sources.len() - n,
{
    if n < sources.len() {
        lemma_take_next(sources, n);
        lemma_gathered_before(sources, n + 1);
    } else {
        lemma_take_all(sources);
    }
}

/// Several campaigns as one; the first that cannot be used, and why, where there is one.
pub open spec fn merged_campaigns(sources: Seq<CampaignSourceModel>) -> Result<
    MergedCampaignModel,
    (int, CampaignError),
> {
    match gathered(sources) {
        Ok(parts) => {
            let records = merged_records(parts.1);
            Ok(
                MergedCampaignModel {
                    sources: parts.0,
                    by_status: counts_of(record_statuses(records)),
                    records,
                },
            )
        },
        Err(error) => Err(error),
    }
}

fn read_source(contents: &str) -> (r: Result<Vec<Json>, CampaignError>)
    ensures
        match records_in_text(contents@) {
            Ok(records) => r matches Ok(found) && found.deep_view() == records,
            Err(error) => r matches Err(e) && e == error,
        },
{
    match parse(contents) {
        Some(value) => match find_records(&value) {
            Some(records) => Ok(clone_list(records)),
            None => Err(CampaignError::NoRecords),
        },
        None => Err(CampaignError::NotParsed),
    }
}

fn clone_list(items: &Vec<Json>) -> (r: Vec<Json>)
    ensures
        r.deep_view() == items.deep_view(),
{
    let ghost all = items.deep_view();
    let mut out: Vec<Json> = Vec::new();
    let mut i: usize = 0;
    assert(out.deep_view() =~= all.take(0));
    while i < items.len()
        invariant
            i <= items@.len(),
            all == items.deep_view(),
            out.deep_view() == all.take(i as int),
        decreases items@.len() - i,
    {
        let ghost before = out.deep_view();
        assert(all[i as int] == items@[i as int].deep_view());
        out.push(clone_json(&items[i]));
        assert(out.deep_view() =~= before.push(all[i as int]));
        i = i + 1;
        assert(out.deep_view() =~= all.take(i as int));
    }
    proof {
        lemma_take_all(all);
    }
    out
}

fn append_list(out: &mut Vec<Json>, items: &Vec<Json>)
    ensures
        final(out).deep_view() == old(out).deep_view() + items.deep_view(),
{
    let ghost before = out.deep_view();
    let mut more = clone_list(items);
    let ghost added = more.deep_view();
    out.append(&mut more);
    assert(out.deep_view() =~= before + added);
}

/// Several campaigns as one; the first that cannot be used, and why, where there is one. Of
/// the records with one name the first stays.
pub fn merge_mutation_campaigns(sources: &Vec<CampaignSource>) -> (r: Result<
    MergedCampaign,
    (usize, CampaignError),
>)
    ensures
        match merged_campaigns(sources.deep_view()) {
            Ok(merged) => r matches Ok(found) && found.deep_view() == merged,
            Err(error) => r matches Err(e) && e.0 == error.0 && e.1 == error.1,
        },
{
    let ghost all = sources.deep_view();
    let mut paths: Vec<String> = Vec::new();
    let mut records: Vec<Json> = Vec::new();
    let mut i: usize = 0;
    assert(all.take(0).len() == 0);
    assert(paths.deep_view() =~= Seq::<Seq<char>>::empty());
    assert(records.deep_view() =~= Seq::<JsonModel>::empty());
    while i < sources.len()
        invariant
            i <= sources@.len(),
            all == sources.deep_view(),
            gathered(all.take(i as int)) == Ok::<
                (Seq<Seq<char>>, Seq<JsonModel>),
                (int, CampaignError),
            >((paths.deep_view(), records.deep_view())),
        decreases sources@.len() - i,
    {
        proof {
            lemma_take_next(all, i as int);
            assert(all[i as int] == sources@[i as int].deep_view());
        }
        match read_source(sources[i].contents.as_str()) {
            Ok(more) => {
                push_text(&mut paths, owned(sources[i].path.as_str()));
                append_list(&mut records, &more);
            },
            Err(error) => {
                proof {
                    lemma_gathered_before(all, i + 1);
                }
                return Err((i, error));
            },
        }
        i = i + 1;
    }
    proof {
        lemma_take_all(all);
    }
    let merged = merge_records(&records);
    let by_status = label_counts(&statuses_of_records(&merged));
    Ok(MergedCampaign { sources: paths, by_status, records: merged })
}

/// A merged campaign has the records of its sources and no others, and of each name one: in
/// the order of the names.
pub proof fn law_merging_keeps_one_record_of_each_name(records: Seq<JsonModel>, i: int)
    requires
        0 <= i < merged_records(records).len(),
    ensures
        ascending::<ByText>(sorted_set::<ByText>(record_ids(records))),
        records.contains(merged_records(records)[i]),
        record_text(merged_records(records)[i], "id"@) == Some(
            sorted_set::<ByText>(record_ids(records))[i],
        ),
{
    let ids = sorted_set::<ByText>(record_ids(records));
    lemma_sorted_set_ascending::<ByText>(record_ids(records));
    lemma_sorted_set_items(record_ids(records));
    assert(ids.contains(ids[i]));
    lemma_ids_come_from_records(records, ids[i]);
    let k = choose|k: int|
        0 <= k < records.len() && record_text(#[trigger] records[k], "id"@) == Some(ids[i]);
    lemma_record_is_found(records, ids[i], 0, k);
}

/// Every mutant of a source is in the merged campaign: of the records with its name, the first
/// one.
pub proof fn law_merging_keeps_the_first_record(records: Seq<JsonModel>, k: int, id: Seq<char>)
    requires
        0 <= k < records.len(),
        record_text(records[k], "id"@) == Some(id),
        forall|j: int| 0 <= j < k ==> record_text(#[trigger] records[j], "id"@) != Some(id),
    ensures
        merged_records(records).contains(records[k]),
        forall|i: int|
            0 <= i < merged_records(records).len() && record_text(
                #[trigger] merged_records(records)[i],
                "id"@,
            ) == Some(id) ==> merged_records(records)[i] == records[k],
{
    let names = record_ids(records);
    let ids = sorted_set::<ByText>(names);
    let merged = merged_records(records);
    lemma_record_id_is_listed(records, k, id);
    lemma_sorted_set_items(names);
    lemma_first_record(records, id, 0, k);
    assert(ids.contains(id));
    let at = choose|at: int| 0 <= at < ids.len() && ids[at] == id;
    assert(merged[at] == records[k]);
    assert forall|i: int|
        0 <= i < merged.len() && record_text(#[trigger] merged[i], "id"@) == Some(
            id,
        ) implies merged[i] == records[k] by {
        law_merging_keeps_one_record_of_each_name(records, i);
    }
}

proof fn lemma_record_id_is_listed(records: Seq<JsonModel>, k: int, id: Seq<char>)
    requires
        0 <= k < records.len(),
        record_text(records[k], "id"@) == Some(id),
    ensures
        record_ids(records).contains(id),
    decreases records.len(),
{
    let all = record_ids(records);
    let before = record_ids(records.drop_last());
    if k < records.len() - 1 {
        lemma_record_id_is_listed(records.drop_last(), k, id);
        let j = choose|j: int| 0 <= j < before.len() && before[j] == id;
        assert(all[j] == id);
    } else {
        assert(all[all.len() - 1] == id);
    }
}

proof fn lemma_first_record(records: Seq<JsonModel>, id: Seq<char>, from: int, k: int)
    requires
        0 <= from <= k < records.len(),
        record_text(records[k], "id"@) == Some(id),
        forall|j: int| 0 <= j < k ==> record_text(#[trigger] records[j], "id"@) != Some(id),
    ensures
        record_from(records, id, from) == Some(k),
    decreases k - from,
{
    if from < k {
        assert(record_text(records[from], "id"@) != Some(id));
        lemma_first_record(records, id, from + 1, k);
    }
}

proof fn lemma_ids_come_from_records(records: Seq<JsonModel>, id: Seq<char>)
    requires
        record_ids(records).contains(id),
    ensures
        exists|k: int|
            0 <= k < records.len() && record_text(#[trigger] records[k], "id"@) == Some(id),
    decreases records.len(),
{
    if records.len() > 0 {
        let before = record_ids(records.drop_last());
        if before.contains(id) {
            lemma_ids_come_from_records(records.drop_last(), id);
            let k = choose|k: int|
                0 <= k < records.drop_last().len() && record_text(
                    #[trigger] records.drop_last()[k],
                    "id"@,
                ) == Some(id);
            assert(records[k] == records.drop_last()[k]);
        } else {
            let at = choose|j: int| 0 <= j < record_ids(records).len() && record_ids(records)[j] == id;
            assert(record_ids(records)[at] == id);
            if at < before.len() {
                assert(before[at] == id);
            }
            assert(record_text(records[records.len() - 1], "id"@) == Some(id));
        }
    }
}

proof fn lemma_record_is_found(records: Seq<JsonModel>, id: Seq<char>, from: int, k: int)
    requires
        0 <= from <= k < records.len(),
        record_text(records[k], "id"@) == Some(id),
    ensures
        record_from(records, id, from) matches Some(at) && 0 <= at < records.len() && record_text(
            records[at],
            "id"@,
        ) == Some(id),
    decreases k - from,
{
    if from < k {
        lemma_record_is_found(records, id, from + 1, k);
    }
}

// ---------------------------------------------------------------------------
// Text
// ---------------------------------------------------------------------------
/// Counts by status.
pub open spec fn count_lines(items: Seq<LabelCountModel>) -> Seq<char>
    decreases items.len(),
{
    if items.len() == 0 {
        Seq::empty()
    } else {
        count_lines(items.drop_last()) + ("- `"@ + items.last().label + "`: `"@ + decimal(items.last().count as int) + "`\n"@)
    }
}

fn push_counts(out: &mut String, items: &Vec<LabelCount>)
    ensures
        final(out)@ == old(out)@ + count_lines(items.deep_view()),
{
    let ghost before = out@;
    let ghost all = items.deep_view();
    let mut i: usize = 0;
    assert(out@ == before + count_lines(all.take(0)));
    while i < items.len()
        invariant
            i <= items@.len(),
            all == items.deep_view(),
            out@ == before + count_lines(all.take(i as int)),
        decreases items@.len() - i,
    {
        proof {
            lemma_take_next(all, i as int);
        }
        let ghost so_far = out@;
        out.append("- `");
        out.append(items[i].label.as_str());
        out.append("`: `");
        out.append(print_usize(items[i].count).as_str());
        out.append("`\n");
        assert(all[i as int] == items@[i as int].deep_view());
        assert(out@ =~= before + (count_lines(all.take(i as int)) + ("- `"@ + all[i as int].label + "`: `"@ + decimal(all[i as int].count as int) + "`\n"@)));
        i = i + 1;
        assert(out@ == before + count_lines(all.take(i as int)));
    }
    proof {
        lemma_take_all(all);
    }
}

/// Several campaigns in words.
pub open spec fn merged_words(merged: MergedCampaignModel) -> Seq<char> {
    "# veritas mutants merge\n\n- Sources: `"@ + decimal(merged.sources.len() as int)
        + "`\n- Records: `"@ + decimal(merged.records.len() as int) + "`\n\n## Status\n\n"@
        + count_lines(merged.by_status)
}

fn render_merged(merged: &MergedCampaign) -> (r: String)
    ensures
        r@ == merged_words(merged.deep_view()),
{
    assert(merged.sources@.len() == merged.sources.deep_view().len());
    assert(merged.records@.len() == merged.records.deep_view().len());
    let mut out = owned("# veritas mutants merge\n\n- Sources: `");
    out.append(print_usize(merged.sources.len()).as_str());
    out.append("`\n- Records: `");
    out.append(print_usize(merged.records.len()).as_str());
    out.append("`\n\n## Status\n\n");
    push_counts(&mut out, &merged.by_status);
    out
}

/// Several campaigns as a document.
pub open spec fn merged_document(merged: MergedCampaignModel) -> JsonModel {
    JsonModel::Object(
        seq![
            ("version"@, JsonModel::Number(decimal(1))),
            ("source_count"@, JsonModel::Number(decimal(merged.sources.len() as int))),
            ("sources"@, texts_model(merged.sources)),
            ("record_count"@, JsonModel::Number(decimal(merged.records.len() as int))),
            ("by_status"@, counts_document(merged.by_status)),
            ("records"@, JsonModel::Array(merged.records)),
        ],
    )
}

fn list_json(items: &Vec<Json>) -> (r: Json)
    ensures
        r.deep_view() == JsonModel::Array(items.deep_view()),
{
    let copy = clone_list(items);
    proof {
        lemma_array_model(copy);
    }
    Json::Array(copy)
}

/// Several campaigns as a document.
pub fn merged_json(merged: &MergedCampaign) -> (r: Json)
    ensures
        r.deep_view() == merged_document(merged.deep_view()),
{
    assert(merged.sources@.len() == merged.sources.deep_view().len());
    assert(merged.records@.len() == merged.records.deep_view().len());
    let mut members = Members::new();
    members.put("version", number(1));
    members.put("source_count", number(merged.sources.len() as u64));
    members.put("sources", texts(&merged.sources));
    members.put("record_count", number(merged.records.len() as u64));
    members.put("by_status", counts_json(&merged.by_status));
    members.put("records", list_json(&merged.records));
    assert(members.model() =~= merged_document(merged.deep_view())->Object_0);
    members.finish()
}

/// The text of several campaigns as one.
pub fn merged_text(merged: &MergedCampaign) -> (r: String)
    ensures
        r@ == pretty_json(merged_document(merged.deep_view())),
{
    pretty(&merged_json(merged))
}

/// What several campaigns as one print.
pub fn print_mutation_merge(
    merged: &MergedCampaign,
    format: OutputFormat,
) -> (r: Result<String, String>)
    ensures
        gives(
            r,
            printed(
                format,
                merged_words(merged.deep_view()),
                merged_document(merged.deep_view()),
                "mutants merge"@,
            ),
        ),
{
    match format {
        OutputFormat::Markdown => Ok(render_merged(merged)),
        OutputFormat::Json => Ok(print_document(&merged_json(merged))),
        OutputFormat::Sarif => Err(unsupported_format("mutants merge")),
        OutputFormat::Junit => Err(unsupported_format("mutants merge")),
    }
}

/// A mutant in words.
#[verifier::opaque]
pub open spec fn mutant_words(record: MutationRecordModel, diffs: bool) -> Seq<char> {
    let t = "\n## `"@
        + record.id
        + "`\n\n- Status: `"@
        + record.status.name_text()
        + "`\n- Language: `"@
        + record.language
        + "`\n- Target: `"@
        + record.path
        + "` / `"@
        + record.symbol
        + "`\n- Domain/operator: `"@
        + record.domain
        + "` / `"@
        + record.operator
        + "`\n"@;
    let t = match record.from {
        Some(from) => {
            let t = match record.to {
                Some(to) => {
                    let t = t + "- Replacement: `"@ + from + "` -> `"@ + to + "`\n"@;
                    t
                },
                None => {
                    t
                },
            };
            t
        },
        None => {
            t
        },
    };
    let t = match record.selected_test_command {
        Some(one) => {
            let t = t + "- Selected test command: `"@ + one + "`\n"@;
            t
        },
        None => {
            t
        },
    };
    let t = match record.test_selection_hint {
        Some(one) => {
            let t = t + "- Test selection: "@ + one + "\n"@;
            t
        },
        None => {
            t
        },
    };
    let t = match record.test_selection_fallback {
        Some(one) => {
            let t = t + "- Test selection fallback: "@ + one + "\n"@;
            t
        },
        None => {
            t
        },
    };
    let t = match record.skip_reason {
        Some(one) => {
            let t = t + "- Skip reason: "@ + one + "\n"@;
            t
        },
        None => {
            t
        },
    };
    let t = match record.risk_note {
        Some(one) => {
            let t = t + "- Risk: "@ + one + "\n"@;
            t
        },
        None => {
            t
        },
    };
    let t = match record.suggested_test {
        Some(one) => {
            let t = t + "- Suggested test: "@ + one + "\n"@;
            t
        },
        None => {
            t
        },
    };
    let t = if diffs {
        let t = match record.diff {
            Some(diff) => {
                let t = t + "\n```diff\n"@ + diff + "\n```\n"@;
                t
            },
            None => {
                t
            },
        };
        t
    } else {
        t
    };
    t
}

fn record_words(record: &MutationRecord, diffs: bool) -> (r: String)
    ensures
        r@ == mutant_words(record.deep_view(), diffs),
{
    proof {
        reveal(mutant_words);
    }
    let mut out = owned("\n## `");
    out.append(record.id.as_str());
    out.append("`\n\n- Status: `");
    out.append(record.status.name());
    out.append("`\n- Language: `");
    out.append(record.language.as_str());
    out.append("`\n- Target: `");
    out.append(record.path.as_str());
    out.append("` / `");
    out.append(record.symbol.as_str());
    out.append("`\n- Domain/operator: `");
    out.append(record.domain.as_str());
    out.append("` / `");
    out.append(record.operator.as_str());
    out.append("`\n");
    if let Some(from) = &record.from {
        if let Some(to) = &record.to {
            out.append("- Replacement: `");
            out.append(from.as_str());
            out.append("` -> `");
            out.append(to.as_str());
            out.append("`\n");
        }
    }
    if let Some(one) = &record.selected_test_command {
        out.append("- Selected test command: `");
        out.append(one.as_str());
        out.append("`\n");
    }
    if let Some(one) = &record.test_selection_hint {
        out.append("- Test selection: ");
        out.append(one.as_str());
        out.append("\n");
    }
    if let Some(one) = &record.test_selection_fallback {
        out.append("- Test selection fallback: ");
        out.append(one.as_str());
        out.append("\n");
    }
    if let Some(one) = &record.skip_reason {
        out.append("- Skip reason: ");
        out.append(one.as_str());
        out.append("\n");
    }
    if let Some(one) = &record.risk_note {
        out.append("- Risk: ");
        out.append(one.as_str());
        out.append("\n");
    }
    if let Some(one) = &record.suggested_test {
        out.append("- Suggested test: ");
        out.append(one.as_str());
        out.append("\n");
    }
    if diffs {
        if let Some(diff) = &record.diff {
            out.append("\n```diff\n");
            out.append(diff.as_str());
            out.append("\n```\n");
        }
    }
    out
}

/// Mutants in words.
pub open spec fn all_mutant_words(items: Seq<MutationRecordModel>, diffs: bool) -> Seq<char>
    decreases items.len(),
{
    if items.len() == 0 {
        Seq::empty()
    } else {
        all_mutant_words(items.drop_last(), diffs) + mutant_words(items.last(), diffs)
    }
}

fn push_mutants(out: &mut String, items: &Vec<MutationRecord>, diffs: bool)
    ensures
        final(out)@ == old(out)@ + all_mutant_words(items.deep_view(), diffs),
{
    let ghost before = out@;
    let ghost all = items.deep_view();
    let mut i: usize = 0;
    assert(out@ == before + all_mutant_words(all.take(0), diffs));
    while i < items.len()
        invariant
            i <= items@.len(),
            all == items.deep_view(),
            out@ == before + all_mutant_words(all.take(i as int), diffs),
        decreases items@.len() - i,
    {
        proof {
            lemma_take_next(all, i as int);
        }
        let ghost so_far = out@;
        out.append(record_words(&items[i], diffs).as_str());
        assert(out@ =~= before + (all_mutant_words(all.take(i as int), diffs) + mutant_words(all[i as int], diffs)));
        i = i + 1;
        assert(out@ == before + all_mutant_words(all.take(i as int), diffs));
    }
    proof {
        lemma_take_all(all);
    }
}

/// The mutants of a report in words.
pub open spec fn mutant_list_words(report: VerificationReportModel, diffs: bool) -> Seq<char> {
    let records = records_of_runs(report.runs);
    "# veritas mutants list\n\n- Mutants: `"@ + decimal(records.len() as int)
        + "`\n- Mutation score: `"@ + percent_text(report.quality.mutation.score_percent) + "`\n"@
        + all_mutant_words(records, diffs)
}

/// The mutants of a report as a document.
pub open spec fn mutant_list_document(report: VerificationReportModel) -> JsonModel {
    let records = records_of_runs(report.runs);
    JsonModel::Object(
        seq![
            ("version"@, JsonModel::Number(decimal(1))),
            ("count"@, JsonModel::Number(decimal(records.len() as int))),
            ("records"@, JsonModel::Array(mutation_record_documents(records))),
        ],
    )
}

/// What the mutants of a report print, with or without how they differ.
pub fn print_mutants_list(report: &VerificationReport, format: OutputFormat, diffs: bool) -> (r:
    Result<String, String>)
    ensures
        gives(
            r,
            printed(
                format,
                mutant_list_words(report.deep_view(), diffs),
                mutant_list_document(report.deep_view()),
                "mutants list"@,
            ),
        ),
{
    let records = run_records(&report.runs);
    assert(records@.len() == records.deep_view().len());
    match format {
        OutputFormat::Markdown => {
            let mut out = owned("# veritas mutants list\n\n- Mutants: `");
            out.append(print_usize(records.len()).as_str());
            out.append("`\n- Mutation score: `");
            out.append(percent_or_na(report.quality.mutation.score_percent).as_str());
            out.append("`\n");
            push_mutants(&mut out, &records, diffs);
            Ok(out)
        },
        OutputFormat::Json => {
            let mut members = Members::new();
            members.put("version", number(1));
            members.put("count", number(records.len() as u64));
            members.put("records", mutation_record_list(&records));
            assert(members.model() =~= mutant_list_document(report.deep_view())->Object_0);
            Ok(print_document(&members.finish()))
        },
        OutputFormat::Sarif => Err(unsupported_format("mutants list")),
        OutputFormat::Junit => Err(unsupported_format("mutants list")),
    }
}

proof fn lemma_wanted_records(wanted: Seq<Seq<char>>, items: Seq<JsonModel>, k: int)
    requires
        0 <= k < items.len(),
        wanted_id(wanted, items[k]) is Some,
    ensures
        wanted_ids_in(wanted, items).contains(wanted_id(wanted, items[k])->0),
    decreases items.len(),
{
    let all = wanted_ids_in(wanted, items);
    let one = wanted_id(wanted, items[k])->0;
    if k < items.len() - 1 {
        lemma_wanted_records(wanted, items.drop_last(), k);
        let before = wanted_ids_in(wanted, items.drop_last());
        let j = choose|j: int| 0 <= j < before.len() && before[j] == one;
        assert(all[j] == one);
    } else {
        assert(all[all.len() - 1] == one);
    }
}

proof fn lemma_plain_statuses_follow(items: Seq<Seq<char>>)
    ensures
        plain_statuses_of(items).len() == items.len(),
        forall|k: int|
            0 <= k < items.len() ==> #[trigger] plain_statuses_of(items)[k] == plain_status(items[k]),
    decreases items.len(),
{
    if items.len() > 0 {
        lemma_plain_statuses_follow(items.drop_last());
    }
}

/// Every mutant of a campaign whose status is asked for, however it is written, is taken by its
/// name.
pub proof fn law_wanted_mutants_are_taken(
    contents: Seq<char>,
    statuses: Seq<Seq<char>>,
    k: int,
    s: int,
)
    requires
        0 <= s < statuses.len(),
    ensures
        records_in_text(contents) matches Ok(records) ==> {
            let status = record_text(records[k], "status"@);
            let id = record_text(records[k], "id"@);
            let ids = ids_from_campaign(contents, statuses);
            0 <= k < records.len() && status is Some && id is Some && lower(
                blank_separators(status->0),
            ) == lower(blank_separators(statuses[s])) ==> ids is Ok && ids->Ok_0.contains(id->0)
        },
{
    lemma_plain_statuses_follow(statuses);
    let wanted = plain_statuses_of(statuses);
    assert(wanted[s] == plain_status(statuses[s]));
    match records_in_text(contents) {
        Ok(records) => {
            if 0 <= k < records.len() && wanted_id(wanted, records[k]) is Some {
                lemma_wanted_records(wanted, records, k);
            }
        },
        Err(_) => {},
    }
}

} // verus!
