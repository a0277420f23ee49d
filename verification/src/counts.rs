//! How often labels occur.
use vstd::prelude::*;

use crate::json::{number, Json, JsonModel, Members};
use crate::number::{decimal, print_usize};
use crate::order::{ascending, lemma_sorted_set_ascending, sorted_set, to_sorted_set, ByText};
use crate::seqs::{cat3, lemma_take_all, lemma_take_next};
use crate::split::{join, joined, push_text};
use crate::text::{owned, same};

verus! {

/// How often a label occurs.
#[derive(Debug, PartialEq, Eq)]
pub struct LabelCount {
    pub label: String,
    pub count: usize,
}

/// The mathematical value of a `LabelCount`.
pub struct LabelCountModel {
    pub label: Seq<char>,
    pub count: usize,
}

impl DeepView for LabelCount {
    type V = LabelCountModel;

    open spec fn deep_view(&self) -> LabelCountModel {
        LabelCountModel {
            label: self.label@,
            count: self.count,
        }
    }
}

impl Clone for LabelCount {
    fn clone(&self) -> (r: Self)
        ensures
            r.deep_view() == self.deep_view(),
    {
        LabelCount {
            label: self.label.clone(),
            count: self.count,
        }
    }
}

/// A copy of label counts.
pub fn clone_label_counts(items: &Vec<LabelCount>) -> (r: Vec<LabelCount>)
    ensures
        r.deep_view() == items.deep_view(),
        r@.len() == items@.len(),
{
    let mut out: Vec<LabelCount> = Vec::new();
    let mut i: usize = 0;
    while i < items.len()
        invariant
            i <= items@.len(),
            out@.len() == i,
            forall|j: int| 0 <= j < i ==> #[trigger] out@[j].deep_view() == items@[j].deep_view(),
        decreases items@.len() - i,
    {
        out.push(items[i].clone());
        i = i + 1;
    }
    assert(out.deep_view() == items.deep_view());
    out
}

/// Puts an item at the end of the list.
pub fn push_label_count(items: &mut Vec<LabelCount>, item: LabelCount)
    ensures
        final(items).deep_view() == old(items).deep_view().push(item.deep_view()),
        final(items)@.len() == old(items)@.len() + 1,
{
    let ghost before = items.deep_view();
    items.push(item);
    assert(items.deep_view() == before.push(item.deep_view()));
}

/// How often a label occurs.
pub open spec fn label_count(items: Seq<Seq<char>>, label: Seq<char>) -> int
    decreases items.len(),
{
    if items.len() == 0 {
        0
    } else {
        label_count(items.drop_last(), label) + if items.last() == label {
            1int
        } else {
            0int
        }
    }
}

fn count_label(items: &Vec<String>, label: &str) -> (r: usize)
    ensures
        r == label_count(items.deep_view(), label@),
        r <= items@.len(),
{
    let ghost all = items.deep_view();
    let mut n: usize = 0;
    let mut i: usize = 0;
    while i < items.len()
        invariant
            i <= items@.len(),
            n <= i,
            all == items.deep_view(),
            n == label_count(all.take(i as int), label@),
        decreases items@.len() - i,
    {
        proof {
            lemma_take_next(all, i as int);
        }
        if same(items[i].as_str(), label) {
            n = n + 1;
        }
        i = i + 1;
    }
    proof {
        lemma_take_all(all);
    }
    n
}

/// How often labels occur, in the order of the labels.
pub open spec fn counts_of(labels: Seq<Seq<char>>) -> Seq<LabelCountModel> {
    sorted_set::<ByText>(labels).map_values(
        |label: Seq<char>| LabelCountModel { label, count: label_count(labels, label) as usize },
    )
}

/// How often labels occur, in the order of the labels.
pub fn label_counts(labels: &Vec<String>) -> (r: Vec<LabelCount>)
    ensures
        r.deep_view() == counts_of(labels.deep_view()),
{
    let names = to_sorted_set::<ByText>(labels);
    let ghost all = names.deep_view();
    let ghost model = labels.deep_view();
    let mut out: Vec<LabelCount> = Vec::new();
    let mut i: usize = 0;
    assert(out.deep_view() =~= all.take(0).map_values(
        |label: Seq<char>| LabelCountModel { label, count: label_count(model, label) as usize },
    ));
    while i < names.len()
        invariant
            i <= names@.len(),
            all == names.deep_view(),
            model == labels.deep_view(),
            out.deep_view() == all.take(i as int).map_values(
                |label: Seq<char>|
                    LabelCountModel { label, count: label_count(model, label) as usize },
            ),
        decreases names@.len() - i,
    {
        proof {
            lemma_take_next(all, i as int);
        }
        let count: usize = count_label(labels, names[i].as_str());
        push_label_count(&mut out, LabelCount { label: owned(names[i].as_str()), count });
        i = i + 1;
        assert(out.deep_view() =~= all.take(i as int).map_values(
            |label: Seq<char>|
                LabelCountModel { label, count: label_count(model, label) as usize },
        ));
    }
    proof {
        lemma_take_all(all);
    }
    out
}

/// The labels of counts ascend, and no label is there twice.
pub proof fn law_counts_are_ordered(labels: Seq<Seq<char>>)
    ensures
        ascending::<ByText>(counts_of(labels).map_values(|c: LabelCountModel| c.label)),
{
    lemma_sorted_set_ascending::<ByText>(labels);
    assert(counts_of(labels).map_values(|c: LabelCountModel| c.label) =~= sorted_set::<ByText>(
        labels,
    ));
}

/// How many there are over all labels.
pub open spec fn count_total(counts: Seq<LabelCountModel>) -> int
    decreases counts.len(),
{
    if counts.len() == 0 {
        0
    } else {
        count_total(counts.drop_last()) + counts.last().count
    }
}

proof fn lemma_count_total_bound(counts: Seq<LabelCountModel>)
    ensures
        0 <= count_total(counts) <= counts.len() * (usize::MAX as int),
    decreases counts.len(),
{
    if counts.len() > 0 {
        lemma_count_total_bound(counts.drop_last());
        assert((counts.len() - 1) * (usize::MAX as int) + (usize::MAX as int) == counts.len() * (
        usize::MAX as int)) by (nonlinear_arith);
    }
}

/// How many there are over all labels.
pub fn sum_counts(counts: &Vec<LabelCount>) -> (r: u128)
    ensures
        r == count_total(counts.deep_view()),
{
    let ghost all = counts.deep_view();
    let n: usize = counts.len();
    let mut total: u128 = 0;
    let mut i: usize = 0;
    assert(all.take(0).len() == 0);
    while i < n
        invariant
            i <= n,
            n == counts@.len(),
            all == counts.deep_view(),
            total == count_total(all.take(i as int)),
        decreases n - i,
    {
        proof {
            lemma_take_next(all, i as int);
            assert(all[i as int] == counts@[i as int].deep_view());
            lemma_count_total_bound(all.take(i + 1));
            assert((i + 1) * (usize::MAX as int) <= 0xffff_ffff_ffff_ffff * 0xffff_ffff_ffff_ffff)
                by (nonlinear_arith)
                requires
                    0 <= i + 1 <= 0xffff_ffff_ffff_ffff,
                    0 <= usize::MAX as int <= 0xffff_ffff_ffff_ffff,
            ;
        }
        total = total + counts[i].count as u128;
        i = i + 1;
    }
    proof {
        lemma_take_all(all);
    }
    total
}

/// Counts by label in words.
pub open spec fn count_words(counts: Seq<LabelCountModel>) -> Seq<Seq<char>> {
    counts.map_values(|c: LabelCountModel| c.label + "="@ + decimal(c.count as int))
}

/// Counts by label in words.
pub fn format_counts(counts: &Vec<LabelCount>) -> (r: String)
    ensures
        r@ == joined(count_words(counts.deep_view()), ", "@),
{
    let ghost all = counts.deep_view();
    let mut words: Vec<String> = Vec::new();
    let mut i: usize = 0;
    assert(words.deep_view() =~= count_words(all.take(0)));
    while i < counts.len()
        invariant
            i <= counts@.len(),
            all == counts.deep_view(),
            words.deep_view() == count_words(all.take(i as int)),
        decreases counts@.len() - i,
    {
        proof {
            lemma_take_next(all, i as int);
            assert(all[i as int] == counts@[i as int].deep_view());
        }
        push_text(
            &mut words,
            cat3(counts[i].label.as_str(), "=", print_usize(counts[i].count).as_str()),
        );
        i = i + 1;
        assert(words.deep_view() =~= count_words(all.take(i as int)));
    }
    proof {
        lemma_take_all(all);
    }
    join(&words, ", ")
}

/// Counts by label as an object.
pub open spec fn counts_document(counts: Seq<LabelCountModel>) -> JsonModel {
    JsonModel::Object(
        counts.map_values(
            |c: LabelCountModel| (c.label, JsonModel::Number(decimal(c.count as int))),
        ),
    )
}

/// A counts as a JSON value.
pub fn counts_json(counts: &Vec<LabelCount>) -> (r: Json)
    ensures
        r.deep_view() == counts_document(counts.deep_view()),
{
    let ghost all = counts.deep_view();
    let mut members = Members::new();
    let mut i: usize = 0;
    assert(members.model() =~= counts_document(all.take(0))->Object_0);
    while i < counts.len()
        invariant
            i <= counts@.len(),
            all == counts.deep_view(),
            members.model() == counts_document(all.take(i as int))->Object_0,
        decreases counts@.len() - i,
    {
        proof {
            lemma_take_next(all, i as int);
            assert(all[i as int] == counts@[i as int].deep_view());
        }
        members.put(counts[i].label.as_str(), number(counts[i].count as u64));
        i = i + 1;
        assert(members.model() =~= counts_document(all.take(i as int))->Object_0);
    }
    proof {
        lemma_take_all(all);
    }
    members.finish()
}

} // verus!
