//! Lists of texts kept under paths, in the order of the paths.
use vstd::prelude::*;

use crate::order::{ascending, inserted, lemma_inserted_ascending, TextOrder};
use crate::paths::{lemma_path_lt_total, path_less, path_lt, path_same, same_path, ByPath};
use crate::seqs::{lemma_take_all, lemma_take_next};
use crate::text::{clone_texts, owned};

verus! {

// ---------------------------------------------------------------------------
// Texts by path
// ---------------------------------------------------------------------------
/// A path with the texts that are kept under it.
#[derive(Debug, PartialEq, Eq)]
pub struct PathTexts {
    pub path: String,
    pub texts: Vec<String>,
}

/// The mathematical value of a `PathTexts`.
pub struct PathTextsModel {
    pub path: Seq<char>,
    pub texts: Seq<Seq<char>>,
}

impl DeepView for PathTexts {
    type V = PathTextsModel;

    open spec fn deep_view(&self) -> PathTextsModel {
        PathTextsModel {
            path: self.path@,
            texts: self.texts.deep_view(),
        }
    }
}

impl Clone for PathTexts {
    fn clone(&self) -> (r: Self)
        ensures
            r.deep_view() == self.deep_view(),
    {
        PathTexts {
            path: self.path.clone(),
            texts: clone_texts(&self.texts),
        }
    }
}

/// A copy of path textss.
pub fn clone_path_texts(items: &Vec<PathTexts>) -> (r: Vec<PathTexts>)
    ensures
        r.deep_view() == items.deep_view(),
        r@.len() == items@.len(),
{
    let mut out: Vec<PathTexts> = Vec::new();
    let mut i: usize = 0;
    while i < items.len()
        invariant
            i <= items@.len(),
            out@.len() == i,
            forall|j: int| 0 <= j < i ==> #[trigger] out@[j].deep_view() == items@[j].deep_view(),
        decreases items@.len() - i,
    {
        out.push(items[i].clone());
        i = i + 1;
    }
    assert(out.deep_view() == items.deep_view());
    out
}

/// Puts an item at the end of the list.
pub fn push_path_texts(items: &mut Vec<PathTexts>, item: PathTexts)
    ensures
        final(items).deep_view() == old(items).deep_view().push(item.deep_view()),
        final(items)@.len() == old(items)@.len() + 1,
{
    let ghost before = items.deep_view();
    items.push(item);
    assert(items.deep_view() == before.push(item.deep_view()));
}

/// The entries with texts put under a path, behind those that are there or in their
/// place. The entries are in the order of their paths, and each path is there once.
pub open spec fn texts_put(
    entries: Seq<PathTextsModel>,
    path: Seq<char>,
    texts: Seq<Seq<char>>,
    behind: bool,
) -> Seq<PathTextsModel>
    decreases entries.len(),
{
    if entries.len() == 0 || path_lt(entries.last().path, path) {
        entries.push(PathTextsModel { path, texts })
    } else if path_lt(path, entries.last().path) {
        texts_put(entries.drop_last(), path, texts, behind).push(entries.last())
    } else {
        entries.drop_last().push(
            PathTextsModel {
                path: entries.last().path,
                texts: if behind {
                    entries.last().texts + texts
                } else {
                    texts
                },
            },
        )
    }
}

/// The paths of entries.
pub open spec fn paths_of_entries(entries: Seq<PathTextsModel>) -> Seq<Seq<char>> {
    entries.map_values(|entry: PathTextsModel| entry.path)
}

proof fn lemma_texts_put_at(
    entries: Seq<PathTextsModel>,
    path: Seq<char>,
    texts: Seq<Seq<char>>,
    behind: bool,
    at: int,
)
    requires
        0 <= at <= entries.len(),
        forall|j: int|
            at <= j < entries.len() ==> !path_lt((#[trigger] entries[j]).path, path) && path_lt(
                path,
                entries[j].path,
            ),
    ensures
        texts_put(entries, path, texts, behind) == texts_put(entries.take(at), path, texts, behind)
            + entries.skip(at),
    decreases entries.len() - at,
{
    if at == entries.len() {
        lemma_take_all(entries);
        assert(texts_put(entries, path, texts, behind) =~= texts_put(entries, path, texts, behind)
            + entries.skip(at));
    } else {
        let t = entries.drop_last();
        assert(path_lt(path, entries[entries.len() - 1].path));
        assert forall|j: int| at <= j < t.len() implies !path_lt((#[trigger] t[j]).path, path)
            && path_lt(path, t[j].path) by {
            assert(t[j] == entries[j]);
        }
        lemma_texts_put_at(t, path, texts, behind, at);
        assert(t.take(at) =~= entries.take(at));
        assert(texts_put(t, path, texts, behind).push(entries.last()) =~= texts_put(
            entries.take(at),
            path,
            texts,
            behind,
        ) + entries.skip(at));
    }
}

proof fn lemma_put_paths(
    entries: Seq<PathTextsModel>,
    path: Seq<char>,
    texts: Seq<Seq<char>>,
    behind: bool,
)
    ensures
        paths_of_entries(texts_put(entries, path, texts, behind)) == inserted::<ByPath>(
            paths_of_entries(entries),
            path,
        ),
    decreases entries.len(),
{
    let names = paths_of_entries(entries);
    if entries.len() == 0 {
        assert(paths_of_entries(texts_put(entries, path, texts, behind)) =~= seq![path]);
    } else {
        assert(names.last() == entries.last().path);
        assert(names.drop_last() =~= paths_of_entries(entries.drop_last()));
        if path_lt(entries.last().path, path) {
            assert(paths_of_entries(texts_put(entries, path, texts, behind)) =~= names.push(path));
        } else if path_lt(path, entries.last().path) {
            lemma_put_paths(entries.drop_last(), path, texts, behind);
            assert(paths_of_entries(texts_put(entries, path, texts, behind)) =~= paths_of_entries(
                texts_put(entries.drop_last(), path, texts, behind),
            ).push(entries.last().path));
        } else {
            assert(paths_of_entries(texts_put(entries, path, texts, behind)) =~= names);
        }
    }
}

/// Whether entries are in the order of their paths, each path once.
pub open spec fn well_ordered(entries: Seq<PathTextsModel>) -> bool {
    ascending::<ByPath>(paths_of_entries(entries))
}

/// Putting texts under a path keeps the entries in order.
pub proof fn law_putting_texts_keeps_the_order(
    entries: Seq<PathTextsModel>,
    path: Seq<char>,
    texts: Seq<Seq<char>>,
    behind: bool,
)
    requires
        well_ordered(entries),
    ensures
        well_ordered(texts_put(entries, path, texts, behind)),
{
    lemma_put_paths(entries, path, texts, behind);
    lemma_inserted_ascending::<ByPath>(paths_of_entries(entries), path);
}

/// Puts texts under a path.
pub fn put_texts(entries: &mut Vec<PathTexts>, path: &str, texts: &Vec<String>, behind: bool)
    ensures
        final(entries).deep_view() == texts_put(
            old(entries).deep_view(),
            path@,
            texts.deep_view(),
            behind,
        ),
{
    let ghost before = entries.deep_view();
    let mut at: usize = entries.len();
    while at > 0
        invariant_except_break
            at <= entries@.len(),
        invariant
            before == entries.deep_view(),
            at <= entries@.len(),
            forall|j: int|
                at <= j < before.len() ==> !path_lt((#[trigger] before[j]).path, path@) && path_lt(
                    path@,
                    before[j].path,
                ),
        ensures
            at == 0 || !(path_lt(path@, before[at - 1].path) && !path_lt(
                before[at - 1].path,
                path@,
            )),
        decreases at,
    {
        assert(before[at - 1] == entries@[at - 1].deep_view());
        if path_less(entries[at - 1].path.as_str(), path) || !path_less(
            path,
            entries[at - 1].path.as_str(),
        ) {
            break;
        }
        at = at - 1;
    }
    proof {
        lemma_texts_put_at(before, path@, texts.deep_view(), behind, at as int);
        if at > 0 {
            assert(before.take(at as int).last() == before[at - 1]);
            assert(before[at - 1] == entries@[at - 1].deep_view());
        }
    }
    if at == 0 || path_less(entries[at - 1].path.as_str(), path) {
        let fresh = PathTexts { path: owned(path), texts: clone_texts(texts) };
        entries.insert(at, fresh);
        assert(entries.deep_view() =~= before.take(at as int).push(
            PathTextsModel { path: path@, texts: texts.deep_view() },
        ) + before.skip(at as int));
    } else {
        let known = entries[at - 1].clone();
        let mut all: Vec<String> = Vec::new();
        if behind {
            all = clone_texts(&known.texts);
        }
        assert(all.deep_view() =~= if behind {
            known.deep_view().texts
        } else {
            Seq::empty()
        });
        let mut more = clone_texts(texts);
        let ghost front = all.deep_view();
        let ghost back = more.deep_view();
        all.append(&mut more);
        assert(all.deep_view() =~= front + back);
        let changed = PathTexts { path: known.path, texts: all };
        let ghost model = changed.deep_view();
        assert(behind || model.texts =~= texts.deep_view());
        entries.set(at - 1, changed);
        assert(entries.deep_view() =~= before.take(at as int).drop_last().push(model)
            + before.skip(at as int));
    }
}

/// The texts under a path.
pub open spec fn texts_under(entries: Seq<PathTextsModel>, path: Seq<char>) -> Option<Seq<
    Seq<char>,
>>
    decreases entries.len(),
{
    if entries.len() == 0 {
        None
    } else if same_path(entries.last().path, path) {
        Some(entries.last().texts)
    } else {
        texts_under(entries.drop_last(), path)
    }
}

/// The texts under a path.
pub fn find_texts<'a>(entries: &'a Vec<PathTexts>, path: &str) -> (r: Option<&'a Vec<String>>)
    ensures
        r matches Some(texts) ==> texts_under(entries.deep_view(), path@) == Some(
            texts.deep_view(),
        ),
        r is None ==> texts_under(entries.deep_view(), path@) is None,
{
    let ghost all = entries.deep_view();
    let mut i: usize = entries.len();
    proof {
        lemma_take_all(all);
    }
    while i > 0
        invariant
            i <= entries@.len(),
            all == entries.deep_view(),
            texts_under(all, path@) == texts_under(all.take(i as int), path@),
        decreases i,
    {
        proof {
            lemma_take_next(all, i - 1);
            assert(all[i - 1] == entries@[i - 1].deep_view());
        }
        if path_same(entries[i - 1].path.as_str(), path) {
            return Some(&entries[i - 1].texts);
        }
        i = i - 1;
    }
    None
}

proof fn lemma_absent_above(entries: Seq<PathTextsModel>, path: Seq<char>)
    requires
        forall|i: int| 0 <= i < entries.len() ==> path_lt((#[trigger] entries[i]).path, path),
    ensures
        texts_under(entries, path) is None,
    decreases entries.len(),
{
    if entries.len() > 0 {
        let t = entries.drop_last();
        assert forall|i: int| 0 <= i < t.len() implies path_lt((#[trigger] t[i]).path, path) by {
            assert(t[i] == entries[i]);
        }
        lemma_absent_above(t, path);
        assert(path_lt(entries[entries.len() - 1].path, path));
        lemma_path_lt_total(entries.last().path, path);
        lemma_path_lt_total(path, entries.last().path);
    }
}

proof fn lemma_order_of_rest(entries: Seq<PathTextsModel>)
    requires
        well_ordered(entries),
        entries.len() > 0,
    ensures
        well_ordered(entries.drop_last()),
        forall|i: int|
            0 <= i < entries.len() - 1 ==> path_lt(
                (#[trigger] entries[i]).path,
                entries.last().path,
            ),
{
    let names = paths_of_entries(entries);
    let t = entries.drop_last();
    assert(paths_of_entries(t) =~= names.drop_last());
    assert forall|i: int| 0 <= i < entries.len() - 1 implies path_lt(
        (#[trigger] entries[i]).path,
        entries.last().path,
    ) by {
        assert(names[i] == entries[i].path);
        assert(names[entries.len() - 1] == entries.last().path);
        assert(ByPath::lt(names[i], names[entries.len() - 1]));
    }
    assert(ascending::<ByPath>(paths_of_entries(t))) by {
        assert forall|i: int, j: int| 0 <= i < j < paths_of_entries(t).len() implies ByPath::lt(
            #[trigger] paths_of_entries(t)[i],
            #[trigger] paths_of_entries(t)[j],
        ) by {
            assert(ByPath::lt(names[i], names[j]));
        }
    }
}

/// What was put under a path is found there.
pub proof fn law_put_texts_are_found(
    entries: Seq<PathTextsModel>,
    path: Seq<char>,
    texts: Seq<Seq<char>>,
    behind: bool,
)
    requires
        well_ordered(entries),
    ensures
        texts_under(texts_put(entries, path, texts, behind), path) == Some(
            match texts_under(entries, path) {
                Some(known) => if behind {
                    known + texts
                } else {
                    texts
                },
                None => texts,
            },
        ),
    decreases entries.len(),
{
    let after = texts_put(entries, path, texts, behind);
    if entries.len() == 0 {
        assert(after.last().path == path);
    } else if path_lt(entries.last().path, path) {
        assert(after.last().path == path);
        lemma_order_of_rest(entries);
        assert forall|i: int| 0 <= i < entries.len() implies path_lt(
            (#[trigger] entries[i]).path,
            path,
        ) by {
            if i < entries.len() - 1 {
                ByPath::transitive(entries[i].path, entries.last().path, path);
            }
        }
        lemma_absent_above(entries, path);
    } else if path_lt(path, entries.last().path) {
        lemma_order_of_rest(entries);
        law_put_texts_are_found(entries.drop_last(), path, texts, behind);
        assert(after.drop_last() =~= texts_put(entries.drop_last(), path, texts, behind));
        lemma_path_lt_total(entries.last().path, path);
        lemma_path_lt_total(path, entries.last().path);
    } else {
        lemma_path_lt_total(entries.last().path, path);
        assert(same_path(entries.last().path, path));
        assert(after.last().path == entries.last().path);
    }
}

} // verus!
