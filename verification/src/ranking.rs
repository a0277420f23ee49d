//! Sorting of records by rank. Records of equal rank keep their order.
use vstd::prelude::*;
use vstd::multiset::Multiset;
use vstd::seq_lib::group_to_multiset_ensures;

use crate::seqs::{lemma_take_all, lemma_take_next};

verus! {

/// A record that has a rank among its kind.
pub trait Ranked: DeepView + Sized {
    /// Whether the first record ranks before the second.
    spec fn ranks_before(a: Self::V, b: Self::V) -> bool;

    proof fn before_is_transitive(a: Self::V, b: Self::V, c: Self::V)
        requires
            !Self::ranks_before(b, a),
            !Self::ranks_before(c, b),
        ensures
            !Self::ranks_before(c, a),
    ;

    proof fn before_is_asymmetric(a: Self::V, b: Self::V)
        requires
            Self::ranks_before(a, b),
        ensures
            !Self::ranks_before(b, a),
    ;

    fn goes_before(&self, other: &Self) -> (r: bool)
        ensures
            r == Self::ranks_before(self.deep_view(), other.deep_view()),
    ;
}

/// Puts a record behind all records that do not rank after it.
pub open spec fn placed<T: Ranked>(s: Seq<T::V>, x: T::V) -> Seq<T::V>
    decreases s.len(),
{
    if s.len() > 0 && T::ranks_before(x, s.last()) {
        placed::<T>(s.drop_last(), x).push(s.last())
    } else {
        s.push(x)
    }
}

/// The records by rank; those of equal rank in the order in which they came.
pub open spec fn ranked<T: Ranked>(s: Seq<T::V>) -> Seq<T::V>
    decreases s.len(),
{
    if s.len() == 0 {
        s
    } else {
        placed::<T>(ranked::<T>(s.drop_last()), s.last())
    }
}

/// No record ranks before one that stands ahead of it.
pub open spec fn in_rank_order<T: Ranked>(s: Seq<T::V>) -> bool {
    forall|i: int, j: int|
        0 <= i < j < s.len() ==> !T::ranks_before(#[trigger] s[j], #[trigger] s[i])
}

proof fn lemma_placed_at<T: Ranked>(s: Seq<T::V>, x: T::V, at: int)
    requires
        0 <= at <= s.len(),
        forall|j: int| at <= j < s.len() ==> T::ranks_before(x, #[trigger] s[j]),
    ensures
        placed::<T>(s, x) == placed::<T>(s.take(at), x) + s.skip(at),
    decreases s.len() - at,
{
    if at == s.len() {
        lemma_take_all(s);
        assert(placed::<T>(s, x) =~= placed::<T>(s, x) + s.skip(at));
    } else {
        let t = s.drop_last();
        assert(T::ranks_before(x, s[s.len() - 1]));
        assert forall|j: int| at <= j < t.len() implies T::ranks_before(x, #[trigger] t[j]) by {
            assert(t[j] == s[j]);
        }
        lemma_placed_at::<T>(t, x, at);
        assert(t.take(at) =~= s.take(at));
        assert(placed::<T>(t, x).push(s.last()) =~= placed::<T>(s.take(at), x) + s.skip(at));
    }
}

proof fn lemma_placed_keeps_items<T: Ranked>(s: Seq<T::V>, x: T::V)
    ensures
        placed::<T>(s, x).to_multiset() == s.to_multiset().insert(x),
        placed::<T>(s, x).len() == s.len() + 1,
    decreases s.len(),
{
    broadcast use group_to_multiset_ensures;

    if s.len() > 0 && T::ranks_before(x, s.last()) {
        lemma_placed_keeps_items::<T>(s.drop_last(), x);
        assert(s =~= s.drop_last().push(s.last()));
        assert(placed::<T>(s, x).to_multiset() =~= s.to_multiset().insert(x));
    }
}

proof fn lemma_placed_member<T: Ranked>(s: Seq<T::V>, x: T::V, i: int)
    requires
        0 <= i < placed::<T>(s, x).len(),
    ensures
        placed::<T>(s, x)[i] == x || exists|j: int| 0 <= j < s.len() && s[j] == placed::<T>(s, x)[i],
    decreases s.len(),
{
    if s.len() > 0 && T::ranks_before(x, s.last()) {
        let q = placed::<T>(s.drop_last(), x);
        if i < q.len() {
            lemma_placed_member::<T>(s.drop_last(), x, i);
            if q[i] != x {
                let j = choose|j: int| 0 <= j < s.drop_last().len() && s.drop_last()[j] == q[i];
                assert(s[j] == placed::<T>(s, x)[i]);
            }
        } else {
            assert(s[s.len() - 1] == placed::<T>(s, x)[i]);
        }
    } else if i < s.len() {
        assert(s[i] == placed::<T>(s, x)[i]);
    }
}

proof fn lemma_placed_in_order<T: Ranked>(s: Seq<T::V>, x: T::V)
    requires
        in_rank_order::<T>(s),
    ensures
        in_rank_order::<T>(placed::<T>(s, x)),
    decreases s.len(),
{
    let r = placed::<T>(s, x);
    if s.len() > 0 && T::ranks_before(x, s.last()) {
        let t = s.drop_last();
        assert(in_rank_order::<T>(t)) by {
            assert forall|i: int, j: int| 0 <= i < j < t.len() implies !T::ranks_before(
                #[trigger] t[j],
                #[trigger] t[i],
            ) by {
                assert(!T::ranks_before(s[j], s[i]));
            }
        }
        lemma_placed_in_order::<T>(t, x);
        let q = placed::<T>(t, x);
        assert forall|i: int, j: int| 0 <= i < j < r.len() implies !T::ranks_before(
            #[trigger] r[j],
            #[trigger] r[i],
        ) by {
            if j < q.len() {
                assert(!T::ranks_before(q[j], q[i]));
            } else {
                lemma_placed_member::<T>(t, x, i);
                if q[i] == x {
                    T::before_is_asymmetric(x, s.last());
                } else {
                    let k = choose|k: int| 0 <= k < t.len() && t[k] == q[i];
                    assert(s[k] == q[i]);
                    assert(!T::ranks_before(s[s.len() - 1], s[k]));
                }
            }
        }
    } else {
        assert forall|i: int, j: int| 0 <= i < j < r.len() implies !T::ranks_before(
            #[trigger] r[j],
            #[trigger] r[i],
        ) by {
            if j == s.len() {
                if i < s.len() - 1 {
                    assert(!T::ranks_before(s[s.len() - 1], s[i]));
                    T::before_is_transitive(s[i], s.last(), x);
                }
            } else {
                assert(!T::ranks_before(s[j], s[i]));
            }
        }
    }
}

/// Ranking gives the same records, in the order of their ranks.
pub proof fn law_ranked_is_a_sorted_permutation<T: Ranked>(s: Seq<T::V>)
    ensures
        in_rank_order::<T>(ranked::<T>(s)),
        ranked::<T>(s).to_multiset() == s.to_multiset(),
        ranked::<T>(s).len() == s.len(),
    decreases s.len(),
{
    broadcast use group_to_multiset_ensures;

    if s.len() > 0 {
        let t = s.drop_last();
        law_ranked_is_a_sorted_permutation::<T>(t);
        lemma_placed_in_order::<T>(ranked::<T>(t), s.last());
        lemma_placed_keeps_items::<T>(ranked::<T>(t), s.last());
        assert(s =~= t.push(s.last()));
    }
}

/// Puts a record at its place in a ranked list.
fn place<T: Ranked>(items: &mut Vec<T>, x: T)
    ensures
        final(items).deep_view() == placed::<T>(old(items).deep_view(), x.deep_view()),
{
    let ghost before = items.deep_view();
    let ghost xv = x.deep_view();
    let mut at: usize = items.len();
    while at > 0
        invariant_except_break
            at <= items@.len(),
            forall|j: int| at <= j < before.len() ==> T::ranks_before(xv, #[trigger] before[j]),
        invariant
            before == items.deep_view(),
            xv == x.deep_view(),
        ensures
            at <= items@.len(),
            forall|j: int| at <= j < before.len() ==> T::ranks_before(xv, #[trigger] before[j]),
            at > 0 ==> !T::ranks_before(xv, before[at - 1]),
        decreases at,
    {
        assert(before[at - 1] == items@[at - 1].deep_view());
        if !x.goes_before(&items[at - 1]) {
            break;
        }
        at = at - 1;
    }
    proof {
        lemma_placed_at::<T>(before, xv, at as int);
        if at > 0 {
            assert(before.take(at as int).last() == before[at - 1]);
        }
    }
    items.insert(at, x);
    assert(items.deep_view() =~= before.take(at as int).push(xv) + before.skip(at as int));
}

/// Sorts records by rank.
pub fn rank<T: Ranked>(items: Vec<T>) -> (r: Vec<T>)
    ensures
        r.deep_view() == ranked::<T>(items.deep_view()),
{
    let ghost all = items.deep_view();
    let mut rest = items;
    let mut out: Vec<T> = Vec::new();
    let mut i: usize = 0;
    let n: usize = rest.len();
    assert(out.deep_view() =~= ranked::<T>(all.take(0)));
    while i < n
        invariant
            i <= n,
            n == all.len(),
            rest@.len() == n - i,
            forall|j: int| 0 <= j < n - i ==> #[trigger] rest@[j].deep_view() == all[i + j],
            out.deep_view() == ranked::<T>(all.take(i as int)),
        decreases n - i,
    {
        assert(rest@[0].deep_view() == all[i + 0]);
        let ghost before = rest@;
        let next = rest.remove(0);
        proof {
            lemma_take_next(all, i as int);
        }
        place(&mut out, next);
        assert forall|j: int| 0 <= j < n - i - 1 implies #[trigger] rest@[j].deep_view() == all[i
            + 1 + j] by {
            assert(rest@[j] == before[j + 1]);
            assert(before[j + 1].deep_view() == all[i + (j + 1)]);
        }
        i = i + 1;
    }
    proof {
        lemma_take_all(all);
    }
    out
}

} // verus!
