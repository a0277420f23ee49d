//! Orders on texts, and lists of texts that are kept sorted and without
//! repetition.
use vstd::prelude::*;

use crate::text::chars_of;

verus! {

/// A strict order on texts.
pub trait TextOrder {
    spec fn lt(a: Seq<char>, b: Seq<char>) -> bool;

    proof fn transitive(a: Seq<char>, b: Seq<char>, c: Seq<char>)
        requires
            Self::lt(a, b),
            Self::lt(b, c),
        ensures
            Self::lt(a, c),
    ;

    proof fn irreflexive(a: Seq<char>)
        ensures
            !Self::lt(a, a),
    ;

    fn less(a: &str, b: &str) -> (r: bool)
        ensures
            r == Self::lt(a@, b@),
    ;
}

/// The order of the characters' code points, from the first character on. A
/// text comes before every longer text that starts with it.
pub open spec fn text_lt(a: Seq<char>, b: Seq<char>) -> bool
    decreases a.len(),
{
    if b.len() == 0 {
        false
    } else if a.len() == 0 {
        true
    } else if a[0] == b[0] {
        text_lt(a.skip(1), b.skip(1))
    } else {
        a[0] < b[0]
    }
}

/// The order of texts is transitive.
pub proof fn lemma_text_lt_transitive(a: Seq<char>, b: Seq<char>, c: Seq<char>)
    requires
        text_lt(a, b),
        text_lt(b, c),
    ensures
        text_lt(a, c),
    decreases a.len(),
{
    if a.len() > 0 && a[0] == b[0] && b[0] == c[0] {
        lemma_text_lt_transitive(a.skip(1), b.skip(1), c.skip(1));
    }
}

/// No text comes before itself.
pub proof fn lemma_text_lt_irreflexive(a: Seq<char>)
    ensures
        !text_lt(a, a),
    decreases a.len(),
{
    if a.len() > 0 {
        lemma_text_lt_irreflexive(a.skip(1));
    }
}

/// Of two texts one comes first, or they are the same.
pub proof fn lemma_text_lt_total(a: Seq<char>, b: Seq<char>)
    ensures
        text_lt(a, b) || text_lt(b, a) || a == b,
    decreases a.len(),
{
    if a.len() > 0 && b.len() > 0 && a[0] == b[0] {
        lemma_text_lt_total(a.skip(1), b.skip(1));
        if a.skip(1) == b.skip(1) {
            assert(a == seq![a[0]] + a.skip(1));
            assert(b == seq![b[0]] + b.skip(1));
        }
    } else if a.len() == 0 && b.len() == 0 {
        assert(a == b);
    }
}

/// No text is both less and greater than another.
pub proof fn lemma_text_lt_asymmetric(a: Seq<char>, b: Seq<char>)
    ensures
        text_lt(a, b) ==> !text_lt(b, a),
{
    if text_lt(a, b) && text_lt(b, a) {
        lemma_text_lt_transitive(a, b, a);
        lemma_text_lt_irreflexive(a);
    }
}

/// A text that is not less than a second, which is not less than a third, is not
/// less than the third.
pub proof fn lemma_text_order_is_weak(a: Seq<char>, b: Seq<char>, c: Seq<char>)
    ensures
        !text_lt(b, a) && !text_lt(c, b) ==> !text_lt(c, a),
{
    if !text_lt(b, a) && !text_lt(c, b) && text_lt(c, a) {
        lemma_text_lt_total(a, b);
        lemma_text_lt_total(b, c);
        lemma_text_lt_irreflexive(a);
        if a == b {
            lemma_text_lt_asymmetric(b, c);
        } else if b == c {
        } else {
            lemma_text_lt_transitive(a, b, c);
            lemma_text_lt_asymmetric(a, c);
        }
    }
}

/// The order of the characters' code points, from the first character on. A
/// text comes before every longer text that starts with it.
pub fn text_less(a: &str, b: &str) -> (r: bool)
    ensures
        r == text_lt(a@, b@),
{
    let ac = chars_of(a);
    let bc = chars_of(b);
    let mut i: usize = 0;
    assert(a@.skip(0) == a@);
    assert(b@.skip(0) == b@);
    while i < ac.len() && i < bc.len()
        invariant
            i <= ac@.len(),
            i <= bc@.len(),
            ac@ == a@,
            bc@ == b@,
            text_lt(a@, b@) == text_lt(a@.skip(i as int), b@.skip(i as int)),
        decreases ac@.len() - i,
    {
        assert(a@.skip(i as int)[0] == a@[i as int]);
        assert(b@.skip(i as int)[0] == b@[i as int]);
        if ac[i] != bc[i] {
            return ac[i] < bc[i];
        }
        assert(a@.skip(i as int).skip(1) == a@.skip(i + 1));
        assert(b@.skip(i as int).skip(1) == b@.skip(i + 1));
        i = i + 1;
    }
    i < bc.len()
}

/// Texts in the order of their characters.
pub struct ByText {}

impl TextOrder for ByText {
    open spec fn lt(a: Seq<char>, b: Seq<char>) -> bool {
        text_lt(a, b)
    }

    proof fn transitive(a: Seq<char>, b: Seq<char>, c: Seq<char>) {
        lemma_text_lt_transitive(a, b, c);
    }

    proof fn irreflexive(a: Seq<char>) {
        lemma_text_lt_irreflexive(a);
    }

    fn less(a: &str, b: &str) -> (r: bool) {
        text_less(a, b)
    }
}

// ---------------------------------------------------------------------------
// Sorted lists without repetition
// ---------------------------------------------------------------------------
/// Each item comes before all items after it.
pub open spec fn ascending<O: TextOrder>(s: Seq<Seq<char>>) -> bool {
    forall|i: int, j: int| 0 <= i < j < s.len() ==> O::lt(#[trigger] s[i], #[trigger] s[j])
}

/// Neither text comes before the other.
pub open spec fn level<O: TextOrder>(a: Seq<char>, b: Seq<char>) -> bool {
    !O::lt(a, b) && !O::lt(b, a)
}

/// Whether a list holds a text that is level with `x`.
pub open spec fn holds<O: TextOrder>(s: Seq<Seq<char>>, x: Seq<char>) -> bool {
    exists|i: int| 0 <= i < s.len() && level::<O>(#[trigger] s[i], x)
}

/// Puts `x` at its place in an ascending list. Where the list already holds a
/// text that is level with `x`, the list stays as it is.
pub open spec fn inserted<O: TextOrder>(s: Seq<Seq<char>>, x: Seq<char>) -> Seq<Seq<char>>
    decreases s.len(),
{
    if s.len() == 0 {
        seq![x]
    } else if O::lt(s.last(), x) {
        s.push(x)
    } else if O::lt(x, s.last()) {
        inserted::<O>(s.drop_last(), x).push(s.last())
    } else {
        s
    }
}

/// The texts of a list in order, each once.
pub open spec fn sorted_set<O: TextOrder>(s: Seq<Seq<char>>) -> Seq<Seq<char>>
    decreases s.len(),
{
    if s.len() == 0 {
        Seq::empty()
    } else {
        inserted::<O>(sorted_set::<O>(s.drop_last()), s.last())
    }
}

/// All the texts of a second list put into an ascending one.
pub open spec fn inserted_all<O: TextOrder>(
    s: Seq<Seq<char>>,
    more: Seq<Seq<char>>,
) -> Seq<Seq<char>>
    decreases more.len(),
{
    if more.len() == 0 {
        s
    } else {
        inserted::<O>(inserted_all::<O>(s, more.drop_last()), more.last())
    }
}

/// What `inserted` puts in: every item of the new list is an old one or `x`.
pub proof fn lemma_inserted_items<O: TextOrder>(s: Seq<Seq<char>>, x: Seq<char>)
    ensures
        forall|i: int|
            0 <= i < inserted::<O>(s, x).len() ==> s.contains(#[trigger] inserted::<O>(s, x)[i])
                || inserted::<O>(s, x)[i] == x,
        forall|y: Seq<char>| s.contains(y) ==> #[trigger] inserted::<O>(s, x).contains(y),
        s.len() <= inserted::<O>(s, x).len() <= s.len() + 1,
    decreases s.len(),
{
    let r = inserted::<O>(s, x);
    if s.len() == 0 {
    } else if O::lt(s.last(), x) {
        assert forall|i: int| 0 <= i < r.len() implies s.contains(#[trigger] r[i]) || r[i] == x by {
            if i < s.len() {
                assert(r[i] == s[i]);
            }
        }
        assert forall|y: Seq<char>| s.contains(y) implies #[trigger] r.contains(y) by {
            let i = choose|i: int| 0 <= i < s.len() && s[i] == y;
            assert(r[i] == y);
        }
    } else if O::lt(x, s.last()) {
        let t = s.drop_last();
        lemma_inserted_items::<O>(t, x);
        let q = inserted::<O>(t, x);
        assert forall|i: int| 0 <= i < r.len() implies s.contains(#[trigger] r[i]) || r[i] == x by {
            if i < q.len() {
                assert(r[i] == q[i]);
                if t.contains(q[i]) {
                    let j = choose|j: int| 0 <= j < t.len() && t[j] == q[i];
                    assert(s[j] == q[i]);
                }
            } else {
                assert(s[s.len() - 1] == r[i]);
            }
        }
        assert forall|y: Seq<char>| s.contains(y) implies #[trigger] r.contains(y) by {
            let i = choose|i: int| 0 <= i < s.len() && s[i] == y;
            if i == s.len() - 1 {
                assert(r[r.len() - 1] == y);
            } else {
                assert(t[i] == y);
                assert(t.contains(y));
                assert(q.contains(y));
                let k = choose|k: int| 0 <= k < q.len() && q[k] == y;
                assert(r[k] == y);
            }
        }
    }
}

/// Insertion keeps an ascending list ascending.
pub proof fn lemma_inserted_ascending<O: TextOrder>(s: Seq<Seq<char>>, x: Seq<char>)
    requires
        ascending::<O>(s),
    ensures
        ascending::<O>(inserted::<O>(s, x)),
    decreases s.len(),
{
    let r = inserted::<O>(s, x);
    if s.len() == 0 {
    } else if O::lt(s.last(), x) {
        assert forall|i: int, j: int| 0 <= i < j < r.len() implies O::lt(
            #[trigger] r[i],
            #[trigger] r[j],
        ) by {
            if j == s.len() {
                if i < s.len() - 1 {
                    assert(O::lt(s[i], s[s.len() - 1]));
                    O::transitive(s[i], s.last(), x);
                }
            } else {
                assert(O::lt(s[i], s[j]));
            }
        }
    } else if O::lt(x, s.last()) {
        let t = s.drop_last();
        assert(ascending::<O>(t)) by {
            assert forall|i: int, j: int| 0 <= i < j < t.len() implies O::lt(
                #[trigger] t[i],
                #[trigger] t[j],
            ) by {
                assert(O::lt(s[i], s[j]));
            }
        }
        lemma_inserted_ascending::<O>(t, x);
        lemma_inserted_items::<O>(t, x);
        let q = inserted::<O>(t, x);
        assert forall|i: int, j: int| 0 <= i < j < r.len() implies O::lt(
            #[trigger] r[i],
            #[trigger] r[j],
        ) by {
            if j < q.len() {
                assert(O::lt(q[i], q[j]));
            } else {
                assert(r[i] == q[i]);
                if t.contains(q[i]) {
                    let k = choose|k: int| 0 <= k < t.len() && t[k] == q[i];
                    assert(O::lt(s[k], s[s.len() - 1]));
                }
            }
        }
    }
}

/// A list of sorted texts without repetition is ascending.
pub proof fn lemma_sorted_set_ascending<O: TextOrder>(s: Seq<Seq<char>>)
    ensures
        ascending::<O>(sorted_set::<O>(s)),
    decreases s.len(),
{
    if s.len() > 0 {
        lemma_sorted_set_ascending::<O>(s.drop_last());
        lemma_inserted_ascending::<O>(sorted_set::<O>(s.drop_last()), s.last());
    }
}

/// Under the order of characters, `sorted_set` keeps exactly the texts of the
/// list.
pub proof fn lemma_sorted_set_items(s: Seq<Seq<char>>)
    ensures
        forall|y: Seq<char>| #[trigger] sorted_set::<ByText>(s).contains(y) == s.contains(y),
    decreases s.len(),
{
    if s.len() > 0 {
        let t = s.drop_last();
        let x = s.last();
        lemma_sorted_set_items(t);
        let q = sorted_set::<ByText>(t);
        lemma_inserted_items::<ByText>(q, x);
        lemma_inserted_holds(q, x);
        let r = sorted_set::<ByText>(s);
        assert forall|y: Seq<char>| #[trigger] r.contains(y) == s.contains(y) by {
            if r.contains(y) {
                let i = choose|i: int| 0 <= i < r.len() && r[i] == y;
                if y == x {
                    assert(s[s.len() - 1] == y);
                } else {
                    assert(q.contains(r[i]));
                    assert(t.contains(y));
                    let k = choose|k: int| 0 <= k < t.len() && t[k] == y;
                    assert(s[k] == y);
                }
            }
            if s.contains(y) {
                let k = choose|k: int| 0 <= k < s.len() && s[k] == y;
                if k < s.len() - 1 {
                    assert(t[k] == y);
                    assert(q.contains(y));
                }
            }
        }
    } else {
        assert forall|y: Seq<char>| #[trigger] sorted_set::<ByText>(s).contains(y) == s.contains(
            y,
        ) by {}
    }
}

/// Under the order of characters, insertion puts the text in.
pub proof fn lemma_inserted_holds(s: Seq<Seq<char>>, x: Seq<char>)
    ensures
        inserted::<ByText>(s, x).contains(x),
    decreases s.len(),
{
    let r = inserted::<ByText>(s, x);
    if s.len() == 0 {
        assert(r[0] == x);
    } else if text_lt(s.last(), x) {
        assert(r[r.len() - 1] == x);
    } else if text_lt(x, s.last()) {
        lemma_inserted_holds(s.drop_last(), x);
        let q = inserted::<ByText>(s.drop_last(), x);
        let i = choose|i: int| 0 <= i < q.len() && q[i] == x;
        assert(r[i] == x);
    } else {
        lemma_text_lt_total(s.last(), x);
        assert(s[s.len() - 1] == x);
    }
}

/// Two ascending lists with the same texts are the same list.
pub proof fn lemma_ascending_unique<O: TextOrder>(a: Seq<Seq<char>>, b: Seq<Seq<char>>)
    requires
        ascending::<O>(a),
        ascending::<O>(b),
        forall|y: Seq<char>| #[trigger] a.contains(y) == b.contains(y),
    ensures
        a == b,
    decreases a.len(),
{
    if a.len() == 0 {
        if b.len() > 0 {
            assert(b.contains(b[0]));
            assert(a.contains(b[0]));
        }
        assert(a == b);
    } else {
        assert(a.contains(a[a.len() - 1]));
        assert(b.contains(a.last()));
        assert(b.len() > 0);
        assert(b.contains(b[b.len() - 1]));
        assert(a.contains(b.last()));
        let i = choose|i: int| 0 <= i < b.len() && b[i] == a.last();
        let j = choose|j: int| 0 <= j < a.len() && a[j] == b.last();
        if i < b.len() - 1 {
            assert(O::lt(b[i], b[b.len() - 1]));
            if j < a.len() - 1 {
                assert(O::lt(a[j], a[a.len() - 1]));
                O::transitive(a.last(), b.last(), a.last());
                O::irreflexive(a.last());
            } else {
                O::irreflexive(a.last());
            }
        }
        assert(a.last() == b.last());
        let a2 = a.drop_last();
        let b2 = b.drop_last();
        assert forall|y: Seq<char>| #[trigger] a2.contains(y) == b2.contains(y) by {
            if a2.contains(y) {
                let k = choose|k: int| 0 <= k < a2.len() && a2[k] == y;
                assert(a[k] == y);
                assert(O::lt(a[k], a[a.len() - 1]));
                O::irreflexive(y);
                assert(a.contains(y));
                assert(b.contains(y));
                let m = choose|m: int| 0 <= m < b.len() && b[m] == y;
                assert(b2[m] == y);
            }
            if b2.contains(y) {
                let k = choose|k: int| 0 <= k < b2.len() && b2[k] == y;
                assert(b[k] == y);
                assert(O::lt(b[k], b[b.len() - 1]));
                O::irreflexive(y);
                assert(b.contains(y));
                assert(a.contains(y));
                let m = choose|m: int| 0 <= m < a.len() && a[m] == y;
                assert(a2[m] == y);
            }
        }
        assert(ascending::<O>(a2)) by {
            assert forall|p: int, q: int| 0 <= p < q < a2.len() implies O::lt(
                #[trigger] a2[p],
                #[trigger] a2[q],
            ) by {
                assert(O::lt(a[p], a[q]));
            }
        }
        assert(ascending::<O>(b2)) by {
            assert forall|p: int, q: int| 0 <= p < q < b2.len() implies O::lt(
                #[trigger] b2[p],
                #[trigger] b2[q],
            ) by {
                assert(O::lt(b[p], b[q]));
            }
        }
        lemma_ascending_unique::<O>(a2, b2);
        assert(a == a2.push(a.last()));
        assert(b == b2.push(b.last()));
    }
}

/// The index at which the last part of an insertion stops: everything from
/// `at` on comes after `x`.
proof fn lemma_inserted_at<O: TextOrder>(s: Seq<Seq<char>>, x: Seq<char>, at: int)
    requires
        0 <= at <= s.len(),
        forall|j: int| at <= j < s.len() ==> O::lt(x, #[trigger] s[j]) && !O::lt(s[j], x),
    ensures
        inserted::<O>(s, x) == inserted::<O>(s.take(at), x) + s.skip(at),
    decreases s.len() - at,
{
    if at == s.len() {
        assert(s.take(at) == s);
        assert(inserted::<O>(s, x) == inserted::<O>(s, x) + s.skip(at));
    } else {
        let t = s.drop_last();
        assert(O::lt(x, s[s.len() - 1]));
        assert forall|j: int| at <= j < t.len() implies O::lt(x, #[trigger] t[j]) && !O::lt(
            t[j],
            x,
        ) by {
            assert(t[j] == s[j]);
        }
        lemma_inserted_at::<O>(t, x, at);
        assert(t.take(at) == s.take(at));
        assert(t.skip(at).push(s.last()) == s.skip(at));
        assert(inserted::<O>(t, x).push(s.last()) == inserted::<O>(s.take(at), x) + s.skip(at));
    }
}

/// Puts a text into a sorted list.
pub fn insert<O: TextOrder>(items: &mut Vec<String>, x: String)
    ensures
        final(items).deep_view() == inserted::<O>(old(items).deep_view(), x@),
{
    let ghost before = items.deep_view();
    let ghost xv = x@;
    let mut at: usize = items.len();
    assert(items.deep_view().len() == items@.len());
    while at > 0
        invariant_except_break
            at <= items@.len(),
            before == items.deep_view(),
            xv == x@,
            forall|j: int| at <= j < before.len() ==> O::lt(xv, #[trigger] before[j]) && !O::lt(
                before[j],
                xv,
            ),
        invariant
            before == items.deep_view(),
            xv == x@,
        ensures
            at <= items@.len(),
            forall|j: int| at <= j < before.len() ==> O::lt(xv, #[trigger] before[j]) && !O::lt(
                before[j],
                xv,
            ),
            at > 0 ==> O::lt(before[at - 1], xv) || !O::lt(xv, before[at - 1]),
        decreases at,
    {
        assert(before[at - 1] == items@[at - 1]@);
        if O::less(items[at - 1].as_str(), x.as_str()) {
            break;
        }
        if !O::less(x.as_str(), items[at - 1].as_str()) {
            break;
        }
        at = at - 1;
    }
    proof {
        lemma_inserted_at::<O>(before, xv, at as int);
    }
    if at > 0 {
        assert(before[at - 1] == items@[at - 1]@);
        assert(before.take(at as int).last() == before[at - 1]);
        if !O::less(items[at - 1].as_str(), x.as_str()) {
            assert(before.take(at as int) + before.skip(at as int) == before);
            return;
        }
    }
    items.insert(at, x);
    assert(items.deep_view() == before.take(at as int).push(xv) + before.skip(at as int));
    assert(at == 0 ==> seq![xv] == before.take(0).push(xv));
}

/// The texts of a list, sorted, each once.
pub fn to_sorted_set<O: TextOrder>(items: &Vec<String>) -> (r: Vec<String>)
    ensures
        r.deep_view() == sorted_set::<O>(items.deep_view()),
{
    let mut out: Vec<String> = Vec::new();
    let ghost iv = items.deep_view();
    let mut i: usize = 0;
    assert(iv.take(0).len() == 0);
    assert(out.deep_view() == sorted_set::<O>(iv.take(0)));
    while i < items.len()
        invariant
            i <= items@.len(),
            iv == items.deep_view(),
            out.deep_view() == sorted_set::<O>(iv.take(i as int)),
        decreases items@.len() - i,
    {
        assert(iv.take(i + 1).drop_last() == iv.take(i as int));
        assert(iv.take(i + 1).last() == items@[i as int]@);
        insert::<O>(&mut out, items[i].clone());
        i = i + 1;
    }
    assert(iv.take(iv.len() as int) == iv);
    out
}

/// Whether a list holds a text that is level with `x`.
pub fn has<O: TextOrder>(items: &Vec<String>, x: &str) -> (r: bool)
    ensures
        r == holds::<O>(items.deep_view(), x@),
{
    let mut i: usize = 0;
    while i < items.len()
        invariant
            i <= items@.len(),
            forall|j: int| 0 <= j < i ==> !level::<O>(#[trigger] items.deep_view()[j], x@),
        decreases items@.len() - i,
    {
        assert(items.deep_view()[i as int] == items@[i as int]@);
        if !O::less(items[i].as_str(), x) && !O::less(x, items[i].as_str()) {
            return true;
        }
        i = i + 1;
    }
    false
}

} // verus!
