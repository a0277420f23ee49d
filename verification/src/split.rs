//! Trimming, splitting and joining of texts.
use vstd::prelude::*;

use crate::text::{chars_of, is_space, space, text_between};

verus! {

// ---------------------------------------------------------------------------
// Trimming
// ---------------------------------------------------------------------------
/// The text without the white space at its start.
pub open spec fn trimmed_start(s: Seq<char>) -> Seq<char>
    decreases s.len(),
{
    if s.len() > 0 && is_space(s[0]) {
        trimmed_start(s.skip(1))
    } else {
        s
    }
}

/// The text without the white space at its end.
pub open spec fn trimmed_end(s: Seq<char>) -> Seq<char>
    decreases s.len(),
{
    if s.len() > 0 && is_space(s.last()) {
        trimmed_end(s.drop_last())
    } else {
        s
    }
}

/// The text without the white space around it.
pub open spec fn trimmed(s: Seq<char>) -> Seq<char> {
    trimmed_end(trimmed_start(s))
}

/// The text without the characters `c` at its start.
pub open spec fn trimmed_start_of(s: Seq<char>, c: char) -> Seq<char>
    decreases s.len(),
{
    if s.len() > 0 && s[0] == c {
        trimmed_start_of(s.skip(1), c)
    } else {
        s
    }
}

/// The text without the characters `c` at its end.
pub open spec fn trimmed_end_of(s: Seq<char>, c: char) -> Seq<char>
    decreases s.len(),
{
    if s.len() > 0 && s.last() == c {
        trimmed_end_of(s.drop_last(), c)
    } else {
        s
    }
}

/// The text without the white space at its start.
pub fn trim_start(s: &str) -> (r: String)
    ensures
        r@ == trimmed_start(s@),
{
    let chars = chars_of(s);
    let n: usize = chars.len();
    let mut i: usize = 0;
    assert(s@.skip(0) == s@);
    while i < n && space(chars[i])
        invariant
            i <= n,
            n == chars@.len(),
            chars@ == s@,
            trimmed_start(s@) == trimmed_start(s@.skip(i as int)),
        decreases n - i,
    {
        assert(s@.skip(i as int).skip(1) == s@.skip(i + 1));
        i = i + 1;
    }
    let out = text_between(&chars, i, n);
    assert(out@ == s@.skip(i as int));
    out
}

/// The text without the white space at its end.
pub fn trim_end(s: &str) -> (r: String)
    ensures
        r@ == trimmed_end(s@),
{
    let chars = chars_of(s);
    let mut n: usize = chars.len();
    assert(s@.take(s@.len() as int) == s@);
    while n > 0 && space(chars[n - 1])
        invariant
            n <= chars@.len(),
            chars@ == s@,
            trimmed_end(s@) == trimmed_end(s@.take(n as int)),
        decreases n,
    {
        assert(s@.take(n as int).drop_last() == s@.take(n - 1));
        n = n - 1;
    }
    let out = text_between(&chars, 0, n);
    assert(out@ == s@.take(n as int));
    out
}

/// The text without the white space around it.
pub fn trim(s: &str) -> (r: String)
    ensures
        r@ == trimmed(s@),
{
    let start = trim_start(s);
    trim_end(start.as_str())
}

/// The text without the characters `c` at its start.
pub fn trim_start_of(s: &str, c: char) -> (r: String)
    ensures
        r@ == trimmed_start_of(s@, c),
{
    let chars = chars_of(s);
    let n: usize = chars.len();
    let mut i: usize = 0;
    assert(s@.skip(0) == s@);
    while i < n && chars[i] == c
        invariant
            i <= n,
            n == chars@.len(),
            chars@ == s@,
            trimmed_start_of(s@, c) == trimmed_start_of(s@.skip(i as int), c),
        decreases n - i,
    {
        assert(s@.skip(i as int).skip(1) == s@.skip(i + 1));
        i = i + 1;
    }
    let out = text_between(&chars, i, n);
    assert(out@ == s@.skip(i as int));
    out
}

/// The text without the characters `c` at its end.
pub fn trim_end_of(s: &str, c: char) -> (r: String)
    ensures
        r@ == trimmed_end_of(s@, c),
{
    let chars = chars_of(s);
    let mut n: usize = chars.len();
    assert(s@.take(s@.len() as int) == s@);
    while n > 0 && chars[n - 1] == c
        invariant
            n <= chars@.len(),
            chars@ == s@,
            trimmed_end_of(s@, c) == trimmed_end_of(s@.take(n as int), c),
        decreases n,
    {
        assert(s@.take(n as int).drop_last() == s@.take(n - 1));
        n = n - 1;
    }
    let out = text_between(&chars, 0, n);
    assert(out@ == s@.take(n as int));
    out
}

// ---------------------------------------------------------------------------
// Splitting
// ---------------------------------------------------------------------------
/// Puts one more character at the end of the last part.
pub open spec fn extend_last(parts: Seq<Seq<char>>, c: char) -> Seq<Seq<char>> {
    parts.drop_last().push(parts.last().push(c))
}

/// The parts of the text between the characters `c`. There is always one part
/// more than there are characters `c`.
pub open spec fn split_at(s: Seq<char>, c: char) -> Seq<Seq<char>>
    decreases s.len(),
{
    if s.len() == 0 {
        seq![Seq::<char>::empty()]
    } else if s.last() == c {
        split_at(s.drop_last(), c).push(Seq::<char>::empty())
    } else {
        extend_last(split_at(s.drop_last(), c), s.last())
    }
}

/// Splitting a text gives at least one piece.
pub proof fn lemma_split_at_nonempty(s: Seq<char>, c: char)
    ensures
        split_at(s, c).len() >= 1,
    decreases s.len(),
{
    if s.len() > 0 {
        lemma_split_at_nonempty(s.drop_last(), c);
    }
}

/// Puts `c` at the end of the last text of the list.
fn push_last(parts: &mut Vec<String>, c: char)
    requires
        old(parts)@.len() > 0,
    ensures
        final(parts).deep_view() == extend_last(old(parts).deep_view(), c),
        final(parts)@.len() == old(parts)@.len(),
{
    let ghost before = parts.deep_view();
    let popped = parts.pop();
    match popped {
        Some(mut last) => {
            last.push(c);
            parts.push(last);
            assert(parts.deep_view() == extend_last(before, c));
        },
        None => {},
    }
}

/// Puts a text at the end of the list.
pub fn push_text(parts: &mut Vec<String>, s: String)
    ensures
        final(parts).deep_view() == old(parts).deep_view().push(s@),
        final(parts)@.len() == old(parts)@.len() + 1,
{
    let ghost before = parts.deep_view();
    parts.push(s);
    assert(parts.deep_view() == before.push(s@));
}

/// The parts of the text between the characters `c`. There is always one part
/// more than there are characters `c`.
pub fn split(s: &str, c: char) -> (r: Vec<String>)
    ensures
        r.deep_view() == split_at(s@, c),
        r@.len() >= 1,
{
    let chars = chars_of(s);
    let mut out: Vec<String> = Vec::new();
    out.push(String::new());
    let mut i: usize = 0;
    assert(s@.take(0).len() == 0);
    assert(out.deep_view() == split_at(s@.take(0), c));
    while i < chars.len()
        invariant
            i <= chars@.len(),
            chars@ == s@,
            out@.len() >= 1,
            out.deep_view() == split_at(s@.take(i as int), c),
        decreases chars@.len() - i,
    {
        let ghost next = s@.take(i + 1);
        assert(next.drop_last() == s@.take(i as int));
        assert(next.last() == chars@[i as int]);
        if chars[i] == c {
            push_text(&mut out, String::new());
        } else {
            push_last(&mut out, chars[i]);
        }
        i = i + 1;
    }
    assert(s@.take(s@.len() as int) == s@);
    out
}

/// The words of the text: the longest runs without white space.
pub open spec fn words_of(s: Seq<char>) -> Seq<Seq<char>>
    decreases s.len(),
{
    if s.len() == 0 {
        Seq::empty()
    } else {
        let before = words_of(s.drop_last());
        if is_space(s.last()) {
            before
        } else if s.len() == 1 || is_space(s[s.len() - 2]) {
            before.push(seq![s.last()])
        } else {
            extend_last(before, s.last())
        }
    }
}

/// A text that ends in a word has a word.
pub proof fn lemma_words_nonempty(s: Seq<char>)
    ensures
        s.len() > 0 && !is_space(s.last()) ==> words_of(s).len() > 0,
    decreases s.len(),
{
    if s.len() > 1 {
        lemma_words_nonempty(s.drop_last());
    }
}

/// No word is empty, and no word holds white space.
pub proof fn lemma_words_have_no_space(s: Seq<char>)
    ensures
        forall|i: int, j: int|
            0 <= i < words_of(s).len() && 0 <= j < words_of(s)[i].len() ==> !is_space(
                #[trigger] words_of(s)[i][j],
            ),
        forall|i: int| 0 <= i < words_of(s).len() ==> (#[trigger] words_of(s)[i]).len() > 0,
    decreases s.len(),
{
    if s.len() > 0 {
        lemma_words_have_no_space(s.drop_last());
        lemma_words_nonempty(s.drop_last());
        let before = words_of(s.drop_last());
        if !is_space(s.last()) && s.len() > 1 && !is_space(s[s.len() - 2]) {
            assert(s.drop_last().last() == s[s.len() - 2]);
            let w = before.last().push(s.last());
            assert forall|i: int, j: int|
                0 <= i < words_of(s).len() && 0 <= j < words_of(s)[i].len() implies !is_space(
                #[trigger] words_of(s)[i][j],
            ) by {
                if i < before.len() - 1 {
                    assert(words_of(s)[i] == before[i]);
                } else {
                    assert(words_of(s)[i] == w);
                    if j < before.last().len() {
                        assert(w[j] == before[before.len() - 1][j]);
                    }
                }
            }
        }
    }
}

/// The words of the text: the longest runs without white space.
pub fn split_whitespace(s: &str) -> (r: Vec<String>)
    ensures
        r.deep_view() == words_of(s@),
{
    let chars = chars_of(s);
    let mut out: Vec<String> = Vec::new();
    let mut inside = false;
    let mut i: usize = 0;
    assert(s@.take(0).len() == 0);
    assert(out.deep_view() == words_of(s@.take(0)));
    while i < chars.len()
        invariant
            i <= chars@.len(),
            chars@ == s@,
            inside == (i > 0 && !is_space(s@[i - 1])),
            out.deep_view() == words_of(s@.take(i as int)),
        decreases chars@.len() - i,
    {
        let ghost next = s@.take(i + 1);
        assert(next.drop_last() == s@.take(i as int));
        assert(next.last() == chars@[i as int]);
        if i > 0 {
            assert(next[next.len() - 2] == s@[i - 1]);
        }
        if space(chars[i]) {
            inside = false;
        } else if inside {
            proof {
                lemma_words_nonempty(s@.take(i as int));
                assert(s@.take(i as int).last() == s@[i - 1]);
                assert(out.deep_view().len() == out@.len());
            }
            push_last(&mut out, chars[i]);
        } else {
            let mut word = String::new();
            word.push(chars[i]);
            assert(word@ == seq![chars@[i as int]]);
            push_text(&mut out, word);
            inside = true;
        }
        i = i + 1;
    }
    assert(s@.take(s@.len() as int) == s@);
    out
}

/// The text without one carriage return at its end.
pub open spec fn without_return(s: Seq<char>) -> Seq<char> {
    if s.len() > 0 && s.last() == '\r' {
        s.drop_last()
    } else {
        s
    }
}

/// The lines that end in a line feed, each without `\n` or `\r\n`; then the
/// rest of the text, where it is not empty, as it stands.
pub open spec fn lines_of(s: Seq<char>) -> Seq<Seq<char>> {
    let parts = split_at(s, '\n');
    let full = parts.drop_last().map_values(|p: Seq<char>| without_return(p));
    if parts.last().len() == 0 {
        full
    } else {
        full.push(parts.last())
    }
}

/// The lines that end in a line feed, each without `\n` or `\r\n`; then the
/// rest of the text, where it is not empty, as it stands.
pub fn lines(s: &str) -> (r: Vec<String>)
    ensures
        r.deep_view() == lines_of(s@),
{
    let parts = split(s, '\n');
    let ghost pv = split_at(s@, '\n');
    let mut out: Vec<String> = Vec::new();
    let mut i: usize = 0;
    let last: usize = parts.len() - 1;
    while i < last
        invariant
            i <= last,
            last == parts@.len() - 1,
            out@.len() == i,
            forall|j: int| 0 <= j < i ==> #[trigger] out@[j]@ == without_return(parts@[j]@),
        decreases last - i,
    {
        let chars = chars_of(parts[i].as_str());
        let n: usize = chars.len();
        if n > 0 && chars[n - 1] == '\r' {
            let line = text_between(&chars, 0, n - 1);
            assert(line@ == parts@[i as int]@.drop_last());
            out.push(line);
        } else {
            out.push(parts[i].clone());
        }
        i = i + 1;
    }
    let ghost full = pv.drop_last().map_values(|p: Seq<char>| without_return(p));
    proof {
        assert(parts.deep_view().len() == parts@.len());
        assert forall|j: int| 0 <= j < last implies #[trigger] out.deep_view()[j] == full[j] by {
            assert(out@[j]@ == without_return(parts@[j]@));
            assert(parts.deep_view()[j] == parts@[j]@);
        }
        assert(out.deep_view() == full);
        assert(parts.deep_view()[last as int] == parts@[last as int]@);
    }
    if !parts[last].as_str().is_empty() {
        push_text(&mut out, parts[last].clone());
    }
    out
}

// ---------------------------------------------------------------------------
// Joining
// ---------------------------------------------------------------------------
/// The parts one after the other with `sep` between them.
pub open spec fn joined(parts: Seq<Seq<char>>, sep: Seq<char>) -> Seq<char>
    decreases parts.len(),
{
    if parts.len() == 0 {
        Seq::empty()
    } else if parts.len() == 1 {
        parts[0]
    } else {
        joined(parts.drop_last(), sep) + sep + parts.last()
    }
}

/// The parts one after the other with `sep` between them.
pub fn join(parts: &Vec<String>, sep: &str) -> (r: String)
    ensures
        r@ == joined(parts.deep_view(), sep@),
{
    let mut out = String::new();
    let ghost pv = parts.deep_view();
    let mut i: usize = 0;
    assert(pv.take(0).len() == 0);
    while i < parts.len()
        invariant
            i <= parts@.len(),
            pv == parts.deep_view(),
            out@ == joined(pv.take(i as int), sep@),
        decreases parts@.len() - i,
    {
        assert(pv.take(i + 1).drop_last() == pv.take(i as int));
        assert(pv.take(i + 1).last() == parts@[i as int]@);
        if i > 0 {
            out.append(sep);
            out.append(parts[i].as_str());
        } else {
            out.append(parts[i].as_str());
            assert(out@ == parts@[0]@);
        }
        i = i + 1;
    }
    assert(pv.take(pv.len() as int) == pv);
    out
}

/// The first `n` items of a list, or all of them where there are fewer.
pub open spec fn at_most<A>(s: Seq<A>, n: int) -> Seq<A> {
    if s.len() <= n {
        s
    } else {
        s.take(n)
    }
}

/// The last `n` items of a list, or all of them where there are fewer.
pub open spec fn at_most_last<A>(s: Seq<A>, n: int) -> Seq<A> {
    if s.len() <= n {
        s
    } else {
        s.skip(s.len() - n)
    }
}

/// The first `n` items of a list, or all of them where there are fewer.
pub fn first_texts(items: &Vec<String>, n: usize) -> (r: Vec<String>)
    ensures
        r.deep_view() == at_most(items.deep_view(), n as int),
{
    let mut out: Vec<String> = Vec::new();
    let mut i: usize = 0;
    while i < items.len() && i < n
        invariant
            i <= items@.len(),
            i <= n,
            out@.len() == i,
            forall|j: int| 0 <= j < i ==> #[trigger] out@[j]@ == items@[j]@,
        decreases items@.len() - i,
    {
        out.push(items[i].clone());
        i = i + 1;
    }
    assert(out.deep_view() == at_most(items.deep_view(), n as int));
    out
}

/// The last `n` items of a list, or all of them where there are fewer.
pub fn last_texts(items: &Vec<String>, n: usize) -> (r: Vec<String>)
    ensures
        r.deep_view() == at_most_last(items.deep_view(), n as int),
{
    let mut out: Vec<String> = Vec::new();
    let total: usize = items.len();
    let start: usize = if total <= n {
        0
    } else {
        total - n
    };
    let mut i: usize = start;
    while i < total
        invariant
            start <= i <= total,
            total == items@.len(),
            out@.len() == i - start,
            forall|j: int| 0 <= j < i - start ==> #[trigger] out@[j]@ == items@[start + j]@,
        decreases total - i,
    {
        out.push(items[i].clone());
        i = i + 1;
    }
    assert(out.deep_view() == at_most_last(items.deep_view(), n as int));
    out
}

/// The pieces of a text, put together again with what it was split at between them, are the
/// text, and no piece holds what it was split at.
pub proof fn law_split_texts_join_again(s: Seq<char>, c: char)
    ensures
        joined(split_at(s, c), seq![c]) == s,
        forall|i: int| 0 <= i < split_at(s, c).len() ==> !(#[trigger] split_at(s, c)[i]).contains(c),
    decreases s.len(),
{
    let parts = split_at(s, c);
    if s.len() == 0 {
        assert(parts =~= seq![Seq::<char>::empty()]);
        assert(joined(parts, seq![c]) =~= s);
    } else {
        let before = split_at(s.drop_last(), c);
        lemma_split_at_nonempty(s.drop_last(), c);
        law_split_texts_join_again(s.drop_last(), c);
        if s.last() == c {
            assert(parts.drop_last() =~= before);
            assert(joined(parts, seq![c]) =~= s);
        } else {
            assert(parts.drop_last() =~= before.drop_last());
            assert(parts.last() =~= before.last().push(s.last()));
            if before.len() > 1 {
                assert(joined(parts, seq![c]) =~= joined(before, seq![c]).push(s.last()));
            }
            assert(joined(parts, seq![c]) =~= s);
            assert forall|i: int| 0 <= i < parts.len() implies !(#[trigger] parts[i]).contains(
                c,
            ) by {
                if i < before.len() - 1 {
                    assert(parts[i] == before[i]);
                } else {
                    let last = before[i];
                    assert(parts[i] == last.push(s.last()));
                    assert forall|k: int| 0 <= k < parts[i].len() implies parts[i][k] != c by {
                        if k < last.len() {
                            assert(last[k] != c) by {
                                assert(!last.contains(c));
                            }
                        }
                    }
                }
            }
        }
    }
}

} // verus!
