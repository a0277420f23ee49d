//! Places in a text counted in bytes of its UTF-8 form.
use vstd::prelude::*;

use crate::text::{chars_of, text_between};

verus! {

/// How many bytes a character takes in UTF-8.
pub open spec fn char_bytes(c: char) -> int {
    if (c as u32) < 0x80 {
        1
    } else if (c as u32) < 0x800 {
        2
    } else if (c as u32) < 0x10000 {
        3
    } else {
        4
    }
}

/// How many bytes a text takes in UTF-8.
pub open spec fn byte_len(s: Seq<char>) -> int
    decreases s.len(),
{
    if s.len() == 0 {
        0
    } else {
        byte_len(s.drop_last()) + char_bytes(s.last())
    }
}

/// The character, from one on, that starts at a byte; the end of the text counts.
pub open spec fn char_starting_from(s: Seq<char>, at: int, from: int) -> Option<int>
    decreases s.len() + 1 - from,
{
    if from < 0 || from > s.len() {
        None
    } else if byte_len(s.take(from)) == at {
        Some(from)
    } else {
        char_starting_from(s, at, from + 1)
    }
}

/// The character that starts at a byte; the end of the text counts.
pub open spec fn char_starting(s: Seq<char>, at: int) -> Option<int> {
    char_starting_from(s, at, 0)
}

/// The piece of a text between two bytes, where both are bounds of characters.
pub open spec fn piece(s: Seq<char>, start: int, end: int) -> Option<Seq<char>> {
    match (char_starting(s, start), char_starting(s, end)) {
        (Some(from), Some(to)) => if start <= end {
            Some(s.subrange(from, to))
        } else {
            None
        },
        _ => None,
    }
}

/// A text with the piece between two bytes replaced, where both are bounds of
/// characters.
pub open spec fn piece_replaced(
    s: Seq<char>,
    start: int,
    end: int,
    by: Seq<char>,
) -> Option<Seq<char>> {
    match (char_starting(s, start), char_starting(s, end)) {
        (Some(from), Some(to)) => if start <= end {
            Some(s.take(from) + by + s.skip(to))
        } else {
            None
        },
        _ => None,
    }
}

proof fn lemma_byte_len_bounds(s: Seq<char>)
    ensures
        s.len() <= byte_len(s) <= 4 * s.len(),
    decreases s.len(),
{
    if s.len() > 0 {
        lemma_byte_len_bounds(s.drop_last());
    }
}

/// The bytes of two texts one after the other.
pub proof fn lemma_byte_len_sum(a: Seq<char>, b: Seq<char>)
    ensures
        byte_len(a + b) == byte_len(a) + byte_len(b),
    decreases b.len(),
{
    if b.len() == 0 {
        assert(a + b =~= a);
    } else {
        lemma_byte_len_sum(a, b.drop_last());
        assert((a + b).drop_last() =~= a + b.drop_last());
    }
}

proof fn lemma_byte_len_grows(s: Seq<char>, i: int, j: int)
    requires
        0 <= i < j <= s.len(),
    ensures
        byte_len(s.take(i)) < byte_len(s.take(j)),
    decreases j - i,
{
    assert(s.take(j).drop_last() =~= s.take(j - 1));
    if i < j - 1 {
        lemma_byte_len_grows(s, i, j - 1);
    }
}

proof fn lemma_no_char_starting(s: Seq<char>, at: int, from: int)
    requires
        0 <= from <= s.len(),
        byte_len(s.take(from)) > at,
    ensures
        char_starting_from(s, at, from) is None,
    decreases s.len() - from,
{
    if from < s.len() {
        lemma_byte_len_grows(s, from, from + 1);
        lemma_no_char_starting(s, at, from + 1);
    } else {
        assert(char_starting_from(s, at, from + 1) is None);
    }
}

proof fn lemma_char_starting_is_there(s: Seq<char>, at: int, from: int)
    requires
        0 <= from,
    ensures
        char_starting_from(s, at, from) matches Some(k) ==> from <= k <= s.len() && byte_len(
            s.take(k),
        ) == at,
    decreases s.len() + 1 - from,
{
    if from <= s.len() && byte_len(s.take(from)) != at {
        lemma_char_starting_is_there(s, at, from + 1);
    }
}

proof fn lemma_char_starting_found(s: Seq<char>, k: int, from: int)
    requires
        0 <= from <= k <= s.len(),
    ensures
        char_starting_from(s, byte_len(s.take(k)), from) == Some(k),
    decreases k - from,
{
    if from < k {
        lemma_byte_len_grows(s, from, k);
        lemma_char_starting_found(s, k, from + 1);
    }
}

/// A piece takes as many bytes as lie between its bounds.
pub proof fn lemma_piece_bytes(s: Seq<char>, start: int, end: int)
    ensures
        piece(s, start, end) matches Some(text) ==> byte_len(text) == end - start && start >= 0,
{
    lemma_char_starting_is_there(s, start, 0);
    lemma_char_starting_is_there(s, end, 0);
    if let Some(text) = piece(s, start, end) {
        let from = char_starting(s, start)->0;
        let to = char_starting(s, end)->0;
        if to < from {
            lemma_byte_len_grows(s, to, from);
        }
        lemma_byte_len_bounds(s.take(from));
        lemma_byte_len_sum(s.take(from), text);
        assert(s.take(from) + text =~= s.take(to));
    }
}

/// How many bytes a character takes in UTF-8.
pub fn bytes_of_char(c: char) -> (r: usize)
    ensures
        r == char_bytes(c),
        1 <= r <= 4,
{
    let code: u32 = c as u32;
    if code < 0x80 {
        1
    } else if code < 0x800 {
        2
    } else if code < 0x10000 {
        3
    } else {
        4
    }
}

/// The character that starts at a byte; the end of the text counts.
pub fn char_index(chars: &Vec<char>, at: usize) -> (r: Option<usize>)
    ensures
        r matches Some(k) ==> k <= chars@.len() && char_starting(chars@, at as int) == Some(
            k as int,
        ),
        r is None ==> char_starting(chars@, at as int) is None,
{
    let mut seen: usize = 0;
    let mut i: usize = 0;
    assert(chars@.take(0).len() == 0);
    loop
        invariant
            i <= chars@.len(),
            seen == byte_len(chars@.take(i as int)),
            seen <= at,
            char_starting(chars@, at as int) == char_starting_from(chars@, at as int, i as int),
        decreases chars@.len() - i,
    {
        if seen == at {
            return Some(i);
        }
        if i == chars.len() {
            assert(char_starting_from(chars@, at as int, i + 1) is None);
            return None;
        }
        let more: usize = bytes_of_char(chars[i]);
        proof {
            assert(chars@.take(i + 1).drop_last() =~= chars@.take(i as int));
        }
        if more > at - seen {
            proof {
                lemma_no_char_starting(chars@, at as int, i + 1);
            }
            return None;
        }
        seen = seen + more;
        i = i + 1;
    }
}

/// The piece of a text between two bytes, where both are bounds of characters.
pub fn text_piece(chars: &Vec<char>, start: usize, end: usize) -> (r: Option<String>)
    ensures
        r.deep_view() == piece(chars@, start as int, end as int),
{
    match (char_index(chars, start), char_index(chars, end)) {
        (Some(from), Some(to)) => {
            if start <= end {
                proof {
                    lemma_char_starting_is_there(chars@, start as int, 0);
                    lemma_char_starting_is_there(chars@, end as int, 0);
                    if to < from {
                        lemma_byte_len_grows(chars@, to as int, from as int);
                    }
                }
                Some(text_between(chars, from, to))
            } else {
                None
            }
        },
        _ => None,
    }
}

/// A text with the piece between two bytes replaced, where both are bounds of
/// characters.
pub fn replace_piece(s: &str, start: usize, end: usize, by: &str) -> (r: Option<String>)
    ensures
        r.deep_view() == piece_replaced(s@, start as int, end as int, by@),
{
    let chars = chars_of(s);
    match (char_index(&chars, start), char_index(&chars, end)) {
        (Some(from), Some(to)) => {
            if start <= end {
                let n: usize = chars.len();
                let head = text_between(&chars, 0, from);
                let tail = text_between(&chars, to, n);
                let mut out = head;
                out.append(by);
                out.append(tail.as_str());
                assert(chars@.subrange(0, from as int) =~= s@.take(from as int));
                assert(chars@.subrange(to as int, n as int) =~= s@.skip(to as int));
                Some(out)
            } else {
                None
            }
        },
        _ => None,
    }
}

/// Putting back what a replacement took out gives the text again.
pub proof fn law_replacement_can_be_undone(s: Seq<char>, start: int, end: int, by: Seq<char>)
    requires
        piece(s, start, end) is Some,
    ensures
        piece_replaced(s, start, end, by) matches Some(changed) && piece_replaced(
            changed,
            start,
            start + byte_len(by),
            piece(s, start, end)->0,
        ) == Some(s),
{
    let from = char_starting(s, start)->0;
    let to = char_starting(s, end)->0;
    lemma_char_starting_is_there(s, start, 0);
    lemma_char_starting_is_there(s, end, 0);
    if to < from {
        lemma_byte_len_grows(s, to, from);
    }
    let changed = piece_replaced(s, start, end, by)->0;
    assert(changed.take(from) =~= s.take(from));
    lemma_char_starting_found(changed, from, 0);
    let behind = from + by.len();
    assert(changed.take(behind) =~= s.take(from) + by);
    lemma_byte_len_sum(s.take(from), by);
    lemma_byte_len_bounds(by);
    lemma_char_starting_found(changed, behind, 0);
    assert(changed.skip(behind) =~= s.skip(to));
    assert(s.take(from) + s.subrange(from, to) + s.skip(to) =~= s);
}

/// Replacing a piece of a text by another one gives another text, and only what stands before
/// and behind the piece is kept.
pub proof fn law_replacement_changes_the_text(s: Seq<char>, start: int, end: int, by: Seq<char>)
    requires
        piece(s, start, end) is Some,
    ensures
        piece_replaced(s, start, end, by) is Some,
        piece_replaced(s, start, end, by) == Some(s) <==> piece(s, start, end) == Some(by),
        exists|front: Seq<char>, back: Seq<char>|
            byte_len(front) == start && s == #[trigger] (front + piece(s, start, end)->0 + back)
                && piece_replaced(s, start, end, by) == Some(front + by + back),
{
    let from = char_starting(s, start)->0;
    let to = char_starting(s, end)->0;
    lemma_char_starting_is_there(s, start, 0);
    lemma_char_starting_is_there(s, end, 0);
    if to < from {
        lemma_byte_len_grows(s, to, from);
    }
    let own = piece(s, start, end)->0;
    let changed = s.take(from) + by + s.skip(to);
    assert(s =~= s.take(from) + own + s.skip(to));
    if changed == s {
        assert(by.len() == to - from);
        assert(by =~= own) by {
            assert forall|i: int| 0 <= i < by.len() implies by[i] == own[i] by {
                assert(changed[from + i] == by[i]);
                assert(s[from + i] == own[i]);
            }
        }
    }
    if by == own {
        assert(changed =~= s);
    }
    assert(s == s.take(from) + piece(s, start, end)->0 + s.skip(to));
}

/// The byte at which the character at an index starts.
pub fn byte_offset(chars: &Vec<char>, at: usize, limit: usize) -> (r: usize)
    requires
        at <= chars@.len(),
        byte_len(chars@) <= limit,
    ensures
        r == byte_len(chars@.take(at as int)),
        r <= limit,
{
    let mut seen: usize = 0;
    let mut i: usize = 0;
    assert(chars@.take(0).len() == 0);
    while i < at
        invariant
            i <= at,
            at <= chars@.len(),
            seen == byte_len(chars@.take(i as int)),
            byte_len(chars@) <= limit,
        decreases at - i,
    {
        proof {
            assert(chars@.take(i + 1).drop_last() =~= chars@.take(i as int));
            lemma_prefix_bytes(chars@, i + 1);
        }
        seen = seen + bytes_of_char(chars[i]);
        i = i + 1;
    }
    proof {
        lemma_prefix_bytes(chars@, at as int);
    }
    seen
}

/// The start of a text takes no more bytes than the text.
pub proof fn lemma_prefix_bytes(s: Seq<char>, i: int)
    requires
        0 <= i <= s.len(),
    ensures
        0 <= byte_len(s.take(i)) <= byte_len(s),
{
    lemma_byte_len_sum(s.take(i), s.skip(i));
    lemma_byte_len_bounds(s.take(i));
    lemma_byte_len_bounds(s.skip(i));
    assert(s.take(i) + s.skip(i) =~= s);
}

} // verus!
