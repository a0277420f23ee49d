//! What the lines of a unified diff say of the files that changed.
use vstd::prelude::*;

use crate::api::LineRange;
use crate::changes::{diff_of, file_added, hunk_range, plus_word_from, ChangedFileModel};
use crate::number::decimal;
use crate::order::{level, TextOrder};
use crate::paths::{path_lt, ByPath};
use crate::readback::{law_numbers_read_back, lemma_decimal_reads};
use crate::split::{
    extend_last, lemma_words_have_no_space, lemma_words_nonempty, trimmed_start_of, words_of,
};
use crate::text::{cut_at, find_char_from, is_digit, is_space, starts, without_prefix};

verus! {

// ---------------------------------------------------------------------------
// Words
// ---------------------------------------------------------------------------
/// The words of two texts with a space between them are those of the first and then those of
/// the second.
pub proof fn law_words_of_two_texts(a: Seq<char>, b: Seq<char>)
    ensures
        words_of(a + seq![' '] + b) == words_of(a) + words_of(b),
    decreases b.len(),
{
    let s = a + seq![' '] + b;
    assert(is_space(' '));
    if b.len() == 0 {
        assert(s.drop_last() =~= a);
        assert(words_of(s) =~= words_of(a) + words_of(b));
    } else {
        let c = b.last();
        let rest = b.drop_last();
        law_words_of_two_texts(a, rest);
        assert(s.drop_last() =~= a + seq![' '] + rest);
        let before = words_of(a) + words_of(rest);
        if is_space(c) {
        } else if rest.len() == 0 {
            assert(s[s.len() - 2] == ' ');
            assert(words_of(rest).len() == 0);
            assert(before.push(seq![c]) =~= words_of(a) + words_of(rest).push(seq![c]));
        } else {
            assert(s[s.len() - 2] == rest.last());
            assert(b[b.len() - 2] == rest.last());
            if is_space(rest.last()) {
                assert(before.push(seq![c]) =~= words_of(a) + words_of(rest).push(seq![c]));
            } else {
                lemma_words_nonempty(rest);
                assert(extend_last(before, c) =~= words_of(a) + extend_last(words_of(rest), c));
            }
        }
    }
}

/// A text without white space is one word.
pub proof fn law_a_text_without_space_is_a_word(w: Seq<char>)
    requires
        w.len() > 0,
        forall|i: int| 0 <= i < w.len() ==> !is_space(#[trigger] w[i]),
    ensures
        words_of(w) == seq![w],
    decreases w.len(),
{
    assert(!is_space(w[w.len() - 1]));
    if w.len() == 1 {
        assert(words_of(w.drop_last()).len() == 0);
        assert(words_of(w) =~= seq![w]) by {
            assert(seq![w.last()] =~= w);
        }
    } else {
        assert(!is_space(w[w.len() - 2]));
        law_a_text_without_space_is_a_word(w.drop_last());
        assert(extend_last(seq![w.drop_last()], w.last()) =~= seq![w]) by {
            assert(w.drop_last().push(w.last()) =~= w);
        }
    }
}

// ---------------------------------------------------------------------------
// Hunks
// ---------------------------------------------------------------------------
proof fn lemma_first_plus_word(words: Seq<Seq<char>>, at: int, from: int)
    requires
        0 <= from <= at < words.len(),
        words[at].len() > 0,
        words[at][0] == '+',
        forall|k: int| from <= k < at ==> (#[trigger] words[k]).len() > 0 && words[k][0] != '+',
    ensures
        plus_word_from(words, from) == Some(words[at]),
    decreases at - from,
{
    if from < at {
        assert(words[from][0] != '+');
        lemma_first_plus_word(words, at, from + 1);
    }
}

proof fn lemma_first_place(s: Seq<char>, c: char, at: int, from: int)
    requires
        0 <= from <= at < s.len(),
        s[at] == c,
        forall|k: int| from <= k < at ==> s[k] != c,
    ensures
        find_char_from(s, c, from) == Some(at),
    decreases at - from,
{
    if from < at {
        lemma_first_place(s, c, at, from + 1);
    }
}

proof fn lemma_no_place(s: Seq<char>, c: char, from: int)
    requires
        0 <= from,
        forall|k: int| from <= k < s.len() ==> s[k] != c,
    ensures
        find_char_from(s, c, from) is None,
    decreases s.len() - from,
{
    if from < s.len() {
        lemma_no_place(s, c, from + 1);
    }
}

proof fn lemma_digits_are_plain(n: int)
    requires
        0 <= n,
    ensures
        decimal(n).len() > 0,
        forall|i: int|
            0 <= i < decimal(n).len() ==> !is_space(#[trigger] decimal(n)[i]) && decimal(n)[i]
                != ',' && decimal(n)[i] != '+',
{
    lemma_decimal_reads(n);
    assert forall|i: int| 0 <= i < decimal(n).len() implies !is_space(#[trigger] decimal(n)[i])
        && decimal(n)[i] != ',' && decimal(n)[i] != '+' by {
        assert(is_digit(decimal(n)[i]));
    }
}

/// The first word with a plus sign is the one between two texts, where the first has none.
proof fn lemma_plus_word_between(front: Seq<char>, word: Seq<char>, back: Seq<char>)
    requires
        word.len() > 0,
        word[0] == '+',
        forall|i: int| 0 <= i < word.len() ==> !is_space(#[trigger] word[i]),
        forall|i: int| 0 <= i < words_of(front).len() ==> (#[trigger] words_of(front)[i])[0] != '+',
    ensures
        plus_word_from(words_of(front + seq![' '] + word + (seq![' '] + back)), 0) == Some(word),
{
    let line = front + seq![' '] + word + (seq![' '] + back);
    assert(line =~= (front + seq![' '] + word) + seq![' '] + back);
    law_words_of_two_texts(front + seq![' '] + word, back);
    law_words_of_two_texts(front, word);
    law_a_text_without_space_is_a_word(word);
    let words = words_of(line);
    let at = words_of(front).len() as int;
    assert(words[at] == word);
    lemma_words_have_no_space(front);
    assert forall|k: int| 0 <= k < at implies (#[trigger] words[k]).len() > 0 && words[k][0]
        != '+' by {
        assert(words[k] == words_of(front)[k]);
    }
    lemma_first_plus_word(words, at, 0);
}

proof fn lemma_counted_word(start: int, count: int)
    requires
        0 <= start,
        0 <= count,
    ensures
        ({
            let word = seq!['+'] + decimal(start) + seq![','] + decimal(count);
            &&& word.len() > 0
            &&& word[0] == '+'
            &&& forall|i: int| 0 <= i < word.len() ==> !is_space(#[trigger] word[i])
            &&& cut_at(trimmed_start_of(word, '+'), ',') == Some((decimal(start), decimal(count)))
        }),
{
    let s = decimal(start);
    let n = decimal(count);
    let value = s + seq![','] + n;
    let word = seq!['+'] + s + seq![','] + n;
    lemma_digits_are_plain(start);
    lemma_digits_are_plain(count);
    assert(!is_space('+') && !is_space(','));
    assert forall|i: int| 0 <= i < word.len() implies !is_space(#[trigger] word[i]) by {
        if i == 0 {
        } else if i < 1 + s.len() {
            assert(word[i] == s[i - 1]);
        } else if i > 1 + s.len() {
            assert(word[i] == n[i - 2 - s.len()]);
        }
    }
    assert(word.skip(1) =~= value);
    assert(value[0] == s[0]);
    assert(trimmed_start_of(value, '+') == value);
    assert(trimmed_start_of(word, '+') == value);
    assert forall|k: int| 0 <= k < s.len() implies value[k] != ',' by {
        assert(value[k] == s[k]);
    }
    assert(value[s.len() as int] == ',');
    lemma_first_place(value, ',', s.len() as int, 0);
    assert(value.take(s.len() as int) =~= s);
    assert(value.skip(s.len() as int + 1) =~= n);
}

/// The header of a hunk that starts at a line and has some lines, `+start,count` among its
/// words, stands for exactly these lines; one that has none stands for its first line.
pub proof fn law_hunks_stand_for_their_lines(
    front: Seq<char>,
    start: int,
    count: int,
    back: Seq<char>,
)
    requires
        0 <= start <= usize::MAX,
        0 <= count <= usize::MAX,
        forall|i: int| 0 <= i < words_of(front).len() ==> (#[trigger] words_of(front)[i])[0] != '+',
    ensures
        hunk_range(
            front + seq![' '] + (seq!['+'] + decimal(start) + seq![','] + decimal(count)) + (seq![
                ' ',
            ] + back),
        ) == Some(
            (
                start,
                if count == 0 {
                    start
                } else {
                    start + count - 1
                },
            ),
        ),
{
    lemma_counted_word(start, count);
    lemma_plus_word_between(
        front,
        seq!['+'] + decimal(start) + seq![','] + decimal(count),
        back,
    );
    law_numbers_read_back(start, usize::MAX as int);
    law_numbers_read_back(count, usize::MAX as int);
}

/// The header of a hunk that says no number of lines, `+start` among its words, stands for one
/// line.
pub proof fn law_hunks_without_a_count_stand_for_one_line(
    front: Seq<char>,
    start: int,
    back: Seq<char>,
)
    requires
        0 <= start <= usize::MAX,
        forall|i: int| 0 <= i < words_of(front).len() ==> (#[trigger] words_of(front)[i])[0] != '+',
    ensures
        hunk_range(
            front + seq![' '] + (seq!['+'] + decimal(start)) + (seq![' '] + back),
        ) == Some((start, start)),
{
    let s = decimal(start);
    let word = seq!['+'] + s;
    lemma_digits_are_plain(start);
    assert(!is_space('+'));
    assert forall|i: int| 0 <= i < word.len() implies !is_space(#[trigger] word[i]) by {
        if i > 0 {
            assert(word[i] == s[i - 1]);
        }
    }
    lemma_plus_word_between(front, word, back);
    assert(word.skip(1) =~= s);
    assert(trimmed_start_of(s, '+') == s);
    assert(trimmed_start_of(word, '+') == s);
    lemma_no_place(s, ',', 0);
    law_numbers_read_back(start, usize::MAX as int);
}

// ---------------------------------------------------------------------------
// Files
// ---------------------------------------------------------------------------
/// Whether changed files hold one at a path.
pub open spec fn has_file(files: Seq<ChangedFileModel>, path: Seq<char>) -> bool {
    exists|f: int| 0 <= f < files.len() && level::<ByPath>((#[trigger] files[f]).path, path)
}

/// Whether changed files hold a range of lines of the file at a path.
pub open spec fn has_lines(
    files: Seq<ChangedFileModel>,
    path: Seq<char>,
    range: LineRange,
) -> bool {
    exists|f: int|
        0 <= f < files.len() && level::<ByPath>((#[trigger] files[f]).path, path)
            && files[f].ranges.contains(range)
}

proof fn lemma_file_added(
    files: Seq<ChangedFileModel>,
    path: Seq<char>,
    ranges: Seq<LineRange>,
    other: Seq<char>,
    range: LineRange,
)
    ensures
        has_file(file_added(files, path, ranges), path),
        ranges.contains(range) ==> has_lines(file_added(files, path, ranges), path, range),
        has_file(files, other) ==> has_file(file_added(files, path, ranges), other),
        has_lines(files, other, range) ==> has_lines(
            file_added(files, path, ranges),
            other,
            range,
        ),
    decreases files.len(),
{
    let all = file_added(files, path, ranges);
    <ByPath as TextOrder>::irreflexive(path);
    if files.len() == 0 || path_lt(files.last().path, path) {
        assert(level::<ByPath>(all[all.len() - 1].path, path));
        if has_file(files, other) {
            let f = choose|f: int|
                0 <= f < files.len() && level::<ByPath>((#[trigger] files[f]).path, other);
            assert(all[f] == files[f]);
        }
        if has_lines(files, other, range) {
            let f = choose|f: int|
                0 <= f < files.len() && level::<ByPath>((#[trigger] files[f]).path, other)
                    && files[f].ranges.contains(range);
            assert(all[f] == files[f]);
        }
    } else if path_lt(path, files.last().path) {
        let rest = files.drop_last();
        let before = file_added(rest, path, ranges);
        lemma_file_added(rest, path, ranges, other, range);
        let f = choose|f: int|
            0 <= f < before.len() && level::<ByPath>((#[trigger] before[f]).path, path);
        assert(all[f] == before[f]);
        if ranges.contains(range) {
            let g = choose|g: int|
                0 <= g < before.len() && level::<ByPath>((#[trigger] before[g]).path, path)
                    && before[g].ranges.contains(range);
            assert(all[g] == before[g]);
        }
        if has_file(files, other) {
            let g = choose|g: int|
                0 <= g < files.len() && level::<ByPath>((#[trigger] files[g]).path, other);
            if g < rest.len() {
                assert(rest[g] == files[g]);
                let h = choose|h: int|
                    0 <= h < before.len() && level::<ByPath>((#[trigger] before[h]).path, other);
                assert(all[h] == before[h]);
            } else {
                assert(all[all.len() - 1] == files[g]);
            }
        }
        if has_lines(files, other, range) {
            let g = choose|g: int|
                0 <= g < files.len() && level::<ByPath>((#[trigger] files[g]).path, other)
                    && files[g].ranges.contains(range);
            if g < rest.len() {
                assert(rest[g] == files[g]);
                assert(has_lines(rest, other, range));
                let h = choose|h: int|
                    0 <= h < before.len() && level::<ByPath>((#[trigger] before[h]).path, other)
                        && before[h].ranges.contains(range);
                assert(all[h] == before[h]);
            } else {
                assert(all[all.len() - 1] == files[g]);
            }
        }
    } else {
        let last = all.len() - 1;
        let joined = files.last().ranges + ranges;
        assert(all[last].ranges == joined);
        assert(level::<ByPath>(all[last].path, path));
        if ranges.contains(range) {
            let k = choose|k: int| 0 <= k < ranges.len() && ranges[k] == range;
            assert(joined[files.last().ranges.len() + k] == range);
        }
        if has_file(files, other) {
            let g = choose|g: int|
                0 <= g < files.len() && level::<ByPath>((#[trigger] files[g]).path, other);
            assert(all[g].path == files[g].path);
        }
        if has_lines(files, other, range) {
            let g = choose|g: int|
                0 <= g < files.len() && level::<ByPath>((#[trigger] files[g]).path, other)
                    && files[g].ranges.contains(range);
            if g < last {
                assert(all[g] == files[g]);
            } else {
                let k = choose|k: int|
                    0 <= k < files[g].ranges.len() && files[g].ranges[k] == range;
                assert(joined[k] == range);
                assert(all[g].ranges.contains(range));
                assert(all[g].path == files[g].path);
            }
        }
    }
}

proof fn lemma_diff_keeps(
    lines: Seq<Seq<char>>,
    n: int,
    path: Seq<char>,
    range: LineRange,
)
    requires
        0 <= n <= lines.len(),
    ensures
        has_file(diff_of(lines.take(n)).files, path) ==> has_file(diff_of(lines).files, path),
        has_lines(diff_of(lines.take(n)).files, path, range) ==> has_lines(
            diff_of(lines).files,
            path,
            range,
        ),
    decreases lines.len() - n,
{
    if n == lines.len() {
        assert(lines.take(n) =~= lines);
    } else {
        let next = lines.take(n + 1);
        assert(next.drop_last() =~= lines.take(n));
        assert(next.last() == lines[n]);
        let before = diff_of(lines.take(n));
        lemma_diff_keeps(lines, n + 1, path, range);
        match without_prefix(lines[n], "+++ b/"@) {
            Some(named) => {
                lemma_file_added(before.files, named, Seq::empty(), path, range);
            },
            None => match (before.current, hunk_range(lines[n])) {
                (Some(named), Some(found)) => {
                    lemma_file_added(
                        before.files,
                        named,
                        seq![LineRange { start: found.0 as usize, end: found.1 as usize }],
                        path,
                        range,
                    );
                },
                _ => {},
            },
        }
    }
}

proof fn lemma_diff_speaks_of(lines: Seq<Seq<char>>, h: int, n: int, path: Seq<char>)
    requires
        0 <= h < n <= lines.len(),
        lines[h] == "+++ b/"@ + path,
        forall|k: int| h < k < n ==> !starts(#[trigger] lines[k], "+++ b/"@),
    ensures
        diff_of(lines.take(n)).current == Some(path),
    decreases n,
{
    let now = lines.take(n);
    assert(now.drop_last() =~= lines.take(n - 1));
    assert(now.last() == lines[n - 1]);
    if n - 1 == h {
        assert(lines[h].take("+++ b/"@.len() as int) =~= "+++ b/"@);
        assert(lines[h].skip("+++ b/"@.len() as int) =~= path);
    } else {
        lemma_diff_speaks_of(lines, h, n - 1, path);
        assert(!starts(lines[n - 1], "+++ b/"@));
    }
}

/// Every file that a diff names is a changed file, and every hunk behind the name of a file,
/// up to the next name, gives its lines to that file.
pub proof fn law_hunks_belong_to_the_file_before_them(
    lines: Seq<Seq<char>>,
    h: int,
    j: int,
    path: Seq<char>,
    range: LineRange,
)
    requires
        0 <= h < j < lines.len(),
        lines[h] == "+++ b/"@ + path,
        forall|k: int| h < k <= j ==> !starts(#[trigger] lines[k], "+++ b/"@),
        starts(lines[j], "@@"@),
        hunk_range(lines[j]) == Some((range.start as int, range.end as int)),
    ensures
        has_file(diff_of(lines).files, path),
        has_lines(diff_of(lines).files, path, range),
{
    let now = lines.take(j + 1);
    assert(now.drop_last() =~= lines.take(j));
    assert(now.last() == lines[j]);
    lemma_diff_speaks_of(lines, h, j, path);
    let before = diff_of(lines.take(j));
    let one = seq![range];
    assert(one[0] == range);
    assert(one.contains(range));
    assert(!starts(lines[j], "+++ b/"@));
    assert(one =~= seq![LineRange { start: range.start, end: range.end }]);
    lemma_file_added(before.files, path, one, path, range);
    lemma_diff_keeps(lines, j + 1, path, range);
}

/// Every file that a diff names is a changed file, with or without hunks.
pub proof fn law_named_files_are_changed(lines: Seq<Seq<char>>, h: int, path: Seq<char>)
    requires
        0 <= h < lines.len(),
        lines[h] == "+++ b/"@ + path,
    ensures
        has_file(diff_of(lines).files, path),
{
    let now = lines.take(h + 1);
    let range = LineRange { start: 0, end: 0 };
    assert(now.drop_last() =~= lines.take(h));
    assert(now.last() == lines[h]);
    assert(lines[h].take("+++ b/"@.len() as int) =~= "+++ b/"@);
    assert(lines[h].skip("+++ b/"@.len() as int) =~= path);
    lemma_file_added(diff_of(lines.take(h)).files, path, Seq::empty(), path, range);
    lemma_diff_keeps(lines, h + 1, path, range);
}

} // verus!
