//! Text as a sequence of characters: searching, trimming, splitting, joining
//! and printing numbers.
//!
//! The view of a `String` or `&str` is a `Seq<char>`. Every function here has
//! a specification over that view.
use vstd::prelude::*;

verus! {

/// `String::push` appends one character to the text.
pub assume_specification[ String::push ](s: &mut String, c: char)
    ensures
        final(s)@ == old(s)@.push(c),
;

// ---------------------------------------------------------------------------
// Conversions
// ---------------------------------------------------------------------------
/// The characters of a text.
pub fn chars_of(s: &str) -> (r: Vec<char>)
    ensures
        r@ == s@,
{
    let mut out: Vec<char> = Vec::new();
    for c in it: s.chars()
        invariant
            out@ == it.seq().take(it.index()),
            it.seq() == s@,
    {
        out.push(c);
    }
    out
}

/// The text made of the characters `from..to`.
pub fn text_between(chars: &Vec<char>, from: usize, to: usize) -> (r: String)
    requires
        from <= to <= chars@.len(),
    ensures
        r@ == chars@.subrange(from as int, to as int),
{
    let mut out = String::new();
    let mut i = from;
    assert(out@ == chars@.subrange(from as int, from as int));
    while i < to
        invariant
            from <= i <= to <= chars@.len(),
            out@ == chars@.subrange(from as int, i as int),
        decreases to - i,
    {
        out.push(chars[i]);
        i = i + 1;
        assert(out@ == chars@.subrange(from as int, i as int));
    }
    out
}

/// An owned copy of a text.
pub fn owned(s: &str) -> (r: String)
    ensures
        r@ == s@,
{
    s.to_owned()
}

/// Whether two texts hold the same characters.
pub fn same(a: &str, b: &str) -> (r: bool)
    ensures
        r == (a@ == b@),
{
    a.to_owned() == b.to_owned()
}

/// The text of an optional text, or a default.
pub open spec fn or_text(value: Option<Seq<char>>, default: Seq<char>) -> Seq<char> {
    match value {
        Some(v) => v,
        None => default,
    }
}

/// The text of an optional text, or a default.
pub fn text_or(value: &Option<String>, default: &str) -> (r: String)
    ensures
        r@ == or_text(value.deep_view(), default@),
{
    match value {
        Some(v) => v.clone(),
        None => owned(default),
    }
}

/// A copy of text.
pub fn clone_text(value: &Option<String>) -> (r: Option<String>)
    ensures
        r.deep_view() == value.deep_view(),
{
    match value {
        Some(v) => Some(v.clone()),
        None => None,
    }
}

/// A copy of texts.
pub fn clone_texts(items: &Vec<String>) -> (r: Vec<String>)
    ensures
        r.deep_view() == items.deep_view(),
        r@.len() == items@.len(),
{
    let mut out: Vec<String> = Vec::new();
    let mut i: usize = 0;
    while i < items.len()
        invariant
            i <= items@.len(),
            out@.len() == i,
            forall|j: int| 0 <= j < i ==> #[trigger] out@[j]@ == items@[j]@,
        decreases items@.len() - i,
    {
        out.push(items[i].clone());
        i = i + 1;
    }
    assert(out.deep_view() == items.deep_view());
    out
}

/// Whether two optional texts are equal.
pub fn same_option(a: &Option<String>, b: &Option<String>) -> (r: bool)
    ensures
        r == (a.deep_view() == b.deep_view()),
{
    match (a, b) {
        (Some(x), Some(y)) => same(x.as_str(), y.as_str()),
        (None, None) => true,
        _ => false,
    }
}

/// Whether a list of texts holds `wanted`.
pub fn list_has(items: &Vec<String>, wanted: &str) -> (r: bool)
    ensures
        r == items.deep_view().contains(wanted@),
{
    let mut i: usize = 0;
    while i < items.len()
        invariant
            i <= items@.len(),
            forall|j: int| 0 <= j < i ==> #[trigger] items@[j]@ != wanted@,
        decreases items@.len() - i,
    {
        if same(items[i].as_str(), wanted) {
            assert(items.deep_view()[i as int] == wanted@);
            return true;
        }
        i = i + 1;
    }
    assert forall|j: int| 0 <= j < items.deep_view().len() implies items.deep_view()[j] != wanted@ by {
        assert(items.deep_view()[j] == items@[j]@);
    }
    false
}

// ---------------------------------------------------------------------------
// Character classes
// ---------------------------------------------------------------------------
/// The characters with the Unicode property `White_Space`.
pub open spec fn is_space(c: char) -> bool {
    ||| '\u{9}' <= c <= '\u{d}'
    ||| c == '\u{20}'
    ||| c == '\u{85}'
    ||| c == '\u{a0}'
    ||| c == '\u{1680}'
    ||| '\u{2000}' <= c <= '\u{200a}'
    ||| c == '\u{2028}'
    ||| c == '\u{2029}'
    ||| c == '\u{202f}'
    ||| c == '\u{205f}'
    ||| c == '\u{3000}'
}

/// The characters with the Unicode property `White_Space`.
pub fn space(c: char) -> (r: bool)
    ensures
        r == is_space(c),
{
    ('\u{9}' <= c && c <= '\u{d}') || c == '\u{20}' || c == '\u{85}' || c == '\u{a0}' || c
        == '\u{1680}' || ('\u{2000}' <= c && c <= '\u{200a}') || c == '\u{2028}' || c
        == '\u{2029}' || c == '\u{202f}' || c == '\u{205f}' || c == '\u{3000}'
}

/// Whether a character is an upper-case letter of ASCII.
pub open spec fn is_upper(c: char) -> bool {
    'A' <= c <= 'Z'
}

/// Whether a character is a lower-case letter of ASCII.
pub open spec fn is_lower(c: char) -> bool {
    'a' <= c <= 'z'
}

/// Whether a character is a digit of ASCII.
pub open spec fn is_digit(c: char) -> bool {
    '0' <= c <= '9'
}

/// The ASCII letters and digits.
pub open spec fn is_alnum(c: char) -> bool {
    is_upper(c) || is_lower(c) || is_digit(c)
}

/// Whether a character is an upper-case letter of ASCII.
pub fn upper(c: char) -> (r: bool)
    ensures
        r == is_upper(c),
{
    'A' <= c && c <= 'Z'
}

/// The ASCII letters and digits.
pub fn alnum(c: char) -> (r: bool)
    ensures
        r == is_alnum(c),
{
    ('A' <= c && c <= 'Z') || ('a' <= c && c <= 'z') || ('0' <= c && c <= '9')
}

/// An ASCII capital becomes the small letter; every other character stays.
pub open spec fn lower_char(c: char) -> char {
    if is_upper(c) {
        (c as u32 + 32) as char
    } else {
        c
    }
}

/// An ASCII capital becomes the small letter; every other character stays.
pub fn to_lower_char(c: char) -> (r: char)
    ensures
        r == lower_char(c),
{
    if 'A' <= c && c <= 'Z' {
        ((c as u8) + 32) as char
    } else {
        c
    }
}

/// The text with ASCII capitals made small.
pub open spec fn lower(s: Seq<char>) -> Seq<char> {
    Seq::new(s.len(), |i: int| lower_char(s[i]))
}

/// The text with ASCII capitals made small.
pub fn to_lower(s: &str) -> (r: String)
    ensures
        r@ == lower(s@),
{
    let chars = chars_of(s);
    let mut out = String::new();
    let mut i: usize = 0;
    while i < chars.len()
        invariant
            i <= chars@.len(),
            chars@ == s@,
            out@.len() == i,
            forall|j: int| 0 <= j < i ==> out@[j] == lower_char(s@[j]),
        decreases chars@.len() - i,
    {
        out.push(to_lower_char(chars[i]));
        i = i + 1;
    }
    assert(out@ == lower(s@));
    out
}

// ---------------------------------------------------------------------------
// Searching
// ---------------------------------------------------------------------------
/// `p` stands in `s` at index `i`.
pub open spec fn occurs_at(s: Seq<char>, p: Seq<char>, i: int) -> bool {
    0 <= i && i + p.len() <= s.len() && s.subrange(i, i + p.len()) == p
}

/// `p` stands somewhere in `s`.
pub open spec fn has_text(s: Seq<char>, p: Seq<char>) -> bool {
    exists|i: int| occurs_at(s, p, i)
}

/// The first index, at or after `from`, at which `p` stands in `s`.
pub open spec fn find_from(s: Seq<char>, p: Seq<char>, from: int) -> Option<int>
    decreases s.len() + 1 - from,
{
    if from < 0 || from + p.len() > s.len() {
        None
    } else if occurs_at(s, p, from) {
        Some(from)
    } else {
        find_from(s, p, from + 1)
    }
}

/// The first index at which `p` stands in `s`.
pub open spec fn find(s: Seq<char>, p: Seq<char>) -> Option<int> {
    find_from(s, p, 0)
}

/// The first index at or after `from` that holds the character `c`.
pub open spec fn find_char_from(s: Seq<char>, c: char, from: int) -> Option<int>
    decreases s.len() - from,
{
    if from < 0 || from >= s.len() {
        None
    } else if s[from] == c {
        Some(from)
    } else {
        find_char_from(s, c, from + 1)
    }
}

/// The first place of a character in a text.
pub open spec fn find_char(s: Seq<char>, c: char) -> Option<int> {
    find_char_from(s, c, 0)
}

/// The last index before `before` that holds the character `c`.
pub open spec fn rfind_char_before(s: Seq<char>, c: char, before: int) -> Option<int>
    decreases before,
{
    if before <= 0 || before > s.len() {
        None
    } else if s[before - 1] == c {
        Some(before - 1)
    } else {
        rfind_char_before(s, c, before - 1)
    }
}

/// The last place of a character in a text.
pub open spec fn rfind_char(s: Seq<char>, c: char) -> Option<int> {
    rfind_char_before(s, c, s.len() as int)
}

/// `p` stands in `s` at index `i`.
pub fn matches_at(s: &Vec<char>, p: &Vec<char>, i: usize) -> (r: bool)
    ensures
        r == occurs_at(s@, p@, i as int),
{
    if p.len() > s.len() || i > s.len() - p.len() {
        return false;
    }
    let mut k: usize = 0;
    while k < p.len()
        invariant
            k <= p@.len(),
            i + p@.len() <= s@.len(),
            s@.len() == s.len(),
            forall|j: int| 0 <= j < k ==> s@[i + j] == p@[j],
        decreases p@.len() - k,
    {
        if s[i + k] != p[k] {
            assert(s@.subrange(i as int, i + p@.len())[k as int] != p@[k as int]);
            return false;
        }
        k = k + 1;
    }
    assert(s@.subrange(i as int, i + p@.len()) == p@);
    true
}

/// A text is found where it stands first.
pub proof fn lemma_find_from(s: Seq<char>, p: Seq<char>, from: int, at: int)
    requires
        0 <= from <= at,
        forall|j: int| from <= j < at ==> !occurs_at(s, p, j),
    ensures
        occurs_at(s, p, at) ==> find_from(s, p, from) == Some(at),
        at + p.len() > s.len() ==> find_from(s, p, from) is None,
    decreases at - from,
{
    if from < at {
        assert(!occurs_at(s, p, from));
        if from + p.len() <= s.len() {
            lemma_find_from(s, p, from + 1, at);
        }
    }
}

/// What `find_from` gives is the first place at which the pattern stands.
pub proof fn lemma_find_is_first(s: Seq<char>, p: Seq<char>, from: int)
    requires
        0 <= from,
    ensures
        find_from(s, p, from) matches Some(at) ==> from <= at && occurs_at(s, p, at) && forall|j: int|
            from <= j < at ==> !occurs_at(s, p, j),
        find_from(s, p, from) is None ==> forall|j: int| from <= j ==> !occurs_at(s, p, j),
    decreases s.len() + 1 - from,
{
    if from + p.len() <= s.len() && !occurs_at(s, p, from) {
        lemma_find_is_first(s, p, from + 1);
    }
}

/// A text has a pattern exactly where `find` gives an index.
pub proof fn lemma_has_text_is_find(s: Seq<char>, p: Seq<char>)
    ensures
        has_text(s, p) == (find(s, p) is Some),
{
    lemma_find_is_first(s, p, 0);
    if has_text(s, p) {
        let i = choose|i: int| occurs_at(s, p, i);
        assert(occurs_at(s, p, i));
    }
}

/// The first index at or after `from` at which the pattern stands.
pub fn find_index(s: &Vec<char>, p: &Vec<char>, from: usize) -> (r: Option<usize>)
    requires
        from <= s@.len(),
    ensures
        r matches Some(at) ==> find_from(s@, p@, from as int) == Some(at as int) && from <= at && at
            + p@.len() <= s@.len(),
        r is None ==> find_from(s@, p@, from as int) is None,
{
    let mut i = from;
    while i <= s.len()
        invariant
            from <= i <= s@.len() + 1,
            s@.len() == s.len(),
            s@.len() < usize::MAX || i <= s@.len(),
            forall|j: int| from <= j < i ==> !occurs_at(s@, p@, j),
        decreases s@.len() + 1 - i,
    {
        if matches_at(s, p, i) {
            proof {
                lemma_find_from(s@, p@, from as int, i as int);
            }
            return Some(i);
        }
        if i == s.len() {
            proof {
                lemma_find_is_first(s@, p@, from as int);
                if let Some(at) = find_from(s@, p@, from as int) {
                    assert(occurs_at(s@, p@, at));
                    assert(at <= i);
                    assert(false);
                }
            }
            return None;
        }
        i = i + 1;
    }
    proof {
        lemma_find_is_first(s@, p@, from as int);
        if let Some(at) = find_from(s@, p@, from as int) {
            assert(occurs_at(s@, p@, at));
        }
    }
    None
}

/// `p` stands somewhere in `s`.
pub fn contains(s: &str, p: &str) -> (r: bool)
    ensures
        r == has_text(s@, p@),
{
    let sc = chars_of(s);
    let pc = chars_of(p);
    let at = find_index(&sc, &pc, 0);
    proof {
        lemma_has_text_is_find(s@, p@);
    }
    at.is_some()
}

/// A character is found where it stands first.
pub proof fn lemma_find_char_from(s: Seq<char>, c: char, from: int, at: int)
    requires
        0 <= from <= at <= s.len(),
        forall|j: int| from <= j < at ==> s[j] != c,
    ensures
        at < s.len() && s[at] == c ==> find_char_from(s, c, from) == Some(at),
        at == s.len() ==> find_char_from(s, c, from) is None,
    decreases at - from,
{
    if from < at {
        lemma_find_char_from(s, c, from + 1, at);
    }
}

/// The first index at or after `from` that holds the character `c`.
pub fn find_char_index(s: &Vec<char>, c: char, from: usize) -> (r: Option<usize>)
    requires
        from <= s@.len(),
    ensures
        r matches Some(at) ==> find_char_from(s@, c, from as int) == Some(at as int) && from <= at
            < s@.len() && s@[at as int] == c,
        r is None ==> find_char_from(s@, c, from as int) is None,
{
    let mut i = from;
    while i < s.len()
        invariant
            from <= i <= s@.len(),
            forall|j: int| from <= j < i ==> s@[j] != c,
        decreases s@.len() - i,
    {
        if s[i] == c {
            proof {
                lemma_find_char_from(s@, c, from as int, i as int);
            }
            return Some(i);
        }
        i = i + 1;
    }
    proof {
        lemma_find_char_from(s@, c, from as int, i as int);
    }
    None
}

/// Other characters at the end do not change where a character stands last.
pub proof fn lemma_rfind_char_before(s: Seq<char>, c: char, at: int, before: int)
    requires
        0 <= at <= before <= s.len(),
        forall|j: int| at <= j < before ==> s[j] != c,
    ensures
        rfind_char_before(s, c, before) == rfind_char_before(s, c, at),
    decreases before - at,
{
    if at < before {
        lemma_rfind_char_before(s, c, at, before - 1);
    }
}

/// The last place of a character in a text.
pub fn rfind_char_index(s: &Vec<char>, c: char) -> (r: Option<usize>)
    ensures
        r matches Some(at) ==> rfind_char(s@, c) == Some(at as int) && at < s@.len(),
        r is None ==> rfind_char(s@, c) is None,
{
    let mut i = s.len();
    while i > 0
        invariant
            i <= s@.len(),
            forall|j: int| i <= j < s@.len() ==> s@[j] != c,
        decreases i,
    {
        if s[i - 1] == c {
            proof {
                lemma_rfind_char_before(s@, c, i as int, s@.len() as int);
            }
            return Some(i - 1);
        }
        i = i - 1;
    }
    proof {
        lemma_rfind_char_before(s@, c, 0, s@.len() as int);
    }
    None
}

/// Whether a text starts with another.
pub open spec fn starts(s: Seq<char>, p: Seq<char>) -> bool {
    p.len() <= s.len() && s.take(p.len() as int) == p
}

/// Whether a text ends with another.
pub open spec fn ends(s: Seq<char>, p: Seq<char>) -> bool {
    p.len() <= s.len() && s.skip(s.len() - p.len()) == p
}

/// Whether a text starts with another.
pub fn starts_with(s: &str, p: &str) -> (r: bool)
    ensures
        r == starts(s@, p@),
{
    let sc = chars_of(s);
    let pc = chars_of(p);
    let r = matches_at(&sc, &pc, 0);
    assert(p@.len() <= s@.len() ==> s@.subrange(0, p@.len() as int) == s@.take(p@.len() as int));
    r
}

/// Whether a text ends with another.
pub fn ends_with(s: &str, p: &str) -> (r: bool)
    ensures
        r == ends(s@, p@),
{
    let sc = chars_of(s);
    let pc = chars_of(p);
    if pc.len() > sc.len() {
        return false;
    }
    let r = matches_at(&sc, &pc, sc.len() - pc.len());
    assert(s@.subrange(s@.len() - p@.len(), s@.len() as int) == s@.skip(s@.len() - p@.len()));
    r
}

/// The text after the prefix `p`, where `s` has it.
pub open spec fn without_prefix(s: Seq<char>, p: Seq<char>) -> Option<Seq<char>> {
    if starts(s, p) {
        Some(s.skip(p.len() as int))
    } else {
        None
    }
}

/// The text after the prefix `p`, where `s` has it.
pub fn strip_prefix(s: &str, p: &str) -> (r: Option<String>)
    ensures
        r.deep_view() == without_prefix(s@, p@),
{
    if starts_with(s, p) {
        let sc = chars_of(s);
        let pc = chars_of(p);
        let out = text_between(&sc, pc.len(), sc.len());
        assert(out@ == s@.skip(p@.len() as int));
        Some(out)
    } else {
        None
    }
}

/// The text before the suffix `p`, where `s` has it.
pub open spec fn without_suffix(s: Seq<char>, p: Seq<char>) -> Option<Seq<char>> {
    if ends(s, p) {
        Some(s.take(s.len() - p.len()))
    } else {
        None
    }
}

/// The text before the suffix `p`, where `s` has it.
pub fn strip_suffix(s: &str, p: &str) -> (r: Option<String>)
    ensures
        r.deep_view() == without_suffix(s@, p@),
{
    if ends_with(s, p) {
        let sc = chars_of(s);
        let pc = chars_of(p);
        let out = text_between(&sc, 0, sc.len() - pc.len());
        assert(out@ == s@.take(s@.len() - p@.len()));
        Some(out)
    } else {
        None
    }
}

/// The two sides of the first `c` in `s`.
pub open spec fn cut_at(s: Seq<char>, c: char) -> Option<(Seq<char>, Seq<char>)> {
    match find_char(s, c) {
        Some(i) => Some((s.take(i), s.skip(i + 1))),
        None => None,
    }
}

/// The two sides of the first `c` in `s`.
pub fn split_once(s: &str, c: char) -> (r: Option<(String, String)>)
    ensures
        r matches Some(p) ==> cut_at(s@, c) == Some((p.0@, p.1@)),
        r is None ==> cut_at(s@, c) is None,
{
    let chars = chars_of(s);
    match find_char_index(&chars, c, 0) {
        Some(i) => {
            let n: usize = chars.len();
            let left = text_between(&chars, 0, i);
            let right = text_between(&chars, i + 1, n);
            assert(left@ == s@.take(i as int));
            assert(right@ == s@.skip(i + 1));
            Some((left, right))
        },
        None => None,
    }
}

/// The two sides of the last `c` in `s`.
pub open spec fn rcut_at(s: Seq<char>, c: char) -> Option<(Seq<char>, Seq<char>)> {
    match rfind_char(s, c) {
        Some(i) => Some((s.take(i), s.skip(i + 1))),
        None => None,
    }
}

/// The two sides of the last `c` in `s`.
pub fn rsplit_once(s: &str, c: char) -> (r: Option<(String, String)>)
    ensures
        r matches Some(p) ==> rcut_at(s@, c) == Some((p.0@, p.1@)),
        r is None ==> rcut_at(s@, c) is None,
{
    let chars = chars_of(s);
    match rfind_char_index(&chars, c) {
        Some(i) => {
            let n: usize = chars.len();
            let left = text_between(&chars, 0, i);
            let right = text_between(&chars, i + 1, n);
            assert(left@ == s@.take(i as int));
            assert(right@ == s@.skip(i + 1));
            Some((left, right))
        },
        None => None,
    }
}

/// Where a text is found, it is found inside.
pub proof fn lemma_found_inside(s: Seq<char>, p: Seq<char>, from: int)
    ensures
        find_from(s, p, from) matches Some(i) ==> from <= i && 0 <= i && i + p.len() <= s.len()
            && occurs_at(s, p, i),
    decreases s.len() + 1 - from,
{
    if from < 0 || from + p.len() > s.len() {
    } else if !occurs_at(s, p, from) {
        lemma_found_inside(s, p, from + 1);
    }
}

/// The last index, at or before `from`, at which `p` stands in `s`.
pub open spec fn rfind_from(s: Seq<char>, p: Seq<char>, from: int) -> Option<int>
    decreases from + 1,
{
    if from < 0 {
        None
    } else if occurs_at(s, p, from) {
        Some(from)
    } else {
        rfind_from(s, p, from - 1)
    }
}

/// The two sides of the last `p` in `s`.
pub open spec fn rcut_text(s: Seq<char>, p: Seq<char>) -> Option<(Seq<char>, Seq<char>)> {
    match rfind_from(s, p, s.len() as int) {
        Some(i) => Some((s.take(i), s.skip(i + p.len()))),
        None => None,
    }
}

/// The two sides of the last `p` in `s`.
pub fn rsplit_once_text(s: &str, p: &str) -> (r: Option<(String, String)>)
    ensures
        r matches Some(sides) ==> rcut_text(s@, p@) == Some((sides.0@, sides.1@)),
        r is None ==> rcut_text(s@, p@) is None,
{
    let chars = chars_of(s);
    let part = chars_of(p);
    let n: usize = chars.len();
    let mut at: usize = n;
    loop
        invariant
            n == chars@.len(),
            chars@ == s@,
            part@ == p@,
            at <= n,
            rfind_from(s@, p@, s@.len() as int) == rfind_from(s@, p@, at as int),
        decreases at,
    {
        if matches_at(&chars, &part, at) {
            let left = text_between(&chars, 0, at);
            let right = text_between(&chars, at + part.len(), n);
            assert(left@ == s@.take(at as int));
            assert(right@ == s@.skip(at + p@.len()));
            return Some((left, right));
        }
        if at == 0 {
            assert(rfind_from(s@, p@, -1) is None);
            return None;
        }
        at = at - 1;
    }
}

} // verus!
