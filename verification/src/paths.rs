//! UTF-8 paths, held as text.
//!
//! The reading of a path is `camino`'s. The specifications below say what it
//! gives on a platform whose only separator is `/`.
use vstd::prelude::*;

use crate::order::{
    lemma_text_lt_irreflexive, lemma_text_lt_total, lemma_text_lt_transitive, text_less, text_lt,
    TextOrder,
};
use crate::split::split_at;
use crate::text::{owned, rfind_char, same};
use camino::Utf8Path;

verus! {

// ---------------------------------------------------------------------------
// Components
// ---------------------------------------------------------------------------
/// Whether a piece between separators is a component that counts: it is not
/// empty, and it is not `.`.
pub open spec fn counts(piece: Seq<char>) -> bool {
    piece.len() > 0 && piece != "."@
}

/// Whether a path starts at the root.
pub open spec fn rooted(path: Seq<char>) -> bool {
    path.len() > 0 && path[0] == '/'
}

/// The components of a path: the root as `/`; a `.` at the very start; then
/// the pieces between the separators, without the empty ones and the `.`s.
pub open spec fn path_parts(path: Seq<char>) -> Seq<Seq<char>> {
    let pieces = split_at(path, '/');
    let head = if rooted(path) {
        seq!["/"@]
    } else if pieces[0] == "."@ {
        seq!["."@]
    } else {
        Seq::empty()
    };
    head + pieces.filter(|p: Seq<char>| counts(p))
}

/// `Utf8Path::components` gives the components of a path, each as its text.
#[verifier::external_body]
pub(crate) fn components(path: &str) -> (r: Vec<String>)
    ensures
        r.deep_view() == path_parts(path@),
{
    Utf8Path::new(path).components().map(|part| part.as_str().to_owned()).collect()
}

/// The shortest beginning of a path, of at least `len` characters, that has
/// the components `parts`.
pub open spec fn shortest_with(path: Seq<char>, parts: Seq<Seq<char>>, len: int) -> Seq<char>
    decreases path.len() - len,
{
    if len < 0 || len >= path.len() || path_parts(path.take(len)) == parts {
        path.take(len)
    } else {
        shortest_with(path, parts, len + 1)
    }
}

/// The path without its last component. There is none for the empty path and
/// for the root.
pub open spec fn parent_path(path: Seq<char>) -> Option<Seq<char>> {
    let parts = path_parts(path);
    if parts.len() == 0 || parts.last() == "/"@ {
        None
    } else {
        Some(shortest_with(path, parts.drop_last(), 0))
    }
}

/// `Utf8Path::parent` gives the path without its last component: the text
/// from the start up to the end of the component before it.
#[verifier::external_body]
pub(crate) fn parent(path: &str) -> (r: Option<String>)
    ensures
        r.deep_view() == parent_path(path@),
{
    Utf8Path::new(path).parent().map(|dir| dir.as_str().to_owned())
}

/// The last component, where it is a name.
pub open spec fn name_in_path(path: Seq<char>) -> Option<Seq<char>> {
    let parts = path_parts(path);
    if parts.len() == 0 || parts.last() == "/"@ || parts.last() == "."@ || parts.last() == ".."@ {
        None
    } else {
        Some(parts.last())
    }
}

/// `Utf8Path::file_name` gives the last component, unless the path ends in
/// the root, in `.` alone or in `..`.
#[verifier::external_body]
pub(crate) fn file_name(path: &str) -> (r: Option<String>)
    ensures
        r.deep_view() == name_in_path(path@),
{
    Utf8Path::new(path).file_name().map(|name| name.to_owned())
}

/// What follows the last dot of a file name that does not start with it.
pub open spec fn name_extension(name: Seq<char>) -> Option<Seq<char>> {
    match rfind_char(name, '.') {
        Some(i) => if i > 0 {
            Some(name.skip(i + 1))
        } else {
            None
        },
        None => None,
    }
}

/// The extension of the file name of a path.
pub open spec fn path_extension(path: Seq<char>) -> Option<Seq<char>> {
    match name_in_path(path) {
        Some(name) => name_extension(name),
        None => None,
    }
}

/// `Utf8Path::extension` gives what follows the last dot of the file name,
/// unless that dot is the first character of the name.
#[verifier::external_body]
pub(crate) fn extension(path: &str) -> (r: Option<String>)
    ensures
        r.deep_view() == path_extension(path@),
{
    Utf8Path::new(path).extension().map(|name| name.to_owned())
}

/// A path below another: an absolute `tail` stands alone, and a separator
/// goes between two parts where the first is not empty and does not end in
/// one.
pub open spec fn joined_path(base: Seq<char>, tail: Seq<char>) -> Seq<char> {
    if rooted(tail) || base.len() == 0 {
        tail
    } else if base.last() == '/' {
        base + tail
    } else {
        base.push('/') + tail
    }
}

/// `Utf8Path::join` puts `tail` below `base`; an absolute `tail` replaces it.
#[verifier::external_body]
pub(crate) fn join(base: &str, tail: &str) -> (r: String)
    ensures
        r@ == joined_path(base@, tail@),
{
    Utf8Path::new(base).join(tail).into_string()
}

/// `Utf8Path::starts_with` compares whole components: those of `base` come
/// first in those of `path`.
#[verifier::external_body]
pub(crate) fn starts_with(path: &str, base: &str) -> (r: bool)
    ensures
        r == path_parts(base@).is_prefix_of(path_parts(path@)),
{
    Utf8Path::new(path).starts_with(base)
}

/// The shortest end of a path, of at least `len` characters, that has the components
/// `parts`.
pub open spec fn shortest_end_with(path: Seq<char>, parts: Seq<Seq<char>>, len: int) -> Seq<char>
    decreases path.len() - len,
{
    if len < 0 || len >= path.len() || path_parts(path.skip(path.len() - len)) == parts {
        path.skip(path.len() - len)
    } else {
        shortest_end_with(path, parts, len + 1)
    }
}

/// What is left of a path behind the components of another that it starts with: of the path
/// up to the end of its last component, the piece that has the components behind them, and
/// all of it where the other has none.
pub open spec fn path_behind(path: Seq<char>, base: Seq<char>) -> Option<Seq<char>> {
    let parts = path_parts(path);
    let front = path_parts(base);
    let trimmed = shortest_with(path, parts, 0);
    if !front.is_prefix_of(parts) {
        None
    } else if front.len() == 0 {
        Some(trimmed)
    } else {
        Some(shortest_end_with(trimmed, parts.skip(front.len() as int), 0))
    }
}

/// `Utf8Path::strip_prefix` gives the rest of the path behind the components of `base`,
/// where the path starts with them: a piece of the path's own text, from the start of the
/// first component that is left to the end of the last.
#[verifier::external_body]
pub(crate) fn strip_prefix(path: &str, base: &str) -> (r: Option<String>)
    ensures
        r.deep_view() == path_behind(path@, base@),
{
    Utf8Path::new(path).strip_prefix(base).ok().map(|rest| rest.as_str().to_owned())
}

/// `Utf8Path::is_absolute` says whether a path starts at the root.
#[verifier::external_body]
pub(crate) fn is_absolute(path: &str) -> (r: bool)
    ensures
        r == rooted(path@),
{
    Utf8Path::new(path).is_absolute()
}

// ---------------------------------------------------------------------------
// Equality and order
// ---------------------------------------------------------------------------
/// Two paths are the same where their components are.
pub open spec fn same_path(a: Seq<char>, b: Seq<char>) -> bool {
    path_parts(a) == path_parts(b)
}

/// The root comes before `.`, that before `..`, and that before names.
pub open spec fn part_rank(part: Seq<char>) -> int {
    if part == "/"@ {
        0
    } else if part == "."@ {
        1
    } else if part == ".."@ {
        2
    } else {
        3
    }
}

/// Whether one part of a path comes before another.
pub open spec fn part_lt(a: Seq<char>, b: Seq<char>) -> bool {
    part_rank(a) < part_rank(b) || (part_rank(a) == part_rank(b) && text_lt(a, b))
}

/// Whether the parts of one path come before those of another, part by part.
pub open spec fn parts_lt(a: Seq<Seq<char>>, b: Seq<Seq<char>>) -> bool
    decreases a.len(),
{
    if b.len() == 0 {
        false
    } else if a.len() == 0 {
        true
    } else if a[0] == b[0] {
        parts_lt(a.skip(1), b.skip(1))
    } else {
        part_lt(a[0], b[0])
    }
}

/// Paths are ordered component by component.
pub open spec fn path_lt(a: Seq<char>, b: Seq<char>) -> bool {
    parts_lt(path_parts(a), path_parts(b))
}

proof fn lemma_part_lt_transitive(a: Seq<char>, b: Seq<char>, c: Seq<char>)
    requires
        part_lt(a, b),
        part_lt(b, c),
    ensures
        part_lt(a, c),
{
    if part_rank(a) == part_rank(b) && part_rank(b) == part_rank(c) {
        lemma_text_lt_transitive(a, b, c);
    }
}

proof fn lemma_parts_lt_transitive(a: Seq<Seq<char>>, b: Seq<Seq<char>>, c: Seq<Seq<char>>)
    requires
        parts_lt(a, b),
        parts_lt(b, c),
    ensures
        parts_lt(a, c),
    decreases a.len(),
{
    if a.len() > 0 {
        if a[0] == b[0] && b[0] == c[0] {
            lemma_parts_lt_transitive(a.skip(1), b.skip(1), c.skip(1));
        } else if a[0] != b[0] && b[0] != c[0] {
            lemma_part_lt_transitive(a[0], b[0], c[0]);
            if a[0] == c[0] {
                lemma_text_lt_irreflexive(a[0]);
            }
        }
    }
}

proof fn lemma_parts_lt_irreflexive(a: Seq<Seq<char>>)
    ensures
        !parts_lt(a, a),
    decreases a.len(),
{
    if a.len() > 0 {
        lemma_parts_lt_irreflexive(a.skip(1));
    }
}

proof fn lemma_parts_lt_total(a: Seq<Seq<char>>, b: Seq<Seq<char>>)
    ensures
        parts_lt(a, b) || parts_lt(b, a) || a == b,
    decreases a.len(),
{
    if a.len() > 0 && b.len() > 0 {
        if a[0] == b[0] {
            lemma_parts_lt_total(a.skip(1), b.skip(1));
            if a.skip(1) == b.skip(1) {
                assert(a == seq![a[0]] + a.skip(1));
                assert(b == seq![b[0]] + b.skip(1));
            }
        } else {
            lemma_text_lt_total(a[0], b[0]);
        }
    } else if a.len() == 0 && b.len() == 0 {
        assert(a == b);
    }
}

/// Of two paths one comes first, or they are the same path.
pub proof fn lemma_path_lt_total(a: Seq<char>, b: Seq<char>)
    ensures
        path_lt(a, b) || path_lt(b, a) || same_path(a, b),
        !(path_lt(a, b) && same_path(a, b)),
{
    lemma_parts_lt_total(path_parts(a), path_parts(b));
    lemma_parts_lt_irreflexive(path_parts(a));
}

fn rank(part: &str) -> (r: u8)
    ensures
        r == part_rank(part@),
{
    if same(part, "/") {
        0
    } else if same(part, ".") {
        1
    } else if same(part, "..") {
        2
    } else {
        3
    }
}

/// Whether the first path comes before the second.
pub fn path_less(a: &str, b: &str) -> (r: bool)
    ensures
        r == path_lt(a@, b@),
{
    let ap = components(a);
    let bp = components(b);
    let ghost av = ap.deep_view();
    let ghost bv = bp.deep_view();
    let mut i: usize = 0;
    assert(av.skip(0) == av);
    assert(bv.skip(0) == bv);
    while i < ap.len() && i < bp.len()
        invariant
            i <= ap@.len(),
            i <= bp@.len(),
            av == ap.deep_view(),
            bv == bp.deep_view(),
            av == path_parts(a@),
            bv == path_parts(b@),
            parts_lt(av, bv) == parts_lt(av.skip(i as int), bv.skip(i as int)),
        decreases ap@.len() - i,
    {
        assert(av.skip(i as int)[0] == ap@[i as int]@);
        assert(bv.skip(i as int)[0] == bp@[i as int]@);
        if !same(ap[i].as_str(), bp[i].as_str()) {
            let ra = rank(ap[i].as_str());
            let rb = rank(bp[i].as_str());
            return ra < rb || (ra == rb && text_less(ap[i].as_str(), bp[i].as_str()));
        }
        assert(av.skip(i as int).skip(1) == av.skip(i + 1));
        assert(bv.skip(i as int).skip(1) == bv.skip(i + 1));
        i = i + 1;
    }
    i < bp.len()
}

/// Whether two paths are the same.
pub fn path_same(a: &str, b: &str) -> (r: bool)
    ensures
        r == same_path(a@, b@),
{
    proof {
        lemma_path_lt_total(a@, b@);
        lemma_path_lt_total(b@, a@);
    }
    !path_less(a, b) && !path_less(b, a)
}

/// Paths in the order of their components.
pub struct ByPath {}

impl TextOrder for ByPath {
    open spec fn lt(a: Seq<char>, b: Seq<char>) -> bool {
        path_lt(a, b)
    }

    proof fn transitive(a: Seq<char>, b: Seq<char>, c: Seq<char>) {
        lemma_parts_lt_transitive(path_parts(a), path_parts(b), path_parts(c));
    }

    proof fn irreflexive(a: Seq<char>) {
        lemma_parts_lt_irreflexive(path_parts(a));
    }

    fn less(a: &str, b: &str) -> (r: bool) {
        path_less(a, b)
    }
}

// ---------------------------------------------------------------------------
// Directories
// ---------------------------------------------------------------------------
/// The directory that holds a path; `.` where the path names none.
pub open spec fn dir_of(parent: Option<Seq<char>>) -> Seq<char> {
    match parent {
        Some(dir) => if dir.len() == 0 {
            "."@
        } else {
            dir
        },
        None => "."@,
    }
}

/// The directory named by what `parent` gave.
pub fn directory(parent: Option<String>) -> (r: String)
    ensures
        r@ == dir_of(parent.deep_view()),
{
    match parent {
        Some(dir) => {
            if dir.as_str().is_empty() {
                owned(".")
            } else {
                dir
            }
        },
        None => owned("."),
    }
}

/// The directory that holds the path.
pub open spec fn package_dir_path(path: Seq<char>) -> Seq<char> {
    dir_of(parent_path(path))
}

/// The directory that holds the path.
pub fn package_dir(path: &str) -> (r: String)
    ensures
        r@ == package_dir_path(path@),
{
    directory(parent(path))
}

} // verus!
