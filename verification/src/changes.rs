//! Changes: which files and lines changed, which targets that concerns, and the
//! merging of artifacts that share a path.
use vstd::prelude::*;

use crate::api::{
    clone_line_ranges, push_verification_target, ranges_overlap, ArtifactKind, GeneratedArtifact,
    GeneratedArtifactModel, LineRange, RiskLevel, TargetKind, VerificationTarget,
    VerificationTargetModel,
};
use crate::findings::{plan_artifact, planned};
use crate::number::{decimal, parsed, print_usize, read_usize};
use crate::order::{ascending, inserted, lemma_inserted_ascending};
use crate::paths::{
    extension, path_extension, path_less, path_lt, path_parts, path_same, same_path, ByPath,
};
use crate::regressions::artifact_paths;
use crate::seqs::{cat2, cat3, lemma_take_all, lemma_take_next};
use crate::split::{
    join, joined, lines, lines_of, push_text, split_whitespace, trim, trim_start_of, trimmed,
    trimmed_start_of, words_of,
};
use crate::text::{
    chars_of, contains, cut_at, has_text, list_has, owned, same, split_once, starts, starts_with,
    strip_prefix, text_between, without_prefix,
};
use crate::paths::starts_with as path_starts_with;

verus! {

// ---------------------------------------------------------------------------
// Changed files
// ---------------------------------------------------------------------------
/// A file that changed, and the lines that were added to it.
#[derive(Debug, PartialEq, Eq)]
pub struct ChangedFile {
    pub path: String,
    pub ranges: Vec<LineRange>,
}

/// The mathematical value of a `ChangedFile`.
pub struct ChangedFileModel {
    pub path: Seq<char>,
    pub ranges: Seq<LineRange>,
}

impl DeepView for ChangedFile {
    type V = ChangedFileModel;

    open spec fn deep_view(&self) -> ChangedFileModel {
        ChangedFileModel {
            path: self.path@,
            ranges: self.ranges@,
        }
    }
}

impl Clone for ChangedFile {
    fn clone(&self) -> (r: Self)
        ensures
            r.deep_view() == self.deep_view(),
    {
        ChangedFile {
            path: self.path.clone(),
            ranges: clone_line_ranges(&self.ranges),
        }
    }
}

/// Puts an item at the end of the list.
pub fn push_changed_file(items: &mut Vec<ChangedFile>, item: ChangedFile)
    ensures
        final(items).deep_view() == old(items).deep_view().push(item.deep_view()),
        final(items)@.len() == old(items)@.len() + 1,
{
    let ghost before = items.deep_view();
    items.push(item);
    assert(items.deep_view() == before.push(item.deep_view()));
}

/// The files with lines added to one of them. The files are in the order of their
/// paths, and each path is there once.
pub open spec fn file_added(
    files: Seq<ChangedFileModel>,
    path: Seq<char>,
    ranges: Seq<LineRange>,
) -> Seq<ChangedFileModel>
    decreases files.len(),
{
    if files.len() == 0 || path_lt(files.last().path, path) {
        files.push(ChangedFileModel { path, ranges })
    } else if path_lt(path, files.last().path) {
        file_added(files.drop_last(), path, ranges).push(files.last())
    } else {
        files.drop_last().push(
            ChangedFileModel {
                path: files.last().path,
                ranges: files.last().ranges + ranges,
            },
        )
    }
}

/// The paths of files.
pub open spec fn paths_of_files(files: Seq<ChangedFileModel>) -> Seq<Seq<char>> {
    files.map_values(|file: ChangedFileModel| file.path)
}

proof fn lemma_file_added_at(
    files: Seq<ChangedFileModel>,
    path: Seq<char>,
    ranges: Seq<LineRange>,
    at: int,
)
    requires
        0 <= at <= files.len(),
        forall|j: int|
            at <= j < files.len() ==> !path_lt((#[trigger] files[j]).path, path) && path_lt(
                path,
                files[j].path,
            ),
    ensures
        file_added(files, path, ranges) == file_added(files.take(at), path, ranges) + files.skip(at),
    decreases files.len() - at,
{
    if at == files.len() {
        lemma_take_all(files);
        assert(file_added(files, path, ranges) =~= file_added(files, path, ranges) + files.skip(
            at,
        ));
    } else {
        let t = files.drop_last();
        assert(path_lt(path, files[files.len() - 1].path));
        assert forall|j: int| at <= j < t.len() implies !path_lt((#[trigger] t[j]).path, path)
            && path_lt(path, t[j].path) by {
            assert(t[j] == files[j]);
        }
        lemma_file_added_at(t, path, ranges, at);
        assert(t.take(at) =~= files.take(at));
        assert(file_added(t, path, ranges).push(files.last()) =~= file_added(
            files.take(at),
            path,
            ranges,
        ) + files.skip(at));
    }
}

proof fn lemma_added_paths(files: Seq<ChangedFileModel>, path: Seq<char>, ranges: Seq<LineRange>)
    ensures
        paths_of_files(file_added(files, path, ranges)) == inserted::<ByPath>(
            paths_of_files(files),
            path,
        ),
    decreases files.len(),
{
    let names = paths_of_files(files);
    if files.len() == 0 {
        assert(paths_of_files(file_added(files, path, ranges)) =~= seq![path]);
    } else {
        assert(names.last() == files.last().path);
        assert(names.drop_last() =~= paths_of_files(files.drop_last()));
        if path_lt(files.last().path, path) {
            assert(paths_of_files(file_added(files, path, ranges)) =~= names.push(path));
        } else if path_lt(path, files.last().path) {
            lemma_added_paths(files.drop_last(), path, ranges);
            assert(paths_of_files(file_added(files, path, ranges)) =~= paths_of_files(
                file_added(files.drop_last(), path, ranges),
            ).push(files.last().path));
        } else {
            assert(paths_of_files(file_added(files, path, ranges)) =~= names);
        }
    }
}

/// Adds lines to a file.
fn add_file(files: &mut Vec<ChangedFile>, path: &str, ranges: &Vec<LineRange>)
    ensures
        final(files).deep_view() == file_added(old(files).deep_view(), path@, ranges@),
{
    let ghost before = files.deep_view();
    let mut at: usize = files.len();
    while at > 0
        invariant_except_break
            at <= files@.len(),
        invariant
            before == files.deep_view(),
            at <= files@.len(),
            forall|j: int|
                at <= j < before.len() ==> !path_lt((#[trigger] before[j]).path, path@) && path_lt(
                    path@,
                    before[j].path,
                ),
        ensures
            at == 0 || !(path_lt(path@, before[at - 1].path) && !path_lt(
                before[at - 1].path,
                path@,
            )),
        decreases at,
    {
        assert(before[at - 1] == files@[at - 1].deep_view());
        if path_less(files[at - 1].path.as_str(), path) || !path_less(
            path,
            files[at - 1].path.as_str(),
        ) {
            break;
        }
        at = at - 1;
    }
    proof {
        lemma_file_added_at(before, path@, ranges@, at as int);
        if at > 0 {
            assert(before.take(at as int).last() == before[at - 1]);
            assert(before[at - 1] == files@[at - 1].deep_view());
        }
    }
    let fresh = ChangedFile { path: owned(path), ranges: clone_line_ranges(ranges) };
    if at == 0 || path_less(files[at - 1].path.as_str(), path) {
        files.insert(at, fresh);
        assert(files.deep_view() =~= before.take(at as int).push(
            ChangedFileModel { path: path@, ranges: ranges@ },
        ) + before.skip(at as int));
    } else {
        let mut known = files[at - 1].clone();
        let mut more = clone_line_ranges(ranges);
        known.ranges.append(&mut more);
        let ghost changed = known.deep_view();
        files.set(at - 1, known);
        assert(files.deep_view() =~= before.take(at as int).drop_last().push(changed)
            + before.skip(at as int));
    }
}

// ---------------------------------------------------------------------------
// Diffs
// ---------------------------------------------------------------------------
/// The first word, from one on, that starts with a plus sign.
pub open spec fn plus_word_from(words: Seq<Seq<char>>, from: int) -> Option<Seq<char>>
    decreases words.len() - from,
{
    if from < 0 || from >= words.len() {
        None
    } else if words[from].len() > 0 && words[from][0] == '+' {
        Some(words[from])
    } else {
        plus_word_from(words, from + 1)
    }
}

/// The lines that a hunk header says were added, as first and last. A header that
/// counts no lines, or counts them in no number, stands for its first line.
pub open spec fn hunk_range(line: Seq<char>) -> Option<(int, int)> {
    match plus_word_from(words_of(line), 0) {
        Some(word) => {
            let value = trimmed_start_of(word, '+');
            let start = match cut_at(value, ',') {
                Some(sides) => parsed(sides.0, usize::MAX as int),
                None => parsed(value, usize::MAX as int),
            };
            let count = match cut_at(value, ',') {
                Some(sides) => match parsed(sides.1, usize::MAX as int) {
                    Some(n) => n,
                    None => 1,
                },
                None => 1,
            };
            match start {
                Some(first) => Some(
                    (
                        first,
                        if count == 0 {
                            first
                        } else {
                            first + count - 1
                        },
                    ),
                ),
                None => None,
            }
        },
        None => None,
    }
}

/// Whether the last line of a hunk fits a machine integer. The sum of its first line
/// and its length has to fit, too.
pub open spec fn hunk_fits(line: Seq<char>) -> bool {
    hunk_range(line) matches Some(range) ==> range.0 == range.1 || range.1 + 1 <= usize::MAX
}

fn find_plus_word(words: &Vec<String>) -> (r: Option<String>)
    ensures
        r.deep_view() == plus_word_from(words.deep_view(), 0),
{
    let ghost all = words.deep_view();
    let mut i: usize = 0;
    while i < words.len()
        invariant
            i <= words@.len(),
            all == words.deep_view(),
            plus_word_from(all, 0) == plus_word_from(all, i as int),
        decreases words@.len() - i,
    {
        assert(all[i as int] == words@[i as int]@);
        let chars = chars_of(words[i].as_str());
        if chars.len() > 0 && chars[0] == '+' {
            return Some(words[i].clone());
        }
        i = i + 1;
    }
    None
}

/// The first line and the number of lines of a hunk.
fn read_hunk(line: &str) -> (r: Option<(usize, usize)>)
    ensures
        r matches Some(hunk) ==> hunk_range(line@) == Some(
            (
                hunk.0 as int,
                if hunk.1 == 0 {
                    hunk.0 as int
                } else {
                    hunk.0 + hunk.1 - 1
                },
            ),
        ),
        r is None ==> hunk_range(line@) is None,
{
    match find_plus_word(&split_whitespace(line)) {
        Some(word) => {
            let value = trim_start_of(word.as_str(), '+');
            match split_once(value.as_str(), ',') {
                Some(sides) => {
                    let count: usize = match read_usize(sides.1.as_str()) {
                        Some(n) => n,
                        None => 1,
                    };
                    match read_usize(sides.0.as_str()) {
                        Some(first) => Some((first, count)),
                        None => None,
                    }
                },
                None => match read_usize(value.as_str()) {
                    Some(first) => Some((first, 1)),
                    None => None,
                },
            }
        },
        None => None,
    }
}

/// Whether the lines of a hunk can be counted.
pub fn can_count_hunk(line: &str) -> (r: bool)
    ensures
        r == hunk_fits(line@),
{
    match read_hunk(line) {
        Some(hunk) => hunk.1 <= 1 || hunk.1 <= usize::MAX - hunk.0,
        None => true,
    }
}

/// The lines that a hunk header says were added.
pub fn parse_added_hunk_range(line: &str) -> (r: Option<LineRange>)
    requires
        hunk_fits(line@),
    ensures
        r matches Some(range) ==> hunk_range(line@) == Some(
            (range.start as int, range.end as int),
        ),
        r is None ==> hunk_range(line@) is None,
{
    match read_hunk(line) {
        Some(hunk) => {
            let end: usize = if hunk.1 <= 1 {
                hunk.0
            } else {
                hunk.0 + hunk.1 - 1
            };
            Some(LineRange { start: hunk.0, end })
        },
        None => None,
    }
}

/// What a diff has said so far: the files, and the file that it speaks of.
pub struct DiffModel {
    pub files: Seq<ChangedFileModel>,
    pub current: Option<Seq<char>>,
}

/// What the lines of a diff say.
pub open spec fn diff_of(lines: Seq<Seq<char>>) -> DiffModel
    decreases lines.len(),
{
    if lines.len() == 0 {
        DiffModel { files: Seq::empty(), current: None }
    } else {
        let before = diff_of(lines.drop_last());
        match without_prefix(lines.last(), "+++ b/"@) {
            Some(path) => DiffModel {
                files: file_added(before.files, path, Seq::empty()),
                current: Some(path),
            },
            None => match (before.current, hunk_range(lines.last())) {
                (Some(path), Some(range)) => if starts(lines.last(), "@@"@) {
                    DiffModel {
                        files: file_added(
                            before.files,
                            path,
                            seq![LineRange { start: range.0 as usize, end: range.1 as usize }],
                        ),
                        current: before.current,
                    }
                } else {
                    before
                },
                _ => before,
            },
        }
    }
}

/// Whether the hunks of a diff can be counted.
pub open spec fn hunks_fit(lines: Seq<Seq<char>>) -> bool {
    forall|i: int|
        0 <= i < lines.len() && starts(#[trigger] lines[i], "@@"@) && without_prefix(
            lines[i],
            "+++ b/"@,
        ) is None && diff_of(lines.take(i)).current is Some ==> hunk_fits(lines[i])
}

/// The files of a diff and the lines that were added to them.
pub fn parse_unified_diff(diff: &str) -> (r: Vec<ChangedFile>)
    requires
        hunks_fit(lines_of(diff@)),
    ensures
        r.deep_view() == diff_of(lines_of(diff@)).files,
{
    let all = lines(diff);
    let ghost av = all.deep_view();
    let mut files: Vec<ChangedFile> = Vec::new();
    let mut current: Option<String> = None;
    let mut i: usize = 0;
    assert(files.deep_view() =~= diff_of(av.take(0)).files);
    while i < all.len()
        invariant
            i <= all@.len(),
            av == all.deep_view(),
            hunks_fit(av),
            files.deep_view() == diff_of(av.take(i as int)).files,
            current.deep_view() == diff_of(av.take(i as int)).current,
        decreases all@.len() - i,
    {
        proof {
            lemma_take_next(av, i as int);
            assert(av[i as int] == all@[i as int]@);
        }
        let line = all[i].as_str();
        match strip_prefix(line, "+++ b/") {
            Some(path) => {
                let none: Vec<LineRange> = Vec::new();
                assert(none@ =~= Seq::<LineRange>::empty());
                add_file(&mut files, path.as_str(), &none);
                current = Some(path);
            },
            None => {
                if starts_with(line, "@@") {
                    if let Some(path) = &current {
                        if let Some(range) = parse_added_hunk_range(line) {
                            let mut one: Vec<LineRange> = Vec::new();
                            one.push(range);
                            assert(one@ =~= seq![range]);
                            add_file(&mut files, path.as_str(), &one);
                        }
                    }
                }
            },
        }
        i = i + 1;
    }
    proof {
        lemma_take_all(av);
    }
    files
}

/// Whether the hunks of a diff can be counted.
pub fn can_read_diff(diff: &str) -> (r: bool)
    ensures
        r == hunks_fit(lines_of(diff@)),
{
    let all = lines(diff);
    let ghost av = all.deep_view();
    let mut named = false;
    let mut i: usize = 0;
    while i < all.len()
        invariant
            i <= all@.len(),
            av == all.deep_view(),
            av == lines_of(diff@),
            named == (diff_of(av.take(i as int)).current is Some),
            forall|k: int|
                0 <= k < i && starts(#[trigger] av[k], "@@"@) && without_prefix(
                    av[k],
                    "+++ b/"@,
                ) is None && diff_of(av.take(k)).current is Some ==> hunk_fits(av[k]),
        decreases all@.len() - i,
    {
        proof {
            lemma_take_next(av, i as int);
            assert(av[i as int] == all@[i as int]@);
        }
        let line = all[i].as_str();
        if strip_prefix(line, "+++ b/").is_some() {
            named = true;
        } else if named && starts_with(line, "@@") && !can_count_hunk(line) {
            assert(!hunk_fits(av[i as int]));
            return false;
        }
        i = i + 1;
    }
    true
}

proof fn lemma_diff_paths(lines: Seq<Seq<char>>)
    ensures
        ascending::<ByPath>(paths_of_files(diff_of(lines).files)),
    decreases lines.len(),
{
    if lines.len() > 0 {
        lemma_diff_paths(lines.drop_last());
        let before = diff_of(lines.drop_last());
        match without_prefix(lines.last(), "+++ b/"@) {
            Some(path) => {
                lemma_added_paths(before.files, path, Seq::empty());
                lemma_inserted_ascending::<ByPath>(paths_of_files(before.files), path);
            },
            None => match (before.current, hunk_range(lines.last())) {
                (Some(path), Some(range)) => {
                    lemma_added_paths(
                        before.files,
                        path,
                        seq![LineRange { start: range.0 as usize, end: range.1 as usize }],
                    );
                    lemma_inserted_ascending::<ByPath>(paths_of_files(before.files), path);
                },
                _ => {},
            },
        }
    } else {
        assert(paths_of_files(diff_of(lines).files).len() == 0);
    }
}

/// The files of a diff are in the order of their paths, and no path is there twice.
pub proof fn law_diff_files_are_ordered(lines: Seq<Seq<char>>)
    ensures
        ascending::<ByPath>(paths_of_files(diff_of(lines).files)),
{
    lemma_diff_paths(lines);
}

// ---------------------------------------------------------------------------
// All changes
// ---------------------------------------------------------------------------
/// Whether a changed path does not count: one of the tool, of a build, or of generated
/// tests.
pub open spec fn ignored_change(path: Seq<char>) -> bool {
    ||| path_parts(".veritas"@).is_prefix_of(path_parts(path))
    ||| path_parts("target"@).is_prefix_of(path_parts(path))
    ||| path_parts("tests/veritas_generated"@).is_prefix_of(path_parts(path))
    ||| has_text(path, "/tests/veritas_generated/"@)
}

/// Whether a changed path does not count.
pub fn should_ignore_changed_path(path: &str) -> (r: bool)
    ensures
        r == ignored_change(path@),
{
    path_starts_with(path, ".veritas") || path_starts_with(path, "target") || path_starts_with(
        path,
        "tests/veritas_generated",
    ) || contains(path, "/tests/veritas_generated/")
}

/// The files with those of a diff added, without the ones that do not count.
pub open spec fn with_changes(
    files: Seq<ChangedFileModel>,
    more: Seq<ChangedFileModel>,
) -> Seq<ChangedFileModel>
    decreases more.len(),
{
    if more.len() == 0 {
        files
    } else {
        let before = with_changes(files, more.drop_last());
        if ignored_change(more.last().path) {
            before
        } else {
            file_added(before, more.last().path, more.last().ranges)
        }
    }
}

fn add_changes(files: &mut Vec<ChangedFile>, more: &Vec<ChangedFile>)
    ensures
        final(files).deep_view() == with_changes(old(files).deep_view(), more.deep_view()),
{
    let ghost before = files.deep_view();
    let ghost all = more.deep_view();
    let mut i: usize = 0;
    assert(all.take(0).len() == 0);
    while i < more.len()
        invariant
            i <= more@.len(),
            all == more.deep_view(),
            files.deep_view() == with_changes(before, all.take(i as int)),
        decreases more@.len() - i,
    {
        proof {
            lemma_take_next(all, i as int);
        }
        if !should_ignore_changed_path(more[i].path.as_str()) {
            add_file(files, more[i].path.as_str(), &more[i].ranges);
        }
        i = i + 1;
    }
    proof {
        lemma_take_all(all);
    }
}

/// The files with untracked ones added: a line for each.
pub open spec fn with_untracked(
    files: Seq<ChangedFileModel>,
    lines: Seq<Seq<char>>,
) -> Seq<ChangedFileModel>
    decreases lines.len(),
{
    if lines.len() == 0 {
        files
    } else {
        let before = with_untracked(files, lines.drop_last());
        let path = trimmed(lines.last());
        if path.len() == 0 || ignored_change(path) {
            before
        } else {
            file_added(before, path, Seq::empty())
        }
    }
}

fn add_untracked(files: &mut Vec<ChangedFile>, untracked: &str)
    ensures
        final(files).deep_view() == with_untracked(old(files).deep_view(), lines_of(untracked@)),
{
    let ghost before = files.deep_view();
    let all = lines(untracked);
    let ghost av = all.deep_view();
    let none: Vec<LineRange> = Vec::new();
    assert(none@ =~= Seq::<LineRange>::empty());
    let mut i: usize = 0;
    assert(av.take(0).len() == 0);
    while i < all.len()
        invariant
            i <= all@.len(),
            av == all.deep_view(),
            none@ == Seq::<LineRange>::empty(),
            files.deep_view() == with_untracked(before, av.take(i as int)),
        decreases all@.len() - i,
    {
        proof {
            lemma_take_next(av, i as int);
        }
        let path = trim(all[i].as_str());
        if !path.as_str().is_empty() && !should_ignore_changed_path(path.as_str()) {
            add_file(files, path.as_str(), &none);
        }
        i = i + 1;
    }
    proof {
        lemma_take_all(av);
    }
}

/// The files that diffs say were changed, one diff after the other.
pub open spec fn with_diffs(diffs: Seq<Seq<char>>) -> Seq<ChangedFileModel>
    decreases diffs.len(),
{
    if diffs.len() == 0 {
        Seq::empty()
    } else {
        with_changes(with_diffs(diffs.drop_last()), diff_of(lines_of(diffs.last())).files)
    }
}

/// The files that were changed: those of the diffs, and the untracked ones.
pub open spec fn changes_of(diffs: Seq<Seq<char>>, untracked: Option<Seq<char>>) -> Seq<
    ChangedFileModel,
> {
    match untracked {
        Some(listing) => with_untracked(with_diffs(diffs), lines_of(listing)),
        None => with_diffs(diffs),
    }
}

/// The files that were changed, by the diffs and the listing of untracked files.
pub fn changed_files(diffs: &Vec<String>, untracked: &Option<String>) -> (r: Vec<ChangedFile>)
    requires
        forall|i: int| 0 <= i < diffs@.len() ==> hunks_fit(lines_of((#[trigger] diffs@[i])@)),
    ensures
        r.deep_view() == changes_of(diffs.deep_view(), untracked.deep_view()),
{
    let ghost all = diffs.deep_view();
    let mut files: Vec<ChangedFile> = Vec::new();
    let mut i: usize = 0;
    assert(files.deep_view() =~= with_diffs(all.take(0)));
    while i < diffs.len()
        invariant
            i <= diffs@.len(),
            all == diffs.deep_view(),
            forall|i: int| 0 <= i < diffs@.len() ==> hunks_fit(lines_of((#[trigger] diffs@[i])@)),
            files.deep_view() == with_diffs(all.take(i as int)),
        decreases diffs@.len() - i,
    {
        proof {
            lemma_take_next(all, i as int);
        }
        let more = parse_unified_diff(diffs[i].as_str());
        add_changes(&mut files, &more);
        i = i + 1;
    }
    proof {
        lemma_take_all(all);
    }
    if let Some(listing) = untracked {
        add_untracked(&mut files, listing.as_str());
    }
    files
}

proof fn lemma_changes_ordered(files: Seq<ChangedFileModel>, more: Seq<ChangedFileModel>)
    requires
        ascending::<ByPath>(paths_of_files(files)),
    ensures
        ascending::<ByPath>(paths_of_files(with_changes(files, more))),
    decreases more.len(),
{
    if more.len() > 0 {
        lemma_changes_ordered(files, more.drop_last());
        let before = with_changes(files, more.drop_last());
        lemma_added_paths(before, more.last().path, more.last().ranges);
        lemma_inserted_ascending::<ByPath>(paths_of_files(before), more.last().path);
    }
}

proof fn lemma_untracked_ordered(files: Seq<ChangedFileModel>, lines: Seq<Seq<char>>)
    requires
        ascending::<ByPath>(paths_of_files(files)),
    ensures
        ascending::<ByPath>(paths_of_files(with_untracked(files, lines))),
    decreases lines.len(),
{
    if lines.len() > 0 {
        lemma_untracked_ordered(files, lines.drop_last());
        let before = with_untracked(files, lines.drop_last());
        let path = trimmed(lines.last());
        lemma_added_paths(before, path, Seq::empty());
        lemma_inserted_ascending::<ByPath>(paths_of_files(before), path);
    }
}

proof fn lemma_diffs_ordered(diffs: Seq<Seq<char>>)
    ensures
        ascending::<ByPath>(paths_of_files(with_diffs(diffs))),
    decreases diffs.len(),
{
    if diffs.len() > 0 {
        lemma_diffs_ordered(diffs.drop_last());
        lemma_changes_ordered(
            with_diffs(diffs.drop_last()),
            diff_of(lines_of(diffs.last())).files,
        );
    } else {
        assert(paths_of_files(with_diffs(diffs)).len() == 0);
    }
}

/// The changed files are in the order of their paths, and no path is there twice.
pub proof fn law_changed_files_are_ordered(diffs: Seq<Seq<char>>, untracked: Option<Seq<char>>)
    ensures
        ascending::<ByPath>(paths_of_files(changes_of(diffs, untracked))),
{
    lemma_diffs_ordered(diffs);
    if let Some(listing) = untracked {
        lemma_untracked_ordered(with_diffs(diffs), lines_of(listing));
    }
}

// ---------------------------------------------------------------------------
// Changed targets
// ---------------------------------------------------------------------------
/// Whether a path is a source file of a language.
pub open spec fn is_source_of(language: Seq<char>, path: Seq<char>) -> bool {
    ||| language == "rust"@ && path_extension(path) == Some("rs"@)
    ||| language == "go"@ && path_extension(path) == Some("go"@)
    ||| language == "python"@ && path_extension(path) == Some("py"@)
}

/// Whether a path is a source file of a language.
pub fn path_matches_language(language: &str, path: &str) -> (r: bool)
    ensures
        r == is_source_of(language@, path@),
{
    match extension(path) {
        Some(name) => {
            let ending = name.as_str();
            (same(language, "rust") && same(ending, "rs")) || (same(language, "go") && same(
                ending,
                "go",
            )) || (same(language, "python") && same(ending, "py"))
        },
        None => false,
    }
}

/// Whether some changed lines are among those of a target.
pub open spec fn touches(ranges: Seq<LineRange>, target: LineRange) -> bool {
    exists|k: int| 0 <= k < ranges.len() && ranges_overlap(target, #[trigger] ranges[k])
}

fn touches_range(ranges: &Vec<LineRange>, target: LineRange) -> (r: bool)
    ensures
        r == touches(ranges@, target),
{
    let mut i: usize = 0;
    while i < ranges.len()
        invariant
            i <= ranges@.len(),
            forall|k: int| 0 <= k < i ==> !ranges_overlap(target, #[trigger] ranges@[k]),
        decreases ranges@.len() - i,
    {
        if target.overlaps(&ranges[i]) {
            return true;
        }
        i = i + 1;
    }
    false
}

/// Whether a changed file changes a target: a function by its lines, where they are
/// known, a file by its path, a package by a path in it or around it.
pub open spec fn changes_target(
    target: VerificationTargetModel,
    changed: ChangedFileModel,
) -> bool {
    match target.kind {
        TargetKind::Function => same_path(target.path, changed.path) && (changed.ranges.len() == 0
            || match target.line_range {
            Some(range) => touches(changed.ranges, range),
            None => true,
        }),
        TargetKind::File => same_path(target.path, changed.path),
        TargetKind::Package => target.path == "."@ || path_parts(target.path).is_prefix_of(
            path_parts(changed.path),
        ) || path_parts(changed.path).is_prefix_of(path_parts(target.path)),
        TargetKind::Project => false,
    }
}

/// Whether a changed file changes a target.
pub fn target_matches_changed_file(target: &VerificationTarget, changed: &ChangedFile) -> (r: bool)
    ensures
        r == changes_target(target.deep_view(), changed.deep_view()),
{
    let path = target.path.as_str();
    match target.kind {
        TargetKind::Function => path_same(path, changed.path.as_str()) && (changed.ranges.len()
            == 0 || match target.line_range {
            Some(range) => touches_range(&changed.ranges, range),
            None => true,
        }),
        TargetKind::File => path_same(path, changed.path.as_str()),
        TargetKind::Package => same(path, ".") || path_starts_with(changed.path.as_str(), path)
            || path_starts_with(path, changed.path.as_str()),
        TargetKind::Project => false,
    }
}

/// The changed files that are source files of a language.
pub open spec fn changes_in_language(
    language: Seq<char>,
    items: Seq<ChangedFileModel>,
) -> Seq<ChangedFileModel>
    decreases items.len(),
{
    if items.len() == 0 {
        Seq::empty()
    } else if is_source_of(language, items.last().path) {
        changes_in_language(language, items.drop_last()).push(items.last())
    } else {
        changes_in_language(language, items.drop_last())
    }
}

fn source_changes(language: &str, items: &Vec<ChangedFile>) -> (r: Vec<ChangedFile>)
    ensures
        r.deep_view() == changes_in_language(language@, items.deep_view()),
{
    let mut out: Vec<ChangedFile> = Vec::new();
    let ghost all = items.deep_view();
    let mut i: usize = 0;
    assert(out.deep_view() == changes_in_language(language@, all.take(0)));
    while i < items.len()
        invariant
            i <= items@.len(),
            all == items.deep_view(),
            out.deep_view() == changes_in_language(language@, all.take(i as int)),
        decreases items@.len() - i,
    {
        proof {
            lemma_take_next(all, i as int);
        }
        if path_matches_language(language, items[i].path.as_str()) {
            push_changed_file(&mut out, items[i].clone());
        }
        i = i + 1;
    }
    proof {
        lemma_take_all(all);
    }
    out
}

/// Whether one of the changed files changes a target.
pub open spec fn some_change(
    items: Seq<ChangedFileModel>,
    target: VerificationTargetModel,
) -> bool {
    exists|k: int| 0 <= k < items.len() && changes_target(target, (#[trigger] items[k]))
}

fn any_change(items: &Vec<ChangedFile>, target: &VerificationTarget) -> (r: bool)
    ensures
        r == some_change(items.deep_view(), target.deep_view()),
{
    let ghost all = items.deep_view();
    let mut i: usize = 0;
    while i < items.len()
        invariant
            i <= items@.len(),
            all == items.deep_view(),
            forall|k: int| 0 <= k < i ==> !(changes_target((target.deep_view()), (#[trigger] all[k]))),
        decreases items@.len() - i,
    {
        assert(all[i as int] == items@[i as int].deep_view());
        if target_matches_changed_file(target, &items[i]) {
            return true;
        }
        i = i + 1;
    }
    false
}

/// Whether a target with this id is in a list.
pub open spec fn holds_id(targets: Seq<VerificationTargetModel>, id: Seq<char>) -> bool {
    exists|k: int| 0 <= k < targets.len() && (#[trigger] targets[k]).id == id
}

fn has_id(targets: &Vec<VerificationTarget>, id: &str) -> (r: bool)
    ensures
        r == holds_id(targets.deep_view(), id@),
{
    let ghost all = targets.deep_view();
    let mut i: usize = 0;
    while i < targets.len()
        invariant
            i <= targets@.len(),
            all == targets.deep_view(),
            forall|k: int| 0 <= k < i ==> (#[trigger] all[k]).id != id@,
        decreases targets@.len() - i,
    {
        assert(all[i as int] == targets@[i as int].deep_view());
        if same(targets[i].id.as_str(), id) {
            return true;
        }
        i = i + 1;
    }
    false
}

/// Whether a target of a path is in a list.
pub open spec fn holds_path(targets: Seq<VerificationTargetModel>, path: Seq<char>) -> bool {
    exists|k: int| 0 <= k < targets.len() && same_path((#[trigger] targets[k]).path, path)
}

fn has_path(targets: &Vec<VerificationTarget>, path: &str) -> (r: bool)
    ensures
        r == holds_path(targets.deep_view(), path@),
{
    let ghost all = targets.deep_view();
    let mut i: usize = 0;
    while i < targets.len()
        invariant
            i <= targets@.len(),
            all == targets.deep_view(),
            forall|k: int| 0 <= k < i ==> !same_path((#[trigger] all[k]).path, path@),
        decreases targets@.len() - i,
    {
        assert(all[i as int] == targets@[i as int].deep_view());
        if path_same(targets[i].path.as_str(), path) {
            return true;
        }
        i = i + 1;
    }
    false
}

/// The targets that changed files change, each id once.
pub open spec fn targets_changed(
    changes: Seq<ChangedFileModel>,
    targets: Seq<VerificationTargetModel>,
) -> Seq<VerificationTargetModel>
    decreases targets.len(),
{
    if targets.len() == 0 {
        Seq::empty()
    } else {
        let before = targets_changed(changes, targets.drop_last());
        let target = targets.last();
        if target.kind != TargetKind::Project && some_change(changes, target) && !holds_id(
            before,
            target.id,
        ) {
            before.push(
                VerificationTargetModel {
                    description: "changed "@ + target.description,
                    ..target
                },
            )
        } else {
            before
        }
    }
}

fn select_changed(changes: &Vec<ChangedFile>, targets: &Vec<VerificationTarget>) -> (r: Vec<
    VerificationTarget,
>)
    ensures
        r.deep_view() == targets_changed(changes.deep_view(), targets.deep_view()),
{
    let ghost cv = changes.deep_view();
    let ghost all = targets.deep_view();
    let mut out: Vec<VerificationTarget> = Vec::new();
    let mut i: usize = 0;
    assert(out.deep_view() =~= targets_changed(cv, all.take(0)));
    while i < targets.len()
        invariant
            i <= targets@.len(),
            cv == changes.deep_view(),
            all == targets.deep_view(),
            out.deep_view() == targets_changed(cv, all.take(i as int)),
        decreases targets@.len() - i,
    {
        proof {
            lemma_take_next(all, i as int);
        }
        let target = &targets[i];
        if target.kind != TargetKind::Project && any_change(changes, target) && !has_id(
            &out,
            target.id.as_str(),
        ) {
            let mut one = target.clone();
            one.description = cat2("changed ", target.description.as_str());
            push_verification_target(&mut out, one);
        }
        i = i + 1;
    }
    proof {
        lemma_take_all(all);
    }
    out
}

/// The target that stands for a changed file in which no other target is.
pub open spec fn file_target(language: Seq<char>, path: Seq<char>) -> VerificationTargetModel {
    VerificationTargetModel {
        id: language + ":"@ + path,
        language,
        kind: if path_extension(path) is Some {
            TargetKind::File
        } else {
            TargetKind::Package
        },
        path,
        symbol: None,
        signature: None,
        line_range: None,
        description: "changed file"@,
        risk: RiskLevel::Medium,
    }
}

fn target_of_file(language: &str, path: &str) -> (r: VerificationTarget)
    ensures
        r.deep_view() == file_target(language@, path@),
{
    VerificationTarget {
        id: cat3(language, ":", path),
        language: owned(language),
        kind: if extension(path).is_some() {
            TargetKind::File
        } else {
            TargetKind::Package
        },
        path: owned(path),
        symbol: None,
        signature: None,
        line_range: None,
        description: owned("changed file"),
        risk: RiskLevel::Medium,
    }
}

/// The selected targets, and one for each changed file in which none of them is.
pub open spec fn with_file_targets(
    language: Seq<char>,
    selected: Seq<VerificationTargetModel>,
    changes: Seq<ChangedFileModel>,
) -> Seq<VerificationTargetModel>
    decreases changes.len(),
{
    if changes.len() == 0 {
        selected
    } else {
        let before = with_file_targets(language, selected, changes.drop_last());
        let path = changes.last().path;
        if !holds_path(before, path) && !holds_id(before, language + ":"@ + path) {
            before.push(file_target(language, path))
        } else {
            before
        }
    }
}

/// The targets of a language that changed files change, and one for each changed
/// source file in which no target is.
pub open spec fn changed_targets(
    language: Seq<char>,
    targets: Seq<VerificationTargetModel>,
    changes: Seq<ChangedFileModel>,
) -> Seq<VerificationTargetModel> {
    let own = changes_in_language(language, changes);
    if own.len() == 0 {
        Seq::empty()
    } else {
        with_file_targets(language, targets_changed(own, targets), own)
    }
}

/// The targets of a language that changed files change.
pub fn targets_for_changed_files(
    language: &str,
    targets: &Vec<VerificationTarget>,
    changes: &Vec<ChangedFile>,
) -> (r: Vec<VerificationTarget>)
    ensures
        r.deep_view() == changed_targets(language@, targets.deep_view(), changes.deep_view()),
{
    let own = source_changes(language, changes);
    let ghost all = own.deep_view();
    assert(own@.len() == all.len());
    if own.len() == 0 {
        let none: Vec<VerificationTarget> = Vec::new();
        assert(none.deep_view() =~= Seq::<VerificationTargetModel>::empty());
        return none;
    }
    let mut out = select_changed(&own, targets);
    let ghost selected = out.deep_view();
    let mut i: usize = 0;
    assert(all.take(0).len() == 0);
    while i < own.len()
        invariant
            i <= own@.len(),
            all == own.deep_view(),
            out.deep_view() == with_file_targets(language@, selected, all.take(i as int)),
        decreases own@.len() - i,
    {
        proof {
            lemma_take_next(all, i as int);
        }
        let path = own[i].path.as_str();
        if !has_path(&out, path) && !has_id(&out, cat3(language, ":", path).as_str()) {
            push_verification_target(&mut out, target_of_file(language, path));
        }
        i = i + 1;
    }
    proof {
        lemma_take_all(all);
    }
    out
}

/// Whether no two targets have the same id.
pub open spec fn distinct_ids(targets: Seq<VerificationTargetModel>) -> bool {
    forall|i: int, j: int|
        0 <= i < j < targets.len() ==> (#[trigger] targets[i]).id != (#[trigger] targets[j]).id
}

proof fn lemma_selected_ids(
    changes: Seq<ChangedFileModel>,
    targets: Seq<VerificationTargetModel>,
)
    ensures
        distinct_ids(targets_changed(changes, targets)),
    decreases targets.len(),
{
    if targets.len() > 0 {
        lemma_selected_ids(changes, targets.drop_last());
        let before = targets_changed(changes, targets.drop_last());
        let now = targets_changed(changes, targets);
        assert forall|i: int, j: int| 0 <= i < j < now.len() implies (#[trigger] now[i]).id != (
        #[trigger] now[j]).id by {
            assert(before[i] == now[i]);
            if j < before.len() {
                assert(before[j] == now[j]);
            } else {
                assert(!holds_id(before, targets.last().id));
            }
        }
    }
}

proof fn lemma_file_target_ids(
    language: Seq<char>,
    selected: Seq<VerificationTargetModel>,
    changes: Seq<ChangedFileModel>,
)
    requires
        distinct_ids(selected),
    ensures
        distinct_ids(with_file_targets(language, selected, changes)),
    decreases changes.len(),
{
    if changes.len() > 0 {
        lemma_file_target_ids(language, selected, changes.drop_last());
        let before = with_file_targets(language, selected, changes.drop_last());
        let now = with_file_targets(language, selected, changes);
        assert forall|i: int, j: int| 0 <= i < j < now.len() implies (#[trigger] now[i]).id != (
        #[trigger] now[j]).id by {
            assert(before[i] == now[i]);
            if j < before.len() {
                assert(before[j] == now[j]);
            } else {
                assert(!holds_id(before, language + ":"@ + changes.last().path));
            }
        }
    }
}

/// No two of the changed targets have the same id.
pub proof fn law_changed_targets_are_distinct(
    language: Seq<char>,
    targets: Seq<VerificationTargetModel>,
    changes: Seq<ChangedFileModel>,
)
    ensures
        distinct_ids(changed_targets(language, targets, changes)),
{
    let own = changes_in_language(language, changes);
    lemma_selected_ids(own, targets);
    lemma_file_target_ids(language, targets_changed(own, targets), own);
}

/// Where no source file of a language changed, none of its targets did.
pub proof fn law_no_change_no_target(
    language: Seq<char>,
    targets: Seq<VerificationTargetModel>,
    changes: Seq<ChangedFileModel>,
)
    requires
        forall|i: int|
            0 <= i < changes.len() ==> !is_source_of(language, (#[trigger] changes[i]).path),
    ensures
        changed_targets(language, targets, changes).len() == 0,
{
    lemma_no_source_changes(language, changes);
}

proof fn lemma_no_source_changes(language: Seq<char>, changes: Seq<ChangedFileModel>)
    requires
        forall|i: int|
            0 <= i < changes.len() ==> !is_source_of(language, (#[trigger] changes[i]).path),
    ensures
        changes_in_language(language, changes).len() == 0,
    decreases changes.len(),
{
    if changes.len() > 0 {
        let t = changes.drop_last();
        assert forall|i: int| 0 <= i < t.len() implies !is_source_of(
            language,
            (#[trigger] t[i]).path,
        ) by {
            assert(t[i] == changes[i]);
        }
        lemma_no_source_changes(language, t);
        assert(!is_source_of(language, changes[changes.len() - 1].path));
    }
}

/// Whether a line is one that a file was changed in, by one of its ranges.
pub open spec fn is_changed_line(changed: ChangedFileModel, line: int) -> bool {
    exists|k: int|
        0 <= k < changed.ranges.len() && (#[trigger] changed.ranges[k]).start <= line
            <= changed.ranges[k].end
}

/// Whether a target has a line that a file was changed in, as far as both are known.
pub open spec fn has_changed_line(
    target: VerificationTargetModel,
    changed: ChangedFileModel,
) -> bool {
    match target.line_range {
        Some(range) => range.start > range.end || changed.ranges.len() == 0 || exists|line: int|
            range.start <= line <= range.end && #[trigger] is_changed_line(changed, line),
        None => true,
    }
}

proof fn lemma_changes_in_language(language: Seq<char>, items: Seq<ChangedFileModel>)
    ensures
        forall|f: int|
            0 <= f < items.len() && is_source_of(language, (#[trigger] items[f]).path)
                ==> changes_in_language(language, items).contains(items[f]),
        forall|f: int|
            0 <= f < changes_in_language(language, items).len() ==> items.contains(
                #[trigger] changes_in_language(language, items)[f],
            ) && is_source_of(language, changes_in_language(language, items)[f].path),
    decreases items.len(),
{
    if items.len() > 0 {
        let rest = items.drop_last();
        let before = changes_in_language(language, rest);
        let all = changes_in_language(language, items);
        lemma_changes_in_language(language, rest);
        assert forall|f: int|
            0 <= f < items.len() && is_source_of(
                language,
                (#[trigger] items[f]).path,
            ) implies all.contains(items[f]) by {
            if f < rest.len() {
                assert(rest[f] == items[f]);
                let k = choose|k: int| 0 <= k < before.len() && before[k] == rest[f];
                assert(all[k] == items[f]);
            } else {
                assert(all[all.len() - 1] == items[f]);
            }
        }
        assert forall|f: int| 0 <= f < all.len() implies items.contains(#[trigger] all[f])
            && is_source_of(language, all[f].path) by {
            if f < before.len() {
                assert(all[f] == before[f]);
                let k = choose|k: int| 0 <= k < rest.len() && rest[k] == before[f];
                assert(items[k] == all[f]);
            } else {
                assert(items[items.len() - 1] == all[f]);
            }
        }
    }
}

/// Whether a selected target is a given one, but for its description.
pub open spec fn is_selection_of(
    selected: VerificationTargetModel,
    target: VerificationTargetModel,
) -> bool {
    selected == (VerificationTargetModel { description: selected.description, ..target })
}

proof fn lemma_selected_targets(
    own: Seq<ChangedFileModel>,
    targets: Seq<VerificationTargetModel>,
)
    ensures
        forall|t: int|
            0 <= t < targets.len() && (#[trigger] targets[t]).kind != TargetKind::Project
                && some_change(own, targets[t]) ==> holds_id(
                targets_changed(own, targets),
                targets[t].id,
            ),
        forall|j: int|
            0 <= j < targets_changed(own, targets).len() ==> exists|t: int|
                0 <= t < targets.len() && is_selection_of(
                    #[trigger] targets_changed(own, targets)[j],
                    #[trigger] targets[t],
                ) && targets[t].kind != TargetKind::Project && some_change(own, targets[t]),
    decreases targets.len(),
{
    if targets.len() > 0 {
        let rest = targets.drop_last();
        let before = targets_changed(own, rest);
        let all = targets_changed(own, targets);
        lemma_selected_targets(own, rest);
        assert forall|t: int|
            0 <= t < targets.len() && (#[trigger] targets[t]).kind != TargetKind::Project
                && some_change(own, targets[t]) implies holds_id(all, targets[t].id) by {
            if t < rest.len() {
                assert(rest[t] == targets[t]);
                assert(holds_id(before, rest[t].id));
            }
            if holds_id(before, targets[t].id) {
                let k = choose|k: int|
                    0 <= k < before.len() && (#[trigger] before[k]).id == targets[t].id;
                assert(all[k].id == targets[t].id);
            } else {
                assert(all[all.len() - 1].id == targets[t].id);
            }
        }
        assert forall|j: int| 0 <= j < all.len() implies exists|t: int|
            0 <= t < targets.len() && is_selection_of(#[trigger] all[j], #[trigger] targets[t])
                && targets[t].kind != TargetKind::Project && some_change(own, targets[t]) by {
            if j < before.len() {
                assert(before[j] == all[j]);
                let t = choose|t: int|
                    0 <= t < rest.len() && is_selection_of(before[j], #[trigger] rest[t])
                        && rest[t].kind != TargetKind::Project && some_change(own, rest[t]);
                assert(targets[t] == rest[t]);
                assert(is_selection_of(all[j], targets[t]));
            } else {
                let t = targets.len() - 1;
                assert(is_selection_of(all[j], targets[t]));
            }
        }
    }
}

proof fn lemma_file_targets_follow(
    language: Seq<char>,
    selected: Seq<VerificationTargetModel>,
    own: Seq<ChangedFileModel>,
)
    ensures
        selected.len() <= with_file_targets(language, selected, own).len(),
        forall|i: int|
            0 <= i < selected.len() ==> #[trigger] with_file_targets(language, selected, own)[i]
                == selected[i],
    decreases own.len(),
{
    if own.len() > 0 {
        lemma_file_targets_follow(language, selected, own.drop_last());
        let before = with_file_targets(language, selected, own.drop_last());
        let all = with_file_targets(language, selected, own);
        assert forall|i: int| 0 <= i < selected.len() implies #[trigger] all[i] == selected[i] by {
            assert(before[i] == selected[i]);
        }
    }
}

proof fn lemma_file_target_has_its_file(
    language: Seq<char>,
    selected: Seq<VerificationTargetModel>,
    own: Seq<ChangedFileModel>,
    j: int,
) -> (f: int)
    requires
        selected.len() <= j < with_file_targets(language, selected, own).len(),
    ensures
        0 <= f < own.len(),
        with_file_targets(language, selected, own)[j] == file_target(language, own[f].path),
    decreases own.len(),
{
    let before = with_file_targets(language, selected, own.drop_last());
    if j < before.len() {
        lemma_file_target_has_its_file(language, selected, own.drop_last(), j)
    } else {
        own.len() - 1
    }
}

/// Whether a target is in a file or has the id that stands for it.
pub open spec fn stands_for(
    target: VerificationTargetModel,
    language: Seq<char>,
    path: Seq<char>,
) -> bool {
    same_path(target.path, path) || target.id == language + ":"@ + path
}

proof fn lemma_file_has_a_target(
    language: Seq<char>,
    selected: Seq<VerificationTargetModel>,
    own: Seq<ChangedFileModel>,
    f: int,
) -> (j: int)
    requires
        0 <= f < own.len(),
    ensures
        0 <= j < with_file_targets(language, selected, own).len(),
        stands_for(with_file_targets(language, selected, own)[j], language, own[f].path),
    decreases own.len(),
{
    let before = with_file_targets(language, selected, own.drop_last());
    let path = own[f].path;
    if f < own.len() - 1 {
        lemma_file_has_a_target(language, selected, own.drop_last(), f)
    } else if holds_path(before, path) {
        choose|k: int| 0 <= k < before.len() && same_path((#[trigger] before[k]).path, path)
    } else if holds_id(before, language + ":"@ + path) {
        choose|k: int| 0 <= k < before.len() && (#[trigger] before[k]).id == language + ":"@ + path
    } else {
        before.len() as int
    }
}

/// A target that a changed source file changes is selected.
proof fn lemma_changed_targets_are_selected(
    language: Seq<char>,
    targets: Seq<VerificationTargetModel>,
    changes: Seq<ChangedFileModel>,
    t: int,
    f: int,
)
    requires
        0 <= t < targets.len(),
        0 <= f < changes.len(),
        targets[t].kind != TargetKind::Project,
        is_source_of(language, changes[f].path),
        changes_target(targets[t], changes[f]),
    ensures
        holds_id(changed_targets(language, targets, changes), targets[t].id),
{
    let own = changes_in_language(language, changes);
    let selected = targets_changed(own, targets);
    let all = with_file_targets(language, selected, own);
    lemma_changes_in_language(language, changes);
    lemma_selected_targets(own, targets);
    lemma_file_targets_follow(language, selected, own);
    assert(own.contains(changes[f]));
    let k = choose|k: int| 0 <= k < own.len() && own[k] == changes[f];
    assert(changes_target(targets[t], own[k]));
    assert(some_change(own, targets[t]));
    let j = choose|j: int| 0 <= j < selected.len() && (#[trigger] selected[j]).id == targets[t].id;
    assert(all[j] == selected[j]);
}

/// A function is selected where one of its lines lies in any range of lines that were changed
/// in its file.
pub proof fn law_functions_with_changed_lines_are_selected(
    language: Seq<char>,
    targets: Seq<VerificationTargetModel>,
    changes: Seq<ChangedFileModel>,
    t: int,
    f: int,
    k: int,
    line: int,
)
    requires
        0 <= t < targets.len(),
        0 <= f < changes.len(),
        0 <= k < changes[f].ranges.len(),
        targets[t].kind == TargetKind::Function,
        targets[t].path == changes[f].path,
        ((language == "rust"@ && path_extension(changes[f].path) == Some("rs"@)) || (language == "go"@ && path_extension(changes[f].path) == Some("go"@)) || (language == "python"@ && path_extension(changes[f].path) == Some("py"@))),
        targets[t].line_range matches Some(range) && range.start <= line <= range.end,
        changes[f].ranges[k].start <= line <= changes[f].ranges[k].end,
    ensures
        exists|j: int|
            0 <= j < changed_targets(language, targets, changes).len() && (
            #[trigger] changed_targets(language, targets, changes)[j]).id == targets[t].id,
{
    assert(ranges_overlap(targets[t].line_range->0, changes[f].ranges[k]));
    assert(touches(changes[f].ranges, targets[t].line_range->0));
    lemma_changed_targets_are_selected(language, targets, changes, t, f);
}

/// A function whose lines are not known, or in whose file the changed lines are not known, is
/// selected where its file changed, and so is every target that is a changed file.
pub proof fn law_targets_of_changed_files_are_selected(
    language: Seq<char>,
    targets: Seq<VerificationTargetModel>,
    changes: Seq<ChangedFileModel>,
    t: int,
    f: int,
)
    requires
        0 <= t < targets.len(),
        0 <= f < changes.len(),
        targets[t].path == changes[f].path,
        ((language == "rust"@ && path_extension(changes[f].path) == Some("rs"@)) || (language == "go"@ && path_extension(changes[f].path) == Some("go"@)) || (language == "python"@ && path_extension(changes[f].path) == Some("py"@))),
        targets[t].kind == TargetKind::File || targets[t].kind == TargetKind::Package || (
        targets[t].kind == TargetKind::Function && (targets[t].line_range is None
            || changes[f].ranges.len() == 0)),
    ensures
        exists|j: int|
            0 <= j < changed_targets(language, targets, changes).len() && (
            #[trigger] changed_targets(language, targets, changes)[j]).id == targets[t].id,
{
    lemma_changed_targets_are_selected(language, targets, changes, t, f);
}

/// Every changed source file is verified: a target in it is selected, or one with the id that
/// stands for the file.
pub proof fn law_every_changed_file_has_a_target(
    language: Seq<char>,
    targets: Seq<VerificationTargetModel>,
    changes: Seq<ChangedFileModel>,
    f: int,
)
    requires
        0 <= f < changes.len(),
        ((language == "rust"@ && path_extension(changes[f].path) == Some("rs"@)) || (language == "go"@ && path_extension(changes[f].path) == Some("go"@)) || (language == "python"@ && path_extension(changes[f].path) == Some("py"@))),
    ensures
        exists|j: int|
            0 <= j < changed_targets(language, targets, changes).len() && stands_for(
                #[trigger] changed_targets(language, targets, changes)[j],
                language,
                changes[f].path,
            ),
{
    let own = changes_in_language(language, changes);
    lemma_changes_in_language(language, changes);
    assert(own.contains(changes[f]));
    let k = choose|k: int| 0 <= k < own.len() && own[k] == changes[f];
    let j = lemma_file_has_a_target(language, targets_changed(own, targets), own, k);
    assert(stands_for(
        changed_targets(language, targets, changes)[j],
        language,
        changes[f].path,
    ));
}

/// Nothing else is selected: a selected function, whose lines and those of the changes are
/// known, has a line that was changed in its file, and a selected target that is none of
/// those given stands for a changed source file.
pub proof fn law_only_changed_targets_are_selected(
    language: Seq<char>,
    targets: Seq<VerificationTargetModel>,
    changes: Seq<ChangedFileModel>,
    j: int,
)
    requires
        0 <= j < changed_targets(language, targets, changes).len(),
        forall|f: int, k: int|
            0 <= f < changes.len() && 0 <= k < changes[f].ranges.len() ==> (
            #[trigger] changes[f].ranges[k]).start <= changes[f].ranges[k].end,
    ensures
        ({
            let selected = changed_targets(language, targets, changes)[j];
            ||| exists|t: int, f: int|
                0 <= t < targets.len() && 0 <= f < changes.len() && is_selection_of(
                    selected,
                    #[trigger] targets[t],
                ) && ((language == "rust"@ && path_extension((#[trigger] changes[f]).path) == Some(
                    "rs"@,
                )) || (language == "go"@ && path_extension(changes[f].path) == Some("go"@)) || (language == "python"@ && path_extension(changes[f].path) == Some("py"@))) && targets[t].kind
                    != TargetKind::Project && (targets[t].kind == TargetKind::Function
                    ==> same_path(targets[t].path, changes[f].path) && has_changed_line(
                    targets[t],
                    changes[f],
                )) && (targets[t].kind == TargetKind::File ==> same_path(
                    targets[t].path,
                    changes[f].path,
                ))
            ||| exists|f: int|
                0 <= f < changes.len() && ((language == "rust"@ && path_extension((#[trigger] changes[f]).path) == Some(
                    "rs"@,
                )) || (language == "go"@ && path_extension(changes[f].path) == Some("go"@)) || (language == "python"@ && path_extension(changes[f].path) == Some("py"@)))
                    && selected.path == changes[f].path && selected.id == language + ":"@
                    + changes[f].path && selected.language == language && selected.kind
                    == TargetKind::File
        }),
{
    let own = changes_in_language(language, changes);
    let chosen = targets_changed(own, targets);
    let all = changed_targets(language, targets, changes);
    lemma_changes_in_language(language, changes);
    lemma_selected_targets(own, targets);
    lemma_file_targets_follow(language, chosen, own);
    if j < chosen.len() {
        assert(all[j] == chosen[j]);
        let t = choose|t: int|
            0 <= t < targets.len() && is_selection_of(chosen[j], #[trigger] targets[t])
                && targets[t].kind != TargetKind::Project && some_change(own, targets[t]);
        let k = choose|k: int| 0 <= k < own.len() && changes_target(targets[t], #[trigger] own[k]);
        assert(changes.contains(own[k]));
        let f = choose|f: int| 0 <= f < changes.len() && changes[f] == own[k];
        assert(((language == "rust"@ && path_extension(changes[f].path) == Some("rs"@)) || (language == "go"@ && path_extension(changes[f].path) == Some("go"@)) || (language == "python"@ && path_extension(changes[f].path) == Some("py"@))));
        if targets[t].kind == TargetKind::Function {
            if let Some(range) = targets[t].line_range {
                if range.start <= range.end && changes[f].ranges.len() > 0 {
                    let r = choose|r: int|
                        0 <= r < changes[f].ranges.len() && ranges_overlap(
                            range,
                            #[trigger] changes[f].ranges[r],
                        );
                    let other = changes[f].ranges[r];
                    let line: int = if range.start <= other.start {
                        other.start as int
                    } else {
                        range.start as int
                    };
                    assert(is_changed_line(changes[f], line));
                }
            }
        }
        assert(is_selection_of(all[j], targets[t]));
    } else {
        let k = lemma_file_target_has_its_file(language, chosen, own, j);
        assert(changes.contains(own[k]));
        let f = choose|f: int| 0 <= f < changes.len() && changes[f] == own[k];
        assert(((language == "rust"@ && path_extension(changes[f].path) == Some("rs"@)) || (language == "go"@ && path_extension(changes[f].path) == Some("go"@)) || (language == "python"@ && path_extension(changes[f].path) == Some("py"@))));
    }
}

// ---------------------------------------------------------------------------
// Merging artifacts
// ---------------------------------------------------------------------------
/// Texts without the ones that came before.
pub open spec fn first_of_each(items: Seq<Seq<char>>) -> Seq<Seq<char>>
    decreases items.len(),
{
    if items.len() == 0 {
        Seq::empty()
    } else {
        let before = first_of_each(items.drop_last());
        if before.contains(items.last()) {
            before
        } else {
            before.push(items.last())
        }
    }
}

fn drop_repeated(items: &Vec<String>) -> (r: Vec<String>)
    ensures
        r.deep_view() == first_of_each(items.deep_view()),
{
    let ghost all = items.deep_view();
    let mut out: Vec<String> = Vec::new();
    let mut i: usize = 0;
    assert(out.deep_view() =~= first_of_each(all.take(0)));
    while i < items.len()
        invariant
            i <= items@.len(),
            all == items.deep_view(),
            out.deep_view() == first_of_each(all.take(i as int)),
        decreases items@.len() - i,
    {
        proof {
            lemma_take_next(all, i as int);
        }
        if !list_has(&out, items[i].as_str()) {
            push_text(&mut out, items[i].clone());
        }
        i = i + 1;
    }
    proof {
        lemma_take_all(all);
    }
    out
}

/// The lines of two texts, one after the other, without the ones that came before.
pub open spec fn merged_contents(left: Seq<char>, right: Seq<char>) -> Seq<char> {
    joined(first_of_each(lines_of(left) + lines_of(right)), "\n"@) + "\n"@
}

/// The lines of two texts, one after the other, without the ones that came before.
pub fn merge_artifact_contents(left: &str, right: &str) -> (r: String)
    ensures
        r@ == merged_contents(left@, right@),
{
    let mut all = lines(left);
    let mut more = lines(right);
    let ghost av = all.deep_view();
    let ghost mv = more.deep_view();
    all.append(&mut more);
    assert(all.deep_view() =~= av + mv);
    let mut out = join(&drop_repeated(&all), "\n");
    out.append("\n");
    out
}

/// No line of merged contents is there twice, and none is lost.
pub proof fn law_merged_lines(items: Seq<Seq<char>>)
    ensures
        first_of_each(items).no_duplicates(),
        forall|x: Seq<char>| #[trigger] first_of_each(items).contains(x) == items.contains(x),
    decreases items.len(),
{
    if items.len() > 0 {
        let t = items.drop_last();
        let before = first_of_each(t);
        law_merged_lines(t);
        let now = first_of_each(items);
        assert forall|x: Seq<char>| #[trigger] now.contains(x) == items.contains(x) by {
            if now.contains(x) {
                let k = choose|k: int| 0 <= k < now.len() && now[k] == x;
                if k < before.len() {
                    assert(before[k] == x);
                    assert(before.contains(x));
                    let j = choose|j: int| 0 <= j < t.len() && t[j] == x;
                    assert(items[j] == x);
                } else {
                    assert(items[items.len() - 1] == x);
                }
            }
            if items.contains(x) {
                let k = choose|k: int| 0 <= k < items.len() && items[k] == x;
                if k < t.len() {
                    assert(t[k] == x);
                    assert(t.contains(x));
                    assert(before.contains(x));
                    let j = choose|j: int| 0 <= j < before.len() && before[j] == x;
                    assert(now[j] == x);
                } else if before.contains(items.last()) {
                    let j = choose|j: int| 0 <= j < before.len() && before[j] == x;
                    assert(now[j] == x);
                } else {
                    assert(now[now.len() - 1] == x);
                }
            }
        }
    }
}

/// Two artifacts of one path as one.
pub open spec fn merged_pair(
    known: GeneratedArtifactModel,
    more: GeneratedArtifactModel,
) -> GeneratedArtifactModel {
    GeneratedArtifactModel {
        contents: merged_contents(known.contents, more.contents),
        description: known.description + "; "@ + more.description,
        ..known
    }
}

/// The artifacts with one more. They are in the order of their paths, and each path is
/// there once.
pub open spec fn artifact_added(
    items: Seq<GeneratedArtifactModel>,
    one: GeneratedArtifactModel,
) -> Seq<GeneratedArtifactModel>
    decreases items.len(),
{
    if items.len() == 0 || path_lt(items.last().path, one.path) {
        items.push(one)
    } else if path_lt(one.path, items.last().path) {
        artifact_added(items.drop_last(), one).push(items.last())
    } else {
        items.drop_last().push(merged_pair(items.last(), one))
    }
}

/// The artifacts merged: in the order of their paths, each path once.
pub open spec fn merged_artifacts(items: Seq<GeneratedArtifactModel>) -> Seq<
    GeneratedArtifactModel,
>
    decreases items.len(),
{
    if items.len() == 0 {
        Seq::empty()
    } else {
        artifact_added(merged_artifacts(items.drop_last()), items.last())
    }
}

proof fn lemma_artifact_added_at(
    items: Seq<GeneratedArtifactModel>,
    one: GeneratedArtifactModel,
    at: int,
)
    requires
        0 <= at <= items.len(),
        forall|j: int|
            at <= j < items.len() ==> !path_lt((#[trigger] items[j]).path, one.path) && path_lt(
                one.path,
                items[j].path,
            ),
    ensures
        artifact_added(items, one) == artifact_added(items.take(at), one) + items.skip(at),
    decreases items.len() - at,
{
    if at == items.len() {
        lemma_take_all(items);
        assert(artifact_added(items, one) =~= artifact_added(items, one) + items.skip(at));
    } else {
        let t = items.drop_last();
        assert(path_lt(one.path, items[items.len() - 1].path));
        assert forall|j: int| at <= j < t.len() implies !path_lt((#[trigger] t[j]).path, one.path)
            && path_lt(one.path, t[j].path) by {
            assert(t[j] == items[j]);
        }
        lemma_artifact_added_at(t, one, at);
        assert(t.take(at) =~= items.take(at));
        assert(artifact_added(t, one).push(items.last()) =~= artifact_added(items.take(at), one)
            + items.skip(at));
    }
}

fn add_artifact(items: &mut Vec<GeneratedArtifact>, one: GeneratedArtifact)
    ensures
        final(items).deep_view() == artifact_added(old(items).deep_view(), one.deep_view()),
{
    let ghost before = items.deep_view();
    let ghost ov = one.deep_view();
    let mut at: usize = items.len();
    while at > 0
        invariant
            before == items.deep_view(),
            ov == one.deep_view(),
            at <= items@.len(),
            forall|j: int|
                at <= j < before.len() ==> !path_lt((#[trigger] before[j]).path, ov.path)
                    && path_lt(ov.path, before[j].path),
        ensures
            at == 0 || !(path_lt(ov.path, before[at - 1].path) && !path_lt(
                before[at - 1].path,
                ov.path,
            )),
        decreases at,
    {
        assert(before[at - 1] == items@[at - 1].deep_view());
        if path_less(items[at - 1].path.as_str(), one.path.as_str()) || !path_less(
            one.path.as_str(),
            items[at - 1].path.as_str(),
        ) {
            break;
        }
        at = at - 1;
    }
    proof {
        lemma_artifact_added_at(before, ov, at as int);
        if at > 0 {
            assert(before.take(at as int).last() == before[at - 1]);
            assert(before[at - 1] == items@[at - 1].deep_view());
        }
    }
    if at == 0 || path_less(items[at - 1].path.as_str(), one.path.as_str()) {
        items.insert(at, one);
        assert(items.deep_view() =~= before.take(at as int).push(ov) + before.skip(at as int));
    } else {
        let mut known = items[at - 1].clone();
        known.contents = merge_artifact_contents(known.contents.as_str(), one.contents.as_str());
        known.description = cat3(
            known.description.as_str(),
            "; ",
            one.description.as_str(),
        );
        let ghost changed = known.deep_view();
        items.set(at - 1, known);
        assert(items.deep_view() =~= before.take(at as int).drop_last().push(changed)
            + before.skip(at as int));
    }
}

/// Merges artifacts: in the order of their paths, each path once.
pub fn merge_artifacts(items: &Vec<GeneratedArtifact>) -> (r: Vec<GeneratedArtifact>)
    ensures
        r.deep_view() == merged_artifacts(items.deep_view()),
{
    let ghost all = items.deep_view();
    let mut out: Vec<GeneratedArtifact> = Vec::new();
    let mut i: usize = 0;
    assert(out.deep_view() =~= merged_artifacts(all.take(0)));
    while i < items.len()
        invariant
            i <= items@.len(),
            all == items.deep_view(),
            out.deep_view() == merged_artifacts(all.take(i as int)),
        decreases items@.len() - i,
    {
        proof {
            lemma_take_next(all, i as int);
        }
        add_artifact(&mut out, items[i].clone());
        i = i + 1;
    }
    proof {
        lemma_take_all(all);
    }
    out
}

proof fn lemma_added_artifact_paths(
    items: Seq<GeneratedArtifactModel>,
    one: GeneratedArtifactModel,
)
    ensures
        artifact_paths(artifact_added(items, one)) == inserted::<ByPath>(
            artifact_paths(items),
            one.path,
        ),
    decreases items.len(),
{
    let names = artifact_paths(items);
    if items.len() == 0 {
        assert(artifact_paths(artifact_added(items, one)) =~= seq![one.path]);
    } else {
        assert(names.last() == items.last().path);
        assert(names.drop_last() =~= artifact_paths(items.drop_last()));
        if path_lt(items.last().path, one.path) {
            assert(artifact_paths(artifact_added(items, one)) =~= names.push(one.path));
        } else if path_lt(one.path, items.last().path) {
            lemma_added_artifact_paths(items.drop_last(), one);
            assert(artifact_paths(artifact_added(items, one)) =~= artifact_paths(
                artifact_added(items.drop_last(), one),
            ).push(items.last().path));
        } else {
            assert(artifact_paths(artifact_added(items, one)) =~= names);
        }
    }
}

/// Merged artifacts are in the order of their paths, and no path is there twice.
pub proof fn law_merged_paths_are_distinct(items: Seq<GeneratedArtifactModel>)
    ensures
        ascending::<ByPath>(artifact_paths(merged_artifacts(items))),
    decreases items.len(),
{
    if items.len() > 0 {
        law_merged_paths_are_distinct(items.drop_last());
        let before = merged_artifacts(items.drop_last());
        lemma_added_artifact_paths(before, items.last());
        lemma_inserted_ascending::<ByPath>(artifact_paths(before), items.last().path);
    } else {
        assert(artifact_paths(merged_artifacts(items)).len() == 0);
    }
}

// ---------------------------------------------------------------------------
// Targets of a report
// ---------------------------------------------------------------------------
/// Whether a target belongs to the scope of a selected one.
pub open spec fn in_scope(
    selected: VerificationTargetModel,
    target: VerificationTargetModel,
) -> bool {
    match selected.kind {
        TargetKind::Project => target.kind != TargetKind::Project,
        TargetKind::Package => same_path(target.path, selected.path) || path_parts(
            selected.path,
        ).is_prefix_of(path_parts(target.path)),
        TargetKind::File => same_path(target.path, selected.path),
        TargetKind::Function => target.id == selected.id,
    }
}

fn is_in_scope(selected: &VerificationTarget, target: &VerificationTarget) -> (r: bool)
    ensures
        r == in_scope(selected.deep_view(), target.deep_view()),
{
    match selected.kind {
        TargetKind::Project => target.kind != TargetKind::Project,
        TargetKind::Package => path_same(target.path.as_str(), selected.path.as_str())
            || path_starts_with(target.path.as_str(), selected.path.as_str()),
        TargetKind::File => path_same(target.path.as_str(), selected.path.as_str()),
        TargetKind::Function => same(target.id.as_str(), selected.id.as_str()),
    }
}

/// The targets in the scope of a selected one.
pub open spec fn scope_of(
    selected: VerificationTargetModel,
    items: Seq<VerificationTargetModel>,
) -> Seq<VerificationTargetModel>
    decreases items.len(),
{
    if items.len() == 0 {
        Seq::empty()
    } else if in_scope(selected, items.last()) {
        scope_of(selected, items.drop_last()).push(items.last())
    } else {
        scope_of(selected, items.drop_last())
    }
}

fn targets_in_scope(
    selected: &VerificationTarget,
    items: &Vec<VerificationTarget>,
) -> (r: Vec<VerificationTarget>)
    ensures
        r.deep_view() == scope_of(selected.deep_view(), items.deep_view()),
{
    let mut out: Vec<VerificationTarget> = Vec::new();
    let ghost all = items.deep_view();
    let mut i: usize = 0;
    assert(out.deep_view() == scope_of(selected.deep_view(), all.take(0)));
    while i < items.len()
        invariant
            i <= items@.len(),
            all == items.deep_view(),
            out.deep_view() == scope_of(selected.deep_view(), all.take(i as int)),
        decreases items@.len() - i,
    {
        proof {
            lemma_take_next(all, i as int);
        }
        if is_in_scope(selected, &items[i]) {
            push_verification_target(&mut out, items[i].clone());
        }
        i = i + 1;
    }
    proof {
        lemma_take_all(all);
    }
    out
}

/// The targets that a report speaks of: those in the scope of the selected one, or it
/// alone where there is none.
pub open spec fn report_targets(
    selected: VerificationTargetModel,
    all: Seq<VerificationTargetModel>,
) -> Seq<VerificationTargetModel> {
    let found = scope_of(selected, all);
    if found.len() == 0 {
        seq![selected]
    } else {
        found
    }
}

/// The targets that a report speaks of.
pub fn expand_report_targets(
    selected: &VerificationTarget,
    all_targets: &Vec<VerificationTarget>,
) -> (r: Vec<VerificationTarget>)
    ensures
        r.deep_view() == report_targets(selected.deep_view(), all_targets.deep_view()),
{
    let mut found = targets_in_scope(selected, all_targets);
    assert(found@.len() == found.deep_view().len());
    if found.len() == 0 {
        found.push(selected.clone());
        assert(found.deep_view() =~= seq![selected.deep_view()]);
    }
    found
}

/// A report speaks of at least one target.
pub proof fn law_report_has_a_target(
    selected: VerificationTargetModel,
    all: Seq<VerificationTargetModel>,
)
    ensures
        report_targets(selected, all).len() > 0,
{
}

// ---------------------------------------------------------------------------
// Review of changes
// ---------------------------------------------------------------------------
/// A range of lines in words.
pub open spec fn range_text(range: LineRange) -> Seq<char> {
    decimal(range.start as int) + "-"@ + decimal(range.end as int)
}

fn print_range(range: LineRange) -> (r: String)
    ensures
        r@ == range_text(range),
{
    cat3(print_usize(range.start).as_str(), "-", print_usize(range.end).as_str())
}

/// Ranges of lines in words.
pub open spec fn range_texts(ranges: Seq<LineRange>) -> Seq<Seq<char>> {
    ranges.map_values(|range: LineRange| range_text(range))
}

fn print_ranges(ranges: &Vec<LineRange>) -> (r: Vec<String>)
    ensures
        r.deep_view() == range_texts(ranges@),
{
    let mut out: Vec<String> = Vec::new();
    let mut i: usize = 0;
    while i < ranges.len()
        invariant
            i <= ranges@.len(),
            out@.len() == i,
            forall|k: int| 0 <= k < i ==> (#[trigger] out@[k])@ == range_text(ranges@[k]),
        decreases ranges@.len() - i,
    {
        out.push(print_range(ranges[i]));
        i = i + 1;
    }
    assert(out.deep_view() =~= range_texts(ranges@));
    out
}

/// The changed lines of a file in words.
pub open spec fn changed_lines_text(ranges: Seq<LineRange>) -> Seq<char> {
    if ranges.len() == 0 {
        "untracked or unknown line range"@
    } else {
        joined(range_texts(ranges), ", "@)
    }
}

fn changed_lines(ranges: &Vec<LineRange>) -> (r: String)
    ensures
        r@ == changed_lines_text(ranges@),
{
    if ranges.len() == 0 {
        owned("untracked or unknown line range")
    } else {
        join(&print_ranges(ranges), ", ")
    }
}

/// The line on a changed file.
pub open spec fn change_line_text(changed: ChangedFileModel) -> Seq<char> {
    let t = "- `"@ + changed.path + "`: "@ + changed_lines_text(changed.ranges) + "\n"@;
    t
}

fn change_line(changed: &ChangedFile) -> (r: String)
    ensures
        r@ == change_line_text(changed.deep_view()),
{
    let mut out = owned("- `");
    out.append(changed.path.as_str());
    out.append("`: ");
    out.append(changed_lines(&changed.ranges).as_str());
    out.append("\n");
    out
}

/// The lines on changed files.
pub open spec fn change_lines(items: Seq<ChangedFileModel>) -> Seq<char>
    decreases items.len(),
{
    if items.len() == 0 {
        Seq::empty()
    } else {
        change_lines(items.drop_last()) + change_line_text(items.last())
    }
}

fn push_change_lines(out: &mut String, items: &Vec<ChangedFile>)
    ensures
        final(out)@ == old(out)@ + change_lines(items.deep_view()),
{
    let ghost before = out@;
    let ghost all = items.deep_view();
    let mut i: usize = 0;
    assert(out@ == before + change_lines(all.take(0)));
    while i < items.len()
        invariant
            i <= items@.len(),
            all == items.deep_view(),
            out@ == before + change_lines(all.take(i as int)),
        decreases items@.len() - i,
    {
        proof {
            lemma_take_next(all, i as int);
        }
        let ghost so_far = out@;
        out.append(change_line(&items[i]).as_str());
        i = i + 1;
        assert(out@ == before + change_lines(all.take(i as int)));
    }
    proof {
        lemma_take_all(all);
    }
}

/// The line on a changed target.
pub open spec fn target_line_text(target: VerificationTargetModel) -> Seq<char> {
    let t = "- "@ + target.kind.name_text() + " `"@ + target.path + "`"@;
    let t = match target.symbol {
        Some(symbol) => {
            let t = t + " `"@ + symbol + "`"@;
            t
        },
        None => {
            t
        },
    };
    let t = t + " risk="@ + target.risk.name_text();
    let t = match target.line_range {
        Some(range) => {
            let t = t + " lines "@ + decimal(range.start as int) + "-"@ + decimal(range.end as int);
            t
        },
        None => {
            t
        },
    };
    let t = t + "\n"@;
    t
}

fn target_line(target: &VerificationTarget) -> (r: String)
    ensures
        r@ == target_line_text(target.deep_view()),
{
    let mut out = owned("- ");
    out.append(target.kind.name());
    out.append(" `");
    out.append(target.path.as_str());
    out.append("`");
    if let Some(symbol) = &target.symbol {
        out.append(" `");
        out.append(symbol.as_str());
        out.append("`");
    }
    out.append(" risk=");
    out.append(target.risk.name());
    if let Some(range) = &target.line_range {
        out.append(" lines ");
        out.append(print_usize(range.start).as_str());
        out.append("-");
        out.append(print_usize(range.end).as_str());
    }
    out.append("\n");
    out
}

/// The lines on changed targets.
pub open spec fn target_lines(items: Seq<VerificationTargetModel>) -> Seq<char>
    decreases items.len(),
{
    if items.len() == 0 {
        Seq::empty()
    } else {
        target_lines(items.drop_last()) + target_line_text(items.last())
    }
}

fn push_target_lines(out: &mut String, items: &Vec<VerificationTarget>)
    ensures
        final(out)@ == old(out)@ + target_lines(items.deep_view()),
{
    let ghost before = out@;
    let ghost all = items.deep_view();
    let mut i: usize = 0;
    assert(out@ == before + target_lines(all.take(0)));
    while i < items.len()
        invariant
            i <= items@.len(),
            all == items.deep_view(),
            out@ == before + target_lines(all.take(i as int)),
        decreases items@.len() - i,
    {
        proof {
            lemma_take_next(all, i as int);
        }
        let ghost so_far = out@;
        out.append(target_line(&items[i]).as_str());
        i = i + 1;
        assert(out@ == before + target_lines(all.take(i as int)));
    }
    proof {
        lemma_take_all(all);
    }
}

/// The digest of changes.
pub open spec fn digest_text(
    changed: Seq<ChangedFileModel>,
    targets: Seq<VerificationTargetModel>,
    diff: Seq<char>,
) -> Seq<char> {
    let t = "# AI Change Digest\n\nGenerated by veritas for AI-assisted review.\n\n"@;
    let t = if changed.len() == 0 {
        let t = t + "No changed files were detected.\n"@;
        t
    } else {
        let t = t + "## Changed Files\n\n"@ + change_lines(changed);
        t
    };
    let t = if targets.len() > 0 {
        let t = t + "\n## Changed Verification Targets\n\n"@ + target_lines(targets);
        t
    } else {
        t
    };
    let t = if trimmed(diff).len() > 0 {
        let t = t + "\n## Diff Excerpt\n\n```diff\n"@ + diff + "\n```\n"@;
        t
    } else {
        t
    };
    t
}

fn digest(
    changed: &Vec<ChangedFile>,
    targets: &Vec<VerificationTarget>,
    diff: &str,
) -> (r: String)
    ensures
        r@ == digest_text(changed.deep_view(), targets.deep_view(), diff@),
{
    assert(changed@.len() == changed.deep_view().len());
    assert(targets@.len() == targets.deep_view().len());
    let mut out = owned("# AI Change Digest\n\nGenerated by veritas for AI-assisted review.\n\n");
    if changed.len() == 0 {
        out.append("No changed files were detected.\n");
    } else {
        out.append("## Changed Files\n\n");
        push_change_lines(&mut out, changed);
    }
    if targets.len() > 0 {
        out.append("\n## Changed Verification Targets\n\n");
        push_target_lines(&mut out, targets);
    }
    if !trim(diff).as_str().is_empty() {
        out.append("\n## Diff Excerpt\n\n```diff\n");
        out.append(diff);
        out.append("\n```\n");
    }
    out
}

/// The artifact with the digest of changes.
pub open spec fn digest_artifact(
    changed: Seq<ChangedFileModel>,
    targets: Seq<VerificationTargetModel>,
    diff: Seq<char>,
) -> GeneratedArtifactModel {
    planned(
        "ai-change-digest"@,
        "changed"@,
        ArtifactKind::ChangeDigest,
        "changed:review"@,
        ".veritas/ai/change_digest.md"@,
        digest_text(changed, targets, diff),
        "AI-aware digest of changed files, symbols, risks, and diff context"@,
    )
}

/// The artifact with the digest of changes.
pub fn change_digest_artifact(
    changed: &Vec<ChangedFile>,
    targets: &Vec<VerificationTarget>,
    diff: &str,
) -> (r: GeneratedArtifact)
    ensures
        r.deep_view() == digest_artifact(changed.deep_view(), targets.deep_view(), diff@),
{
    plan_artifact(
        owned("ai-change-digest"),
        "changed",
        ArtifactKind::ChangeDigest,
        owned("changed:review"),
        owned(".veritas/ai/change_digest.md"),
        digest(changed, targets, diff),
        "AI-aware digest of changed files, symbols, risks, and diff context",
    )
}

/// The first 20000 characters of a diff.
pub open spec fn diff_excerpt_of(diff: Seq<char>) -> Seq<char> {
    if diff.len() > 20000 {
        diff.take(20000)
    } else {
        diff
    }
}

/// The first 20000 characters of a diff.
pub fn diff_excerpt(diff: &str) -> (r: String)
    ensures
        r@ == diff_excerpt_of(diff@),
{
    let chars = chars_of(diff);
    let n: usize = chars.len();
    if n > 20000 {
        let out = text_between(&chars, 0, 20000);
        assert(out@ =~= diff@.take(20000));
        out
    } else {
        owned(diff)
    }
}

/// How many targets are of high risk.
pub open spec fn high_risk_in(items: Seq<VerificationTargetModel>) -> int
    decreases items.len(),
{
    if items.len() == 0 {
        0
    } else {
        high_risk_in(items.drop_last()) + if items.last().risk == RiskLevel::High {
            1int
        } else {
            0int
        }
    }
}

/// How many targets are of high risk.
pub fn high_risk_targets(items: &Vec<VerificationTarget>) -> (r: usize)
    ensures
        r == high_risk_in(items.deep_view()),
        r <= items@.len(),
{
    let ghost all = items.deep_view();
    let mut n: usize = 0;
    let mut i: usize = 0;
    while i < items.len()
        invariant
            i <= items@.len(),
            n <= i,
            all == items.deep_view(),
            n == high_risk_in(all.take(i as int)),
        decreases items@.len() - i,
    {
        proof {
            lemma_take_next(all, i as int);
        }
        if items[i].risk == RiskLevel::High {
            n = n + 1;
        }
        i = i + 1;
    }
    proof {
        lemma_take_all(all);
    }
    n
}

/// What a coding agent is told.
pub open spec fn agent_feedback_text(
    changed: Seq<ChangedFileModel>,
    targets: Seq<VerificationTargetModel>,
) -> Seq<char> {
    let t = "# AI Agent Feedback\n\nUse this as copy-paste context for an AI coding agent.\n\n## Instructions\n\n- Focus only on the changed files and targets listed in `.veritas/ai/change_digest.md`.\n- Add or adjust tests before changing production code unless the digest shows an obvious implementation defect.\n- Prioritize boundary, invalid-input, auth/permission, money, parsing, serialization, and error-handling assertions.\n- Do not broaden verification scope beyond the configured budgets.\n- After edits, run `veritas verify --changed --profile ci`.\n\n## Summary\n\n- Changed files: `"@
        + decimal(changed.len() as int)
        + "`\n- Changed targets: `"@
        + decimal(targets.len() as int)
        + "`\n- High-risk targets: `"@
        + decimal(high_risk_in(targets))
        + "`\n"@;
    t
}

fn agent_feedback(changed: &Vec<ChangedFile>, targets: &Vec<VerificationTarget>) -> (r: String)
    ensures
        r@ == agent_feedback_text(changed.deep_view(), targets.deep_view()),
{
    assert(changed@.len() == changed.deep_view().len());
    assert(targets@.len() == targets.deep_view().len());
    let mut out = owned("# AI Agent Feedback\n\nUse this as copy-paste context for an AI coding agent.\n\n## Instructions\n\n- Focus only on the changed files and targets listed in `.veritas/ai/change_digest.md`.\n- Add or adjust tests before changing production code unless the digest shows an obvious implementation defect.\n- Prioritize boundary, invalid-input, auth/permission, money, parsing, serialization, and error-handling assertions.\n- Do not broaden verification scope beyond the configured budgets.\n- After edits, run `veritas verify --changed --profile ci`.\n\n## Summary\n\n- Changed files: `");
    out.append(print_usize(changed.len()).as_str());
    out.append("`\n- Changed targets: `");
    out.append(print_usize(targets.len()).as_str());
    out.append("`\n- High-risk targets: `");
    out.append(print_usize(high_risk_targets(targets)).as_str());
    out.append("`\n");
    out
}

/// The artifact with what a coding agent is told.
pub open spec fn agent_artifact(
    changed: Seq<ChangedFileModel>,
    targets: Seq<VerificationTargetModel>,
) -> GeneratedArtifactModel {
    planned(
        "ai-agent-feedback"@,
        "changed"@,
        ArtifactKind::AiFeedback,
        "changed:review"@,
        ".veritas/ai/agent_feedback.md"@,
        agent_feedback_text(changed, targets),
        "Copy-paste AI agent instructions based on changed targets"@,
    )
}

/// The artifact with what a coding agent is told.
pub fn ai_feedback_artifact(changed: &Vec<ChangedFile>, targets: &Vec<VerificationTarget>) -> (r:
    GeneratedArtifact)
    ensures
        r.deep_view() == agent_artifact(changed.deep_view(), targets.deep_view()),
{
    plan_artifact(
        owned("ai-agent-feedback"),
        "changed",
        ArtifactKind::AiFeedback,
        owned("changed:review"),
        owned(".veritas/ai/agent_feedback.md"),
        agent_feedback(changed, targets),
        "Copy-paste AI agent instructions based on changed targets",
    )
}

} // verus!
