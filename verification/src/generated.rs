//! Generated tests: which findings come from them, and the slugs that name what
//! is derived from other records.
use vstd::prelude::*;

use crate::api::{
    push_failure, ArtifactKind, Failure, FailureModel, GeneratedArtifact, GeneratedArtifactModel,
};
use crate::seqs::{lemma_take_all, lemma_take_next};
use crate::text::{
    alnum, chars_of, contains, has_text, is_alnum, is_digit, is_lower, lower_char, same,
    to_lower_char,
};

verus! {

// ---------------------------------------------------------------------------
// Generated tests
// ---------------------------------------------------------------------------
/// Whether artifacts of this kind are run as generated tests.
pub open spec fn is_test_kind(kind: ArtifactKind) -> bool {
    kind == ArtifactKind::UnitTest || kind == ArtifactKind::PropertyTest || kind
        == ArtifactKind::FuzzHarness || kind == ArtifactKind::HarnessIndex
}

fn test_kind(kind: ArtifactKind) -> (r: bool)
    ensures
        r == is_test_kind(kind),
{
    kind == ArtifactKind::UnitTest || kind == ArtifactKind::PropertyTest || kind
        == ArtifactKind::FuzzHarness || kind == ArtifactKind::HarnessIndex
}

/// Whether a generated test is among the artifacts.
pub open spec fn holds_generated_test(items: Seq<GeneratedArtifactModel>) -> bool {
    exists|k: int| 0 <= k < items.len() && is_test_kind((#[trigger] items[k]).kind)
}

fn has_generated_test(items: &Vec<GeneratedArtifact>) -> (r: bool)
    ensures
        r == holds_generated_test(items.deep_view()),
{
    let ghost all = items.deep_view();
    let mut i: usize = 0;
    while i < items.len()
        invariant
            i <= items@.len(),
            all == items.deep_view(),
            forall|k: int| 0 <= k < i ==> !(is_test_kind((#[trigger] all[k]).kind)),
        decreases items@.len() - i,
    {
        assert(all[i as int] == items@[i as int].deep_view());
        if test_kind(items[i].kind) {
            return true;
        }
        i = i + 1;
    }
    false
}

/// The place of the first artifact with this id.
pub open spec fn artifact_from(
    items: Seq<GeneratedArtifactModel>,
    id: Seq<char>,
    from: int,
) -> Option<int>
    decreases items.len() - from,
{
    if from < 0 || from >= items.len() {
        None
    } else if items[from].id == id {
        Some(from)
    } else {
        artifact_from(items, id, from + 1)
    }
}

/// The place of the first artifact with this id.
pub fn find_artifact(items: &Vec<GeneratedArtifact>, id: &str) -> (r: Option<usize>)
    ensures
        r matches Some(i) ==> i < items@.len() && artifact_from(items.deep_view(), id@, 0) == Some(
            i as int,
        ),
        r is None ==> artifact_from(items.deep_view(), id@, 0) is None,
{
    let ghost all = items.deep_view();
    let mut i: usize = 0;
    while i < items.len()
        invariant
            i <= items@.len(),
            all == items.deep_view(),
            artifact_from(all, id@, 0) == artifact_from(all, id@, i as int),
        decreases items@.len() - i,
    {
        assert(all[i as int] == items@[i as int].deep_view());
        if same(items[i].id.as_str(), id) {
            return Some(i);
        }
        i = i + 1;
    }
    None
}

/// Whether a finding comes from a generated test: from a fuzz target, from a test
/// command while generated tests are there, or from a generated artifact.
pub open spec fn generated_test_failure(
    artifacts: Seq<GeneratedArtifactModel>,
    finding: FailureModel,
) -> bool {
    ||| has_text(finding.message, "fuzz target"@)
    ||| has_text(finding.command, "-fuzz="@)
    ||| (has_text(finding.message, "cargo test failed"@) || has_text(
        finding.message,
        "go test failed"@,
    )) && holds_generated_test(artifacts)
    ||| finding.artifact_id matches Some(id) && artifact_from(artifacts, id, 0) matches Some(i) && (
    is_test_kind(artifacts[i].kind) || artifacts[i].kind == ArtifactKind::RegressionTest)
}

/// Whether a finding comes from a generated test.
pub fn finding_is_generated_test_failure(
    artifacts: &Vec<GeneratedArtifact>,
    finding: &Failure,
) -> (r: bool)
    ensures
        r == generated_test_failure(artifacts.deep_view(), finding.deep_view()),
{
    if contains(finding.message.as_str(), "fuzz target") || contains(
        finding.command.as_str(),
        "-fuzz=",
    ) {
        return true;
    }
    if (contains(finding.message.as_str(), "cargo test failed") || contains(
        finding.message.as_str(),
        "go test failed",
    )) && has_generated_test(artifacts) {
        return true;
    }
    match &finding.artifact_id {
        Some(id) => match find_artifact(artifacts, id.as_str()) {
            Some(i) => {
                assert(artifacts.deep_view()[i as int] == artifacts@[i as int].deep_view());
                test_kind(artifacts[i].kind) || artifacts[i].kind == ArtifactKind::RegressionTest
            },
            None => false,
        },
        None => false,
    }
}

/// The findings that come from generated tests.
pub open spec fn generated_failures_of(
    artifacts: Seq<GeneratedArtifactModel>,
    items: Seq<FailureModel>,
) -> Seq<FailureModel>
    decreases items.len(),
{
    if items.len() == 0 {
        Seq::empty()
    } else if generated_test_failure(artifacts, items.last()) {
        generated_failures_of(artifacts, items.drop_last()).push(items.last())
    } else {
        generated_failures_of(artifacts, items.drop_last())
    }
}

/// The findings that come from generated tests.
pub fn generated_failures(
    artifacts: &Vec<GeneratedArtifact>,
    items: &Vec<Failure>,
) -> (r: Vec<Failure>)
    ensures
        r.deep_view() == generated_failures_of(artifacts.deep_view(), items.deep_view()),
{
    let mut out: Vec<Failure> = Vec::new();
    let ghost all = items.deep_view();
    let mut i: usize = 0;
    assert(out.deep_view() == generated_failures_of(artifacts.deep_view(), all.take(0)));
    while i < items.len()
        invariant
            i <= items@.len(),
            all == items.deep_view(),
            out.deep_view() == generated_failures_of(artifacts.deep_view(), all.take(i as int)),
        decreases items@.len() - i,
    {
        proof {
            lemma_take_next(all, i as int);
        }
        if finding_is_generated_test_failure(artifacts, &items[i]) {
            push_failure(&mut out, items[i].clone());
        }
        i = i + 1;
    }
    proof {
        lemma_take_all(all);
    }
    out
}

// ---------------------------------------------------------------------------
// Slugs
// ---------------------------------------------------------------------------
/// The runs of letters and digits of a text, in lower case, with one hyphen
/// between them.
pub open spec fn slug(s: Seq<char>) -> Seq<char>
    decreases s.len(),
{
    if s.len() == 0 {
        s
    } else {
        let before = slug(s.drop_last());
        if !is_alnum(s.last()) {
            before
        } else if before.len() > 0 && !is_alnum(s[s.len() - 2]) {
            before.push('-').push(lower_char(s.last()))
        } else {
            before.push(lower_char(s.last()))
        }
    }
}

/// The runs of letters and digits of a text, in lower case, with one hyphen
/// between them.
pub fn stable_slug(value: &str) -> (r: String)
    ensures
        r@ == slug(value@),
{
    let chars = chars_of(value);
    let mut out = String::new();
    let mut some = false;
    let mut gap = false;
    let mut i: usize = 0;
    assert(value@.take(0).len() == 0);
    assert(out@ =~= Seq::<char>::empty());
    while i < chars.len()
        invariant
            i <= chars@.len(),
            chars@ == value@,
            out@ == slug(value@.take(i as int)),
            some == (out@.len() > 0),
            gap == (i > 0 && !is_alnum(value@[i - 1])),
            i == 0 ==> !some,
        decreases chars@.len() - i,
    {
        let c = chars[i];
        proof {
            lemma_take_next(value@, i as int);
            if i > 0 {
                assert(value@.take(i + 1)[i - 1] == value@[i - 1]);
            }
        }
        if alnum(c) {
            if some && gap {
                out.push('-');
            }
            out.push(to_lower_char(c));
            some = true;
            gap = false;
        } else {
            gap = true;
        }
        i = i + 1;
    }
    proof {
        lemma_take_all(value@);
    }
    out
}

/// Whether a character may stand in a slug.
pub open spec fn slug_char(c: char) -> bool {
    c == '-' || is_digit(c) || is_lower(c)
}

/// A slug holds lower-case letters, digits and hyphens, no hyphen at either end
/// and no two hyphens in a row.
pub proof fn law_slug_is_plain(s: Seq<char>)
    ensures
        forall|i: int| 0 <= i < slug(s).len() ==> slug_char(#[trigger] slug(s)[i]),
        slug(s).len() > 0 ==> slug(s)[0] != '-' && slug(s).last() != '-',
        forall|i: int|
            0 <= i < slug(s).len() - 1 && #[trigger] slug(s)[i] == '-' ==> slug(s)[i + 1] != '-',
    decreases s.len(),
{
    if s.len() > 0 {
        law_slug_is_plain(s.drop_last());
        let before = slug(s.drop_last());
        let r = slug(s);
        assert forall|i: int| 0 <= i < r.len() - 1 && #[trigger] r[i] == '-' implies r[i + 1]
            != '-' by {
            if i + 1 < before.len() {
                assert(before[i] == '-');
            }
        }
        assert forall|i: int| 0 <= i < r.len() implies slug_char(#[trigger] r[i]) by {
            if i < before.len() {
                assert(slug_char(before[i]));
            }
        }
    }
}

/// The slug of a slug is that slug.
pub proof fn law_slug_is_idempotent(s: Seq<char>)
    ensures
        slug(slug(s)) == slug(s),
{
    law_slug_is_plain(s);
    lemma_plain_text_is_its_slug(slug(s));
}

proof fn lemma_plain_text_is_its_slug(t: Seq<char>)
    requires
        forall|i: int| 0 <= i < t.len() ==> slug_char(#[trigger] t[i]),
        t.len() > 0 ==> t[0] != '-',
        forall|i: int| 0 <= i < t.len() - 1 && #[trigger] t[i] == '-' ==> t[i + 1] != '-',
    ensures
        t.len() > 0 && t.last() == '-' ==> slug(t) == t.drop_last(),
        !(t.len() > 0 && t.last() == '-') ==> slug(t) == t,
    decreases t.len(),
{
    if t.len() > 0 {
        let b = t.drop_last();
        assert forall|i: int| 0 <= i < b.len() - 1 && #[trigger] b[i] == '-' implies b[i + 1]
            != '-' by {
            assert(t[i] == '-');
        }
        assert forall|i: int| 0 <= i < b.len() implies slug_char(#[trigger] b[i]) by {
            assert(slug_char(t[i]));
        }
        lemma_plain_text_is_its_slug(b);
        assert(slug_char(t[t.len() - 1]));
        if b.len() > 0 {
            assert(slug_char(t[t.len() - 2]));
            assert(b.last() == t[t.len() - 2]);
            if b.last() == '-' {
                assert(t[t.len() - 2] == '-');
                assert(b.len() > 1);
                assert(slug(t) =~= t);
            } else {
                assert(slug(t) =~= if t.last() == '-' {
                    b
                } else {
                    t
                });
            }
        } else {
            assert(slug(b) =~= b);
            assert(slug(t) =~= t);
        }
    }
}

} // verus!
