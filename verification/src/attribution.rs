//! Mutant counts: adding them up, by label and over runs, and the percentages
//! that follow.
use vstd::prelude::*;

use crate::metrics::{
    append_attribution_entries, clone_attribution_entries, AttributionEntry, AttributionEntryModel,
    MutationAttribution, MutationMetrics, MutationMetricsModel, PropertyMetrics,
};
use crate::order::{sorted_set, to_sorted_set, ByText};
use crate::seqs::{lemma_take_all, lemma_take_next};
use crate::split::push_text;
use crate::text::same;

verus! {

// ---------------------------------------------------------------------------
// Sums
// ---------------------------------------------------------------------------
/// Mutant counts as numbers without a limit.
pub struct Tally {
    pub generated: int,
    pub runnable: int,
    pub executed: int,
    pub killed: int,
    pub survived: int,
    pub not_covered: int,
    pub timed_out: int,
    pub not_viable: int,
    pub skipped: int,
}

/// No mutants.
pub open spec fn no_tally() -> Tally {
    Tally {
        generated: 0,
        runnable: 0,
        executed: 0,
        killed: 0,
        survived: 0,
        not_covered: 0,
        timed_out: 0,
        not_viable: 0,
        skipped: 0,
    }
}

/// The counts with those of a label added.
pub open spec fn tally_plus(t: Tally, c: MutationAttribution) -> Tally {
    Tally {
        generated: t.generated + c.generated,
        runnable: t.runnable + c.runnable,
        executed: t.executed + c.executed,
        killed: t.killed + c.killed,
        survived: t.survived + c.survived,
        not_covered: t.not_covered + c.not_covered,
        timed_out: t.timed_out + c.timed_out,
        not_viable: t.not_viable + c.not_viable,
        skipped: t.skipped + c.skipped,
    }
}

/// Whether each count fits a machine integer.
pub open spec fn tally_fits(t: Tally) -> bool {
    &&& t.generated <= usize::MAX
    &&& t.runnable <= usize::MAX
    &&& t.executed <= usize::MAX
    &&& t.killed <= usize::MAX
    &&& t.survived <= usize::MAX
    &&& t.not_covered <= usize::MAX
    &&& t.timed_out <= usize::MAX
    &&& t.not_viable <= usize::MAX
    &&& t.skipped <= usize::MAX
}

/// Whether no count of the first is above that of the second.
pub open spec fn tally_le(a: Tally, b: Tally) -> bool {
    &&& a.generated <= b.generated
    &&& a.runnable <= b.runnable
    &&& a.executed <= b.executed
    &&& a.killed <= b.killed
    &&& a.survived <= b.survived
    &&& a.not_covered <= b.not_covered
    &&& a.timed_out <= b.timed_out
    &&& a.not_viable <= b.not_viable
    &&& a.skipped <= b.skipped
}

/// The counts as machine integers.
pub open spec fn tally_counts(t: Tally) -> MutationAttribution {
    MutationAttribution {
        generated: t.generated as usize,
        runnable: t.runnable as usize,
        executed: t.executed as usize,
        killed: t.killed as usize,
        survived: t.survived as usize,
        not_covered: t.not_covered as usize,
        timed_out: t.timed_out as usize,
        not_viable: t.not_viable as usize,
        skipped: t.skipped as usize,
    }
}

/// The counts of all entries under one label.
pub open spec fn label_total(entries: Seq<AttributionEntryModel>, label: Seq<char>) -> Tally
    decreases entries.len(),
{
    if entries.len() == 0 {
        no_tally()
    } else if entries.last().label == label {
        tally_plus(label_total(entries.drop_last(), label), entries.last().counts)
    } else {
        label_total(entries.drop_last(), label)
    }
}

/// Whether the counts of every label fit machine integers.
pub open spec fn entries_fit(entries: Seq<AttributionEntryModel>) -> bool {
    forall|label: Seq<char>| tally_fits(#[trigger] label_total(entries, label))
}

proof fn lemma_label_total_grows(
    entries: Seq<AttributionEntryModel>,
    label: Seq<char>,
    i: int,
)
    requires
        0 <= i <= entries.len(),
    ensures
        tally_le(label_total(entries.take(i), label), label_total(entries, label)),
    decreases entries.len() - i,
{
    if i == entries.len() {
        lemma_take_all(entries);
    } else {
        lemma_label_total_grows(entries, label, i + 1);
        lemma_take_next(entries, i);
    }
}

/// Adds up the counts of all entries under one label.
fn total_of_label(entries: &Vec<AttributionEntry>, label: &str) -> (r: MutationAttribution)
    requires
        tally_fits(label_total(entries.deep_view(), label@)),
    ensures
        r == tally_counts(label_total(entries.deep_view(), label@)),
{
    let ghost all = entries.deep_view();
    let mut sum = MutationAttribution::default();
    let mut i: usize = 0;
    assert(all.take(0).len() == 0);
    proof {
        lemma_label_total_grows(all, label@, 0);
    }
    while i < entries.len()
        invariant
            i <= entries@.len(),
            all == entries.deep_view(),
            tally_fits(label_total(all, label@)),
            sum == tally_counts(label_total(all.take(i as int), label@)),
            tally_le(no_tally(), label_total(all.take(i as int), label@)),
            tally_le(label_total(all.take(i as int), label@), label_total(all, label@)),
        decreases entries@.len() - i,
    {
        proof {
            lemma_take_next(all, i as int);
            lemma_label_total_grows(all, label@, i + 1);
        }
        if same(entries[i].label.as_str(), label) {
            let c = entries[i].counts;
            sum = MutationAttribution {
                generated: sum.generated + c.generated,
                runnable: sum.runnable + c.runnable,
                executed: sum.executed + c.executed,
                killed: sum.killed + c.killed,
                survived: sum.survived + c.survived,
                not_covered: sum.not_covered + c.not_covered,
                timed_out: sum.timed_out + c.timed_out,
                not_viable: sum.not_viable + c.not_viable,
                skipped: sum.skipped + c.skipped,
            };
        }
        i = i + 1;
    }
    proof {
        lemma_take_all(all);
    }
    sum
}

/// The labels of some entries, in their order.
pub open spec fn labels_of(entries: Seq<AttributionEntryModel>) -> Seq<Seq<char>> {
    entries.map_values(|e: AttributionEntryModel| e.label)
}

/// The entry of a label: all its counts added up.
pub open spec fn entry_of(
    entries: Seq<AttributionEntryModel>,
    label: Seq<char>,
) -> AttributionEntryModel {
    AttributionEntryModel { label, counts: tally_counts(label_total(entries, label)) }
}

/// The counts by label: one entry for each label, in the order of the labels,
/// with all its counts added up.
pub open spec fn attribution(entries: Seq<AttributionEntryModel>) -> Seq<AttributionEntryModel> {
    sorted_set::<ByText>(labels_of(entries)).map_values(
        |label: Seq<char>| entry_of(entries, label),
    )
}

/// The counts by label.
pub fn attribute(entries: &Vec<AttributionEntry>) -> (r: Vec<AttributionEntry>)
    requires
        entries_fit(entries.deep_view()),
    ensures
        r.deep_view() == attribution(entries.deep_view()),
{
    let ghost all = entries.deep_view();
    let mut names: Vec<String> = Vec::new();
    let mut i: usize = 0;
    assert(names.deep_view() =~= labels_of(all.take(0)));
    while i < entries.len()
        invariant
            i <= entries@.len(),
            all == entries.deep_view(),
            names.deep_view() == labels_of(all.take(i as int)),
        decreases entries@.len() - i,
    {
        push_text(&mut names, entries[i].label.clone());
        proof {
            lemma_take_next(all, i as int);
        }
        i = i + 1;
        assert(names.deep_view() =~= labels_of(all.take(i as int)));
    }
    proof {
        lemma_take_all(all);
    }
    let labels = to_sorted_set::<ByText>(&names);
    let ghost lv = labels.deep_view();
    let mut out: Vec<AttributionEntry> = Vec::new();
    let mut k: usize = 0;
    while k < labels.len()
        invariant
            k <= labels@.len(),
            all == entries.deep_view(),
            entries_fit(all),
            lv == labels.deep_view(),
            out@.len() == k,
            forall|j: int| 0 <= j < k ==> #[trigger] out@[j].deep_view() == entry_of(all, lv[j]),
        decreases labels@.len() - k,
    {
        assert(lv[k as int] == labels@[k as int]@);
        assert(tally_fits(label_total(all, lv[k as int])));
        let counts = total_of_label(entries, labels[k].as_str());
        out.push(AttributionEntry { label: labels[k].clone(), counts });
        k = k + 1;
    }
    assert(out.deep_view() =~= attribution(all));
    out
}

/// Whether the counts under a label fit machine integers, added up.
fn label_fits(entries: &Vec<AttributionEntry>, label: &str) -> (r: bool)
    ensures
        r == tally_fits(label_total(entries.deep_view(), label@)),
{
    let ghost all = entries.deep_view();
    let mut sum = WideCounts {
        generated: 0,
        runnable: 0,
        executed: 0,
        killed: 0,
        survived: 0,
        not_covered: 0,
        timed_out: 0,
        not_viable: 0,
        skipped: 0,
    };
    let mut i: usize = 0;
    while i < entries.len()
        invariant
            i <= entries@.len(),
            all == entries.deep_view(),
            sum.tally() == label_total(all.take(i as int), label@),
            sum.below(i as int * usize::MAX),
        decreases entries@.len() - i,
    {
        proof {
            lemma_take_next(all, i as int);
            lemma_wide_step(i);
        }
        if same(entries[i].label.as_str(), label) {
            let c = entries[i].counts;
            sum = WideCounts {
                generated: sum.generated + c.generated as u128,
                runnable: sum.runnable + c.runnable as u128,
                executed: sum.executed + c.executed as u128,
                killed: sum.killed + c.killed as u128,
                survived: sum.survived + c.survived as u128,
                not_covered: sum.not_covered + c.not_covered as u128,
                timed_out: sum.timed_out + c.timed_out as u128,
                not_viable: sum.not_viable + c.not_viable as u128,
                skipped: sum.skipped + c.skipped as u128,
            };
        }
        i = i + 1;
    }
    proof {
        lemma_take_all(all);
    }
    let max: u128 = usize::MAX as u128;
    sum.generated <= max && sum.runnable <= max && sum.executed <= max && sum.killed <= max
        && sum.survived <= max && sum.not_covered <= max && sum.timed_out <= max && sum.not_viable
        <= max && sum.skipped <= max
}

/// Counts that are wide enough for every sum.
struct WideCounts {
    generated: u128,
    runnable: u128,
    executed: u128,
    killed: u128,
    survived: u128,
    not_covered: u128,
    timed_out: u128,
    not_viable: u128,
    skipped: u128,
}

impl WideCounts {
    spec fn tally(&self) -> Tally {
        Tally {
            generated: self.generated as int,
            runnable: self.runnable as int,
            executed: self.executed as int,
            killed: self.killed as int,
            survived: self.survived as int,
            not_covered: self.not_covered as int,
            timed_out: self.timed_out as int,
            not_viable: self.not_viable as int,
            skipped: self.skipped as int,
        }
    }

    spec fn below(&self, limit: int) -> bool {
        &&& self.generated <= limit
        &&& self.runnable <= limit
        &&& self.executed <= limit
        &&& self.killed <= limit
        &&& self.survived <= limit
        &&& self.not_covered <= limit
        &&& self.timed_out <= limit
        &&& self.not_viable <= limit
        &&& self.skipped <= limit
    }
}

proof fn lemma_wide_step(i: usize)
    requires
        i < usize::MAX,
    ensures
        (i + 1) * usize::MAX == i * usize::MAX + usize::MAX,
        (i + 1) * usize::MAX <= u128::MAX,
{
    assert((i + 1) * usize::MAX == i * usize::MAX + usize::MAX) by (nonlinear_arith);
    assert((i + 1) * usize::MAX <= usize::MAX * usize::MAX) by (nonlinear_arith)
        requires
            i < usize::MAX,
    ;
    assert(usize::MAX * usize::MAX <= u128::MAX) by (nonlinear_arith)
        requires
            usize::MAX <= 0xffff_ffff_ffff_ffffu64,
    ;
}

/// Whether the counts of every label fit machine integers, added up.
pub fn attribution_fits(entries: &Vec<AttributionEntry>) -> (r: bool)
    ensures
        r == entries_fit(entries.deep_view()),
{
    let ghost all = entries.deep_view();
    let mut i: usize = 0;
    while i < entries.len()
        invariant
            i <= entries@.len(),
            all == entries.deep_view(),
            forall|k: int| 0 <= k < i ==> tally_fits(label_total(all, (#[trigger] all[k]).label)),
        decreases entries@.len() - i,
    {
        assert(all[i as int] == entries@[i as int].deep_view());
        if !label_fits(entries, entries[i].label.as_str()) {
            assert(!tally_fits(label_total(all, all[i as int].label)));
            return false;
        }
        i = i + 1;
    }
    assert forall|label: Seq<char>| tally_fits(#[trigger] label_total(all, label)) by {
        if exists|k: int| 0 <= k < all.len() && (#[trigger] all[k]).label == label {
        } else {
            law_absent_label_counts_nothing(all, label);
        }
    }
    true
}

/// Adds the counts of a second list, label by label, to those of the first.
pub fn merge_mutation_attribution(
    target: &mut Vec<AttributionEntry>,
    source: &Vec<AttributionEntry>,
)
    requires
        entries_fit(old(target).deep_view() + source.deep_view()),
    ensures
        final(target).deep_view() == attribution(old(target).deep_view() + source.deep_view()),
{
    let ghost before = target.deep_view();
    let mut all: Vec<AttributionEntry> = Vec::new();
    std::mem::swap(&mut all, target);
    let mut more = crate::metrics::clone_attribution_entries(source);
    crate::metrics::append_attribution_entries(&mut all, &mut more);
    *target = attribute(&all);
}

/// Nothing is counted under a label that no entry has.
pub proof fn law_absent_label_counts_nothing(
    entries: Seq<AttributionEntryModel>,
    label: Seq<char>,
)
    requires
        forall|i: int| 0 <= i < entries.len() ==> (#[trigger] entries[i]).label != label,
    ensures
        label_total(entries, label) == no_tally(),
    decreases entries.len(),
{
    if entries.len() > 0 {
        assert(entries[entries.len() - 1].label != label);
        assert forall|i: int| 0 <= i < entries.drop_last().len() implies (
        #[trigger] entries.drop_last()[i]).label != label by {
            assert(entries[i].label != label);
        }
        law_absent_label_counts_nothing(entries.drop_last(), label);
    }
}

/// The order in which entries come does not change what a label counts: two
/// lists one after the other count what each counts.
pub proof fn law_label_total_adds_up(
    a: Seq<AttributionEntryModel>,
    b: Seq<AttributionEntryModel>,
    label: Seq<char>,
)
    ensures
        label_total(a + b, label) == (Tally {
            generated: label_total(a, label).generated + label_total(b, label).generated,
            runnable: label_total(a, label).runnable + label_total(b, label).runnable,
            executed: label_total(a, label).executed + label_total(b, label).executed,
            killed: label_total(a, label).killed + label_total(b, label).killed,
            survived: label_total(a, label).survived + label_total(b, label).survived,
            not_covered: label_total(a, label).not_covered + label_total(b, label).not_covered,
            timed_out: label_total(a, label).timed_out + label_total(b, label).timed_out,
            not_viable: label_total(a, label).not_viable + label_total(b, label).not_viable,
            skipped: label_total(a, label).skipped + label_total(b, label).skipped,
        }),
    decreases b.len(),
{
    if b.len() == 0 {
        assert(a + b =~= a);
    } else {
        assert((a + b).drop_last() =~= a + b.drop_last());
        assert((a + b).last() == b.last());
        law_label_total_adds_up(a, b.drop_last(), label);
    }
}

// ---------------------------------------------------------------------------
// Percentages
// ---------------------------------------------------------------------------
/// The share of `part` in `whole` in whole percent, rounded down; nothing
/// where the whole is empty, and one hundred where the share fits no byte.
pub open spec fn share(part: int, whole: int) -> Option<u8> {
    if whole <= 0 {
        None
    } else if part * 100 / whole <= 255 {
        Some((part * 100 / whole) as u8)
    } else {
        Some(100)
    }
}

/// The share of `part` in `whole` in whole percent.
pub fn percent_share(part: usize, whole: usize) -> (r: Option<u8>)
    requires
        part * 100 <= usize::MAX,
    ensures
        r == share(part as int, whole as int),
{
    if whole == 0 {
        return None;
    }
    let value: usize = part * 100 / whole;
    if value <= 255 {
        Some(value as u8)
    } else {
        Some(100)
    }
}

/// A part of a whole is at most one hundred percent of it.
pub proof fn law_share_of_a_part(part: int, whole: int)
    requires
        0 <= part <= whole,
        0 < whole,
    ensures
        share(part, whole) matches Some(p) && p <= 100,
{
    assert(part * 100 / whole <= 100) by (nonlinear_arith)
        requires
            0 <= part <= whole,
            0 < whole,
    ;
}

/// A share is rounded down: it is the largest whole percentage that the part reaches.
pub proof fn law_shares_are_rounded_down(part: int, whole: int)
    requires
        0 <= part <= whole,
        0 < whole,
    ensures
        share(part, whole) matches Some(p) && p * whole <= part * 100 && part * 100 < (p + 1)
            * whole,
        part == whole ==> share(part, whole) == Some(100u8),
        part == 0 ==> share(part, whole) == Some(0u8),
{
    law_share_of_a_part(part, whole);
    let n = part * 100;
    let p = n / whole;
    assert(p * whole <= n < (p + 1) * whole) by (nonlinear_arith)
        requires
            0 < whole,
            0 <= n,
            p == n / whole,
    ;
    assert(0 <= p <= 100) by (nonlinear_arith)
        requires
            0 < whole,
            0 <= part <= whole,
            n == part * 100,
            p == n / whole,
    ;
    if part == whole {
        assert(p == 100) by (nonlinear_arith)
            requires
                0 < whole,
                n == whole * 100,
                p == n / whole,
        ;
    }
    if part == 0 {
        assert(p == 0) by (nonlinear_arith)
            requires
                0 < whole,
                n == 0,
                p == n / whole,
        ;
    }
}

/// Whether the counts are small enough for the percentages to be computed.
pub open spec fn percentages_fit(m: MutationMetricsModel) -> bool {
    &&& m.killed + m.survived + m.not_covered <= usize::MAX
    &&& (m.killed + m.survived) * 100 <= usize::MAX
}

/// The metrics with their percentages: killed of executed; killed of killed
/// and survived; those two of them and the uncovered.
pub open spec fn with_percentages(m: MutationMetricsModel) -> MutationMetricsModel {
    MutationMetricsModel {
        score_percent: share(m.killed as int, m.executed as int),
        efficacy_percent: share(m.killed as int, m.killed + m.survived),
        mutant_coverage_percent: share(
            m.killed + m.survived,
            m.killed + m.survived + m.not_covered,
        ),
        ..m
    }
}

/// Whether the counts are small enough for the percentages to be computed.
pub fn can_compute_percentages(m: &MutationMetrics) -> (r: bool)
    ensures
        r == percentages_fit(m.deep_view()),
{
    let judged: u128 = m.killed as u128 + m.survived as u128;
    judged + m.not_covered as u128 <= usize::MAX as u128 && judged * 100 <= usize::MAX as u128
}

/// Computes the percentages of the metrics.
pub fn finalize_mutation_percentages(mutation: &mut MutationMetrics)
    requires
        percentages_fit(old(mutation).deep_view()),
    ensures
        final(mutation).deep_view() == with_percentages(old(mutation).deep_view()),
{
    let judged: usize = mutation.killed + mutation.survived;
    mutation.score_percent = percent_share(mutation.killed, mutation.executed);
    mutation.efficacy_percent = percent_share(mutation.killed, judged);
    mutation.mutant_coverage_percent = percent_share(judged, judged + mutation.not_covered);
}

/// Efficacy and mutant coverage are percentages, and so is the score where no
/// more mutants were killed than were run.
pub proof fn law_percentages_are_at_most_one_hundred(m: MutationMetricsModel)
    ensures
        with_percentages(m).efficacy_percent matches Some(p) ==> p <= 100,
        with_percentages(m).mutant_coverage_percent matches Some(p) ==> p <= 100,
        m.killed <= m.executed ==> (with_percentages(m).score_percent matches Some(p) ==> p <= 100),
{
    if m.killed + m.survived > 0 {
        law_share_of_a_part(m.killed as int, m.killed + m.survived);
    }
    if m.killed + m.survived + m.not_covered > 0 {
        law_share_of_a_part(m.killed + m.survived, m.killed + m.survived + m.not_covered);
    }
    if 0 < m.executed && m.killed <= m.executed {
        law_share_of_a_part(m.killed as int, m.executed as int);
    }
}

/// The score is the share of the killed mutants in those that ran, the efficacy their share in
/// the killed and the survivors, and the mutant coverage the share of these two in all that
/// could have been reached; each in whole percent, rounded down, and unknown where there is
/// nothing to take a share of.
pub proof fn law_percentages_are_shares_of_mutants(m: MutationMetricsModel)
    requires
        m.killed <= m.executed,
    ensures
        ({
            let r = with_percentages(m);
            let judged = m.killed + m.survived;
            let all = judged + m.not_covered;
            &&& m.executed == 0 <==> r.score_percent is None
            &&& r.score_percent matches Some(p) ==> p * m.executed <= m.killed * 100 && m.killed
                * 100 < (p + 1) * m.executed
            &&& judged == 0 <==> r.efficacy_percent is None
            &&& r.efficacy_percent matches Some(p) ==> p * judged <= m.killed * 100 && m.killed * 100
                < (p + 1) * judged
            &&& all == 0 <==> r.mutant_coverage_percent is None
            &&& r.mutant_coverage_percent matches Some(p) ==> p * all <= judged * 100 && judged * 100
                < (p + 1) * all
        }),
{
    if m.executed > 0 {
        law_shares_are_rounded_down(m.killed as int, m.executed as int);
    }
    if m.killed + m.survived > 0 {
        law_shares_are_rounded_down(m.killed as int, m.killed + m.survived);
    }
    if m.killed + m.survived + m.not_covered > 0 {
        law_shares_are_rounded_down(m.killed + m.survived, m.killed + m.survived + m.not_covered);
    }
}

/// The weight of all checks of generated properties: a check against panics
/// counts once, one of determinism or an invariant twice.
pub open spec fn property_checks(p: PropertyMetrics) -> int {
    p.no_panic_properties + p.deterministic_properties * 2 + p.invariant_properties * 2
}

/// Whether the strength of the properties can be computed.
pub open spec fn strength_fits(p: PropertyMetrics) -> bool {
    property_checks(p) * 100 <= usize::MAX && p.generated_artifacts * 6 <= usize::MAX
}

/// The strength of generated properties: their checks against six for each
/// artifact, at most one hundred percent.
pub open spec fn property_strength(p: PropertyMetrics) -> Option<u8> {
    if p.generated_artifacts == 0 {
        None
    } else {
        let value = property_checks(p) * 100 / (p.generated_artifacts * 6);
        Some(
            if value > 100 {
                100
            } else {
                value as u8
            },
        )
    }
}

/// The strength is unknown without artifacts. Six checks for each artifact are full strength, of
/// which a check of determinism or an invariant is two, and fewer are their share of it, in
/// whole percent, rounded down.
pub proof fn law_strength_is_the_share_of_six_checks(p: PropertyMetrics)
    ensures
        p.generated_artifacts == 0 <==> property_strength(p) is None,
        property_strength(p) matches Some(percent) ==> {
            let checks = p.no_panic_properties + 2 * p.deterministic_properties + 2
                * p.invariant_properties;
            let full = 6 * p.generated_artifacts;
            &&& percent == 100 <==> checks >= full
            &&& checks < full ==> percent * full <= checks * 100 && checks * 100 < (percent + 1)
                * full
        },
{
    if p.generated_artifacts > 0 {
        let n = property_checks(p) * 100;
        let full = p.generated_artifacts * 6;
        let value = n / full;
        assert(value * full <= n < (value + 1) * full && 0 <= value) by (nonlinear_arith)
            requires
                0 < full,
                0 <= n,
                value == n / full,
        ;
        if property_checks(p) >= full {
            assert(value >= 100) by (nonlinear_arith)
                requires
                    0 < full,
                    n >= full * 100,
                    n < (value + 1) * full,
            ;
        } else {
            assert(value < 100) by (nonlinear_arith)
                requires
                    0 < full,
                    n < full * 100,
                    value * full <= n,
            ;
        }
    }
}

/// Whether the strength of the properties can be computed.
pub fn can_compute_strength(p: &PropertyMetrics) -> (r: bool)
    ensures
        r == strength_fits(*p),
{
    let checks: u128 = p.no_panic_properties as u128 + p.deterministic_properties as u128 * 2
        + p.invariant_properties as u128 * 2;
    checks * 100 <= usize::MAX as u128 && p.generated_artifacts as u128 * 6 <= usize::MAX as u128
}

/// The strength of generated properties.
pub fn property_strength_score(property: &PropertyMetrics) -> (r: Option<u8>)
    requires
        strength_fits(*property),
    ensures
        r == property_strength(*property),
{
    if property.generated_artifacts == 0 {
        return None;
    }
    let checks: usize = property.no_panic_properties + property.deterministic_properties * 2
        + property.invariant_properties * 2;
    let value: usize = checks * 100 / (property.generated_artifacts * 6);
    if value > 100 {
        Some(100)
    } else {
        Some(value as u8)
    }
}

} // verus!
