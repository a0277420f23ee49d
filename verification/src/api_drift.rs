//! What is found where the signatures of public functions are compared with those of an
//! earlier state of the project.
use vstd::prelude::*;

use crate::api::{FailureModel, FailureSeverity, TargetKind, VerificationTargetModel};
use crate::json::{member, member_before, JsonModel};
use crate::order::{lemma_sorted_set_items, sorted_set, ByText};
use crate::replay::{lemma_by_name_keeps_values, lemma_value_under};
use crate::signatures::{
    by_name, is_text_map, known_signatures, names_of, replayable, signature_failures,
    signatures_of,
};

verus! {

/// Whether no two functions have the same id.
pub open spec fn has_distinct_functions(targets: Seq<VerificationTargetModel>) -> bool {
    forall|i: int, j: int|
        0 <= i < j < targets.len() && replayable(#[trigger] targets[i]) && replayable(
            #[trigger] targets[j],
        ) ==> targets[i].id != targets[j].id
}

proof fn lemma_signature_is_listed(targets: Seq<VerificationTargetModel>, t: int) -> (k: int)
    requires
        0 <= t < targets.len(),
        replayable(targets[t]),
    ensures
        0 <= k < signatures_of(targets).len(),
        signatures_of(targets)[k] == (targets[t].id, JsonModel::Text(targets[t].signature->0)),
    decreases targets.len(),
{
    if t < targets.len() - 1 {
        lemma_signature_is_listed(targets.drop_last(), t)
    } else {
        signatures_of(targets).len() - 1
    }
}

proof fn lemma_listed_is_a_signature(targets: Seq<VerificationTargetModel>, k: int) -> (t: int)
    requires
        0 <= k < signatures_of(targets).len(),
    ensures
        0 <= t < targets.len(),
        replayable(targets[t]),
        signatures_of(targets)[k] == (targets[t].id, JsonModel::Text(targets[t].signature->0)),
    decreases targets.len(),
{
    if k < signatures_of(targets.drop_last()).len() {
        lemma_listed_is_a_signature(targets.drop_last(), k)
    } else {
        targets.len() - 1
    }
}

/// The signature that is known of a function.
proof fn lemma_known_signature(targets: Seq<VerificationTargetModel>, t: int)
    requires
        has_distinct_functions(targets),
        0 <= t < targets.len(),
        replayable(targets[t]),
    ensures
        member(JsonModel::Object(by_name(signatures_of(targets))), targets[t].id) == Some(
            JsonModel::Text(targets[t].signature->0),
        ),
{
    let all = signatures_of(targets);
    let k = lemma_signature_is_listed(targets, t);
    let j = lemma_by_name_keeps_values(all, k);
    let u = lemma_listed_is_a_signature(targets, j);
    assert(targets[u].id == targets[t].id);
    if u < t {
        assert(replayable(targets[u]) && replayable(targets[t]));
    }
    if t < u {
        assert(replayable(targets[t]) && replayable(targets[u]));
    }
}

proof fn lemma_by_name_has_names(members: Seq<(Seq<char>, JsonModel)>, i: int) -> (j: int)
    requires
        0 <= i < by_name(members).len(),
    ensures
        0 <= j < members.len(),
        members[j].0 == by_name(members)[i].0,
        by_name(members)[i].1 == members[j].1,
{
    let names = names_of(members);
    let keys = sorted_set::<ByText>(names);
    lemma_sorted_set_items(names);
    assert(keys.contains(keys[i]));
    let k = choose|k: int| 0 <= k < names.len() && names[k] == keys[i];
    lemma_value_under(members, members.len() as int, k)
}

proof fn lemma_by_name_lists(members: Seq<(Seq<char>, JsonModel)>, j: int) -> (i: int)
    requires
        0 <= j < members.len(),
    ensures
        0 <= i < by_name(members).len(),
        by_name(members)[i].0 == members[j].0,
{
    let names = names_of(members);
    let keys = sorted_set::<ByText>(names);
    lemma_sorted_set_items(names);
    assert(names[j] == members[j].0);
    assert(names.contains(members[j].0));
    assert(keys.contains(members[j].0));
    choose|i: int| 0 <= i < keys.len() && keys[i] == members[j].0
}

/// Whether findings hold an error on a target.
pub open spec fn has_error_on(failures: Seq<FailureModel>, id: Seq<char>) -> bool {
    exists|f: int|
        0 <= f < failures.len() && (#[trigger] failures[f]).target_id == Some(id)
            && failures[f].severity == FailureSeverity::Error
}

/// Whether findings hold one on a target.
pub open spec fn is_named_in(failures: Seq<FailureModel>, id: Seq<char>) -> bool {
    exists|f: int| 0 <= f < failures.len() && (#[trigger] failures[f]).target_id == Some(id)
}

proof fn lemma_changes_are_errors(
    language: Seq<char>,
    known: JsonModel,
    current: Seq<(Seq<char>, JsonModel)>,
    i: int,
)
    requires
        0 <= i < current.len(),
        current[i].1 is Text,
        member(known, current[i].0) matches Some(JsonModel::Text(old_signature)) && old_signature
            != current[i].1->Text_0,
    ensures
        has_error_on(signature_failures(language, known, current), current[i].0),
    decreases current.len(),
{
    let rest = current.drop_last();
    let before = signature_failures(language, known, rest);
    let all = signature_failures(language, known, current);
    if i < rest.len() {
        lemma_changes_are_errors(language, known, rest, i);
        let f = choose|f: int|
            0 <= f < before.len() && (#[trigger] before[f]).target_id == Some(current[i].0)
                && before[f].severity == FailureSeverity::Error;
        assert(all[f] == before[f]);
    } else {
        assert(all[all.len() - 1].target_id == Some(current[i].0));
    }
}

proof fn lemma_errors_are_changes(
    language: Seq<char>,
    known: JsonModel,
    current: Seq<(Seq<char>, JsonModel)>,
    f: int,
) -> (i: int)
    requires
        0 <= f < signature_failures(language, known, current).len(),
    ensures
        0 <= i < current.len(),
        signature_failures(language, known, current)[f].target_id == Some(current[i].0),
        current[i].1 is Text,
        member(known, current[i].0) matches Some(JsonModel::Text(old_signature)) && old_signature
            != current[i].1->Text_0,
    decreases current.len(),
{
    let before = signature_failures(language, known, current.drop_last());
    if f < before.len() {
        lemma_errors_are_changes(language, known, current.drop_last(), f)
    } else {
        current.len() - 1
    }
}

/// Compared with the baseline of an earlier state, a function that had a signature and now has
/// another one is an error, and a function that kept its signature is not found.
pub proof fn law_changed_signatures_are_errors(
    language: Seq<char>,
    before: Seq<VerificationTargetModel>,
    after: Seq<VerificationTargetModel>,
    b: int,
    a: int,
)
    requires
        has_distinct_functions(before),
        has_distinct_functions(after),
        0 <= b < before.len(),
        0 <= a < after.len(),
        before[b].kind == TargetKind::Function,
        after[a].kind == TargetKind::Function,
        before[b].signature is Some,
        after[a].signature is Some,
        before[b].id == after[a].id,
    ensures
        ({
            let found = signature_failures(
                language,
                known_signatures(Some(JsonModel::Object(by_name(signatures_of(before))))),
                by_name(signatures_of(after)),
            );
            &&& before[b].signature != after[a].signature ==> has_error_on(found, after[a].id)
            &&& before[b].signature == after[a].signature ==> !is_named_in(found, after[a].id)
        }),
{
    let known = JsonModel::Object(by_name(signatures_of(before)));
    let listed = signatures_of(after);
    let current = by_name(listed);
    lemma_baselines_are_texts(before);
    lemma_known_signature(before, b);
    lemma_known_signature(after, a);
    let k = lemma_signature_is_listed(after, a);
    let i = lemma_by_name_lists(listed, k);
    lemma_signature_by_name(after, a, i);
    let found = signature_failures(language, known, current);
    if before[b].signature != after[a].signature {
        lemma_changes_are_errors(language, known, current, i);
    } else if is_named_in(found, after[a].id) {
        let f = choose|f: int|
            0 <= f < found.len() && (#[trigger] found[f]).target_id == Some(after[a].id);
        let c = lemma_errors_are_changes(language, known, current, f);
        lemma_signature_by_name(after, a, c);
    }
}

proof fn lemma_signature_by_name(targets: Seq<VerificationTargetModel>, t: int, i: int)
    requires
        has_distinct_functions(targets),
        0 <= t < targets.len(),
        replayable(targets[t]),
        0 <= i < by_name(signatures_of(targets)).len(),
        by_name(signatures_of(targets))[i].0 == targets[t].id,
    ensures
        by_name(signatures_of(targets))[i].1 == JsonModel::Text(targets[t].signature->0),
{
    let j = lemma_by_name_has_names(signatures_of(targets), i);
    let u = lemma_listed_is_a_signature(targets, j);
    assert(targets[u].id == targets[t].id);
    if u < t {
        assert(replayable(targets[u]) && replayable(targets[t]));
    }
    if t < u {
        assert(replayable(targets[t]) && replayable(targets[u]));
    }
}

proof fn lemma_baselines_are_texts(targets: Seq<VerificationTargetModel>)
    ensures
        is_text_map(JsonModel::Object(by_name(signatures_of(targets)))),
{
    let all = by_name(signatures_of(targets));
    assert forall|i: int| 0 <= i < all.len() implies (#[trigger] all[i]).1 is Text by {
        let j = lemma_by_name_has_names(signatures_of(targets), i);
        let t = lemma_listed_is_a_signature(targets, j);
    }
}

/// A function that the baseline does not know is not found, and nothing is found on what is no
/// function of the new state.
pub proof fn law_new_signatures_are_not_errors(
    language: Seq<char>,
    before: Seq<VerificationTargetModel>,
    after: Seq<VerificationTargetModel>,
    id: Seq<char>,
)
    requires
        (forall|b: int|
            0 <= b < before.len() && replayable(#[trigger] before[b]) ==> before[b].id != id) || (
        forall|a: int|
            0 <= a < after.len() && replayable(#[trigger] after[a]) ==> after[a].id != id),
    ensures
        !is_named_in(
            signature_failures(
                language,
                known_signatures(Some(JsonModel::Object(by_name(signatures_of(before))))),
                by_name(signatures_of(after)),
            ),
            id,
        ),
{
    let known = JsonModel::Object(by_name(signatures_of(before)));
    let current = by_name(signatures_of(after));
    let found = signature_failures(language, known, current);
    lemma_baselines_are_texts(before);
    if is_named_in(found, id) {
        let f = choose|f: int| 0 <= f < found.len() && (#[trigger] found[f]).target_id == Some(id);
        let c = lemma_errors_are_changes(language, known, current, f);
        let j = lemma_by_name_has_names(signatures_of(after), c);
        let a = lemma_listed_is_a_signature(after, j);
        assert(after[a].id == id);
        lemma_member_is_there(by_name(signatures_of(before)), id, by_name(
            signatures_of(before),
        ).len() as int);
        let m = choose|m: int|
            0 <= m < by_name(signatures_of(before)).len() && (#[trigger] by_name(
                signatures_of(before),
            )[m]).0 == id;
        let k = lemma_by_name_has_names(signatures_of(before), m);
        let b = lemma_listed_is_a_signature(before, k);
        assert(before[b].id == id);
        assert(false);
    }
}

proof fn lemma_member_is_there(members: Seq<(Seq<char>, JsonModel)>, name: Seq<char>, n: int)
    requires
        0 <= n <= members.len(),
        member_before(members, name, n) is Some,
    ensures
        exists|m: int| 0 <= m < members.len() && (#[trigger] members[m]).0 == name,
    decreases n,
{
    if n > 0 {
        if members[n - 1].0 == name {
            assert(members[n - 1].0 == name);
        } else {
            lemma_member_is_there(members, name, n - 1);
        }
    }
}

} // verus!
