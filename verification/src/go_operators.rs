//! What the changes of Go functions do to the program: which operators, literals and
//! statements get a change, and that none of them leaves the program as it is.
use vstd::prelude::*;

use crate::api::{ArtifactKind, GeneratedArtifactModel};
use crate::go_mutation::{
    about, asked_for, assignment_swap, binary_swap, changes_at, changes_from, changes_in_file,
    changes_of, functions_asked_for, functions_of_path, literal_swap, operator_from, operator_in,
    outside, return_swap, within, MutationCandidateModel, OperatorKind,
};
use crate::go_source::{behind, behind_from, go_tree, text_of_node, GoFunctionModel, GoNodeModel};
use crate::offsets::{
    byte_len, law_replacement_changes_the_text, lemma_byte_len_sum, lemma_piece_bytes,
    lemma_prefix_bytes, piece, piece_replaced,
};
use crate::paths::{package_dir_path, same_path};
use crate::split::{trimmed, trimmed_start};
use crate::text::{
    find, is_space, lemma_find_is_first, lemma_rfind_char_before, occurs_at, rcut_at,
    without_prefix,
};

verus! {

// ---------------------------------------------------------------------------
// What goes in place of what
// ---------------------------------------------------------------------------
/// What a comparison of two numbers says in Go.
pub open spec fn comparison_of(operator: Seq<char>, a: int, b: int) -> Option<bool> {
    if operator == seq!['=', '='] {
        Some(a == b)
    } else if operator == seq!['!', '='] {
        Some(a != b)
    } else if operator == seq!['<'] {
        Some(a < b)
    } else if operator == seq!['<', '='] {
        Some(a <= b)
    } else if operator == seq!['>'] {
        Some(a > b)
    } else if operator == seq!['>', '='] {
        Some(a >= b)
    } else {
        None
    }
}

proof fn lemma_binary_operators()
    ensures
        "=="@ == seq!['=', '='],
        "!="@ == seq!['!', '='],
        ">="@ == seq!['>', '='],
        "<="@ == seq!['<', '='],
        ">"@ == seq!['>'],
        "<"@ == seq!['<'],
        "&&"@ == seq!['&', '&'],
        "||"@ == seq!['|', '|'],
        "+"@ == seq!['+'],
        "-"@ == seq!['-'],
        "*"@ == seq!['*'],
        "/"@ == seq!['/'],
        "%"@ == seq!['%'],
        "&"@ == seq!['&'],
        "|"@ == seq!['|'],
        "^"@ == seq!['^'],
        "&^"@ == seq!['&', '^'],
        "<<"@ == seq!['<', '<'],
        ">>"@ == seq!['>', '>'],
{
    reveal_strlit("==");
    reveal_strlit("!=");
    reveal_strlit(">=");
    reveal_strlit("<=");
    reveal_strlit(">");
    reveal_strlit("<");
    reveal_strlit("&&");
    reveal_strlit("||");
    reveal_strlit("+");
    reveal_strlit("-");
    reveal_strlit("*");
    reveal_strlit("/");
    reveal_strlit("%");
    reveal_strlit("&");
    reveal_strlit("|");
    reveal_strlit("^");
    reveal_strlit("&^");
    reveal_strlit("<<");
    reveal_strlit(">>");
    assert("=="@ =~= seq!['=', '=']);
    assert("!="@ =~= seq!['!', '=']);
    assert(">="@ =~= seq!['>', '=']);
    assert("<="@ =~= seq!['<', '=']);
    assert(">"@ =~= seq!['>']);
    assert("<"@ =~= seq!['<']);
    assert("&&"@ =~= seq!['&', '&']);
    assert("||"@ =~= seq!['|', '|']);
    assert("+"@ =~= seq!['+']);
    assert("-"@ =~= seq!['-']);
    assert("*"@ =~= seq!['*']);
    assert("/"@ =~= seq!['/']);
    assert("%"@ =~= seq!['%']);
    assert("&"@ =~= seq!['&']);
    assert("|"@ =~= seq!['|']);
    assert("^"@ =~= seq!['^']);
    assert("&^"@ =~= seq!['&', '^']);
    assert("<<"@ =~= seq!['<', '<']);
    assert(">>"@ =~= seq!['>', '>']);
}

/// What tells two operators apart: how long they are, and their first two characters.
spec fn key_of(operator: Seq<char>) -> (nat, char, char) {
    (
        operator.len(),
        if operator.len() > 0 {
            operator[0]
        } else {
            ' '
        },
        if operator.len() > 1 {
            operator[1]
        } else {
            ' '
        },
    )
}

proof fn lemma_keys_of_binary_operators()
    ensures
        key_of("=="@) == (2nat, '=', '='),
        key_of("!="@) == (2nat, '!', '='),
        key_of(">="@) == (2nat, '>', '='),
        key_of("<="@) == (2nat, '<', '='),
        key_of(">"@) == (1nat, '>', ' '),
        key_of("<"@) == (1nat, '<', ' '),
        key_of("&&"@) == (2nat, '&', '&'),
        key_of("||"@) == (2nat, '|', '|'),
        key_of("+"@) == (1nat, '+', ' '),
        key_of("-"@) == (1nat, '-', ' '),
        key_of("*"@) == (1nat, '*', ' '),
        key_of("/"@) == (1nat, '/', ' '),
        key_of("%"@) == (1nat, '%', ' '),
        key_of("&"@) == (1nat, '&', ' '),
        key_of("|"@) == (1nat, '|', ' '),
        key_of("^"@) == (1nat, '^', ' '),
        key_of("&^"@) == (2nat, '&', '^'),
        key_of("<<"@) == (2nat, '<', '<'),
        key_of(">>"@) == (2nat, '>', '>'),
{
    lemma_binary_operators();
}

/// A changed comparison of two numbers says something else exactly where the change is meant
/// to be noticed: `<`, `<=`, `>` and `>=` where the numbers are equal, `==` and `!=`
/// everywhere.
pub proof fn law_changed_comparisons_move_the_boundary(
    operator: Seq<char>,
    to: Seq<char>,
    a: int,
    b: int,
)
    requires
        comparison_of(operator, a, b) is Some,
        binary_swap(operator) == Some(to),
    ensures
        comparison_of(to, a, b) is Some,
        operator == seq!['=', '='] || operator == seq!['!', '='] ==> comparison_of(to, a, b)
            != comparison_of(operator, a, b),
        !(operator == seq!['=', '='] || operator == seq!['!', '=']) ==> (comparison_of(to, a, b)
            != comparison_of(operator, a, b) <==> a == b),
{
    lemma_binary_operators();
    lemma_keys_of_binary_operators();
}

/// Every binary operator that is changed is changed to another one: a comparison to the one
/// that differs in the boundary, an equality, a boolean connector, a sum, a product and a
/// shift to their opposites, a remainder to a product, and bits to other bits.
pub proof fn law_operators_are_changed_to_others(operator: Seq<char>)
    ensures
        binary_swap(operator) != Some(operator),
        binary_swap("<="@) == Some("<"@),
        binary_swap("<"@) == Some("<="@),
        binary_swap(">="@) == Some(">"@),
        binary_swap(">"@) == Some(">="@),
        binary_swap("=="@) == Some("!="@),
        binary_swap("!="@) == Some("=="@),
        binary_swap("&&"@) == Some("||"@),
        binary_swap("||"@) == Some("&&"@),
        binary_swap("+"@) == Some("-"@),
        binary_swap("-"@) == Some("+"@),
        binary_swap("*"@) == Some("/"@),
        binary_swap("/"@) == Some("*"@),
        binary_swap("%"@) == Some("*"@),
        binary_swap("&"@) == Some("|"@),
        binary_swap("|"@) == Some("&"@),
        binary_swap("^"@) == Some("&"@),
        binary_swap("&^"@) == Some("|"@),
        binary_swap("<<"@) == Some(">>"@),
        binary_swap(">>"@) == Some("<<"@),
        binary_swap(operator) is Some ==> operator.len() == 1 || operator.len() == 2,
{
    lemma_keys_of_binary_operators();
}

/// Every operator that assigns is changed as the operator that it is made of: the operator
/// before the equals sign is exchanged, and the sign stays.
pub proof fn law_assignments_are_changed_as_their_operators(operator: Seq<char>)
    ensures
        assignment_swap(operator) != Some(operator),
        assignment_swap(operator) matches Some(to) ==> operator.len() > 1 && operator.last() == '='
            && to.len() > 1 && to.last() == '=' && binary_swap(operator.drop_last()) == Some(
            to.drop_last(),
        ),
        assignment_swap("+="@) == Some("-="@),
        assignment_swap("-="@) == Some("+="@),
        assignment_swap("*="@) == Some("/="@),
        assignment_swap("/="@) == Some("*="@),
        assignment_swap("%="@) == Some("*="@),
        assignment_swap("&="@) == Some("|="@),
        assignment_swap("|="@) == Some("&="@),
        assignment_swap("^="@) == Some("&="@),
        assignment_swap("&^="@) == Some("|="@),
        assignment_swap("<<="@) == Some(">>="@),
        assignment_swap(">>="@) == Some("<<="@),
{
    lemma_assigning_operators();
    law_operators_are_changed_to_others(operator);
    lemma_binary_operators();
    lemma_keys_of_binary_operators();
    assert("+="@.drop_last() =~= "+"@);
    assert("-="@.drop_last() =~= "-"@);
    assert("*="@.drop_last() =~= "*"@);
    assert("/="@.drop_last() =~= "/"@);
    assert("%="@.drop_last() =~= "%"@);
    assert("&="@.drop_last() =~= "&"@);
    assert("|="@.drop_last() =~= "|"@);
    assert("^="@.drop_last() =~= "^"@);
    assert("&^="@.drop_last() =~= "&^"@);
    assert("<<="@.drop_last() =~= "<<"@);
    assert(">>="@.drop_last() =~= ">>"@);
}

proof fn lemma_assigning_operators()
    ensures
        "+="@ == seq!['+', '='],
        "-="@ == seq!['-', '='],
        "*="@ == seq!['*', '='],
        "/="@ == seq!['/', '='],
        "%="@ == seq!['%', '='],
        "&="@ == seq!['&', '='],
        "|="@ == seq!['|', '='],
        "^="@ == seq!['^', '='],
        "&^="@ == seq!['&', '^', '='],
        "<<="@ == seq!['<', '<', '='],
        ">>="@ == seq!['>', '>', '='],
        key_of("+="@) == (2nat, '+', '='),
        key_of("-="@) == (2nat, '-', '='),
        key_of("*="@) == (2nat, '*', '='),
        key_of("/="@) == (2nat, '/', '='),
        key_of("%="@) == (2nat, '%', '='),
        key_of("&="@) == (2nat, '&', '='),
        key_of("|="@) == (2nat, '|', '='),
        key_of("^="@) == (2nat, '^', '='),
        key_of("&^="@) == (3nat, '&', '^'),
        key_of("<<="@) == (3nat, '<', '<'),
        key_of(">>="@) == (3nat, '>', '>'),
{
    reveal_strlit("+=");
    reveal_strlit("-=");
    reveal_strlit("*=");
    reveal_strlit("/=");
    reveal_strlit("%=");
    reveal_strlit("&=");
    reveal_strlit("|=");
    reveal_strlit("^=");
    reveal_strlit("&^=");
    reveal_strlit("<<=");
    reveal_strlit(">>=");
    assert("+="@ =~= seq!['+', '=']);
    assert("-="@ =~= seq!['-', '=']);
    assert("*="@ =~= seq!['*', '=']);
    assert("/="@ =~= seq!['/', '=']);
    assert("%="@ =~= seq!['%', '=']);
    assert("&="@ =~= seq!['&', '=']);
    assert("|="@ =~= seq!['|', '=']);
    assert("^="@ =~= seq!['^', '=']);
    assert("&^="@ =~= seq!['&', '^', '=']);
    assert("<<="@ =~= seq!['<', '<', '=']);
    assert(">>="@ =~= seq!['>', '>', '=']);
}

/// A literal and an expression that is returned are changed to others: a truth value to the
/// other one, zero to one and one to zero, an error to none, and a text to another.
pub proof fn law_values_are_changed_to_others(value: Seq<char>)
    ensures
        literal_swap(value) != Some(value),
        literal_swap("true"@) == Some("false"@),
        literal_swap("false"@) == Some("true"@),
        literal_swap("0"@) == Some("1"@),
        literal_swap("1"@) == Some("0"@),
        return_swap(value) matches Some(swap) ==> swap.1 != value,
        return_swap("true"@) matches Some(swap) && swap.1 == "false"@,
        return_swap("false"@) matches Some(swap) && swap.1 == "true"@,
        return_swap("err"@) matches Some(swap) && swap.1 == "nil"@,
        return_swap("0"@) matches Some(swap) && swap.1 == "1"@,
        return_swap("1"@) matches Some(swap) && swap.1 == "0"@,
        return_swap("\"\""@) matches Some(swap) && swap.1 != "\"\""@,
        return_swap("\"anonymous\""@) matches Some(swap) && swap.1 == "\"\""@,
        return_swap(value) is Some ==> value.len() > 0,
{
    reveal_strlit("true");
    reveal_strlit("false");
    reveal_strlit("err");
    reveal_strlit("nil");
    reveal_strlit("0");
    reveal_strlit("1");
    reveal_strlit("\"\"");
    reveal_strlit("\"");
    reveal_strlit("\"anonymous\"");
    reveal_strlit("\"veritas-mutant\"");
    assert("true"@.len() == 4);
    assert("false"@.len() == 5);
    assert("err"@.len() == 3);
    assert("nil"@.len() == 3);
    assert("err"@[0] == 'e');
    assert("nil"@[0] == 'n');
    assert("0"@.len() == 1);
    assert("1"@.len() == 1);
    assert("0"@[0] == '0');
    assert("1"@[0] == '1');
    assert("\"\""@.len() == 2);
    assert("\"\""@[1] == '"');
    assert("\"anonymous\""@.len() == 11);
    assert("\"veritas-mutant\""@.len() == 16);
}

// ---------------------------------------------------------------------------
// No change leaves the program as it is
// ---------------------------------------------------------------------------
/// Whether a change puts something else in the place that it names, where the place holds
/// anything.
spec fn is_a_change(candidate: MutationCandidateModel) -> bool {
    candidate.start_byte < candidate.end_byte ==> candidate.to != candidate.from
}

spec fn are_changes(candidates: Seq<MutationCandidateModel>) -> bool {
    forall|c: int| 0 <= c < candidates.len() ==> is_a_change(#[trigger] candidates[c])
}

proof fn lemma_branch_words()
    ensures
        "break"@ != "continue"@,
        "++"@ != "--"@,
        "!"@.len() == 1,
        "-"@.len() == 1,
        "^"@.len() == 1,
{
    reveal_strlit("break");
    reveal_strlit("continue");
    reveal_strlit("++");
    reveal_strlit("--");
    reveal_strlit("!");
    reveal_strlit("-");
    reveal_strlit("^");
    assert("break"@.len() == 5);
    assert("continue"@.len() == 8);
    assert("++"@[0] == '+');
    assert("--"@[0] == '-');
}

proof fn lemma_changes_at_are_changes(
    nodes: Seq<GoNodeModel>,
    source: Seq<char>,
    function: GoFunctionModel,
    i: int,
)
    ensures
        changes_at(nodes, source, function, i) matches Some(own) ==> are_changes(own),
{
    lemma_branch_words();
    if let Some(k) = operator_in(nodes, i, OperatorKind::Binary) {
        law_operators_are_changed_to_others(nodes[k].kind);
    }
    if let Some(k) = operator_in(nodes, i, OperatorKind::Assignment) {
        law_assignments_are_changed_as_their_operators(nodes[k].kind);
    }
    if let Some(text) = text_of_node(source, nodes[i]) {
        lemma_piece_bytes(source, nodes[i].start_byte as int, nodes[i].end_byte as int);
        law_values_are_changed_to_others(trimmed(text));
        if let Some(rest) = without_prefix(trimmed(text), "return"@) {
            law_values_are_changed_to_others(trimmed(rest));
        }
    }
}

proof fn lemma_changes_from_are_changes(
    nodes: Seq<GoNodeModel>,
    source: Seq<char>,
    function: GoFunctionModel,
    i: int,
)
    requires
        0 <= i,
    ensures
        changes_from(nodes, source, function, i) matches Some(all) ==> are_changes(all),
    decreases nodes.len() - i,
{
    if i < nodes.len() {
        lemma_behind(nodes, nodes[i].depth, i + 1);
        if outside(nodes[i], function) {
            lemma_changes_from_are_changes(nodes, source, function, behind(nodes, i));
        } else {
            lemma_changes_at_are_changes(nodes, source, function, i);
            lemma_changes_from_are_changes(nodes, source, function, i + 1);
        }
    }
}

proof fn lemma_behind(nodes: Seq<GoNodeModel>, depth: u32, from: int)
    requires
        0 <= from <= nodes.len(),
    ensures
        from <= behind_from(nodes, depth, from) <= nodes.len(),
        forall|j: int| from <= j < behind_from(nodes, depth, from) ==> (#[trigger] nodes[j]).depth
            > depth,
    decreases nodes.len() - from,
{
    if from < nodes.len() && nodes[from].depth > depth {
        lemma_behind(nodes, depth, from + 1);
    }
}

proof fn lemma_changes_of_are_changes(
    nodes: Seq<GoNodeModel>,
    source: Seq<char>,
    functions: Seq<GoFunctionModel>,
)
    ensures
        changes_of(nodes, source, functions) matches Some(all) ==> are_changes(all),
    decreases functions.len(),
{
    if functions.len() > 0 {
        lemma_changes_of_are_changes(nodes, source, functions.drop_last());
        lemma_changes_from_are_changes(nodes, source, functions.last(), 0);
    }
}

/// A mutant is never the program itself: what a change puts in its place is not what it takes
/// out, and where the place holds what the change says it takes out, the changed source is
/// another text, which has the new piece in the place of the old one.
pub proof fn law_mutants_differ_from_the_program(
    functions: Seq<GoFunctionModel>,
    artifacts: Seq<GeneratedArtifactModel>,
    path: Seq<char>,
    contents: Seq<char>,
    c: int,
)
    ensures
        changes_in_file(functions, artifacts, path, contents) matches Ok(candidates) ==> (0 <= c
            < candidates.len() && candidates[c].start_byte < candidates[c].end_byte ==> ({
            let start = candidates[c].start_byte as int;
            let end = candidates[c].end_byte as int;
            let from = candidates[c].from;
            let to = candidates[c].to;
            &&& from != to
            &&& piece(contents, start, end) == Some(from) ==> {
                let changed = piece_replaced(contents, start, end, to);
                &&& changed is Some
                &&& changed != Some(contents)
                &&& exists|front: Seq<char>, back: Seq<char>|
                    contents == #[trigger] (front + from + back) && changed == Some(
                        front + to + back,
                    )
            }
        })),
{
    if let Some(nodes) = go_tree(contents) {
        let here = functions_of_path(path, functions_asked_for(artifacts, functions));
        lemma_changes_of_are_changes(nodes, contents, here);
        if let Some(candidates) = changes_of(nodes, contents, here) {
            if 0 <= c < candidates.len() && candidates[c].start_byte < candidates[c].end_byte {
                let start = candidates[c].start_byte as int;
                let end = candidates[c].end_byte as int;
                assert(is_a_change(candidates[c]));
                if piece(contents, start, end) == Some(candidates[c].from) {
                    law_replacement_changes_the_text(contents, start, end, candidates[c].to);
                }
            }
        }
    }
}

// ---------------------------------------------------------------------------
// Every place gets its change
// ---------------------------------------------------------------------------
/// Whether each node of a tree lies within those that it is below.
pub open spec fn is_nested(nodes: Seq<GoNodeModel>) -> bool {
    forall|i: int, j: int|
        0 <= i < j < nodes.len() && j < behind(nodes, i) ==> (#[trigger] nodes[i]).start_byte
            <= (#[trigger] nodes[j]).start_byte && nodes[j].end_byte <= nodes[i].end_byte
}

/// Whether a list has a change.
pub open spec fn is_listed(
    candidates: Seq<MutationCandidateModel>,
    candidate: MutationCandidateModel,
) -> bool {
    exists|c: int| 0 <= c < candidates.len() && #[trigger] candidates[c] == candidate
}

/// Whether a list has a change of a place from one text to another.
pub open spec fn is_made(
    candidates: Seq<MutationCandidateModel>,
    start: usize,
    end: usize,
    from: Seq<char>,
    to: Seq<char>,
) -> bool {
    exists|c: int|
        0 <= c < candidates.len() && (#[trigger] candidates[c]).start_byte == start
            && candidates[c].end_byte == end && candidates[c].from == from && candidates[c].to
            == to
}

proof fn lemma_changes_of_nodes_are_listed(
    nodes: Seq<GoNodeModel>,
    source: Seq<char>,
    function: GoFunctionModel,
    i: int,
    j: int,
    candidate: MutationCandidateModel,
)
    requires
        is_nested(nodes),
        0 <= i <= j < nodes.len(),
        within(nodes[j], function),
        nodes[j].start_byte < nodes[j].end_byte,
        changes_from(nodes, source, function, i) is Some,
    ensures
        changes_at(nodes, source, function, j) matches Some(own) ==> (is_listed(own, candidate)
            ==> is_listed(changes_from(nodes, source, function, i)->0, candidate)),
    decreases nodes.len() - i,
{
    lemma_behind(nodes, nodes[i].depth, i + 1);
    let all = changes_from(nodes, source, function, i)->0;
    if outside(nodes[i], function) {
        let next = behind(nodes, i);
        if j < next {
            if i < j {
                assert(nodes[i].start_byte <= nodes[j].start_byte && nodes[j].end_byte
                    <= nodes[i].end_byte);
            }
            assert(false);
        }
        lemma_changes_of_nodes_are_listed(nodes, source, function, next, j, candidate);
    } else {
        let rest = changes_from(nodes, source, function, i + 1)->0;
        if i < j {
            lemma_changes_of_nodes_are_listed(nodes, source, function, i + 1, j, candidate);
            if is_listed(rest, candidate) {
                let first = if within(nodes[i], function) {
                    changes_at(nodes, source, function, i)->0
                } else {
                    Seq::empty()
                };
                let c = choose|c: int| 0 <= c < rest.len() && #[trigger] rest[c] == candidate;
                assert(all[first.len() + c] == candidate);
            }
        } else {
            let own = changes_at(nodes, source, function, j)->0;
            if is_listed(own, candidate) {
                let c = choose|c: int| 0 <= c < own.len() && #[trigger] own[c] == candidate;
                assert(all[c] == candidate);
            }
        }
    }
}

proof fn lemma_changes_of_functions_are_listed(
    nodes: Seq<GoNodeModel>,
    source: Seq<char>,
    functions: Seq<GoFunctionModel>,
    m: int,
    candidate: MutationCandidateModel,
)
    requires
        0 <= m < functions.len(),
        changes_of(nodes, source, functions) is Some,
    ensures
        changes_from(nodes, source, functions[m], 0) matches Some(own) && (is_listed(
            own,
            candidate,
        ) ==> is_listed(changes_of(nodes, source, functions)->0, candidate)),
    decreases functions.len(),
{
    let before = changes_of(nodes, source, functions.drop_last())->0;
    let more = changes_from(nodes, source, functions.last(), 0)->0;
    let all = changes_of(nodes, source, functions)->0;
    if m < functions.len() - 1 {
        lemma_changes_of_functions_are_listed(
            nodes,
            source,
            functions.drop_last(),
            m,
            candidate,
        );
        if is_listed(before, candidate) {
            let c = choose|c: int| 0 <= c < before.len() && #[trigger] before[c] == candidate;
            assert(all[c] == candidate);
        }
    } else if is_listed(more, candidate) {
        let c = choose|c: int| 0 <= c < more.len() && #[trigger] more[c] == candidate;
        assert(all[before.len() + c] == candidate);
    }
}

proof fn lemma_function_is_asked_for(
    artifacts: Seq<GeneratedArtifactModel>,
    functions: Seq<GoFunctionModel>,
    m: int,
)
    requires
        0 <= m < functions.len(),
        asked_for(artifacts, functions[m]),
    ensures
        functions_asked_for(artifacts, functions).contains(functions[m]),
    decreases functions.len(),
{
    let all = functions_asked_for(artifacts, functions);
    if m < functions.len() - 1 {
        lemma_function_is_asked_for(artifacts, functions.drop_last(), m);
        let before = functions_asked_for(artifacts, functions.drop_last());
        let k = choose|k: int| 0 <= k < before.len() && before[k] == functions[m];
        assert(all[k] == functions[m]);
    } else {
        assert(all[all.len() - 1] == functions[m]);
    }
}

proof fn lemma_function_is_at_its_path(path: Seq<char>, functions: Seq<GoFunctionModel>, m: int)
    requires
        0 <= m < functions.len(),
        same_path(functions[m].path, path),
    ensures
        functions_of_path(path, functions).contains(functions[m]),
    decreases functions.len(),
{
    let all = functions_of_path(path, functions);
    if m < functions.len() - 1 {
        lemma_function_is_at_its_path(path, functions.drop_last(), m);
        let before = functions_of_path(path, functions.drop_last());
        let k = choose|k: int| 0 <= k < before.len() && before[k] == functions[m];
        assert(all[k] == functions[m]);
    } else {
        assert(all[all.len() - 1] == functions[m]);
    }
}

/// Whether a node of a function of a file is one that artifacts ask to change: an artifact
/// that is a check of mutants is about the function, and the node lies within it.
pub open spec fn is_to_change(
    functions: Seq<GoFunctionModel>,
    artifacts: Seq<GeneratedArtifactModel>,
    path: Seq<char>,
    m: int,
    a: int,
    node: GoNodeModel,
) -> bool {
    &&& 0 <= m < functions.len()
    &&& functions[m].path == path
    &&& 0 <= a < artifacts.len()
    &&& artifacts[a].kind == ArtifactKind::MutationCheck
    &&& about(artifacts[a].target_id, functions[m])
    &&& functions[m].start_byte <= node.start_byte < node.end_byte <= functions[m].end_byte
}

proof fn lemma_changes_of_node_are_listed(
    functions: Seq<GoFunctionModel>,
    artifacts: Seq<GeneratedArtifactModel>,
    path: Seq<char>,
    contents: Seq<char>,
    m: int,
    a: int,
    i: int,
)
    ensures
        go_tree(contents) matches Some(nodes) ==> changes_in_file(
            functions,
            artifacts,
            path,
            contents,
        ) matches Ok(candidates) ==> (is_nested(nodes) && 0 <= i < nodes.len() && is_to_change(
            functions,
            artifacts,
            path,
            m,
            a,
            nodes[i],
        ) ==> (changes_at(nodes, contents, functions[m], i) matches Some(own) ==> forall|c: int|
            0 <= c < own.len() ==> is_listed(candidates, #[trigger] own[c]))),
{
    if let Some(nodes) = go_tree(contents) {
        let asked = functions_asked_for(artifacts, functions);
        let here = functions_of_path(path, asked);
        if changes_of(nodes, contents, here) is Some && is_nested(nodes) && 0 <= i < nodes.len()
            && is_to_change(functions, artifacts, path, m, a, nodes[i]) {
            let function = functions[m];
            assert(artifacts[a].kind == ArtifactKind::MutationCheck);
            assert(asked_for(artifacts, function));
            lemma_function_is_asked_for(artifacts, functions, m);
            let k = choose|k: int| 0 <= k < asked.len() && asked[k] == function;
            lemma_function_is_at_its_path(path, asked, k);
            let h = choose|h: int| 0 <= h < here.len() && here[h] == function;
            if let Some(own) = changes_at(nodes, contents, function, i) {
                assert forall|c: int| 0 <= c < own.len() implies is_listed(
                    changes_of(nodes, contents, here)->0,
                    #[trigger] own[c],
                ) by {
                    lemma_changes_of_functions_are_listed(nodes, contents, here, h, own[c]);
                    lemma_changes_of_nodes_are_listed(nodes, contents, function, 0, i, own[c]);
                    assert(is_listed(own, own[c]));
                }
            }
        }
    }
}

/// Whether a node is the first child of another one whose kind is the text of an operator of
/// a kind.
pub open spec fn is_operator_of(
    nodes: Seq<GoNodeModel>,
    i: int,
    k: int,
    kind: OperatorKind,
) -> bool {
    &&& 0 <= i < k < nodes.len()
    &&& nodes[k].depth == nodes[i].depth + 1
    &&& forall|j: int| i < j < k ==> (#[trigger] nodes[j]).depth > nodes[i].depth && (nodes[j].depth
        == nodes[i].depth + 1 ==> !kind.covers(nodes[j].kind))
}

proof fn lemma_operator_is_found(
    nodes: Seq<GoNodeModel>,
    i: int,
    k: int,
    kind: OperatorKind,
    from: int,
)
    requires
        is_operator_of(nodes, i, k, kind),
        kind.covers(nodes[k].kind),
        i < from <= k,
    ensures
        operator_from(nodes, nodes[i].depth, kind, from) == Some(k),
    decreases k - from,
{
    if from < k {
        assert(nodes[from].depth > nodes[i].depth);
        lemma_operator_is_found(nodes, i, k, kind, from + 1);
    }
}

proof fn lemma_node_kinds()
    ensures
        "binary_expression"@ != "assignment_statement"@,
        "binary_expression"@ != "unary_expression"@,
        "assignment_statement"@ != "unary_expression"@,
        "return_statement"@ != "binary_expression"@,
        "return_statement"@ != "assignment_statement"@,
        "return_statement"@ != "unary_expression"@,
        "inc_statement"@ != "assignment_statement"@,
        "inc_statement"@ != "unary_expression"@,
        "dec_statement"@ != "assignment_statement"@,
        "dec_statement"@ != "unary_expression"@,
        "break_statement"@ != "binary_expression"@,
        "break_statement"@ != "return_statement"@,
        "break_statement"@ != "inc_statement"@,
        "break_statement"@ != "dec_statement"@,
        "break_statement"@ != "assignment_statement"@,
        "break_statement"@ != "unary_expression"@,
        "break_statement"@ != "continue_statement"@,
        "continue_statement"@ != "binary_expression"@,
        "continue_statement"@ != "return_statement"@,
        "continue_statement"@ != "inc_statement"@,
        "continue_statement"@ != "dec_statement"@,
        "continue_statement"@ != "assignment_statement"@,
        "continue_statement"@ != "unary_expression"@,
{
    reveal_strlit("binary_expression");
    reveal_strlit("assignment_statement");
    reveal_strlit("unary_expression");
    reveal_strlit("return_statement");
    reveal_strlit("inc_statement");
    reveal_strlit("dec_statement");
    reveal_strlit("break_statement");
    reveal_strlit("continue_statement");
    assert("binary_expression"@.len() == 17);
    assert("assignment_statement"@.len() == 20);
    assert("unary_expression"@.len() == 16);
    assert("return_statement"@.len() == 16);
    assert("inc_statement"@.len() == 13);
    assert("dec_statement"@.len() == 13);
    assert("break_statement"@.len() == 15);
    assert("continue_statement"@.len() == 18);
    assert("unary_expression"@[0] == 'u');
    assert("return_statement"@[0] == 'r');
}

/// Every binary operation of a function that artifacts ask to change gets a change of its
/// operator, at the place of the operator: a comparison of its boundary, an equality and a
/// boolean connector of their sense, and a calculation of its operation.
pub proof fn law_every_operation_is_changed(
    functions: Seq<GoFunctionModel>,
    artifacts: Seq<GeneratedArtifactModel>,
    path: Seq<char>,
    contents: Seq<char>,
    m: int,
    a: int,
    i: int,
    k: int,
)
    ensures
        go_tree(contents) matches Some(nodes) ==> changes_in_file(
            functions,
            artifacts,
            path,
            contents,
        ) matches Ok(candidates) ==> (is_nested(nodes) && is_operator_of(
            nodes,
            i,
            k,
            OperatorKind::Binary,
        ) && nodes[i].kind == "binary_expression"@ && is_to_change(
            functions,
            artifacts,
            path,
            m,
            a,
            nodes[i],
        ) ==> {
            let op = nodes[k].kind;
            let start = nodes[k].start_byte;
            let end = nodes[k].end_byte;
            &&& op == "<="@ ==> is_made(candidates, start, end, op, "<"@)
            &&& op == "<"@ ==> is_made(candidates, start, end, op, "<="@)
            &&& op == ">="@ ==> is_made(candidates, start, end, op, ">"@)
            &&& op == ">"@ ==> is_made(candidates, start, end, op, ">="@)
            &&& op == "=="@ ==> is_made(candidates, start, end, op, "!="@)
            &&& op == "!="@ ==> is_made(candidates, start, end, op, "=="@)
            &&& op == "&&"@ ==> is_made(candidates, start, end, op, "||"@)
            &&& op == "||"@ ==> is_made(candidates, start, end, op, "&&"@)
            &&& op == "+"@ ==> is_made(candidates, start, end, op, "-"@)
            &&& op == "-"@ ==> is_made(candidates, start, end, op, "+"@)
            &&& op == "*"@ ==> is_made(candidates, start, end, op, "/"@)
            &&& op == "/"@ ==> is_made(candidates, start, end, op, "*"@)
            &&& op == "%"@ ==> is_made(candidates, start, end, op, "*"@)
            &&& op == "&"@ ==> is_made(candidates, start, end, op, "|"@)
            &&& op == "|"@ ==> is_made(candidates, start, end, op, "&"@)
            &&& op == "^"@ ==> is_made(candidates, start, end, op, "&"@)
            &&& op == "&^"@ ==> is_made(candidates, start, end, op, "|"@)
            &&& op == "<<"@ ==> is_made(candidates, start, end, op, ">>"@)
            &&& op == ">>"@ ==> is_made(candidates, start, end, op, "<<"@)
        }),
{
    if let Some(nodes) = go_tree(contents) {
        if is_nested(nodes) && is_operator_of(nodes, i, k, OperatorKind::Binary) && nodes[i].kind
            == "binary_expression"@ && is_to_change(
            functions,
            artifacts,
            path,
            m,
            a,
            nodes[i],
        ) && changes_in_file(functions, artifacts, path, contents) is Ok {
            let candidates = changes_in_file(functions, artifacts, path, contents)->Ok_0;
            let op = nodes[k].kind;
            law_operators_are_changed_to_others(op);
            if let Some(to) = binary_swap(op) {
                lemma_operator_is_found(nodes, i, k, OperatorKind::Binary, i + 1);
                lemma_changes_of_node_are_listed(functions, artifacts, path, contents, m, a, i);
                let own = changes_at(nodes, contents, functions[m], i)->0;
                assert(is_listed(candidates, own[0]));
                assert(is_made(candidates, nodes[k].start_byte, nodes[k].end_byte, op, to));
            }
        }
    }
}

/// Every assignment with an operation, and every operation with one operand, of a function
/// that artifacts ask to change gets a change of its operator, at the place of the operator:
/// the first to the opposite operation, the second by taking the operator away.
pub proof fn law_every_assignment_and_negation_is_changed(
    functions: Seq<GoFunctionModel>,
    artifacts: Seq<GeneratedArtifactModel>,
    path: Seq<char>,
    contents: Seq<char>,
    m: int,
    a: int,
    i: int,
    k: int,
)
    ensures
        go_tree(contents) matches Some(nodes) ==> changes_in_file(
            functions,
            artifacts,
            path,
            contents,
        ) matches Ok(candidates) ==> (is_nested(nodes) && is_to_change(
            functions,
            artifacts,
            path,
            m,
            a,
            nodes[i],
        ) ==> {
            let op = nodes[k].kind;
            let start = nodes[k].start_byte;
            let end = nodes[k].end_byte;
            &&& nodes[i].kind == "assignment_statement"@ && is_operator_of(
                nodes,
                i,
                k,
                OperatorKind::Assignment,
            ) ==> {
                &&& op == "+="@ ==> is_made(candidates, start, end, op, "-="@)
                &&& op == "-="@ ==> is_made(candidates, start, end, op, "+="@)
                &&& op == "*="@ ==> is_made(candidates, start, end, op, "/="@)
                &&& op == "/="@ ==> is_made(candidates, start, end, op, "*="@)
                &&& op == "%="@ ==> is_made(candidates, start, end, op, "*="@)
                &&& op == "&="@ ==> is_made(candidates, start, end, op, "|="@)
                &&& op == "|="@ ==> is_made(candidates, start, end, op, "&="@)
                &&& op == "^="@ ==> is_made(candidates, start, end, op, "&="@)
                &&& op == "&^="@ ==> is_made(candidates, start, end, op, "|="@)
                &&& op == "<<="@ ==> is_made(candidates, start, end, op, ">>="@)
                &&& op == ">>="@ ==> is_made(candidates, start, end, op, "<<="@)
            }
            &&& nodes[i].kind == "unary_expression"@ && is_operator_of(
                nodes,
                i,
                k,
                OperatorKind::Unary,
            ) && (op == "!"@ || op == "-"@ || op == "^"@) ==> is_made(
                candidates,
                start,
                end,
                op,
                Seq::empty(),
            )
        }),
{
    if let Some(nodes) = go_tree(contents) {
        if is_nested(nodes) && is_to_change(functions, artifacts, path, m, a, nodes[i])
            && changes_in_file(functions, artifacts, path, contents) is Ok {
            let candidates = changes_in_file(functions, artifacts, path, contents)->Ok_0;
            let op = nodes[k].kind;
            lemma_node_kinds();
            if nodes[i].kind == "assignment_statement"@ && is_operator_of(
                nodes,
                i,
                k,
                OperatorKind::Assignment,
            ) {
                law_assignments_are_changed_as_their_operators(op);
                if let Some(to) = assignment_swap(op) {
                    lemma_operator_is_found(nodes, i, k, OperatorKind::Assignment, i + 1);
                    lemma_changes_are_read(functions, artifacts, path, contents, m, a, i);
                    lemma_changes_of_node_are_listed(functions, artifacts, path, contents, m, a, i);
                    let own = changes_at(nodes, contents, functions[m], i)->0;
                    assert(is_listed(candidates, own[0]));
                    assert(is_made(candidates, nodes[k].start_byte, nodes[k].end_byte, op, to));
                }
            }
            if nodes[i].kind == "unary_expression"@ && is_operator_of(
                nodes,
                i,
                k,
                OperatorKind::Unary,
            ) && (op == "!"@ || op == "-"@ || op == "^"@) {
                lemma_operator_is_found(nodes, i, k, OperatorKind::Unary, i + 1);
                lemma_changes_of_node_are_listed(functions, artifacts, path, contents, m, a, i);
                let own = changes_at(nodes, contents, functions[m], i)->0;
                assert(is_listed(candidates, own[0]));
                assert(is_made(
                    candidates,
                    nodes[k].start_byte,
                    nodes[k].end_byte,
                    op,
                    Seq::empty(),
                ));
            }
        }
    }
}

/// Where the changes of a file are known, the texts of each node to change could be read.
proof fn lemma_changes_are_read(
    functions: Seq<GoFunctionModel>,
    artifacts: Seq<GeneratedArtifactModel>,
    path: Seq<char>,
    contents: Seq<char>,
    m: int,
    a: int,
    i: int,
)
    ensures
        go_tree(contents) matches Some(nodes) ==> (changes_in_file(
            functions,
            artifacts,
            path,
            contents,
        ) is Ok && is_nested(nodes) && 0 <= i < nodes.len() && is_to_change(
            functions,
            artifacts,
            path,
            m,
            a,
            nodes[i],
        ) ==> changes_at(nodes, contents, functions[m], i) is Some),
{
    if let Some(nodes) = go_tree(contents) {
        let asked = functions_asked_for(artifacts, functions);
        let here = functions_of_path(path, asked);
        if changes_of(nodes, contents, here) is Some && is_nested(nodes) && 0 <= i < nodes.len()
            && is_to_change(functions, artifacts, path, m, a, nodes[i]) {
            let function = functions[m];
            assert(artifacts[a].kind == ArtifactKind::MutationCheck);
            assert(asked_for(artifacts, function));
            lemma_function_is_asked_for(artifacts, functions, m);
            let k = choose|k: int| 0 <= k < asked.len() && asked[k] == function;
            lemma_function_is_at_its_path(path, asked, k);
            let h = choose|h: int| 0 <= h < here.len() && here[h] == function;
            lemma_changes_of_functions_are_read(nodes, contents, here, h);
            lemma_changes_of_nodes_are_read(nodes, contents, function, 0, i);
        }
    }
}

proof fn lemma_changes_of_functions_are_read(
    nodes: Seq<GoNodeModel>,
    source: Seq<char>,
    functions: Seq<GoFunctionModel>,
    m: int,
)
    requires
        0 <= m < functions.len(),
        changes_of(nodes, source, functions) is Some,
    ensures
        changes_from(nodes, source, functions[m], 0) is Some,
    decreases functions.len(),
{
    if m < functions.len() - 1 {
        lemma_changes_of_functions_are_read(nodes, source, functions.drop_last(), m);
    }
}

proof fn lemma_changes_of_nodes_are_read(
    nodes: Seq<GoNodeModel>,
    source: Seq<char>,
    function: GoFunctionModel,
    i: int,
    j: int,
)
    requires
        is_nested(nodes),
        0 <= i <= j < nodes.len(),
        within(nodes[j], function),
        nodes[j].start_byte < nodes[j].end_byte,
        changes_from(nodes, source, function, i) is Some,
    ensures
        changes_at(nodes, source, function, j) is Some,
    decreases nodes.len() - i,
{
    lemma_behind(nodes, nodes[i].depth, i + 1);
    if outside(nodes[i], function) {
        let next = behind(nodes, i);
        if j < next {
            if i < j {
                assert(nodes[i].start_byte <= nodes[j].start_byte && nodes[j].end_byte
                    <= nodes[i].end_byte);
            }
            assert(false);
        }
        lemma_changes_of_nodes_are_read(nodes, source, function, next, j);
    } else if i < j {
        lemma_changes_of_nodes_are_read(nodes, source, function, i + 1, j);
    }
}

/// Every truth value, zero and one, and every statement that leaves or repeats a loop, of a
/// function that artifacts ask to change is changed to its opposite.
pub proof fn law_every_literal_and_branch_is_changed(
    functions: Seq<GoFunctionModel>,
    artifacts: Seq<GeneratedArtifactModel>,
    path: Seq<char>,
    contents: Seq<char>,
    m: int,
    a: int,
    i: int,
)
    ensures
        go_tree(contents) matches Some(nodes) ==> changes_in_file(
            functions,
            artifacts,
            path,
            contents,
        ) matches Ok(candidates) ==> (is_nested(nodes) && 0 <= i < nodes.len() && is_to_change(
            functions,
            artifacts,
            path,
            m,
            a,
            nodes[i],
        ) ==> {
            let start = nodes[i].start_byte;
            let end = nodes[i].end_byte;
            let kind = nodes[i].kind;
            let literal = kind == "true"@ || kind == "false"@ || kind == "int_literal"@;
            &&& kind == "break_statement"@ ==> is_made(
                candidates,
                start,
                end,
                "break"@,
                "continue"@,
            )
            &&& kind == "continue_statement"@ ==> is_made(
                candidates,
                start,
                end,
                "continue"@,
                "break"@,
            )
            &&& literal && piece(contents, start as int, end as int) == Some("true"@) ==> is_made(
                candidates,
                start,
                end,
                "true"@,
                "false"@,
            )
            &&& literal && piece(contents, start as int, end as int) == Some("false"@) ==> is_made(
                candidates,
                start,
                end,
                "false"@,
                "true"@,
            )
            &&& literal && piece(contents, start as int, end as int) == Some("0"@) ==> is_made(
                candidates,
                start,
                end,
                "0"@,
                "1"@,
            )
            &&& literal && piece(contents, start as int, end as int) == Some("1"@) ==> is_made(
                candidates,
                start,
                end,
                "1"@,
                "0"@,
            )
        }),
{
    if let Some(nodes) = go_tree(contents) {
        if is_nested(nodes) && 0 <= i < nodes.len() && is_to_change(
            functions,
            artifacts,
            path,
            m,
            a,
            nodes[i],
        ) && changes_in_file(functions, artifacts, path, contents) is Ok {
            let candidates = changes_in_file(functions, artifacts, path, contents)->Ok_0;
            let kind = nodes[i].kind;
            let text = piece(contents, nodes[i].start_byte as int, nodes[i].end_byte as int);
            let literal = kind == "true"@ || kind == "false"@ || kind == "int_literal"@;
            lemma_node_kinds();
            lemma_literal_kinds(kind);
            law_values_are_changed_to_others("true"@);
            lemma_changes_of_node_are_listed(functions, artifacts, path, contents, m, a, i);
            let own = changes_at(nodes, contents, functions[m], i)->0;
            if kind == "break_statement"@ || kind == "continue_statement"@ || (literal && (text
                == Some("true"@) || text == Some("false"@) || text == Some("0"@) || text == Some(
                "1"@,
            ))) {
                assert(own.len() == 1);
                assert(is_listed(candidates, own[0]));
                assert(is_made(
                    candidates,
                    nodes[i].start_byte,
                    nodes[i].end_byte,
                    own[0].from,
                    own[0].to,
                ));
            }
        }
    }
}

proof fn lemma_literal_kinds(kind: Seq<char>)
    ensures
        kind == "true"@ || kind == "false"@ || kind == "int_literal"@ ==> kind
            != "binary_expression"@ && kind != "return_statement"@ && kind != "inc_statement"@
            && kind != "dec_statement"@ && kind != "assignment_statement"@ && kind
            != "unary_expression"@ && kind != "break_statement"@ && kind != "continue_statement"@,
        trimmed("true"@) == "true"@,
        trimmed("false"@) == "false"@,
        trimmed("0"@) == "0"@,
        trimmed("1"@) == "1"@,
{
    reveal_strlit("binary_expression");
    reveal_strlit("assignment_statement");
    reveal_strlit("unary_expression");
    reveal_strlit("return_statement");
    reveal_strlit("inc_statement");
    reveal_strlit("dec_statement");
    reveal_strlit("break_statement");
    reveal_strlit("continue_statement");
    reveal_strlit("true");
    reveal_strlit("false");
    reveal_strlit("int_literal");
    reveal_strlit("0");
    reveal_strlit("1");
    assert("true"@.len() == 4);
    assert("false"@.len() == 5);
    assert("int_literal"@.len() == 11);
    assert(!is_space('t') && !is_space('e') && !is_space('f') && !is_space('0') && !is_space('1'));
}

/// Whether a list has a change from one text to another somewhere within a node.
pub open spec fn is_made_within(
    candidates: Seq<MutationCandidateModel>,
    node: GoNodeModel,
    from: Seq<char>,
    to: Seq<char>,
) -> bool {
    exists|c: int|
        0 <= c < candidates.len() && node.start_byte <= (#[trigger] candidates[c]).start_byte
            && candidates[c].end_byte <= node.end_byte && candidates[c].from == from
            && candidates[c].to == to
}

proof fn lemma_piece_of_node(node: GoNodeModel, text: Seq<char>, from: Seq<char>, at: int)
    requires
        0 <= at,
        occurs_at(text, from, at),
        byte_len(text) == node.end_byte - node.start_byte,
    ensures
        ({
            let start = node.start_byte + byte_len(text.take(at));
            &&& node.start_byte <= start as usize
            &&& (start + byte_len(from)) as usize <= node.end_byte
            &&& start as usize == start
        }),
{
    let end = at + from.len();
    assert(text.take(end) =~= text.take(at) + from);
    lemma_byte_len_sum(text.take(at), from);
    lemma_prefix_bytes(text, at);
    lemma_prefix_bytes(text, end);
    lemma_prefix_bytes(from, from.len() as int);
    assert(from.take(from.len() as int) =~= from);
}

proof fn lemma_return_of(expression: Seq<char>)
    requires
        expression.len() > 0,
        !is_space(expression[0]),
        !is_space(expression.last()),
    ensures
        without_prefix(trimmed("return "@ + expression), "return"@) matches Some(rest) && trimmed(
            rest,
        ) == expression,
        occurs_at("return "@ + expression, expression, 7),
        find("return "@ + expression, expression) is Some,
{
    let text = "return "@ + expression;
    reveal_strlit("return ");
    reveal_strlit("return");
    assert("return "@ =~= "return"@.push(' '));
    assert(text[0] == 'r');
    assert(!is_space('r'));
    assert(text.last() == expression.last());
    assert(trimmed(text) == text);
    assert(text.take(6) =~= "return"@);
    let rest = text.skip(6);
    assert(is_space(' '));
    assert(rest[0] == ' ');
    assert(rest.skip(1) =~= expression);
    assert(trimmed_start(rest) == trimmed_start(expression));
    assert(trimmed_start(expression) == expression);
    assert(text.subrange(7, 7 + expression.len() as int) =~= expression);
    assert(occurs_at(text, expression, 7));
    lemma_find_is_first(text, expression, 0);
}

/// Every return of a truth value, an error, zero or one, and every increment and decrement, of
/// a function that artifacts ask to change is changed: the value to another one, an error to
/// none, and the step to the one in the other direction.
pub proof fn law_every_return_and_step_is_changed(
    functions: Seq<GoFunctionModel>,
    artifacts: Seq<GeneratedArtifactModel>,
    path: Seq<char>,
    contents: Seq<char>,
    m: int,
    a: int,
    i: int,
    counter: Seq<char>,
)
    requires
        !counter.contains('+'),
        !counter.contains('-'),
    ensures
        go_tree(contents) matches Some(nodes) ==> changes_in_file(
            functions,
            artifacts,
            path,
            contents,
        ) matches Ok(candidates) ==> (is_nested(nodes) && 0 <= i < nodes.len() && is_to_change(
            functions,
            artifacts,
            path,
            m,
            a,
            nodes[i],
        ) ==> {
            let node = nodes[i];
            let text = piece(contents, node.start_byte as int, node.end_byte as int);
            let gives = node.kind == "return_statement"@;
            let steps = node.kind == "inc_statement"@ || node.kind == "dec_statement"@;
            &&& gives && text == Some("return "@ + "true"@) ==> is_made_within(
                candidates,
                node,
                "true"@,
                "false"@,
            )
            &&& gives && text == Some("return "@ + "false"@) ==> is_made_within(
                candidates,
                node,
                "false"@,
                "true"@,
            )
            &&& gives && text == Some("return "@ + "err"@) ==> is_made_within(
                candidates,
                node,
                "err"@,
                "nil"@,
            )
            &&& gives && text == Some("return "@ + "0"@) ==> is_made_within(
                candidates,
                node,
                "0"@,
                "1"@,
            )
            &&& gives && text == Some("return "@ + "1"@) ==> is_made_within(
                candidates,
                node,
                "1"@,
                "0"@,
            )
            &&& steps && text == Some(counter + "++"@) ==> is_made_within(
                candidates,
                node,
                "++"@,
                "--"@,
            )
            &&& steps && text == Some(counter + "--"@) ==> is_made_within(
                candidates,
                node,
                "--"@,
                "++"@,
            )
        }),
{
    if let Some(nodes) = go_tree(contents) {
        if is_nested(nodes) && 0 <= i < nodes.len() && is_to_change(
            functions,
            artifacts,
            path,
            m,
            a,
            nodes[i],
        ) && changes_in_file(functions, artifacts, path, contents) is Ok {
            let candidates = changes_in_file(functions, artifacts, path, contents)->Ok_0;
            let node = nodes[i];
            lemma_node_kinds();
            lemma_step_kinds();
            lemma_piece_bytes(contents, node.start_byte as int, node.end_byte as int);
            lemma_changes_of_node_are_listed(functions, artifacts, path, contents, m, a, i);
            if node.kind == "return_statement"@ {
                lemma_return_is_listed(nodes, contents, functions[m], i, "true"@, candidates);
                lemma_return_is_listed(nodes, contents, functions[m], i, "false"@, candidates);
                lemma_return_is_listed(nodes, contents, functions[m], i, "err"@, candidates);
                lemma_return_is_listed(nodes, contents, functions[m], i, "0"@, candidates);
                lemma_return_is_listed(nodes, contents, functions[m], i, "1"@, candidates);
                law_values_are_changed_to_others("true"@);
                lemma_no_space_in_values();
            }
            if node.kind == "inc_statement"@ || node.kind == "dec_statement"@ {
                lemma_step_is_listed(nodes, contents, functions[m], i, counter, candidates);
            }
        }
    }
}

proof fn lemma_step_kinds()
    ensures
        "inc_statement"@ != "binary_expression"@,
        "inc_statement"@ != "return_statement"@,
        "dec_statement"@ != "binary_expression"@,
        "dec_statement"@ != "return_statement"@,
{
    reveal_strlit("binary_expression");
    reveal_strlit("return_statement");
    reveal_strlit("inc_statement");
    reveal_strlit("dec_statement");
    assert("binary_expression"@.len() == 17);
    assert("return_statement"@.len() == 16);
    assert("inc_statement"@.len() == 13);
    assert("dec_statement"@.len() == 13);
}

spec fn is_bare(value: Seq<char>) -> bool {
    value.len() > 0 && !is_space(value[0]) && !is_space(value.last())
}

proof fn lemma_no_space_in_values()
    ensures
        is_bare("true"@),
        is_bare("false"@),
        is_bare("err"@),
        is_bare("0"@),
        is_bare("1"@),
{
    reveal_strlit("true");
    reveal_strlit("false");
    reveal_strlit("err");
    reveal_strlit("0");
    reveal_strlit("1");
    assert(!is_space('t') && !is_space('e') && !is_space('f') && !is_space('0') && !is_space('1'));
    assert(!is_space('r'));
}

proof fn lemma_return_is_listed(
    nodes: Seq<GoNodeModel>,
    source: Seq<char>,
    function: GoFunctionModel,
    i: int,
    value: Seq<char>,
    candidates: Seq<MutationCandidateModel>,
)
    requires
        0 <= i < nodes.len(),
        nodes[i].kind == "return_statement"@,
        "return_statement"@ != "binary_expression"@,
        changes_at(nodes, source, function, i) matches Some(own) ==> forall|c: int|
            0 <= c < own.len() ==> is_listed(candidates, #[trigger] own[c]),
    ensures
        is_bare(value) && piece(source, nodes[i].start_byte as int, nodes[i].end_byte as int)
            == Some("return "@ + value) ==> (return_swap(value) matches Some(swap)
            ==> is_made_within(candidates, nodes[i], value, swap.1)),
{
    if is_bare(value) && piece(source, nodes[i].start_byte as int, nodes[i].end_byte as int)
        == Some("return "@ + value) {
        if let Some(swap) = return_swap(value) {
            let text = "return "@ + value;
            lemma_return_of(value);
            lemma_piece_bytes(source, nodes[i].start_byte as int, nodes[i].end_byte as int);
            lemma_find_is_first(text, value, 0);
            let at = find(text, value)->0;
            lemma_piece_of_node(nodes[i], text, value, at);
            let own = changes_at(nodes, source, function, i)->0;
            assert(own.len() == 1);
            assert(is_listed(candidates, own[0]));
            let c = choose|c: int|
                0 <= c < candidates.len() && #[trigger] candidates[c] == own[0];
            assert(candidates[c].from == value);
        }
    }
}

proof fn lemma_step_is_listed(
    nodes: Seq<GoNodeModel>,
    source: Seq<char>,
    function: GoFunctionModel,
    i: int,
    counter: Seq<char>,
    candidates: Seq<MutationCandidateModel>,
)
    requires
        0 <= i < nodes.len(),
        nodes[i].kind == "inc_statement"@ || nodes[i].kind == "dec_statement"@,
        nodes[i].kind != "binary_expression"@,
        nodes[i].kind != "return_statement"@,
        !counter.contains('+'),
        !counter.contains('-'),
        changes_at(nodes, source, function, i) matches Some(own) ==> forall|c: int|
            0 <= c < own.len() ==> is_listed(candidates, #[trigger] own[c]),
    ensures
        ({
            let text = piece(source, nodes[i].start_byte as int, nodes[i].end_byte as int);
            &&& text == Some(counter + "++"@) ==> is_made_within(
                candidates,
                nodes[i],
                "++"@,
                "--"@,
            )
            &&& text == Some(counter + "--"@) ==> is_made_within(
                candidates,
                nodes[i],
                "--"@,
                "++"@,
            )
        }),
{
    reveal_strlit("++");
    reveal_strlit("--");
    assert("++"@ =~= seq!['+', '+']);
    assert("--"@ =~= seq!['-', '-']);
    let piece_text = piece(source, nodes[i].start_byte as int, nodes[i].end_byte as int);
    lemma_piece_bytes(source, nodes[i].start_byte as int, nodes[i].end_byte as int);
    let n = counter.len() as int;
    if piece_text == Some(counter + "++"@) || piece_text == Some(counter + "--"@) {
        let up = piece_text == Some(counter + "++"@);
        let sign = if up {
            "++"@
        } else {
            "--"@
        };
        let other = if up {
            "--"@
        } else {
            "++"@
        };
        let text = counter + sign;
        assert(text.subrange(n, n + 2) =~= sign);
        assert(occurs_at(text, sign, n));
        lemma_find_is_first(text, sign, 0);
        lemma_find_is_first(text, other, 0);
        if let Some(at) = find(text, other) {
            assert(text.subrange(at, at + 2)[0] == text[at]);
            assert(text.subrange(at, at + 2)[1] == text[at + 1]);
            if at < n {
                assert(counter[at] == text[at]);
            }
            assert(false);
        }
        let at = find(text, sign)->0;
        lemma_piece_of_node(nodes[i], text, sign, at);
        let own = changes_at(nodes, source, function, i)->0;
        assert(own.len() == 1);
        assert(is_listed(candidates, own[0]));
        let c = choose|c: int| 0 <= c < candidates.len() && #[trigger] candidates[c] == own[0];
        assert(candidates[c].from == sign);
    }
}

// ---------------------------------------------------------------------------
// Which functions are changed
// ---------------------------------------------------------------------------
/// The target of the project is about every function, that of a file and of a package about
/// every function in it, and that of a function about the function.
pub proof fn law_targets_name_their_functions(function: GoFunctionModel)
    ensures
        about("go:project"@, function),
        about("go:"@ + function.path, function),
        about("go:"@ + package_dir_path(function.path), function),
        !function.symbol.contains(':') ==> about(
            "go:"@ + function.path + ":"@ + function.symbol,
            function,
        ),
{
    reveal_strlit("go:");
    reveal_strlit(":");
    lemma_behind_prefix("go:"@, function.path);
    lemma_behind_prefix("go:"@, package_dir_path(function.path));
    if !function.symbol.contains(':') {
        let rest = function.path + ":"@ + function.symbol;
        assert("go:"@ + function.path + ":"@ + function.symbol =~= "go:"@ + rest);
        lemma_behind_prefix("go:"@, rest);
        lemma_cut_at_last_colon(function.path, function.symbol);
    }
}

/// The target of a function is about no other function.
pub proof fn law_function_targets_name_one_function(
    path: Seq<char>,
    symbol: Seq<char>,
    function: GoFunctionModel,
)
    requires
        !symbol.contains(':'),
        !function.path.contains(':'),
        !package_dir_path(function.path).contains(':'),
        path + ":"@ + symbol != "project"@,
        about("go:"@ + path + ":"@ + symbol, function),
    ensures
        path == function.path,
        symbol == function.symbol,
{
    reveal_strlit("go:");
    reveal_strlit("go:project");
    reveal_strlit("project");
    reveal_strlit(":");
    let rest = path + ":"@ + symbol;
    let id = "go:"@ + path + ":"@ + symbol;
    assert(id =~= "go:"@ + rest);
    lemma_behind_prefix("go:"@, rest);
    lemma_cut_at_last_colon(path, symbol);
    assert(rest[path.len() as int] == ':');
    assert(rest.contains(':'));
    if id == "go:project"@ {
        assert("go:project"@ =~= "go:"@ + "project"@);
        assert(id.skip(3) =~= rest);
        assert("go:project"@.skip(3) =~= "project"@);
    }
}

proof fn lemma_behind_prefix(prefix: Seq<char>, rest: Seq<char>)
    ensures
        without_prefix(prefix + rest, prefix) == Some(rest),
{
    assert((prefix + rest).take(prefix.len() as int) =~= prefix);
    assert((prefix + rest).skip(prefix.len() as int) =~= rest);
}

proof fn lemma_cut_at_last_colon(path: Seq<char>, symbol: Seq<char>)
    requires
        !symbol.contains(':'),
    ensures
        rcut_at(path + ":"@ + symbol, ':') == Some((path, symbol)),
{
    reveal_strlit(":");
    let s = path + ":"@ + symbol;
    let i = path.len() as int;
    assert(s[i] == ':');
    assert forall|k: int| i < k < s.len() implies s[k] != ':' by {
        assert(s[k] == symbol[k - i - 1]);
    }
    lemma_rfind_char_before(s, ':', i + 1, s.len() as int);
    assert(s.take(i) =~= path);
    assert(s.skip(i + 1) =~= symbol);
}

} // verus!
