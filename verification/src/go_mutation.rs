//! Changes to Go functions, made one at a time to see whether a test notices.
use vstd::prelude::*;

use crate::api::{ArtifactKind, GeneratedArtifact, GeneratedArtifactModel};
use crate::go_source::{
    behind, behind_from, child_by_field_name, child_in_field, go_tree, node_behind, node_text,
    parse_go, push_go_function, text_of_node, GoFunction, GoFunctionModel, GoNode, GoNodeModel,
    GoSourceError,
};
use crate::offsets::{
    byte_len, byte_offset, lemma_byte_len_sum, lemma_piece_bytes, lemma_prefix_bytes,
    piece_replaced, replace_piece,
};
use crate::order::{sorted_set, to_sorted_set};
use crate::paths::{package_dir, package_dir_path, path_same, same_path, ByPath};
use crate::seqs::{cat3, lemma_take_all, lemma_take_next};
use crate::split::{push_text, trim, trimmed};
use crate::text::{
    chars_of, contains, ends, ends_with, find, find_index, has_text, lemma_find_is_first, lower,
    occurs_at, owned, rcut_at, rsplit_once, same, starts, starts_with, strip_prefix, text_between,
    to_lower, without_prefix,
};

verus! {

// ---------------------------------------------------------------------------
// Candidates
// ---------------------------------------------------------------------------
/// A change to a Go function: a piece of its source, and what goes in its place.
#[derive(Debug, PartialEq, Eq)]
pub struct MutationCandidate {
    pub path: String,
    pub function: String,
    pub label: String,
    pub from: String,
    pub to: String,
    pub start_byte: usize,
    pub end_byte: usize,
}

/// The mathematical value of a `MutationCandidate`.
pub struct MutationCandidateModel {
    pub path: Seq<char>,
    pub function: Seq<char>,
    pub label: Seq<char>,
    pub from: Seq<char>,
    pub to: Seq<char>,
    pub start_byte: usize,
    pub end_byte: usize,
}

impl DeepView for MutationCandidate {
    type V = MutationCandidateModel;

    open spec fn deep_view(&self) -> MutationCandidateModel {
        MutationCandidateModel {
            path: self.path@,
            function: self.function@,
            label: self.label@,
            from: self.from@,
            to: self.to@,
            start_byte: self.start_byte,
            end_byte: self.end_byte,
        }
    }
}

impl Clone for MutationCandidate {
    fn clone(&self) -> (r: Self)
        ensures
            r.deep_view() == self.deep_view(),
    {
        MutationCandidate {
            path: self.path.clone(),
            function: self.function.clone(),
            label: self.label.clone(),
            from: self.from.clone(),
            to: self.to.clone(),
            start_byte: self.start_byte,
            end_byte: self.end_byte,
        }
    }
}

/// Puts an item at the end of the list.
pub fn push_mutation_candidate(items: &mut Vec<MutationCandidate>, item: MutationCandidate)
    ensures
        final(items).deep_view() == old(items).deep_view().push(item.deep_view()),
        final(items)@.len() == old(items)@.len() + 1,
{
    let ghost before = items.deep_view();
    items.push(item);
    assert(items.deep_view() == before.push(item.deep_view()));
}

/// Puts the items of a second list behind those of the first.
pub fn append_mutation_candidates(
    items: &mut Vec<MutationCandidate>,
    more: &mut Vec<MutationCandidate>,
)
    ensures
        final(items).deep_view() == old(items).deep_view() + old(more).deep_view(),
{
    let ghost before = items.deep_view();
    let ghost tail = more.deep_view();
    items.append(more);
    assert(items.deep_view() == before + tail);
}

/// The domain that the symbol of a function hints at.
pub open spec fn symbol_domain(symbol: Seq<char>) -> Option<Seq<char>> {
    let name = lower(symbol);
    if has_text(name, "auth"@) || has_text(name, "permission"@) || has_text(name, "token"@) {
        Some("auth/permission"@)
    } else if has_text(name, "money"@) || has_text(name, "price"@) || has_text(name, "invoice"@) || has_text(name, "total"@) {
        Some("money"@)
    } else if has_text(name, "parse"@) || has_text(name, "format"@) || has_text(name, "normalize"@) {
        Some("parsing/normalization"@)
    } else if has_text(name, "marshal"@) || has_text(name, "unmarshal"@) || has_text(name, "serial"@) || has_text(name, "json"@) {
        Some("serialization"@)
    } else if has_text(name, "error"@) || has_text(name, "err"@) || has_text(name, "result"@) || has_text(name, "valid"@) {
        Some("error handling"@)
    } else if has_text(name, "limit"@) || has_text(name, "threshold"@) || has_text(name, "min"@) || has_text(name, "max"@) {
        Some("boundary"@)
    } else {
        None
    }
}

fn domain_of_symbol(symbol: &str) -> (r: Option<&'static str>)
    ensures
        r matches Some(domain) ==> symbol_domain(symbol@) == Some(domain@),
        r is None ==> symbol_domain(symbol@) is None,
{
    let lowered = to_lower(symbol);
    let name = lowered.as_str();
    if contains(name, "auth") || contains(name, "permission") || contains(name, "token") {
        Some("auth/permission")
    } else if contains(name, "money") || contains(name, "price") || contains(name, "invoice") || contains(name, "total") {
        Some("money")
    } else if contains(name, "parse") || contains(name, "format") || contains(name, "normalize") {
        Some("parsing/normalization")
    } else if contains(name, "marshal") || contains(name, "unmarshal") || contains(name, "serial") || contains(name, "json") {
        Some("serialization")
    } else if contains(name, "error") || contains(name, "err") || contains(name, "result") || contains(name, "valid") {
        Some("error handling")
    } else if contains(name, "limit") || contains(name, "threshold") || contains(name, "min") || contains(name, "max") {
        Some("boundary")
    } else {
        None
    }
}

/// A label of a change, behind the domain of the function where it has one.
pub open spec fn label_in(symbol: Seq<char>, base: Seq<char>) -> Seq<char> {
    match symbol_domain(symbol) {
        Some(domain) => domain + " "@ + base,
        None => base,
    }
}

/// A label of a change, behind the domain of the function where it has one.
pub fn domain_mutation_label(symbol: &str, base: &str) -> (r: String)
    ensures
        r@ == label_in(symbol@, base@),
{
    match domain_of_symbol(symbol) {
        Some(domain) => cat3(domain, " ", base),
        None => owned(base),
    }
}

/// A change to a function.
pub open spec fn change(
    function: GoFunctionModel,
    base: Seq<char>,
    from: Seq<char>,
    to: Seq<char>,
    start: int,
    end: int,
) -> MutationCandidateModel {
    MutationCandidateModel {
        path: function.path,
        function: function.symbol,
        label: label_in(function.symbol, base),
        from,
        to,
        start_byte: start as usize,
        end_byte: end as usize,
    }
}

fn make_change(
    function: &GoFunction,
    base: &str,
    from: &str,
    to: &str,
    start: usize,
    end: usize,
) -> (r: MutationCandidate)
    ensures
        r.deep_view() == change(function.deep_view(), base@, from@, to@, start as int, end as int),
{
    MutationCandidate {
        path: owned(function.path.as_str()),
        function: owned(function.symbol.as_str()),
        label: domain_mutation_label(function.symbol.as_str(), base),
        from: owned(from),
        to: owned(to),
        start_byte: start,
        end_byte: end,
    }
}

/// What goes in place of a binary operator.
pub open spec fn binary_swap(operator: Seq<char>) -> Option<Seq<char>> {
    if operator == "=="@ {
        Some("!="@)
    } else if operator == "!="@ {
        Some("=="@)
    } else if operator == ">="@ {
        Some(">"@)
    } else if operator == "<="@ {
        Some("<"@)
    } else if operator == ">"@ {
        Some(">="@)
    } else if operator == "<"@ {
        Some("<="@)
    } else if operator == "&&"@ {
        Some("||"@)
    } else if operator == "||"@ {
        Some("&&"@)
    } else if operator == "+"@ {
        Some("-"@)
    } else if operator == "-"@ {
        Some("+"@)
    } else if operator == "*"@ {
        Some("/"@)
    } else if operator == "/"@ {
        Some("*"@)
    } else if operator == "%"@ {
        Some("*"@)
    } else if operator == "&"@ {
        Some("|"@)
    } else if operator == "|"@ {
        Some("&"@)
    } else if operator == "^"@ {
        Some("&"@)
    } else if operator == "&^"@ {
        Some("|"@)
    } else if operator == "<<"@ {
        Some(">>"@)
    } else if operator == ">>"@ {
        Some("<<"@)
    } else {
        None
    }
}

/// What goes in place of a binary operator.
pub fn binary_operator_replacement(operator: &str) -> (r: Option<&'static str>)
    ensures
        r matches Some(to) ==> binary_swap(operator@) == Some(to@),
        r is None ==> binary_swap(operator@) is None,
{
    if same(operator, "==") {
        Some("!=")
    } else if same(operator, "!=") {
        Some("==")
    } else if same(operator, ">=") {
        Some(">")
    } else if same(operator, "<=") {
        Some("<")
    } else if same(operator, ">") {
        Some(">=")
    } else if same(operator, "<") {
        Some("<=")
    } else if same(operator, "&&") {
        Some("||")
    } else if same(operator, "||") {
        Some("&&")
    } else if same(operator, "+") {
        Some("-")
    } else if same(operator, "-") {
        Some("+")
    } else if same(operator, "*") {
        Some("/")
    } else if same(operator, "/") {
        Some("*")
    } else if same(operator, "%") {
        Some("*")
    } else if same(operator, "&") {
        Some("|")
    } else if same(operator, "|") {
        Some("&")
    } else if same(operator, "^") {
        Some("&")
    } else if same(operator, "&^") {
        Some("|")
    } else if same(operator, "<<") {
        Some(">>")
    } else if same(operator, ">>") {
        Some("<<")
    } else {
        None
    }
}

/// What goes in place of an operator that assigns.
pub open spec fn assignment_swap(operator: Seq<char>) -> Option<Seq<char>> {
    if operator == "+="@ {
        Some("-="@)
    } else if operator == "-="@ {
        Some("+="@)
    } else if operator == "*="@ {
        Some("/="@)
    } else if operator == "/="@ {
        Some("*="@)
    } else if operator == "%="@ {
        Some("*="@)
    } else if operator == "&="@ {
        Some("|="@)
    } else if operator == "|="@ {
        Some("&="@)
    } else if operator == "^="@ {
        Some("&="@)
    } else if operator == "&^="@ {
        Some("|="@)
    } else if operator == "<<="@ {
        Some(">>="@)
    } else if operator == ">>="@ {
        Some("<<="@)
    } else {
        None
    }
}

/// What goes in place of an operator that assigns.
pub fn assignment_operator_replacement(operator: &str) -> (r: Option<&'static str>)
    ensures
        r matches Some(to) ==> assignment_swap(operator@) == Some(to@),
        r is None ==> assignment_swap(operator@) is None,
{
    if same(operator, "+=") {
        Some("-=")
    } else if same(operator, "-=") {
        Some("+=")
    } else if same(operator, "*=") {
        Some("/=")
    } else if same(operator, "/=") {
        Some("*=")
    } else if same(operator, "%=") {
        Some("*=")
    } else if same(operator, "&=") {
        Some("|=")
    } else if same(operator, "|=") {
        Some("&=")
    } else if same(operator, "^=") {
        Some("&=")
    } else if same(operator, "&^=") {
        Some("|=")
    } else if same(operator, "<<=") {
        Some(">>=")
    } else if same(operator, ">>=") {
        Some("<<=")
    } else {
        None
    }
}

/// How the removal of a unary operator is labelled.
pub open spec fn unary_label(operator: Seq<char>) -> Option<Seq<char>> {
    if operator == "!"@ {
        Some("boolean negation removal"@)
    } else if operator == "-"@ {
        Some("invert negative mutation"@)
    } else if operator == "^"@ {
        Some("bitwise negation removal"@)
    } else {
        None
    }
}

/// How the removal of a unary operator is labelled.
pub fn unary_operator_label(operator: &str) -> (r: Option<&'static str>)
    ensures
        r matches Some(to) ==> unary_label(operator@) == Some(to@),
        r is None ==> unary_label(operator@) is None,
{
    if same(operator, "!") {
        Some("boolean negation removal")
    } else if same(operator, "-") {
        Some("invert negative mutation")
    } else if same(operator, "^") {
        Some("bitwise negation removal")
    } else {
        None
    }
}

/// What kind of operator is looked for.
#[derive(Debug, Clone, Copy, PartialEq, Eq, Structural)]
pub enum OperatorKind {
    Binary,
    Assignment,
    Unary,
}

impl OperatorKind {
    /// Whether an operator is of the kind.
    pub open spec fn covers(self, operator: Seq<char>) -> bool {
        match self {
            OperatorKind::Binary => binary_swap(operator) is Some,
            OperatorKind::Assignment => operator == "="@ || assignment_swap(operator) is Some,
            OperatorKind::Unary => unary_label(operator) is Some,
        }
    }

    fn has_operator(self, operator: &str) -> (r: bool)
        ensures
            r == self.covers(operator@),
    {
        match self {
            OperatorKind::Binary => binary_operator_replacement(operator).is_some(),
            OperatorKind::Assignment => same(operator, "=") || assignment_operator_replacement(
                operator,
            ).is_some(),
            OperatorKind::Unary => unary_operator_label(operator).is_some(),
        }
    }
}

/// The first child, from a node on, that is an operator of a kind.
pub open spec fn operator_from(
    nodes: Seq<GoNodeModel>,
    depth: u32,
    kind: OperatorKind,
    from: int,
) -> Option<int>
    decreases nodes.len() - from,
{
    if from < 0 || from >= nodes.len() || nodes[from].depth <= depth {
        None
    } else if nodes[from].depth == depth + 1 && kind.covers(nodes[from].kind) {
        Some(from)
    } else {
        operator_from(nodes, depth, kind, from + 1)
    }
}

/// The first child of a node that is an operator of a kind.
pub open spec fn operator_in(nodes: Seq<GoNodeModel>, i: int, kind: OperatorKind) -> Option<int> {
    operator_from(nodes, nodes[i].depth, kind, i + 1)
}

/// The first child of a node that is an operator of a kind.
pub fn operator_node(nodes: &Vec<GoNode>, i: usize, kind: OperatorKind) -> (r: Option<usize>)
    requires
        i < nodes@.len(),
    ensures
        r matches Some(k) ==> i < k < nodes@.len() && operator_in(
            nodes.deep_view(),
            i as int,
            kind,
        ) == Some(k as int),
        r is None ==> operator_in(nodes.deep_view(), i as int, kind) is None,
{
    let ghost all = nodes.deep_view();
    let depth: u32 = nodes[i].depth;
    let n: usize = nodes.len();
    let mut j: usize = i + 1;
    assert(all[i as int] == nodes@[i as int].deep_view());
    while j < nodes.len()
        invariant
            i < j <= nodes@.len(),
            all == nodes.deep_view(),
            depth == all[i as int].depth,
            operator_from(all, depth, kind, i + 1) == operator_from(all, depth, kind, j as int),
        decreases nodes@.len() - j,
    {
        assert(all[j as int] == nodes@[j as int].deep_view());
        if nodes[j].depth <= depth {
            return None;
        }
        if nodes[j].depth - 1 == depth && kind.has_operator(nodes[j].kind.as_str()) {
            return Some(j);
        }
        j = j + 1;
    }
    None
}

/// Whether a comparison asks for an error.
pub open spec fn asks_for_error(left: Seq<char>, right: Seq<char>) -> bool {
    ||| left == "err"@ && right == "nil"@
    ||| left == "nil"@ && right == "err"@
    ||| ends(left, "Err"@) && right == "nil"@
    ||| ends(right, "Err"@) && left == "nil"@
}

/// Whether a comparison asks for an error.
pub fn is_err_nil_comparison(left: &str, right: &str) -> (r: bool)
    ensures
        r == asks_for_error(left@, right@),
{
    (same(left, "err") && same(right, "nil")) || (same(left, "nil") && same(right, "err")) || (
    ends_with(left, "Err") && same(right, "nil")) || (ends_with(right, "Err") && same(left, "nil"))
}

/// How a change of a binary operator is labelled.
pub open spec fn binary_label(op: Seq<char>, left: Seq<char>, right: Seq<char>) -> Seq<char> {
    if asks_for_error(left, right) {
        "error/nil branch inversion"@
    } else if op == "=="@ || op == "!="@ {
        "equality inversion"@
    } else if op == "&&"@ || op == "||"@ {
        "boolean connector inversion"@
    } else if op == "+"@ || op == "-"@ {
        "arithmetic direction mutation"@
    } else if op == "*"@ || op == "/"@ || op == "%"@ {
        "arithmetic operator mutation"@
    } else if op == "&"@ || op == "|"@ || op == "^"@ || op == "&^"@ || op == "<<"@ || op == ">>"@ {
        "bitwise operator mutation"@
    } else {
        "comparison boundary mutation"@
    }
}

fn label_of_binary(op: &str, left: &str, right: &str) -> (r: &'static str)
    ensures
        r@ == binary_label(op@, left@, right@),
{
    if is_err_nil_comparison(left, right) {
        "error/nil branch inversion"
    } else if same(op, "==") || same(op, "!=") {
        "equality inversion"
    } else if same(op, "&&") || same(op, "||") {
        "boolean connector inversion"
    } else if same(op, "+") || same(op, "-") {
        "arithmetic direction mutation"
    } else if same(op, "*") || same(op, "/") || same(op, "%") {
        "arithmetic operator mutation"
    } else if same(op, "&") || same(op, "|") || same(op, "^") || same(op, "&^") || same(op, "<<")
        || same(op, ">>") {
        "bitwise operator mutation"
    } else {
        "comparison boundary mutation"
    }
}

/// One side of an operation, without the blanks around it; empty where there is none or
/// its text could not be read.
pub open spec fn side(nodes: Seq<GoNodeModel>, source: Seq<char>, i: int, name: Seq<char>) -> Seq<
    char,
> {
    match child_in_field(nodes, i, name) {
        Some(k) => match text_of_node(source, nodes[k]) {
            Some(text) => trimmed(text),
            None => Seq::empty(),
        },
        None => Seq::empty(),
    }
}

fn side_text(nodes: &Vec<GoNode>, source: &Vec<char>, i: usize, name: &str) -> (r: String)
    requires
        i < nodes@.len(),
    ensures
        r@ == side(nodes.deep_view(), source@, i as int, name@),
{
    if let Some(k) = child_by_field_name(nodes, i, name) {
        assert(nodes.deep_view()[k as int] == nodes@[k as int].deep_view());
        if let Some(text) = node_text(source, &nodes[k]) {
            return trim(text.as_str());
        }
    }
    let none = String::new();
    assert(none@ =~= Seq::<char>::empty());
    none
}

/// The change of a binary operator.
pub open spec fn binary_change(
    nodes: Seq<GoNodeModel>,
    source: Seq<char>,
    function: GoFunctionModel,
    i: int,
) -> Option<MutationCandidateModel> {
    match operator_in(nodes, i, OperatorKind::Binary) {
        Some(k) => match binary_swap(nodes[k].kind) {
            Some(to) => Some(
                change(
                    function,
                    binary_label(
                        nodes[k].kind,
                        side(nodes, source, i, "left"@),
                        side(nodes, source, i, "right"@),
                    ),
                    nodes[k].kind,
                    to,
                    nodes[k].start_byte as int,
                    nodes[k].end_byte as int,
                ),
            ),
            None => None,
        },
        None => None,
    }
}

/// The change of a binary operator.
pub fn mutation_candidate_from_binary(
    nodes: &Vec<GoNode>,
    source: &Vec<char>,
    function: &GoFunction,
    i: usize,
) -> (r: Option<MutationCandidate>)
    requires
        i < nodes@.len(),
    ensures
        r.deep_view() == binary_change(nodes.deep_view(), source@, function.deep_view(), i as int),
{
    match operator_node(nodes, i, OperatorKind::Binary) {
        Some(k) => {
            assert(nodes.deep_view()[k as int] == nodes@[k as int].deep_view());
            let op = nodes[k].kind.as_str();
            match binary_operator_replacement(op) {
                Some(to) => {
                    let left = side_text(nodes, source, i, "left");
                    let right = side_text(nodes, source, i, "right");
                    let base = label_of_binary(op, left.as_str(), right.as_str());
                    Some(
                        make_change(
                            function,
                            base,
                            op,
                            to,
                            nodes[k].start_byte,
                            nodes[k].end_byte,
                        ),
                    )
                },
                None => None,
            }
        },
        None => None,
    }
}

/// Whether an expression is a quotation mark and nothing behind it is one.
pub open spec fn simple_literal(expression: Seq<char>) -> bool {
    starts(expression, "\""@) && ends(expression, "\""@) && !has_text(
        expression.skip(1),
        "\""@,
    )
}

/// Whether an expression is a quotation mark and nothing behind it is one.
pub fn is_simple_string_literal(expression: &str) -> (r: bool)
    ensures
        r == simple_literal(expression@),
{
    if starts_with(expression, "\"") && ends_with(expression, "\"") {
        proof {
            reveal_strlit("\"");
        }
        let chars = chars_of(expression);
        let n: usize = chars.len();
        let rest = text_between(&chars, 1, n);
        assert(rest@ =~= expression@.skip(1));
        !contains(rest.as_str(), "\"")
    } else {
        false
    }
}

/// What goes in place of an expression that is returned, with a label before it.
pub open spec fn return_swap(expression: Seq<char>) -> Option<(Seq<char>, Seq<char>)> {
    if expression == "true"@ {
        Some(("boolean default flip"@, "false"@))
    } else if expression == "false"@ {
        Some(("boolean default flip"@, "true"@))
    } else if expression == "err"@ {
        Some(("error suppression"@, "nil"@))
    } else if expression == "0"@ {
        Some(("zero-value perturbation"@, "1"@))
    } else if expression == "1"@ {
        Some(("one-value perturbation"@, "0"@))
    } else if expression == "\"\""@ {
        Some(("string-default perturbation"@, "\"veritas-mutant\""@))
    } else if expression == "\"anonymous\""@ {
        Some(("string-default perturbation"@, "\"\""@))
    } else if simple_literal(expression) {
        Some(("string-default perturbation"@, "\"\""@))
    } else {
        None
    }
}

/// What goes in place of an expression that is returned, with a label before it.
pub fn return_replacement(expression: &str) -> (r: Option<(&'static str, &'static str)>)
    ensures
        r matches Some(swap) ==> return_swap(expression@) == Some((swap.0@, swap.1@)),
        r is None ==> return_swap(expression@) is None,
{
    if same(expression, "true") {
        Some(("boolean default flip", "false"))
    } else if same(expression, "false") {
        Some(("boolean default flip", "true"))
    } else if same(expression, "err") {
        Some(("error suppression", "nil"))
    } else if same(expression, "0") {
        Some(("zero-value perturbation", "1"))
    } else if same(expression, "1") {
        Some(("one-value perturbation", "0"))
    } else if same(expression, "\"\"") {
        Some(("string-default perturbation", "\"veritas-mutant\""))
    } else if same(expression, "\"anonymous\"") {
        Some(("string-default perturbation", "\"\""))
    } else if is_simple_string_literal(expression) {
        Some(("string-default perturbation", "\"\""))
    } else {
        None
    }
}

/// The change of a piece of a node, given the text of the node and where the piece starts
/// in it.
pub open spec fn piece_change(
    function: GoFunctionModel,
    base: Seq<char>,
    from: Seq<char>,
    to: Seq<char>,
    node: GoNodeModel,
    text: Seq<char>,
    at: int,
) -> MutationCandidateModel {
    let start = node.start_byte + byte_len(text.take(at));
    change(function, base, from, to, start, start + byte_len(from))
}

proof fn lemma_piece_inside(text: Seq<char>, from: Seq<char>, at: int)
    requires
        0 <= at,
        occurs_at(text, from, at),
    ensures
        0 <= byte_len(text.take(at)),
        0 <= byte_len(from),
        byte_len(text.take(at)) + byte_len(from) <= byte_len(text),
{
    let end = at + from.len();
    assert(text.take(end) =~= text.take(at) + from);
    lemma_byte_len_sum(text.take(at), from);
    lemma_prefix_bytes(text, at);
    lemma_prefix_bytes(text, end);
    lemma_prefix_bytes(from, from.len() as int);
    assert(from.take(from.len() as int) =~= from);
}

fn make_piece_change(
    function: &GoFunction,
    base: &str,
    from: &str,
    to: &str,
    node: &GoNode,
    text: &Vec<char>,
    at: usize,
) -> (r: MutationCandidate)
    requires
        byte_len(text@) == node.end_byte - node.start_byte,
        occurs_at(text@, from@, at as int),
    ensures
        r.deep_view() == piece_change(
            function.deep_view(),
            base@,
            from@,
            to@,
            node.deep_view(),
            text@,
            at as int,
        ),
{
    proof {
        lemma_piece_inside(text@, from@, at as int);
        lemma_prefix_bytes(text@, at as int);
    }
    let width: usize = node.end_byte - node.start_byte;
    let offset: usize = byte_offset(text, at, width);
    let chars = chars_of(from);
    let length: usize = byte_offset(&chars, chars.len(), width);
    assert(chars@.take(chars@.len() as int) =~= from@);
    let start: usize = node.start_byte + offset;
    make_change(function, base, from, to, start, start + length)
}

/// The change of an expression that is returned, given the text of the statement.
pub open spec fn return_change(
    function: GoFunctionModel,
    node: GoNodeModel,
    statement: Seq<char>,
) -> Option<MutationCandidateModel> {
    match without_prefix(trimmed(statement), "return"@) {
        Some(rest) => {
            let expression = trimmed(rest);
            match (return_swap(expression), find(statement, expression)) {
                (Some(swap), Some(at)) => Some(
                    piece_change(function, swap.0, expression, swap.1, node, statement, at),
                ),
                _ => None,
            }
        },
        None => None,
    }
}

/// The change of an expression that is returned, given the text of the statement.
pub fn mutation_candidate_from_return(
    function: &GoFunction,
    node: &GoNode,
    statement: &str,
) -> (r: Option<MutationCandidate>)
    requires
        byte_len(statement@) == node.end_byte - node.start_byte,
    ensures
        r.deep_view() == return_change(function.deep_view(), node.deep_view(), statement@),
{
    let bare = trim(statement);
    let rest: String = match strip_prefix(bare.as_str(), "return") {
        Some(rest) => rest,
        None => return None,
    };
    let expression = trim(rest.as_str());
    let chars = chars_of(statement);
    let wanted = chars_of(expression.as_str());
    proof {
        lemma_find_is_first(statement@, expression@, 0);
    }
    match (return_replacement(expression.as_str()), find_index(&chars, &wanted, 0)) {
        (Some(swap), Some(at)) => Some(
            make_piece_change(function, swap.0, expression.as_str(), swap.1, node, &chars, at),
        ),
        _ => None,
    }
}

/// The change of an increment or decrement, given the text of the statement.
pub open spec fn update_change(
    function: GoFunctionModel,
    node: GoNodeModel,
    statement: Seq<char>,
) -> Option<MutationCandidateModel> {
    match (find(statement, "++"@), find(statement, "--"@)) {
        (Some(at), _) => Some(
            piece_change(
                function,
                "increment decrement mutation"@,
                "++"@,
                "--"@,
                node,
                statement,
                at,
            ),
        ),
        (None, Some(at)) => Some(
            piece_change(
                function,
                "increment decrement mutation"@,
                "--"@,
                "++"@,
                node,
                statement,
                at,
            ),
        ),
        _ => None,
    }
}

/// The change of an increment or decrement, given the text of the statement.
pub fn mutation_candidate_from_update(
    function: &GoFunction,
    node: &GoNode,
    statement: &str,
) -> (r: Option<MutationCandidate>)
    requires
        byte_len(statement@) == node.end_byte - node.start_byte,
    ensures
        r.deep_view() == update_change(function.deep_view(), node.deep_view(), statement@),
{
    let chars = chars_of(statement);
    let base = "increment decrement mutation";
    proof {
        lemma_find_is_first(statement@, "++"@, 0);
        lemma_find_is_first(statement@, "--"@, 0);
    }
    match find_index(&chars, &chars_of("++"), 0) {
        Some(at) => Some(make_piece_change(function, base, "++", "--", node, &chars, at)),
        None => match find_index(&chars, &chars_of("--"), 0) {
            Some(at) => Some(make_piece_change(function, base, "--", "++", node, &chars, at)),
            None => None,
        },
    }
}

/// How a change of an operator that assigns is labelled.
pub open spec fn assignment_label(op: Seq<char>) -> Seq<char> {
    if op == "&="@ || op == "|="@ || op == "^="@ || op == "&^="@ || op == "<<="@ || op == ">>="@ {
        "bitwise assignment mutation"@
    } else {
        "arithmetic assignment mutation"@
    }
}

/// The change of an operator that assigns.
pub open spec fn assignment_change(
    nodes: Seq<GoNodeModel>,
    function: GoFunctionModel,
    i: int,
) -> Option<MutationCandidateModel> {
    match operator_in(nodes, i, OperatorKind::Assignment) {
        Some(k) => match assignment_swap(nodes[k].kind) {
            Some(to) => Some(
                change(
                    function,
                    assignment_label(nodes[k].kind),
                    nodes[k].kind,
                    to,
                    nodes[k].start_byte as int,
                    nodes[k].end_byte as int,
                ),
            ),
            None => None,
        },
        None => None,
    }
}

/// The change of an operator that assigns.
pub fn mutation_candidate_from_assignment(
    nodes: &Vec<GoNode>,
    function: &GoFunction,
    i: usize,
) -> (r: Option<MutationCandidate>)
    requires
        i < nodes@.len(),
    ensures
        r.deep_view() == assignment_change(nodes.deep_view(), function.deep_view(), i as int),
{
    match operator_node(nodes, i, OperatorKind::Assignment) {
        Some(k) => {
            assert(nodes.deep_view()[k as int] == nodes@[k as int].deep_view());
            let op = nodes[k].kind.as_str();
            match assignment_operator_replacement(op) {
                Some(to) => {
                    let bitwise = same(op, "&=") || same(op, "|=") || same(op, "^=") || same(
                        op,
                        "&^=",
                    ) || same(op, "<<=") || same(op, ">>=");
                    let base = if bitwise {
                        "bitwise assignment mutation"
                    } else {
                        "arithmetic assignment mutation"
                    };
                    Some(
                        make_change(
                            function,
                            base,
                            op,
                            to,
                            nodes[k].start_byte,
                            nodes[k].end_byte,
                        ),
                    )
                },
                None => None,
            }
        },
        None => None,
    }
}

/// The removal of an assignment of a value to itself: whether the texts could be read,
/// and the change, if any.
pub open spec fn self_assignment_change(
    nodes: Seq<GoNodeModel>,
    source: Seq<char>,
    function: GoFunctionModel,
    i: int,
) -> Option<Option<MutationCandidateModel>> {
    match (
        operator_in(nodes, i, OperatorKind::Assignment),
        child_in_field(nodes, i, "left"@),
        child_in_field(nodes, i, "right"@),
    ) {
        (Some(k), Some(l), Some(r)) => if nodes[k].kind != "="@ {
            Some(None)
        } else {
            match (text_of_node(source, nodes[l]), text_of_node(source, nodes[r])) {
                (Some(left), Some(right)) => if trimmed(left).len() == 0 || trimmed(left)
                    != trimmed(right) {
                    Some(None)
                } else {
                    match text_of_node(source, nodes[i]) {
                        Some(text) => Some(
                            Some(
                                change(
                                    function,
                                    "remove self-assignment mutation"@,
                                    text,
                                    Seq::empty(),
                                    nodes[i].start_byte as int,
                                    nodes[i].end_byte as int,
                                ),
                            ),
                        ),
                        None => None,
                    }
                },
                _ => None,
            }
        },
        _ => Some(None),
    }
}

/// The removal of an assignment of a value to itself: nothing where the texts could not
/// be read, and then the change, if any.
pub fn mutation_candidate_from_self_assignment(
    nodes: &Vec<GoNode>,
    source: &Vec<char>,
    function: &GoFunction,
    i: usize,
) -> (r: Option<Option<MutationCandidate>>)
    requires
        i < nodes@.len(),
    ensures
        r.deep_view() == self_assignment_change(
            nodes.deep_view(),
            source@,
            function.deep_view(),
            i as int,
        ),
{
    match (
        operator_node(nodes, i, OperatorKind::Assignment),
        child_by_field_name(nodes, i, "left"),
        child_by_field_name(nodes, i, "right"),
    ) {
        (Some(k), Some(l), Some(r)) => {
            assert(nodes.deep_view()[k as int] == nodes@[k as int].deep_view());
            assert(nodes.deep_view()[l as int] == nodes@[l as int].deep_view());
            assert(nodes.deep_view()[r as int] == nodes@[r as int].deep_view());
            assert(nodes.deep_view()[i as int] == nodes@[i as int].deep_view());
            if !same(nodes[k].kind.as_str(), "=") {
                return Some(None);
            }
            match (node_text(source, &nodes[l]), node_text(source, &nodes[r])) {
                (Some(left_text), Some(right_text)) => {
                    let left = trim(left_text.as_str());
                    let right = trim(right_text.as_str());
                    if left.as_str().unicode_len() == 0 || !same(left.as_str(), right.as_str()) {
                        return Some(None);
                    }
                    match node_text(source, &nodes[i]) {
                        Some(text) => {
                            let none = String::new();
                            assert(none@ =~= Seq::<char>::empty());
                            Some(
                                Some(
                                    make_change(
                                        function,
                                        "remove self-assignment mutation",
                                        text.as_str(),
                                        none.as_str(),
                                        nodes[i].start_byte,
                                        nodes[i].end_byte,
                                    ),
                                ),
                            )
                        },
                        None => None,
                    }
                },
                _ => None,
            }
        },
        _ => Some(None),
    }
}

/// The removal of a unary operator.
pub open spec fn unary_change(
    nodes: Seq<GoNodeModel>,
    function: GoFunctionModel,
    i: int,
) -> Option<MutationCandidateModel> {
    match operator_in(nodes, i, OperatorKind::Unary) {
        Some(k) => match unary_label(nodes[k].kind) {
            Some(base) => Some(
                change(
                    function,
                    base,
                    nodes[k].kind,
                    Seq::empty(),
                    nodes[k].start_byte as int,
                    nodes[k].end_byte as int,
                ),
            ),
            None => None,
        },
        None => None,
    }
}

/// The removal of a unary operator.
pub fn mutation_candidate_from_unary(
    nodes: &Vec<GoNode>,
    function: &GoFunction,
    i: usize,
) -> (r: Option<MutationCandidate>)
    requires
        i < nodes@.len(),
    ensures
        r.deep_view() == unary_change(nodes.deep_view(), function.deep_view(), i as int),
{
    match operator_node(nodes, i, OperatorKind::Unary) {
        Some(k) => {
            assert(nodes.deep_view()[k as int] == nodes@[k as int].deep_view());
            let op = nodes[k].kind.as_str();
            match unary_operator_label(op) {
                Some(base) => {
                    let none = String::new();
                    assert(none@ =~= Seq::<char>::empty());
                    Some(
                        make_change(
                            function,
                            base,
                            op,
                            none.as_str(),
                            nodes[k].start_byte,
                            nodes[k].end_byte,
                        ),
                    )
                },
                None => None,
            }
        },
        None => None,
    }
}

/// The change of a statement that leaves or repeats a loop.
pub open spec fn branch_change(
    node: GoNodeModel,
    function: GoFunctionModel,
) -> MutationCandidateModel {
    if node.kind == "break_statement"@ {
        change(
            function,
            "loop control mutation"@,
            "break"@,
            "continue"@,
            node.start_byte as int,
            node.end_byte as int,
        )
    } else {
        change(
            function,
            "loop control mutation"@,
            "continue"@,
            "break"@,
            node.start_byte as int,
            node.end_byte as int,
        )
    }
}

/// The change of a statement that leaves or repeats a loop.
pub fn mutation_candidate_from_branch(
    node: &GoNode,
    function: &GoFunction,
) -> (r: MutationCandidate)
    ensures
        r.deep_view() == branch_change(node.deep_view(), function.deep_view()),
{
    let base = "loop control mutation";
    if same(node.kind.as_str(), "break_statement") {
        make_change(function, base, "break", "continue", node.start_byte, node.end_byte)
    } else {
        make_change(function, base, "continue", "break", node.start_byte, node.end_byte)
    }
}

/// What goes in place of a literal.
pub open spec fn literal_swap(literal: Seq<char>) -> Option<Seq<char>> {
    if literal == "true"@ {
        Some("false"@)
    } else if literal == "false"@ {
        Some("true"@)
    } else if literal == "0"@ {
        Some("1"@)
    } else if literal == "1"@ {
        Some("0"@)
    } else {
        None
    }
}

/// What goes in place of a literal.
pub fn literal_replacement(literal: &str) -> (r: Option<&'static str>)
    ensures
        r matches Some(to) ==> literal_swap(literal@) == Some(to@),
        r is None ==> literal_swap(literal@) is None,
{
    if same(literal, "true") {
        Some("false")
    } else if same(literal, "false") {
        Some("true")
    } else if same(literal, "0") {
        Some("1")
    } else if same(literal, "1") {
        Some("0")
    } else {
        None
    }
}

/// The change of a literal, given its text.
pub open spec fn literal_change(
    node: GoNodeModel,
    function: GoFunctionModel,
    text: Seq<char>,
) -> Option<MutationCandidateModel> {
    match literal_swap(trimmed(text)) {
        Some(to) => Some(
            change(
                function,
                "literal value mutation"@,
                trimmed(text),
                to,
                node.start_byte as int,
                node.end_byte as int,
            ),
        ),
        None => None,
    }
}

/// The change of a literal, given its text.
pub fn mutation_candidate_from_literal(
    node: &GoNode,
    function: &GoFunction,
    text: &str,
) -> (r: Option<MutationCandidate>)
    ensures
        r.deep_view() == literal_change(node.deep_view(), function.deep_view(), text@),
{
    let literal = trim(text);
    match literal_replacement(literal.as_str()) {
        Some(to) => Some(
            make_change(
                function,
                "literal value mutation",
                literal.as_str(),
                to,
                node.start_byte,
                node.end_byte,
            ),
        ),
        None => None,
    }
}

// ---------------------------------------------------------------------------
// The changes of a function
// ---------------------------------------------------------------------------
/// One change, or none.
pub open spec fn one(candidate: Option<MutationCandidateModel>) -> Seq<MutationCandidateModel> {
    match candidate {
        Some(known) => seq![known],
        None => Seq::empty(),
    }
}

/// The changes of a node; nothing where its texts could not be read.
pub open spec fn changes_at(
    nodes: Seq<GoNodeModel>,
    source: Seq<char>,
    function: GoFunctionModel,
    i: int,
) -> Option<Seq<MutationCandidateModel>> {
    let node = nodes[i];
    let kind = node.kind;
    if kind == "binary_expression"@ {
        Some(one(binary_change(nodes, source, function, i)))
    } else if kind == "return_statement"@ {
        match text_of_node(source, node) {
            Some(text) => Some(one(return_change(function, node, text))),
            None => None,
        }
    } else if kind == "inc_statement"@ || kind == "dec_statement"@ {
        match text_of_node(source, node) {
            Some(text) => Some(one(update_change(function, node, text))),
            None => None,
        }
    } else if kind == "assignment_statement"@ {
        match self_assignment_change(nodes, source, function, i) {
            Some(own) => Some(one(assignment_change(nodes, function, i)) + one(own)),
            None => None,
        }
    } else if kind == "unary_expression"@ {
        Some(one(unary_change(nodes, function, i)))
    } else if kind == "break_statement"@ || kind == "continue_statement"@ {
        Some(one(Some(branch_change(node, function))))
    } else if kind == "true"@ || kind == "false"@ || kind == "int_literal"@ {
        match text_of_node(source, node) {
            Some(text) => Some(one(literal_change(node, function, text))),
            None => None,
        }
    } else {
        Some(Seq::empty())
    }
}

fn push_one(candidates: &mut Vec<MutationCandidate>, candidate: Option<MutationCandidate>)
    ensures
        final(candidates).deep_view() == old(candidates).deep_view() + one(candidate.deep_view()),
{
    let ghost before = candidates.deep_view();
    if let Some(known) = candidate {
        push_mutation_candidate(candidates, known);
    }
    assert(candidates.deep_view() =~= before + one(candidate.deep_view()));
}

fn push_changes(
    candidates: &mut Vec<MutationCandidate>,
    nodes: &Vec<GoNode>,
    source: &Vec<char>,
    function: &GoFunction,
    i: usize,
) -> (r: bool)
    requires
        i < nodes@.len(),
    ensures
        r == (changes_at(nodes.deep_view(), source@, function.deep_view(), i as int) is Some),
        r ==> final(candidates).deep_view() == old(candidates).deep_view() + changes_at(
            nodes.deep_view(),
            source@,
            function.deep_view(),
            i as int,
        )->0,
{
    let ghost before = candidates.deep_view();
    assert(nodes.deep_view()[i as int] == nodes@[i as int].deep_view());
    let kind = nodes[i].kind.as_str();
    let text = node_text(source, &nodes[i]);
    proof {
        lemma_piece_bytes(
            source@,
            nodes@[i as int].start_byte as int,
            nodes@[i as int].end_byte as int,
        );
    }
    if same(kind, "binary_expression") {
        push_one(candidates, mutation_candidate_from_binary(nodes, source, function, i));
    } else if same(kind, "return_statement") {
        match &text {
            Some(statement) => {
                push_one(
                    candidates,
                    mutation_candidate_from_return(function, &nodes[i], statement.as_str()),
                );
            },
            None => return false,
        }
    } else if same(kind, "inc_statement") || same(kind, "dec_statement") {
        match &text {
            Some(statement) => {
                push_one(
                    candidates,
                    mutation_candidate_from_update(function, &nodes[i], statement.as_str()),
                );
            },
            None => return false,
        }
    } else if same(kind, "assignment_statement") {
        match mutation_candidate_from_self_assignment(nodes, source, function, i) {
            Some(own) => {
                let ghost second = one(own.deep_view());
                let ghost first = one(
                    assignment_change(nodes.deep_view(), function.deep_view(), i as int),
                );
                push_one(candidates, mutation_candidate_from_assignment(nodes, function, i));
                push_one(candidates, own);
                assert(before + first + second =~= before + (first + second));
            },
            None => return false,
        }
    } else if same(kind, "unary_expression") {
        push_one(candidates, mutation_candidate_from_unary(nodes, function, i));
    } else if same(kind, "break_statement") || same(kind, "continue_statement") {
        push_one(candidates, Some(mutation_candidate_from_branch(&nodes[i], function)));
    } else if same(kind, "true") || same(kind, "false") || same(kind, "int_literal") {
        match &text {
            Some(literal) => {
                push_one(
                    candidates,
                    mutation_candidate_from_literal(&nodes[i], function, literal.as_str()),
                );
            },
            None => return false,
        }
    } else {
        assert(before + Seq::<MutationCandidateModel>::empty() =~= before);
    }
    true
}

/// Whether a node lies outside a function.
pub open spec fn outside(node: GoNodeModel, function: GoFunctionModel) -> bool {
    node.end_byte <= function.start_byte || node.start_byte >= function.end_byte
}

/// Whether a node lies within a function.
pub open spec fn within(node: GoNodeModel, function: GoFunctionModel) -> bool {
    node.start_byte >= function.start_byte && node.end_byte <= function.end_byte
}

/// The changes of a function in the nodes from one on: those of the nodes within it. What
/// is below a node outside the function is passed over.
pub open spec fn changes_from(
    nodes: Seq<GoNodeModel>,
    source: Seq<char>,
    function: GoFunctionModel,
    i: int,
) -> Option<Seq<MutationCandidateModel>>
    decreases nodes.len() - i,
    when 0 <= i
    via changes_from_ends
{
    if i >= nodes.len() {
        Some(Seq::empty())
    } else if outside(nodes[i], function) {
        changes_from(nodes, source, function, behind(nodes, i))
    } else {
        let own = if within(nodes[i], function) {
            changes_at(nodes, source, function, i)
        } else {
            Some(Seq::empty())
        };
        match (own, changes_from(nodes, source, function, i + 1)) {
            (Some(first), Some(rest)) => Some(first + rest),
            _ => None,
        }
    }
}

#[via_fn]
proof fn changes_from_ends(
    nodes: Seq<GoNodeModel>,
    source: Seq<char>,
    function: GoFunctionModel,
    i: int,
) {
    if i < nodes.len() {
        lemma_behind_is_later(nodes, nodes[i].depth, i + 1);
    }
}

proof fn lemma_behind_is_later(nodes: Seq<GoNodeModel>, depth: u32, from: int)
    requires
        0 <= from <= nodes.len(),
    ensures
        from <= behind_from(nodes, depth, from) <= nodes.len(),
    decreases nodes.len() - from,
{
    if from < nodes.len() && nodes[from].depth > depth {
        lemma_behind_is_later(nodes, depth, from + 1);
    }
}

/// A list before what may follow.
pub open spec fn before_rest(
    front: Seq<MutationCandidateModel>,
    rest: Option<Seq<MutationCandidateModel>>,
) -> Option<Seq<MutationCandidateModel>> {
    match rest {
        Some(known) => Some(front + known),
        None => None,
    }
}

/// The changes of a function in a tree; nothing where the texts of a node could not be
/// read.
pub fn collect_go_mutation_nodes(
    nodes: &Vec<GoNode>,
    source: &Vec<char>,
    function: &GoFunction,
) -> (r: Option<Vec<MutationCandidate>>)
    ensures
        r.deep_view() == changes_from(nodes.deep_view(), source@, function.deep_view(), 0),
{
    let ghost all = nodes.deep_view();
    let ghost goal = changes_from(all, source@, function.deep_view(), 0);
    let mut candidates: Vec<MutationCandidate> = Vec::new();
    let mut i: usize = 0;
    assert(before_rest(candidates.deep_view(), goal) =~= goal) by {
        if goal is Some {
            assert(candidates.deep_view() + goal->0 =~= goal->0);
        }
    }
    while i < nodes.len()
        invariant
            i <= nodes@.len(),
            all == nodes.deep_view(),
            goal == before_rest(
                candidates.deep_view(),
                changes_from(all, source@, function.deep_view(), i as int),
            ),
            goal == changes_from(all, source@, function.deep_view(), 0),
        decreases nodes@.len() - i,
    {
        assert(all[i as int] == nodes@[i as int].deep_view());
        if nodes[i].end_byte <= function.start_byte || nodes[i].start_byte >= function.end_byte {
            i = node_behind(nodes, i);
        } else {
            let ghost front = candidates.deep_view();
            let ghost rest = changes_from(all, source@, function.deep_view(), i + 1);
            if nodes[i].start_byte >= function.start_byte && nodes[i].end_byte
                <= function.end_byte {
                if !push_changes(&mut candidates, nodes, source, function, i) {
                    return None;
                }
                proof {
                    let own = changes_at(all, source@, function.deep_view(), i as int)->0;
                    if rest is Some {
                        assert(front + (own + rest->0) =~= (front + own) + rest->0);
                    }
                }
            } else {
                proof {
                    if rest is Some {
                        assert(Seq::<MutationCandidateModel>::empty() + rest->0 =~= rest->0);
                    }
                }
            }
            i = i + 1;
        }
    }
    assert(candidates.deep_view() + Seq::<MutationCandidateModel>::empty()
        =~= candidates.deep_view());
    Some(candidates)
}

/// Whether a target is about a function.
pub open spec fn about(target_id: Seq<char>, function: GoFunctionModel) -> bool {
    if target_id == "go:project"@ {
        true
    } else {
        match without_prefix(target_id, "go:"@) {
            Some(rest) => if rest == function.path || rest == package_dir_path(function.path) {
                true
            } else {
                match rcut_at(rest, ':') {
                    Some(sides) => sides.0 == function.path && sides.1 == function.symbol,
                    None => false,
                }
            },
            None => false,
        }
    }
}

/// Whether a target is about a function.
pub fn go_target_matches_function(target_id: &str, function: &GoFunction) -> (r: bool)
    ensures
        r == about(target_id@, function.deep_view()),
{
    if same(target_id, "go:project") {
        return true;
    }
    match strip_prefix(target_id, "go:") {
        Some(rest) => {
            let dir = package_dir(function.path.as_str());
            if same(rest.as_str(), function.path.as_str()) || same(rest.as_str(), dir.as_str()) {
                return true;
            }
            match rsplit_once(rest.as_str(), ':') {
                Some(sides) => same(sides.0.as_str(), function.path.as_str()) && same(
                    sides.1.as_str(),
                    function.symbol.as_str(),
                ),
                None => false,
            }
        },
        None => false,
    }
}

/// Whether some artifact asks for changes of a function.
pub open spec fn asked_for(items: Seq<GeneratedArtifactModel>, function: GoFunctionModel) -> bool {
    exists|k: int| 0 <= k < items.len() && (#[trigger] items[k]).kind == ArtifactKind::MutationCheck && about(items[k].target_id, function)
}

fn any_mutation_check(items: &Vec<GeneratedArtifact>, function: &GoFunction) -> (r: bool)
    ensures
        r == asked_for(items.deep_view(), function.deep_view()),
{
    let ghost all = items.deep_view();
    let mut i: usize = 0;
    while i < items.len()
        invariant
            i <= items@.len(),
            all == items.deep_view(),
            forall|k: int| 0 <= k < i ==> !((#[trigger] all[k]).kind == ArtifactKind::MutationCheck && about(all[k].target_id, (function.deep_view()))),
        decreases items@.len() - i,
    {
        assert(all[i as int] == items@[i as int].deep_view());
        if items[i].kind == ArtifactKind::MutationCheck && go_target_matches_function(items[i].target_id.as_str(), function) {
            return true;
        }
        i = i + 1;
    }
    false
}

/// The functions that artifacts ask to change.
pub open spec fn functions_asked_for(
    artifacts: Seq<GeneratedArtifactModel>,
    items: Seq<GoFunctionModel>,
) -> Seq<GoFunctionModel>
    decreases items.len(),
{
    if items.len() == 0 {
        Seq::empty()
    } else if asked_for(artifacts, items.last()) {
        functions_asked_for(artifacts, items.drop_last()).push(items.last())
    } else {
        functions_asked_for(artifacts, items.drop_last())
    }
}

/// The functions that artifacts ask to change.
pub fn functions_to_change(
    artifacts: &Vec<GeneratedArtifact>,
    items: &Vec<GoFunction>,
) -> (r: Vec<GoFunction>)
    ensures
        r.deep_view() == functions_asked_for(artifacts.deep_view(), items.deep_view()),
{
    let mut out: Vec<GoFunction> = Vec::new();
    let ghost all = items.deep_view();
    let mut i: usize = 0;
    assert(out.deep_view() == functions_asked_for(artifacts.deep_view(), all.take(0)));
    while i < items.len()
        invariant
            i <= items@.len(),
            all == items.deep_view(),
            out.deep_view() == functions_asked_for(artifacts.deep_view(), all.take(i as int)),
        decreases items@.len() - i,
    {
        proof {
            lemma_take_next(all, i as int);
        }
        if any_mutation_check(artifacts, &items[i]) {
            push_go_function(&mut out, items[i].clone());
        }
        i = i + 1;
    }
    proof {
        lemma_take_all(all);
    }
    out
}

/// The functions at a path.
pub open spec fn functions_of_path(
    path: Seq<char>,
    items: Seq<GoFunctionModel>,
) -> Seq<GoFunctionModel>
    decreases items.len(),
{
    if items.len() == 0 {
        Seq::empty()
    } else if same_path(items.last().path, path) {
        functions_of_path(path, items.drop_last()).push(items.last())
    } else {
        functions_of_path(path, items.drop_last())
    }
}

fn functions_at(path: &str, items: &Vec<GoFunction>) -> (r: Vec<GoFunction>)
    ensures
        r.deep_view() == functions_of_path(path@, items.deep_view()),
{
    let mut out: Vec<GoFunction> = Vec::new();
    let ghost all = items.deep_view();
    let mut i: usize = 0;
    assert(out.deep_view() == functions_of_path(path@, all.take(0)));
    while i < items.len()
        invariant
            i <= items@.len(),
            all == items.deep_view(),
            out.deep_view() == functions_of_path(path@, all.take(i as int)),
        decreases items@.len() - i,
    {
        proof {
            lemma_take_next(all, i as int);
        }
        if path_same(items[i].path.as_str(), path) {
            push_go_function(&mut out, items[i].clone());
        }
        i = i + 1;
    }
    proof {
        lemma_take_all(all);
    }
    out
}

/// The paths of functions.
pub open spec fn function_paths(items: Seq<GoFunctionModel>) -> Seq<Seq<char>>
    decreases items.len(),
{
    if items.len() == 0 {
        Seq::empty()
    } else {
        function_paths(items.drop_last()).push(items.last().path)
    }
}

fn paths_of_functions(items: &Vec<GoFunction>) -> (r: Vec<String>)
    ensures
        r.deep_view() == function_paths(items.deep_view()),
{
    let mut out: Vec<String> = Vec::new();
    let ghost all = items.deep_view();
    let mut i: usize = 0;
    assert(out.deep_view() == function_paths(all.take(0)));
    while i < items.len()
        invariant
            i <= items@.len(),
            all == items.deep_view(),
            out.deep_view() == function_paths(all.take(i as int)),
        decreases items@.len() - i,
    {
        proof {
            lemma_take_next(all, i as int);
        }
        push_text(&mut out, owned(items[i].path.as_str()));
        i = i + 1;
    }
    proof {
        lemma_take_all(all);
    }
    out
}

/// The files that are read for the changes that artifacts ask for, in order, each once.
pub fn mutated_paths(functions: &Vec<GoFunction>, artifacts: &Vec<GeneratedArtifact>) -> (r: Vec<
    String,
>)
    ensures
        r.deep_view() == sorted_set::<ByPath>(
            function_paths(functions_asked_for(artifacts.deep_view(), functions.deep_view())),
        ),
{
    let wanted = functions_to_change(artifacts, functions);
    let paths = paths_of_functions(&wanted);
    to_sorted_set::<ByPath>(&paths)
}

/// The changes of functions in a tree, function by function; nothing where the texts of
/// a node could not be read.
pub open spec fn changes_of(
    nodes: Seq<GoNodeModel>,
    source: Seq<char>,
    functions: Seq<GoFunctionModel>,
) -> Option<Seq<MutationCandidateModel>>
    decreases functions.len(),
{
    if functions.len() == 0 {
        Some(Seq::empty())
    } else {
        match (
            changes_of(nodes, source, functions.drop_last()),
            changes_from(nodes, source, functions.last(), 0),
        ) {
            (Some(before), Some(more)) => Some(before + more),
            _ => None,
        }
    }
}

proof fn lemma_no_changes(
    nodes: Seq<GoNodeModel>,
    source: Seq<char>,
    functions: Seq<GoFunctionModel>,
    n: int,
)
    requires
        0 <= n <= functions.len(),
        changes_of(nodes, source, functions.take(n)) is None,
    ensures
        changes_of(nodes, source, functions) is None,
    decreases functions.len() - n,
{
    if n == functions.len() {
        lemma_take_all(functions);
    } else {
        lemma_take_next(functions, n);
        lemma_no_changes(nodes, source, functions, n + 1);
    }
}

/// The changes of functions in a tree, function by function; nothing where the texts of
/// a node could not be read.
pub fn collect_changes(
    nodes: &Vec<GoNode>,
    contents: &str,
    functions: &Vec<GoFunction>,
) -> (r: Option<Vec<MutationCandidate>>)
    ensures
        r.deep_view() == changes_of(nodes.deep_view(), contents@, functions.deep_view()),
{
    let source = chars_of(contents);
    let ghost all = functions.deep_view();
    let mut out: Vec<MutationCandidate> = Vec::new();
    let mut i: usize = 0;
    assert(out.deep_view() =~= Seq::<MutationCandidateModel>::empty());
    assert(all.take(0).len() == 0);
    while i < functions.len()
        invariant
            i <= functions@.len(),
            all == functions.deep_view(),
            source@ == contents@,
            changes_of(nodes.deep_view(), contents@, all.take(i as int)) == Some(out.deep_view()),
        decreases functions@.len() - i,
    {
        proof {
            lemma_take_next(all, i as int);
        }
        match collect_go_mutation_nodes(nodes, &source, &functions[i]) {
            Some(found) => {
                let mut more = found;
                append_mutation_candidates(&mut out, &mut more);
            },
            None => {
                proof {
                    lemma_no_changes(nodes.deep_view(), contents@, all, i + 1);
                }
                return None;
            },
        }
        i = i + 1;
    }
    proof {
        lemma_take_all(all);
    }
    Some(out)
}

/// The changes that artifacts ask for in a file.
pub open spec fn changes_in_file(
    functions: Seq<GoFunctionModel>,
    artifacts: Seq<GeneratedArtifactModel>,
    path: Seq<char>,
    contents: Seq<char>,
) -> Result<Seq<MutationCandidateModel>, GoSourceError> {
    match go_tree(contents) {
        Some(nodes) => match changes_of(
            nodes,
            contents,
            functions_of_path(path, functions_asked_for(artifacts, functions)),
        ) {
            Some(candidates) => Ok(candidates),
            None => Err(GoSourceError::InvalidRange),
        },
        None => Err(GoSourceError::NotParsed),
    }
}

/// The changes that artifacts ask for in a file.
pub fn go_mutation_candidates(
    functions: &Vec<GoFunction>,
    artifacts: &Vec<GeneratedArtifact>,
    path: &str,
    contents: &str,
) -> (r: Result<Vec<MutationCandidate>, GoSourceError>)
    ensures
        r matches Ok(candidates) ==> changes_in_file(
            functions.deep_view(),
            artifacts.deep_view(),
            path@,
            contents@,
        ) == Ok::<_, GoSourceError>(candidates.deep_view()),
        r matches Err(error) ==> changes_in_file(
            functions.deep_view(),
            artifacts.deep_view(),
            path@,
            contents@,
        ) == Err::<Seq<MutationCandidateModel>, _>(error),
{
    let wanted = functions_to_change(artifacts, functions);
    let here = functions_at(path, &wanted);
    match parse_go(contents) {
        Some(nodes) => match collect_changes(&nodes, contents, &here) {
            Some(candidates) => Ok(candidates),
            None => Err(GoSourceError::InvalidRange),
        },
        None => Err(GoSourceError::NotParsed),
    }
}

/// A source file with a change made; nothing where the place of the change is none of
/// the file.
pub fn mutated_source(contents: &str, candidate: &MutationCandidate) -> (r: Option<String>)
    ensures
        r.deep_view() == piece_replaced(
            contents@,
            candidate.start_byte as int,
            candidate.end_byte as int,
            candidate.to@,
        ),
{
    replace_piece(contents, candidate.start_byte, candidate.end_byte, candidate.to.as_str())
}

} // verus!
