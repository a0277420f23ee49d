//! Go source files: their syntax trees, the functions that they declare, and the fuzz
//! targets among them.
use vstd::prelude::*;

use crate::api::LineRange;
use crate::go_packages::{
    all_trimmed, declared, parse_package_name, path_in_project, prefix_module_path,
};
use crate::number::{decimal, print_usize};
use crate::offsets::{piece, text_piece};
use crate::order::{sorted_set, to_sorted_set, ByText};
use crate::paths::{file_name, name_in_path};
use crate::seqs::{cat2, cat3, lemma_take_all, lemma_take_next};
use crate::split::{
    at_most, first_texts, join, joined, lines, lines_of, push_text, split, split_at,
    split_whitespace, trim, trim_end_of, trim_start_of, trimmed, trimmed_end_of, trimmed_start_of,
    words_of,
};
use crate::text::{
    chars_of, clone_text, clone_texts, contains, ends, ends_with, find_char, find_char_index,
    has_text, is_upper, or_text, owned, same, starts, starts_with, text_between, text_or, upper,
};
use tree_sitter::{Parser, TreeCursor};

verus! {

// ---------------------------------------------------------------------------
// Syntax trees
// ---------------------------------------------------------------------------
/// A node of a syntax tree. The nodes of a tree stand in a list, each before its children,
/// with the depth at which they stand in the tree.
#[derive(Debug, PartialEq, Eq)]
pub struct GoNode {
    pub kind: String,
    pub field: Option<String>,
    pub start_byte: usize,
    pub end_byte: usize,
    pub start_row: usize,
    pub end_row: usize,
    pub depth: u32,
}

/// The mathematical value of a `GoNode`.
pub struct GoNodeModel {
    pub kind: Seq<char>,
    pub field: Option<Seq<char>>,
    pub start_byte: usize,
    pub end_byte: usize,
    pub start_row: usize,
    pub end_row: usize,
    pub depth: u32,
}

impl DeepView for GoNode {
    type V = GoNodeModel;

    open spec fn deep_view(&self) -> GoNodeModel {
        GoNodeModel {
            kind: self.kind@,
            field: self.field.deep_view(),
            start_byte: self.start_byte,
            end_byte: self.end_byte,
            start_row: self.start_row,
            end_row: self.end_row,
            depth: self.depth,
        }
    }
}

impl Clone for GoNode {
    fn clone(&self) -> (r: Self)
        ensures
            r.deep_view() == self.deep_view(),
    {
        GoNode {
            kind: self.kind.clone(),
            field: clone_text(&self.field),
            start_byte: self.start_byte,
            end_byte: self.end_byte,
            start_row: self.start_row,
            end_row: self.end_row,
            depth: self.depth,
        }
    }
}

/// The syntax tree that `tree-sitter`, with its grammar of Go, makes of a source text.
pub uninterp spec fn go_tree(source: Seq<char>) -> Option<Seq<GoNodeModel>>;

/// `tree_sitter::Parser::parse`, with the language of `tree_sitter_go`, makes a syntax
/// tree of a text, and a cursor of the tree walks over its nodes, each before its
/// children. The tree depends on the text alone.
#[verifier::external_body]
pub(crate) fn parse_go(source: &str) -> (r: Option<Vec<GoNode>>)
    ensures
        r.deep_view() == go_tree(source@),
{
    let mut parser = Parser::new();
    parser.set_language(&tree_sitter_go::LANGUAGE.into()).ok()?;
    let tree = parser.parse(source, None)?;
    let mut cursor = tree.walk();
    let mut nodes = vec![go_node(&cursor)];
    loop {
        let descended = cursor.goto_first_child();
        while !descended && !cursor.goto_next_sibling() {
            if !cursor.goto_parent() {
                return Some(nodes);
            }
        }
        nodes.push(go_node(&cursor));
    }
}

/// A cursor over a syntax tree of `tree-sitter`.
#[verifier::external_type_specification]
#[verifier::external_body]
pub struct ExTreeCursor<'a>(TreeCursor<'a>);

/// The node at which a cursor stands, field by field.
#[verifier::external_body]
fn go_node(cursor: &TreeCursor<'_>) -> (r: GoNode) {
    let node = cursor.node();
    GoNode {
        kind: node.kind().to_string(),
        field: cursor.field_name().map(|name| name.to_string()),
        start_byte: node.start_byte(),
        end_byte: node.end_byte(),
        start_row: node.start_position().row,
        end_row: node.end_position().row,
        depth: cursor.depth(),
    }
}

/// The first node, from one on, that is no longer below a node.
pub open spec fn behind_from(nodes: Seq<GoNodeModel>, depth: u32, from: int) -> int
    decreases nodes.len() - from,
{
    if from < 0 || from >= nodes.len() || nodes[from].depth <= depth {
        from
    } else {
        behind_from(nodes, depth, from + 1)
    }
}

/// The first node behind a node and all that is below it.
pub open spec fn behind(nodes: Seq<GoNodeModel>, i: int) -> int {
    behind_from(nodes, nodes[i].depth, i + 1)
}

/// The first node behind a node and all that is below it.
pub fn node_behind(nodes: &Vec<GoNode>, i: usize) -> (r: usize)
    requires
        i < nodes@.len(),
    ensures
        i < r <= nodes@.len(),
        r == behind(nodes.deep_view(), i as int),
{
    let ghost all = nodes.deep_view();
    let depth: u32 = nodes[i].depth;
    let n: usize = nodes.len();
    let mut j: usize = i + 1;
    assert(all[i as int] == nodes@[i as int].deep_view());
    while j < nodes.len() && nodes[j].depth > depth
        invariant
            i < j <= nodes@.len(),
            all == nodes.deep_view(),
            behind_from(all, depth, i + 1) == behind_from(all, depth, j as int),
        decreases nodes@.len() - j,
    {
        assert(all[j as int] == nodes@[j as int].deep_view());
        j = j + 1;
    }
    if j < nodes.len() {
        assert(all[j as int] == nodes@[j as int].deep_view());
    }
    j
}

/// The first child, from a node on, in a field of a node.
pub open spec fn field_from(
    nodes: Seq<GoNodeModel>,
    depth: u32,
    name: Seq<char>,
    from: int,
) -> Option<
    int,
>
    decreases nodes.len() - from,
{
    if from < 0 || from >= nodes.len() || nodes[from].depth <= depth {
        None
    } else if nodes[from].depth == depth + 1 && nodes[from].field == Some(name) {
        Some(from)
    } else {
        field_from(nodes, depth, name, from + 1)
    }
}

/// The first child in a field of a node.
pub open spec fn child_in_field(nodes: Seq<GoNodeModel>, i: int, name: Seq<char>) -> Option<int> {
    field_from(nodes, nodes[i].depth, name, i + 1)
}

fn is_field(field: &Option<String>, name: &str) -> (r: bool)
    ensures
        r == (field.deep_view() == Some(name@)),
{
    match field {
        Some(known) => same(known.as_str(), name),
        None => false,
    }
}

/// The first child in a field of a node.
pub fn child_by_field_name(nodes: &Vec<GoNode>, i: usize, name: &str) -> (r: Option<usize>)
    requires
        i < nodes@.len(),
    ensures
        r matches Some(k) ==> i < k < nodes@.len() && child_in_field(
            nodes.deep_view(),
            i as int,
            name@,
        ) == Some(k as int),
        r is None ==> child_in_field(nodes.deep_view(), i as int, name@) is None,
{
    let ghost all = nodes.deep_view();
    let depth: u32 = nodes[i].depth;
    let n: usize = nodes.len();
    let mut j: usize = i + 1;
    assert(all[i as int] == nodes@[i as int].deep_view());
    while j < nodes.len()
        invariant
            i < j <= nodes@.len(),
            all == nodes.deep_view(),
            depth == all[i as int].depth,
            field_from(all, depth, name@, i + 1) == field_from(all, depth, name@, j as int),
        decreases nodes@.len() - j,
    {
        assert(all[j as int] == nodes@[j as int].deep_view());
        if nodes[j].depth <= depth {
            return None;
        }
        if nodes[j].depth - 1 == depth && is_field(&nodes[j].field, name) {
            return Some(j);
        }
        j = j + 1;
    }
    None
}

/// The text of a node.
pub open spec fn text_of_node(source: Seq<char>, node: GoNodeModel) -> Option<Seq<char>> {
    piece(source, node.start_byte as int, node.end_byte as int)
}

/// The text of a node; nothing where its bounds are not bounds of characters.
pub fn node_text(source: &Vec<char>, node: &GoNode) -> (r: Option<String>)
    ensures
        r.deep_view() == text_of_node(source@, node.deep_view()),
{
    text_piece(source, node.start_byte, node.end_byte)
}

// ---------------------------------------------------------------------------
// Parameters
// ---------------------------------------------------------------------------
/// A parameter of a Go function.
#[derive(Debug, PartialEq, Eq)]
pub struct GoParam {
    pub name: String,
    pub type_text: String,
}

/// The mathematical value of a `GoParam`.
pub struct GoParamModel {
    pub name: Seq<char>,
    pub type_text: Seq<char>,
}

impl DeepView for GoParam {
    type V = GoParamModel;

    open spec fn deep_view(&self) -> GoParamModel {
        GoParamModel {
            name: self.name@,
            type_text: self.type_text@,
        }
    }
}

impl Clone for GoParam {
    fn clone(&self) -> (r: Self)
        ensures
            r.deep_view() == self.deep_view(),
    {
        GoParam {
            name: self.name.clone(),
            type_text: self.type_text.clone(),
        }
    }
}

/// A copy of go params.
pub fn clone_go_params(items: &Vec<GoParam>) -> (r: Vec<GoParam>)
    ensures
        r.deep_view() == items.deep_view(),
        r@.len() == items@.len(),
{
    let mut out: Vec<GoParam> = Vec::new();
    let mut i: usize = 0;
    while i < items.len()
        invariant
            i <= items@.len(),
            out@.len() == i,
            forall|j: int| 0 <= j < i ==> #[trigger] out@[j].deep_view() == items@[j].deep_view(),
        decreases items@.len() - i,
    {
        out.push(items[i].clone());
        i = i + 1;
    }
    assert(out.deep_view() == items.deep_view());
    out
}

/// Puts an item at the end of the list.
pub fn push_go_param(items: &mut Vec<GoParam>, item: GoParam)
    ensures
        final(items).deep_view() == old(items).deep_view().push(item.deep_view()),
        final(items)@.len() == old(items)@.len() + 1,
{
    let ghost before = items.deep_view();
    items.push(item);
    assert(items.deep_view() == before.push(item.deep_view()));
}

/// Whether the fuzzer of Go makes values of a type.
pub open spec fn fuzz_type(type_text: Seq<char>) -> bool {
    ||| type_text == "string"@
    ||| type_text == "[]byte"@
    ||| type_text == "bool"@
    ||| type_text == "byte"@
    ||| type_text == "rune"@
    ||| type_text == "int"@
    ||| type_text == "int8"@
    ||| type_text == "int16"@
    ||| type_text == "int32"@
    ||| type_text == "int64"@
    ||| type_text == "uint"@
    ||| type_text == "uint8"@
    ||| type_text == "uint16"@
    ||| type_text == "uint32"@
    ||| type_text == "uint64"@
    ||| type_text == "float32"@
    ||| type_text == "float64"@
}

/// Whether the fuzzer of Go makes values of a type.
pub fn is_go_fuzz_type(type_text: &str) -> (r: bool)
    ensures
        r == fuzz_type(type_text@),
{
    same(type_text, "string")
        || same(type_text, "[]byte")
        || same(type_text, "bool")
        || same(type_text, "byte")
        || same(type_text, "rune")
        || same(type_text, "int")
        || same(type_text, "int8")
        || same(type_text, "int16")
        || same(type_text, "int32")
        || same(type_text, "int64")
        || same(type_text, "uint")
        || same(type_text, "uint8")
        || same(type_text, "uint16")
        || same(type_text, "uint32")
        || same(type_text, "uint64")
        || same(type_text, "float32")
        || same(type_text, "float64")
}

/// The parameters that were read: those that are complete, the names that wait for
/// their type, and how many have no name.
pub struct ParamsSoFar {
    pub params: Seq<GoParamModel>,
    pub pending: Seq<Seq<char>>,
    pub unnamed: int,
}

/// The names that wait, each with the type that came.
pub open spec fn named(pending: Seq<Seq<char>>, type_text: Seq<char>) -> Seq<GoParamModel> {
    pending.map_values(|name: Seq<char>| GoParamModel { name, type_text })
}

/// The parameters after one more piece of the list; nothing where it is no parameter
/// that can be fuzzed.
pub open spec fn params_with(before: ParamsSoFar, part: Seq<char>) -> Option<ParamsSoFar> {
    let pieces = words_of(part);
    if pieces.len() == 1 && fuzz_type(pieces[0]) {
        Some(
            ParamsSoFar {
                params: before.params.push(
                    GoParamModel {
                        name: "input"@ + decimal(before.unnamed),
                        type_text: pieces[0],
                    },
                ),
                unnamed: before.unnamed + 1,
                ..before
            },
        )
    } else if pieces.len() == 1 {
        Some(ParamsSoFar { pending: before.pending.push(pieces[0]), ..before })
    } else if pieces.len() == 2 && fuzz_type(pieces[1]) {
        Some(
            ParamsSoFar {
                params: (before.params + named(before.pending, pieces[1])).push(
                    GoParamModel { name: pieces[0], type_text: pieces[1] },
                ),
                pending: Seq::empty(),
                ..before
            },
        )
    } else {
        None
    }
}

/// The parameters of the pieces of a list.
pub open spec fn params_of_parts(parts: Seq<Seq<char>>) -> Option<ParamsSoFar>
    decreases parts.len(),
{
    if parts.len() == 0 {
        Some(ParamsSoFar { params: Seq::empty(), pending: Seq::empty(), unnamed: 0 })
    } else {
        match params_of_parts(parts.drop_last()) {
            Some(before) => params_with(before, parts.last()),
            None => None,
        }
    }
}

/// A list of parameters without the brackets around it.
pub open spec fn without_brackets(list: Seq<char>) -> Seq<char> {
    trimmed_end_of(trimmed_start_of(trimmed(list), '('), ')')
}

/// The parameters of a list, where all of them can be fuzzed and there are one to four.
pub open spec fn fuzz_params(list: Seq<char>) -> Option<Seq<GoParamModel>> {
    let inner = without_brackets(list);
    if inner.len() == 0 {
        None
    } else {
        match params_of_parts(split_at(inner, ',')) {
            Some(all) => if all.pending.len() > 0 || all.params.len() == 0 || all.params.len() > 4 {
                None
            } else {
                Some(all.params)
            },
            None => None,
        }
    }
}

proof fn lemma_no_params(parts: Seq<Seq<char>>, n: int)
    requires
        0 <= n <= parts.len(),
        params_of_parts(parts.take(n)) is None,
    ensures
        params_of_parts(parts) is None,
    decreases parts.len() - n,
{
    if n == parts.len() {
        lemma_take_all(parts);
    } else {
        lemma_take_next(parts, n);
        lemma_no_params(parts, n + 1);
    }
}

fn push_named(params: &mut Vec<GoParam>, pending: &Vec<String>, type_text: &str)
    ensures
        final(params).deep_view() == old(params).deep_view() + named(
            pending.deep_view(),
            type_text@,
        ),
{
    let ghost before = params.deep_view();
    let ghost all = pending.deep_view();
    let mut i: usize = 0;
    assert(params.deep_view() =~= before + named(all.take(0), type_text@));
    while i < pending.len()
        invariant
            i <= pending@.len(),
            all == pending.deep_view(),
            params.deep_view() == before + named(all.take(i as int), type_text@),
        decreases pending@.len() - i,
    {
        proof {
            lemma_take_next(all, i as int);
        }
        push_go_param(
            params,
            GoParam { name: owned(pending[i].as_str()), type_text: owned(type_text) },
        );
        i = i + 1;
        assert(params.deep_view() =~= before + named(all.take(i as int), type_text@));
    }
    proof {
        lemma_take_all(all);
    }
}

/// The parameters of a list, where all of them can be fuzzed and there are one to four.
pub fn parse_fuzz_params(params: &str) -> (r: Option<Vec<GoParam>>)
    ensures
        r.deep_view() == fuzz_params(params@),
{
    let bare = trim(params);
    let open = trim_start_of(bare.as_str(), '(');
    let inner = trim_end_of(open.as_str(), ')');
    if inner.as_str().unicode_len() == 0 {
        return None;
    }
    let parts = split(inner.as_str(), ',');
    let ghost all = parts.deep_view();
    let mut parsed: Vec<GoParam> = Vec::new();
    let mut pending: Vec<String> = Vec::new();
    let mut unnamed: usize = 0;
    let mut i: usize = 0;
    assert(parsed.deep_view() =~= Seq::<GoParamModel>::empty());
    assert(pending.deep_view() =~= Seq::<Seq<char>>::empty());
    assert(all.take(0).len() == 0);
    while i < parts.len()
        invariant
            i <= parts@.len(),
            unnamed <= i,
            all == parts.deep_view(),
            all == split_at(without_brackets(params@), ','),
            without_brackets(params@).len() > 0,
            params_of_parts(all.take(i as int)) == Some(
                ParamsSoFar {
                    params: parsed.deep_view(),
                    pending: pending.deep_view(),
                    unnamed: unnamed as int,
                },
            ),
        decreases parts@.len() - i,
    {
        proof {
            lemma_take_next(all, i as int);
            assert(all[i as int] == parts@[i as int]@);
        }
        let pieces = split_whitespace(parts[i].as_str());
        assert(pieces@.len() == pieces.deep_view().len());
        if pieces.len() == 1 {
            assert(pieces.deep_view()[0] == pieces@[0]@);
            if is_go_fuzz_type(pieces[0].as_str()) {
                push_go_param(
                    &mut parsed,
                    GoParam {
                        name: cat2("input", print_usize(unnamed).as_str()),
                        type_text: owned(pieces[0].as_str()),
                    },
                );
                unnamed = unnamed + 1;
            } else {
                push_text(&mut pending, owned(pieces[0].as_str()));
            }
        } else {
            let mut known = false;
            if pieces.len() == 2 {
                assert(pieces.deep_view()[0] == pieces@[0]@);
                assert(pieces.deep_view()[1] == pieces@[1]@);
                known = is_go_fuzz_type(pieces[1].as_str());
            }
            if !known {
                proof {
                    lemma_no_params(all, i + 1);
                }
                return None;
            }
            push_named(&mut parsed, &pending, pieces[1].as_str());
            pending = Vec::new();
            assert(pending.deep_view() =~= Seq::<Seq<char>>::empty());
            push_go_param(
                &mut parsed,
                GoParam {
                    name: owned(pieces[0].as_str()),
                    type_text: owned(pieces[1].as_str()),
                },
            );
        }
        i = i + 1;
    }
    proof {
        lemma_take_all(all);
    }
    assert(parsed@.len() == parsed.deep_view().len());
    assert(pending@.len() == pending.deep_view().len());
    if pending.len() > 0 || parsed.len() == 0 || parsed.len() > 4 {
        None
    } else {
        Some(parsed)
    }
}

proof fn lemma_params_can_be_fuzzed(parts: Seq<Seq<char>>)
    ensures
        params_of_parts(parts) matches Some(all) ==> forall|k: int|
            0 <= k < all.params.len() ==> fuzz_type((#[trigger] all.params[k]).type_text),
    decreases parts.len(),
{
    if parts.len() > 0 {
        lemma_params_can_be_fuzzed(parts.drop_last());
        if let Some(all) = params_of_parts(parts) {
            let before = params_of_parts(parts.drop_last())->0;
            assert forall|k: int| 0 <= k < all.params.len() implies fuzz_type(
                (#[trigger] all.params[k]).type_text,
            ) by {
                if k < before.params.len() {
                    assert(all.params[k] == before.params[k]);
                }
            }
        }
    }
}

/// Whoever reads parameters gets one to four, each of a type that can be fuzzed.
pub proof fn law_fuzz_params_can_be_fuzzed(list: Seq<char>)
    ensures
        fuzz_params(list) matches Some(params) ==> 1 <= params.len() <= 4 && forall|k: int|
            0 <= k < params.len() ==> fuzz_type((#[trigger] params[k]).type_text),
{
    lemma_params_can_be_fuzzed(split_at(without_brackets(list), ','));
}

// ---------------------------------------------------------------------------
// Functions
// ---------------------------------------------------------------------------
/// A function or method of a Go source file.
#[derive(Debug, PartialEq, Eq)]
pub struct GoFunction {
    pub package_name: String,
    pub path: String,
    pub name: String,
    pub symbol: String,
    pub receiver: Option<String>,
    pub params: Vec<GoParam>,
    pub signature: String,
    pub line_range: LineRange,
    pub start_byte: usize,
    pub end_byte: usize,
    pub calls: Vec<String>,
}

/// The mathematical value of a `GoFunction`.
pub struct GoFunctionModel {
    pub package_name: Seq<char>,
    pub path: Seq<char>,
    pub name: Seq<char>,
    pub symbol: Seq<char>,
    pub receiver: Option<Seq<char>>,
    pub params: Seq<GoParamModel>,
    pub signature: Seq<char>,
    pub line_range: LineRange,
    pub start_byte: usize,
    pub end_byte: usize,
    pub calls: Seq<Seq<char>>,
}

impl DeepView for GoFunction {
    type V = GoFunctionModel;

    open spec fn deep_view(&self) -> GoFunctionModel {
        GoFunctionModel {
            package_name: self.package_name@,
            path: self.path@,
            name: self.name@,
            symbol: self.symbol@,
            receiver: self.receiver.deep_view(),
            params: self.params.deep_view(),
            signature: self.signature@,
            line_range: self.line_range,
            start_byte: self.start_byte,
            end_byte: self.end_byte,
            calls: self.calls.deep_view(),
        }
    }
}

impl Clone for GoFunction {
    fn clone(&self) -> (r: Self)
        ensures
            r.deep_view() == self.deep_view(),
    {
        GoFunction {
            package_name: self.package_name.clone(),
            path: self.path.clone(),
            name: self.name.clone(),
            symbol: self.symbol.clone(),
            receiver: clone_text(&self.receiver),
            params: clone_go_params(&self.params),
            signature: self.signature.clone(),
            line_range: self.line_range,
            start_byte: self.start_byte,
            end_byte: self.end_byte,
            calls: clone_texts(&self.calls),
        }
    }
}

/// A copy of go functions.
pub fn clone_go_functions(items: &Vec<GoFunction>) -> (r: Vec<GoFunction>)
    ensures
        r.deep_view() == items.deep_view(),
        r@.len() == items@.len(),
{
    let mut out: Vec<GoFunction> = Vec::new();
    let mut i: usize = 0;
    while i < items.len()
        invariant
            i <= items@.len(),
            out@.len() == i,
            forall|j: int| 0 <= j < i ==> #[trigger] out@[j].deep_view() == items@[j].deep_view(),
        decreases items@.len() - i,
    {
        out.push(items[i].clone());
        i = i + 1;
    }
    assert(out.deep_view() == items.deep_view());
    out
}

/// Puts an item at the end of the list.
pub fn push_go_function(items: &mut Vec<GoFunction>, item: GoFunction)
    ensures
        final(items).deep_view() == old(items).deep_view().push(item.deep_view()),
        final(items)@.len() == old(items)@.len() + 1,
{
    let ghost before = items.deep_view();
    items.push(item);
    assert(items.deep_view() == before.push(item.deep_view()));
}

/// Why a Go source file cannot be read.
#[derive(Debug, Clone, Copy, PartialEq, Eq, Structural)]
pub enum GoSourceError {
    NotParsed,
    InvalidRange,
}

/// A type of a receiver without the signs around its name.
pub open spec fn bare_receiver(receiver: Seq<char>) -> Seq<char> {
    trimmed_end_of(trimmed_start_of(trimmed_start_of(receiver, '*'), '['), ']')
}

/// A type of a receiver without the signs around its name.
pub fn clean_go_receiver(receiver: &str) -> (r: String)
    ensures
        r@ == bare_receiver(receiver@),
{
    let bare = trim_start_of(receiver, '*');
    let open = trim_start_of(bare.as_str(), '[');
    trim_end_of(open.as_str(), ']')
}

/// The type that a receiver names.
pub open spec fn receiver_in(text: Seq<char>) -> Option<Seq<char>> {
    let words = words_of(without_brackets(text));
    if words.len() == 0 {
        None
    } else {
        Some(bare_receiver(words.last()))
    }
}

fn read_receiver(text: &str) -> (r: Option<String>)
    ensures
        r.deep_view() == receiver_in(text@),
{
    let bare = trim(text);
    let open = trim_start_of(bare.as_str(), '(');
    let inner = trim_end_of(open.as_str(), ')');
    let words = split_whitespace(inner.as_str());
    assert(words@.len() == words.deep_view().len());
    if words.len() == 0 {
        None
    } else {
        let last: usize = words.len() - 1;
        assert(words.deep_view()[last as int] == words@[last as int]@);
        Some(clean_go_receiver(words[last].as_str()))
    }
}

/// The receiver of a method: whether its text could be read, and the type that it names.
pub open spec fn receiver_of(nodes: Seq<GoNodeModel>, source: Seq<char>, i: int) -> Option<
    Option<Seq<char>>,
> {
    if nodes[i].kind == "method_declaration"@ {
        match child_in_field(nodes, i, "receiver"@) {
            Some(k) => match text_of_node(source, nodes[k]) {
                Some(text) => Some(receiver_in(text)),
                None => None,
            },
            None => Some(None),
        }
    } else {
        Some(None)
    }
}

fn parse_go_receiver(nodes: &Vec<GoNode>, source: &Vec<char>, i: usize) -> (r: Option<
    Option<String>,
>)
    requires
        i < nodes@.len(),
    ensures
        r.deep_view() == receiver_of(nodes.deep_view(), source@, i as int),
{
    assert(nodes.deep_view()[i as int] == nodes@[i as int].deep_view());
    if same(nodes[i].kind.as_str(), "method_declaration") {
        match child_by_field_name(nodes, i, "receiver") {
            Some(k) => {
                assert(nodes.deep_view()[k as int] == nodes@[k as int].deep_view());
                match node_text(source, &nodes[k]) {
                    Some(text) => Some(read_receiver(text.as_str())),
                    None => None,
                }
            },
            None => Some(None),
        }
    } else {
        Some(None)
    }
}

/// The text of a call, with single blanks between its words.
pub open spec fn call_text(value: Seq<char>) -> Seq<char> {
    joined(words_of(value), " "@)
}

/// The text of a call, with single blanks between its words.
pub fn normalize_call_text(value: &str) -> (r: String)
    ensures
        r@ == call_text(value@),
{
    join(&split_whitespace(value), " ")
}

/// What a node calls: whether its text could be read, and the text where it is a call.
pub open spec fn call_at(nodes: Seq<GoNodeModel>, source: Seq<char>, i: int) -> Option<
    Option<Seq<char>>,
> {
    if nodes[i].kind == "call_expression"@ {
        match child_in_field(nodes, i, "function"@) {
            Some(k) => match text_of_node(source, nodes[k]) {
                Some(text) => if call_text(text).len() > 0 {
                    Some(Some(call_text(text)))
                } else {
                    Some(None)
                },
                None => None,
            },
            None => Some(None),
        }
    } else {
        Some(None)
    }
}

fn read_call(nodes: &Vec<GoNode>, source: &Vec<char>, i: usize) -> (r: Option<Option<String>>)
    requires
        i < nodes@.len(),
    ensures
        r.deep_view() == call_at(nodes.deep_view(), source@, i as int),
{
    assert(nodes.deep_view()[i as int] == nodes@[i as int].deep_view());
    if same(nodes[i].kind.as_str(), "call_expression") {
        match child_by_field_name(nodes, i, "function") {
            Some(k) => {
                assert(nodes.deep_view()[k as int] == nodes@[k as int].deep_view());
                match node_text(source, &nodes[k]) {
                    Some(text) => {
                        let call = normalize_call_text(text.as_str());
                        if call.as_str().unicode_len() > 0 {
                            Some(Some(call))
                        } else {
                            Some(None)
                        }
                    },
                    None => None,
                }
            },
            None => Some(None),
        }
    } else {
        Some(None)
    }
}

/// The calls of the nodes from one up to another, in order; nothing where the text of
/// one could not be read.
pub open spec fn calls_between(
    nodes: Seq<GoNodeModel>,
    source: Seq<char>,
    from: int,
    to: int,
) -> Option<Seq<Seq<char>>>
    decreases to - from,
{
    if to <= from {
        Some(Seq::empty())
    } else {
        match (calls_between(nodes, source, from, to - 1), call_at(nodes, source, to - 1)) {
            (Some(before), Some(Some(call))) => Some(before.push(call)),
            (Some(before), Some(None)) => Some(before),
            _ => None,
        }
    }
}

proof fn lemma_no_calls(nodes: Seq<GoNodeModel>, source: Seq<char>, from: int, n: int, to: int)
    requires
        from <= n <= to,
        calls_between(nodes, source, from, n) is None,
    ensures
        calls_between(nodes, source, from, to) is None,
    decreases to - n,
{
    if n < to {
        lemma_no_calls(nodes, source, from, n + 1, to);
    }
}

/// The calls in a node and below it, in order, each once.
pub open spec fn calls_in(nodes: Seq<GoNodeModel>, source: Seq<char>, i: int) -> Option<
    Seq<Seq<char>>,
> {
    match calls_between(nodes, source, i, behind(nodes, i)) {
        Some(calls) => Some(sorted_set::<ByText>(calls)),
        None => None,
    }
}

/// The calls in a node and below it, in order, each once; nothing where the text of one
/// could not be read.
pub fn go_calls_in_function(nodes: &Vec<GoNode>, source: &Vec<char>, i: usize) -> (r: Option<
    Vec<String>,
>)
    requires
        i < nodes@.len(),
    ensures
        r.deep_view() == calls_in(nodes.deep_view(), source@, i as int),
{
    let ghost all = nodes.deep_view();
    let to: usize = node_behind(nodes, i);
    let mut calls: Vec<String> = Vec::new();
    let mut j: usize = i;
    assert(calls.deep_view() =~= Seq::<Seq<char>>::empty());
    while j < to
        invariant
            i <= j <= to <= nodes@.len(),
            all == nodes.deep_view(),
            to == behind(all, i as int),
            calls_between(all, source@, i as int, j as int) == Some(calls.deep_view()),
        decreases to - j,
    {
        match read_call(nodes, source, j) {
            Some(call) => {
                if let Some(text) = call {
                    push_text(&mut calls, text);
                }
            },
            None => {
                proof {
                    lemma_no_calls(all, source@, i as int, j + 1, to as int);
                }
                return None;
            },
        }
        j = j + 1;
    }
    Some(to_sorted_set::<ByText>(&calls))
}

/// The text of a function up to its body.
pub open spec fn signature_in(text: Seq<char>) -> Seq<char> {
    match find_char(text, '{') {
        Some(k) => text.take(k),
        None => text,
    }
}

/// The text of a function up to its body.
pub fn signature_text(text: &str) -> (r: String)
    ensures
        r@ == signature_in(text@),
{
    let chars = chars_of(text);
    match find_char_index(&chars, '{', 0) {
        Some(k) => {
            let head = text_between(&chars, 0, k);
            assert(head@ =~= text@.take(k as int));
            head
        },
        None => owned(text),
    }
}

/// The number of the line with an index.
pub open spec fn line_number(row: usize) -> usize {
    if row < usize::MAX {
        (row + 1) as usize
    } else {
        usize::MAX
    }
}

fn line_at(row: usize) -> (r: usize)
    ensures
        r == line_number(row),
{
    if row < usize::MAX {
        row + 1
    } else {
        usize::MAX
    }
}

/// Whether a name is exported: it starts with a capital letter.
pub open spec fn exported(name: Seq<char>) -> bool {
    name.len() > 0 && is_upper(name[0])
}

fn is_exported(name: &str) -> (r: bool)
    ensures
        r == exported(name@),
{
    let chars = chars_of(name);
    chars.len() > 0 && upper(chars[0])
}

/// A name behind that of its receiver.
pub open spec fn symbol_of(receiver: Option<Seq<char>>, name: Seq<char>) -> Seq<char> {
    match receiver {
        Some(known) => known + "."@ + name,
        None => name,
    }
}

/// The function that a declaration declares, with its texts.
pub open spec fn function_of(
    package_name: Seq<char>,
    path: Seq<char>,
    node: GoNodeModel,
    name: Seq<char>,
    receiver: Option<Seq<char>>,
    parameters: Seq<char>,
    text: Seq<char>,
    calls: Seq<Seq<char>>,
) -> GoFunctionModel {
    GoFunctionModel {
        package_name,
        path,
        name,
        symbol: symbol_of(receiver, name),
        receiver,
        params: match fuzz_params(parameters) {
            Some(params) => params,
            None => Seq::empty(),
        },
        signature: trimmed(signature_in(text)),
        line_range: LineRange {
            start: line_number(node.start_row),
            end: line_number(node.end_row),
        },
        start_byte: node.start_byte,
        end_byte: node.end_byte,
        calls,
    }
}

/// The function that a node declares: whether its texts could be read, and the function
/// where it has a name, which is exported, and parameters.
pub open spec fn declared_function(
    nodes: Seq<GoNodeModel>,
    source: Seq<char>,
    package_name: Seq<char>,
    path: Seq<char>,
    i: int,
) -> Option<Option<GoFunctionModel>> {
    match child_in_field(nodes, i, "name"@) {
        Some(n) => match text_of_node(source, nodes[n]) {
            Some(name) => if !exported(name) {
                Some(None)
            } else {
                match receiver_of(nodes, source, i) {
                    Some(receiver) => match child_in_field(nodes, i, "parameters"@) {
                        Some(p) => match (
                            text_of_node(source, nodes[p]),
                            text_of_node(source, nodes[i]),
                            calls_in(nodes, source, i),
                        ) {
                            (Some(parameters), Some(text), Some(calls)) => Some(
                                Some(
                                    function_of(
                                        package_name,
                                        path,
                                        nodes[i],
                                        name,
                                        receiver,
                                        parameters,
                                        text,
                                        calls,
                                    ),
                                ),
                            ),
                            _ => None,
                        },
                        None => Some(None),
                    },
                    None => None,
                }
            },
            None => None,
        },
        None => Some(None),
    }
}

fn make_function(
    package_name: &str,
    path: &str,
    node: &GoNode,
    name: &str,
    receiver: Option<String>,
    parameters: &str,
    text: &str,
    calls: Vec<String>,
) -> (r: GoFunction)
    ensures
        r.deep_view() == function_of(
            package_name@,
            path@,
            node.deep_view(),
            name@,
            receiver.deep_view(),
            parameters@,
            text@,
            calls.deep_view(),
        ),
{
    let symbol = match &receiver {
        Some(known) => cat3(known.as_str(), ".", name),
        None => owned(name),
    };
    let params: Vec<GoParam> = match parse_fuzz_params(parameters) {
        Some(params) => params,
        None => Vec::new(),
    };
    assert(params.deep_view() =~= match fuzz_params(parameters@) {
        Some(all) => all,
        None => Seq::empty(),
    });
    let signature = signature_text(text);
    GoFunction {
        package_name: owned(package_name),
        path: owned(path),
        name: owned(name),
        symbol,
        receiver,
        params,
        signature: trim(signature.as_str()),
        line_range: LineRange { start: line_at(node.start_row), end: line_at(node.end_row) },
        start_byte: node.start_byte,
        end_byte: node.end_byte,
        calls,
    }
}

/// The function that a node declares: nothing where its texts could not be read, and
/// then the function where it has a name, which is exported, and parameters.
pub fn parse_go_function(
    nodes: &Vec<GoNode>,
    source: &Vec<char>,
    package_name: &str,
    path: &str,
    i: usize,
) -> (r: Option<Option<GoFunction>>)
    requires
        i < nodes@.len(),
    ensures
        r.deep_view() == declared_function(
            nodes.deep_view(),
            source@,
            package_name@,
            path@,
            i as int,
        ),
{
    let n: usize = match child_by_field_name(nodes, i, "name") {
        Some(n) => n,
        None => return Some(None),
    };
    assert(nodes.deep_view()[n as int] == nodes@[n as int].deep_view());
    assert(nodes.deep_view()[i as int] == nodes@[i as int].deep_view());
    let name: String = match node_text(source, &nodes[n]) {
        Some(name) => name,
        None => return None,
    };
    if !is_exported(name.as_str()) {
        return Some(None);
    }
    let receiver: Option<String> = match parse_go_receiver(nodes, source, i) {
        Some(receiver) => receiver,
        None => return None,
    };
    let p: usize = match child_by_field_name(nodes, i, "parameters") {
        Some(p) => p,
        None => return Some(None),
    };
    assert(nodes.deep_view()[p as int] == nodes@[p as int].deep_view());
    match (
        node_text(source, &nodes[p]),
        node_text(source, &nodes[i]),
        go_calls_in_function(nodes, source, i),
    ) {
        (Some(parameters), Some(text), Some(calls)) => Some(
            Some(
                make_function(
                    package_name,
                    path,
                    &nodes[i],
                    name.as_str(),
                    receiver,
                    parameters.as_str(),
                    text.as_str(),
                    calls,
                ),
            ),
        ),
        _ => None,
    }
}

/// Whether a node declares a function or a method.
pub open spec fn declares(node: GoNodeModel) -> bool {
    node.kind == "function_declaration"@ || node.kind == "method_declaration"@
}

/// What a node declares: whether its texts could be read, and the function, if any.
pub open spec fn function_at(
    nodes: Seq<GoNodeModel>,
    source: Seq<char>,
    package_name: Seq<char>,
    path: Seq<char>,
    i: int,
) -> Option<Option<GoFunctionModel>> {
    if declares(nodes[i]) {
        declared_function(nodes, source, package_name, path, i)
    } else {
        Some(None)
    }
}

/// The functions that the first nodes of a tree declare; nothing where the texts of one
/// could not be read.
pub open spec fn functions_before(
    nodes: Seq<GoNodeModel>,
    source: Seq<char>,
    package_name: Seq<char>,
    path: Seq<char>,
    n: int,
) -> Option<Seq<GoFunctionModel>>
    decreases n,
{
    if n <= 0 {
        Some(Seq::empty())
    } else {
        match (
            functions_before(nodes, source, package_name, path, n - 1),
            function_at(nodes, source, package_name, path, n - 1),
        ) {
            (Some(before), Some(Some(function))) => Some(before.push(function)),
            (Some(before), Some(None)) => Some(before),
            _ => None,
        }
    }
}

proof fn lemma_no_functions(
    nodes: Seq<GoNodeModel>,
    source: Seq<char>,
    package_name: Seq<char>,
    path: Seq<char>,
    n: int,
    all: int,
)
    requires
        n <= all,
        functions_before(nodes, source, package_name, path, n) is None,
    ensures
        functions_before(nodes, source, package_name, path, all) is None,
    decreases all - n,
{
    if n < all {
        lemma_no_functions(nodes, source, package_name, path, n + 1, all);
    }
}

/// The functions that a tree declares; nothing where the texts of one could not be read.
pub fn collect_go_functions(
    nodes: &Vec<GoNode>,
    source: &str,
    package_name: &str,
    path: &str,
) -> (r: Option<Vec<GoFunction>>)
    ensures
        r.deep_view() == functions_before(
            nodes.deep_view(),
            source@,
            package_name@,
            path@,
            nodes@.len() as int,
        ),
{
    let chars = chars_of(source);
    let ghost all = nodes.deep_view();
    let mut functions: Vec<GoFunction> = Vec::new();
    let mut i: usize = 0;
    assert(functions.deep_view() =~= Seq::<GoFunctionModel>::empty());
    while i < nodes.len()
        invariant
            i <= nodes@.len(),
            all == nodes.deep_view(),
            chars@ == source@,
            functions_before(all, source@, package_name@, path@, i as int) == Some(
                functions.deep_view(),
            ),
        decreases nodes@.len() - i,
    {
        assert(all[i as int] == nodes@[i as int].deep_view());
        if same(nodes[i].kind.as_str(), "function_declaration") || same(
            nodes[i].kind.as_str(),
            "method_declaration",
        ) {
            match parse_go_function(nodes, &chars, package_name, path, i) {
                Some(declared) => {
                    if let Some(function) = declared {
                        push_go_function(&mut functions, function);
                    }
                },
                None => {
                    proof {
                        lemma_no_functions(
                            all,
                            source@,
                            package_name@,
                            path@,
                            i + 1,
                            nodes@.len() as int,
                        );
                    }
                    return None;
                },
            }
        }
        i = i + 1;
    }
    Some(functions)
}

/// The name of the package of a source file.
pub open spec fn package_of(contents: Seq<char>) -> Seq<char> {
    or_text(declared(all_trimmed(lines_of(contents)), "package "@), "main"@)
}

/// The functions that a source file declares.
pub open spec fn functions_in(path: Seq<char>, contents: Seq<char>) -> Result<
    Seq<GoFunctionModel>,
    GoSourceError,
> {
    match go_tree(contents) {
        Some(nodes) => match functions_before(
            nodes,
            contents,
            package_of(contents),
            path,
            nodes.len() as int,
        ) {
            Some(functions) => Ok(functions),
            None => Err(GoSourceError::InvalidRange),
        },
        None => Err(GoSourceError::NotParsed),
    }
}

/// The functions that a source file declares.
pub fn functions_in_file(path: &str, contents: &str) -> (r: Result<Vec<GoFunction>, GoSourceError>)
    ensures
        r matches Ok(functions) ==> functions_in(path@, contents@) == Ok::<_, GoSourceError>(
            functions.deep_view(),
        ),
        r matches Err(error) ==> functions_in(path@, contents@) == Err::<
            Seq<GoFunctionModel>,
            _,
        >(error),
{
    let package_name = text_or(&parse_package_name(contents), "main");
    match parse_go(contents) {
        Some(nodes) => {
            assert(nodes@.len() == nodes.deep_view().len());
            match collect_go_functions(&nodes, contents, package_name.as_str(), path) {
                Some(functions) => Ok(functions),
                None => Err(GoSourceError::InvalidRange),
            }
        },
        None => Err(GoSourceError::NotParsed),
    }
}

/// A function of a module, seen from the project.
pub open spec fn function_in_project(
    module_root: Seq<char>,
    function: GoFunctionModel,
) -> GoFunctionModel {
    GoFunctionModel { path: path_in_project(module_root, function.path), ..function }
}

fn move_function(module_root: &str, function: &GoFunction) -> (r: GoFunction)
    ensures
        r.deep_view() == function_in_project(module_root@, function.deep_view()),
{
    let mut moved = function.clone();
    moved.path = prefix_module_path(module_root, function.path.as_str());
    moved
}

/// The functions of a module, seen from the project.
pub open spec fn functions_in_project(
    module_root: Seq<char>,
    items: Seq<GoFunctionModel>,
) -> Seq<GoFunctionModel>
    decreases items.len(),
{
    if items.len() == 0 {
        Seq::empty()
    } else {
        functions_in_project(module_root, items.drop_last()).push(function_in_project(module_root, items.last()))
    }
}

/// The functions of a module, seen from the project.
pub fn functions_of_module(module_root: &str, items: &Vec<GoFunction>) -> (r: Vec<GoFunction>)
    ensures
        r.deep_view() == functions_in_project(module_root@, items.deep_view()),
{
    let mut out: Vec<GoFunction> = Vec::new();
    let ghost all = items.deep_view();
    let mut i: usize = 0;
    assert(out.deep_view() == functions_in_project(module_root@, all.take(0)));
    while i < items.len()
        invariant
            i <= items@.len(),
            all == items.deep_view(),
            out.deep_view() == functions_in_project(module_root@, all.take(i as int)),
        decreases items@.len() - i,
    {
        proof {
            lemma_take_next(all, i as int);
        }
        push_go_function(&mut out, move_function(module_root, &items[i]));
        i = i + 1;
    }
    proof {
        lemma_take_all(all);
    }
    out
}

// ---------------------------------------------------------------------------
// Fuzz targets in source files
// ---------------------------------------------------------------------------
/// Whether a name is that of a fuzz target.
pub open spec fn names_fuzz_target(name: Seq<char>) -> bool {
    starts(name, "Fuzz"@) && name.len() > "Fuzz"@.len()
}

/// The fuzz target that a node declares: whether its text could be read, and the name.
pub open spec fn fuzz_name_at(nodes: Seq<GoNodeModel>, source: Seq<char>, i: int) -> Option<
    Option<Seq<char>>,
> {
    if nodes[i].kind == "function_declaration"@ {
        match child_in_field(nodes, i, "name"@) {
            Some(k) => match text_of_node(source, nodes[k]) {
                Some(name) => if names_fuzz_target(name) {
                    Some(Some(name))
                } else {
                    Some(None)
                },
                None => None,
            },
            None => Some(None),
        }
    } else {
        Some(None)
    }
}

fn read_fuzz_name(nodes: &Vec<GoNode>, source: &Vec<char>, i: usize) -> (r: Option<Option<String>>)
    requires
        i < nodes@.len(),
    ensures
        r.deep_view() == fuzz_name_at(nodes.deep_view(), source@, i as int),
{
    assert(nodes.deep_view()[i as int] == nodes@[i as int].deep_view());
    if same(nodes[i].kind.as_str(), "function_declaration") {
        match child_by_field_name(nodes, i, "name") {
            Some(k) => {
                assert(nodes.deep_view()[k as int] == nodes@[k as int].deep_view());
                match node_text(source, &nodes[k]) {
                    Some(name) => {
                        if starts_with(name.as_str(), "Fuzz") && name.as_str().unicode_len()
                            > "Fuzz".unicode_len() {
                            Some(Some(name))
                        } else {
                            Some(None)
                        }
                    },
                    None => None,
                }
            },
            None => Some(None),
        }
    } else {
        Some(None)
    }
}

/// The fuzz targets that the first nodes of a tree declare.
pub open spec fn fuzz_names_before(nodes: Seq<GoNodeModel>, source: Seq<char>, n: int) -> Option<
    Seq<Seq<char>>,
>
    decreases n,
{
    if n <= 0 {
        Some(Seq::empty())
    } else {
        match (fuzz_names_before(nodes, source, n - 1), fuzz_name_at(nodes, source, n - 1)) {
            (Some(before), Some(Some(name))) => Some(before.push(name)),
            (Some(before), Some(None)) => Some(before),
            _ => None,
        }
    }
}

proof fn lemma_no_fuzz_names(nodes: Seq<GoNodeModel>, source: Seq<char>, n: int, all: int)
    requires
        n <= all,
        fuzz_names_before(nodes, source, n) is None,
    ensures
        fuzz_names_before(nodes, source, all) is None,
    decreases all - n,
{
    if n < all {
        lemma_no_fuzz_names(nodes, source, n + 1, all);
    }
}

/// The fuzz targets that a tree declares; nothing where the text of one could not be
/// read.
pub fn collect_existing_fuzz_names(nodes: &Vec<GoNode>, source: &str) -> (r: Option<Vec<String>>)
    ensures
        r.deep_view() == fuzz_names_before(nodes.deep_view(), source@, nodes@.len() as int),
{
    let chars = chars_of(source);
    let mut names: Vec<String> = Vec::new();
    let mut i: usize = 0;
    assert(names.deep_view() =~= Seq::<Seq<char>>::empty());
    while i < nodes.len()
        invariant
            i <= nodes@.len(),
            chars@ == source@,
            fuzz_names_before(nodes.deep_view(), source@, i as int) == Some(names.deep_view()),
        decreases nodes@.len() - i,
    {
        match read_fuzz_name(nodes, &chars, i) {
            Some(found) => {
                if let Some(name) = found {
                    push_text(&mut names, name);
                }
            },
            None => {
                proof {
                    lemma_no_fuzz_names(
                        nodes.deep_view(),
                        source@,
                        i + 1,
                        nodes@.len() as int,
                    );
                }
                return None;
            },
        }
        i = i + 1;
    }
    Some(names)
}

/// The fuzz targets that a source file declares.
pub open spec fn fuzz_names_in(contents: Seq<char>) -> Result<Seq<Seq<char>>, GoSourceError> {
    match go_tree(contents) {
        Some(nodes) => match fuzz_names_before(nodes, contents, nodes.len() as int) {
            Some(names) => Ok(names),
            None => Err(GoSourceError::InvalidRange),
        },
        None => Err(GoSourceError::NotParsed),
    }
}

/// The fuzz targets that a source file declares.
pub fn fuzz_names_in_file(contents: &str) -> (r: Result<Vec<String>, GoSourceError>)
    ensures
        r matches Ok(names) ==> fuzz_names_in(contents@) == Ok::<_, GoSourceError>(
            names.deep_view(),
        ),
        r matches Err(error) ==> fuzz_names_in(contents@) == Err::<Seq<Seq<char>>, _>(error),
{
    match parse_go(contents) {
        Some(nodes) => {
            assert(nodes@.len() == nodes.deep_view().len());
            match collect_existing_fuzz_names(&nodes, contents) {
                Some(names) => Ok(names),
                None => Err(GoSourceError::InvalidRange),
            }
        },
        None => Err(GoSourceError::NotParsed),
    }
}

/// Whether some line says that the file was generated.
pub open spec fn some_generated_mark(items: Seq<Seq<char>>) -> bool {
    exists|k: int| 0 <= k < items.len() && has_text((#[trigger] items[k]), "Generated by veritas"@)
}

fn any_generated_mark(items: &Vec<String>) -> (r: bool)
    ensures
        r == some_generated_mark(items.deep_view()),
{
    let ghost all = items.deep_view();
    let mut i: usize = 0;
    while i < items.len()
        invariant
            i <= items@.len(),
            all == items.deep_view(),
            forall|k: int| 0 <= k < i ==> !(has_text((#[trigger] all[k]), "Generated by veritas"@)),
        decreases items@.len() - i,
    {
        assert(all[i as int] == items@[i as int].deep_view());
        if contains(items[i].as_str(), "Generated by veritas") {
            return true;
        }
        i = i + 1;
    }
    false
}

/// Whether a file of fuzz targets was generated: it has the name of such files, or says
/// so in its first three lines.
pub open spec fn generated_fuzz_file(path: Seq<char>, contents: Seq<char>) -> bool {
    name_in_path(path) == Some("veritas_fuzz_test.go"@) || some_generated_mark(
        at_most(lines_of(contents), 3),
    )
}

/// Whether a file of fuzz targets was generated.
pub fn is_generated_fuzz_file(path: &str, contents: &str) -> (r: bool)
    ensures
        r == generated_fuzz_file(path@, contents@),
{
    let named = match file_name(path) {
        Some(name) => same(name.as_str(), "veritas_fuzz_test.go"),
        None => false,
    };
    let all = lines(contents);
    named || any_generated_mark(&first_texts(&all, 3))
}

/// Whether a Go source file holds tests.
pub fn is_go_test_file(name: &str) -> (r: bool)
    ensures
        r == ends(name@, "_test.go"@),
{
    ends_with(name, "_test.go")
}

} // verus!
