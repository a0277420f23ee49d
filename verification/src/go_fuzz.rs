//! Fuzz targets of Go: the harnesses that are written, and the targets that run.
use vstd::prelude::*;

use crate::api::{ArtifactKind, GeneratedArtifact, GeneratedArtifactModel};
use crate::config::{GoPluginConfig, GoPluginConfigModel};
use crate::go_packages::{
    argument_in_module, dirs_of_artifacts, module_relative_package_arg, owner_of, owning_module,
    package_dirs_from_artifacts, path_in_project, prefix_module_path, tagged_args, with_tags,
    GoModule, GoModuleModel,
};
use crate::go_source::{GoFunction, GoFunctionModel, GoParam, GoParamModel};
use crate::number::{decimal, print_u64, print_usize};
use crate::order::{has, holds, sorted_set, to_sorted_set, ByText};
use crate::pathmap::{
    clone_path_texts, find_texts, push_path_texts, put_texts, texts_put, texts_under, PathTexts,
    PathTextsModel,
};
use crate::paths::{package_dir, package_dir_path, path_behind, ByPath};
use crate::seqs::{cat2, cat3, lemma_take_all, lemma_take_next};
use crate::split::{
    at_most, first_texts, join, joined, lines, lines_of, push_text, trim_start, trimmed_start,
};
use crate::text::{
    alnum, chars_of, clone_texts, cut_at, is_alnum, list_has, owned, same, split_once,
    strip_prefix, without_prefix,
};

verus! {

// ---------------------------------------------------------------------------
// Identifiers
// ---------------------------------------------------------------------------
/// A letter or digit of ASCII, or an underscore in place of anything else.
pub open spec fn ident_char(c: char) -> char {
    if is_alnum(c) {
        c
    } else {
        '_'
    }
}

/// An identifier made of a text: letters and digits of ASCII stay, and everything else
/// becomes an underscore. The empty text becomes `input`.
pub open spec fn ident_of(value: Seq<char>) -> Seq<char> {
    if value.len() == 0 {
        "input"@
    } else {
        value.map_values(|c: char| ident_char(c))
    }
}

/// An identifier made of a text.
pub fn safe_ident(value: &str) -> (r: String)
    ensures
        r@ == ident_of(value@),
{
    let chars = chars_of(value);
    if chars.len() == 0 {
        return owned("input");
    }
    let mut out = String::new();
    let mut i: usize = 0;
    assert(out@ =~= chars@.take(0).map_values(|c: char| ident_char(c)));
    while i < chars.len()
        invariant
            i <= chars@.len(),
            out@ == chars@.take(i as int).map_values(|c: char| ident_char(c)),
        decreases chars@.len() - i,
    {
        proof {
            lemma_take_next(chars@, i as int);
        }
        let c = chars[i];
        out.push(
            if alnum(c) {
                c
            } else {
                '_'
            },
        );
        i = i + 1;
        assert(out@ =~= chars@.take(i as int).map_values(|c: char| ident_char(c)));
    }
    proof {
        lemma_take_all(chars@);
    }
    out
}

/// An identifier is not empty, and holds letters and digits of ASCII and underscores
/// alone.
pub proof fn law_identifiers_are_plain(value: Seq<char>, i: int)
    ensures
        ident_of(value).len() > 0,
        0 <= i < ident_of(value).len() ==> is_alnum(ident_of(value)[i]) || ident_of(value)[i]
            == '_',
{
    reveal_strlit("input");
}

/// What is an identifier stays as it is.
pub proof fn law_identifiers_stay(value: Seq<char>)
    ensures
        ident_of(ident_of(value)) == ident_of(value),
{
    law_identifiers_are_plain(value, 0);
    let ident = ident_of(value);
    assert forall|i: int| 0 <= i < ident.len() implies #[trigger] ident_char(ident[i]) == ident[i] by {
        law_identifiers_are_plain(value, i);
    }
    assert(ident_of(ident) =~= ident);
}

/// A path and a symbol in one text.
pub open spec fn slug_base_text(path: Seq<char>, symbol: Option<Seq<char>>) -> Seq<char> {
    let t = path + "_"@;
    let t = match symbol {
        Some(known) => {
            let t = t + known;
            t
        },
        None => {
            let t = t + "target"@;
            t
        },
    };
    t
}

fn slug_base(path: &str, symbol: &Option<String>) -> (r: String)
    ensures
        r@ == slug_base_text(path@, symbol.deep_view()),
{
    let mut out = owned(path);
    out.append("_");
    match symbol {
        Some(known) => {
            out.append(known.as_str());
        },
        None => {
            out.append("target");
        },
    }
    out
}

/// The identifier of a path and a symbol.
pub open spec fn slug_of(path: Seq<char>, symbol: Option<Seq<char>>) -> Seq<char> {
    ident_of(slug_base_text(path, symbol))
}

/// The identifier of a path and a symbol.
pub fn module_slug(path: &str, symbol: &Option<String>) -> (r: String)
    ensures
        r@ == slug_of(path@, symbol.deep_view()),
{
    safe_ident(slug_base(path, symbol).as_str())
}

// ---------------------------------------------------------------------------
// Seeds
// ---------------------------------------------------------------------------
/// The values that a fuzz target starts with, by the type of a parameter.
pub open spec fn seeds_of(type_text: Seq<char>) -> Seq<Seq<char>> {
    if type_text == "string"@ {
        seq!["\"veritas-seed\""@, "\"\""@, "\" 0 \""@, "\"not-a-number\""@]
    } else if type_text == "[]byte"@ {
        seq!["[]byte(\"veritas-seed\")"@, "[]byte(\"\")"@, "[]byte(\" 0 \")"@, "[]byte(\"not-a-number\")"@]
    } else if type_text == "bool"@ {
        seq!["true"@, "false"@]
    } else if type_text == "byte"@ {
        seq!["byte(1)"@, "byte(0)"@, "byte(255)"@]
    } else if type_text == "rune"@ {
        seq!["rune('v')"@, "rune(0)"@, "rune('0')"@]
    } else if type_text == "float32"@ {
        seq!["float32(1.25)"@, "float32(0)"@, "float32(-1.25)"@]
    } else if type_text == "float64"@ {
        seq!["float64(1.25)"@, "float64(0)"@, "float64(-1.25)"@]
    } else if type_text == "uint"@ {
        seq!["uint(1)"@, "uint(0)"@]
    } else if type_text == "uint8"@ {
        seq!["uint8(1)"@, "uint8(0)"@, "uint8(255)"@]
    } else if type_text == "uint16"@ {
        seq!["uint16(1)"@, "uint16(0)"@]
    } else if type_text == "uint32"@ {
        seq!["uint32(1)"@, "uint32(0)"@]
    } else if type_text == "uint64"@ {
        seq!["uint64(1)"@, "uint64(0)"@]
    } else if type_text == "int"@ {
        seq!["1"@, "0"@, "-1"@]
    } else if type_text == "int8"@ {
        seq!["int8(1)"@, "int8(0)"@, "int8(-1)"@]
    } else if type_text == "int16"@ {
        seq!["int16(1)"@, "int16(0)"@, "int16(-1)"@]
    } else if type_text == "int32"@ {
        seq!["int32(1)"@, "int32(0)"@, "int32(-1)"@]
    } else if type_text == "int64"@ {
        seq!["int64(1)"@, "int64(0)"@, "int64(-1)"@]
    } else {
        seq!["1"@]
    }
}

/// The values that a fuzz target starts with, by the type of a parameter.
pub fn fuzz_seed_values(type_text: &str) -> (r: Vec<String>)
    ensures
        r.deep_view() == seeds_of(type_text@),
{
    let mut out: Vec<String> = Vec::new();
    if same(type_text, "string") {
        push_text(&mut out, owned("\"veritas-seed\""));
        push_text(&mut out, owned("\"\""));
        push_text(&mut out, owned("\" 0 \""));
        push_text(&mut out, owned("\"not-a-number\""));
    } else if same(type_text, "[]byte") {
        push_text(&mut out, owned("[]byte(\"veritas-seed\")"));
        push_text(&mut out, owned("[]byte(\"\")"));
        push_text(&mut out, owned("[]byte(\" 0 \")"));
        push_text(&mut out, owned("[]byte(\"not-a-number\")"));
    } else if same(type_text, "bool") {
        push_text(&mut out, owned("true"));
        push_text(&mut out, owned("false"));
    } else if same(type_text, "byte") {
        push_text(&mut out, owned("byte(1)"));
        push_text(&mut out, owned("byte(0)"));
        push_text(&mut out, owned("byte(255)"));
    } else if same(type_text, "rune") {
        push_text(&mut out, owned("rune('v')"));
        push_text(&mut out, owned("rune(0)"));
        push_text(&mut out, owned("rune('0')"));
    } else if same(type_text, "float32") {
        push_text(&mut out, owned("float32(1.25)"));
        push_text(&mut out, owned("float32(0)"));
        push_text(&mut out, owned("float32(-1.25)"));
    } else if same(type_text, "float64") {
        push_text(&mut out, owned("float64(1.25)"));
        push_text(&mut out, owned("float64(0)"));
        push_text(&mut out, owned("float64(-1.25)"));
    } else if same(type_text, "uint") {
        push_text(&mut out, owned("uint(1)"));
        push_text(&mut out, owned("uint(0)"));
    } else if same(type_text, "uint8") {
        push_text(&mut out, owned("uint8(1)"));
        push_text(&mut out, owned("uint8(0)"));
        push_text(&mut out, owned("uint8(255)"));
    } else if same(type_text, "uint16") {
        push_text(&mut out, owned("uint16(1)"));
        push_text(&mut out, owned("uint16(0)"));
    } else if same(type_text, "uint32") {
        push_text(&mut out, owned("uint32(1)"));
        push_text(&mut out, owned("uint32(0)"));
    } else if same(type_text, "uint64") {
        push_text(&mut out, owned("uint64(1)"));
        push_text(&mut out, owned("uint64(0)"));
    } else if same(type_text, "int") {
        push_text(&mut out, owned("1"));
        push_text(&mut out, owned("0"));
        push_text(&mut out, owned("-1"));
    } else if same(type_text, "int8") {
        push_text(&mut out, owned("int8(1)"));
        push_text(&mut out, owned("int8(0)"));
        push_text(&mut out, owned("int8(-1)"));
    } else if same(type_text, "int16") {
        push_text(&mut out, owned("int16(1)"));
        push_text(&mut out, owned("int16(0)"));
        push_text(&mut out, owned("int16(-1)"));
    } else if same(type_text, "int32") {
        push_text(&mut out, owned("int32(1)"));
        push_text(&mut out, owned("int32(0)"));
        push_text(&mut out, owned("int32(-1)"));
    } else if same(type_text, "int64") {
        push_text(&mut out, owned("int64(1)"));
        push_text(&mut out, owned("int64(0)"));
        push_text(&mut out, owned("int64(-1)"));
    } else {
        push_text(&mut out, owned("1"));
    }
    assert(out.deep_view() =~= seeds_of(type_text@));
    out
}

/// The first value that a fuzz target starts with.
pub fn fuzz_seed(type_text: &str) -> (r: String)
    ensures
        r@ == seeds_of(type_text@)[0],
{
    let seeds = fuzz_seed_values(type_text);
    assert(seeds@.len() == seeds.deep_view().len());
    assert(seeds.deep_view()[0] == seeds@[0]@);
    owned(seeds[0].as_str())
}

/// The value of a parameter in a row: the one with its index, or the first.
pub open spec fn seed_in_row(type_text: Seq<char>, row: int) -> Seq<char> {
    if row < seeds_of(type_text).len() {
        seeds_of(type_text)[row]
    } else {
        seeds_of(type_text)[0]
    }
}

fn seed_at(type_text: &str, row: usize) -> (r: String)
    ensures
        r@ == seed_in_row(type_text@, row as int),
{
    let seeds = fuzz_seed_values(type_text);
    assert(seeds@.len() == seeds.deep_view().len());
    if row < seeds.len() {
        assert(seeds.deep_view()[row as int] == seeds@[row as int]@);
        owned(seeds[row].as_str())
    } else {
        assert(seeds.deep_view()[0] == seeds@[0]@);
        owned(seeds[0].as_str())
    }
}

/// The values of parameters in a row.
pub open spec fn seeds_in_row(row: int, items: Seq<GoParamModel>) -> Seq<Seq<char>>
    decreases items.len(),
{
    if items.len() == 0 {
        Seq::empty()
    } else {
        seeds_in_row(row, items.drop_last()).push(seed_in_row(items.last().type_text, row))
    }
}

fn row_values(row: usize, items: &Vec<GoParam>) -> (r: Vec<String>)
    ensures
        r.deep_view() == seeds_in_row(row as int, items.deep_view()),
{
    let mut out: Vec<String> = Vec::new();
    let ghost all = items.deep_view();
    let mut i: usize = 0;
    assert(out.deep_view() == seeds_in_row(row as int, all.take(0)));
    while i < items.len()
        invariant
            i <= items@.len(),
            all == items.deep_view(),
            out.deep_view() == seeds_in_row(row as int, all.take(i as int)),
        decreases items@.len() - i,
    {
        proof {
            lemma_take_next(all, i as int);
        }
        push_text(&mut out, seed_at(items[i].type_text.as_str(), row));
        i = i + 1;
    }
    proof {
        lemma_take_all(all);
    }
    out
}

/// How many rows the parameters have: as many as the one with the most values.
pub open spec fn row_count(params: Seq<GoParamModel>) -> int
    decreases params.len(),
{
    if params.len() == 0 {
        0
    } else {
        let before = row_count(params.drop_last());
        let own = seeds_of(params.last().type_text).len() as int;
        if own > before {
            own
        } else {
            before
        }
    }
}

/// The rows of values that a fuzz target starts with, up to a number.
pub open spec fn rows_up_to(params: Seq<GoParamModel>, n: int) -> Seq<Seq<char>>
    decreases n,
{
    if n <= 0 {
        Seq::empty()
    } else {
        rows_up_to(params, n - 1).push(joined(seeds_in_row(n - 1, params), ", "@))
    }
}

/// The rows of values that a fuzz target starts with, at most four.
pub open spec fn seed_rows(params: Seq<GoParamModel>) -> Seq<Seq<char>> {
    if row_count(params) > 4 {
        rows_up_to(params, 4)
    } else {
        rows_up_to(params, row_count(params))
    }
}

fn count_rows(params: &Vec<GoParam>) -> (r: usize)
    ensures
        r == row_count(params.deep_view()),
{
    let ghost all = params.deep_view();
    let mut rows: usize = 0;
    let mut i: usize = 0;
    assert(all.take(0).len() == 0);
    while i < params.len()
        invariant
            i <= params@.len(),
            all == params.deep_view(),
            rows == row_count(all.take(i as int)),
        decreases params@.len() - i,
    {
        proof {
            lemma_take_next(all, i as int);
            assert(all[i as int] == params@[i as int].deep_view());
        }
        let seeds = fuzz_seed_values(params[i].type_text.as_str());
        assert(seeds@.len() == seeds.deep_view().len());
        if seeds.len() > rows {
            rows = seeds.len();
        }
        i = i + 1;
    }
    proof {
        lemma_take_all(all);
    }
    rows
}

/// The rows of values that a fuzz target starts with, at most four.
pub fn fuzz_seed_rows(params: &Vec<GoParam>) -> (r: Vec<String>)
    ensures
        r.deep_view() == seed_rows(params.deep_view()),
{
    let count: usize = count_rows(params);
    let rows: usize = if count > 4 {
        4
    } else {
        count
    };
    let mut out: Vec<String> = Vec::new();
    let mut row: usize = 0;
    assert(out.deep_view() =~= rows_up_to(params.deep_view(), 0));
    while row < rows
        invariant
            row <= rows,
            out.deep_view() == rows_up_to(params.deep_view(), row as int),
        decreases rows - row,
    {
        let values = row_values(row, params);
        push_text(&mut out, join(&values, ", "));
        row = row + 1;
    }
    out
}

// ---------------------------------------------------------------------------
// Harnesses
// ---------------------------------------------------------------------------
/// The name of a parameter in a harness.
pub open spec fn harness_name(name: Seq<char>, index: int) -> Seq<char> {
    if ident_of(name) == "input"@ {
        "input"@ + decimal(index)
    } else {
        ident_of(name)
    }
}

/// The name of a parameter in a harness.
pub fn fuzz_param_name(param: &GoParam, index: usize) -> (r: String)
    ensures
        r@ == harness_name(param.deep_view().name, index as int),
{
    let candidate = safe_ident(param.name.as_str());
    if same(candidate.as_str(), "input") {
        cat2("input", print_usize(index).as_str())
    } else {
        candidate
    }
}

/// The parameters of a harness, with their types.
pub open spec fn harness_params_of(items: Seq<GoParamModel>) -> Seq<Seq<char>>
    decreases items.len(),
{
    if items.len() == 0 {
        Seq::empty()
    } else {
        harness_params_of(items.drop_last()).push(harness_name(items.last().name, (items.len() - 1) as int) + " "@ + items.last().type_text)
    }
}

fn harness_params(items: &Vec<GoParam>) -> (r: Vec<String>)
    ensures
        r.deep_view() == harness_params_of(items.deep_view()),
{
    let mut out: Vec<String> = Vec::new();
    let ghost all = items.deep_view();
    let mut i: usize = 0;
    assert(out.deep_view() == harness_params_of(all.take(0)));
    while i < items.len()
        invariant
            i <= items@.len(),
            all == items.deep_view(),
            out.deep_view() == harness_params_of(all.take(i as int)),
        decreases items@.len() - i,
    {
        proof {
            lemma_take_next(all, i as int);
        }
        push_text(&mut out, cat3(fuzz_param_name(&items[i], i).as_str(), " ", items[i].type_text.as_str()));
        i = i + 1;
    }
    proof {
        lemma_take_all(all);
    }
    out
}

/// The parameters of a harness, by name.
pub open spec fn harness_args_of(items: Seq<GoParamModel>) -> Seq<Seq<char>>
    decreases items.len(),
{
    if items.len() == 0 {
        Seq::empty()
    } else {
        harness_args_of(items.drop_last()).push(harness_name(items.last().name, (items.len() - 1) as int))
    }
}

fn harness_args(items: &Vec<GoParam>) -> (r: Vec<String>)
    ensures
        r.deep_view() == harness_args_of(items.deep_view()),
{
    let mut out: Vec<String> = Vec::new();
    let ghost all = items.deep_view();
    let mut i: usize = 0;
    assert(out.deep_view() == harness_args_of(all.take(0)));
    while i < items.len()
        invariant
            i <= items@.len(),
            all == items.deep_view(),
            out.deep_view() == harness_args_of(all.take(i as int)),
        decreases items@.len() - i,
    {
        proof {
            lemma_take_next(all, i as int);
        }
        push_text(&mut out, fuzz_param_name(&items[i], i));
        i = i + 1;
    }
    proof {
        lemma_take_all(all);
    }
    out
}

/// The lines that add rows of values.
pub open spec fn seed_lines(items: Seq<Seq<char>>) -> Seq<char>
    decreases items.len(),
{
    if items.len() == 0 {
        Seq::empty()
    } else {
        seed_lines(items.drop_last()) + ("\tf.Add("@ + items.last() + ")\n"@)
    }
}

fn push_seed_lines(out: &mut String, items: &Vec<String>)
    ensures
        final(out)@ == old(out)@ + seed_lines(items.deep_view()),
{
    let ghost before = out@;
    let ghost all = items.deep_view();
    let mut i: usize = 0;
    assert(out@ == before + seed_lines(all.take(0)));
    while i < items.len()
        invariant
            i <= items@.len(),
            all == items.deep_view(),
            out@ == before + seed_lines(all.take(i as int)),
        decreases items@.len() - i,
    {
        proof {
            lemma_take_next(all, i as int);
        }
        let ghost so_far = out@;
        out.append("\tf.Add(");
        out.append(items[i].as_str());
        out.append(")\n");
        assert(out@ =~= so_far + ("\tf.Add("@ + items@[i as int]@ + ")\n"@));
        i = i + 1;
        assert(out@ == before + seed_lines(all.take(i as int)));
    }
    proof {
        lemma_take_all(all);
    }
}

/// The head of a harness.
pub open spec fn harness_head_text(name: Seq<char>) -> Seq<char> {
    let t = "func Fuzz"@ + name + "(f *testing.F) {\n"@;
    t
}

fn harness_head(name: &str) -> (r: String)
    ensures
        r@ == harness_head_text(name@),
{
    let mut out = owned("func Fuzz");
    out.append(name);
    out.append("(f *testing.F) {\n");
    out
}

/// The body of a harness.
pub open spec fn harness_body_text(
    name: Seq<char>,
    params: Seq<char>,
    args: Seq<char>,
) -> Seq<char> {
    let t = "\tf.Fuzz(func(t *testing.T, "@
        + params
        + ") {\n\t\tdefer func() {\n\t\t\tif r := recover(); r != nil {\n\t\t\t\tt.Fatalf(\"panic: %v\", r)\n\t\t\t}\n\t\t}()\n\t\t"@
        + name
        + "("@
        + args
        + ")\n\t})\n}\n\n"@;
    t
}

fn harness_body(name: &str, params: &str, args: &str) -> (r: String)
    ensures
        r@ == harness_body_text(name@, params@, args@),
{
    let mut out = owned("\tf.Fuzz(func(t *testing.T, ");
    out.append(params);
    out.append(") {\n\t\tdefer func() {\n\t\t\tif r := recover(); r != nil {\n\t\t\t\tt.Fatalf(\"panic: %v\", r)\n\t\t\t}\n\t\t}()\n\t\t");
    out.append(name);
    out.append("(");
    out.append(args);
    out.append(")\n\t})\n}\n\n");
    out
}

/// The harness of a function.
pub open spec fn harness(function: GoFunctionModel) -> Seq<char> {
    harness_head_text(function.name) + seed_lines(seed_rows(function.params)) + harness_body_text(
        function.name,
        joined(harness_params_of(function.params), ", "@),
        joined(harness_args_of(function.params), ", "@),
    )
}

fn push_harness(out: &mut String, function: &GoFunction)
    ensures
        final(out)@ == old(out)@ + harness(function.deep_view()),
{
    let ghost before = out@;
    let head = harness_head(function.name.as_str());
    let rows = fuzz_seed_rows(&function.params);
    let params = join(&harness_params(&function.params), ", ");
    let args = join(&harness_args(&function.params), ", ");
    let body = harness_body(function.name.as_str(), params.as_str(), args.as_str());
    out.append(head.as_str());
    push_seed_lines(out, &rows);
    out.append(body.as_str());
    assert(out@ =~= before + harness(function.deep_view()));
}

/// The harnesses of functions.
pub open spec fn harnesses(items: Seq<GoFunctionModel>) -> Seq<char>
    decreases items.len(),
{
    if items.len() == 0 {
        Seq::empty()
    } else {
        harnesses(items.drop_last()) + harness(items.last())
    }
}

fn push_harnesses(out: &mut String, items: &Vec<GoFunction>)
    ensures
        final(out)@ == old(out)@ + harnesses(items.deep_view()),
{
    let ghost before = out@;
    let ghost all = items.deep_view();
    let mut i: usize = 0;
    assert(out@ == before + harnesses(all.take(0)));
    while i < items.len()
        invariant
            i <= items@.len(),
            all == items.deep_view(),
            out@ == before + harnesses(all.take(i as int)),
        decreases items@.len() - i,
    {
        proof {
            lemma_take_next(all, i as int);
        }
        let ghost so_far = out@;
        push_harness(out, &items[i]);
        assert(so_far + harness(all[i as int]) =~= before + (harnesses(all.take(i as int)) + harness(all[i as int])));
        i = i + 1;
        assert(out@ == before + harnesses(all.take(i as int)));
    }
    proof {
        lemma_take_all(all);
    }
}

/// The package that functions are in.
pub open spec fn package_of_functions(functions: Seq<GoFunctionModel>) -> Seq<char> {
    if functions.len() == 0 {
        "main"@
    } else {
        functions[0].package_name
    }
}

/// A file with the harnesses of functions.
pub open spec fn fuzz_file(functions: Seq<GoFunctionModel>) -> Seq<char> {
    "// Generated by veritas. Review before committing.\npackage "@ + package_of_functions(functions)
        + "\n\nimport \"testing\"\n\n"@ + harnesses(functions)
}

/// A file with the harnesses of functions.
pub fn render_fuzz_file(functions: &Vec<GoFunction>) -> (r: String)
    ensures
        r@ == fuzz_file(functions.deep_view()),
{
    assert(functions@.len() == functions.deep_view().len());
    let mut out = owned("// Generated by veritas. Review before committing.\npackage ");
    if functions.len() == 0 {
        out.append("main");
    } else {
        assert(functions.deep_view()[0] == functions@[0].deep_view());
        out.append(functions[0].package_name.as_str());
    }
    out.append("\n\nimport \"testing\"\n\n");
    push_harnesses(&mut out, functions);
    out
}

// ---------------------------------------------------------------------------
// Fuzz targets
// ---------------------------------------------------------------------------
/// Fuzz targets by package: those written by hand, and those that were generated.
#[derive(Debug, PartialEq, Eq)]
pub struct GoFuzzTargets {
    pub handwritten: Vec<PathTexts>,
    pub generated: Vec<PathTexts>,
}

/// The mathematical value of a `GoFuzzTargets`.
pub struct GoFuzzTargetsModel {
    pub handwritten: Seq<PathTextsModel>,
    pub generated: Seq<PathTextsModel>,
}

impl DeepView for GoFuzzTargets {
    type V = GoFuzzTargetsModel;

    open spec fn deep_view(&self) -> GoFuzzTargetsModel {
        GoFuzzTargetsModel {
            handwritten: self.handwritten.deep_view(),
            generated: self.generated.deep_view(),
        }
    }
}

impl Clone for GoFuzzTargets {
    fn clone(&self) -> (r: Self)
        ensures
            r.deep_view() == self.deep_view(),
    {
        GoFuzzTargets {
            handwritten: clone_path_texts(&self.handwritten),
            generated: clone_path_texts(&self.generated),
        }
    }
}

/// Whether a package has a fuzz target for a function.
pub open spec fn has_fuzz_target(
    handwritten: Seq<PathTextsModel>,
    package: Seq<char>,
    name: Seq<char>,
) -> bool {
    match texts_under(handwritten, package) {
        Some(names) => names.contains("Fuzz"@ + name),
        None => false,
    }
}

/// Whether a package has a fuzz target, written by hand, for a function.
pub fn handwritten_fuzz_exists(
    fuzz_targets: &GoFuzzTargets,
    package: &str,
    function: &GoFunction,
) -> (r: bool)
    ensures
        r == has_fuzz_target(
            fuzz_targets.deep_view().handwritten,
            package@,
            function.deep_view().name,
        ),
{
    match find_texts(&fuzz_targets.handwritten, package) {
        Some(names) => {
            let wanted = cat2("Fuzz", function.name.as_str());
            list_has(names, wanted.as_str())
        },
        None => false,
    }
}

/// Fuzz targets with those of a file added.
pub open spec fn with_fuzz_file(
    targets: GoFuzzTargetsModel,
    path: Seq<char>,
    generated: bool,
    names: Seq<Seq<char>>,
) -> GoFuzzTargetsModel {
    if names.len() == 0 {
        targets
    } else if generated {
        GoFuzzTargetsModel {
            generated: texts_put(targets.generated, package_dir_path(path), names, true),
            ..targets
        }
    } else {
        GoFuzzTargetsModel {
            handwritten: texts_put(targets.handwritten, package_dir_path(path), names, true),
            ..targets
        }
    }
}

/// Adds the fuzz targets of a file.
pub fn add_fuzz_file(
    targets: &mut GoFuzzTargets,
    path: &str,
    generated: bool,
    names: &Vec<String>,
)
    ensures
        final(targets).deep_view() == with_fuzz_file(
            old(targets).deep_view(),
            path@,
            generated,
            names.deep_view(),
        ),
{
    assert(names@.len() == names.deep_view().len());
    if names.len() > 0 {
        let dir = package_dir(path);
        if generated {
            put_texts(&mut targets.generated, dir.as_str(), names, true);
        } else {
            put_texts(&mut targets.handwritten, dir.as_str(), names, true);
        }
    }
}

/// Entries with those of a module added, seen from the project.
pub open spec fn with_entries(
    entries: Seq<PathTextsModel>,
    module_root: Seq<char>,
    more: Seq<PathTextsModel>,
) -> Seq<PathTextsModel>
    decreases more.len(),
{
    if more.len() == 0 {
        entries
    } else {
        texts_put(
            with_entries(entries, module_root, more.drop_last()),
            path_in_project(module_root, more.last().path),
            more.last().texts,
            true,
        )
    }
}

fn add_entries(entries: &mut Vec<PathTexts>, module_root: &str, more: &Vec<PathTexts>)
    ensures
        final(entries).deep_view() == with_entries(
            old(entries).deep_view(),
            module_root@,
            more.deep_view(),
        ),
{
    let ghost before = entries.deep_view();
    let ghost all = more.deep_view();
    let mut i: usize = 0;
    assert(all.take(0).len() == 0);
    while i < more.len()
        invariant
            i <= more@.len(),
            all == more.deep_view(),
            entries.deep_view() == with_entries(before, module_root@, all.take(i as int)),
        decreases more@.len() - i,
    {
        proof {
            lemma_take_next(all, i as int);
            assert(all[i as int] == more@[i as int].deep_view());
        }
        let path = prefix_module_path(module_root, more[i].path.as_str());
        put_texts(entries, path.as_str(), &more[i].texts, true);
        i = i + 1;
    }
    proof {
        lemma_take_all(all);
    }
}

/// Adds the fuzz targets of a module, seen from the project.
pub fn merge_prefixed_fuzz_targets(
    targets: &mut GoFuzzTargets,
    module_root: &str,
    source: &GoFuzzTargets,
)
    ensures
        final(targets).deep_view() == (GoFuzzTargetsModel {
            handwritten: with_entries(
                old(targets).deep_view().handwritten,
                module_root@,
                source.deep_view().handwritten,
            ),
            generated: with_entries(
                old(targets).deep_view().generated,
                module_root@,
                source.deep_view().generated,
            ),
        }),
{
    add_entries(&mut targets.handwritten, module_root, &source.handwritten);
    add_entries(&mut targets.generated, module_root, &source.generated);
}

/// The fuzz target that a line of a harness declares.
pub open spec fn target_in_line(line: Seq<char>) -> Option<Seq<char>> {
    match without_prefix(trimmed_start(line), "func Fuzz"@) {
        Some(rest) => match cut_at(rest, '(') {
            Some(sides) => Some("Fuzz"@ + sides.0),
            None => None,
        },
        None => None,
    }
}

fn read_target_in_line(line: &str) -> (r: Option<String>)
    ensures
        r.deep_view() == target_in_line(line@),
{
    let bare = trim_start(line);
    match strip_prefix(bare.as_str(), "func Fuzz") {
        Some(rest) => match split_once(rest.as_str(), '(') {
            Some(sides) => Some(cat2("Fuzz", sides.0.as_str())),
            None => None,
        },
        None => None,
    }
}

/// The fuzz targets that lines declare.
pub open spec fn targets_of_lines(items: Seq<Seq<char>>) -> Seq<Seq<char>>
    decreases items.len(),
{
    if items.len() == 0 {
        Seq::empty()
    } else {
        let before = targets_of_lines(items.drop_last());
        match target_in_line(items.last()) {
            Some(one) => before.push(one),
            None => before,
        }
    }
}

fn targets_in_lines(items: &Vec<String>) -> (r: Vec<String>)
    ensures
        r.deep_view() == targets_of_lines(items.deep_view()),
{
    let mut out: Vec<String> = Vec::new();
    let ghost all = items.deep_view();
    let mut i: usize = 0;
    assert(out.deep_view() == targets_of_lines(all.take(0)));
    while i < items.len()
        invariant
            i <= items@.len(),
            all == items.deep_view(),
            out.deep_view() == targets_of_lines(all.take(i as int)),
        decreases items@.len() - i,
    {
        proof {
            lemma_take_next(all, i as int);
        }
        match read_target_in_line(items[i].as_str()) {
            Some(one) => {
                push_text(&mut out, one);
            },
            None => {},
        }
        i = i + 1;
    }
    proof {
        lemma_take_all(all);
    }
    out
}

/// The fuzz targets of a harness; all where it declares none.
pub open spec fn targets_in_harness(contents: Seq<char>) -> Seq<Seq<char>> {
    let names = targets_of_lines(lines_of(contents));
    if names.len() == 0 {
        seq!["Fuzz"@]
    } else {
        names
    }
}

fn read_targets_in_harness(contents: &str) -> (r: Vec<String>)
    ensures
        r.deep_view() == targets_in_harness(contents@),
{
    let mut names = targets_in_lines(&lines(contents));
    assert(names@.len() == names.deep_view().len());
    if names.len() == 0 {
        push_text(&mut names, owned("Fuzz"));
        assert(names.deep_view() =~= seq!["Fuzz"@]);
    }
    names
}

/// The fuzz targets of harnesses, by package. Of two harnesses of a package the later
/// one counts.
pub open spec fn targets_of_artifacts(artifacts: Seq<GeneratedArtifactModel>) -> Seq<PathTextsModel>
    decreases artifacts.len(),
{
    if artifacts.len() == 0 {
        Seq::empty()
    } else {
        let before = targets_of_artifacts(artifacts.drop_last());
        let artifact = artifacts.last();
        if artifact.kind == ArtifactKind::FuzzHarness {
            texts_put(
                before,
                package_dir_path(artifact.path),
                targets_in_harness(artifact.contents),
                false,
            )
        } else {
            before
        }
    }
}

/// The fuzz targets of harnesses, by package.
pub fn fuzz_targets(artifacts: &Vec<GeneratedArtifact>) -> (r: Vec<PathTexts>)
    ensures
        r.deep_view() == targets_of_artifacts(artifacts.deep_view()),
{
    let mut targets: Vec<PathTexts> = Vec::new();
    let ghost all = artifacts.deep_view();
    let mut i: usize = 0;
    assert(targets.deep_view() =~= targets_of_artifacts(all.take(0)));
    while i < artifacts.len()
        invariant
            i <= artifacts@.len(),
            all == artifacts.deep_view(),
            targets.deep_view() == targets_of_artifacts(all.take(i as int)),
        decreases artifacts@.len() - i,
    {
        proof {
            lemma_take_next(all, i as int);
            assert(all[i as int] == artifacts@[i as int].deep_view());
        }
        if artifacts[i].kind == ArtifactKind::FuzzHarness {
            let names = read_targets_in_harness(artifacts[i].contents.as_str());
            put_texts(
                &mut targets,
                package_dir(artifacts[i].path.as_str()).as_str(),
                &names,
                false,
            );
        }
        i = i + 1;
    }
    proof {
        lemma_take_all(all);
    }
    targets
}

/// Fuzz targets with those of the selected packages added.
pub open spec fn with_selected(
    targets: Seq<PathTextsModel>,
    selected: Seq<Seq<char>>,
    handwritten: Seq<PathTextsModel>,
) -> Seq<PathTextsModel>
    decreases handwritten.len(),
{
    if handwritten.len() == 0 {
        targets
    } else {
        let before = with_selected(targets, selected, handwritten.drop_last());
        let entry = handwritten.last();
        if holds::<ByPath>(selected, entry.path) {
            texts_put(before, entry.path, entry.texts, true)
        } else {
            before
        }
    }
}

fn add_selected(
    targets: &mut Vec<PathTexts>,
    selected: &Vec<String>,
    handwritten: &Vec<PathTexts>,
)
    ensures
        final(targets).deep_view() == with_selected(
            old(targets).deep_view(),
            selected.deep_view(),
            handwritten.deep_view(),
        ),
{
    let ghost before = targets.deep_view();
    let ghost all = handwritten.deep_view();
    let mut i: usize = 0;
    assert(all.take(0).len() == 0);
    while i < handwritten.len()
        invariant
            i <= handwritten@.len(),
            all == handwritten.deep_view(),
            targets.deep_view() == with_selected(before, selected.deep_view(), all.take(i as int)),
        decreases handwritten@.len() - i,
    {
        proof {
            lemma_take_next(all, i as int);
            assert(all[i as int] == handwritten@[i as int].deep_view());
        }
        let wanted = has::<ByPath>(selected, handwritten[i].path.as_str());
        if wanted {
            put_texts(targets, handwritten[i].path.as_str(), &handwritten[i].texts, true);
        }
        i = i + 1;
    }
    proof {
        lemma_take_all(all);
    }
}

/// An entry with its texts in order, each once, and the first of them up to a number;
/// nothing where none is left.
pub open spec fn capped_entry(entry: PathTextsModel, max: int) -> Option<PathTextsModel> {
    let texts = at_most(sorted_set::<ByText>(entry.texts), max);
    if texts.len() == 0 {
        None
    } else {
        Some(PathTextsModel { path: entry.path, texts })
    }
}

fn cap_entry(entry: &PathTexts, max: usize) -> (r: Option<PathTexts>)
    ensures
        r.deep_view() == capped_entry(entry.deep_view(), max as int),
{
    let sorted = to_sorted_set::<ByText>(&entry.texts);
    let texts = first_texts(&sorted, max);
    assert(texts@.len() == texts.deep_view().len());
    if texts.len() == 0 {
        None
    } else {
        Some(PathTexts { path: owned(entry.path.as_str()), texts })
    }
}

/// Entries with their texts in order, each once, and the first of them up to a number.
pub open spec fn all_capped(max: int, items: Seq<PathTextsModel>) -> Seq<PathTextsModel>
    decreases items.len(),
{
    if items.len() == 0 {
        Seq::empty()
    } else {
        let before = all_capped(max, items.drop_last());
        match capped_entry(items.last(), max) {
            Some(one) => before.push(one),
            None => before,
        }
    }
}

fn capped(max: usize, items: &Vec<PathTexts>) -> (r: Vec<PathTexts>)
    ensures
        r.deep_view() == all_capped(max as int, items.deep_view()),
{
    let mut out: Vec<PathTexts> = Vec::new();
    let ghost all = items.deep_view();
    let mut i: usize = 0;
    assert(out.deep_view() == all_capped(max as int, all.take(0)));
    while i < items.len()
        invariant
            i <= items@.len(),
            all == items.deep_view(),
            out.deep_view() == all_capped(max as int, all.take(i as int)),
        decreases items@.len() - i,
    {
        proof {
            lemma_take_next(all, i as int);
        }
        match cap_entry(&items[i], max) {
            Some(one) => {
                push_path_texts(&mut out, one);
            },
            None => {},
        }
        i = i + 1;
    }
    proof {
        lemma_take_all(all);
    }
    out
}

/// The fuzz targets that run for artifacts: those of their harnesses, and, where existing
/// ones are asked for, those written by hand in the packages that they are about.
pub open spec fn targets_for(
    handwritten: Seq<PathTextsModel>,
    artifacts: Seq<GeneratedArtifactModel>,
    config: GoPluginConfigModel,
) -> Seq<PathTextsModel> {
    let own = targets_of_artifacts(artifacts);
    all_capped(
        config.max_fuzz_targets as int,
        if config.fuzz_existing && artifacts.len() > 0 {
            with_selected(own, dirs_of_artifacts(artifacts), handwritten)
        } else {
            own
        },
    )
}

/// The fuzz targets that run for artifacts.
pub fn relevant_fuzz_targets(
    targets: &GoFuzzTargets,
    artifacts: &Vec<GeneratedArtifact>,
    config: &GoPluginConfig,
) -> (r: Vec<PathTexts>)
    ensures
        r.deep_view() == targets_for(
            targets.deep_view().handwritten,
            artifacts.deep_view(),
            config.deep_view(),
        ),
{
    let mut all = fuzz_targets(artifacts);
    assert(artifacts@.len() == artifacts.deep_view().len());
    if config.fuzz_existing && artifacts.len() > 0 {
        let selected = package_dirs_from_artifacts(artifacts);
        add_selected(&mut all, &selected, &targets.handwritten);
    }
    capped(config.max_fuzz_targets, &all)
}

/// No package has more fuzz targets than the limit, and each has one.
pub proof fn law_fuzz_targets_are_capped(max: int, entries: Seq<PathTextsModel>, i: int)
    requires
        max >= 0,
        0 <= i < all_capped(max, entries).len(),
    ensures
        1 <= all_capped(max, entries)[i].texts.len() <= max,
    decreases entries.len(),
{
    let before = all_capped(max, entries.drop_last());
    if i < before.len() {
        law_fuzz_targets_are_capped(max, entries.drop_last(), i);
    }
}

// ---------------------------------------------------------------------------
// Running fuzz targets
// ---------------------------------------------------------------------------
/// A run of a fuzz target: the module in which it runs, and the arguments of the Go tool.
#[derive(Debug, PartialEq, Eq)]
pub struct FuzzJob {
    pub module_root: String,
    pub args: Vec<String>,
}

/// The mathematical value of a `FuzzJob`.
pub struct FuzzJobModel {
    pub module_root: Seq<char>,
    pub args: Seq<Seq<char>>,
}

impl DeepView for FuzzJob {
    type V = FuzzJobModel;

    open spec fn deep_view(&self) -> FuzzJobModel {
        FuzzJobModel {
            module_root: self.module_root@,
            args: self.args.deep_view(),
        }
    }
}

impl Clone for FuzzJob {
    fn clone(&self) -> (r: Self)
        ensures
            r.deep_view() == self.deep_view(),
    {
        FuzzJob {
            module_root: self.module_root.clone(),
            args: clone_texts(&self.args),
        }
    }
}

/// Puts an item at the end of the list.
pub fn push_fuzz_job(items: &mut Vec<FuzzJob>, item: FuzzJob)
    ensures
        final(items).deep_view() == old(items).deep_view().push(item.deep_view()),
        final(items)@.len() == old(items)@.len() + 1,
{
    let ghost before = items.deep_view();
    items.push(item);
    assert(items.deep_view() == before.push(item.deep_view()));
}

/// Puts the items of a second list behind those of the first.
pub fn append_fuzz_jobs(items: &mut Vec<FuzzJob>, more: &mut Vec<FuzzJob>)
    ensures
        final(items).deep_view() == old(items).deep_view() + old(more).deep_view(),
{
    let ghost before = items.deep_view();
    let ghost tail = more.deep_view();
    items.append(more);
    assert(items.deep_view() == before + tail);
}

/// The run of a fuzz target.
pub open spec fn fuzz_job(
    module_root: Seq<char>,
    package_arg: Seq<char>,
    name: Seq<char>,
    config: GoPluginConfigModel,
) -> FuzzJobModel {
    FuzzJobModel {
        module_root,
        args: with_tags(
            "test"@,
            config.build_tags,
            seq![
                "-run=^$"@,
                "-fuzz=^"@ + name + "$"@,
                "-fuzztime="@ + decimal(config.fuzz_seconds as int) + "s"@,
                package_arg,
            ],
        ),
    }
}

fn make_fuzz_job(
    module_root: &str,
    package_arg: &str,
    name: &str,
    config: &GoPluginConfig,
) -> (r: FuzzJob)
    ensures
        r.deep_view() == fuzz_job(module_root@, package_arg@, name@, config.deep_view()),
{
    let mut rest: Vec<String> = Vec::new();
    push_text(&mut rest, owned("-run=^$"));
    push_text(&mut rest, cat3("-fuzz=^", name, "$"));
    push_text(&mut rest, cat3("-fuzztime=", print_u64(config.fuzz_seconds).as_str(), "s"));
    push_text(&mut rest, owned(package_arg));
    let ghost model = fuzz_job(module_root@, package_arg@, name@, config.deep_view());
    assert(rest.deep_view() =~= seq![
        "-run=^$"@,
        "-fuzz=^"@ + name@ + "$"@,
        "-fuzztime="@ + decimal(config.fuzz_seconds as int) + "s"@,
        package_arg@,
    ]);
    FuzzJob { module_root: owned(module_root), args: tagged_args("test", config, &rest) }
}

/// The runs of the fuzz targets of a package.
pub open spec fn fuzz_jobs_of_package(
    module_root: Seq<char>,
    package_arg: Seq<char>,
    config: GoPluginConfigModel,
    items: Seq<Seq<char>>,
) -> Seq<FuzzJobModel>
    decreases items.len(),
{
    if items.len() == 0 {
        Seq::empty()
    } else {
        fuzz_jobs_of_package(module_root, package_arg, config, items.drop_last()).push(fuzz_job(module_root, package_arg, items.last(), config))
    }
}

fn jobs_of_package(
    module_root: &str,
    package_arg: &str,
    config: &GoPluginConfig,
    items: &Vec<String>,
) -> (r: Vec<FuzzJob>)
    ensures
        r.deep_view() == fuzz_jobs_of_package(module_root@, package_arg@, config.deep_view(), items.deep_view()),
{
    let mut out: Vec<FuzzJob> = Vec::new();
    let ghost all = items.deep_view();
    let mut i: usize = 0;
    assert(out.deep_view() == fuzz_jobs_of_package(module_root@, package_arg@, config.deep_view(), all.take(0)));
    while i < items.len()
        invariant
            i <= items@.len(),
            all == items.deep_view(),
            out.deep_view() == fuzz_jobs_of_package(module_root@, package_arg@, config.deep_view(), all.take(i as int)),
        decreases items@.len() - i,
    {
        proof {
            lemma_take_next(all, i as int);
        }
        push_fuzz_job(&mut out, make_fuzz_job(module_root, package_arg, items[i].as_str(), config));
        i = i + 1;
    }
    proof {
        lemma_take_all(all);
    }
    out
}

/// The runs of fuzz targets, package by package.
pub open spec fn fuzz_jobs_of(
    modules: Seq<GoModuleModel>,
    targets: Seq<PathTextsModel>,
    config: GoPluginConfigModel,
) -> Seq<FuzzJobModel>
    decreases targets.len(),
{
    if targets.len() == 0 {
        Seq::empty()
    } else {
        let package = targets.last().path;
        let root = modules[owner_of(modules, package)].root;
        fuzz_jobs_of(modules, targets.drop_last(), config) + fuzz_jobs_of_package(
            root,
            argument_in_module(root, package, path_behind(package, root)),
            config,
            targets.last().texts,
        )
    }
}

/// The runs of fuzz targets, package by package. They need a module to run in.
pub fn fuzz_jobs(
    modules: &Vec<GoModule>,
    targets: &Vec<PathTexts>,
    config: &GoPluginConfig,
) -> (r: Vec<FuzzJob>)
    requires
        modules@.len() > 0 || targets@.len() == 0,
    ensures
        r.deep_view() == fuzz_jobs_of(
            modules.deep_view(),
            targets.deep_view(),
            config.deep_view(),
        ),
{
    let mut jobs: Vec<FuzzJob> = Vec::new();
    let ghost all = targets.deep_view();
    let mut i: usize = 0;
    assert(jobs.deep_view() =~= fuzz_jobs_of(modules.deep_view(), all.take(0), config.deep_view()));
    while i < targets.len()
        invariant
            i <= targets@.len(),
            modules@.len() > 0 || targets@.len() == 0,
            all == targets.deep_view(),
            jobs.deep_view() == fuzz_jobs_of(
                modules.deep_view(),
                all.take(i as int),
                config.deep_view(),
            ),
        decreases targets@.len() - i,
    {
        proof {
            lemma_take_next(all, i as int);
            assert(all[i as int] == targets@[i as int].deep_view());
        }
        let package = targets[i].path.as_str();
        let owner: usize = owning_module(modules, package);
        assert(modules.deep_view()[owner as int] == modules@[owner as int].deep_view());
        let root = modules[owner].root.as_str();
        let package_arg = module_relative_package_arg(root, package);
        let mut more = jobs_of_package(root, package_arg.as_str(), config, &targets[i].texts);
        append_fuzz_jobs(&mut jobs, &mut more);
        i = i + 1;
    }
    proof {
        lemma_take_all(all);
    }
    jobs
}

} // verus!
