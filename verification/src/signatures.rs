//! Signatures of functions: what their parameters take, the replay cases that
//! follow, and the baseline of public signatures.
use vstd::prelude::*;

use crate::api::{
    push_failure, ArtifactKind, Failure, FailureModel, FailureSeverity, GeneratedArtifact,
    GeneratedArtifactModel, ReproCase, ReproCaseModel, TargetKind, VerificationTarget,
    VerificationTargetModel,
};
use crate::documents::{optional_line_range_document, optional_line_range_json};
use crate::findings::{plan_artifact, planned, texts_of1, texts_of3, texts_of4};
use crate::json::{
    at, clone_json, exact_json, formatted, formatted_json, lemma_object_model, member, number,
    optional_text, parse, parse_exact, parsed_json, pretty, pretty_json, signed, text,
    text_or_null, texts, texts_model, Items, Json, JsonModel, Members,
};
use crate::number::{decimal, signed_decimal};
use crate::order::{sorted_set, to_sorted_set, ByText};
use crate::seqs::{cat2, cat3, cat4, lemma_take_all, lemma_take_next};
use crate::split::{push_text, split, split_at, split_whitespace, trim, trimmed, words_of};
use crate::text::{
    alnum, chars_of, contains, cut_at, has_text, is_alnum, lower, matches_at, occurs_at, or_text,
    owned, rcut_at, rsplit_once, same, split_once, text_or, to_lower,
};

verus! {

// ---------------------------------------------------------------------------
// Signatures
// ---------------------------------------------------------------------------
/// The parameter part of a signature: what stands between its first opening
/// bracket and, in Rust, the last closing one behind it, in Go and Python the first.
/// A signature without such a pair, or of another language, is taken whole.
pub open spec fn parameter_part(language: Seq<char>, signature: Seq<char>) -> Seq<char> {
    match cut_at(signature, '(') {
        Some(sides) => {
            let inner = if language == "rust"@ {
                rcut_at(sides.1, ')')
            } else if language == "go"@ || language == "python"@ {
                cut_at(sides.1, ')')
            } else {
                None
            };
            match inner {
                Some(parts) => parts.0,
                None => signature,
            }
        },
        None => signature,
    }
}

/// The parameter part of a signature.
pub fn signature_input_section(language: &str, signature: &str) -> (r: String)
    ensures
        r@ == parameter_part(language@, signature@),
{
    match split_once(signature, '(') {
        Some(sides) => {
            let inner = if same(language, "rust") {
                rsplit_once(sides.1.as_str(), ')')
            } else if same(language, "go") || same(language, "python") {
                split_once(sides.1.as_str(), ')')
            } else {
                None
            };
            match inner {
                Some(parts) => parts.0,
                None => owned(signature),
            }
        },
        None => owned(signature),
    }
}

/// Whether a signature names a numeric type.
pub open spec fn names_number(s: Seq<char>) -> bool {
    ||| has_text(s, "i8"@)
    ||| has_text(s, "i16"@)
    ||| has_text(s, "i32"@)
    ||| has_text(s, "i64"@)
    ||| has_text(s, "isize"@)
    ||| has_text(s, "u8"@)
    ||| has_text(s, "u16"@)
    ||| has_text(s, "u32"@)
    ||| has_text(s, "u64"@)
    ||| has_text(s, "usize"@)
    ||| has_text(s, "int"@)
    ||| has_text(s, "int8"@)
    ||| has_text(s, "int16"@)
    ||| has_text(s, "int32"@)
    ||| has_text(s, "int64"@)
    ||| has_text(s, "uint"@)
    ||| has_text(s, "uint8"@)
    ||| has_text(s, "uint16"@)
    ||| has_text(s, "uint32"@)
    ||| has_text(s, "uint64"@)
    ||| has_text(s, "float32"@)
    ||| has_text(s, "float64"@)
}

/// Whether a signature names a numeric type.
pub fn signature_contains_numeric(s: &str) -> (r: bool)
    ensures
        r == names_number(s@),
{
    contains(s, "i8")
        || contains(s, "i16")
        || contains(s, "i32")
        || contains(s, "i64")
        || contains(s, "isize")
        || contains(s, "u8")
        || contains(s, "u16")
        || contains(s, "u32")
        || contains(s, "u64")
        || contains(s, "usize")
        || contains(s, "int")
        || contains(s, "int8")
        || contains(s, "int16")
        || contains(s, "int32")
        || contains(s, "int64")
        || contains(s, "uint")
        || contains(s, "uint8")
        || contains(s, "uint16")
        || contains(s, "uint32")
        || contains(s, "uint64")
        || contains(s, "float32")
        || contains(s, "float64")
}

/// Whether a character may stand in a word of a program.
pub open spec fn is_word_char(c: char) -> bool {
    is_alnum(c) || c == '_'
}

/// Whether a word stands at an index with no word character before or behind it.
pub open spec fn word_at(s: Seq<char>, word: Seq<char>, i: int) -> bool {
    &&& occurs_at(s, word, i)
    &&& i == 0 || !is_word_char(s[i - 1])
    &&& i + word.len() == s.len() || !is_word_char(s[i + word.len()])
}

/// Whether a word stands somewhere with no word character before or behind it.
pub open spec fn holds_word(s: Seq<char>, word: Seq<char>) -> bool {
    exists|i: int| word_at(s, word, i)
}

/// Whether a word stands in a text with no word character before or behind it.
pub fn has_word(s: &str, word: &str) -> (r: bool)
    ensures
        r == holds_word(s@, word@),
{
    let sc = chars_of(s);
    let wc = chars_of(word);
    let n: usize = sc.len();
    let w: usize = wc.len();
    let mut i: usize = 0;
    loop
        invariant
            n == sc@.len(),
            w == wc@.len(),
            sc@ == s@,
            wc@ == word@,
            i <= n,
            forall|k: int| 0 <= k < i ==> !word_at(s@, word@, k),
        decreases n - i,
    {
        if matches_at(&sc, &wc, i) {
            let before = i == 0 || !(alnum(sc[i - 1]) || sc[i - 1] == '_');
            let behind = i + w == n || !(alnum(sc[i + w]) || sc[i + w] == '_');
            if before && behind {
                assert(word_at(s@, word@, i as int));
                return true;
            }
        }
        if i == n {
            assert forall|k: int| !word_at(s@, word@, k) by {
                if word_at(s@, word@, k) {
                    assert(0 <= k <= i);
                }
            }
            return false;
        }
        i = i + 1;
    }
}

/// Whether parameters take text.
pub open spec fn takes_text(language: Seq<char>, s: Seq<char>) -> bool {
    ||| has_text(s, "&str"@)
    ||| has_text(s, "String"@)
    ||| has_text(s, "string"@)
    ||| language == "python"@ && holds_word(s, "str"@)
}

/// Whether parameters take text.
pub fn signature_contains_string_input(language: &str, signature: &str) -> (r: bool)
    ensures
        r == takes_text(language@, signature@),
{
    contains(signature, "&str") || contains(signature, "String") || contains(signature, "string")
        || (same(language, "python") && has_word(signature, "str"))
}

/// What a parameter takes.
#[derive(Debug, Clone, Copy, PartialEq, Eq, Structural)]
pub enum ReplayParamKind {
    Text,
    Numeric,
    Bool,
    Other,
}

/// What a list of words ends with, or the whole text where it has no word.
pub open spec fn last_word(s: Seq<char>) -> Seq<char> {
    if words_of(s).len() > 0 {
        words_of(s).last()
    } else {
        s
    }
}

fn word_at_end(s: &str) -> (r: String)
    ensures
        r@ == last_word(s@),
{
    let words = split_whitespace(s);
    assert(words@.len() == words.deep_view().len());
    if words.len() > 0 {
        assert(words.deep_view().last() == words@[words@.len() - 1]@);
        words[words.len() - 1].clone()
    } else {
        owned(s)
    }
}

/// The type of a parameter, as its language writes it.
pub open spec fn type_of_parameter(language: Seq<char>, param: Seq<char>) -> Seq<char> {
    trimmed(
        if language == "rust"@ || language == "python"@ {
            match cut_at(param, ':') {
                Some(sides) => sides.1,
                None => param,
            }
        } else if language == "go"@ {
            last_word(param)
        } else {
            param
        },
    )
}

fn parameter_type(language: &str, param: &str) -> (r: String)
    ensures
        r@ == type_of_parameter(language@, param@),
{
    let hint = if same(language, "rust") || same(language, "python") {
        match split_once(param, ':') {
            Some(sides) => sides.1,
            None => owned(param),
        }
    } else if same(language, "go") {
        word_at_end(param)
    } else {
        owned(param)
    };
    trim(hint.as_str())
}

/// What a parameter takes.
pub open spec fn kind_of_parameter(language: Seq<char>, param: Seq<char>) -> ReplayParamKind {
    let hint = type_of_parameter(language, param);
    if has_text(hint, "&str"@) || has_text(hint, "String"@) || hint == "str"@ {
        ReplayParamKind::Text
    } else if hint == "bool"@ {
        ReplayParamKind::Bool
    } else if names_number(hint) {
        ReplayParamKind::Numeric
    } else {
        ReplayParamKind::Other
    }
}

/// What a parameter takes.
pub fn replay_param_kind(language: &str, param: &str) -> (r: ReplayParamKind)
    ensures
        r == kind_of_parameter(language@, param@),
{
    let hint = parameter_type(language, param);
    if contains(hint.as_str(), "&str") || contains(hint.as_str(), "String") || same(
        hint.as_str(),
        "str",
    ) {
        ReplayParamKind::Text
    } else if same(hint.as_str(), "bool") {
        ReplayParamKind::Bool
    } else if signature_contains_numeric(hint.as_str()) {
        ReplayParamKind::Numeric
    } else {
        ReplayParamKind::Other
    }
}

/// The parts of a list between commas that are not blank, without white space
/// around them.
pub open spec fn solid_parts(parts: Seq<Seq<char>>) -> Seq<Seq<char>>
    decreases parts.len(),
{
    if parts.len() == 0 {
        Seq::empty()
    } else if trimmed(parts.last()).len() > 0 {
        solid_parts(parts.drop_last()).push(trimmed(parts.last()))
    } else {
        solid_parts(parts.drop_last())
    }
}

/// The parameters of the parameter part of a signature.
pub fn split_signature_params(input: &str) -> (r: Vec<String>)
    ensures
        r.deep_view() == solid_parts(split_at(input@, ',')),
{
    let parts = split(input, ',');
    let ghost all = parts.deep_view();
    let mut out: Vec<String> = Vec::new();
    let mut i: usize = 0;
    assert(out.deep_view() =~= solid_parts(all.take(0)));
    while i < parts.len()
        invariant
            i <= parts@.len(),
            all == parts.deep_view(),
            out.deep_view() == solid_parts(all.take(i as int)),
        decreases parts@.len() - i,
    {
        proof {
            lemma_take_next(all, i as int);
        }
        let part = trim(parts[i].as_str());
        if !part.as_str().is_empty() {
            push_text(&mut out, part);
        }
        i = i + 1;
    }
    proof {
        lemma_take_all(all);
    }
    out
}

/// What each parameter takes.
pub open spec fn kinds_of_parameters(language: Seq<char>, params: Seq<Seq<char>>) -> Seq<
    ReplayParamKind,
> {
    params.map_values(|param: Seq<char>| kind_of_parameter(language, param))
}

/// What each parameter of the parameter part of a signature takes.
pub fn replay_param_kinds(language: &str, input: &str) -> (r: Vec<ReplayParamKind>)
    ensures
        r@ == kinds_of_parameters(language@, solid_parts(split_at(input@, ','))),
{
    let params = split_signature_params(input);
    let ghost all = params.deep_view();
    let mut out: Vec<ReplayParamKind> = Vec::new();
    let mut i: usize = 0;
    assert(out@ =~= kinds_of_parameters(language@, all.take(0)));
    while i < params.len()
        invariant
            i <= params@.len(),
            all == params.deep_view(),
            out@ == kinds_of_parameters(language@, all.take(i as int)),
        decreases params@.len() - i,
    {
        out.push(replay_param_kind(language, params[i].as_str()));
        proof {
            lemma_take_next(all, i as int);
        }
        i = i + 1;
        assert(out@ =~= kinds_of_parameters(language@, all.take(i as int)));
    }
    proof {
        lemma_take_all(all);
    }
    out
}

// ---------------------------------------------------------------------------
// Replay cases
// ---------------------------------------------------------------------------
/// A replay case.
pub open spec fn replay_case_document(
    name: Seq<char>,
    inputs: JsonModel,
    assertion: Seq<char>,
) -> JsonModel {
    JsonModel::Object(
        seq![
            ("name"@, JsonModel::Text(name)),
            ("inputs"@, inputs),
            ("assertion"@, JsonModel::Text(assertion)),
        ],
    )
}

fn replay_case_json(name: &str, inputs: Json, assertion: &str) -> (r: Json)
    ensures
        r.deep_view() == replay_case_document(name@, inputs.deep_view(), assertion@),
{
    let mut members = Members::new();
    members.put("name", text(name));
    members.put("inputs", inputs);
    members.put("assertion", text(assertion));
    assert(members.model() =~= replay_case_document(name@, inputs.deep_view(), assertion@)->Object_0);
    members.finish()
}

/// A replay case whose inputs are argument tuples.
pub open spec fn tuple_case_document(
    name: Seq<char>,
    inputs: JsonModel,
    assertion: Seq<char>,
) -> JsonModel {
    JsonModel::Object(
        seq![
            ("name"@, JsonModel::Text(name)),
            ("inputs"@, inputs),
            ("argument_tuple"@, JsonModel::Bool(true)),
            ("assertion"@, JsonModel::Text(assertion)),
        ],
    )
}

fn tuple_case_json(name: &str, inputs: Json, assertion: &str) -> (r: Json)
    ensures
        r.deep_view() == tuple_case_document(name@, inputs.deep_view(), assertion@),
{
    let mut members = Members::new();
    members.put("name", text(name));
    members.put("inputs", inputs);
    members.put("argument_tuple", Json::Bool(true));
    members.put("assertion", text(assertion));
    assert(members.model() =~= tuple_case_document(name@, inputs.deep_view(), assertion@)->Object_0);
    members.finish()
}

/// A list of one value where a condition holds, and an empty one where not.
pub open spec fn case_when(condition: bool, value: JsonModel) -> Seq<JsonModel> {
    if condition {
        seq![value]
    } else {
        Seq::empty()
    }
}

fn put_when(items: &mut Items, condition: bool, value: Json)
    ensures
        final(items).model() == old(items).model() + case_when(condition, value.deep_view()),
{
    let ghost before = items.model();
    if condition {
        items.put(value);
    }
    assert(items.model() =~= before + case_when(condition, value.deep_view()));
}

/// No values.
fn no_values() -> (r: Json)
    ensures
        r.deep_view() == JsonModel::Array(Seq::empty()),
{
    let items = Items::new();
    items.finish()
}

/// One value.
fn one_value(a: Json) -> (r: Json)
    ensures
        r.deep_view() == JsonModel::Array(seq![a.deep_view()]),
{
    let mut items = Items::new();
    items.put(a);
    assert(items.model() =~= seq![a.deep_view()]);
    items.finish()
}

/// Two values.
fn two_values(a: Json, b: Json) -> (r: Json)
    ensures
        r.deep_view() == JsonModel::Array(seq![a.deep_view(), b.deep_view()]),
{
    let mut items = Items::new();
    items.put(a);
    items.put(b);
    assert(items.model() =~= seq![a.deep_view(), b.deep_view()]);
    items.finish()
}

/// Three values.
fn three_values(a: Json, b: Json, c: Json) -> (r: Json)
    ensures
        r.deep_view() == JsonModel::Array(seq![a.deep_view(), b.deep_view(), c.deep_view()]),
{
    let mut items = Items::new();
    items.put(a);
    items.put(b);
    items.put(c);
    assert(items.model() =~= seq![a.deep_view(), b.deep_view(), c.deep_view()]);
    items.finish()
}

/// The value of a parameter in a seeded tuple.
pub open spec fn seed_value(
    kind: ReplayParamKind,
    text_seed: Seq<char>,
    number_seed: int,
    flag_seed: bool,
) -> JsonModel {
    match kind {
        ReplayParamKind::Text => JsonModel::Text(text_seed),
        ReplayParamKind::Numeric => JsonModel::Number(signed_decimal(number_seed)),
        ReplayParamKind::Bool => JsonModel::Bool(flag_seed),
        ReplayParamKind::Other => JsonModel::Null,
    }
}

/// A tuple with one seed for each parameter.
pub open spec fn seed_tuple(
    kinds: Seq<ReplayParamKind>,
    text_seed: Seq<char>,
    number_seed: int,
    flag_seed: bool,
) -> JsonModel {
    JsonModel::Array(
        kinds.map_values(
            |kind: ReplayParamKind| seed_value(kind, text_seed, number_seed, flag_seed),
        ),
    )
}

/// A tuple with one seed for each parameter.
pub fn replay_seed_tuple(
    kinds: &Vec<ReplayParamKind>,
    text_seed: &str,
    number_seed: i64,
    flag_seed: bool,
) -> (r: Json)
    ensures
        r.deep_view() == seed_tuple(kinds@, text_seed@, number_seed as int, flag_seed),
{
    let mut items = Items::new();
    let mut i: usize = 0;
    while i < kinds.len()
        invariant
            i <= kinds@.len(),
            items.model().len() == i,
            forall|k: int|
                0 <= k < i ==> #[trigger] items.model()[k] == seed_value(
                    kinds@[k],
                    text_seed@,
                    number_seed as int,
                    flag_seed,
                ),
        decreases kinds@.len() - i,
    {
        let value = match kinds[i] {
            ReplayParamKind::Text => text(text_seed),
            ReplayParamKind::Numeric => signed(number_seed),
            ReplayParamKind::Bool => Json::Bool(flag_seed),
            ReplayParamKind::Other => Json::Null,
        };
        items.put(value);
        i = i + 1;
    }
    assert(items.model() =~= seed_tuple(
        kinds@,
        text_seed@,
        number_seed as int,
        flag_seed,
    )->Array_0);
    items.finish()
}

fn has_kind(kinds: &Vec<ReplayParamKind>, kind: ReplayParamKind) -> (r: bool)
    ensures
        r == kinds@.contains(kind),
{
    let mut i: usize = 0;
    while i < kinds.len()
        invariant
            i <= kinds@.len(),
            forall|k: int| 0 <= k < i ==> #[trigger] kinds@[k] != kind,
        decreases kinds@.len() - i,
    {
        if kinds[i] == kind {
            return true;
        }
        i = i + 1;
    }
    false
}

/// Whether a symbol, in lower case, is about permissions.
pub open spec fn about_permission(symbol: Seq<char>) -> bool {
    has_text(symbol, "auth"@) || has_text(symbol, "permission"@) || has_text(symbol, "refund"@)
}

fn concerns_permission(symbol: &str) -> (r: bool)
    ensures
        r == about_permission(symbol@),
{
    contains(symbol, "auth") || contains(symbol, "permission") || contains(symbol, "refund")
}

/// Whether a symbol, in lower case, is about parsing.
pub open spec fn about_parsing(symbol: Seq<char>) -> bool {
    has_text(symbol, "parse"@) || has_text(symbol, "invoice"@) || has_text(symbol, "total"@)
}

fn concerns_parsing(symbol: &str) -> (r: bool)
    ensures
        r == about_parsing(symbol@),
{
    contains(symbol, "parse") || contains(symbol, "invoice") || contains(symbol, "total")
}

/// What to do where no case can be seeded.
pub open spec fn promoted_assertion_text(language: Seq<char>) -> Seq<char> {
    let t = "add a promoted "@
        + language
        + " assertion for this public API before accepting behavior changes"@;
    t
}

fn promoted_assertion(language: &str) -> (r: String)
    ensures
        r@ == promoted_assertion_text(language@),
{
    let mut out = owned("add a promoted ");
    out.append(language);
    out.append(" assertion for this public API before accepting behavior changes");
    out
}

/// The replay cases of a function of several parameters.
pub open spec fn tuple_cases(
    language: Seq<char>,
    symbol: Seq<char>,
    kinds: Seq<ReplayParamKind>,
) -> Seq<JsonModel> {
    if kinds.contains(ReplayParamKind::Other) {
        seq![
            tuple_case_document(
                "targeted_behavior"@,
                JsonModel::Array(Seq::empty()),
                promoted_assertion_text(language),
            ),
        ]
    } else {
        case_when(
            true,
            tuple_case_document(
                "argument_zero_tuple"@,
                JsonModel::Array(seq![seed_tuple(kinds, ""@, 0, false)]),
                "replay old/new behavior for the zero-value argument tuple"@,
            ),
        )
        + case_when(
            true,
            tuple_case_document(
                "argument_one_tuple"@,
                JsonModel::Array(seq![seed_tuple(kinds, "veritas-seed"@, 1, true)]),
                "replay old/new behavior for the one-value argument tuple"@,
            ),
        )
        + case_when(
            kinds.contains(ReplayParamKind::Text),
            tuple_case_document(
                "argument_trimmed_tuple"@,
                JsonModel::Array(seq![seed_tuple(kinds, "  veritas-seed  "@, 1, true)]),
                "replay old/new behavior when one argument needs whitespace normalization"@,
            ),
        )
        + case_when(
            about_permission(symbol),
            tuple_case_document(
                "permission_boundary"@,
                JsonModel::Array(seq![seed_tuple(kinds, "admin"@, 50000, true), seed_tuple(kinds, "support"@, 25000, true), seed_tuple(kinds, "guest"@, 1, false)]),
                "assert privileged, delegated, and denied argument tuples keep their old/new behavior"@,
            ),
        )
        + case_when(
            about_parsing(symbol),
            tuple_case_document(
                "parser_invalid_tuple"@,
                JsonModel::Array(seq![seed_tuple(kinds, ""@, 0, false), seed_tuple(kinds, "total=0"@, 0, false), seed_tuple(kinds, "not-a-total"@, 1, true)]),
                "assert parser invalid-input argument tuples are intentional before accepting the replay"@,
            ),
        )
    }
}

/// The replay cases of a function of several parameters.
pub fn multi_argument_replay_cases(
    language: &str,
    symbol: &str,
    kinds: &Vec<ReplayParamKind>,
) -> (r: Json)
    ensures
        r.deep_view() == JsonModel::Array(tuple_cases(language@, symbol@, kinds@)),
{
    let mut items = Items::new();
    if has_kind(kinds, ReplayParamKind::Other) {
        items.put(
            tuple_case_json(
                "targeted_behavior",
                no_values(),
                promoted_assertion(language).as_str(),
            ),
        );
    } else {
        put_when(
            &mut items,
            true,
            tuple_case_json(
                "argument_zero_tuple",
                one_value(replay_seed_tuple(kinds, "", 0, false)),
                "replay old/new behavior for the zero-value argument tuple",
            ),
        );
        put_when(
            &mut items,
            true,
            tuple_case_json(
                "argument_one_tuple",
                one_value(replay_seed_tuple(kinds, "veritas-seed", 1, true)),
                "replay old/new behavior for the one-value argument tuple",
            ),
        );
        put_when(
            &mut items,
            has_kind(kinds, ReplayParamKind::Text),
            tuple_case_json(
                "argument_trimmed_tuple",
                one_value(replay_seed_tuple(kinds, "  veritas-seed  ", 1, true)),
                "replay old/new behavior when one argument needs whitespace normalization",
            ),
        );
        put_when(
            &mut items,
            concerns_permission(symbol),
            tuple_case_json(
                "permission_boundary",
                three_values(replay_seed_tuple(kinds, "admin", 50000, true), replay_seed_tuple(kinds, "support", 25000, true), replay_seed_tuple(kinds, "guest", 1, false)),
                "assert privileged, delegated, and denied argument tuples keep their old/new behavior",
            ),
        );
        put_when(
            &mut items,
            concerns_parsing(symbol),
            tuple_case_json(
                "parser_invalid_tuple",
                three_values(replay_seed_tuple(kinds, "", 0, false), replay_seed_tuple(kinds, "total=0", 0, false), replay_seed_tuple(kinds, "not-a-total", 1, true)),
                "assert parser invalid-input argument tuples are intentional before accepting the replay",
            ),
        );
    }
    assert(items.model() =~= tuple_cases(language@, symbol@, kinds@));
    items.finish()
}

/// The replay cases of a function of at most one parameter, before the one for a
/// function that none fits.
pub open spec fn seeded_cases(
    language: Seq<char>,
    symbol: Seq<char>,
    input: Seq<char>,
) -> Seq<JsonModel> {
    case_when(
        takes_text(language, input),
        replay_case_document(
            "empty_string"@,
            texts_model(seq![""@]),
            "replay old/new behavior for empty input and invalid formatting"@,
        ),
    )
    + case_when(
        takes_text(language, input),
        replay_case_document(
            "trimmed_token"@,
            texts_model(seq!["  veritas-seed  "@]),
            "replay old/new behavior for whitespace-normalized input"@,
        ),
    )
    + case_when(
        names_number(input),
        replay_case_document(
            "zero_boundary"@,
            JsonModel::Array(seq![JsonModel::Number(decimal(0))]),
            "replay old/new behavior at zero boundary"@,
        ),
    )
    + case_when(
        names_number(input),
        replay_case_document(
            "one_boundary"@,
            JsonModel::Array(seq![JsonModel::Number(decimal(1))]),
            "replay old/new behavior at one boundary"@,
        ),
    )
    + case_when(
        has_text(input, "bool"@),
        replay_case_document(
            "boolean_edges"@,
            JsonModel::Array(seq![JsonModel::Bool(false), JsonModel::Bool(true)]),
            "replay old/new behavior for both boolean branches"@,
        ),
    )
    + case_when(
        about_permission(symbol),
        replay_case_document(
            "permission_boundary"@,
            texts_model(seq!["admin"@, "support"@, "guest"@]),
            "assert privileged, delegated, and denied principals keep their old/new behavior"@,
        ),
    )
    + case_when(
        about_parsing(symbol) && takes_text(language, input),
        replay_case_document(
            "numeric_string_boundaries"@,
            texts_model(seq!["0"@, "1"@, "1000000"@, "1000001"@]),
            "assert parser numeric string boundaries are intentional before accepting the replay"@,
        ),
    )
    + case_when(
        about_parsing(symbol),
        replay_case_document(
            "parser_invalid_input"@,
            texts_model(seq![""@, "total=0"@, "not-a-total"@]),
            "assert parser invalid-input behavior is intentional before accepting the replay"@,
        ),
    )
}

/// The replay cases of a function of at most one parameter.
pub open spec fn single_cases(
    language: Seq<char>,
    symbol: Seq<char>,
    input: Seq<char>,
) -> Seq<JsonModel> {
    let cases = seeded_cases(language, symbol, input);
    if cases.len() == 0 {
        seq![
            replay_case_document(
                "targeted_behavior"@,
                JsonModel::Array(Seq::empty()),
                promoted_assertion_text(language),
            ),
        ]
    } else {
        cases
    }
}

fn put_seeded_cases(items: &mut Items, language: &str, symbol: &str, input: &str)
    ensures
        final(items).model() == old(items).model() + seeded_cases(language@, symbol@, input@),
{
    let ghost before = items.model();
    let stringy = signature_contains_string_input(language, input);
    let numeric = signature_contains_numeric(input);
    let parser = concerns_parsing(symbol);
    put_when(
        items,
        stringy,
        replay_case_json(
            "empty_string",
            texts(&texts_of1("")),
            "replay old/new behavior for empty input and invalid formatting",
        ),
    );
    put_when(
        items,
        stringy,
        replay_case_json(
            "trimmed_token",
            texts(&texts_of1("  veritas-seed  ")),
            "replay old/new behavior for whitespace-normalized input",
        ),
    );
    put_when(
        items,
        numeric,
        replay_case_json(
            "zero_boundary",
            one_value(number(0)),
            "replay old/new behavior at zero boundary",
        ),
    );
    put_when(
        items,
        numeric,
        replay_case_json(
            "one_boundary",
            one_value(number(1)),
            "replay old/new behavior at one boundary",
        ),
    );
    put_when(
        items,
        contains(input, "bool"),
        replay_case_json(
            "boolean_edges",
            two_values(Json::Bool(false), Json::Bool(true)),
            "replay old/new behavior for both boolean branches",
        ),
    );
    put_when(
        items,
        concerns_permission(symbol),
        replay_case_json(
            "permission_boundary",
            texts(&texts_of3("admin", "support", "guest")),
            "assert privileged, delegated, and denied principals keep their old/new behavior",
        ),
    );
    put_when(
        items,
        parser && stringy,
        replay_case_json(
            "numeric_string_boundaries",
            texts(&texts_of4("0", "1", "1000000", "1000001")),
            "assert parser numeric string boundaries are intentional before accepting the replay",
        ),
    );
    put_when(
        items,
        parser,
        replay_case_json(
            "parser_invalid_input",
            texts(&texts_of3("", "total=0", "not-a-total")),
            "assert parser invalid-input behavior is intentional before accepting the replay",
        ),
    );
    assert(items.model() =~= before + seeded_cases(language@, symbol@, input@));
}

fn single_argument_replay_cases(language: &str, symbol: &str, input: &str) -> (r: Json)
    ensures
        r.deep_view() == JsonModel::Array(single_cases(language@, symbol@, input@)),
{
    let mut items = Items::new();
    put_seeded_cases(&mut items, language, symbol, input);
    assert(items.model() =~= seeded_cases(language@, symbol@, input@));
    if items.list.len() == 0 {
        items.put(
            replay_case_json(
                "targeted_behavior",
                no_values(),
                promoted_assertion(language).as_str(),
            ),
        );
    }
    assert(items.model() =~= single_cases(language@, symbol@, input@));
    items.finish()
}

/// The replay cases of a target.
pub open spec fn cases_of_target(
    language: Seq<char>,
    target: VerificationTargetModel,
) -> Seq<JsonModel> {
    let symbol = lower(or_text(target.symbol, Seq::empty()));
    let input = parameter_part(language, or_text(target.signature, Seq::empty()));
    let kinds = kinds_of_parameters(language, solid_parts(split_at(input, ',')));
    if kinds.len() > 1 {
        tuple_cases(language, symbol, kinds)
    } else {
        single_cases(language, symbol, input)
    }
}

/// The replay cases of a target.
pub fn replay_cases_for_target(language: &str, target: &VerificationTarget) -> (r: Json)
    ensures
        r.deep_view() == JsonModel::Array(cases_of_target(language@, target.deep_view())),
{
    proof {
        reveal_strlit("");
        assert(""@ =~= Seq::<char>::empty());
    }
    let symbol = to_lower(text_or(&target.symbol, "").as_str());
    let input = signature_input_section(language, text_or(&target.signature, "").as_str());
    let kinds = replay_param_kinds(language, input.as_str());
    if kinds.len() > 1 {
        multi_argument_replay_cases(language, symbol.as_str(), &kinds)
    } else {
        single_argument_replay_cases(language, symbol.as_str(), input.as_str())
    }
}

/// Every target has a replay case.
pub proof fn law_every_target_has_a_case(language: Seq<char>, target: VerificationTargetModel)
    ensures
        cases_of_target(language, target).len() > 0,
{
}

/// Replay cases depend on what a function takes, and not on what it returns: two
/// signatures with the same parameters give the same cases.
pub proof fn law_cases_ignore_the_result_type(
    language: Seq<char>,
    a: VerificationTargetModel,
    b: VerificationTargetModel,
)
    requires
        a.symbol == b.symbol,
        parameter_part(language, or_text(a.signature, Seq::empty())) == parameter_part(
            language,
            or_text(b.signature, Seq::empty()),
        ),
    ensures
        cases_of_target(language, a) == cases_of_target(language, b),
{
}

// ---------------------------------------------------------------------------
// The replay manifest
// ---------------------------------------------------------------------------
/// A target in a replay manifest.
pub open spec fn manifest_target_document(
    language: Seq<char>,
    target: VerificationTargetModel,
) -> JsonModel {
    JsonModel::Object(
        seq![
            ("target_id"@, JsonModel::Text(target.id)),
            ("path"@, JsonModel::Text(target.path)),
            ("symbol"@, text_or_null(target.symbol)),
            ("signature"@, text_or_null(target.signature)),
            ("line_range"@, optional_line_range_document(target.line_range)),
            ("risk"@, JsonModel::Text(target.risk.label_text())),
            ("cases"@, JsonModel::Array(cases_of_target(language, target))),
        ],
    )
}

fn manifest_target_json(language: &str, target: &VerificationTarget) -> (r: Json)
    ensures
        r.deep_view() == manifest_target_document(language@, target.deep_view()),
{
    let mut members = Members::new();
    members.put("target_id", text(target.id.as_str()));
    members.put("path", text(target.path.as_str()));
    members.put("symbol", optional_text(&target.symbol));
    members.put("signature", optional_text(&target.signature));
    members.put("line_range", optional_line_range_json(&target.line_range));
    members.put("risk", text(target.risk.label()));
    members.put("cases", replay_cases_for_target(language, target));
    assert(members.model() =~= manifest_target_document(language@, target.deep_view())->Object_0);
    members.finish()
}

/// Whether a target can be replayed: a function with a known signature.
pub open spec fn replayable(target: VerificationTargetModel) -> bool {
    target.kind == TargetKind::Function && target.signature is Some
}

/// The targets of a replay manifest.
pub open spec fn manifest_entries(
    language: Seq<char>,
    targets: Seq<VerificationTargetModel>,
) -> Seq<
    JsonModel,
>
    decreases targets.len(),
{
    if targets.len() == 0 {
        Seq::empty()
    } else if replayable(targets.last()) {
        manifest_entries(language, targets.drop_last()).push(
            manifest_target_document(language, targets.last()),
        )
    } else {
        manifest_entries(language, targets.drop_last())
    }
}

fn manifest_list(language: &str, targets: &Vec<VerificationTarget>) -> (r: Json)
    ensures
        r.deep_view() == JsonModel::Array(manifest_entries(language@, targets.deep_view())),
{
    let ghost all = targets.deep_view();
    let mut out = Items::new();
    let mut i: usize = 0;
    assert(out.model() =~= manifest_entries(language@, all.take(0)));
    while i < targets.len()
        invariant
            i <= targets@.len(),
            all == targets.deep_view(),
            out.model() == manifest_entries(language@, all.take(i as int)),
        decreases targets@.len() - i,
    {
        proof {
            lemma_take_next(all, i as int);
        }
        if targets[i].kind == TargetKind::Function && targets[i].signature.is_some() {
            out.put(manifest_target_json(language, &targets[i]));
        }
        i = i + 1;
    }
    proof {
        lemma_take_all(all);
    }
    out.finish()
}

/// A replay manifest.
pub open spec fn manifest_document(
    language: Seq<char>,
    targets: Seq<VerificationTargetModel>,
) -> JsonModel {
    JsonModel::Object(
        seq![
            ("version"@, JsonModel::Number(decimal(1))),
            ("language"@, JsonModel::Text(language)),
            ("mode"@, JsonModel::Text("behavioral_replay_manifest"@)),
            ("description"@, JsonModel::Text(
                "Reviewable old/new replay cases for selected public APIs. Persist this artifact before a risky change, rerun veritas after the change, and compare case intent plus promoted assertions."@,
            )),
            ("targets"@, JsonModel::Array(manifest_entries(language, targets))),
        ],
    )
}

fn manifest_json(language: &str, targets: &Vec<VerificationTarget>) -> (r: Json)
    ensures
        r.deep_view() == manifest_document(language@, targets.deep_view()),
{
    let mut members = Members::new();
    members.put("version", number(1));
    members.put("language", text(language));
    members.put("mode", text("behavioral_replay_manifest"));
    members.put("description", text("Reviewable old/new replay cases for selected public APIs. Persist this artifact before a risky change, rerun veritas after the change, and compare case intent plus promoted assertions."));
    members.put("targets", manifest_list(language, targets));
    assert(members.model() =~= manifest_document(language@, targets.deep_view())->Object_0);
    members.finish()
}

/// The replay manifest of some targets.
pub open spec fn manifest_artifact(
    language: Seq<char>,
    targets: Seq<VerificationTargetModel>,
) -> GeneratedArtifactModel {
    planned(
        language + "-differential-replay"@,
        language,
        ArtifactKind::DifferentialReplay,
        language + ":project"@,
        ".veritas/differential/"@ + language + "_replay.json"@,
        pretty_json(manifest_document(language, targets)),
        "Behavioral replay manifest for selected public APIs"@,
    )
}

/// The replay manifest of some targets.
pub fn differential_replay_artifact(language: &str, targets: &Vec<VerificationTarget>) -> (r:
    GeneratedArtifact)
    ensures
        r.deep_view() == manifest_artifact(language@, targets.deep_view()),
{
    plan_artifact(
        cat2(language, "-differential-replay"),
        language,
        ArtifactKind::DifferentialReplay,
        cat2(language, ":project"),
        cat3(".veritas/differential/", language, "_replay.json"),
        pretty(&manifest_json(language, targets)),
        "Behavioral replay manifest for selected public APIs",
    )
}

// ---------------------------------------------------------------------------
// Values by name
// ---------------------------------------------------------------------------
/// The names of some members.
pub open spec fn names_of(members: Seq<(Seq<char>, JsonModel)>) -> Seq<Seq<char>> {
    members.map_values(|m: (Seq<char>, JsonModel)| m.0)
}

/// The last value under a name.
pub open spec fn last_value(members: Seq<(Seq<char>, JsonModel)>, name: Seq<char>) -> JsonModel {
    at(JsonModel::Object(members), name)
}

/// The members in the order of their names, each name once, with its last value.
pub open spec fn by_name(members: Seq<(Seq<char>, JsonModel)>) -> Seq<(Seq<char>, JsonModel)> {
    sorted_set::<ByText>(names_of(members)).map_values(
        |name: Seq<char>| (name, last_value(members, name)),
    )
}

/// An object of the members in the order of their names, each name once, with its
/// last value.
pub fn object_by_name(members: Members) -> (r: Json)
    ensures
        r.deep_view() == JsonModel::Object(by_name(members.model())),
{
    let ghost mm = members.model();
    let whole = members.finish();
    let names = to_sorted_set::<ByText>(&whole.names());
    let ghost all = names.deep_view();
    let mut out = Members::new();
    let mut i: usize = 0;
    while i < names.len()
        invariant
            i <= names@.len(),
            all == names.deep_view(),
            whole.deep_view() == JsonModel::Object(mm),
            out.model().len() == i,
            forall|k: int|
                0 <= k < i ==> #[trigger] out.model()[k] == (all[k], last_value(mm, all[k])),
        decreases names@.len() - i,
    {
        assert(all[i as int] == names@[i as int]@);
        let value = match whole.get(names[i].as_str()) {
            Some(v) => clone_json(v),
            None => Json::Null,
        };
        out.put(names[i].as_str(), value);
        i = i + 1;
    }
    assert(out.model() =~= by_name(mm));
    out.finish()
}

// ---------------------------------------------------------------------------
// The API baseline
// ---------------------------------------------------------------------------
/// The signatures of functions, by id.
pub open spec fn signatures_of(targets: Seq<VerificationTargetModel>) -> Seq<
    (Seq<char>, JsonModel),
>
    decreases targets.len(),
{
    if targets.len() == 0 {
        Seq::empty()
    } else if replayable(targets.last()) {
        signatures_of(targets.drop_last()).push(
            (targets.last().id, JsonModel::Text(targets.last().signature->0)),
        )
    } else {
        signatures_of(targets.drop_last())
    }
}

fn collect_signatures(targets: &Vec<VerificationTarget>) -> (r: Members)
    ensures
        r.model() == signatures_of(targets.deep_view()),
{
    let ghost all = targets.deep_view();
    let mut out = Members::new();
    let mut i: usize = 0;
    assert(out.model() =~= signatures_of(all.take(0)));
    while i < targets.len()
        invariant
            i <= targets@.len(),
            all == targets.deep_view(),
            out.model() == signatures_of(all.take(i as int)),
        decreases targets@.len() - i,
    {
        proof {
            lemma_take_next(all, i as int);
        }
        if targets[i].kind == TargetKind::Function {
            if let Some(signature) = &targets[i].signature {
                out.put(targets[i].id.as_str(), text(signature.as_str()));
            }
        }
        i = i + 1;
    }
    proof {
        lemma_take_all(all);
    }
    out
}

/// Whether a document is an object of texts.
pub open spec fn is_text_map(value: JsonModel) -> bool {
    value matches JsonModel::Object(members) && forall|i: int|
        0 <= i < members.len() ==> (#[trigger] members[i]).1 is Text
}

/// The signatures that were known before: those of the baseline, where it is an
/// object of texts.
pub open spec fn known_signatures(baseline: Option<JsonModel>) -> JsonModel {
    match baseline {
        Some(value) => if is_text_map(value) {
            value
        } else {
            JsonModel::Null
        },
        None => JsonModel::Null,
    }
}

/// Whether a document is an object of texts.
pub fn check_text_map(value: &Json) -> (r: bool)
    ensures
        r == is_text_map(value.deep_view()),
{
    match value {
        Json::Object(members) => {
            proof {
                lemma_object_model(*members);
            }
            let ghost mm = value.deep_view()->Object_0;
            let mut i: usize = 0;
            while i < members.len()
                invariant
                    i <= members@.len(),
                    mm.len() == members@.len(),
                    value.deep_view() == JsonModel::Object(mm),
                    forall|k: int|
                        0 <= k < members@.len() ==> #[trigger] mm[k] == (
                            members@[k].0@,
                            members@[k].1.deep_view(),
                        ),
                    forall|k: int| 0 <= k < i ==> (#[trigger] mm[k]).1 is Text,
                decreases members@.len() - i,
            {
                if members[i].1.as_str().is_none() {
                    assert(!(mm[i as int].1 is Text));
                    return false;
                }
                i = i + 1;
            }
            true
        },
        _ => false,
    }
}

/// The finding on a function whose signature changed.
pub open spec fn signature_failure(
    language: Seq<char>,
    id: Seq<char>,
    old_signature: Seq<char>,
    new_signature: Seq<char>,
) -> FailureModel {
    FailureModel {
        id: None,
        message: "public API signature changed for `"@ + id + "`"@,
        severity: FailureSeverity::Error,
        target_id: Some(id),
        artifact_id: Some(language + "-api-baseline"@),
        command: "differential-api-baseline"@,
        stdout_excerpt: "old: "@ + old_signature + "\nnew: "@ + new_signature,
        stderr_excerpt: Seq::empty(),
        repro: Some(
            ReproCaseModel {
                command: "review public API compatibility or accept the new baseline"@,
                input: None,
                path: Some(".veritas/baselines/"@ + language + "_api.json"@),
            },
        ),
    }
}

fn changed_signature(
    language: &str,
    id: &str,
    old_signature: &str,
    new_signature: &str,
) -> (r: Failure)
    ensures
        r.deep_view() == signature_failure(language@, id@, old_signature@, new_signature@),
{
    let stderr_excerpt = String::new();
    assert(stderr_excerpt@ =~= Seq::<char>::empty());
    Failure {
        id: None,
        message: cat3("public API signature changed for `", id, "`"),
        severity: FailureSeverity::Error,
        target_id: Some(owned(id)),
        artifact_id: Some(cat2(language, "-api-baseline")),
        command: owned("differential-api-baseline"),
        stdout_excerpt: cat4("old: ", old_signature, "\nnew: ", new_signature),
        stderr_excerpt,
        repro: Some(
            ReproCase {
                command: owned("review public API compatibility or accept the new baseline"),
                input: None,
                path: Some(cat3(".veritas/baselines/", language, "_api.json")),
            },
        ),
    }
}

/// The findings on functions whose signature was known before and has changed.
pub open spec fn signature_failures(
    language: Seq<char>,
    known: JsonModel,
    current: Seq<(Seq<char>, JsonModel)>,
) -> Seq<FailureModel>
    decreases current.len(),
{
    if current.len() == 0 {
        Seq::empty()
    } else {
        let before = signature_failures(language, known, current.drop_last());
        let id = current.last().0;
        match (member(known, id), current.last().1) {
            (Some(JsonModel::Text(old_signature)), JsonModel::Text(signature)) => if old_signature
                != signature {
                before.push(signature_failure(language, id, old_signature, signature))
            } else {
                before
            },
            _ => before,
        }
    }
}

fn compare_signatures(language: &str, known: &Json, current: &Json) -> (r: Vec<Failure>)
    requires
        current is Object,
    ensures
        r.deep_view() == signature_failures(
            language@,
            known.deep_view(),
            current.deep_view()->Object_0,
        ),
{
    let mut out: Vec<Failure> = Vec::new();
    if let Json::Object(members) = current {
        proof {
            lemma_object_model(*members);
        }
        let ghost all = current.deep_view()->Object_0;
        let mut i: usize = 0;
        assert(out.deep_view() =~= signature_failures(language@, known.deep_view(), all.take(0)));
        while i < members.len()
            invariant
                i <= members@.len(),
                all.len() == members@.len(),
                forall|k: int|
                    0 <= k < members@.len() ==> #[trigger] all[k] == (
                        members@[k].0@,
                        members@[k].1.deep_view(),
                    ),
                out.deep_view() == signature_failures(
                    language@,
                    known.deep_view(),
                    all.take(i as int),
                ),
            decreases members@.len() - i,
        {
            proof {
                lemma_take_next(all, i as int);
            }
            if let Some(old_value) = known.get(members[i].0.as_str()) {
                match (old_value.as_str(), members[i].1.as_str()) {
                    (Some(old_signature), Some(signature)) => {
                        if !same(old_signature.as_str(), signature.as_str()) {
                            push_failure(
                                &mut out,
                                changed_signature(
                                    language,
                                    members[i].0.as_str(),
                                    old_signature.as_str(),
                                    signature.as_str(),
                                ),
                            );
                        }
                    },
                    _ => {},
                }
            }
            i = i + 1;
        }
        proof {
            lemma_take_all(all);
        }
    }
    out
}

/// The API baseline of some targets.
pub open spec fn baseline_artifact(
    language: Seq<char>,
    targets: Seq<VerificationTargetModel>,
) -> GeneratedArtifactModel {
    planned(
        language + "-api-baseline"@,
        language,
        ArtifactKind::DifferentialBaseline,
        language + ":project"@,
        ".veritas/baselines/"@ + language + "_api.json"@,
        formatted_json(JsonModel::Object(by_name(signatures_of(targets)))),
        "Public API signature baseline for differential verification"@,
    )
}

/// Compares the signatures of targets with a baseline document: the new baseline,
/// and a finding for each signature that was known and has changed.
pub fn compare_api_baseline(
    language: &str,
    targets: &Vec<VerificationTarget>,
    baseline: &Option<Json>,
) -> (r: (GeneratedArtifact, Vec<Failure>))
    ensures
        r.0.deep_view() == baseline_artifact(language@, targets.deep_view()),
        r.1.deep_view() == signature_failures(
            language@,
            known_signatures(baseline.deep_view()),
            by_name(signatures_of(targets.deep_view())),
        ),
{
    let current = object_by_name(collect_signatures(targets));
    let failures = match baseline {
        Some(value) => {
            if check_text_map(value) {
                compare_signatures(language, value, &current)
            } else {
                compare_signatures(language, &Json::Null, &current)
            }
        },
        None => compare_signatures(language, &Json::Null, &current),
    };
    let artifact = plan_artifact(
        cat2(language, "-api-baseline"),
        language,
        ArtifactKind::DifferentialBaseline,
        cat2(language, ":project"),
        cat3(".veritas/baselines/", language, "_api.json"),
        formatted(&current),
        "Public API signature baseline for differential verification",
    );
    (artifact, failures)
}

/// The document of a text that may not be there.
pub open spec fn document_in(contents: Option<Seq<char>>) -> Option<JsonModel> {
    match contents {
        Some(t) => parsed_json(t),
        None => None,
    }
}

/// Reads the document of a text that may not be there.
pub fn read_document(contents: &Option<String>) -> (r: Option<Json>)
    ensures
        r.deep_view() == document_in(contents.deep_view()),
{
    match contents {
        Some(t) => parse(t.as_str()),
        None => None,
    }
}

/// The record of a text that may not be there.
pub open spec fn record_in(contents: Option<Seq<char>>) -> Option<JsonModel> {
    match contents {
        Some(t) => exact_json(t),
        None => None,
    }
}

/// Reads the record of a text that may not be there.
pub fn read_record(contents: &Option<String>) -> (r: Option<Json>)
    ensures
        r.deep_view() == record_in(contents.deep_view()),
{
    match contents {
        Some(t) => parse_exact(t.as_str()),
        None => None,
    }
}

/// Compares the signatures of targets with the baseline file, where there is one.
pub fn api_baseline_artifact(
    language: &str,
    targets: &Vec<VerificationTarget>,
    baseline: &Option<String>,
) -> (r: (GeneratedArtifact, Vec<Failure>))
    ensures
        r.0.deep_view() == baseline_artifact(language@, targets.deep_view()),
        r.1.deep_view() == signature_failures(
            language@,
            known_signatures(record_in(baseline.deep_view())),
            by_name(signatures_of(targets.deep_view())),
        ),
{
    compare_api_baseline(language, targets, &read_record(baseline))
}

/// Without a baseline nothing has changed.
pub proof fn law_first_baseline_finds_nothing(
    language: Seq<char>,
    current: Seq<(Seq<char>, JsonModel)>,
)
    ensures
        signature_failures(language, known_signatures(None), current).len() == 0,
    decreases current.len(),
{
    if current.len() > 0 {
        law_first_baseline_finds_nothing(language, current.drop_last());
    }
}

/// Signatures compared with themselves have not changed.
pub proof fn law_unchanged_signatures_find_nothing(
    language: Seq<char>,
    known: Seq<(Seq<char>, JsonModel)>,
    current: Seq<(Seq<char>, JsonModel)>,
)
    requires
        forall|i: int|
            0 <= i < current.len() ==> last_value(known, (#[trigger] current[i]).0) == current[i].1,
    ensures
        signature_failures(language, JsonModel::Object(known), current).len() == 0,
    decreases current.len(),
{
    if current.len() > 0 {
        let before = current.drop_last();
        assert forall|i: int| 0 <= i < before.len() implies last_value(
            known,
            (#[trigger] before[i]).0,
        ) == before[i].1 by {
            assert(before[i] == current[i]);
        }
        law_unchanged_signatures_find_nothing(language, known, before);
        assert(last_value(known, current[current.len() - 1].0) == current.last().1);
    }
}

} // verus!
