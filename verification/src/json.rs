//! JSON documents: the values that are read from text and printed to it by
//! `serde_json`.
use vstd::prelude::*;

use crate::number::{decimal, parsed, print_i64, print_u128, print_u64, read_u128, read_u64, signed_decimal};
use crate::seqs::{lemma_take_all, lemma_take_next};
use crate::text::{chars_of, owned, same, text_between};
use serde_json::ser::{Formatter, PrettyFormatter};
use serde_json::Value;

verus! {

/// A JSON value. A number is held as its text. The members of an object keep
/// their order.
#[derive(Debug)]
pub enum Json {
    Null,
    Bool(bool),
    Number(String),
    Text(String),
    Array(Vec<Json>),
    Object(Vec<(String, Json)>),
}

/// The mathematical value of a `Json`.
pub enum JsonModel {
    Null,
    Bool(bool),
    Number(Seq<char>),
    Text(Seq<char>),
    Array(Seq<JsonModel>),
    Object(Seq<(Seq<char>, JsonModel)>),
}

/// The mathematical value of a JSON value.
pub open spec fn json_model(value: Json) -> JsonModel
    decreases value,
{
    match value {
        Json::Null => JsonModel::Null,
        Json::Bool(b) => JsonModel::Bool(b),
        Json::Number(s) => JsonModel::Number(s@),
        Json::Text(s) => JsonModel::Text(s@),
        Json::Array(items) => JsonModel::Array(
            Seq::new(
                items@.len(),
                |i: int|
                    if 0 <= i < items@.len() {
                        json_model(items@[i])
                    } else {
                        JsonModel::Null
                    },
            ),
        ),
        Json::Object(members) => JsonModel::Object(
            Seq::new(
                members@.len(),
                |i: int|
                    if 0 <= i < members@.len() {
                        (members@[i].0@, json_model(members@[i].1))
                    } else {
                        (Seq::empty(), JsonModel::Null)
                    },
            ),
        ),
    }
}

impl DeepView for Json {
    type V = JsonModel;

    open spec fn deep_view(&self) -> JsonModel {
        json_model(*self)
    }
}

/// The value of an array is the sequence of the values of its items.
pub proof fn lemma_array_model(items: Vec<Json>)
    ensures
        json_model(Json::Array(items)) == JsonModel::Array(
            Seq::new(items@.len(), |i: int| items@[i].deep_view()),
        ),
{
    reveal_with_fuel(json_model, 2);
    assert(json_model(Json::Array(items))->Array_0 =~= Seq::new(
        items@.len(),
        |i: int| items@[i].deep_view(),
    ));
}

/// The value of an object is the sequence of its names and values.
pub proof fn lemma_object_model(members: Vec<(String, Json)>)
    ensures
        json_model(Json::Object(members)) == JsonModel::Object(
            Seq::new(members@.len(), |i: int| (members@[i].0@, members@[i].1.deep_view())),
        ),
{
    reveal_with_fuel(json_model, 2);
    let r = json_model(Json::Object(members))->Object_0;
    let want = Seq::new(members@.len(), |i: int| (members@[i].0@, members@[i].1.deep_view()));
    assert forall|i: int| 0 <= i < want.len() implies r[i] == want[i] by {
        assert(r[i].1 == json_model(members@[i].1));
    }
    assert(r =~= want);
}

// ---------------------------------------------------------------------------
// serde_json
// ---------------------------------------------------------------------------
/// A value of `serde_json`.
#[verifier::external_type_specification]
#[verifier::external_body]
pub struct ExValue(Value);

/// What `serde_json::from_str` reads from a text; nothing where the text is no
/// JSON document.
pub uninterp spec fn parsed_json(text: Seq<char>) -> Option<JsonModel>;

/// What `serde_json::to_string_pretty` prints for a value.
pub uninterp spec fn pretty_json(value: JsonModel) -> Seq<char>;

/// What `serde_json::to_string` prints for a value.
pub uninterp spec fn compact_json(value: JsonModel) -> Seq<char>;

/// Whether a number is a whole number of 64 bits, with or without a sign, without leading
/// zeros.
pub open spec fn is_plain_number(text: Seq<char>) -> bool {
    exists|n: int| i64::MIN <= n <= u64::MAX && text == #[trigger] signed_decimal(n)
}

/// Whether no name is there twice.
pub open spec fn distinct_names(members: Seq<(Seq<char>, JsonModel)>) -> bool {
    forall|i: int, j: int|
        0 <= i < j < members.len() ==> (#[trigger] members[i]).0 != (#[trigger] members[j]).0
}

/// Whether a value is an ordinary one: its numbers are whole numbers of 64 bits, no object
/// has a name twice, and arrays and objects stand inside each other no deeper than `depth`.
pub open spec fn is_plain(value: JsonModel, depth: nat) -> bool
    decreases depth,
{
    match value {
        JsonModel::Null => true,
        JsonModel::Bool(_) => true,
        JsonModel::Number(text) => is_plain_number(text),
        JsonModel::Text(_) => true,
        JsonModel::Array(items) => depth > 0 && forall|i: int|
            0 <= i < items.len() ==> is_plain(#[trigger] items[i], (depth - 1) as nat),
        JsonModel::Object(members) => depth > 0 && distinct_names(members) && forall|i: int|
            0 <= i < members.len() ==> is_plain((#[trigger] members[i]).1, (depth - 1) as nat),
    }
}

/// Whether no object has a name twice, and arrays and objects stand inside each other no
/// deeper than `depth`.
pub open spec fn is_named(value: JsonModel, depth: nat) -> bool
    decreases depth,
{
    match value {
        JsonModel::Array(items) => depth > 0 && forall|i: int|
            0 <= i < items.len() ==> is_named(#[trigger] items[i], (depth - 1) as nat),
        JsonModel::Object(members) => depth > 0 && distinct_names(members) && forall|i: int|
            0 <= i < members.len() ==> is_named((#[trigger] members[i]).1, (depth - 1) as nat),
        _ => true,
    }
}

/// Whether a value has the texts of another, at the same places, under the same names. It may
/// have other numbers.
pub open spec fn keeps_texts(value: JsonModel, other: JsonModel, depth: nat) -> bool
    decreases depth,
{
    match value {
        JsonModel::Text(_) => other == value,
        JsonModel::Array(items) => depth > 0 && (other matches JsonModel::Array(others)
            && others.len() == items.len() && forall|i: int|
            0 <= i < items.len() ==> keeps_texts(
                #[trigger] items[i],
                others[i],
                (depth - 1) as nat,
            )),
        JsonModel::Object(members) => depth > 0 && (other matches JsonModel::Object(others)
            && others.len() == members.len() && forall|i: int|
            0 <= i < members.len() ==> (#[trigger] members[i]).0 == others[i].0 && keeps_texts(
                members[i].1,
                others[i].1,
                (depth - 1) as nat,
            )),
        _ => true,
    }
}

/// The value of `serde_json` that stands for a `Json`, variant by variant.
#[verifier::external_body]
fn to_value(value: &Json) -> (r: Value) {
    match value {
        Json::Null => Value::Null,
        Json::Bool(flag) => Value::Bool(*flag),
        Json::Number(text) => serde_json::from_str(text).unwrap_or(Value::Null),
        Json::Text(text) => Value::String(text.clone()),
        Json::Array(items) => Value::Array(items.iter().map(to_value).collect()),
        Json::Object(members) => Value::Object(
            members.iter().map(|member| (member.0.clone(), to_value(&member.1))).collect(),
        ),
    }
}

/// The `Json` that stands for a value of `serde_json`, variant by variant.
#[verifier::external_body]
fn from_value(value: Value) -> (r: Json) {
    match value {
        Value::Null => Json::Null,
        Value::Bool(flag) => Json::Bool(flag),
        Value::Number(number) => Json::Number(number.to_string()),
        Value::String(text) => Json::Text(text),
        Value::Array(items) => Json::Array(items.into_iter().map(from_value).collect()),
        Value::Object(members) => Json::Object(
            members.into_iter().map(|member| (member.0, from_value(member.1))).collect(),
        ),
    }
}

/// `serde_json::from_str` reads a JSON document. The result depends on the
/// text alone.
#[verifier::external_body]
pub(crate) fn parse(text: &str) -> (r: Option<Json>)
    ensures
        r.deep_view() == parsed_json(text@),
{
    serde_json::from_str::<Value>(text).ok().map(from_value)
}

/// `serde_json::to_string_pretty` prints a value over several lines. The
/// result depends on the value alone. `serde_json::from_str` reads an ordinary
/// value back as it was. Of any other it keeps the texts and their places, where
/// it reads it at all: a number with a fraction may come back as one next to it.
#[verifier::external_body]
pub(crate) fn pretty(value: &Json) -> (r: String)
    ensures
        r@ == pretty_json(value.deep_view()),
        is_plain(value.deep_view(), 100) ==> parsed_json(r@) == Some(value.deep_view())
            && exact_json(r@) == Some(value.deep_view()),
        is_named(value.deep_view(), 100) ==> (parsed_json(r@) matches Some(read) ==> keeps_texts(
            value.deep_view(),
            read,
            100,
        )),
{
    serde_json::to_string_pretty(&to_value(value)).unwrap_or_default()
}

/// `serde_json::to_string` prints a value on one line. The result depends on
/// the value alone.
#[verifier::external_body]
pub(crate) fn compact(value: &Json) -> (r: String)
    ensures
        r@ == compact_json(value.deep_view()),
{
    serde_json::to_string(&to_value(value)).unwrap_or_default()
}

// ---------------------------------------------------------------------------
// Records
// ---------------------------------------------------------------------------
// A text that holds records is not read as a value of `serde_json`, which keeps one member of
// a name and no number of more than 64 bits. `serde_json` says where each value in the text
// ends and what each string holds; the members of an object are taken in their order, with
// those whose name is there again, and a number is held as it is written.
/// The first JSON value of a text, with the space before it, and what is behind it, as
/// `serde_json::StreamDeserializer` tells them apart; nothing where the text starts with no
/// value.
pub uninterp spec fn first_value(text: Seq<char>) -> Option<(Seq<char>, Seq<char>)>;

/// What `serde_json::from_str` reads as a string from a text; nothing where it is none.
pub uninterp spec fn string_in(text: Seq<char>) -> Option<Seq<char>>;

/// What the formatter of `serde_json::to_string_pretty` prints for a value, its numbers as
/// they are held.
pub uninterp spec fn formatted_json(value: JsonModel) -> Seq<char>;

/// The two parts of a text.
pub open spec fn parts_view(parts: Option<(&str, &str)>) -> Option<(Seq<char>, Seq<char>)> {
    match parts {
        Some(cut) => Some((cut.0@, cut.1@)),
        None => None,
    }
}

/// `serde_json::StreamDeserializer` reads JSON values one after the other, and says where
/// the one that it read ends. The result depends on the text alone, and the two parts are the
/// text.
#[verifier::external_body]
fn cut_value<'a>(text: &'a str) -> (r: Option<(&'a str, &'a str)>)
    ensures
        parts_view(r) == first_value(text@),
        r matches Some(cut) ==> cut.0@ + cut.1@ == text@ && cut.0@.len() > 0,
{
    let mut values = serde_json::Deserializer::from_str(text).into_iter::<serde::de::IgnoredAny>();
    match values.next() {
        Some(Ok(_)) => Some(text.split_at(values.byte_offset())),
        _ => None,
    }
}

/// `serde_json::from_str` reads a string. The result depends on the text alone.
#[verifier::external_body]
fn read_string(text: &str) -> (r: Option<String>)
    ensures
        r.deep_view() == string_in(text@),
{
    serde_json::from_str::<String>(text).ok()
}

/// A text without the space that it starts with.
pub open spec fn past_space(text: Seq<char>) -> Seq<char>
    decreases text.len(),
{
    if text.len() > 0 && (text[0] == ' ' || text[0] == '\n' || text[0] == '\t' || text[0]
        == '\r') {
        past_space(text.skip(1))
    } else {
        text
    }
}

/// `str::trim_start_matches` takes the characters that it is given from the start of a text.
#[verifier::external_body]
fn trim_space<'a>(text: &'a str) -> (r: &'a str)
    ensures
        r@ == past_space(text@),
{
    text.trim_start_matches([' ', '\n', '\t', '\r'])
}

/// Whether a text starts with a character.
pub open spec fn opens_with(text: Seq<char>, mark: char) -> bool {
    text.len() > 0 && text[0] == mark
}

/// `str::strip_prefix` gives what is behind a character that a text starts with.
#[verifier::external_body]
fn behind<'a>(text: &'a str, mark: char) -> (r: Option<&'a str>)
    ensures
        r is Some == opens_with(text@, mark),
        r matches Some(rest) ==> rest@ == text@.skip(1),
{
    text.strip_prefix(mark)
}

/// The value that the text of one stands for. Where a string or a name is none of Unicode,
/// and where arrays and objects stand inside each other deeper than `depth`, the text itself
/// is held, as that of a number is.
pub open spec fn exact_value(text: Seq<char>, depth: nat) -> Option<JsonModel>
    decreases depth, text.len(), 2nat,
{
    let t = past_space(text);
    if depth > 0 && opens_with(t, '{') {
        match exact_members(t.skip(1), (depth - 1) as nat) {
            Some(members) => Some(JsonModel::Object(members)),
            None => Some(JsonModel::Number(t)),
        }
    } else if depth > 0 && opens_with(t, '[') {
        match exact_items(t.skip(1), (depth - 1) as nat) {
            Some(items) => Some(JsonModel::Array(items)),
            None => Some(JsonModel::Number(t)),
        }
    } else if string_in(t) is Some {
        Some(JsonModel::Text(string_in(t)->0))
    } else if t == "null"@ {
        Some(JsonModel::Null)
    } else if t == "true"@ {
        Some(JsonModel::Bool(true))
    } else if t == "false"@ {
        Some(JsonModel::Bool(false))
    } else {
        Some(JsonModel::Number(t))
    }
}

/// The members of an object, from the text behind its brace or behind a comma.
pub open spec fn exact_members(text: Seq<char>, depth: nat) -> Option<
    Seq<(Seq<char>, JsonModel)>,
>
    decreases depth, text.len(), 3nat,
{
    if opens_with(past_space(text), '}') {
        Some(Seq::empty())
    } else {
        match first_member(text, depth) {
            Some(cut) => if opens_with(cut.1, ',') && cut.1.len() < text.len() {
                match exact_members(cut.1.skip(1), depth) {
                    Some(rest) => Some(seq![cut.0] + rest),
                    None => None,
                }
            } else if opens_with(cut.1, '}') {
                Some(seq![cut.0])
            } else {
                None
            },
            None => None,
        }
    }
}

/// The first member of a text of members, and what is behind it.
pub open spec fn first_member(text: Seq<char>, depth: nat) -> Option<
    ((Seq<char>, JsonModel), Seq<char>),
>
    decreases depth, text.len(), 1nat,
{
    match first_value(text) {
        Some(name) => {
            let rest = past_space(name.1);
            if string_in(past_space(name.0)) is Some && opens_with(rest, ':') {
                match first_value(rest.skip(1)) {
                    Some(value) => if value.0.len() < text.len() {
                        match exact_value(value.0, depth) {
                            Some(known) => Some(
                                (
                                    (string_in(past_space(name.0))->0, known),
                                    past_space(value.1),
                                ),
                            ),
                            None => None,
                        }
                    } else {
                        None
                    },
                    None => None,
                }
            } else {
                None
            }
        },
        None => None,
    }
}

/// The items of an array, from the text behind its bracket or behind a comma.
pub open spec fn exact_items(text: Seq<char>, depth: nat) -> Option<Seq<JsonModel>>
    decreases depth, text.len(), 3nat,
{
    if opens_with(past_space(text), ']') {
        Some(Seq::empty())
    } else {
        match first_value(text) {
            Some(cut) => if cut.0.len() <= text.len() && cut.1.len() < text.len() {
                let rest = past_space(cut.1);
                match exact_value(cut.0, depth) {
                    Some(known) => if opens_with(rest, ',') && rest.len() < text.len() {
                        match exact_items(rest.skip(1), depth) {
                            Some(more) => Some(seq![known] + more),
                            None => None,
                        }
                    } else if opens_with(rest, ']') {
                        Some(seq![known])
                    } else {
                        None
                    },
                    None => None,
                }
            } else {
                None
            },
            None => None,
        }
    }
}

/// The value that a text of records holds; nothing where the text is no JSON document.
pub open spec fn exact_json(text: Seq<char>) -> Option<JsonModel> {
    match first_value(text) {
        Some(cut) => if past_space(cut.1).len() == 0 {
            exact_value(cut.0, 100)
        } else {
            None
        },
        None => None,
    }
}

proof fn lemma_past_space(text: Seq<char>)
    ensures
        past_space(text).len() <= text.len(),
    decreases text.len(),
{
    if text.len() > 0 {
        lemma_past_space(text.skip(1));
    }
}

fn read_exact_value(text: &str, depth: usize) -> (r: Option<Json>)
    ensures
        r.deep_view() == exact_value(text@, depth as nat),
    decreases depth, text@.len(), 2nat,
{
    proof {
        lemma_past_space(text@);
    }
    let t = trim_space(text);
    if depth > 0 {
        if let Some(rest) = behind(t, '{') {
            return match read_exact_members(rest, depth - 1) {
                Some(members) => {
                    proof {
                        lemma_object_model(members);
                    }
                    Some(Json::Object(members))
                },
                None => Some(Json::Number(owned(t))),
            };
        }
        if let Some(rest) = behind(t, '[') {
            return match read_exact_items(rest, depth - 1) {
                Some(items) => {
                    proof {
                        lemma_array_model(items);
                        assert(items.deep_view() =~= Seq::new(
                            items@.len(),
                            |i: int| items@[i].deep_view(),
                        ));
                    }
                    Some(Json::Array(items))
                },
                None => Some(Json::Number(owned(t))),
            };
        }
    }
    if let Some(known) = read_string(t) {
        return Some(Json::Text(known));
    }
    if same(t, "null") {
        Some(Json::Null)
    } else if same(t, "true") {
        Some(Json::Bool(true))
    } else if same(t, "false") {
        Some(Json::Bool(false))
    } else {
        Some(Json::Number(owned(t)))
    }
}

/// The members of a list of names and values.
pub open spec fn members_view(members: Vec<(String, Json)>) -> Seq<(Seq<char>, JsonModel)> {
    Seq::new(members@.len(), |i: int| (members@[i].0@, members@[i].1.deep_view()))
}

fn read_exact_members(text: &str, depth: usize) -> (r: Option<Vec<(String, Json)>>)
    ensures
        match r {
            Some(members) => exact_members(text@, depth as nat) == Some(members_view(members)),
            None => exact_members(text@, depth as nat) is None,
        },
    decreases depth, text@.len(), 3nat,
{
    let mut out: Vec<(String, Json)> = Vec::new();
    let mut rest = text;
    assert(members_view(out) =~= Seq::<(Seq<char>, JsonModel)>::empty());
    loop
        invariant
            rest@.len() <= text@.len(),
            match exact_members(rest@, depth as nat) {
                Some(more) => exact_members(text@, depth as nat) == Some(members_view(out) + more),
                None => exact_members(text@, depth as nat) is None,
            },
        decreases rest@.len(),
    {
        let ghost before = members_view(out);
        if behind(trim_space(rest), '}').is_some() {
            assert(before + Seq::<(Seq<char>, JsonModel)>::empty() =~= before);
            return Some(out);
        }
        let (member, next) = match read_first_member(rest, depth) {
            Some(cut) => cut,
            None => return None,
        };
        let ghost known = (member.0@, member.1.deep_view());
        out.push(member);
        assert(members_view(out) =~= before.push(known));
        if let Some(more) = behind(next, ',') {
            proof {
                if let Some(tail) = exact_members(more@, depth as nat) {
                    assert(before + (seq![known] + tail) =~= before.push(known) + tail);
                }
            }
            rest = more;
        } else if behind(next, '}').is_some() {
            assert(before + seq![known] =~= before.push(known));
            return Some(out);
        } else {
            return None;
        }
    }
}

fn read_first_member<'a>(text: &'a str, depth: usize) -> (r: Option<((String, Json), &'a str)>)
    ensures
        match r {
            Some(cut) => first_member(text@, depth as nat) == Some(
                ((cut.0.0@, cut.0.1.deep_view()), cut.1@),
            ) && cut.1@.len() < text@.len(),
            None => first_member(text@, depth as nat) is None,
        },
    decreases depth, text@.len(), 1nat,
{
    let (name, behind_name) = match cut_value(text) {
        Some(cut) => cut,
        None => return None,
    };
    proof {
        lemma_past_space(behind_name@);
        assert((name@ + behind_name@).len() == name@.len() + behind_name@.len());
    }
    let known = match read_string(trim_space(name)) {
        Some(known) => known,
        None => return None,
    };
    let text_of_value = match behind(trim_space(behind_name), ':') {
        Some(rest) => rest,
        None => return None,
    };
    let (value, rest) = match cut_value(text_of_value) {
        Some(cut) => cut,
        None => return None,
    };
    proof {
        lemma_past_space(rest@);
        assert((value@ + rest@).len() == value@.len() + rest@.len());
    }
    match read_exact_value(value, depth) {
        Some(found) => Some(((known, found), trim_space(rest))),
        None => None,
    }
}

fn read_exact_items(text: &str, depth: usize) -> (r: Option<Vec<Json>>)
    ensures
        r.deep_view() == exact_items(text@, depth as nat),
    decreases depth, text@.len(), 3nat,
{
    let mut out: Vec<Json> = Vec::new();
    let mut rest = text;
    assert(out.deep_view() =~= Seq::<JsonModel>::empty());
    loop
        invariant
            rest@.len() <= text@.len(),
            match exact_items(rest@, depth as nat) {
                Some(more) => exact_items(text@, depth as nat) == Some(out.deep_view() + more),
                None => exact_items(text@, depth as nat) is None,
            },
        decreases rest@.len(),
    {
        let ghost before = out.deep_view();
        if behind(trim_space(rest), ']').is_some() {
            assert(before + Seq::<JsonModel>::empty() =~= before);
            return Some(out);
        }
        let (value, behind_value) = match cut_value(rest) {
            Some(cut) => cut,
            None => return None,
        };
        let known = match read_exact_value(value, depth) {
            Some(known) => known,
            None => return None,
        };
        proof {
            lemma_past_space(behind_value@);
        }
        let ghost item = known.deep_view();
        out.push(known);
        assert(out.deep_view() =~= before.push(item));
        let next = trim_space(behind_value);
        if let Some(more) = behind(next, ',') {
            proof {
                if let Some(tail) = exact_items(more@, depth as nat) {
                    assert(before + (seq![item] + tail) =~= before.push(item) + tail);
                }
            }
            rest = more;
        } else if behind(next, ']').is_some() {
            assert(before + seq![item] =~= before.push(item));
            return Some(out);
        } else {
            return None;
        }
    }
}

/// Reads a text of records; nothing where the text is no JSON document.
pub fn parse_exact(text: &str) -> (r: Option<Json>)
    ensures
        r.deep_view() == exact_json(text@),
{
    match cut_value(text) {
        Some((value, rest)) => if trim_space(rest).is_empty() {
            read_exact_value(value, 100)
        } else {
            None
        },
        None => None,
    }
}

/// The values of records that stand one after the other in a text; nothing where the text
/// holds anything else.
pub open spec fn exact_stream(text: Seq<char>) -> Option<Seq<JsonModel>>
    decreases text.len(),
{
    if past_space(text).len() == 0 {
        Some(Seq::empty())
    } else {
        match first_value(text) {
            Some(cut) => if cut.1.len() < text.len() {
                match (exact_value(cut.0, 100), exact_stream(cut.1)) {
                    (Some(value), Some(rest)) => Some(seq![value] + rest),
                    _ => None,
                }
            } else {
                None
            },
            None => None,
        }
    }
}

/// Reads records that stand one after the other in a text.
pub fn parse_exact_stream(text: &str) -> (r: Option<Vec<Json>>)
    ensures
        r.deep_view() == exact_stream(text@),
{
    let mut out: Vec<Json> = Vec::new();
    let mut rest = text;
    assert(out.deep_view() =~= Seq::<JsonModel>::empty());
    while !trim_space(rest).is_empty()
        invariant
            match exact_stream(rest@) {
                Some(more) => exact_stream(text@) == Some(out.deep_view() + more),
                None => exact_stream(text@) is None,
            },
        decreases rest@.len(),
    {
        let ghost before = out.deep_view();
        let (value, more) = match cut_value(rest) {
            Some(cut) => cut,
            None => return None,
        };
        let known = match read_exact_value(value, 100) {
            Some(known) => known,
            None => return None,
        };
        let ghost item = known.deep_view();
        out.push(known);
        assert(out.deep_view() =~= before.push(item));
        proof {
            if let Some(tail) = exact_stream(more@) {
                assert(before + (seq![item] + tail) =~= before.push(item) + tail);
            }
        }
        rest = more;
    }
    assert(out.deep_view() + Seq::<JsonModel>::empty() =~= out.deep_view());
    Some(out)
}

/// Whether the numbers of a value are whole, and arrays and objects stand inside each other
/// no deeper than `depth`.
pub open spec fn is_exact(value: JsonModel, depth: nat) -> bool
    decreases depth,
{
    match value {
        JsonModel::Null => true,
        JsonModel::Bool(_) => true,
        JsonModel::Number(text) => exists|n: int| text == #[trigger] signed_decimal(n),
        JsonModel::Text(_) => true,
        JsonModel::Array(items) => depth > 0 && forall|i: int|
            0 <= i < items.len() ==> is_exact(#[trigger] items[i], (depth - 1) as nat),
        JsonModel::Object(members) => depth > 0 && forall|i: int|
            0 <= i < members.len() ==> is_exact((#[trigger] members[i]).1, (depth - 1) as nat),
    }
}

/// An ordinary value has whole numbers.
pub proof fn lemma_plain_values_are_exact(depth: nat)
    ensures
        forall|value: JsonModel| is_plain(value, depth) ==> #[trigger] is_exact(value, depth),
    decreases depth,
{
    if depth > 0 {
        lemma_plain_values_are_exact((depth - 1) as nat);
    }
    assert forall|value: JsonModel| is_plain(value, depth) implies #[trigger] is_exact(
        value,
        depth,
    ) by {
        match value {
            JsonModel::Array(items) => {
                assert forall|i: int| 0 <= i < items.len() implies is_exact(
                    #[trigger] items[i],
                    (depth - 1) as nat,
                ) by {
                    assert(is_plain(items[i], (depth - 1) as nat));
                }
            },
            JsonModel::Object(members) => {
                assert forall|i: int| 0 <= i < members.len() implies is_exact(
                    (#[trigger] members[i]).1,
                    (depth - 1) as nat,
                ) by {
                    assert(is_plain(members[i].1, (depth - 1) as nat));
                }
            },
            _ => {},
        }
    }
}

/// The formatter of `serde_json::to_string_pretty`.
#[verifier::external_type_specification]
#[verifier::external_body]
pub struct ExPrettyFormatter<'a>(PrettyFormatter<'a>);

/// `serde_json::ser::PrettyFormatter` prints a value piece by piece, as it does for
/// `serde_json::to_string_pretty`.
#[verifier::external_body]
fn format_value(value: &Json, form: &mut PrettyFormatter, out: &mut Vec<u8>) -> (r: Option<()>) {
    match value {
        Json::Null => form.write_null(out).ok(),
        Json::Bool(flag) => form.write_bool(out, *flag).ok(),
        Json::Number(text) => form.write_number_str(out, text).ok(),
        Json::Text(text) => serde_json::to_writer(out, text).ok(),
        Json::Array(items) => format_items(items, form, out),
        Json::Object(members) => format_members(members, form, out),
    }
}

/// `serde_json::ser::PrettyFormatter` prints an array item by item.
#[verifier::external_body]
fn format_items(items: &Vec<Json>, form: &mut PrettyFormatter, out: &mut Vec<u8>) -> (r: Option<
    (),
>) {
    form.begin_array(out).ok()?;
    for (place, item) in items.iter().enumerate() {
        form.begin_array_value(out, place == 0).ok()?;
        format_value(item, form, out)?;
        form.end_array_value(out).ok()?;
    }
    form.end_array(out).ok()
}

/// `serde_json::ser::PrettyFormatter` prints an object member by member.
#[verifier::external_body]
fn format_members(
    members: &Vec<(String, Json)>,
    form: &mut PrettyFormatter,
    out: &mut Vec<u8>,
) -> (r: Option<()>) {
    form.begin_object(out).ok()?;
    for (place, member) in members.iter().enumerate() {
        form.begin_object_key(out, place == 0).ok()?;
        serde_json::to_writer(&mut *out, &member.0).ok()?;
        form.end_object_key(out).ok()?;
        form.begin_object_value(out).ok()?;
        format_value(&member.1, form, out)?;
        form.end_object_value(out).ok()?;
    }
    form.end_object(out).ok()
}

/// `serde_json::ser::PrettyFormatter` prints a value over several lines. The result depends
/// on the value alone. Where the numbers of the value are whole, its text is read back as
/// the value.
#[verifier::external_body]
pub(crate) fn formatted(value: &Json) -> (r: String)
    ensures
        r@ == formatted_json(value.deep_view()),
        is_exact(value.deep_view(), 100) ==> exact_json(r@) == Some(value.deep_view()),
{
    let mut out = Vec::new();
    let _ = format_value(value, &mut PrettyFormatter::new(), &mut out);
    String::from_utf8(out).unwrap_or_default()
}

// ---------------------------------------------------------------------------
// Building
// ---------------------------------------------------------------------------
/// The members of an object that is being built.
pub struct Members {
    pub list: Vec<(String, Json)>,
}

impl Members {
    /// What was put so far.
    pub open spec fn model(&self) -> Seq<(Seq<char>, JsonModel)> {
        Seq::new(self.list@.len(), |i: int| (self.list@[i].0@, self.list@[i].1.deep_view()))
    }

    /// Nothing so far.
    pub fn new() -> (r: Self)
        ensures
            r.model() == Seq::<(Seq<char>, JsonModel)>::empty(),
    {
        let r = Members { list: Vec::new() };
        assert(r.model() == Seq::<(Seq<char>, JsonModel)>::empty());
        r
    }

    /// Adds a value at the end.
    pub fn put(&mut self, name: &str, value: Json)
        ensures
            final(self).model() == old(self).model().push((name@, value.deep_view())),
    {
        let ghost before = self.model();
        self.list.push((name.to_owned(), value));
        assert(self.model() == before.push((name@, value.deep_view())));
    }

    /// The finished value.
    pub fn finish(self) -> (r: Json)
        ensures
            r.deep_view() == JsonModel::Object(self.model()),
    {
        proof {
            lemma_object_model(self.list);
        }
        Json::Object(self.list)
    }
}

/// The items of an array that is being built.
pub struct Items {
    pub list: Vec<Json>,
}

impl Items {
    /// What was put so far.
    pub open spec fn model(&self) -> Seq<JsonModel> {
        Seq::new(self.list@.len(), |i: int| self.list@[i].deep_view())
    }

    /// Nothing so far.
    pub fn new() -> (r: Self)
        ensures
            r.model() == Seq::<JsonModel>::empty(),
    {
        let r = Items { list: Vec::new() };
        assert(r.model() == Seq::<JsonModel>::empty());
        r
    }

    /// Adds a value at the end.
    pub fn put(&mut self, value: Json)
        ensures
            final(self).model() == old(self).model().push(value.deep_view()),
    {
        let ghost before = self.model();
        self.list.push(value);
        assert(self.model() == before.push(value.deep_view()));
    }

    /// The finished value.
    pub fn finish(self) -> (r: Json)
        ensures
            r.deep_view() == JsonModel::Array(self.model()),
    {
        proof {
            lemma_array_model(self.list);
        }
        Json::Array(self.list)
    }
}

/// A text value.
pub fn text(s: &str) -> (r: Json)
    ensures
        r.deep_view() == JsonModel::Text(s@),
{
    Json::Text(s.to_owned())
}

/// A number value.
pub fn number(n: u64) -> (r: Json)
    ensures
        r.deep_view() == JsonModel::Number(crate::number::decimal(n as int)),
{
    Json::Number(crate::number::print_u64(n))
}

/// A number value of up to 128 bits.
pub fn big_number(n: u128) -> (r: Json)
    ensures
        r.deep_view() == JsonModel::Number(crate::number::decimal(n as int)),
{
    Json::Number(crate::number::print_u128(n))
}

/// A number value that may be negative.
pub fn signed(n: i64) -> (r: Json)
    ensures
        r.deep_view() == JsonModel::Number(crate::number::signed_decimal(n as int)),
{
    Json::Number(crate::number::print_i64(n))
}

/// A text value, or null.
pub open spec fn text_or_null(s: Option<Seq<char>>) -> JsonModel {
    match s {
        Some(t) => JsonModel::Text(t),
        None => JsonModel::Null,
    }
}

/// A text value, or null.
pub fn optional_text(s: &Option<String>) -> (r: Json)
    ensures
        r.deep_view() == text_or_null(s.deep_view()),
{
    match s {
        Some(t) => text(t.as_str()),
        None => Json::Null,
    }
}

/// A number value, or null.
pub open spec fn number_or_null(n: Option<int>) -> JsonModel {
    match n {
        Some(v) => JsonModel::Number(crate::number::signed_decimal(v)),
        None => JsonModel::Null,
    }
}

/// A number value, or null.
pub fn optional_u8(n: Option<u8>) -> (r: Json)
    ensures
        r.deep_view() == number_or_null(
            match n {
                Some(v) => Some(v as int),
                None => None,
            },
        ),
{
    match n {
        Some(v) => signed(v as i64),
        None => Json::Null,
    }
}

/// A number value, or null.
pub fn optional_i16(n: Option<i16>) -> (r: Json)
    ensures
        r.deep_view() == number_or_null(
            match n {
                Some(v) => Some(v as int),
                None => None,
            },
        ),
{
    match n {
        Some(v) => signed(v as i64),
        None => Json::Null,
    }
}

/// A number value, or null.
pub fn optional_i32(n: Option<i32>) -> (r: Json)
    ensures
        r.deep_view() == number_or_null(
            match n {
                Some(v) => Some(v as int),
                None => None,
            },
        ),
{
    match n {
        Some(v) => signed(v as i64),
        None => Json::Null,
    }
}

/// A number value, or null.
pub fn optional_u64(n: Option<u64>) -> (r: Json)
    ensures
        r.deep_view() == number_or_null(
            match n {
                Some(v) => Some(v as int),
                None => None,
            },
        ),
{
    match n {
        Some(v) => number(v),
        None => Json::Null,
    }
}

/// An array of texts.
pub open spec fn texts_model(items: Seq<Seq<char>>) -> JsonModel {
    JsonModel::Array(items.map_values(|t: Seq<char>| JsonModel::Text(t)))
}

/// An array of texts.
pub fn texts(items: &Vec<String>) -> (r: Json)
    ensures
        r.deep_view() == texts_model(items.deep_view()),
{
    let mut out = Items::new();
    let ghost iv = items.deep_view();
    let mut i: usize = 0;
    assert(out.model() == iv.take(0).map_values(|t: Seq<char>| JsonModel::Text(t)));
    while i < items.len()
        invariant
            i <= items@.len(),
            iv == items.deep_view(),
            out.model() == iv.take(i as int).map_values(|t: Seq<char>| JsonModel::Text(t)),
        decreases items@.len() - i,
    {
        out.put(text(items[i].as_str()));
        assert(iv.take(i + 1) == iv.take(i as int).push(items@[i as int]@));
        assert(out.model() == iv.take(i + 1).map_values(|t: Seq<char>| JsonModel::Text(t)));
        i = i + 1;
    }
    assert(iv.take(iv.len() as int) == iv);
    out.finish()
}

// ---------------------------------------------------------------------------
// Reading
// ---------------------------------------------------------------------------
/// The value of the last member with this name among the first `n`.
pub open spec fn member_before(
    members: Seq<(Seq<char>, JsonModel)>,
    name: Seq<char>,
    n: int,
) -> Option<JsonModel>
    decreases n,
{
    if n <= 0 || n > members.len() {
        None
    } else if members[n - 1].0 == name {
        Some(members[n - 1].1)
    } else {
        member_before(members, name, n - 1)
    }
}

/// The member of an object with this name; nothing where the value is no
/// object or has no such member.
pub open spec fn member(value: JsonModel, name: Seq<char>) -> Option<JsonModel> {
    match value {
        JsonModel::Object(members) => member_before(members, name, members.len() as int),
        _ => None,
    }
}

/// How many of the first `n` members have this name.
pub open spec fn occurrences(
    members: Seq<(Seq<char>, JsonModel)>,
    name: Seq<char>,
    n: int,
) -> int
    decreases n,
{
    if n <= 0 || n > members.len() {
        0
    } else {
        occurrences(members, name, n - 1) + if members[n - 1].0 == name {
            1int
        } else {
            0int
        }
    }
}

/// Whether an object has more than one member with this name.
pub open spec fn repeated(value: JsonModel, name: Seq<char>) -> bool {
    value matches JsonModel::Object(members) && occurrences(
        members,
        name,
        members.len() as int,
    ) > 1
}

/// The field of a record with this name; nothing where the record has none, or more than
/// one.
pub open spec fn field(value: JsonModel, name: Seq<char>) -> Option<JsonModel> {
    if repeated(value, name) {
        None
    } else {
        member(value, name)
    }
}

/// The object that stands for a record: an array of as many items as the record has fields
/// holds the fields in their order.
pub open spec fn as_record(value: JsonModel, names: Seq<Seq<char>>) -> JsonModel {
    match value {
        JsonModel::Array(items) => if items.len() == names.len() {
            JsonModel::Object(Seq::new(items.len(), |i: int| (names[i], items[i])))
        } else {
            value
        },
        _ => value,
    }
}

/// Names the fields of a record that is written as an array; nothing where it is not.
pub fn named_fields(value: &Json, names: &Vec<&str>) -> (r: Option<Json>)
    ensures
        r matches Some(record) ==> record.deep_view() == as_record(
            value.deep_view(),
            names.deep_view(),
        ),
        r matches Some(record) ==> record.deep_view() is Object,
        r is None ==> as_record(value.deep_view(), names.deep_view()) == value.deep_view(),
{
    match value {
        Json::Array(items) => {
            proof {
                lemma_array_model(*items);
            }
            if items.len() != names.len() {
                return None;
            }
            let ghost all = items.deep_view();
            let ghost given = names.deep_view();
            let ghost whole = Seq::new(all.len(), |i: int| (given[i], all[i]));
            let mut fields = Members::new();
            let mut i: usize = 0;
            assert(fields.model() =~= whole.take(0));
            while i < items.len()
                invariant
                    i <= items@.len(),
                    items@.len() == names@.len(),
                    all == items.deep_view(),
                    given == names.deep_view(),
                    whole == Seq::new(all.len(), |i: int| (given[i], all[i])),
                    fields.model() == whole.take(i as int),
                decreases items@.len() - i,
            {
                proof {
                    lemma_take_next(whole, i as int);
                }
                fields.put(names[i], clone_json(&items[i]));
                i = i + 1;
            }
            proof {
                lemma_take_all(whole);
            }
            Some(fields.finish())
        },
        _ => None,
    }
}

proof fn lemma_names_occur_once(
    members: Seq<(Seq<char>, JsonModel)>,
    name: Seq<char>,
    n: int,
    last: int,
)
    requires
        distinct_names(members),
        0 <= n <= members.len(),
        0 <= last < members.len() ==> members[last].0 == name && n <= last,
    ensures
        0 <= occurrences(members, name, n) <= 1,
        0 <= last < members.len() ==> occurrences(members, name, n) == 0,
    decreases n,
{
    if n > 0 {
        if 0 <= last < members.len() {
            assert(members[n - 1].0 != members[last].0);
            lemma_names_occur_once(members, name, n - 1, last);
        } else if members[n - 1].0 == name {
            lemma_names_occur_once(members, name, n - 1, n - 1);
        } else {
            lemma_names_occur_once(members, name, n - 1, last);
        }
    }
}

/// In an object that has no name twice every member is a field.
pub proof fn lemma_members_are_fields(value: JsonModel)
    requires
        value is Object,
        distinct_names(value->Object_0),
    ensures
        forall|name: Seq<char>| !#[trigger] repeated(value, name),
        forall|name: Seq<char>| #[trigger] field(value, name) == member(value, name),
{
    let members = value->Object_0;
    assert forall|name: Seq<char>| !#[trigger] repeated(value, name) by {
        lemma_names_occur_once(members, name, members.len() as int, -1);
    }
}

/// The member of an object with this name, or null.
pub open spec fn at(value: JsonModel, name: Seq<char>) -> JsonModel {
    match member(value, name) {
        Some(v) => v,
        None => JsonModel::Null,
    }
}

/// The name of a variant without fields: a text, or an object whose one member is null.
pub open spec fn as_variant(value: JsonModel) -> Option<Seq<char>> {
    match value {
        JsonModel::Text(t) => Some(t),
        JsonModel::Object(members) => if members.len() == 1 && members[0].1 is Null {
            Some(members[0].0)
        } else {
            None
        },
        _ => None,
    }
}

/// The text of a value that is one.
pub open spec fn as_text(value: JsonModel) -> Option<Seq<char>> {
    match value {
        JsonModel::Text(t) => Some(t),
        _ => None,
    }
}

/// The items of a value that is an array.
pub open spec fn as_array(value: JsonModel) -> Option<Seq<JsonModel>> {
    match value {
        JsonModel::Array(items) => Some(items),
        _ => None,
    }
}

/// The flag of a value that is one.
pub open spec fn as_bool(value: JsonModel) -> Option<bool> {
    match value {
        JsonModel::Bool(b) => Some(b),
        _ => None,
    }
}

/// The number, where it is a whole number that fits 64 bits without a sign.
pub open spec fn as_unsigned(value: JsonModel) -> Option<int> {
    match value {
        JsonModel::Number(t) => if t.len() > 0 && t[0] == '+' {
            None
        } else {
            parsed(t, u64::MAX as int)
        },
        _ => None,
    }
}

/// The number, where it is a whole number that fits 128 bits without a sign.
pub open spec fn as_whole(value: JsonModel) -> Option<int> {
    match value {
        JsonModel::Number(t) => if t.len() > 0 && t[0] == '+' {
            None
        } else {
            parsed(t, u128::MAX as int)
        },
        _ => None,
    }
}

/// The number, where it is a whole number that fits 64 bits with a sign.
pub open spec fn as_signed(value: JsonModel) -> Option<int> {
    match value {
        JsonModel::Number(t) => if t.len() > 0 && t[0] == '+' {
            None
        } else if t.len() > 0 && t[0] == '-' {
            match parsed(t.skip(1), u64::MAX as int) {
                Some(v) => if 0 < v <= i64::MAX + 1 && t.len() > 1 && t[1] != '+' {
                    Some(-v)
                } else {
                    None
                },
                None => None,
            }
        } else {
            parsed(t, i64::MAX as int)
        },
        _ => None,
    }
}

impl Json {
    /// The member with this name.
    pub fn get(&self, name: &str) -> (r: Option<&Json>)
        ensures
            r matches Some(v) ==> member(self.deep_view(), name@) == Some(v.deep_view()),
            r is None ==> member(self.deep_view(), name@) is None,
    {
        match self {
            Json::Object(members) => {
                proof {
                    lemma_object_model(*members);
                }
                let ghost mm = self.deep_view()->Object_0;
                let mut n: usize = members.len();
                while n > 0
                    invariant
                        n <= members@.len(),
                        mm.len() == members@.len(),
                        self.deep_view() == JsonModel::Object(mm),
                        forall|j: int|
                            0 <= j < members@.len() ==> #[trigger] mm[j] == (
                                members@[j].0@,
                                members@[j].1.deep_view(),
                            ),
                        member_before(mm, name@, mm.len() as int) == member_before(
                            mm,
                            name@,
                            n as int,
                        ),
                    decreases n,
                {
                    if same(members[n - 1].0.as_str(), name) {
                        return Some(&members[n - 1].1);
                    }
                    n = n - 1;
                }
                None
            },
            _ => None,
        }
    }

    /// Whether an object has more than one member with this name.
    pub fn repeats(&self, name: &str) -> (r: bool)
        ensures
            r == repeated(self.deep_view(), name@),
    {
        match self {
            Json::Object(members) => {
                proof {
                    lemma_object_model(*members);
                }
                let ghost mm = self.deep_view()->Object_0;
                let mut n: usize = 0;
                let mut found: usize = 0;
                while n < members.len()
                    invariant
                        n <= members@.len(),
                        found <= n,
                        mm.len() == members@.len(),
                        forall|j: int|
                            0 <= j < members@.len() ==> #[trigger] mm[j] == (
                                members@[j].0@,
                                members@[j].1.deep_view(),
                            ),
                        found == occurrences(mm, name@, n as int),
                    decreases members@.len() - n,
                {
                    assert(mm[n as int].0 == members@[n as int].0@);
                    if same(members[n].0.as_str(), name) {
                        found = found + 1;
                    }
                    n = n + 1;
                }
                found > 1
            },
            _ => false,
        }
    }

    /// The field of a record with this name.
    pub fn field(&self, name: &str) -> (r: Option<&Json>)
        ensures
            r matches Some(v) ==> field(self.deep_view(), name@) == Some(v.deep_view()),
            r is None ==> field(self.deep_view(), name@) is None,
    {
        if self.repeats(name) {
            None
        } else {
            self.get(name)
        }
    }

    /// The names of the members of an object, in their order.
    pub fn names(&self) -> (r: Vec<String>)
        ensures
            self.deep_view() matches JsonModel::Object(members) ==> r.deep_view()
                == members.map_values(|m: (Seq<char>, JsonModel)| m.0),
            !(self.deep_view() is Object) ==> r@.len() == 0,
    {
        let mut out: Vec<String> = Vec::new();
        if let Json::Object(members) = self {
            proof {
                lemma_object_model(*members);
            }
            let mut i: usize = 0;
            while i < members.len()
                invariant
                    i <= members@.len(),
                    out@.len() == i,
                    forall|j: int| 0 <= j < i ==> #[trigger] out@[j]@ == members@[j].0@,
                decreases members@.len() - i,
            {
                out.push(members[i].0.clone());
                i = i + 1;
            }
            assert(out.deep_view() =~= self.deep_view()->Object_0.map_values(
                |m: (Seq<char>, JsonModel)| m.0,
            ));
        }
        out
    }

    /// The name of a variant, of a value that is one.
    pub fn as_variant_name(&self) -> (r: Option<&String>)
        ensures
            r matches Some(t) ==> as_variant(self.deep_view()) == Some(t@),
            r is None ==> as_variant(self.deep_view()) is None,
    {
        match self {
            Json::Text(t) => Some(t),
            Json::Object(members) => {
                proof {
                    lemma_object_model(*members);
                }
                if members.len() != 1 {
                    return None;
                }
                match &members[0].1 {
                    Json::Null => Some(&members[0].0),
                    _ => None,
                }
            },
            _ => None,
        }
    }

    /// The text of a value that is one.
    pub fn as_str(&self) -> (r: Option<&String>)
        ensures
            r matches Some(t) ==> as_text(self.deep_view()) == Some(t@),
            r is None ==> as_text(self.deep_view()) is None,
    {
        match self {
            Json::Text(t) => Some(t),
            _ => None,
        }
    }

    /// A JSON array of as records.
    pub fn as_list(&self) -> (r: Option<&Vec<Json>>)
        ensures
            r matches Some(items) ==> as_array(self.deep_view()) == Some(items.deep_view()),
            r is None ==> as_array(self.deep_view()) is None,
    {
        match self {
            Json::Array(items) => {
                proof {
                    lemma_array_model(*items);
                }
                Some(items)
            },
            _ => None,
        }
    }

    /// The flag of a value that is one.
    pub fn as_flag(&self) -> (r: Option<bool>)
        ensures
            r == as_bool(self.deep_view()),
    {
        match self {
            Json::Bool(b) => Some(*b),
            _ => None,
        }
    }

    /// The number, where it is a whole number that fits 64 bits without a sign.
    pub fn as_u64(&self) -> (r: Option<u64>)
        ensures
            r matches Some(n) ==> as_unsigned(self.deep_view()) == Some(n as int),
            r is None ==> as_unsigned(self.deep_view()) is None,
    {
        match self {
            Json::Number(t) => {
                let chars = chars_of(t.as_str());
                if chars.len() > 0 && chars[0] == '+' {
                    None
                } else {
                    read_u64(t.as_str())
                }
            },
            _ => None,
        }
    }

    /// The number, where it is a whole number that fits 128 bits without a sign.
    pub fn as_u128(&self) -> (r: Option<u128>)
        ensures
            r matches Some(n) ==> as_whole(self.deep_view()) == Some(n as int),
            r is None ==> as_whole(self.deep_view()) is None,
    {
        match self {
            Json::Number(t) => {
                let chars = chars_of(t.as_str());
                if chars.len() > 0 && chars[0] == '+' {
                    None
                } else {
                    read_u128(t.as_str())
                }
            },
            _ => None,
        }
    }

    /// The number, where it is a whole number that fits 64 bits with a sign.
    pub fn as_i64(&self) -> (r: Option<i64>)
        ensures
            r matches Some(n) ==> as_signed(self.deep_view()) == Some(n as int),
            r is None ==> as_signed(self.deep_view()) is None,
    {
        match self {
            Json::Number(t) => {
                let chars = chars_of(t.as_str());
                let n: usize = chars.len();
                if n > 0 && chars[0] == '+' {
                    None
                } else if n > 0 && chars[0] == '-' {
                    let rest = text_between(&chars, 1, n);
                    assert(rest@ == t@.skip(1));
                    match read_u64(rest.as_str()) {
                        Some(v) => {
                            if v > 0 && v <= 9223372036854775808u64 && n > 1 && chars[1] != '+' {
                                if v == 9223372036854775808u64 {
                                    Some(i64::MIN)
                                } else {
                                    Some(-(v as i64))
                                }
                            } else {
                                None
                            }
                        },
                        None => None,
                    }
                } else {
                    match read_u64(t.as_str()) {
                        Some(v) => {
                            if v <= 9223372036854775807u64 {
                                Some(v as i64)
                            } else {
                                None
                            }
                        },
                        None => None,
                    }
                }
            },
            _ => None,
        }
    }
}

/// A copy of a value.
pub fn clone_json(value: &Json) -> (r: Json)
    ensures
        r.deep_view() == value.deep_view(),
    decreases value,
{
    match value {
        Json::Null => Json::Null,
        Json::Bool(b) => Json::Bool(*b),
        Json::Number(t) => Json::Number(t.clone()),
        Json::Text(t) => Json::Text(t.clone()),
        Json::Array(items) => {
            let mut out: Vec<Json> = Vec::new();
            let mut i: usize = 0;
            while i < items.len()
                invariant
                    i <= items@.len(),
                    out@.len() == i,
                    decreases_to!(value => items),
                    forall|j: int|
                        0 <= j < i ==> #[trigger] out@[j].deep_view() == items@[j].deep_view(),
                decreases items@.len() - i,
            {
                assert(decreases_to!(items => items@[i as int]));
                out.push(clone_json(&items[i]));
                i = i + 1;
            }
            proof {
                lemma_array_model(*items);
                lemma_array_model(out);
                assert(Seq::new(out@.len(), |i: int| out@[i].deep_view()) =~= Seq::new(
                    items@.len(),
                    |i: int| items@[i].deep_view(),
                ));
            }
            Json::Array(out)
        },
        Json::Object(members) => {
            let mut out: Vec<(String, Json)> = Vec::new();
            let mut i: usize = 0;
            while i < members.len()
                invariant
                    i <= members@.len(),
                    out@.len() == i,
                    decreases_to!(value => members),
                    forall|j: int|
                        0 <= j < i ==> #[trigger] out@[j].1.deep_view()
                            == members@[j].1.deep_view() && out@[j].0@ == members@[j].0@,
                decreases members@.len() - i,
            {
                assert(decreases_to!(members => members@[i as int]));
                out.push((members[i].0.clone(), clone_json(&members[i].1)));
                i = i + 1;
            }
            proof {
                lemma_object_model(*members);
                lemma_object_model(out);
                assert(Seq::new(out@.len(), |i: int| (out@[i].0@, out@[i].1.deep_view()))
                    =~= Seq::new(
                    members@.len(),
                    |i: int| (members@[i].0@, members@[i].1.deep_view()),
                ));
            }
            Json::Object(out)
        },
    }
}

} // verus!
