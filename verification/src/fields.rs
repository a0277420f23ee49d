//! The fields of JSON objects, read with the type that is expected of them.
use vstd::prelude::*;

use crate::json::{
    as_array, as_bool, as_signed, as_text, as_variant, as_whole, at, field, member, repeated, Json,
    JsonModel,
};
use crate::seqs::{lemma_take_all, lemma_take_next};
use crate::split::push_text;

verus! {

/// The text under a name; nothing where there is none.
pub open spec fn text_at(value: JsonModel, name: Seq<char>) -> Option<Seq<char>> {
    match field(value, name) {
        Some(v) => as_text(v),
        None => None,
    }
}

/// Reads a text; nothing where the value holds none.
pub fn read_text(value: &Json, name: &str) -> (r: Option<String>)
    ensures
        r.deep_view() == text_at(value.deep_view(), name@),
{
    match value.field(name) {
        Some(v) => match v.as_str() {
            Some(t) => Some(t.clone()),
            None => None,
        },
        None => None,
    }
}

/// The name of the variant under a name; nothing where there is none.
pub open spec fn variant_at(value: JsonModel, name: Seq<char>) -> Option<Seq<char>> {
    match field(value, name) {
        Some(v) => as_variant(v),
        None => None,
    }
}

/// Reads the name of a variant; nothing where the value holds none.
pub fn read_variant(value: &Json, name: &str) -> (r: Option<String>)
    ensures
        r.deep_view() == variant_at(value.deep_view(), name@),
{
    match value.field(name) {
        Some(v) => match v.as_variant_name() {
            Some(t) => Some(t.clone()),
            None => None,
        },
        None => None,
    }
}

/// The text under a name, which may be null or absent; nothing where it is
/// something else.
pub open spec fn optional_text_at(value: JsonModel, name: Seq<char>) -> Option<Option<Seq<char>>> {
    if absent(value, name) {
        Some(None)
    } else {
        match text_at(value, name) {
            Some(t) => Some(Some(t)),
            None => None,
        }
    }
}

/// Reads an optional text; nothing where the value holds none.
pub fn read_optional_text(value: &Json, name: &str) -> (r: Option<Option<String>>)
    ensures
        r.deep_view() == optional_text_at(value.deep_view(), name@),
{
    if is_absent(value, name) {
        Some(None)
    } else {
        match read_text(value, name) {
            Some(t) => Some(Some(t)),
            None => None,
        }
    }
}

/// The texts of an array; nothing where an item is no text.
pub open spec fn all_texts(items: Seq<JsonModel>) -> Option<Seq<Seq<char>>>
    decreases items.len(),
{
    if items.len() == 0 {
        Some(Seq::empty())
    } else {
        match (all_texts(items.drop_last()), as_text(items.last())) {
            (Some(before), Some(t)) => Some(before.push(t)),
            _ => None,
        }
    }
}

proof fn lemma_all_texts_before(items: Seq<JsonModel>, n: int)
    requires
        0 <= n <= items.len(),
        all_texts(items.take(n)) is None,
    ensures
        all_texts(items) is None,
    decreases items.len() - n,
{
    if n == items.len() {
        lemma_take_all(items);
    } else {
        lemma_take_next(items, n);
        lemma_all_texts_before(items, n + 1);
    }
}

/// Reads texts from JSON values; nothing where one of them holds none.
pub fn read_all_texts(items: &Vec<Json>) -> (r: Option<Vec<String>>)
    ensures
        r.deep_view() == all_texts(items.deep_view()),
{
    let mut out: Vec<String> = Vec::new();
    let ghost all = items.deep_view();
    let mut i: usize = 0;
    assert(out.deep_view() =~= Seq::<Seq<char>>::empty());
    assert(all_texts(all.take(0)) == Some(out.deep_view()));
    while i < items.len()
        invariant
            i <= items@.len(),
            all == items.deep_view(),
            all_texts(all.take(i as int)) == Some(out.deep_view()),
        decreases items@.len() - i,
    {
        proof {
            lemma_take_next(all, i as int);
        }
        match items[i].as_str() {
            Some(t) => {
                push_text(&mut out, t.clone());
            },
            None => {
                proof {
                    lemma_all_texts_before(all, i + 1);
                }
                return None;
            },
        }
        i = i + 1;
    }
    proof {
        lemma_take_all(all);
    }
    Some(out)
}

/// The array under a name.
pub open spec fn array_at(value: JsonModel, name: Seq<char>) -> Option<Seq<JsonModel>> {
    match field(value, name) {
        Some(v) => as_array(v),
        None => None,
    }
}

/// Reads an array; nothing where the value holds none.
pub fn read_array<'a>(value: &'a Json, name: &str) -> (r: Option<&'a Vec<Json>>)
    ensures
        r matches Some(items) ==> array_at(value.deep_view(), name@) == Some(items.deep_view()),
        r is None ==> array_at(value.deep_view(), name@) is None,
{
    match value.field(name) {
        Some(v) => v.as_list(),
        None => None,
    }
}

/// The texts of the array under a name.
pub open spec fn texts_at(value: JsonModel, name: Seq<char>) -> Option<Seq<Seq<char>>> {
    match array_at(value, name) {
        Some(items) => all_texts(items),
        None => None,
    }
}

/// Reads a texts; nothing where the value holds none.
pub fn read_texts(value: &Json, name: &str) -> (r: Option<Vec<String>>)
    ensures
        r.deep_view() == texts_at(value.deep_view(), name@),
{
    match read_array(value, name) {
        Some(items) => read_all_texts(items),
        None => None,
    }
}

/// The truth value under a name.
pub open spec fn flag_at(value: JsonModel, name: Seq<char>) -> Option<bool> {
    match field(value, name) {
        Some(v) => as_bool(v),
        None => None,
    }
}

/// Reads a flag; nothing where the value holds none.
pub fn read_flag(value: &Json, name: &str) -> (r: Option<bool>)
    ensures
        r == flag_at(value.deep_view(), name@),
{
    match value.field(name) {
        Some(v) => v.as_flag(),
        None => None,
    }
}

/// The whole number under a name that is at least zero and at most a limit.
pub open spec fn unsigned_at(value: JsonModel, name: Seq<char>, max: int) -> Option<int> {
    match field(value, name) {
        Some(v) => match as_whole(v) {
            Some(n) => if n <= max {
                Some(n)
            } else {
                None
            },
            None => None,
        },
        None => None,
    }
}

/// Reads an unsigned; nothing where the value holds none.
pub fn read_unsigned(value: &Json, name: &str, max: u64) -> (r: Option<u64>)
    ensures
        r matches Some(n) ==> n <= max && unsigned_at(value.deep_view(), name@, max as int) == Some(
            n as int,
        ),
        r is None ==> unsigned_at(value.deep_view(), name@, max as int) is None,
{
    match value.field(name) {
        Some(v) => match v.as_u128() {
            Some(n) => if n <= max as u128 {
                Some(n as u64)
            } else {
                None
            },
            None => None,
        },
        None => None,
    }
}

/// Reads a whole number of up to 128 bits; nothing where the value holds none.
pub fn read_whole(value: &Json, name: &str) -> (r: Option<u128>)
    ensures
        r matches Some(n) ==> unsigned_at(value.deep_view(), name@, u128::MAX as int) == Some(
            n as int,
        ),
        r is None ==> unsigned_at(value.deep_view(), name@, u128::MAX as int) is None,
{
    match value.field(name) {
        Some(v) => v.as_u128(),
        None => None,
    }
}

/// The whole number under a name that is between two limits.
pub open spec fn signed_at(value: JsonModel, name: Seq<char>, min: int, max: int) -> Option<int> {
    match field(value, name) {
        Some(v) => match as_signed(v) {
            Some(n) => if min <= n <= max {
                Some(n)
            } else {
                None
            },
            None => None,
        },
        None => None,
    }
}

/// Reads a signed; nothing where the value holds none.
pub fn read_signed(value: &Json, name: &str, min: i64, max: i64) -> (r: Option<i64>)
    ensures
        r matches Some(n) ==> min <= n <= max && signed_at(
            value.deep_view(),
            name@,
            min as int,
            max as int,
        ) == Some(n as int),
        r is None ==> signed_at(value.deep_view(), name@, min as int, max as int) is None,
{
    match value.field(name) {
        Some(v) => match v.as_i64() {
            Some(n) => if min <= n && n <= max {
                Some(n)
            } else {
                None
            },
            None => None,
        },
        None => None,
    }
}

/// Whether a record has no field with a name, or one that is null.
pub open spec fn absent(value: JsonModel, name: Seq<char>) -> bool {
    !repeated(value, name) && match member(value, name) {
        Some(JsonModel::Null) => true,
        Some(_) => false,
        None => true,
    }
}

/// Whether a record has no field with a name, or one that is null.
pub fn is_absent(value: &Json, name: &str) -> (r: bool)
    ensures
        r == absent(value.deep_view(), name@),
{
    if value.repeats(name) {
        return false;
    }
    match value.get(name) {
        Some(Json::Null) => true,
        Some(_) => false,
        None => true,
    }
}

/// The text of the member of an object; nothing where there is none.
pub open spec fn text_under(value: JsonModel, name: Seq<char>) -> Option<Seq<char>> {
    as_text(at(value, name))
}

/// The text of the member of an object.
pub fn find_text(value: &Json, name: &str) -> (r: Option<String>)
    ensures
        r.deep_view() == text_under(value.deep_view(), name@),
{
    match value.get(name) {
        Some(v) => match v.as_str() {
            Some(t) => Some(t.clone()),
            None => None,
        },
        None => None,
    }
}

/// The items of the member of an object that is an array; nothing where there is none.
pub open spec fn array_under(value: JsonModel, name: Seq<char>) -> Option<Seq<JsonModel>> {
    as_array(at(value, name))
}

/// The items of the member of an object that is an array.
pub fn find_array<'a>(value: &'a Json, name: &str) -> (r: Option<&'a Vec<Json>>)
    ensures
        r matches Some(items) ==> array_under(value.deep_view(), name@) == Some(items.deep_view()),
        r is None ==> array_under(value.deep_view(), name@) is None,
{
    match value.get(name) {
        Some(v) => v.as_list(),
        None => None,
    }
}

} // verus!
