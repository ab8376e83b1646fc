//! JSON values as the planner protocol and the Codex app-server exchange them.
//!
//! Values are `serde_json::Value`s; `json_view` names what such a value holds,
//! as a `JsonView` tree of plain values, and every accessor and constructor
//! below states its effect over that view. This crate builds serde_json
//! without `preserve_order`, so an object is a map ordered by key.
use crate::text::{decimal, signed_decimal, strings_view, trim};
use vstd::prelude::*;

verus! {

#[verifier::external_type_specification]
#[verifier::external_body]
pub struct ExJsonValue(serde_json::Value);

#[verifier::external_type_specification]
#[verifier::external_body]
pub struct ExJsonError(serde_json::Error);

/// What a JSON value holds. A number is described by what
/// `Value::as_u64` and `Value::as_i64` give back for it (a fraction or an
/// out-of-range integer gives `None` for both) and by the text serde_json
/// writes for it (`Number`'s `Display`: the decimal digits of an integer, the
/// shortest round-trip form of a float), which tells every two numbers apart.
pub enum JsonView {
    Null,
    Bool(bool),
    Number { as_u64: Option<u64>, as_i64: Option<i64>, text: Seq<char> },
    Str(Seq<char>),
    Array(Seq<JsonView>),
    Object(Map<Seq<char>, JsonView>),
}

/// The contents of a `serde_json::Value`.
pub uninterp spec fn json_view(v: serde_json::Value) -> JsonView;

/// What `serde_json::from_str::<Value>` gives for a text: `None` where it
/// fails, else the contents of the value it parses.
pub uninterp spec fn json_parse(text: Seq<char>) -> Option<JsonView>;

/// The compact text that `serde_json::to_string` writes for a value; it
/// depends only on what the value holds, numbers by their written text.
pub uninterp spec fn json_text(v: JsonView) -> Seq<char>;

pub open spec fn view_opt(o: Option<&serde_json::Value>) -> Option<JsonView> {
    match o {
        Some(v) => Some(json_view(*v)),
        None => None,
    }
}

pub open spec fn str_opt(o: Option<&str>) -> Option<Seq<char>> {
    match o {
        Some(s) => Some(s@),
        None => None,
    }
}

/// The member `key` of an object, as `Value::get` with a `&str` finds it.
pub open spec fn field(j: JsonView, key: Seq<char>) -> Option<JsonView> {
    match j {
        JsonView::Object(m) => if m.contains_key(key) {
            Some(m[key])
        } else {
            None
        },
        _ => None,
    }
}

pub open spec fn as_str(j: JsonView) -> Option<Seq<char>> {
    match j {
        JsonView::Str(s) => Some(s),
        _ => None,
    }
}

pub open spec fn as_bool(j: JsonView) -> Option<bool> {
    match j {
        JsonView::Bool(b) => Some(b),
        _ => None,
    }
}

pub open spec fn as_u64(j: JsonView) -> Option<u64> {
    match j {
        JsonView::Number { as_u64, .. } => as_u64,
        _ => None,
    }
}

pub open spec fn as_i64(j: JsonView) -> Option<i64> {
    match j {
        JsonView::Number { as_i64, .. } => as_i64,
        _ => None,
    }
}

/// `field` where it is present, else `Null`, as indexing with `value[key]`
/// gives it.
pub open spec fn field_or_null(j: JsonView, key: Seq<char>) -> JsonView {
    match field(j, key) {
        Some(v) => v,
        None => JsonView::Null,
    }
}

/// The object that inserting `entries` one after another into an empty map
/// gives: a later entry replaces an earlier one with the same key.
pub open spec fn map_of_entries(entries: Seq<(Seq<char>, JsonView)>) -> Map<Seq<char>, JsonView>
    decreases entries.len(),
{
    if entries.len() == 0 {
        Map::empty()
    } else {
        map_of_entries(entries.drop_last()).insert(entries.last().0, entries.last().1)
    }
}

pub open spec fn entries_view(entries: Seq<(String, serde_json::Value)>) -> Seq<(Seq<char>, JsonView)> {
    entries.map_values(|e: (String, serde_json::Value)| (e.0@, json_view(e.1)))
}

pub open spec fn values_view(items: Seq<serde_json::Value>) -> Seq<JsonView> {
    items.map_values(|v: serde_json::Value| json_view(v))
}

pub open spec fn number_u64(n: u64) -> JsonView {
    JsonView::Number {
        as_u64: Some(n),
        as_i64: if n <= i64::MAX {
            Some(n as i64)
        } else {
            None
        },
        text: decimal(n as nat),
    }
}

pub open spec fn number_i64(n: i64) -> JsonView {
    JsonView::Number {
        as_u64: if n >= 0 {
            Some(n as u64)
        } else {
            None
        },
        as_i64: Some(n),
        text: signed_decimal(n as int),
    }
}

/// `serde_json::from_str::<Value>`: parses a JSON text. What it gives is
/// named by `json_parse`; a text that is empty or all whitespace is always
/// refused (the parser reaches the end of the input, or a character that
/// starts no value, while it expects a value).
#[verifier::external_body]
pub(crate) fn parse_json(text: &str) -> (r: Result<serde_json::Value, serde_json::Error>)
    ensures
        r is Ok <==> json_parse(text@) is Some,
        r matches Ok(v) ==> json_view(v) == json_parse(text@)->0,
        text@.len() == 0 ==> r is Err,
        trim(text@).len() == 0 ==> r is Err,
{
    serde_json::from_str(text)
}

/// `Value::get` with a `&str` index: the member of an object, `None` for a
/// missing key or a value that is no object.
#[verifier::external_body]
pub(crate) fn get<'a>(v: &'a serde_json::Value, key: &str) -> (r: Option<&'a serde_json::Value>)
    ensures
        view_opt(r) == field(json_view(*v), key@),
{
    v.get(key)
}

/// `Value::as_str`: the text of a string value.
#[verifier::external_body]
pub(crate) fn get_str<'a>(v: &'a serde_json::Value) -> (r: Option<&'a str>)
    ensures
        str_opt(r) == as_str(json_view(*v)),
{
    v.as_str()
}

/// `Value::as_bool`: the boolean of a boolean value.
#[verifier::external_body]
pub(crate) fn get_bool(v: &serde_json::Value) -> (r: Option<bool>)
    ensures
        r == as_bool(json_view(*v)),
{
    v.as_bool()
}

/// `Value::as_u64`.
#[verifier::external_body]
pub(crate) fn get_u64(v: &serde_json::Value) -> (r: Option<u64>)
    ensures
        r == as_u64(json_view(*v)),
{
    v.as_u64()
}

/// `Value::as_i64`.
#[verifier::external_body]
pub(crate) fn get_i64(v: &serde_json::Value) -> (r: Option<i64>)
    ensures
        r == as_i64(json_view(*v)),
{
    v.as_i64()
}

/// `Value::as_array`: the items of an array value.
#[verifier::external_body]
pub(crate) fn get_array<'a>(v: &'a serde_json::Value) -> (r: Option<&'a Vec<serde_json::Value>>)
    ensures
        r is Some <==> json_view(*v) is Array,
        r matches Some(items) ==> json_view(*v) == JsonView::Array(values_view(items@)),
{
    v.as_array()
}

/// `Value::is_null`.
#[verifier::external_body]
pub(crate) fn is_null(v: &serde_json::Value) -> (r: bool)
    ensures
        r == (json_view(*v) is Null),
{
    v.is_null()
}

/// `Value::is_object`.
#[verifier::external_body]
pub(crate) fn is_object(v: &serde_json::Value) -> (r: bool)
    ensures
        r == (json_view(*v) is Object),
{
    v.is_object()
}

/// `Value::clone`: an equal value.
#[verifier::external_body]
pub(crate) fn clone_value(v: &serde_json::Value) -> (r: serde_json::Value)
    ensures
        json_view(r) == json_view(*v),
{
    v.clone()
}

/// `Value::Null`.
#[verifier::external_body]
pub(crate) fn null() -> (r: serde_json::Value)
    ensures
        json_view(r) == JsonView::Null,
{
    serde_json::Value::Null
}

/// `Value::Bool`.
#[verifier::external_body]
pub(crate) fn boolean(b: bool) -> (r: serde_json::Value)
    ensures
        json_view(r) == JsonView::Bool(b),
{
    serde_json::Value::Bool(b)
}

/// `Value::String`.
#[verifier::external_body]
pub(crate) fn string(s: String) -> (r: serde_json::Value)
    ensures
        json_view(r) == JsonView::Str(s@),
{
    serde_json::Value::String(s)
}

/// `Value::from(u64)`: a non-negative integer, written as its decimal digits.
#[verifier::external_body]
pub(crate) fn unsigned(n: u64) -> (r: serde_json::Value)
    ensures
        json_view(r) == number_u64(n),
{
    serde_json::Value::from(n)
}

/// `Value::from(i64)`: an integer, written as its decimal digits after a `-`
/// where it is negative.
#[verifier::external_body]
pub(crate) fn signed(n: i64) -> (r: serde_json::Value)
    ensures
        json_view(r) == number_i64(n),
{
    serde_json::Value::from(n)
}

/// `Value::Array`.
#[verifier::external_body]
pub(crate) fn array(items: Vec<serde_json::Value>) -> (r: serde_json::Value)
    ensures
        json_view(r) == JsonView::Array(values_view(items@)),
{
    serde_json::Value::Array(items)
}

/// `Value::Object` collected from key/value pairs (`Map::from_iter`, which
/// inserts them in order).
#[verifier::external_body]
pub(crate) fn object(entries: Vec<(String, serde_json::Value)>) -> (r: serde_json::Value)
    ensures
        json_view(r) == JsonView::Object(map_of_entries(entries_view(entries@))),
{
    serde_json::Value::Object(entries.into_iter().collect())
}

/// `serde_json::to_string` on a value. Writing a `Value` cannot fail: its
/// keys are strings.
#[verifier::external_body]
pub(crate) fn to_text(v: &serde_json::Value) -> (r: String)
    ensures
        r@ == json_text(json_view(*v)),
{
    match serde_json::to_string(v) {
        Ok(s) => s,
        Err(_) => String::new(),
    }
}

/// `i32::deserialize` on a JSON value, as a derived `Deserialize` reads an
/// `i32` field: the integer where the value is one that fits in 32 bits,
/// else serde_json's `invalid type` or `invalid value` error.
#[verifier::external_body]
pub(crate) fn deserialize_i32(v: &serde_json::Value) -> (r: Result<i32, serde_json::Error>)
    ensures
        r is Ok <==> (as_i64(json_view(*v)) matches Some(n) && i32::MIN <= n <= i32::MAX),
        r matches Ok(n) ==> as_i64(json_view(*v)) == Some(n as i64),
{
    <i32 as serde::Deserialize>::deserialize(v)
}

/// `bool::deserialize` on a JSON value: the boolean of a boolean value, else
/// serde_json's `invalid type` error.
#[verifier::external_body]
pub(crate) fn deserialize_bool(v: &serde_json::Value) -> (r: Result<bool, serde_json::Error>)
    ensures
        r is Ok <==> json_view(*v) is Bool,
        r matches Ok(b) ==> json_view(*v) == JsonView::Bool(b),
{
    <bool as serde::Deserialize>::deserialize(v)
}

/// `Option::<String>::deserialize` on a JSON value: `None` for `null`, the
/// text of a string, else serde_json's `invalid type` error.
#[verifier::external_body]
pub(crate) fn deserialize_opt_string(v: &serde_json::Value) -> (r: Result<
    Option<String>,
    serde_json::Error,
>)
    ensures
        r is Ok <==> (json_view(*v) is Null || json_view(*v) is Str),
        r matches Ok(o) ==> match o {
            None => json_view(*v) is Null,
            Some(s) => json_view(*v) == JsonView::Str(s@),
        },
{
    <Option<String> as serde::Deserialize>::deserialize(v)
}

/// serde_json's `invalid type` error (`de::Error::invalid_type`) for a value
/// that is no number, described as serde_json describes it, against the
/// expectation `expected`.
#[verifier::external_body]
pub(crate) fn type_error(v: &serde_json::Value, expected: &str) -> (r: serde_json::Error)
    requires
        !(json_view(*v) is Number),
{
    let found = match v {
        serde_json::Value::Null => serde::de::Unexpected::Unit,
        serde_json::Value::Bool(b) => serde::de::Unexpected::Bool(*b),
        serde_json::Value::String(s) => serde::de::Unexpected::Str(s),
        serde_json::Value::Array(_) => serde::de::Unexpected::Seq,
        serde_json::Value::Object(_) => serde::de::Unexpected::Map,
        serde_json::Value::Number(_) => serde::de::Unexpected::Other("number"),
    };
    <serde_json::Error as serde::de::Error>::invalid_type(found, &expected)
}

/// serde_json's `invalid type` error for the non-negative integer `n`.
#[verifier::external_body]
pub(crate) fn unsigned_type_error(n: u64, expected: &str) -> (r: serde_json::Error) {
    <serde_json::Error as serde::de::Error>::invalid_type(
        serde::de::Unexpected::Unsigned(n),
        &expected,
    )
}

/// serde_json's `invalid type` error for the negative integer `n`.
#[verifier::external_body]
pub(crate) fn signed_type_error(n: i64, expected: &str) -> (r: serde_json::Error) {
    <serde_json::Error as serde::de::Error>::invalid_type(
        serde::de::Unexpected::Signed(n),
        &expected,
    )
}

/// serde_json's `invalid type` error for a number that is no integer.
#[verifier::external_body]
pub(crate) fn fraction_type_error(v: &serde_json::Value, expected: &str) -> (r: serde_json::Error)
    requires
        json_view(*v) is Number,
{
    <serde_json::Error as serde::de::Error>::invalid_type(
        serde::de::Unexpected::Float(v.as_f64().unwrap_or_default()),
        &expected,
    )
}

/// serde_json's `invalid type` error for any value, found as serde_json
/// finds it: an integer that fits in a `u64` is unsigned, another integer is
/// signed, any other number is a fraction.
pub(crate) fn value_type_error(v: &serde_json::Value, expected: &str) -> serde_json::Error {
    if let Some(n) = get_u64(v) {
        unsigned_type_error(n, expected)
    } else if let Some(n) = get_i64(v) {
        signed_type_error(n, expected)
    } else if is_number(v) {
        fraction_type_error(v, expected)
    } else {
        type_error(v, expected)
    }
}

/// `Value::is_number`.
#[verifier::external_body]
pub(crate) fn is_number(v: &serde_json::Value) -> (r: bool)
    ensures
        r == (json_view(*v) is Number),
{
    v.is_number()
}

/// serde_json's `invalid length` error (`de::Error::invalid_length`).
#[verifier::external_body]
pub(crate) fn length_error(len: usize, expected: &str) -> (r: serde_json::Error) {
    <serde_json::Error as serde::de::Error>::invalid_length(len, &expected)
}

/// The string member `key` of `j`, or `default` where it is missing or no
/// string.
pub open spec fn str_field_or(j: JsonView, key: Seq<char>, default: Seq<char>) -> Seq<char> {
    match field(j, key) {
        Some(v) => match as_str(v) {
            Some(s) => s,
            None => default,
        },
        None => default,
    }
}

/// The boolean member `key` of `j`, or `default` where it is missing or no
/// boolean.
pub open spec fn bool_field_or(j: JsonView, key: Seq<char>, default: bool) -> bool {
    match field(j, key) {
        Some(v) => match as_bool(v) {
            Some(b) => b,
            None => default,
        },
        None => default,
    }
}

/// The string member `key` of `v`, or `default`.
pub fn string_field_or(v: &serde_json::Value, key: &str, default: &str) -> (r: String)
    ensures
        r@ == str_field_or(json_view(*v), key@, default@),
{
    match get(v, key) {
        Some(m) => match get_str(m) {
            Some(s) => s.to_owned(),
            None => default.to_owned(),
        },
        None => default.to_owned(),
    }
}

/// The boolean member `key` of `v`, or `default`.
pub fn boolean_field_or(v: &serde_json::Value, key: &str, default: bool) -> (r: bool)
    ensures
        r == bool_field_or(json_view(*v), key@, default),
{
    match get(v, key) {
        Some(m) => match get_bool(m) {
            Some(b) => b,
            None => default,
        },
        None => default,
    }
}

/// The strings among `items`, in order; the other items are skipped.
pub open spec fn strings_in(items: Seq<JsonView>) -> Seq<Seq<char>>
    decreases items.len(),
{
    if items.len() == 0 {
        Seq::empty()
    } else {
        let rest = strings_in(items.drop_last());
        match as_str(items.last()) {
            Some(s) => rest.push(s),
            None => rest,
        }
    }
}

/// The strings among the items of an array, in order.
pub fn strings_of(items: &Vec<serde_json::Value>) -> (r: Vec<String>)
    ensures
        strings_view(r@) == strings_in(values_view(items@)),
{
    let mut out: Vec<String> = Vec::new();
    let mut i: usize = 0;
    while i < items.len()
        invariant
            i <= items@.len(),
            strings_view(out@) == strings_in(values_view(items@).take(i as int)),
        decreases items@.len() - i,
    {
        let ghost prefix = values_view(items@).take(i as int);
        let ghost next = values_view(items@).take(i + 1);
        assert(next.drop_last() =~= prefix);
        match get_str(&items[i]) {
            Some(s) => {
                out.push(s.to_owned());
                assert(strings_view(out@) =~= strings_view(out@.drop_last()).push(s@));
            },
            None => {},
        }
        i = i + 1;
    }
    assert(values_view(items@).take(items@.len() as int) =~= values_view(items@));
    out
}

} // verus!
