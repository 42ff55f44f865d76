//! A plain JSON tree and the trusted boundary to `serde_json`.
//!
//! The crate decodes every API response by first turning the body into a
//! [`JsonValue`] tree (one trusted call into `serde_json`), then checking
//! the tree against the expected schema in ordinary verified code.  Numbers
//! are carried as their decimal token so that no floating point enters the
//! crate.

use vstd::prelude::*;

use crate::checks::{datetime_ok, decimal_ok, decimal_parses, rfc3339_parses};
use crate::strutil::str_eq;

verus! {

/// A JSON document, with numbers kept as their decimal token.  Object
/// members are listed in the order the parser hands them out; the
/// decoders below only ever look members up by name.
#[derive(Debug, PartialEq)]
pub enum JsonValue {
    Null,
    Bool(bool),
    /// The decimal token of a JSON number, e.g. `"-2.5"`.
    Number(String),
    Text(String),
    Array(Vec<JsonValue>),
    Object(Vec<(String, JsonValue)>),
}

/// The tree that `serde_json` produces for `s`, or `None` where `s` is not
/// valid JSON.  Named rather than spelled out: the JSON grammar is the
/// parser's business; this crate only relies on the result being a function
/// of the input text.
pub uninterp spec fn json_of(s: Seq<char>) -> Option<JsonValue>;

#[verifier::external_type_specification]
#[verifier::external_body]
pub struct ExSerdeValue(serde_json::Value);

/// Converts a `serde_json` tree into the crate's own [`JsonValue`], arm by
/// arm; numbers become their decimal token.  Only [`parse_json_text`] calls this.
#[verifier::external_body]
fn from_serde_value(v: &serde_json::Value) -> JsonValue {
    match v {
        serde_json::Value::Null => JsonValue::Null,
        serde_json::Value::Bool(b) => JsonValue::Bool(*b),
        serde_json::Value::Number(n) => JsonValue::Number(n.to_string()),
        serde_json::Value::String(s) => JsonValue::Text(s.clone()),
        serde_json::Value::Array(xs) => JsonValue::Array(
            xs.iter().map(from_serde_value).collect(),
        ),
        serde_json::Value::Object(m) => JsonValue::Object(
            m.iter().map(|(k, x)| (k.clone(), from_serde_value(x))).collect(),
        ),
    }
}

/// Relies on `serde_json::from_str::<serde_json::Value>`: parses the body
/// into a JSON tree, `None` where the body is not valid JSON.  The result
/// depends on the input text alone.
#[verifier::external_body]
fn parse_json_text(s: &str) -> (r: Option<JsonValue>)
    ensures
        r == json_of(s@),
{
    serde_json::from_str::<serde_json::Value>(s).ok().map(|v| from_serde_value(&v))
}

/// Parses a response body into a JSON tree; `None` where the body is not
/// valid JSON.
pub fn parse_document(s: &str) -> (r: Option<JsonValue>)
    ensures
        r == json_of(s@),
{
    parse_json_text(s)
}

/// The first member of `fs` named `key`, if any.
pub open spec fn lookup(fs: Seq<(String, JsonValue)>, key: Seq<char>) -> Option<JsonValue>
    decreases fs.len(),
{
    if fs.len() == 0 {
        None
    } else if fs[0].0@ == key {
        Some(fs[0].1)
    } else {
        lookup(fs.drop_first(), key)
    }
}

/// The string content of member `key`, where it exists and is a string.
pub open spec fn str_field(fs: Seq<(String, JsonValue)>, key: Seq<char>) -> Option<Seq<char>> {
    match lookup(fs, key) {
        Some(JsonValue::Text(s)) => Some(s@),
        _ => None,
    }
}

/// The boolean content of member `key`, where it exists and is a boolean.
pub open spec fn bool_field(fs: Seq<(String, JsonValue)>, key: Seq<char>) -> Option<bool> {
    match lookup(fs, key) {
        Some(JsonValue::Bool(b)) => Some(b),
        _ => None,
    }
}

/// The decimal token of member `key`, where it exists and is a number.
pub open spec fn num_field(fs: Seq<(String, JsonValue)>, key: Seq<char>) -> Option<Seq<char>> {
    match lookup(fs, key) {
        Some(JsonValue::Number(s)) => Some(s@),
        _ => None,
    }
}

/// The elements of member `key`, where it exists and is an array.
pub open spec fn arr_field(fs: Seq<(String, JsonValue)>, key: Seq<char>) -> Option<Seq<JsonValue>> {
    match lookup(fs, key) {
        Some(JsonValue::Array(xs)) => Some(xs@),
        _ => None,
    }
}

/// The members of member `key`, where it exists and is an object.
pub open spec fn obj_field(fs: Seq<(String, JsonValue)>, key: Seq<char>) -> Option<
    Seq<(String, JsonValue)>,
> {
    match lookup(fs, key) {
        Some(JsonValue::Object(gs)) => Some(gs@),
        _ => None,
    }
}

/// Finds the first member of `fs` named `key`.
pub fn get_member<'a>(fs: &'a Vec<(String, JsonValue)>, key: &str) -> (r: Option<&'a JsonValue>)
    ensures
        match r {
            Some(v) => lookup(fs@, key@) == Some(*v),
            None => lookup(fs@, key@) is None,
        },
{
    let mut i: usize = 0;
    proof {
        assert(fs@.skip(0) =~= fs@);
    }
    while i < fs.len()
        invariant
            i <= fs@.len(),
            lookup(fs@, key@) == lookup(fs@.skip(i as int), key@),
        decreases fs@.len() - i,
    {
        proof {
            assert(fs@.skip(i as int)[0] == fs@[i as int]);
            assert(fs@.skip(i as int).drop_first() =~= fs@.skip(i + 1));
        }
        if str_eq(fs[i].0.as_str(), key) {
            return Some(&fs[i].1);
        }
        i += 1;
    }
    None
}

/// Reads member `key` as a string.
pub fn get_str<'a>(fs: &'a Vec<(String, JsonValue)>, key: &str) -> (r: Option<&'a String>)
    ensures
        match r {
            Some(s) => str_field(fs@, key@) == Some(s@),
            None => str_field(fs@, key@) is None,
        },
{
    match get_member(fs, key) {
        Some(JsonValue::Text(s)) => Some(s),
        _ => None,
    }
}

/// Reads member `key` as a boolean.
pub fn get_bool(fs: &Vec<(String, JsonValue)>, key: &str) -> (r: Option<bool>)
    ensures
        r == bool_field(fs@, key@),
{
    match get_member(fs, key) {
        Some(JsonValue::Bool(b)) => Some(*b),
        _ => None,
    }
}

/// Reads member `key` as a number, returning its decimal token.
pub fn get_num<'a>(fs: &'a Vec<(String, JsonValue)>, key: &str) -> (r: Option<&'a String>)
    ensures
        match r {
            Some(s) => num_field(fs@, key@) == Some(s@),
            None => num_field(fs@, key@) is None,
        },
{
    match get_member(fs, key) {
        Some(JsonValue::Number(s)) => Some(s),
        _ => None,
    }
}

/// Reads member `key` as an array.
pub fn get_arr<'a>(fs: &'a Vec<(String, JsonValue)>, key: &str) -> (r: Option<
    &'a Vec<JsonValue>,
>)
    ensures
        match r {
            Some(xs) => arr_field(fs@, key@) == Some(xs@),
            None => arr_field(fs@, key@) is None,
        },
{
    match get_member(fs, key) {
        Some(JsonValue::Array(xs)) => Some(xs),
        _ => None,
    }
}

/// The decimal content of member `key`: a string or a number whose token
/// `bigdecimal` accepts.
pub open spec fn decimal_field(fs: Seq<(String, JsonValue)>, key: Seq<char>) -> Option<Seq<char>> {
    match lookup(fs, key) {
        Some(JsonValue::Text(s)) => if decimal_parses(s@) {
            Some(s@)
        } else {
            None
        },
        Some(JsonValue::Number(t)) => if decimal_parses(t@) {
            Some(t@)
        } else {
            None
        },
        _ => None,
    }
}

/// An optional string member: absent or null counts as `Some(None)`, a
/// string as `Some(Some(..))`, anything else as a schema violation.
pub open spec fn opt_str_field(fs: Seq<(String, JsonValue)>, key: Seq<char>) -> Option<
    Option<Seq<char>>,
> {
    match lookup(fs, key) {
        None => Some(None),
        Some(JsonValue::Null) => Some(None),
        Some(JsonValue::Text(s)) => Some(Some(s@)),
        _ => None,
    }
}

/// An optional boolean member: absent or null counts as `Some(None)`.
pub open spec fn opt_bool_field(fs: Seq<(String, JsonValue)>, key: Seq<char>) -> Option<
    Option<bool>,
> {
    match lookup(fs, key) {
        None => Some(None),
        Some(JsonValue::Null) => Some(None),
        Some(JsonValue::Bool(b)) => Some(Some(b)),
        _ => None,
    }
}

/// An optional RFC3339 timestamp member: absent or null counts as
/// `Some(None)`; a string must parse as a timestamp.
pub open spec fn opt_datetime_field(fs: Seq<(String, JsonValue)>, key: Seq<char>) -> Option<
    Option<Seq<char>>,
> {
    match lookup(fs, key) {
        None => Some(None),
        Some(JsonValue::Null) => Some(None),
        Some(JsonValue::Text(s)) => if rfc3339_parses(s@) {
            Some(Some(s@))
        } else {
            None
        },
        _ => None,
    }
}

/// A required RFC3339 timestamp member.
pub open spec fn datetime_field(fs: Seq<(String, JsonValue)>, key: Seq<char>) -> Option<
    Seq<char>,
> {
    match lookup(fs, key) {
        Some(JsonValue::Text(s)) => if rfc3339_parses(s@) {
            Some(s@)
        } else {
            None
        },
        _ => None,
    }
}

/// An optional decimal member read leniently: an absent member, the empty
/// string and an unparsable string all count as `Some(None)`; only a
/// non-string member violates the schema.  This mirrors the service's
/// habit of reporting missing numbers as `""`.
pub open spec fn opt_lenient_decimal_field(fs: Seq<(String, JsonValue)>, key: Seq<char>) -> Option<
    Option<Seq<char>>,
> {
    match lookup(fs, key) {
        None => Some(None),
        Some(JsonValue::Text(s)) => if s@.len() == 0 || !decimal_parses(s@) {
            Some(None)
        } else {
            Some(Some(s@))
        },
        _ => None,
    }
}

/// An optional decimal member: absent or null counts as `Some(None)`; a
/// present value must be a string or number that `bigdecimal` accepts.
pub open spec fn opt_decimal_field(fs: Seq<(String, JsonValue)>, key: Seq<char>) -> Option<
    Option<Seq<char>>,
> {
    match lookup(fs, key) {
        None => Some(None),
        Some(JsonValue::Null) => Some(None),
        Some(JsonValue::Text(s)) => if decimal_parses(s@) {
            Some(Some(s@))
        } else {
            None
        },
        Some(JsonValue::Number(t)) => if decimal_parses(t@) {
            Some(Some(t@))
        } else {
            None
        },
        _ => None,
    }
}

/// Reads an optional decimal member; see [`opt_decimal_field`].
pub fn get_opt_decimal<'a>(fs: &'a Vec<(String, JsonValue)>, key: &str) -> (r: Option<
    Option<&'a String>,
>)
    ensures
        match r {
            Some(Some(s)) => opt_decimal_field(fs@, key@) == Some(Some(s@)),
            Some(None) => opt_decimal_field(fs@, key@) == Some(None::<Seq<char>>),
            None => opt_decimal_field(fs@, key@) is None,
        },
{
    match get_member(fs, key) {
        None => Some(None),
        Some(JsonValue::Null) => Some(None),
        Some(JsonValue::Text(s)) => if decimal_ok(s.as_str()) {
            Some(Some(s))
        } else {
            None
        },
        Some(JsonValue::Number(t)) => if decimal_ok(t.as_str()) {
            Some(Some(t))
        } else {
            None
        },
        _ => None,
    }
}

/// An optional object member: absent or null counts as `Some(None)`.
pub open spec fn opt_obj_field(fs: Seq<(String, JsonValue)>, key: Seq<char>) -> Option<
    Option<Seq<(String, JsonValue)>>,
> {
    match lookup(fs, key) {
        None => Some(None),
        Some(JsonValue::Null) => Some(None),
        Some(JsonValue::Object(gs)) => Some(Some(gs@)),
        _ => None,
    }
}

/// Reads an optional object member; see [`opt_obj_field`].
pub fn get_opt_obj<'a>(fs: &'a Vec<(String, JsonValue)>, key: &str) -> (r: Option<
    Option<&'a Vec<(String, JsonValue)>>,
>)
    ensures
        match r {
            Some(Some(gs)) => opt_obj_field(fs@, key@) == Some(Some(gs@)),
            Some(None) => opt_obj_field(fs@, key@) == Some(None::<Seq<(String, JsonValue)>>),
            None => opt_obj_field(fs@, key@) is None,
        },
{
    match get_member(fs, key) {
        None => Some(None),
        Some(JsonValue::Null) => Some(None),
        Some(JsonValue::Object(gs)) => Some(Some(gs)),
        _ => None,
    }
}

/// Reads member `key` as a decimal: a string or number token that
/// `bigdecimal` accepts.
pub fn get_decimal<'a>(fs: &'a Vec<(String, JsonValue)>, key: &str) -> (r: Option<&'a String>)
    ensures
        match r {
            Some(s) => decimal_field(fs@, key@) == Some(s@),
            None => decimal_field(fs@, key@) is None,
        },
{
    match get_member(fs, key) {
        Some(JsonValue::Text(s)) => if decimal_ok(s.as_str()) {
            Some(s)
        } else {
            None
        },
        Some(JsonValue::Number(t)) => if decimal_ok(t.as_str()) {
            Some(t)
        } else {
            None
        },
        _ => None,
    }
}

/// Reads an optional string member; see [`opt_str_field`].
pub fn get_opt_str<'a>(fs: &'a Vec<(String, JsonValue)>, key: &str) -> (r: Option<
    Option<&'a String>,
>)
    ensures
        match r {
            Some(Some(s)) => opt_str_field(fs@, key@) == Some(Some(s@)),
            Some(None) => opt_str_field(fs@, key@) == Some(None::<Seq<char>>),
            None => opt_str_field(fs@, key@) is None,
        },
{
    match get_member(fs, key) {
        None => Some(None),
        Some(JsonValue::Null) => Some(None),
        Some(JsonValue::Text(s)) => Some(Some(s)),
        _ => None,
    }
}

/// Reads an optional boolean member; see [`opt_bool_field`].
pub fn get_opt_bool(fs: &Vec<(String, JsonValue)>, key: &str) -> (r: Option<Option<bool>>)
    ensures
        r == opt_bool_field(fs@, key@),
{
    match get_member(fs, key) {
        None => Some(None),
        Some(JsonValue::Null) => Some(None),
        Some(JsonValue::Bool(b)) => Some(Some(*b)),
        _ => None,
    }
}

/// Reads an optional RFC3339 timestamp member; see [`opt_datetime_field`].
pub fn get_opt_datetime<'a>(fs: &'a Vec<(String, JsonValue)>, key: &str) -> (r: Option<
    Option<&'a String>,
>)
    ensures
        match r {
            Some(Some(s)) => opt_datetime_field(fs@, key@) == Some(Some(s@)),
            Some(None) => opt_datetime_field(fs@, key@) == Some(None::<Seq<char>>),
            None => opt_datetime_field(fs@, key@) is None,
        },
{
    match get_member(fs, key) {
        None => Some(None),
        Some(JsonValue::Null) => Some(None),
        Some(JsonValue::Text(s)) => if datetime_ok(s.as_str()) {
            Some(Some(s))
        } else {
            None
        },
        _ => None,
    }
}

/// Reads a required RFC3339 timestamp member; see [`datetime_field`].
pub fn get_datetime<'a>(fs: &'a Vec<(String, JsonValue)>, key: &str) -> (r: Option<&'a String>)
    ensures
        match r {
            Some(s) => datetime_field(fs@, key@) == Some(s@),
            None => datetime_field(fs@, key@) is None,
        },
{
    match get_member(fs, key) {
        Some(JsonValue::Text(s)) => if datetime_ok(s.as_str()) {
            Some(s)
        } else {
            None
        },
        _ => None,
    }
}

/// Reads an optional decimal member leniently; see
/// [`opt_lenient_decimal_field`].
pub fn get_opt_lenient_decimal<'a>(fs: &'a Vec<(String, JsonValue)>, key: &str) -> (r: Option<
    Option<&'a String>,
>)
    ensures
        match r {
            Some(Some(s)) => opt_lenient_decimal_field(fs@, key@) == Some(Some(s@)),
            Some(None) => opt_lenient_decimal_field(fs@, key@) == Some(None::<Seq<char>>),
            None => opt_lenient_decimal_field(fs@, key@) is None,
        },
{
    match get_member(fs, key) {
        None => Some(None),
        Some(JsonValue::Text(s)) => if s.as_str().unicode_len() == 0 {
            Some(None)
        } else if decimal_ok(s.as_str()) {
            Some(Some(s))
        } else {
            Some(None)
        },
        _ => None,
    }
}

/// Reads member `key` as an object.
pub fn get_obj<'a>(fs: &'a Vec<(String, JsonValue)>, key: &str) -> (r: Option<
    &'a Vec<(String, JsonValue)>,
>)
    ensures
        match r {
            Some(gs) => obj_field(fs@, key@) == Some(gs@),
            None => obj_field(fs@, key@) is None,
        },
{
    match get_member(fs, key) {
        Some(JsonValue::Object(gs)) => Some(gs),
        _ => None,
    }
}

/// A type that can be checked against, and extracted from, a JSON tree.
/// `from_json_spec` is the schema: it gives the mathematical content of
/// every tree that satisfies it, and `None` for every tree that does not.
pub trait FromJson: Sized + View {
    /// The content of `j` under this type's schema.
    spec fn from_json_spec(j: JsonValue) -> Option<Self::V>;

    /// Checks `j` against the schema and extracts its content.
    fn from_json(j: &JsonValue) -> (r: Option<Self>)
        ensures
            match r {
                Some(v) => Self::from_json_spec(*j) == Some(v@),
                None => Self::from_json_spec(*j) is None,
            },
    ;
}

/// The contents of a JSON array, element-wise under `T`'s schema; `None`
/// where any element violates it.
pub open spec fn seq_of<T: FromJson>(xs: Seq<JsonValue>) -> Option<Seq<T::V>>
    decreases xs.len(),
{
    if xs.len() == 0 {
        Some(Seq::empty())
    } else {
        match (seq_of::<T>(xs.drop_last()), T::from_json_spec(xs.last())) {
            (Some(rest), Some(v)) => Some(rest.push(v)),
            _ => None,
        }
    }
}

/// One bad element spoils the whole array.
proof fn lemma_seq_of_none<T: FromJson>(xs: Seq<JsonValue>, i: int)
    requires
        0 <= i < xs.len(),
        T::from_json_spec(xs[i]) is None,
    ensures
        seq_of::<T>(xs) is None,
    decreases xs.len(),
{
    if i < xs.len() - 1 {
        lemma_seq_of_none::<T>(xs.drop_last(), i);
    }
}

/// Decodes every element of `xs` under `T`'s schema.
pub fn vec_from_json<T: FromJson>(xs: &Vec<JsonValue>) -> (r: Option<Vec<T>>)
    ensures
        match r {
            Some(v) => seq_of::<T>(xs@) == Some(v@.map_values(|t: T| t@)),
            None => seq_of::<T>(xs@) is None,
        },
{
    let mut out: Vec<T> = Vec::new();
    let mut i: usize = 0;
    proof {
        assert(xs@.take(0) =~= Seq::<JsonValue>::empty());
        assert(out@.map_values(|t: T| t@) =~= Seq::<T::V>::empty());
    }
    while i < xs.len()
        invariant
            i <= xs@.len(),
            seq_of::<T>(xs@.take(i as int)) == Some(out@.map_values(|t: T| t@)),
        decreases xs@.len() - i,
    {
        match T::from_json(&xs[i]) {
            Some(v) => {
                let ghost prev = out@.map_values(|t: T| t@);
                out.push(v);
                i += 1;
                proof {
                    assert(xs@.take(i as int).drop_last() =~= xs@.take(i - 1));
                    assert(xs@.take(i as int).last() == xs@[i - 1]);
                    assert(out@.map_values(|t: T| t@) =~= prev.push(out@.last()@));
                }
            },
            None => {
                proof {
                    lemma_seq_of_none::<T>(xs@, i as int);
                }
                return None;
            },
        }
    }
    proof {
        assert(xs@.take(xs@.len() as int) =~= xs@);
    }
    Some(out)
}

/// The contents of a JSON array of strings; `None` where any element is
/// not a string.
pub open spec fn strings_of(xs: Seq<JsonValue>) -> Option<Seq<Seq<char>>>
    decreases xs.len(),
{
    if xs.len() == 0 {
        Some(Seq::empty())
    } else {
        match (strings_of(xs.drop_last()), xs.last()) {
            (Some(rest), JsonValue::Text(s)) => Some(rest.push(s@)),
            _ => None,
        }
    }
}

/// One non-string element spoils the whole array.
proof fn lemma_strings_of_none(xs: Seq<JsonValue>, i: int)
    requires
        0 <= i < xs.len(),
        !(xs[i] matches JsonValue::Text(_)),
    ensures
        strings_of(xs) is None,
    decreases xs.len(),
{
    if i < xs.len() - 1 {
        lemma_strings_of_none(xs.drop_last(), i);
    }
}

/// Decodes a JSON array of strings.
pub fn vec_strings_from_json(xs: &Vec<JsonValue>) -> (r: Option<Vec<String>>)
    ensures
        match r {
            Some(v) => strings_of(xs@) == Some(v@.map_values(|s: String| s@)),
            None => strings_of(xs@) is None,
        },
{
    let mut out: Vec<String> = Vec::new();
    let mut i: usize = 0;
    proof {
        assert(xs@.take(0) =~= Seq::<JsonValue>::empty());
        assert(out@.map_values(|s: String| s@) =~= Seq::<Seq<char>>::empty());
    }
    while i < xs.len()
        invariant
            i <= xs@.len(),
            strings_of(xs@.take(i as int)) == Some(out@.map_values(|s: String| s@)),
        decreases xs@.len() - i,
    {
        match &xs[i] {
            JsonValue::Text(s) => {
                let ghost prev = out@.map_values(|s: String| s@);
                out.push(s.clone());
                i += 1;
                proof {
                    assert(xs@.take(i as int).drop_last() =~= xs@.take(i - 1));
                    assert(xs@.take(i as int).last() == xs@[i - 1]);
                    assert(out@.map_values(|s: String| s@) =~= prev.push(out@.last()@));
                }
            },
            _ => {
                proof {
                    lemma_strings_of_none(xs@, i as int);
                }
                return None;
            },
        }
    }
    proof {
        assert(xs@.take(xs@.len() as int) =~= xs@);
    }
    Some(out)
}

} // verus!
