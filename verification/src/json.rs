//! A model of the JSON documents the catalogue answers with, and the ways
//! the logic reads them: by key, by position, as text, as an unsigned
//! number, as a list. A missing key or position reads as `Null`, as it
//! does through `serde_json::Value`'s indexing.

use crate::text::str_eq;
use vstd::prelude::*;

verus! {

/// A JSON value. A number keeps only what reading it as `u64` gives: the
/// value when it is a non-negative integer that fits, else nothing.
/// Object members are kept in order, each key once.
#[derive(Debug)]
pub enum Json {
    Null,
    Bool(bool),
    Number(Option<u64>),
    Str(String),
    Array(Vec<Json>),
    Object(Vec<(String, Json)>),
}

/// The value under `key` among object members, or `Null`.
pub open spec fn member(members: Seq<(String, Json)>, key: Seq<char>) -> Json
    decreases members.len(),
{
    if members.len() == 0 {
        Json::Null
    } else if members[0].0@ == key {
        members[0].1
    } else {
        member(members.subrange(1, members.len() as int), key)
    }
}

impl Json {
    /// `self[key]`: the member of an object, `Null` otherwise.
    pub open spec fn get(self, key: Seq<char>) -> Json {
        match self {
            Json::Object(m) => member(m@, key),
            _ => Json::Null,
        }
    }

    /// `self[i]`: the element of an array, `Null` otherwise.
    pub open spec fn at(self, i: int) -> Json {
        match self {
            Json::Array(a) => if 0 <= i < a@.len() {
                a@[i]
            } else {
                Json::Null
            },
            _ => Json::Null,
        }
    }

    /// The text of a string value.
    pub open spec fn text(self) -> Option<Seq<char>> {
        match self {
            Json::Str(s) => Some(s@),
            _ => None,
        }
    }

    /// The value of a number that is an unsigned 64-bit integer.
    pub open spec fn unsigned(self) -> Option<u64> {
        match self {
            Json::Number(n) => n,
            _ => None,
        }
    }

    /// The elements of an array.
    pub open spec fn items(self) -> Option<Seq<Json>> {
        match self {
            Json::Array(a) => Some(a@),
            _ => None,
        }
    }
}

/// The value a possibly-absent reference stands for: absent is `Null`.
pub open spec fn value_of(j: Option<&Json>) -> Json {
    match j {
        Some(v) => *v,
        None => Json::Null,
    }
}

/// `j[key]`.
pub fn field<'a>(j: Option<&'a Json>, key: &str) -> (r: Option<&'a Json>)
    ensures
        value_of(r) == value_of(j).get(key@),
{
    let v = match j {
        Some(v) => v,
        None => return None,
    };
    assert(value_of(j) == *v);
    match v {
        Json::Object(m) => {
            assert(v.get(key@) == member(m@, key@));
            let mut i: usize = 0;
            assert(m@.subrange(0, m@.len() as int) == m@);
            while i < m.len()
                invariant
                    i <= m@.len(),
                    value_of(j).get(key@) == member(m@, key@),
                    member(m@, key@) == member(m@.subrange(i as int, m@.len() as int), key@),
                decreases m.len() - i,
            {
                let ghost rest = m@.subrange(i as int, m@.len() as int);
                assert(rest[0] == m@[i as int]);
                if str_eq(m[i].0.as_str(), key) {
                    assert(member(rest, key@) == m@[i as int].1);
                    let r = &m[i].1;
                    assert(*r == m@[i as int].1);
                    return Some(r);
                }
                assert(rest.subrange(1, rest.len() as int) == m@.subrange(i + 1, m@.len() as int));
                i = i + 1;
            }
            None
        },
        _ => None,
    }
}

/// `j[i]`.
pub fn element<'a>(j: Option<&'a Json>, i: usize) -> (r: Option<&'a Json>)
    ensures
        value_of(r) == value_of(j).at(i as int),
{
    match j {
        Some(Json::Array(a)) => {
            if i < a.len() {
                Some(&a[i])
            } else {
                None
            }
        },
        _ => None,
    }
}

/// `j.as_str()`.
pub fn as_text<'a>(j: Option<&'a Json>) -> (r: Option<&'a String>)
    ensures
        match r {
            Some(s) => value_of(j).text() == Some(s@),
            None => value_of(j).text() is None,
        },
{
    match j {
        Some(Json::Str(s)) => Some(s),
        _ => None,
    }
}

/// `j.as_u64()`.
pub fn as_unsigned(j: Option<&Json>) -> (r: Option<u64>)
    ensures
        r == value_of(j).unsigned(),
{
    match j {
        Some(Json::Number(n)) => *n,
        _ => None,
    }
}

/// `j.as_array()`.
pub fn as_items<'a>(j: Option<&'a Json>) -> (r: Option<&'a Vec<Json>>)
    ensures
        match r {
            Some(a) => value_of(j).items() == Some(a@),
            None => value_of(j).items() is None,
        },
{
    match j {
        Some(Json::Array(a)) => Some(a),
        _ => None,
    }
}

// ---------------------------------------------------------------------------
// Parsing
// ---------------------------------------------------------------------------

/// `serde_json::Value`, carried as an opaque value.
#[verifier::external_type_specification]
#[verifier::external_body]
pub struct ExValue(serde_json::Value);

/// The document `serde_json::from_str::<serde_json::Value>` reads from
/// `text`, in this model, or nothing when the text is not JSON.
pub uninterp spec fn json_document(text: Seq<char>) -> Option<Json>;

/// Parses a JSON text (`serde_json::from_str::<serde_json::Value>`) and
/// puts the value in this model.
///
/// Trusted: the contract says that the result is `json_document` of the
/// text, which depends on the text alone (objects come out with each key
/// once, in the order of `serde_json::Map`).
#[verifier::external_body]
pub fn parse_json(text: &str) -> (r: Option<Json>)
    ensures
        r == json_document(text@),
{
    serde_json::from_str::<serde_json::Value>(text).ok().map(json_of_value)
}

/// A `serde_json::Value` in this model, variant by variant: a number keeps
/// what `as_u64` gives. Used by `parse_json` only; nothing is stated of it
/// on its own, as the value it takes is opaque.
#[verifier::external_body]
fn json_of_value(v: serde_json::Value) -> Json {
    match v {
        serde_json::Value::Null => Json::Null,
        serde_json::Value::Bool(b) => Json::Bool(b),
        serde_json::Value::Number(n) => Json::Number(n.as_u64()),
        serde_json::Value::String(s) => Json::Str(s),
        serde_json::Value::Array(a) => Json::Array(a.into_iter().map(json_of_value).collect()),
        serde_json::Value::Object(m) => Json::Object(
            m.into_iter().map(|(k, v)| (k, json_of_value(v))).collect(),
        ),
    }
}

} // verus!
