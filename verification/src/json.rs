//! A plain model of JSON documents, as the deployment state and the update server index
//! are read and written.
use vstd::prelude::*;
use crate::text::str_eq;

verus! {

/// A JSON number, kept the way a JSON reader hands it over.
#[derive(Debug, Clone, PartialEq, Eq)]
pub enum JsonNumber {
    /// A non-negative integer.
    PosInt(u64),
    /// A negative integer.
    NegInt(i64),
    /// Any other number, held as the text a JSON writer renders it as.
    Float(String),
}

/// A JSON value. Objects keep their members in document order.
#[derive(Debug, PartialEq, Eq)]
pub enum JsonValue {
    /// `null`.
    Null,
    /// `true` or `false`.
    Bool(bool),
    /// A number.
    Number(JsonNumber),
    /// A string.
    String(String),
    /// An array.
    Array(Vec<JsonValue>),
    /// An object, as its members in document order.
    Object(Vec<(String, JsonValue)>),
}

/// Value of the first member of `fields` named `key`.
pub open spec fn spec_member(fields: Seq<(String, JsonValue)>, key: Seq<char>) -> Option<JsonValue>
    decreases fields.len(),
{
    if fields.len() == 0 {
        None
    } else if fields[0].0@ == key {
        Some(fields[0].1)
    } else {
        spec_member(fields.drop_first(), key)
    }
}

/// Text of a value that is a string.
pub open spec fn spec_as_str(value: JsonValue) -> Option<Seq<char>> {
    match value {
        JsonValue::String(s) => Some(s@),
        _ => None,
    }
}

/// Value of a number that is an integer representable as `i64`.
pub open spec fn spec_as_i64(value: JsonValue) -> Option<i64> {
    match value {
        JsonValue::Number(JsonNumber::PosInt(u)) => if u <= i64::MAX {
            Some(u as i64)
        } else {
            None
        },
        JsonValue::Number(JsonNumber::NegInt(i)) => Some(i),
        _ => None,
    }
}

/// Text of the member `key` of `fields`, when that member is a string.
pub open spec fn spec_member_str(fields: Seq<(String, JsonValue)>, key: Seq<char>) -> Option<Seq<char>> {
    match spec_member(fields, key) {
        Some(v) => spec_as_str(v),
        None => None,
    }
}

/// The member of `fields` named `key`, the first one when there are several.
pub fn member<'a>(fields: &'a Vec<(String, JsonValue)>, key: &str) -> (v: Option<&'a JsonValue>)
    ensures
        match v {
            Some(v) => spec_member(fields@, key@) == Some(*v),
            None => spec_member(fields@, key@) is None,
        },
{
    let mut i: usize = 0;
    assert(fields@.subrange(0, fields@.len() as int) =~= fields@);
    while i < fields.len()
        invariant
            i <= fields@.len(),
            spec_member(fields@, key@) == spec_member(fields@.subrange(i as int, fields@.len() as int), key@),
        decreases fields@.len() - i,
    {
        let ghost rest = fields@.subrange(i as int, fields@.len() as int);
        assert(rest.drop_first() =~= fields@.subrange(i + 1, fields@.len() as int));
        if str_eq(fields[i].0.as_str(), key) {
            return Some(&fields[i].1);
        }
        i += 1;
    }
    None
}

impl JsonValue {
    /// Text of a string value.
    pub fn as_str(&self) -> (s: Option<&str>)
        ensures
            match s {
                Some(s) => spec_as_str(*self) == Some(s@),
                None => spec_as_str(*self) is None,
            },
    {
        match self {
            JsonValue::String(s) => Some(s.as_str()),
            _ => None,
        }
    }

    /// Value of an integer that fits into `i64`.
    pub fn as_i64(&self) -> (i: Option<i64>)
        ensures
            i == spec_as_i64(*self),
    {
        match self {
            JsonValue::Number(JsonNumber::PosInt(u)) => if *u <= 0x7fff_ffff_ffff_ffffu64 {
                Some(*u as i64)
            } else {
                None
            },
            JsonValue::Number(JsonNumber::NegInt(i)) => Some(*i),
            _ => None,
        }
    }
}

/// Text of the member `key` of `fields`, when that member is a string.
pub fn member_str<'a>(fields: &'a Vec<(String, JsonValue)>, key: &str) -> (s: Option<&'a str>)
    ensures
        match s {
            Some(s) => spec_member_str(fields@, key@) == Some(s@),
            None => spec_member_str(fields@, key@) is None,
        },
{
    match member(fields, key) {
        Some(v) => v.as_str(),
        None => None,
    }
}

} // verus!
