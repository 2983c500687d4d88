//! Reading and writing the plain values that records are made of.
//!
//! Every reader comes with a specification over [`JsonModel`] that says, for
//! every JSON value, what is read or which fault is reported; every writer
//! says which value it builds. Integers are JSON numbers whose literal reads
//! as a decimal integer; they are never taken through a float.

use crate::error::{parse_fault, shape_fault, Error, Fault, ParseKind, ParseReason};
use crate::json::{
    agrees, find, lemma_object_view, lookup, members_model, object, Json, JsonKind, JsonModel,
    Members,
};
use crate::model::decimal::{lemma_text_round_trip, parsed, text_of, Decimal};
use vstd::prelude::*;

verus! {

/// The value of a key that must be there.
pub open spec fn required(members: Members, key: Seq<char>) -> Result<JsonModel, Fault> {
    match lookup(members, key) {
        Some(value) => Ok(value),
        None => Err(Fault::MissingField { field: key }),
    }
}

/// The value of a key that may be absent; `null` counts as absent.
pub open spec fn optional(members: Members, key: Seq<char>) -> Option<JsonModel> {
    match lookup(members, key) {
        Some(JsonModel::Null) => None,
        other => other,
    }
}

/// The characters of a JSON string.
pub open spec fn text_value(value: JsonModel) -> Result<Seq<char>, Fault> {
    match value {
        JsonModel::Text(text) => Ok(text),
        _ => Err(shape_fault(JsonKind::Text)),
    }
}

/// The truth value of a JSON boolean.
pub open spec fn bool_value(value: JsonModel) -> Result<bool, Fault> {
    match value {
        JsonModel::Bool(b) => Ok(b),
        _ => Err(shape_fault(JsonKind::Bool)),
    }
}

/// The integer that a JSON number writes.
pub open spec fn integer_value(value: JsonModel) -> Result<int, Fault> {
    match value {
        JsonModel::Number(literal) => match parsed(literal) {
            Ok(n) => Ok(n),
            Err(_) => Err(parse_fault(ParseKind::Integer)),
        },
        _ => Err(shape_fault(JsonKind::Number)),
    }
}

/// The `u64` that a JSON number writes.
pub open spec fn u64_value(value: JsonModel) -> Result<u64, Fault> {
    match integer_value(value) {
        Ok(n) => if 0 <= n <= u64::MAX {
            Ok(n as u64)
        } else {
            Err(parse_fault(ParseKind::Integer))
        },
        Err(fault) => Err(fault),
    }
}

/// The `i64` that a JSON number writes.
pub open spec fn i64_value(value: JsonModel) -> Result<i64, Fault> {
    match integer_value(value) {
        Ok(n) => if i64::MIN <= n <= i64::MAX {
            Ok(n as i64)
        } else {
            Err(parse_fault(ParseKind::Integer))
        },
        Err(fault) => Err(fault),
    }
}

/// The JSON number that writes an integer.
pub open spec fn integer_json(n: int) -> JsonModel {
    JsonModel::Number(text_of(n))
}

/// Looks up a key that must be there.
pub fn require<'a>(members: &'a Vec<(String, Json)>, key: &'static str) -> (r: Result<
    &'a Json,
    Error,
>)
    ensures
        match required(members_model(members@), key@) {
            Ok(value) => r matches Ok(json) && json@ == value,
            Err(fault) => r matches Err(e) && e@ == fault,
        },
{
    match find(members, key) {
        Some(json) => Ok(json),
        None => Err(Error::missing(key)),
    }
}

/// Looks up a key that may be absent; `null` counts as absent.
pub fn permit<'a>(members: &'a Vec<(String, Json)>, key: &'static str) -> (r: Option<&'a Json>)
    ensures
        match optional(members_model(members@), key@) {
            Some(value) => r matches Some(json) && json@ == value,
            None => r is None,
        },
{
    match find(members, key) {
        Some(Json::Null) => None,
        other => other,
    }
}

/// Reads a JSON string.
pub fn read_text(json: &Json) -> (r: Result<String, Error>)
    ensures
        agrees(r, text_value(json@)),
{
    match json {
        Json::Text(text) => Ok(text.clone()),
        _ => Err(Error::shape(JsonKind::Text)),
    }
}

/// Reads a JSON boolean.
pub fn read_bool(json: &Json) -> (r: Result<bool, Error>)
    ensures
        agrees(r, bool_value(json@)),
{
    match json {
        Json::Bool(b) => Ok(*b),
        _ => Err(Error::shape(JsonKind::Bool)),
    }
}

/// Reads the integer that a JSON number writes.
pub fn read_integer(json: &Json) -> (r: Result<Decimal, Error>)
    ensures
        agrees(r, integer_value(json@)),
{
    match json {
        Json::Number(literal) => match Decimal::from_str(literal.as_str()) {
            Ok(n) => Ok(n),
            Err(_) => Err(Error::ParseError { reason: ParseReason::Integer }),
        },
        _ => Err(Error::shape(JsonKind::Number)),
    }
}

/// Reads a JSON number as a `u64`.
pub fn read_u64(json: &Json) -> (r: Result<u64, Error>)
    ensures
        agrees(r, u64_value(json@)),
{
    match read_integer(json) {
        Ok(n) => match n.to_u64() {
            Some(small) => Ok(small),
            None => Err(Error::ParseError { reason: ParseReason::Integer }),
        },
        Err(e) => Err(e),
    }
}

/// Reads a JSON number as an `i64`.
pub fn read_i64(json: &Json) -> (r: Result<i64, Error>)
    ensures
        agrees(r, i64_value(json@)),
{
    match read_integer(json) {
        Ok(n) => match n.to_i64() {
            Some(small) => Ok(small),
            None => Err(Error::ParseError { reason: ParseReason::Integer }),
        },
        Err(e) => Err(e),
    }
}

/// Writes a `u64` as a JSON number.
pub fn write_u64(n: u64) -> (json: Json)
    ensures
        json@ == integer_json(n as int),
{
    Json::Number(Decimal::from_u64(n).to_string())
}

/// Writes an `i64` as a JSON number.
pub fn write_i64(n: i64) -> (json: Json)
    ensures
        json@ == integer_json(n as int),
{
    Json::Number(Decimal::from_i64(n).to_string())
}

/// The object with the one member `tag`: the form in which a variant with a
/// payload is written.
pub open spec fn tagged(tag: Seq<char>, value: JsonModel) -> JsonModel {
    JsonModel::Object(seq![(tag, value)])
}

/// The one member of an object that holds exactly one.
pub open spec fn untagged(value: JsonModel) -> Result<(Seq<char>, JsonModel), Fault> {
    match value {
        JsonModel::Object(members) => if members.len() == 1 {
            Ok(members[0])
        } else {
            Err(parse_fault(ParseKind::Tag))
        },
        _ => Err(shape_fault(JsonKind::Object)),
    }
}

/// The payload of a value that must carry the tag `tag`: another tag is the
/// fault of an event that is not the one announced.
pub open spec fn expected(value: JsonModel, tag: Seq<char>) -> Result<JsonModel, Fault> {
    match untagged(value) {
        Err(fault) => Err(fault),
        Ok(found) => if found.0 == tag {
            Ok(found.1)
        } else {
            Err(parse_fault(ParseKind::Event))
        },
    }
}

/// Writes a payload under its tag.
pub fn tag(name: &'static str, value: Json) -> (json: Json)
    ensures
        json@ == tagged(name@, value@),
{
    let mut members: Vec<(String, Json)> = Vec::new();
    members.push(member(name, value));
    assert(members_model(members@) =~= seq![(name@, value@)]);
    object(members)
}

/// Takes the tag and the payload out of an object with one member.
pub fn untag<'a>(json: &'a Json) -> (r: Result<(&'a String, &'a Json), Error>)
    ensures
        match untagged(json@) {
            Ok(found) => r matches Ok(pair) && pair.0@ == found.0 && pair.1@ == found.1,
            Err(fault) => r matches Err(e) && e@ == fault,
        },
{
    match json {
        Json::Object(members) => {
            proof {
                lemma_object_view(*members);
            }
            if members.len() == 1 {
                Ok((&members[0].0, &members[0].1))
            } else {
                Err(Error::ParseError { reason: ParseReason::Tag })
            }
        },
        _ => Err(Error::shape(JsonKind::Object)),
    }
}

/// Takes the payload out of an object that must carry the tag `name`.
pub fn expect<'a>(json: &'a Json, name: &'static str) -> (r: Result<&'a Json, Error>)
    ensures
        match expected(json@, name@) {
            Ok(inner) => r matches Ok(found) && found@ == inner,
            Err(fault) => r matches Err(e) && e@ == fault,
        },
{
    let pair = untag(json)?;
    if same_text(pair.0.as_str(), name) {
        Ok(pair.1)
    } else {
        Err(Error::ParseError { reason: ParseReason::Event })
    }
}

/// Tells whether two texts hold the same characters.
pub fn same_text(a: &str, b: &str) -> (same: bool)
    ensures
        same == (a@ == b@),
{
    a.to_owned() == b.to_owned()
}

/// Pairs a key with its value, as one member of an object.
pub fn member(key: &'static str, value: Json) -> (m: (String, Json))
    ensures
        m.0@ == key@,
        m.1 == value,
{
    (key.to_owned(), value)
}

/// An integer that was written as a JSON number is read back.
pub proof fn lemma_integer_round_trip(n: int)
    ensures
        integer_value(integer_json(n)) == Ok::<int, Fault>(n),
{
    lemma_text_round_trip(n);
}

} // verus!
