//! JSON values, their text form, and the lookups that records are read with.
//!
//! A [`Json`] is a JSON document held as plain data: the members of an object
//! stay in document order and a number is held as text, digit for digit, so
//! that no amount is rounded between the wire and the typed models. Contracts
//! speak of a document through its view, a [`JsonModel`].

use crate::error::{Error, Fault};
use vstd::prelude::*;

verus! {

/// `serde_json::Value`, the tree that the JSON reader builds and the JSON
/// writer takes. What a tree holds is named [`tree_model`].
#[verifier::external_type_specification]
#[verifier::external_body]
pub struct ExJsonTree(serde_json::Value);

/// The six kinds of JSON value.
#[derive(Clone, Copy, Debug, PartialEq, Eq, Structural)]
pub enum JsonKind {
    Null,
    Bool,
    Number,
    Text,
    Array,
    Object,
}

/// Whether keys that a record does not know are tolerated.
#[derive(Clone, Copy, Debug, PartialEq, Eq, Structural)]
pub enum Mode {
    /// Unknown keys are skipped.
    Lenient,
    /// An unknown key is an error.
    Strict,
}

/// A JSON value.
#[derive(Debug, PartialEq, Eq)]
pub enum Json {
    Null,
    Bool(bool),
    /// A number, as its text: every digit of the literal, with an exponent
    /// written as `e` and its sign.
    Number(String),
    Text(String),
    Array(Vec<Json>),
    /// An object, as its members in document order.
    Object(Vec<(String, Json)>),
}

/// A JSON value as contracts see it.
pub ghost enum JsonModel {
    Null,
    Bool(bool),
    Number(Seq<char>),
    Text(Seq<char>),
    Array(Seq<JsonModel>),
    Object(Seq<(Seq<char>, JsonModel)>),
}

/// The members of an object as contracts see them.
pub type Members = Seq<(Seq<char>, JsonModel)>;

/// The value that a document holds.
pub open spec fn model_of(json: Json) -> JsonModel
    decreases json,
{
    match json {
        Json::Null => JsonModel::Null,
        Json::Bool(b) => JsonModel::Bool(b),
        Json::Number(n) => JsonModel::Number(n@),
        Json::Text(t) => JsonModel::Text(t@),
        Json::Array(items) => JsonModel::Array(
            Seq::new(
                items@.len(),
                |i: int|
                    if 0 <= i < items.len() {
                        model_of(items[i])
                    } else {
                        JsonModel::Null
                    },
            ),
        ),
        Json::Object(members) => JsonModel::Object(
            Seq::new(
                members@.len(),
                |i: int|
                    if 0 <= i < members.len() {
                        (members[i].0@, model_of(members[i].1))
                    } else {
                        (Seq::empty(), JsonModel::Null)
                    },
            ),
        ),
    }
}

impl View for Json {
    type V = JsonModel;

    open spec fn view(&self) -> JsonModel {
        model_of(*self)
    }
}

impl JsonModel {
    /// The kind of the value.
    pub open spec fn kind(self) -> JsonKind {
        match self {
            JsonModel::Null => JsonKind::Null,
            JsonModel::Bool(_) => JsonKind::Bool,
            JsonModel::Number(_) => JsonKind::Number,
            JsonModel::Text(_) => JsonKind::Text,
            JsonModel::Array(_) => JsonKind::Array,
            JsonModel::Object(_) => JsonKind::Object,
        }
    }
}

/// The value of the first member named `key`, if there is one.
pub open spec fn lookup(members: Members, key: Seq<char>) -> Option<JsonModel>
    decreases members.len(),
{
    if members.len() == 0 {
        None
    } else if members[0].0 == key {
        Some(members[0].1)
    } else {
        lookup(members.skip(1), key)
    }
}

/// The first key, in document order, that is none of `known`.
pub open spec fn first_unknown(members: Members, known: Seq<Seq<char>>) -> Option<Seq<char>>
    decreases members.len(),
{
    if members.len() == 0 {
        None
    } else if !known.contains(members[0].0) {
        Some(members[0].0)
    } else {
        first_unknown(members.skip(1), known)
    }
}

/// What reading a record finds before it looks at any field: the members of
/// the object, unless the value is no object or, in strict mode, holds a key
/// that the record does not know.
pub open spec fn opened(value: JsonModel, known: Seq<Seq<char>>, mode: Mode) -> Result<
    Members,
    Fault,
> {
    match value {
        JsonModel::Object(members) => match first_unknown(members, known) {
            Some(field) if mode == Mode::Strict => Err(Fault::UnknownField { field }),
            _ => Ok(members),
        },
        _ => Err(crate::error::shape_fault(JsonKind::Object)),
    }
}

/// Tells whether a result is the one that a specification gives, value and
/// error each taken by its view.
pub open spec fn agrees<T: View>(got: Result<T, Error>, expected: Result<T::V, Fault>) -> bool {
    match expected {
        Ok(value) => got matches Ok(v) && v@ == value,
        Err(fault) => got matches Err(e) && e@ == fault,
    }
}

/// The names of `keys` as contracts see them.
pub open spec fn names(keys: Seq<&'static str>) -> Seq<Seq<char>> {
    Seq::new(keys.len(), |i: int| keys[i]@)
}

/// The JSON value that a text stands for, if it is JSON.
pub uninterp spec fn json_of_text(text: Seq<char>) -> Option<JsonModel>;

/// The compact text of a JSON value, if it has one.
pub uninterp spec fn text_of_json(value: JsonModel) -> Option<Seq<char>>;

/// The JSON value that a `serde_json::Value` holds.
pub uninterp spec fn tree_model(tree: serde_json::Value) -> JsonModel;

/// `serde_json::from_str` at `serde_json::Value`. The contract names the
/// outcome [`json_of_text`]: the call fails exactly where the name is `None`,
/// and else returns a tree that holds the value that it names. An error comes
/// back as the message that its `Display` writes.
#[verifier::external_body]
fn parse_tree(text: &str) -> (r: Result<serde_json::Value, String>)
    ensures
        match r {
            Ok(tree) => json_of_text(text@) == Some(tree_model(tree)),
            Err(_) => json_of_text(text@) is None,
        },
{
    serde_json::from_str::<serde_json::Value>(text).map_err(|e| e.to_string())
}

/// Copies a `serde_json::Value` into a [`Json`], one variant for one: the
/// members of an object in the order that `Map::iter` yields them, a number
/// as the text that `Number::to_string` gives. The contract claims that the
/// copy holds what the tree holds.
#[verifier::external_body]
fn from_tree(tree: &serde_json::Value) -> (json: Json)
    ensures
        json@ == tree_model(*tree),
{
    match tree {
        serde_json::Value::Null => Json::Null,
        serde_json::Value::Bool(b) => Json::Bool(*b),
        serde_json::Value::Number(n) => Json::Number(n.to_string()),
        serde_json::Value::String(s) => Json::Text(s.clone()),
        serde_json::Value::Array(a) => Json::Array(a.iter().map(from_tree).collect()),
        serde_json::Value::Object(m) => Json::Object(
            m.iter().map(|(k, v)| (k.clone(), from_tree(v))).collect(),
        ),
    }
}

/// Copies a [`Json`] into a `serde_json::Value`, one variant for one; the text
/// of a number goes through `Number::from_str`, whose error is handed on as
/// its message. The contract names the outcome of writing the copy
/// [`text_of_json`]: where the copy cannot be made, the value has no text.
#[verifier::external_body]
fn to_tree(json: &Json) -> (r: Result<serde_json::Value, String>)
    ensures
        match r {
            Ok(tree) => text_of_json(tree_model(tree)) == text_of_json(json@),
            Err(_) => text_of_json(json@) is None,
        },
{
    Ok(match json {
        Json::Null => serde_json::Value::Null,
        Json::Bool(b) => serde_json::Value::Bool(*b),
        Json::Number(n) => serde_json::Value::Number(
            n.parse().map_err(|e: serde_json::Error| e.to_string())?,
        ),
        Json::Text(s) => serde_json::Value::String(s.clone()),
        Json::Array(a) => serde_json::Value::Array(a.iter().map(to_tree).collect::<Result<_, _>>()?),
        Json::Object(m) => serde_json::Value::Object(
            m.iter().map(|(k, v)| to_tree(v).map(|t| (k.clone(), t))).collect::<Result<_, _>>()?,
        ),
    })
}

/// `serde_json::to_string` on a `serde_json::Value`. The contract names the
/// outcome [`text_of_json`]: the call fails exactly where the name is `None`,
/// and else returns the text that it names. An error comes back as the
/// message that its `Display` writes.
#[verifier::external_body]
fn print_tree(tree: &serde_json::Value) -> (r: Result<String, String>)
    ensures
        match r {
            Ok(text) => text_of_json(tree_model(*tree)) == Some(text@),
            Err(_) => text_of_json(tree_model(*tree)) is None,
        },
{
    serde_json::to_string(tree).map_err(|e| e.to_string())
}

impl Json {
    /// Reads a JSON text.
    pub fn parse(text: &str) -> (r: Result<Json, Error>)
        ensures
            match r {
                Ok(json) => json_of_text(text@) == Some(json@),
                Err(e) => json_of_text(text@) is None && e@ == Fault::JSON,
            },
    {
        match parse_tree(text) {
            Ok(tree) => Ok(from_tree(&tree)),
            Err(message) => Err(Error::JSON { message }),
        }
    }

    /// Writes the value as compact JSON text.
    pub fn to_text(&self) -> (r: Result<String, Error>)
        ensures
            match r {
                Ok(text) => text_of_json(self@) == Some(text@),
                Err(e) => text_of_json(self@) is None && e@ == Fault::JSON,
            },
    {
        let tree = match to_tree(self) {
            Ok(tree) => tree,
            Err(message) => {
                return Err(Error::JSON { message });
            },
        };
        match print_tree(&tree) {
            Ok(text) => Ok(text),
            Err(message) => Err(Error::JSON { message }),
        }
    }

    /// The kind of the value.
    pub fn kind(&self) -> (k: JsonKind)
        ensures
            k == self@.kind(),
    {
        match self {
            Json::Null => JsonKind::Null,
            Json::Bool(_) => JsonKind::Bool,
            Json::Number(_) => JsonKind::Number,
            Json::Text(_) => JsonKind::Text,
            Json::Array(_) => JsonKind::Array,
            Json::Object(_) => JsonKind::Object,
        }
    }

    /// A JSON string with the characters of `text`.
    pub fn text(text: &str) -> (json: Json)
        ensures
            json@ == JsonModel::Text(text@),
    {
        Json::Text(text.to_owned())
    }
}

/// The members of an object as contracts see them.
pub open spec fn members_model(members: Seq<(String, Json)>) -> Members {
    Seq::new(members.len(), |i: int| (members[i].0@, members[i].1@))
}

/// The items of an array as contracts see them.
pub open spec fn items_model(items: Seq<Json>) -> Seq<JsonModel> {
    Seq::new(items.len(), |i: int| items[i]@)
}

/// States what the view of an array is.
pub proof fn lemma_array_view(items: Vec<Json>)
    ensures
        Json::Array(items)@ == JsonModel::Array(items_model(items@)),
{
    reveal_with_fuel(model_of, 2);
    let got = Json::Array(items)@;
    match got {
        JsonModel::Array(found) => {
            assert(found.len() == items@.len());
            assert(found =~= items_model(items@));
        },
        _ => {},
    }
}

/// States what the view of an object is.
pub proof fn lemma_object_view(members: Vec<(String, Json)>)
    ensures
        Json::Object(members)@ == JsonModel::Object(members_model(members@)),
{
    reveal_with_fuel(model_of, 2);
    let got = Json::Object(members)@;
    match got {
        JsonModel::Object(found) => {
            assert(found.len() == members@.len());
            assert(found =~= members_model(members@));
        },
        _ => {},
    }
}

/// Finds the value of the first member named `key`.
pub fn find<'a>(members: &'a Vec<(String, Json)>, key: &str) -> (r: Option<&'a Json>)
    ensures
        match r {
            Some(json) => lookup(members_model(members@), key@) == Some(json@),
            None => lookup(members_model(members@), key@) is None,
        },
{
    let wanted = key.to_owned();
    let ghost all = members_model(members@);
    let mut i: usize = 0;
    assert(all.skip(0) =~= all);
    while i < members.len()
        invariant
            i <= members.len(),
            wanted@ == key@,
            all == members_model(members@),
            lookup(all, key@) == lookup(all.skip(i as int), key@),
        decreases members.len() - i,
    {
        proof {
            assert(all.skip(i as int).skip(1) =~= all.skip(i + 1));
        }
        if members[i].0 == wanted {
            return Some(&members[i].1);
        }
        i = i + 1;
    }
    None
}

/// Tells whether `key` is one of `known`.
pub fn is_known(known: &Vec<&'static str>, key: &String) -> (r: bool)
    ensures
        r == names(known@).contains(key@),
{
    let mut i: usize = 0;
    while i < known.len()
        invariant
            i <= known.len(),
            forall|j: int| 0 <= j < i ==> names(known@)[j] != key@,
        decreases known.len() - i,
    {
        let candidate = known[i].to_owned();
        if candidate == *key {
            assert(names(known@)[i as int] == key@);
            return true;
        }
        i = i + 1;
    }
    false
}

/// Finds the first key, in document order, that is none of `known`.
pub fn unknown_key(members: &Vec<(String, Json)>, known: &Vec<&'static str>) -> (r: Option<
    String,
>)
    ensures
        match r {
            Some(key) => first_unknown(members_model(members@), names(known@)) == Some(key@),
            None => first_unknown(members_model(members@), names(known@)) is None,
        },
{
    let ghost all = members_model(members@);
    let mut i: usize = 0;
    assert(all.skip(0) =~= all);
    while i < members.len()
        invariant
            i <= members.len(),
            all == members_model(members@),
            first_unknown(all, names(known@)) == first_unknown(
                all.skip(i as int),
                names(known@),
            ),
        decreases members.len() - i,
    {
        proof {
            assert(all.skip(i as int).skip(1) =~= all.skip(i + 1));
        }
        if !is_known(known, &members[i].0) {
            return Some(members[i].0.clone());
        }
        i = i + 1;
    }
    None
}

/// Opens a record: hands out the members of the object `json`, after the
/// check for unknown keys that strict mode asks for.
pub fn open<'a>(json: &'a Json, known: &Vec<&'static str>, mode: Mode) -> (r: Result<
    &'a Vec<(String, Json)>,
    Error,
>)
    ensures
        match opened(json@, names(known@), mode) {
            Ok(members) => r matches Ok(m) && members_model(m@) == members,
            Err(fault) => r matches Err(e) && e@ == fault,
        },
{
    match json {
        Json::Object(members) => {
            proof {
                lemma_object_view(*members);
            }
            match mode {
                Mode::Strict => match unknown_key(members, known) {
                    Some(field) => Err(Error::UnknownField { field }),
                    None => Ok(members),
                },
                Mode::Lenient => Ok(members),
            }
        },
        _ => Err(Error::shape(JsonKind::Object)),
    }
}

/// Builds an object from its members.
pub fn object(members: Vec<(String, Json)>) -> (json: Json)
    ensures
        json@ == JsonModel::Object(members_model(members@)),
{
    proof {
        lemma_object_view(members);
    }
    Json::Object(members)
}

/// Where a key stands at `at` and nowhere before, its value is the one found.
pub proof fn lemma_lookup_at(members: Members, key: Seq<char>, at: int)
    requires
        0 <= at < members.len(),
        members[at].0 == key,
        forall|i: int| 0 <= i < at ==> (#[trigger] members[i]).0 != key,
    ensures
        lookup(members, key) == Some(members[at].1),
    decreases at,
{
    if at > 0 {
        let rest = members.skip(1);
        assert forall|i: int| 0 <= i < at - 1 implies (#[trigger] rest[i]).0 != key by {
            assert(rest[i] == members[i + 1]);
        }
        lemma_lookup_at(rest, key, at - 1);
    }
}

/// Where every key is known, no unknown key is found.
pub proof fn lemma_all_known(members: Members, known: Seq<Seq<char>>)
    requires
        forall|i: int| 0 <= i < members.len() ==> known.contains((#[trigger] members[i]).0),
    ensures
        first_unknown(members, known) is None,
    decreases members.len(),
{
    if members.len() > 0 {
        let rest = members.skip(1);
        assert forall|i: int| 0 <= i < rest.len() implies known.contains((#[trigger] rest[i]).0) by {
            assert(rest[i] == members[i + 1]);
        }
        lemma_all_known(rest, known);
    }
}

/// A member under another key does not change what a key is found with,
/// wherever it is put in.
pub proof fn lemma_lookup_insert(
    members: Members,
    at: int,
    extra: (Seq<char>, JsonModel),
    key: Seq<char>,
)
    requires
        0 <= at <= members.len(),
        extra.0 != key,
    ensures
        lookup(members.insert(at, extra), key) == lookup(members, key),
    decreases members.len(),
{
    let more = members.insert(at, extra);
    if at == 0 {
        assert(more.skip(1) =~= members);
    } else {
        assert(more[0] == members[0]);
        assert(more.skip(1) =~= members.skip(1).insert(at - 1, extra));
        lemma_lookup_insert(members.skip(1), at - 1, extra, key);
    }
}

/// Among known keys, a member that is put in under an unknown key is the
/// first unknown key, wherever it is put in.
pub proof fn lemma_unknown_insert(
    members: Members,
    at: int,
    extra: (Seq<char>, JsonModel),
    known: Seq<Seq<char>>,
)
    requires
        0 <= at <= members.len(),
        first_unknown(members, known) is None,
        !known.contains(extra.0),
    ensures
        first_unknown(members.insert(at, extra), known) == Some(extra.0),
    decreases members.len(),
{
    let more = members.insert(at, extra);
    if at > 0 {
        assert(more[0] == members[0]);
        assert(more.skip(1) =~= members.skip(1).insert(at - 1, extra));
        lemma_unknown_insert(members.skip(1), at - 1, extra, known);
    }
}

} // verus!
