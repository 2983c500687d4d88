//! The traits of the types that are written as JSON and read from it.
//!
//! A type that implements [`ToJson`] says, for each of its values, which JSON
//! value writes it. A type that implements [`FromJson`] says, for every JSON
//! value, what is read from it or which fault is reported, and proves that
//! what was written is read back. Both speak of a value through its view.

use crate::codec::{
    bool_value, i64_value, integer_json, lemma_integer_round_trip, optional, read_bool, read_i64,
    read_text, read_u64, required, text_value, u64_value, write_i64, write_u64,
};
use crate::error::{shape_fault, Error, Fault};
use crate::json::{
    agrees, find, items_model, json_of_text, lemma_array_view, members_model, text_of_json, Json,
    JsonKind, JsonModel, Members, Mode,
};
use vstd::prelude::*;

verus! {

/// Implemented by the types that are written as JSON.
pub trait ToJson: View + Sized {
    /// The JSON value that writes a value of this type.
    spec fn json_of(model: Self::V) -> JsonModel;

    /// Writes the value as a JSON value.
    fn encode(&self) -> (json: Json)
        ensures
            json@ == Self::json_of(self@),
    ;

    /// Writes the value as JSON text.
    fn to_json(&self) -> (r: Result<String, Error>)
        ensures
            match r {
                Ok(text) => text_of_json(Self::json_of(self@)) == Some(text@),
                Err(e) => text_of_json(Self::json_of(self@)) is None && e@ == Fault::JSON,
            },
    {
        self.encode().to_text()
    }
}

/// Implemented by the types that are read from JSON.
pub trait FromJson: ToJson {
    /// What is read from a JSON value: a value of this type, or the first
    /// fault found.
    spec fn decoded(value: JsonModel, mode: Mode) -> Result<Self::V, Fault>;

    /// What holds of every value that is read: each identifier, URI and
    /// timestamp in it has a text that reads back as itself, and the parts
    /// that must agree do agree.
    spec fn valid(model: Self::V) -> bool;

    /// A valid value that was written is read back, in either mode; and it is
    /// never written as `null`, which stands for an absent value.
    proof fn lemma_round_trip(model: Self::V, mode: Mode)
        requires
            Self::valid(model),
        ensures
            Self::decoded(Self::json_of(model), mode) == Ok::<Self::V, Fault>(model),
            Self::json_of(model) != JsonModel::Null,
    ;

    /// Reads a value from a JSON value.
    fn decode(json: &Json, mode: Mode) -> (r: Result<Self, Error>)
        ensures
            agrees(r, Self::decoded(json@, mode)),
            r matches Ok(value) ==> Self::valid(value@),
    ;

    /// Reads a value from JSON text.
    fn from_json(text: &str, mode: Mode) -> (r: Result<Self, Error>)
        ensures
            match json_of_text(text@) {
                Some(value) => agrees(r, Self::decoded(value, mode)),
                None => r matches Err(e) && e@ == Fault::JSON,
            },
            r matches Ok(value) ==> Self::valid(value@),
    {
        let json = Json::parse(text)?;
        Self::decode(&json, mode)
    }
}

/// The views of the items of a list.
pub open spec fn models<T: View>(items: Seq<T>) -> Seq<T::V> {
    Seq::new(items.len(), |i: int| items[i]@)
}

/// The view of a value that may be absent.
pub open spec fn option_model<T: View>(item: Option<T>) -> Option<T::V> {
    match item {
        Some(value) => Some(value@),
        None => None,
    }
}

/// The value of a key that must be there.
pub open spec fn field<T: FromJson>(members: Members, key: Seq<char>, mode: Mode) -> Result<
    T::V,
    Fault,
> {
    match required(members, key) {
        Ok(value) => T::decoded(value, mode),
        Err(fault) => Err(fault),
    }
}

/// The value of a key that may be absent or hold `null`.
pub open spec fn optional_field<T: FromJson>(
    members: Members,
    key: Seq<char>,
    mode: Mode,
) -> Result<Option<T::V>, Fault> {
    match optional(members, key) {
        None => Ok(None),
        Some(value) => match T::decoded(value, mode) {
            Ok(found) => Ok(Some(found)),
            Err(fault) => Err(fault),
        },
    }
}

/// The JSON value of a value that may be absent: `null` if it is.
pub open spec fn optional_json<T: ToJson>(model: Option<T::V>) -> JsonModel {
    match model {
        Some(value) => T::json_of(value),
        None => JsonModel::Null,
    }
}

/// What is read from the items of an array: every item in order, or the
/// fault of the first item that has one.
pub open spec fn items_decoded<T: FromJson>(items: Seq<JsonModel>, mode: Mode) -> Result<
    Seq<T::V>,
    Fault,
>
    decreases items.len(),
{
    if items.len() == 0 {
        Ok(Seq::empty())
    } else {
        match items_decoded::<T>(items.drop_last(), mode) {
            Err(fault) => Err(fault),
            Ok(front) => match T::decoded(items.last(), mode) {
                Err(fault) => Err(fault),
                Ok(last) => Ok(front.push(last)),
            },
        }
    }
}

/// What is read from a JSON array.
pub open spec fn list_decoded<T: FromJson>(value: JsonModel, mode: Mode) -> Result<
    Seq<T::V>,
    Fault,
> {
    match value {
        JsonModel::Array(items) => items_decoded::<T>(items, mode),
        _ => Err(shape_fault(JsonKind::Array)),
    }
}

/// The list of a key that must be there.
pub open spec fn list_field<T: FromJson>(members: Members, key: Seq<char>, mode: Mode) -> Result<
    Seq<T::V>,
    Fault,
> {
    match required(members, key) {
        Ok(value) => list_decoded::<T>(value, mode),
        Err(fault) => Err(fault),
    }
}

/// The JSON array of a list.
pub open spec fn list_json<T: ToJson>(list: Seq<T::V>) -> JsonModel {
    JsonModel::Array(Seq::new(list.len(), |i: int| T::json_of(list[i])))
}

/// Tells whether every item of a list is valid.
pub open spec fn all_valid<T: FromJson>(list: Seq<T::V>) -> bool {
    forall|i: int| 0 <= i < list.len() ==> T::valid(#[trigger] list[i])
}

/// Tells whether a value that may be absent is valid if it is there.
pub open spec fn valid_if_some<T: FromJson>(model: Option<T::V>) -> bool {
    match model {
        Some(value) => T::valid(value),
        None => true,
    }
}

/// Where a prefix of the items has a fault, the whole has that fault.
pub proof fn lemma_items_fault<T: FromJson>(items: Seq<JsonModel>, upto: int, mode: Mode)
    requires
        0 <= upto <= items.len(),
        items_decoded::<T>(items.take(upto), mode) is Err,
    ensures
        items_decoded::<T>(items, mode) == items_decoded::<T>(items.take(upto), mode),
    decreases items.len(),
{
    if upto < items.len() {
        assert(items.drop_last().take(upto) =~= items.take(upto));
        lemma_items_fault::<T>(items.drop_last(), upto, mode);
    } else {
        assert(items.take(upto) =~= items);
    }
}

/// A list of valid items that was written is read back.
pub proof fn lemma_list_round_trip<T: FromJson>(list: Seq<T::V>, mode: Mode)
    requires
        all_valid::<T>(list),
    ensures
        list_decoded::<T>(list_json::<T>(list), mode) == Ok::<Seq<T::V>, Fault>(list),
    decreases list.len(),
{
    let items = list_json::<T>(list)->Array_0;
    if list.len() == 0 {
        assert(list =~= Seq::<T::V>::empty());
    } else {
        let front = list.drop_last();
        let front_items = list_json::<T>(front)->Array_0;
        assert(items.drop_last() =~= front_items);
        assert(all_valid::<T>(front)) by {
            assert forall|i: int| 0 <= i < front.len() implies T::valid(#[trigger] front[i]) by {
                assert(front[i] == list[i]);
            }
        }
        lemma_list_round_trip::<T>(front, mode);
        assert(items.last() == T::json_of(list.last()));
        T::lemma_round_trip(list.last(), mode);
        assert(front.push(list.last()) =~= list);
    }
}

/// A value that may be absent and was written under a key is read back.
pub proof fn lemma_optional_round_trip<T: FromJson>(model: Option<T::V>, mode: Mode)
    requires
        valid_if_some::<T>(model),
    ensures
        match optional_json::<T>(model) {
            JsonModel::Null => model is None,
            value => T::decoded(value, mode) == Ok::<T::V, Fault>(model.unwrap()),
        },
{
    match model {
        Some(value) => T::lemma_round_trip(value, mode),
        None => {},
    }
}

/// Reads the value of a key that must be there.
pub fn read_field<T: FromJson>(members: &Vec<(String, Json)>, key: &'static str, mode: Mode) -> (r:
    Result<T, Error>)
    ensures
        agrees(r, field::<T>(members_model(members@), key@, mode)),
        r matches Ok(value) ==> T::valid(value@),
{
    match find(members, key) {
        Some(json) => T::decode(json, mode),
        None => Err(Error::missing(key)),
    }
}

/// Reads the value of a key that may be absent or hold `null`.
pub fn read_optional<T: FromJson>(
    members: &Vec<(String, Json)>,
    key: &'static str,
    mode: Mode,
) -> (r: Result<Option<T>, Error>)
    ensures
        match optional_field::<T>(members_model(members@), key@, mode) {
            Ok(found) => r matches Ok(value) && option_model(value) == found,
            Err(fault) => r matches Err(e) && e@ == fault,
        },
        r matches Ok(value) ==> valid_if_some::<T>(option_model(value)),
{
    match find(members, key) {
        None => Ok(None),
        Some(Json::Null) => Ok(None),
        Some(json) => Ok(Some(T::decode(json, mode)?)),
    }
}

/// Reads a JSON array.
pub fn read_list<T: FromJson>(json: &Json, mode: Mode) -> (r: Result<Vec<T>, Error>)
    ensures
        match list_decoded::<T>(json@, mode) {
            Ok(list) => r matches Ok(value) && models(value@) == list,
            Err(fault) => r matches Err(e) && e@ == fault,
        },
        r matches Ok(value) ==> all_valid::<T>(models(value@)),
{
    match json {
        Json::Array(items) => {
            proof {
                lemma_array_view(*items);
            }
            let ghost all = items_model(items@);
            let mut list: Vec<T> = Vec::new();
            let mut i: usize = 0;
            assert(all.take(0) =~= Seq::<JsonModel>::empty());
            assert(models(list@) =~= Seq::<T::V>::empty());
            while i < items.len()
                invariant
                    i <= items.len(),
                    all == items_model(items@),
                    json@ == JsonModel::Array(all),
                    items_decoded::<T>(all.take(i as int), mode) == Ok::<Seq<T::V>, Fault>(
                        models(list@),
                    ),
                    all_valid::<T>(models(list@)),
                decreases items.len() - i,
            {
                proof {
                    assert(all.take(i + 1).drop_last() =~= all.take(i as int));
                    assert(all.take(i + 1).last() == items@[i as int]@);
                }
                match T::decode(&items[i], mode) {
                    Ok(item) => {
                        proof {
                            assert(models(list@.push(item)) =~= models(list@).push(item@));
                        }
                        list.push(item);
                    },
                    Err(e) => {
                        proof {
                            lemma_items_fault::<T>(all, i + 1, mode);
                        }
                        return Err(e);
                    },
                }
                i = i + 1;
            }
            assert(all.take(all.len() as int) =~= all);
            Ok(list)
        },
        _ => Err(Error::shape(JsonKind::Array)),
    }
}

/// Reads the list of a key that must be there.
pub fn read_list_field<T: FromJson>(
    members: &Vec<(String, Json)>,
    key: &'static str,
    mode: Mode,
) -> (r: Result<Vec<T>, Error>)
    ensures
        match list_field::<T>(members_model(members@), key@, mode) {
            Ok(list) => r matches Ok(value) && models(value@) == list,
            Err(fault) => r matches Err(e) && e@ == fault,
        },
        r matches Ok(value) ==> all_valid::<T>(models(value@)),
{
    match find(members, key) {
        Some(json) => read_list::<T>(json, mode),
        None => Err(Error::missing(key)),
    }
}

/// Writes a value that may be absent: `null` if it is.
pub fn write_optional<T: ToJson>(item: &Option<T>) -> (json: Json)
    ensures
        json@ == optional_json::<T>(option_model(*item)),
{
    match item {
        Some(value) => value.encode(),
        None => Json::Null,
    }
}

/// Writes a list as a JSON array.
pub fn write_list<T: ToJson>(list: &Vec<T>) -> (json: Json)
    ensures
        json@ == list_json::<T>(models(list@)),
{
    let mut items: Vec<Json> = Vec::new();
    let mut i: usize = 0;
    while i < list.len()
        invariant
            i <= list.len(),
            items@.len() == i,
            forall|j: int| 0 <= j < i ==> (#[trigger] items@[j])@ == T::json_of(list@[j]@),
        decreases list.len() - i,
    {
        items.push(list[i].encode());
        i = i + 1;
    }
    proof {
        lemma_array_view(items);
        assert(items_model(items@) =~= list_json::<T>(models(list@))->Array_0);
    }
    Json::Array(items)
}

impl ToJson for String {
    open spec fn json_of(model: Seq<char>) -> JsonModel {
        JsonModel::Text(model)
    }

    fn encode(&self) -> (json: Json) {
        Json::Text(self.clone())
    }
}

impl FromJson for String {
    open spec fn decoded(value: JsonModel, mode: Mode) -> Result<Seq<char>, Fault> {
        text_value(value)
    }

    open spec fn valid(model: Seq<char>) -> bool {
        true
    }

    proof fn lemma_round_trip(model: Seq<char>, mode: Mode) {
    }

    fn decode(json: &Json, mode: Mode) -> (r: Result<String, Error>) {
        let r = read_text(json);
        assert(forall|text: String| Self::valid(text@));
        r
    }
}

impl ToJson for bool {
    open spec fn json_of(model: bool) -> JsonModel {
        JsonModel::Bool(model)
    }

    fn encode(&self) -> (json: Json) {
        Json::Bool(*self)
    }
}

impl FromJson for bool {
    open spec fn decoded(value: JsonModel, mode: Mode) -> Result<bool, Fault> {
        bool_value(value)
    }

    open spec fn valid(model: bool) -> bool {
        true
    }

    proof fn lemma_round_trip(model: bool, mode: Mode) {
    }

    fn decode(json: &Json, mode: Mode) -> (r: Result<bool, Error>) {
        let r = read_bool(json);
        assert(forall|b: bool| Self::valid(b));
        r
    }
}

impl ToJson for u64 {
    open spec fn json_of(model: u64) -> JsonModel {
        integer_json(model as int)
    }

    fn encode(&self) -> (json: Json) {
        write_u64(*self)
    }
}

impl FromJson for u64 {
    open spec fn decoded(value: JsonModel, mode: Mode) -> Result<u64, Fault> {
        u64_value(value)
    }

    open spec fn valid(model: u64) -> bool {
        true
    }

    proof fn lemma_round_trip(model: u64, mode: Mode) {
        lemma_integer_round_trip(model as int);
    }

    fn decode(json: &Json, mode: Mode) -> (r: Result<u64, Error>) {
        let r = read_u64(json);
        assert(forall|n: u64| Self::valid(n));
        r
    }
}

impl ToJson for i64 {
    open spec fn json_of(model: i64) -> JsonModel {
        integer_json(model as int)
    }

    fn encode(&self) -> (json: Json) {
        write_i64(*self)
    }
}

impl FromJson for i64 {
    open spec fn decoded(value: JsonModel, mode: Mode) -> Result<i64, Fault> {
        i64_value(value)
    }

    open spec fn valid(model: i64) -> bool {
        true
    }

    proof fn lemma_round_trip(model: i64, mode: Mode) {
        lemma_integer_round_trip(model as int);
    }

    fn decode(json: &Json, mode: Mode) -> (r: Result<i64, Error>) {
        let r = read_i64(json);
        assert(forall|n: i64| Self::valid(n));
        r
    }
}

} // verus!
