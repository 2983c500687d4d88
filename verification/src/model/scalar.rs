//! Identifiers, URIs and timestamps.
//!
//! Each of these wraps what another crate parses and formats. A value holds
//! plain data: the 128 bits of a UUID, the text of a URI, the seconds and
//! nanoseconds of an instant. A URI and a timestamp are only ever built from
//! data whose text form reads back as the same value, and the text of a UUID
//! always does, so that writing a value and reading the text again is the
//! identity.

use crate::error::{parse_fault, shape_fault, Error, Fault, InvalidUri, ParseKind, ParseReason};
use crate::json::{agrees, Json, JsonKind, JsonModel, Mode};
use crate::model::traits::{FromJson, ToJson};
use vstd::prelude::*;

verus! {

/// The 128 bits that a text names as a UUID, if it is one.
pub uninterp spec fn uuid_of_text(text: Seq<char>) -> Option<u128>;

/// What a text is as a URI reference: `Some(true)` for a URI, `Some(false)`
/// for a relative reference, `None` where it breaks the grammar.
pub uninterp spec fn reference_of_text(text: Seq<char>) -> Option<bool>;

/// The instant that a text names, as seconds since the epoch and nanoseconds
/// since the last whole second, if it names one.
pub uninterp spec fn instant_of_text(text: Seq<char>) -> Option<(i64, u32)>;

/// The text of an instant, if the calendar can hold it.
pub uninterp spec fn text_of_instant(seconds: i64, nanos: u32) -> Option<Seq<char>>;

/// Sixteen to the power `n`.
pub open spec fn pow16(n: nat) -> nat
    decreases n,
{
    if n == 0 {
        1
    } else {
        16 * pow16((n - 1) as nat)
    }
}

/// The hexadecimal digit of `value` at `place`, where place 0 is the most
/// significant of the 32.
pub open spec fn hex_digit(value: u128, place: int) -> nat {
    ((value as nat) / pow16((31 - place) as nat)) % 16
}

/// The lower-case character of a hexadecimal digit.
pub open spec fn hex_char(digit: nat) -> char {
    if digit < 10 {
        ('0' as nat + digit) as char
    } else {
        ('a' as nat + digit - 10) as char
    }
}

/// The number of hyphens that stand before position `i` of the hyphenated
/// form.
pub open spec fn hyphens_before(i: int) -> int {
    if i < 8 {
        0
    } else if i < 13 {
        1
    } else if i < 18 {
        2
    } else if i < 23 {
        3
    } else {
        4
    }
}

/// The hyphenated form of a UUID: 32 lower-case hexadecimal digits in groups
/// of 8, 4, 4, 4 and 12.
pub open spec fn hyphenated(value: u128) -> Seq<char> {
    Seq::new(
        36,
        |i: int|
            if i == 8 || i == 13 || i == 18 || i == 23 {
                '-'
            } else {
                hex_char(hex_digit(value, i - hyphens_before(i)))
            },
    )
}

/// Tells whether the hyphenated form of `value` reads back as `value`.
pub open spec fn valid_uuid(value: u128) -> bool {
    uuid_of_text(hyphenated(value)) == Some(value)
}

/// Tells whether `text` is a URI.
pub open spec fn valid_uri(text: Seq<char>) -> bool {
    reference_of_text(text) == Some(true)
}

/// Tells whether a text ends with the `Z` that stands for UTC.
pub open spec fn ends_with_z(text: Seq<char>) -> bool {
    text.len() > 0 && text.last() == 'Z'
}

/// Tells whether the instant has a text that reads back as the same instant.
pub open spec fn valid_instant(seconds: i64, nanos: u32) -> bool {
    match text_of_instant(seconds, nanos) {
        Some(text) => instant_of_text(text) == Some((seconds, nanos)),
        None => false,
    }
}

/// `uuid::Uuid::parse_str`, the result taken through `Uuid::as_u128`. The
/// contract names the outcome [`uuid_of_text`], and claims that `parse_str`
/// reads the hyphenated form of what it returned as the same 128 bits; an
/// error comes back as the message that its `Display` writes.
#[verifier::external_body]
fn parse_uuid(text: &str) -> (r: Result<u128, String>)
    ensures
        match r {
            Ok(value) => uuid_of_text(text@) == Some(value) && valid_uuid(value),
            Err(_) => uuid_of_text(text@) is None,
        },
{
    match uuid::Uuid::parse_str(text) {
        Ok(id) => Ok(id.as_u128()),
        Err(e) => Err(e.to_string()),
    }
}

/// `uuid::Uuid::from_u128` and the `Display` of its `hyphenated` form. The
/// contract claims that the text is the lower-case hyphenated form, and that
/// `parse_str` reads that form back as the same 128 bits.
#[verifier::external_body]
fn format_uuid(value: u128) -> (text: String)
    ensures
        text@ == hyphenated(value),
        uuid_of_text(text@) == Some(value),
{
    uuid::Uuid::from_u128(value).hyphenated().to_string()
}

/// `uriparse::URIReference::try_from` on a text, then `is_uri` on what was
/// parsed. The contract names the outcome [`reference_of_text`].
#[verifier::external_body]
fn classify_reference(text: &str) -> (r: Result<bool, uriparse::URIReferenceError>)
    ensures
        match r {
            Ok(absolute) => reference_of_text(text@) == Some(absolute),
            Err(_) => reference_of_text(text@) is None,
        },
{
    uriparse::URIReference::try_from(text).map(|reference| reference.is_uri())
}

/// `str::parse` at `chrono::DateTime<chrono::Utc>`, the result taken through
/// `timestamp` and `timestamp_subsec_nanos`. The contract names the outcome
/// [`instant_of_text`].
#[verifier::external_body]
fn parse_instant(text: &str) -> (r: Result<(i64, u32), chrono::ParseError>)
    ensures
        match r {
            Ok(instant) => instant_of_text(text@) == Some(instant),
            Err(_) => instant_of_text(text@) is None,
        },
{
    text.parse::<chrono::DateTime<chrono::Utc>>().map(
        |instant| (instant.timestamp(), instant.timestamp_subsec_nanos()),
    )
}

/// `chrono::DateTime::from_timestamp`, then `to_rfc3339_opts` with automatic
/// sub-second digits and `Z` for the offset. The contract names the outcome
/// [`text_of_instant`], which is `None` where `from_timestamp` is, and claims
/// that the text ends with the `Z` that stands for UTC.
#[verifier::external_body]
fn format_instant(seconds: i64, nanos: u32) -> (r: Option<String>)
    ensures
        match r {
            Some(text) => text_of_instant(seconds, nanos) == Some(text@) && ends_with_z(text@),
            None => text_of_instant(seconds, nanos) is None,
        },
{
    chrono::DateTime::from_timestamp(seconds, nanos).map(
        |instant| instant.to_rfc3339_opts(chrono::SecondsFormat::AutoSi, true),
    )
}

/// A UUID of any version.
#[derive(Clone, Copy, Debug, PartialEq, Eq, Hash)]
pub struct Uuid {
    value: u128,
}

impl View for Uuid {
    type V = u128;

    closed spec fn view(&self) -> u128 {
        self.value
    }
}

impl Uuid {
    /// The UUID with the bits `value`.
    pub fn from_u128(value: u128) -> (id: Uuid)
        ensures
            id@ == value,
    {
        Uuid { value }
    }

    /// The 128 bits of the identifier.
    pub fn as_u128(&self) -> (value: u128)
        ensures
            value == self@,
    {
        self.value
    }

    /// Reads a UUID from any of its text forms.
    pub fn from_str(s: &str) -> (r: Result<Uuid, Error>)
        ensures
            agrees(r, uuid_read(s@)),
            r matches Ok(id) ==> valid_uuid(id@),
    {
        match parse_uuid(s) {
            Ok(value) => Ok(Uuid { value }),
            Err(message) => Err(Error::ParseError { reason: ParseReason::Uuid { message } }),
        }
    }

    /// Writes the hyphenated form, in lower case.
    pub fn to_string(&self) -> (text: String)
        ensures
            text@ == hyphenated(self@),
            valid_uuid(self@),
            uuid_read(text@) == Ok::<u128, Fault>(self@),
    {
        format_uuid(self.value)
    }
}

/// What reading a text as a UUID gives.
pub open spec fn uuid_read(text: Seq<char>) -> Result<u128, Fault> {
    match uuid_of_text(text) {
        Some(value) => Ok(value),
        None => Err(parse_fault(ParseKind::Uuid)),
    }
}

/// What reading a JSON value as a UUID gives.
pub open spec fn uuid_value(value: JsonModel) -> Result<u128, Fault> {
    match value {
        JsonModel::Text(text) => uuid_read(text),
        _ => Err(shape_fault(JsonKind::Text)),
    }
}

/// The JSON string of a UUID.
pub open spec fn uuid_json(value: u128) -> JsonModel {
    JsonModel::Text(hyphenated(value))
}

/// A UUID that was written is read back, as text and as JSON.
pub proof fn lemma_uuid_round_trip(value: u128)
    requires
        valid_uuid(value),
    ensures
        uuid_read(hyphenated(value)) == Ok::<u128, Fault>(value),
        uuid_value(uuid_json(value)) == Ok::<u128, Fault>(value),
{
}

/// An RFC 3986 URI.
#[derive(Debug, PartialEq, Eq, Hash)]
pub struct Uri {
    text: String,
}

impl Clone for Uri {
    fn clone(&self) -> (copy: Self)
        ensures
            copy@ == self@,
    {
        proof {
            use_type_invariant(self);
        }
        Uri { text: self.text.clone() }
    }
}

impl View for Uri {
    type V = Seq<char>;

    closed spec fn view(&self) -> Seq<char> {
        self.text@
    }
}

/// What reading a text as a URI gives: the text itself, if it is a URI.
pub open spec fn uri_read(text: Seq<char>) -> Result<Seq<char>, Fault> {
    if valid_uri(text) {
        Ok(text)
    } else {
        Err(Fault::InvalidURI)
    }
}

/// What reading a JSON value as a URI gives.
pub open spec fn uri_value(value: JsonModel) -> Result<Seq<char>, Fault> {
    match value {
        JsonModel::Text(text) => uri_read(text),
        _ => Err(shape_fault(JsonKind::Text)),
    }
}

/// The JSON string of a URI.
pub open spec fn uri_json(text: Seq<char>) -> JsonModel {
    JsonModel::Text(text)
}

impl Uri {
    /// The text is a URI.
    #[verifier::type_invariant]
    pub closed spec fn well_formed(&self) -> bool {
        valid_uri(self.text@)
    }

    /// Reads a URI. The text must name a scheme: a relative reference is
    /// refused like a text that breaks the grammar.
    pub fn from_str(s: &str) -> (r: Result<Uri, Error>)
        ensures
            agrees(r, uri_read(s@)),
            r matches Ok(uri) ==> valid_uri(uri@),
    {
        match classify_reference(s) {
            Ok(true) => Ok(Uri { text: s.to_owned() }),
            Ok(false) => Err(Error::InvalidURI { source: InvalidUri::Relative }),
            Err(source) => Err(Error::InvalidURI { source: InvalidUri::Malformed { source } }),
        }
    }

    /// Writes the URI: the text it was read from.
    pub fn to_string(&self) -> (text: String)
        ensures
            text@ == self@,
            uri_read(text@) == Ok::<Seq<char>, Fault>(self@),
    {
        proof {
            use_type_invariant(self);
        }
        self.text.clone()
    }
}

/// A URI that was written is read back, as text and as JSON.
pub proof fn lemma_uri_round_trip(text: Seq<char>)
    requires
        valid_uri(text),
    ensures
        uri_read(text) == Ok::<Seq<char>, Fault>(text),
        uri_value(uri_json(text)) == Ok::<Seq<char>, Fault>(text),
{
}

/// A point in time, in UTC.
#[derive(Clone, Copy, Debug, PartialEq, Eq, Hash)]
pub struct DateTime {
    seconds: i64,
    nanos: u32,
}

impl View for DateTime {
    type V = (i64, u32);

    closed spec fn view(&self) -> (i64, u32) {
        (self.seconds, self.nanos)
    }
}

/// What reading a text as a timestamp gives.
pub open spec fn instant_read(text: Seq<char>) -> Result<(i64, u32), Fault> {
    match instant_of_text(text) {
        Some(instant) => if valid_instant(instant.0, instant.1) {
            Ok(instant)
        } else {
            Err(parse_fault(ParseKind::TimestampRange))
        },
        None => Err(parse_fault(ParseKind::Timestamp)),
    }
}

/// What reading a JSON value as a timestamp gives.
pub open spec fn instant_value(value: JsonModel) -> Result<(i64, u32), Fault> {
    match value {
        JsonModel::Text(text) => instant_read(text),
        _ => Err(shape_fault(JsonKind::Text)),
    }
}

/// The JSON string of a timestamp.
pub open spec fn instant_json(instant: (i64, u32)) -> JsonModel {
    JsonModel::Text(text_of_instant(instant.0, instant.1).unwrap())
}

impl DateTime {
    /// The instant has a text that reads back as the same instant.
    #[verifier::type_invariant]
    pub closed spec fn well_formed(&self) -> bool {
        valid_instant(self.seconds, self.nanos)
    }

    /// The instant `seconds` after the epoch plus `nanos` nanoseconds, if it
    /// has a text that reads back as the same instant.
    pub fn from_timestamp(seconds: i64, nanos: u32) -> (r: Option<DateTime>)
        ensures
            match r {
                Some(instant) => instant@ == (seconds, nanos) && valid_instant(seconds, nanos),
                None => !valid_instant(seconds, nanos),
            },
    {
        match format_instant(seconds, nanos) {
            Some(text) => match parse_instant(text.as_str()) {
                Ok(back) => if back.0 == seconds && back.1 == nanos {
                    Some(DateTime { seconds, nanos })
                } else {
                    None
                },
                Err(_) => None,
            },
            None => None,
        }
    }

    /// Seconds since the epoch.
    pub fn timestamp(&self) -> (seconds: i64)
        ensures
            seconds == self@.0,
    {
        self.seconds
    }

    /// Nanoseconds since the last whole second.
    pub fn timestamp_subsec_nanos(&self) -> (nanos: u32)
        ensures
            nanos == self@.1,
            valid_instant(self@.0, self@.1),
    {
        proof {
            use_type_invariant(self);
        }
        self.nanos
    }

    /// Reads a timestamp in RFC 3339 form; a space may stand for the `T`.
    pub fn from_str(s: &str) -> (r: Result<DateTime, Error>)
        ensures
            agrees(r, instant_read(s@)),
            r matches Ok(instant) ==> valid_instant(instant@.0, instant@.1),
    {
        match parse_instant(s) {
            Ok(instant) => match DateTime::from_timestamp(instant.0, instant.1) {
                Some(value) => Ok(value),
                None => Err(Error::ParseError { reason: ParseReason::TimestampRange }),
            },
            Err(source) => Err(Error::ParseError { reason: ParseReason::Timestamp { source } }),
        }
    }

    /// Writes the timestamp in ISO 8601 form, with `Z` for the offset.
    pub fn to_string(&self) -> (text: String)
        ensures
            text_of_instant(self@.0, self@.1) == Some(text@),
            ends_with_z(text@),
            instant_read(text@) == Ok::<(i64, u32), Fault>(self@),
    {
        proof {
            use_type_invariant(self);
        }
        match format_instant(self.seconds, self.nanos) {
            Some(text) => text,
            None => vstd::pervasive::unreached(),
        }
    }
}

/// A timestamp that was written is read back, as text and as JSON.
pub proof fn lemma_instant_round_trip(instant: (i64, u32))
    requires
        valid_instant(instant.0, instant.1),
    ensures
        instant_read(text_of_instant(instant.0, instant.1).unwrap()) == Ok::<(i64, u32), Fault>(
            instant,
        ),
        instant_value(instant_json(instant)) == Ok::<(i64, u32), Fault>(instant),
{
}

impl ToJson for Uuid {
    open spec fn json_of(model: u128) -> JsonModel {
        uuid_json(model)
    }

    /// Writes the UUID as a JSON string.
    fn encode(&self) -> (json: Json) {
        Json::Text(self.to_string())
    }
}

impl FromJson for Uuid {
    open spec fn decoded(value: JsonModel, mode: Mode) -> Result<u128, Fault> {
        uuid_value(value)
    }

    open spec fn valid(model: u128) -> bool {
        valid_uuid(model)
    }

    proof fn lemma_round_trip(model: u128, mode: Mode) {
    }

    /// Reads a UUID from a JSON string.
    fn decode(json: &Json, mode: Mode) -> (r: Result<Uuid, Error>) {
        match json {
            Json::Text(text) => Uuid::from_str(text.as_str()),
            _ => Err(Error::shape(JsonKind::Text)),
        }
    }
}

impl ToJson for Uri {
    open spec fn json_of(model: Seq<char>) -> JsonModel {
        uri_json(model)
    }

    /// Writes the URI as a JSON string.
    fn encode(&self) -> (json: Json) {
        Json::Text(self.to_string())
    }
}

impl FromJson for Uri {
    open spec fn decoded(value: JsonModel, mode: Mode) -> Result<Seq<char>, Fault> {
        uri_value(value)
    }

    open spec fn valid(model: Seq<char>) -> bool {
        valid_uri(model)
    }

    proof fn lemma_round_trip(model: Seq<char>, mode: Mode) {
    }

    /// Reads a URI from a JSON string.
    fn decode(json: &Json, mode: Mode) -> (r: Result<Uri, Error>) {
        match json {
            Json::Text(text) => Uri::from_str(text.as_str()),
            _ => Err(Error::shape(JsonKind::Text)),
        }
    }
}

impl ToJson for DateTime {
    open spec fn json_of(model: (i64, u32)) -> JsonModel {
        instant_json(model)
    }

    /// Writes the timestamp as a JSON string.
    fn encode(&self) -> (json: Json) {
        Json::Text(self.to_string())
    }
}

impl FromJson for DateTime {
    open spec fn decoded(value: JsonModel, mode: Mode) -> Result<(i64, u32), Fault> {
        instant_value(value)
    }

    open spec fn valid(model: (i64, u32)) -> bool {
        valid_instant(model.0, model.1)
    }

    proof fn lemma_round_trip(model: (i64, u32), mode: Mode) {
    }

    /// Reads a timestamp from a JSON string.
    fn decode(json: &Json, mode: Mode) -> (r: Result<DateTime, Error>) {
        match json {
            Json::Text(text) => DateTime::from_str(text.as_str()),
            _ => Err(Error::shape(JsonKind::Text)),
        }
    }
}

} // verus!
