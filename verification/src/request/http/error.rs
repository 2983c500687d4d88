//! The shape of the errors that the HTTP API reports.

use crate::codec::member;
use crate::error::{Error, Fault};
use crate::json::{
    first_unknown, lemma_all_known, lemma_lookup_at, lookup, members_model, names, object, open,
    opened, Json, JsonModel, Members, Mode,
};
use crate::model::traits::{
    all_valid, field, lemma_list_round_trip, list_field, list_json, models, read_field,
    read_list_field, write_list, FromJson, ToJson,
};
use vstd::prelude::*;

verus! {

/// One error of a request: its codes and a message.
#[derive(Clone, Debug, PartialEq, Eq)]
pub struct ErrorData {
    pub code: Vec<String>,
    pub message: String,
}

/// An error description as contracts see it.
pub ghost struct ErrorDataModel {
    pub code: Seq<Seq<char>>,
    pub message: Seq<char>,
}

impl View for ErrorData {
    type V = ErrorDataModel;

    open spec fn view(&self) -> ErrorDataModel {
        ErrorDataModel {
            code: models(self.code@),
            message: self.message@,
        }
    }
}

impl ErrorDataModel {
    /// The keys of an error description, in the order they are written.
    pub open spec fn keys() -> Seq<Seq<char>> {
        seq![
            "code"@,
            "message"@,
        ]
    }

    /// The JSON object of an error description.
    pub open spec fn json(self) -> JsonModel {
        JsonModel::Object(
            seq![
                ("code"@, list_json::<String>(self.code)),
                ("message"@, String::json_of(self.message)),
            ],
        )
    }

    /// Every part of the error description is valid.
    pub open spec fn valid(self) -> bool {
        &&& all_valid::<String>(self.code)
        &&& String::valid(self.message)
    }

    /// The error description that the members of an object make, or the fault of the
    /// first field, in the order of [`Self::keys`], that has one.
    pub open spec fn assembled(members: Members, mode: Mode) -> Result<ErrorDataModel, Fault> {
        let code = list_field::<String>(members, "code"@, mode);
        let message = field::<String>(members, "message"@, mode);
        if code is Err {
            Err(code->Err_0)
        } else if message is Err {
            Err(message->Err_0)
        } else {
            Ok(
                ErrorDataModel {
                    code: code->Ok_0,
                    message: message->Ok_0,
                },
            )
        }
    }

    /// The error description that a JSON value holds, or the first fault found: the
    /// value is no object, then (in strict mode) the first unknown key, then
    /// the fields in the order of [`Self::keys`].
    pub open spec fn decoded(value: JsonModel, mode: Mode) -> Result<ErrorDataModel, Fault> {
        match opened(value, Self::keys(), mode) {
            Err(fault) => Err(fault),
            Ok(members) => Self::assembled(members, mode),
        }
    }

    /// In the object that writes an error description every key is known and is found
    /// with the value of its field.
    pub proof fn lemma_members(self)
        ensures
            self.json() is Object,
            first_unknown(self.json()->Object_0, Self::keys()) is None,
            lookup(self.json()->Object_0, "code"@) == Some(list_json::<String>(self.code)),
            lookup(self.json()->Object_0, "message"@) == Some(String::json_of(self.message)),
    {
        let members = self.json()->Object_0;
        reveal_strlit("code");
        reveal_strlit("message");
        assert("code"@.len() == 4);
        assert("message"@.len() == 7);
        assert(Self::keys()[0] == "code"@);
        assert(Self::keys()[1] == "message"@);
        lemma_all_known(members, Self::keys());
        lemma_lookup_at(members, "code"@, 0);
        lemma_lookup_at(members, "message"@, 1);
    }

    /// A valid error description that was written is read back, in either mode.
    pub proof fn lemma_round_trip(self, mode: Mode)
        requires
            self.valid(),
        ensures
            Self::decoded(self.json(), mode) == Ok::<ErrorDataModel, Fault>(self),
    {
        self.lemma_members();
        lemma_list_round_trip::<String>(self.code, mode);
        String::lemma_round_trip(self.message, mode);
    }
}

impl ErrorData {
    /// The keys of an error description.
    fn known() -> (keys: Vec<&'static str>)
        ensures
            names(keys@) == ErrorDataModel::keys(),
    {
        let mut keys: Vec<&'static str> = Vec::new();
        keys.push("code");
        keys.push("message");
        assert(names(keys@) =~= ErrorDataModel::keys());
        keys
    }
}

impl ToJson for ErrorData {
    open spec fn json_of(model: ErrorDataModel) -> JsonModel {
        model.json()
    }

    /// Writes the error description as a JSON object with the keys `code` and
    /// `message`, in this order.
    fn encode(&self) -> (json: Json) {
        let mut members: Vec<(String, Json)> = Vec::new();
        members.push(member("code", write_list(&self.code)));
        members.push(member("message", self.message.encode()));
        assert(members_model(members@) =~= self@.json()->Object_0);
        object(members)
    }
}

impl FromJson for ErrorData {
    open spec fn decoded(value: JsonModel, mode: Mode) -> Result<ErrorDataModel, Fault> {
        ErrorDataModel::decoded(value, mode)
    }

    open spec fn valid(model: ErrorDataModel) -> bool {
        model.valid()
    }

    proof fn lemma_round_trip(model: ErrorDataModel, mode: Mode) {
        model.lemma_round_trip(mode);
    }

    /// Reads an error description from a JSON object.
    fn decode(json: &Json, mode: Mode) -> (r: Result<ErrorData, Error>) {
        let members = open(json, &ErrorData::known(), mode)?;
        let code = read_list_field::<String>(members, "code", mode)?;
        let message = read_field::<String>(members, "message", mode)?;
        let value = ErrorData {
            code,
            message,
        };
        assert(Self::valid(value@));
        Ok(value)
    }
}

/// The errors of a request: those of the request as a whole and those of its
/// fields.
#[derive(Clone, Debug, PartialEq, Eq)]
pub struct ErrorResponse {
    pub non_field_errors: Vec<ErrorData>,
    pub field_errors: Vec<ErrorData>,
}

/// An error response as contracts see it.
pub ghost struct ErrorResponseModel {
    pub non_field_errors: Seq<ErrorDataModel>,
    pub field_errors: Seq<ErrorDataModel>,
}

impl View for ErrorResponse {
    type V = ErrorResponseModel;

    open spec fn view(&self) -> ErrorResponseModel {
        ErrorResponseModel {
            non_field_errors: models(self.non_field_errors@),
            field_errors: models(self.field_errors@),
        }
    }
}

impl ErrorResponseModel {
    /// The keys of an error response, in the order they are written.
    pub open spec fn keys() -> Seq<Seq<char>> {
        seq![
            "non_field_errors"@,
            "field_errors"@,
        ]
    }

    /// The JSON object of an error response.
    pub open spec fn json(self) -> JsonModel {
        JsonModel::Object(
            seq![
                ("non_field_errors"@, list_json::<ErrorData>(self.non_field_errors)),
                ("field_errors"@, list_json::<ErrorData>(self.field_errors)),
            ],
        )
    }

    /// Every part of the error response is valid.
    pub open spec fn valid(self) -> bool {
        &&& all_valid::<ErrorData>(self.non_field_errors)
        &&& all_valid::<ErrorData>(self.field_errors)
    }

    /// The error response that the members of an object make, or the fault of the
    /// first field, in the order of [`Self::keys`], that has one.
    pub open spec fn assembled(members: Members, mode: Mode) -> Result<ErrorResponseModel, Fault> {
        let non_field_errors = list_field::<ErrorData>(members, "non_field_errors"@, mode);
        let field_errors = list_field::<ErrorData>(members, "field_errors"@, mode);
        if non_field_errors is Err {
            Err(non_field_errors->Err_0)
        } else if field_errors is Err {
            Err(field_errors->Err_0)
        } else {
            Ok(
                ErrorResponseModel {
                    non_field_errors: non_field_errors->Ok_0,
                    field_errors: field_errors->Ok_0,
                },
            )
        }
    }

    /// The error response that a JSON value holds, or the first fault found: the
    /// value is no object, then (in strict mode) the first unknown key, then
    /// the fields in the order of [`Self::keys`].
    pub open spec fn decoded(value: JsonModel, mode: Mode) -> Result<ErrorResponseModel, Fault> {
        match opened(value, Self::keys(), mode) {
            Err(fault) => Err(fault),
            Ok(members) => Self::assembled(members, mode),
        }
    }

    /// In the object that writes an error response every key is known and is found
    /// with the value of its field.
    pub proof fn lemma_members(self)
        ensures
            self.json() is Object,
            first_unknown(self.json()->Object_0, Self::keys()) is None,
            lookup(self.json()->Object_0, "non_field_errors"@) == Some(
                list_json::<ErrorData>(self.non_field_errors),
            ),
            lookup(self.json()->Object_0, "field_errors"@) == Some(
                list_json::<ErrorData>(self.field_errors),
            ),
    {
        let members = self.json()->Object_0;
        reveal_strlit("non_field_errors");
        reveal_strlit("field_errors");
        assert("non_field_errors"@.len() == 16);
        assert("field_errors"@.len() == 12);
        assert(Self::keys()[0] == "non_field_errors"@);
        assert(Self::keys()[1] == "field_errors"@);
        lemma_all_known(members, Self::keys());
        lemma_lookup_at(members, "non_field_errors"@, 0);
        lemma_lookup_at(members, "field_errors"@, 1);
    }

    /// A valid error response that was written is read back, in either mode.
    pub proof fn lemma_round_trip(self, mode: Mode)
        requires
            self.valid(),
        ensures
            Self::decoded(self.json(), mode) == Ok::<ErrorResponseModel, Fault>(self),
    {
        self.lemma_members();
        lemma_list_round_trip::<ErrorData>(self.non_field_errors, mode);
        lemma_list_round_trip::<ErrorData>(self.field_errors, mode);
    }
}

impl ErrorResponse {
    /// The keys of an error response.
    fn known() -> (keys: Vec<&'static str>)
        ensures
            names(keys@) == ErrorResponseModel::keys(),
    {
        let mut keys: Vec<&'static str> = Vec::new();
        keys.push("non_field_errors");
        keys.push("field_errors");
        assert(names(keys@) =~= ErrorResponseModel::keys());
        keys
    }
}

impl ToJson for ErrorResponse {
    open spec fn json_of(model: ErrorResponseModel) -> JsonModel {
        model.json()
    }

    /// Writes the error response as a JSON object with the keys
    /// `non_field_errors` and `field_errors`, in this order.
    fn encode(&self) -> (json: Json) {
        let mut members: Vec<(String, Json)> = Vec::new();
        members.push(member("non_field_errors", write_list(&self.non_field_errors)));
        members.push(member("field_errors", write_list(&self.field_errors)));
        assert(members_model(members@) =~= self@.json()->Object_0);
        object(members)
    }
}

impl FromJson for ErrorResponse {
    open spec fn decoded(value: JsonModel, mode: Mode) -> Result<ErrorResponseModel, Fault> {
        ErrorResponseModel::decoded(value, mode)
    }

    open spec fn valid(model: ErrorResponseModel) -> bool {
        model.valid()
    }

    proof fn lemma_round_trip(model: ErrorResponseModel, mode: Mode) {
        model.lemma_round_trip(mode);
    }

    /// Reads an error response from a JSON object.
    fn decode(json: &Json, mode: Mode) -> (r: Result<ErrorResponse, Error>) {
        let members = open(json, &ErrorResponse::known(), mode)?;
        let non_field_errors = read_list_field::<ErrorData>(members, "non_field_errors", mode)?;
        let field_errors = read_list_field::<ErrorData>(members, "field_errors", mode)?;
        let value = ErrorResponse {
            non_field_errors,
            field_errors,
        };
        assert(Self::valid(value@));
        Ok(value)
    }
}

} // verus!
