//! The models of the HTTP admission API.

use crate::codec::member;
use crate::error::{Error, Fault};
use crate::json::{
    first_unknown, lemma_all_known, lemma_lookup_at, lookup, members_model, names, object, open,
    opened, Json, JsonModel, Members, Mode,
};
use crate::model::traits::{field, models, read_field, FromJson, ToJson};
use crate::json::{lemma_lookup_insert, lemma_unknown_insert};
use vstd::prelude::*;

verus! {

/// The admission of a wallet to the hub.
#[derive(Clone, Debug, PartialEq, Eq)]
pub struct Admission {
    pub address: String,
    pub authorization: String,
    pub token: String,
}

/// An admission as contracts see it.
pub ghost struct AdmissionModel {
    pub address: Seq<char>,
    pub authorization: Seq<char>,
    pub token: Seq<char>,
}

impl View for Admission {
    type V = AdmissionModel;

    open spec fn view(&self) -> AdmissionModel {
        AdmissionModel {
            address: self.address@,
            authorization: self.authorization@,
            token: self.token@,
        }
    }
}

impl AdmissionModel {
    /// The keys of an admission, in the order they are written.
    pub open spec fn keys() -> Seq<Seq<char>> {
        seq![
            "address"@,
            "authorization"@,
            "token"@,
        ]
    }

    /// The JSON object of an admission.
    pub open spec fn json(self) -> JsonModel {
        JsonModel::Object(
            seq![
                ("address"@, String::json_of(self.address)),
                ("authorization"@, String::json_of(self.authorization)),
                ("token"@, String::json_of(self.token)),
            ],
        )
    }

    /// Every part of the admission is valid.
    pub open spec fn valid(self) -> bool {
        &&& String::valid(self.address)
        &&& String::valid(self.authorization)
        &&& String::valid(self.token)
    }

    /// The admission that the members of an object make, or the fault of the
    /// first field, in the order of [`Self::keys`], that has one.
    pub open spec fn assembled(members: Members, mode: Mode) -> Result<AdmissionModel, Fault> {
        let address = field::<String>(members, "address"@, mode);
        let authorization = field::<String>(members, "authorization"@, mode);
        let token = field::<String>(members, "token"@, mode);
        if address is Err {
            Err(address->Err_0)
        } else if authorization is Err {
            Err(authorization->Err_0)
        } else if token is Err {
            Err(token->Err_0)
        } else {
            Ok(
                AdmissionModel {
                    address: address->Ok_0,
                    authorization: authorization->Ok_0,
                    token: token->Ok_0,
                },
            )
        }
    }

    /// The admission that a JSON value holds, or the first fault found: the
    /// value is no object, then (in strict mode) the first unknown key, then
    /// the fields in the order of [`Self::keys`].
    pub open spec fn decoded(value: JsonModel, mode: Mode) -> Result<AdmissionModel, Fault> {
        match opened(value, Self::keys(), mode) {
            Err(fault) => Err(fault),
            Ok(members) => Self::assembled(members, mode),
        }
    }

    /// In the object that writes an admission every key is known and is found
    /// with the value of its field.
    pub proof fn lemma_members(self)
        ensures
            self.json() is Object,
            first_unknown(self.json()->Object_0, Self::keys()) is None,
            lookup(self.json()->Object_0, "address"@) == Some(String::json_of(self.address)),
            lookup(self.json()->Object_0, "authorization"@) == Some(
                String::json_of(self.authorization),
            ),
            lookup(self.json()->Object_0, "token"@) == Some(String::json_of(self.token)),
    {
        let members = self.json()->Object_0;
        reveal_strlit("address");
        reveal_strlit("authorization");
        reveal_strlit("token");
        assert("address"@.len() == 7);
        assert("authorization"@.len() == 13);
        assert("token"@.len() == 5);
        assert(Self::keys()[0] == "address"@);
        assert(Self::keys()[1] == "authorization"@);
        assert(Self::keys()[2] == "token"@);
        lemma_all_known(members, Self::keys());
        lemma_lookup_at(members, "address"@, 0);
        lemma_lookup_at(members, "authorization"@, 1);
        lemma_lookup_at(members, "token"@, 2);
    }

    /// A valid admission that was written is read back, in either mode.
    pub proof fn lemma_round_trip(self, mode: Mode)
        requires
            self.valid(),
        ensures
            Self::decoded(self.json(), mode) == Ok::<AdmissionModel, Fault>(self),
    {
        self.lemma_members();
        String::lemma_round_trip(self.address, mode);
        String::lemma_round_trip(self.authorization, mode);
        String::lemma_round_trip(self.token, mode);
    }
}

impl Admission {
    /// The keys of an admission.
    fn known() -> (keys: Vec<&'static str>)
        ensures
            names(keys@) == AdmissionModel::keys(),
    {
        let mut keys: Vec<&'static str> = Vec::new();
        keys.push("address");
        keys.push("authorization");
        keys.push("token");
        assert(names(keys@) =~= AdmissionModel::keys());
        keys
    }
}

impl ToJson for Admission {
    open spec fn json_of(model: AdmissionModel) -> JsonModel {
        model.json()
    }

    /// Writes the admission as a JSON object with the keys `address`,
    /// `authorization` and `token`, in this order.
    fn encode(&self) -> (json: Json) {
        let mut members: Vec<(String, Json)> = Vec::new();
        members.push(member("address", self.address.encode()));
        members.push(member("authorization", self.authorization.encode()));
        members.push(member("token", self.token.encode()));
        assert(members_model(members@) =~= self@.json()->Object_0);
        object(members)
    }
}

impl FromJson for Admission {
    open spec fn decoded(value: JsonModel, mode: Mode) -> Result<AdmissionModel, Fault> {
        AdmissionModel::decoded(value, mode)
    }

    open spec fn valid(model: AdmissionModel) -> bool {
        model.valid()
    }

    proof fn lemma_round_trip(model: AdmissionModel, mode: Mode) {
        model.lemma_round_trip(mode);
    }

    /// Reads an admission from a JSON object.
    fn decode(json: &Json, mode: Mode) -> (r: Result<Admission, Error>) {
        let members = open(json, &Admission::known(), mode)?;
        let address = read_field::<String>(members, "address", mode)?;
        let authorization = read_field::<String>(members, "authorization", mode)?;
        let token = read_field::<String>(members, "token", mode)?;
        let value = Admission {
            address,
            authorization,
            token,
        };
        assert(Self::valid(value@));
        Ok(value)
    }
}

impl AdmissionModel {
    /// A key that an admission does not know makes no difference in lenient
    /// mode and is the fault reported in strict mode: where an object with
    /// none but known keys gets one more member under an unknown key,
    /// wherever it is put in, lenient reading gives what it gave before, and
    /// strict reading reports the new key.
    pub proof fn lemma_unknown_field(members: Members, at: int, extra: (Seq<char>, JsonModel))
        requires
            0 <= at <= members.len(),
            first_unknown(members, Self::keys()) is None,
            !Self::keys().contains(extra.0),
        ensures
            Self::decoded(JsonModel::Object(members.insert(at, extra)), Mode::Lenient)
                == Self::decoded(JsonModel::Object(members), Mode::Lenient),
            Self::decoded(JsonModel::Object(members), Mode::Lenient) == Self::decoded(
                JsonModel::Object(members),
                Mode::Strict,
            ),
            Self::decoded(JsonModel::Object(members.insert(at, extra)), Mode::Strict) == Err::<
                AdmissionModel,
                Fault,
            >(Fault::UnknownField { field: extra.0 }),
    {
        assert(Self::keys()[0] == "address"@);
        assert(Self::keys()[1] == "authorization"@);
        assert(Self::keys()[2] == "token"@);
        lemma_unknown_insert(members, at, extra, Self::keys());
        lemma_lookup_insert(members, at, extra, "address"@);
        lemma_lookup_insert(members, at, extra, "authorization"@);
        lemma_lookup_insert(members, at, extra, "token"@);
    }
}

} // verus!
