//! The models of the HTTP SLA (service level agreement) API.

use crate::codec::member;
use crate::error::{Error, Fault};
use crate::json::{
    first_unknown, lemma_all_known, lemma_lookup_at, lookup, members_model, names, object, open,
    opened, Json, JsonModel, Members, Mode,
};
use crate::model::traits::{field, models, read_field, FromJson, ToJson};
use crate::json::text_of_json;
use crate::model::decimal::{decimal_json, lemma_decimal_round_trip, Decimal, DecimalEncoding};
use crate::model::scalar::DateTime;
use vstd::prelude::*;
use vstd::string::StrSliceExecFns;

verus! {

/// The smallest limit of an agreement.
pub const MIN_LIMIT: u64 = 1;

/// The length of a recipient address, in characters.
pub const RECIPIENT_LENGTH: usize = 42;

/// The length of a token address, in characters.
pub const TOKEN_LENGTH: usize = 42;

/// The length of a text: the number of its characters.
pub open spec fn length_of(text: Seq<char>) -> nat {
    text.len()
}

/// What the validation of an agreement reports: the first rule broken, the
/// limit before the lengths and the recipient before the token.
pub open spec fn checked(limit: u64, recipient: Seq<char>, token: Seq<char>) -> Result<(), Fault> {
    if limit < MIN_LIMIT {
        Err(Fault::OutOfRange { value: limit as i64, min: Some(MIN_LIMIT as i64), max: None })
    } else if length_of(recipient) != RECIPIENT_LENGTH {
        Err(
            Fault::InvalidLength {
                length: length_of(recipient) as usize,
                expected: RECIPIENT_LENGTH,
            },
        )
    } else if length_of(token) != TOKEN_LENGTH {
        Err(Fault::InvalidLength { length: length_of(token) as usize, expected: TOKEN_LENGTH })
    } else {
        Ok(())
    }
}

/// The one validation routine behind [`SLA::new`] and [`SLA::validate`].
fn check(limit: u64, recipient: &str, token: &str) -> (r: Result<(), Error>)
    ensures
        match checked(limit, recipient@, token@) {
            Ok(_) => r is Ok,
            Err(fault) => r matches Err(e) && e@ == fault,
        },
{
    if limit < MIN_LIMIT {
        return Err(
            Error::OutOfRange { value: limit as i64, min: Some(MIN_LIMIT as i64), max: None },
        );
    }
    let recipient_length = recipient.unicode_len();
    if recipient_length != RECIPIENT_LENGTH {
        return Err(Error::InvalidLength { length: recipient_length, expected: RECIPIENT_LENGTH });
    }
    let token_length = token.unicode_len();
    if token_length != TOKEN_LENGTH {
        return Err(Error::InvalidLength { length: token_length, expected: TOKEN_LENGTH });
    }
    Ok(())
}

/// A service level agreement.
///
/// The fields are open, so a value can be built, or read from JSON, without
/// [`SLA::new`]: [`SLA::validate`] tells whether it keeps the rules.
#[derive(Clone, Debug, PartialEq, Eq)]
pub struct SLA {
    pub cost: Decimal,
    pub limit: u64,
    pub recipient: String,
    pub token: String,
}

/// A service level agreement as contracts see it.
pub ghost struct SLAModel {
    pub cost: int,
    pub limit: u64,
    pub recipient: Seq<char>,
    pub token: Seq<char>,
}

impl View for SLA {
    type V = SLAModel;

    open spec fn view(&self) -> SLAModel {
        SLAModel {
            cost: self.cost@,
            limit: self.limit@,
            recipient: self.recipient@,
            token: self.token@,
        }
    }
}

impl SLAModel {
    /// The keys of a service level agreement, in the order they are written.
    pub open spec fn keys() -> Seq<Seq<char>> {
        seq![
            "cost"@,
            "limit"@,
            "recipient"@,
            "token"@,
        ]
    }

    /// The JSON object of a service level agreement.
    pub open spec fn json(self) -> JsonModel {
        JsonModel::Object(
            seq![
                ("cost"@, Decimal::json_of(self.cost)),
                ("limit"@, u64::json_of(self.limit)),
                ("recipient"@, String::json_of(self.recipient)),
                ("token"@, String::json_of(self.token)),
            ],
        )
    }

    /// Every part of the service level agreement is valid.
    pub open spec fn valid(self) -> bool {
        &&& Decimal::valid(self.cost)
        &&& u64::valid(self.limit)
        &&& String::valid(self.recipient)
        &&& String::valid(self.token)
    }

    /// The service level agreement that the members of an object make, or the fault of the
    /// first field, in the order of [`Self::keys`], that has one.
    pub open spec fn assembled(members: Members, mode: Mode) -> Result<SLAModel, Fault> {
        let cost = field::<Decimal>(members, "cost"@, mode);
        let limit = field::<u64>(members, "limit"@, mode);
        let recipient = field::<String>(members, "recipient"@, mode);
        let token = field::<String>(members, "token"@, mode);
        if cost is Err {
            Err(cost->Err_0)
        } else if limit is Err {
            Err(limit->Err_0)
        } else if recipient is Err {
            Err(recipient->Err_0)
        } else if token is Err {
            Err(token->Err_0)
        } else {
            Ok(
                SLAModel {
                    cost: cost->Ok_0,
                    limit: limit->Ok_0,
                    recipient: recipient->Ok_0,
                    token: token->Ok_0,
                },
            )
        }
    }

    /// The service level agreement that a JSON value holds, or the first fault found: the
    /// value is no object, then (in strict mode) the first unknown key, then
    /// the fields in the order of [`Self::keys`].
    pub open spec fn decoded(value: JsonModel, mode: Mode) -> Result<SLAModel, Fault> {
        match opened(value, Self::keys(), mode) {
            Err(fault) => Err(fault),
            Ok(members) => Self::assembled(members, mode),
        }
    }

    /// In the object that writes a service level agreement every key is known and is found
    /// with the value of its field.
    pub proof fn lemma_members(self)
        ensures
            self.json() is Object,
            first_unknown(self.json()->Object_0, Self::keys()) is None,
            lookup(self.json()->Object_0, "cost"@) == Some(Decimal::json_of(self.cost)),
            lookup(self.json()->Object_0, "limit"@) == Some(u64::json_of(self.limit)),
            lookup(self.json()->Object_0, "recipient"@) == Some(String::json_of(self.recipient)),
            lookup(self.json()->Object_0, "token"@) == Some(String::json_of(self.token)),
    {
        let members = self.json()->Object_0;
        reveal_strlit("cost");
        reveal_strlit("limit");
        reveal_strlit("recipient");
        reveal_strlit("token");
        assert("cost"@.len() == 4);
        assert("limit"@.len() == 5);
        assert("recipient"@.len() == 9);
        assert("token"@.len() == 5);
        assert("limit"@[0] == 'l');
        assert("token"@[0] == 't');
        assert(Self::keys()[0] == "cost"@);
        assert(Self::keys()[1] == "limit"@);
        assert(Self::keys()[2] == "recipient"@);
        assert(Self::keys()[3] == "token"@);
        lemma_all_known(members, Self::keys());
        lemma_lookup_at(members, "cost"@, 0);
        lemma_lookup_at(members, "limit"@, 1);
        lemma_lookup_at(members, "recipient"@, 2);
        lemma_lookup_at(members, "token"@, 3);
    }

    /// A valid service level agreement that was written is read back, in either mode.
    pub proof fn lemma_round_trip(self, mode: Mode)
        requires
            self.valid(),
        ensures
            Self::decoded(self.json(), mode) == Ok::<SLAModel, Fault>(self),
    {
        self.lemma_members();
        Decimal::lemma_round_trip(self.cost, mode);
        u64::lemma_round_trip(self.limit, mode);
        String::lemma_round_trip(self.recipient, mode);
        String::lemma_round_trip(self.token, mode);
    }
}

impl SLA {
    /// The keys of a service level agreement.
    fn known() -> (keys: Vec<&'static str>)
        ensures
            names(keys@) == SLAModel::keys(),
    {
        let mut keys: Vec<&'static str> = Vec::new();
        keys.push("cost");
        keys.push("limit");
        keys.push("recipient");
        keys.push("token");
        assert(names(keys@) =~= SLAModel::keys());
        keys
    }
}

impl ToJson for SLA {
    open spec fn json_of(model: SLAModel) -> JsonModel {
        model.json()
    }

    /// Writes the service level agreement as a JSON object with the keys
    /// `cost`, `limit`, `recipient` and `token`, in this order.
    fn encode(&self) -> (json: Json) {
        let mut members: Vec<(String, Json)> = Vec::new();
        members.push(member("cost", self.cost.encode()));
        members.push(member("limit", self.limit.encode()));
        members.push(member("recipient", self.recipient.encode()));
        members.push(member("token", self.token.encode()));
        assert(members_model(members@) =~= self@.json()->Object_0);
        object(members)
    }
}

impl FromJson for SLA {
    open spec fn decoded(value: JsonModel, mode: Mode) -> Result<SLAModel, Fault> {
        SLAModel::decoded(value, mode)
    }

    open spec fn valid(model: SLAModel) -> bool {
        model.valid()
    }

    proof fn lemma_round_trip(model: SLAModel, mode: Mode) {
        model.lemma_round_trip(mode);
    }

    /// Reads a service level agreement from a JSON object.
    fn decode(json: &Json, mode: Mode) -> (r: Result<SLA, Error>) {
        let members = open(json, &SLA::known(), mode)?;
        let cost = read_field::<Decimal>(members, "cost", mode)?;
        let limit = read_field::<u64>(members, "limit", mode)?;
        let recipient = read_field::<String>(members, "recipient", mode)?;
        let token = read_field::<String>(members, "token", mode)?;
        let value = SLA {
            cost,
            limit,
            recipient,
            token,
        };
        assert(Self::valid(value@));
        Ok(value)
    }
}

impl SLAModel {
    /// What [`SLA::new`] gives for these fields.
    pub open spec fn created(self) -> Result<SLAModel, Fault> {
        match checked(self.limit, self.recipient, self.token) {
            Ok(_) => Ok(self),
            Err(fault) => Err(fault),
        }
    }

    /// What [`SLA::validate`] gives for an agreement with these fields.
    pub open spec fn validated(self) -> Result<(), Fault> {
        checked(self.limit, self.recipient, self.token)
    }

    /// The limit is at least [`MIN_LIMIT`] and both addresses have their
    /// length.
    pub open spec fn lawful(self) -> bool {
        &&& self.limit >= MIN_LIMIT
        &&& length_of(self.recipient) == RECIPIENT_LENGTH
        &&& length_of(self.token) == TOKEN_LENGTH
    }

    /// The JSON object of an agreement whose cost is written in the given
    /// encoding.
    pub open spec fn json_as(self, encoding: DecimalEncoding) -> JsonModel {
        JsonModel::Object(
            seq![
                ("cost"@, decimal_json(self.cost, encoding)),
                ("limit"@, u64::json_of(self.limit)),
                ("recipient"@, String::json_of(self.recipient)),
                ("token"@, String::json_of(self.token)),
            ],
        )
    }

    /// The factory and the validation of a built value report the same: both
    /// succeed, or both fail with the same fault.
    pub proof fn lemma_same_verdict(self)
        ensures
            self.created() is Ok <==> self.validated() is Ok,
            self.created() is Ok <==> self.lawful(),
            self.created() matches Ok(made) ==> made == self,
            forall|fault: Fault|
                self.created() == Err::<SLAModel, Fault>(fault) <==> self.validated() == Err::<
                    (),
                    Fault,
                >(fault),
    {
    }

    /// A limit of zero is out of range whatever the other fields hold, and
    /// the fault names the value and the lower bound; a limit of one or more
    /// is never out of range.
    pub proof fn lemma_limit_bound(self)
        ensures
            self.limit == 0 ==> self.validated() == Err::<(), Fault>(
                Fault::OutOfRange { value: 0, min: Some(1), max: None },
            ),
            self.limit >= 1 ==> !(self.validated() matches Err(Fault::OutOfRange { .. })),
    {
    }

    /// With a limit in range, a recipient of another length than 42 is
    /// reported with its length; with 42 it is accepted and the token is
    /// held to the same rule.
    pub proof fn lemma_length_bound(self)
        requires
            self.limit >= 1,
        ensures
            length_of(self.recipient) != 42 ==> self.validated() == Err::<(), Fault>(
                Fault::InvalidLength { length: length_of(self.recipient) as usize, expected: 42 },
            ),
            length_of(self.recipient) == 42 && length_of(self.token) != 42 ==> self.validated()
                == Err::<(), Fault>(
                Fault::InvalidLength { length: length_of(self.token) as usize, expected: 42 },
            ),
            length_of(self.recipient) == 42 && length_of(self.token) == 42
                ==> self.validated() is Ok,
    {
    }

    /// An agreement that was written is read back whichever way its cost was
    /// written.
    pub proof fn lemma_round_trip_as(self, encoding: DecimalEncoding, mode: Mode)
        ensures
            Self::decoded(self.json_as(encoding), mode) == Ok::<SLAModel, Fault>(self),
            self.json_as(DecimalEncoding::Text) == self.json(),
    {
        let members = self.json_as(encoding)->Object_0;
        reveal_strlit("cost");
        reveal_strlit("limit");
        reveal_strlit("recipient");
        reveal_strlit("token");
        assert("cost"@.len() == 4);
        assert("limit"@.len() == 5);
        assert("recipient"@.len() == 9);
        assert("token"@.len() == 5);
        assert("limit"@[0] != "token"@[0]);
        assert(Self::keys()[0] == "cost"@);
        assert(Self::keys()[1] == "limit"@);
        assert(Self::keys()[2] == "recipient"@);
        assert(Self::keys()[3] == "token"@);
        lemma_all_known(members, Self::keys());
        lemma_lookup_at(members, "cost"@, 0);
        lemma_lookup_at(members, "limit"@, 1);
        lemma_lookup_at(members, "recipient"@, 2);
        lemma_lookup_at(members, "token"@, 3);
        lemma_decimal_round_trip(self.cost, encoding);
        u64::lemma_round_trip(self.limit, mode);
    }
}

impl SLA {
    /// Builds an agreement, or reports the first rule that the fields break.
    pub fn new(cost: Decimal, limit: u64, recipient: &str, token: &str) -> (r: Result<SLA, Error>)
        ensures
            match (SLAModel { cost: cost@, limit, recipient: recipient@, token: token@ }).created() {
                Ok(made) => r matches Ok(sla) && sla@ == made,
                Err(fault) => r matches Err(e) && e@ == fault,
            },
    {
        match check(limit, recipient, token) {
            Ok(_) => Ok(SLA { cost, limit, recipient: recipient.to_owned(), token: token.to_owned() }),
            Err(e) => Err(e),
        }
    }

    /// Checks an agreement that was built without [`SLA::new`].
    pub fn validate(&self) -> (r: Result<(), Error>)
        ensures
            match self@.validated() {
                Ok(_) => r is Ok,
                Err(fault) => r matches Err(e) && e@ == fault,
            },
    {
        check(self.limit, self.recipient.as_str(), self.token.as_str())
    }

    /// Writes the agreement as a JSON object, its cost in the given encoding.
    pub fn encode_as(&self, encoding: DecimalEncoding) -> (json: Json)
        ensures
            json@ == self@.json_as(encoding),
    {
        let mut members: Vec<(String, Json)> = Vec::new();
        members.push(member("cost", self.cost.encode_as(encoding)));
        members.push(member("limit", self.limit.encode()));
        members.push(member("recipient", self.recipient.encode()));
        members.push(member("token", self.token.encode()));
        assert(members_model(members@) =~= self@.json_as(encoding)->Object_0);
        object(members)
    }

    /// Writes the agreement as JSON text, its cost in the given encoding.
    pub fn to_json_as(&self, encoding: DecimalEncoding) -> (r: Result<String, Error>)
        ensures
            match r {
                Ok(text) => text_of_json(self@.json_as(encoding)) == Some(text@),
                Err(e) => text_of_json(self@.json_as(encoding)) is None && e@ == Fault::JSON,
            },
    {
        self.encode_as(encoding).to_text()
    }
}

/// The agreement of a wallet.
#[derive(Clone, Copy, Debug, PartialEq, Eq)]
pub struct WalletSLA {
    pub expiry: DateTime,
}

/// A wallet agreement as contracts see it.
pub ghost struct WalletSLAModel {
    pub expiry: (i64, u32),
}

impl View for WalletSLA {
    type V = WalletSLAModel;

    open spec fn view(&self) -> WalletSLAModel {
        WalletSLAModel {
            expiry: self.expiry@,
        }
    }
}

impl WalletSLAModel {
    /// The keys of a wallet agreement, in the order they are written.
    pub open spec fn keys() -> Seq<Seq<char>> {
        seq![
            "expiry"@,
        ]
    }

    /// The JSON object of a wallet agreement.
    pub open spec fn json(self) -> JsonModel {
        JsonModel::Object(
            seq![
                ("expiry"@, DateTime::json_of(self.expiry)),
            ],
        )
    }

    /// Every part of the wallet agreement is valid.
    pub open spec fn valid(self) -> bool {
        &&& DateTime::valid(self.expiry)
    }

    /// The wallet agreement that the members of an object make, or the fault of the
    /// first field, in the order of [`Self::keys`], that has one.
    pub open spec fn assembled(members: Members, mode: Mode) -> Result<WalletSLAModel, Fault> {
        let expiry = field::<DateTime>(members, "expiry"@, mode);
        if expiry is Err {
            Err(expiry->Err_0)
        } else {
            Ok(
                WalletSLAModel {
                    expiry: expiry->Ok_0,
                },
            )
        }
    }

    /// The wallet agreement that a JSON value holds, or the first fault found: the
    /// value is no object, then (in strict mode) the first unknown key, then
    /// the fields in the order of [`Self::keys`].
    pub open spec fn decoded(value: JsonModel, mode: Mode) -> Result<WalletSLAModel, Fault> {
        match opened(value, Self::keys(), mode) {
            Err(fault) => Err(fault),
            Ok(members) => Self::assembled(members, mode),
        }
    }

    /// In the object that writes a wallet agreement every key is known and is found
    /// with the value of its field.
    pub proof fn lemma_members(self)
        ensures
            self.json() is Object,
            first_unknown(self.json()->Object_0, Self::keys()) is None,
            lookup(self.json()->Object_0, "expiry"@) == Some(DateTime::json_of(self.expiry)),
    {
        let members = self.json()->Object_0;
        reveal_strlit("expiry");
        assert("expiry"@.len() == 6);
        assert(Self::keys()[0] == "expiry"@);
        lemma_all_known(members, Self::keys());
        lemma_lookup_at(members, "expiry"@, 0);
    }

    /// A valid wallet agreement that was written is read back, in either mode.
    pub proof fn lemma_round_trip(self, mode: Mode)
        requires
            self.valid(),
        ensures
            Self::decoded(self.json(), mode) == Ok::<WalletSLAModel, Fault>(self),
    {
        self.lemma_members();
        DateTime::lemma_round_trip(self.expiry, mode);
    }
}

impl WalletSLA {
    /// The keys of a wallet agreement.
    fn known() -> (keys: Vec<&'static str>)
        ensures
            names(keys@) == WalletSLAModel::keys(),
    {
        let mut keys: Vec<&'static str> = Vec::new();
        keys.push("expiry");
        assert(names(keys@) =~= WalletSLAModel::keys());
        keys
    }
}

impl ToJson for WalletSLA {
    open spec fn json_of(model: WalletSLAModel) -> JsonModel {
        model.json()
    }

    /// Writes the wallet agreement as a JSON object with the key `expiry`.
    fn encode(&self) -> (json: Json) {
        let mut members: Vec<(String, Json)> = Vec::new();
        members.push(member("expiry", self.expiry.encode()));
        assert(members_model(members@) =~= self@.json()->Object_0);
        object(members)
    }
}

impl FromJson for WalletSLA {
    open spec fn decoded(value: JsonModel, mode: Mode) -> Result<WalletSLAModel, Fault> {
        WalletSLAModel::decoded(value, mode)
    }

    open spec fn valid(model: WalletSLAModel) -> bool {
        model.valid()
    }

    proof fn lemma_round_trip(model: WalletSLAModel, mode: Mode) {
        model.lemma_round_trip(mode);
    }

    /// Reads a wallet agreement from a JSON object.
    fn decode(json: &Json, mode: Mode) -> (r: Result<WalletSLA, Error>) {
        let members = open(json, &WalletSLA::known(), mode)?;
        let expiry = read_field::<DateTime>(members, "expiry", mode)?;
        let value = WalletSLA {
            expiry,
        };
        assert(Self::valid(value@));
        Ok(value)
    }
}

impl WalletSLA {
    /// The agreement that ends at `expiry`.
    pub fn new(expiry: DateTime) -> (sla: WalletSLA)
        ensures
            sla.expiry == expiry,
    {
        WalletSLA { expiry }
    }
}

} // verus!
