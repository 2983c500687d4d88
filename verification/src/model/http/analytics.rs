//! The models of the HTTP analytics API.

use crate::codec::member;
use crate::error::{Error, Fault};
use crate::json::{
    first_unknown, lemma_all_known, lemma_lookup_at, lookup, members_model, names, object, open,
    opened, Json, JsonModel, Members, Mode,
};
use crate::model::traits::{
    all_valid, field, lemma_list_round_trip, list_field, list_json, models, read_field,
    read_list_field, write_list, FromJson, ToJson,
};
use crate::model::common::{Block, BlockModel, DateTime};
use vstd::prelude::*;

verus! {

/// The count of an eon.
#[derive(Clone, Debug, PartialEq, Eq)]
pub struct EonSnapshot {
    pub count: u64,
    pub eon_number: u64,
}

/// An eon snapshot as contracts see it.
pub ghost struct EonSnapshotModel {
    pub count: u64,
    pub eon_number: u64,
}

impl View for EonSnapshot {
    type V = EonSnapshotModel;

    open spec fn view(&self) -> EonSnapshotModel {
        EonSnapshotModel {
            count: self.count@,
            eon_number: self.eon_number@,
        }
    }
}

impl EonSnapshotModel {
    /// The keys of an eon snapshot, in the order they are written.
    pub open spec fn keys() -> Seq<Seq<char>> {
        seq![
            "count"@,
            "eon_number"@,
        ]
    }

    /// The JSON object of an eon snapshot.
    pub open spec fn json(self) -> JsonModel {
        JsonModel::Object(
            seq![
                ("count"@, u64::json_of(self.count)),
                ("eon_number"@, u64::json_of(self.eon_number)),
            ],
        )
    }

    /// Every part of the eon snapshot is valid.
    pub open spec fn valid(self) -> bool {
        &&& u64::valid(self.count)
        &&& u64::valid(self.eon_number)
    }

    /// The eon snapshot that the members of an object make, or the fault of the
    /// first field, in the order of [`Self::keys`], that has one.
    pub open spec fn assembled(members: Members, mode: Mode) -> Result<EonSnapshotModel, Fault> {
        let count = field::<u64>(members, "count"@, mode);
        let eon_number = field::<u64>(members, "eon_number"@, mode);
        if count is Err {
            Err(count->Err_0)
        } else if eon_number is Err {
            Err(eon_number->Err_0)
        } else {
            Ok(
                EonSnapshotModel {
                    count: count->Ok_0,
                    eon_number: eon_number->Ok_0,
                },
            )
        }
    }

    /// The eon snapshot that a JSON value holds, or the first fault found: the
    /// value is no object, then (in strict mode) the first unknown key, then
    /// the fields in the order of [`Self::keys`].
    pub open spec fn decoded(value: JsonModel, mode: Mode) -> Result<EonSnapshotModel, Fault> {
        match opened(value, Self::keys(), mode) {
            Err(fault) => Err(fault),
            Ok(members) => Self::assembled(members, mode),
        }
    }

    /// In the object that writes an eon snapshot every key is known and is found
    /// with the value of its field.
    pub proof fn lemma_members(self)
        ensures
            self.json() is Object,
            first_unknown(self.json()->Object_0, Self::keys()) is None,
            lookup(self.json()->Object_0, "count"@) == Some(u64::json_of(self.count)),
            lookup(self.json()->Object_0, "eon_number"@) == Some(u64::json_of(self.eon_number)),
    {
        let members = self.json()->Object_0;
        reveal_strlit("count");
        reveal_strlit("eon_number");
        assert("count"@.len() == 5);
        assert("eon_number"@.len() == 10);
        assert(Self::keys()[0] == "count"@);
        assert(Self::keys()[1] == "eon_number"@);
        lemma_all_known(members, Self::keys());
        lemma_lookup_at(members, "count"@, 0);
        lemma_lookup_at(members, "eon_number"@, 1);
    }

    /// A valid eon snapshot that was written is read back, in either mode.
    pub proof fn lemma_round_trip(self, mode: Mode)
        requires
            self.valid(),
        ensures
            Self::decoded(self.json(), mode) == Ok::<EonSnapshotModel, Fault>(self),
    {
        self.lemma_members();
        u64::lemma_round_trip(self.count, mode);
        u64::lemma_round_trip(self.eon_number, mode);
    }
}

impl EonSnapshot {
    /// The keys of an eon snapshot.
    fn known() -> (keys: Vec<&'static str>)
        ensures
            names(keys@) == EonSnapshotModel::keys(),
    {
        let mut keys: Vec<&'static str> = Vec::new();
        keys.push("count");
        keys.push("eon_number");
        assert(names(keys@) =~= EonSnapshotModel::keys());
        keys
    }
}

impl ToJson for EonSnapshot {
    open spec fn json_of(model: EonSnapshotModel) -> JsonModel {
        model.json()
    }

    /// Writes the eon snapshot as a JSON object with the keys `count` and
    /// `eon_number`, in this order.
    fn encode(&self) -> (json: Json) {
        let mut members: Vec<(String, Json)> = Vec::new();
        members.push(member("count", self.count.encode()));
        members.push(member("eon_number", self.eon_number.encode()));
        assert(members_model(members@) =~= self@.json()->Object_0);
        object(members)
    }
}

impl FromJson for EonSnapshot {
    open spec fn decoded(value: JsonModel, mode: Mode) -> Result<EonSnapshotModel, Fault> {
        EonSnapshotModel::decoded(value, mode)
    }

    open spec fn valid(model: EonSnapshotModel) -> bool {
        model.valid()
    }

    proof fn lemma_round_trip(model: EonSnapshotModel, mode: Mode) {
        model.lemma_round_trip(mode);
    }

    /// Reads an eon snapshot from a JSON object.
    fn decode(json: &Json, mode: Mode) -> (r: Result<EonSnapshot, Error>) {
        let members = open(json, &EonSnapshot::known(), mode)?;
        let count = read_field::<u64>(members, "count", mode)?;
        let eon_number = read_field::<u64>(members, "eon_number", mode)?;
        let value = EonSnapshot {
            count,
            eon_number,
        };
        assert(Self::valid(value@));
        Ok(value)
    }
}

/// The count of a day.
#[derive(Clone, Debug, PartialEq, Eq)]
pub struct DaySnapshot {
    pub count: u64,
    pub day: DateTime,
}

/// A day snapshot as contracts see it.
pub ghost struct DaySnapshotModel {
    pub count: u64,
    pub day: (i64, u32),
}

impl View for DaySnapshot {
    type V = DaySnapshotModel;

    open spec fn view(&self) -> DaySnapshotModel {
        DaySnapshotModel {
            count: self.count@,
            day: self.day@,
        }
    }
}

impl DaySnapshotModel {
    /// The keys of a day snapshot, in the order they are written.
    pub open spec fn keys() -> Seq<Seq<char>> {
        seq![
            "count"@,
            "day"@,
        ]
    }

    /// The JSON object of a day snapshot.
    pub open spec fn json(self) -> JsonModel {
        JsonModel::Object(
            seq![
                ("count"@, u64::json_of(self.count)),
                ("day"@, DateTime::json_of(self.day)),
            ],
        )
    }

    /// Every part of the day snapshot is valid.
    pub open spec fn valid(self) -> bool {
        &&& u64::valid(self.count)
        &&& DateTime::valid(self.day)
    }

    /// The day snapshot that the members of an object make, or the fault of the
    /// first field, in the order of [`Self::keys`], that has one.
    pub open spec fn assembled(members: Members, mode: Mode) -> Result<DaySnapshotModel, Fault> {
        let count = field::<u64>(members, "count"@, mode);
        let day = field::<DateTime>(members, "day"@, mode);
        if count is Err {
            Err(count->Err_0)
        } else if day is Err {
            Err(day->Err_0)
        } else {
            Ok(
                DaySnapshotModel {
                    count: count->Ok_0,
                    day: day->Ok_0,
                },
            )
        }
    }

    /// The day snapshot that a JSON value holds, or the first fault found: the
    /// value is no object, then (in strict mode) the first unknown key, then
    /// the fields in the order of [`Self::keys`].
    pub open spec fn decoded(value: JsonModel, mode: Mode) -> Result<DaySnapshotModel, Fault> {
        match opened(value, Self::keys(), mode) {
            Err(fault) => Err(fault),
            Ok(members) => Self::assembled(members, mode),
        }
    }

    /// In the object that writes a day snapshot every key is known and is found
    /// with the value of its field.
    pub proof fn lemma_members(self)
        ensures
            self.json() is Object,
            first_unknown(self.json()->Object_0, Self::keys()) is None,
            lookup(self.json()->Object_0, "count"@) == Some(u64::json_of(self.count)),
            lookup(self.json()->Object_0, "day"@) == Some(DateTime::json_of(self.day)),
    {
        let members = self.json()->Object_0;
        reveal_strlit("count");
        reveal_strlit("day");
        assert("count"@.len() == 5);
        assert("day"@.len() == 3);
        assert(Self::keys()[0] == "count"@);
        assert(Self::keys()[1] == "day"@);
        lemma_all_known(members, Self::keys());
        lemma_lookup_at(members, "count"@, 0);
        lemma_lookup_at(members, "day"@, 1);
    }

    /// A valid day snapshot that was written is read back, in either mode.
    pub proof fn lemma_round_trip(self, mode: Mode)
        requires
            self.valid(),
        ensures
            Self::decoded(self.json(), mode) == Ok::<DaySnapshotModel, Fault>(self),
    {
        self.lemma_members();
        u64::lemma_round_trip(self.count, mode);
        DateTime::lemma_round_trip(self.day, mode);
    }
}

impl DaySnapshot {
    /// The keys of a day snapshot.
    fn known() -> (keys: Vec<&'static str>)
        ensures
            names(keys@) == DaySnapshotModel::keys(),
    {
        let mut keys: Vec<&'static str> = Vec::new();
        keys.push("count");
        keys.push("day");
        assert(names(keys@) =~= DaySnapshotModel::keys());
        keys
    }
}

impl ToJson for DaySnapshot {
    open spec fn json_of(model: DaySnapshotModel) -> JsonModel {
        model.json()
    }

    /// Writes the day snapshot as a JSON object with the keys `count` and
    /// `day`, in this order.
    fn encode(&self) -> (json: Json) {
        let mut members: Vec<(String, Json)> = Vec::new();
        members.push(member("count", self.count.encode()));
        members.push(member("day", self.day.encode()));
        assert(members_model(members@) =~= self@.json()->Object_0);
        object(members)
    }
}

impl FromJson for DaySnapshot {
    open spec fn decoded(value: JsonModel, mode: Mode) -> Result<DaySnapshotModel, Fault> {
        DaySnapshotModel::decoded(value, mode)
    }

    open spec fn valid(model: DaySnapshotModel) -> bool {
        model.valid()
    }

    proof fn lemma_round_trip(model: DaySnapshotModel, mode: Mode) {
        model.lemma_round_trip(mode);
    }

    /// Reads a day snapshot from a JSON object.
    fn decode(json: &Json, mode: Mode) -> (r: Result<DaySnapshot, Error>) {
        let members = open(json, &DaySnapshot::known(), mode)?;
        let count = read_field::<u64>(members, "count", mode)?;
        let day = read_field::<DateTime>(members, "day", mode)?;
        let value = DaySnapshot {
            count,
            day,
        };
        assert(Self::valid(value@));
        Ok(value)
    }
}

/// What the hub tells of challenges, by eon and by day.
#[derive(Clone, Debug, PartialEq, Eq)]
pub struct Challenges {
    pub eon_number: Vec<EonSnapshot>,
    pub rebuted: u64,
    pub time: Vec<DaySnapshot>,
}

/// A challenges summary as contracts see it.
pub ghost struct ChallengesModel {
    pub eon_number: Seq<EonSnapshotModel>,
    pub rebuted: u64,
    pub time: Seq<DaySnapshotModel>,
}

impl View for Challenges {
    type V = ChallengesModel;

    open spec fn view(&self) -> ChallengesModel {
        ChallengesModel {
            eon_number: models(self.eon_number@),
            rebuted: self.rebuted@,
            time: models(self.time@),
        }
    }
}

impl ChallengesModel {
    /// The keys of a challenges summary, in the order they are written.
    pub open spec fn keys() -> Seq<Seq<char>> {
        seq![
            "eon_number"@,
            "rebuted"@,
            "time"@,
        ]
    }

    /// The JSON object of a challenges summary.
    pub open spec fn json(self) -> JsonModel {
        JsonModel::Object(
            seq![
                ("eon_number"@, list_json::<EonSnapshot>(self.eon_number)),
                ("rebuted"@, u64::json_of(self.rebuted)),
                ("time"@, list_json::<DaySnapshot>(self.time)),
            ],
        )
    }

    /// Every part of the challenges summary is valid.
    pub open spec fn valid(self) -> bool {
        &&& all_valid::<EonSnapshot>(self.eon_number)
        &&& u64::valid(self.rebuted)
        &&& all_valid::<DaySnapshot>(self.time)
    }

    /// The challenges summary that the members of an object make, or the fault of the
    /// first field, in the order of [`Self::keys`], that has one.
    pub open spec fn assembled(members: Members, mode: Mode) -> Result<ChallengesModel, Fault> {
        let eon_number = list_field::<EonSnapshot>(members, "eon_number"@, mode);
        let rebuted = field::<u64>(members, "rebuted"@, mode);
        let time = list_field::<DaySnapshot>(members, "time"@, mode);
        if eon_number is Err {
            Err(eon_number->Err_0)
        } else if rebuted is Err {
            Err(rebuted->Err_0)
        } else if time is Err {
            Err(time->Err_0)
        } else {
            Ok(
                ChallengesModel {
                    eon_number: eon_number->Ok_0,
                    rebuted: rebuted->Ok_0,
                    time: time->Ok_0,
                },
            )
        }
    }

    /// The challenges summary that a JSON value holds, or the first fault found: the
    /// value is no object, then (in strict mode) the first unknown key, then
    /// the fields in the order of [`Self::keys`].
    pub open spec fn decoded(value: JsonModel, mode: Mode) -> Result<ChallengesModel, Fault> {
        match opened(value, Self::keys(), mode) {
            Err(fault) => Err(fault),
            Ok(members) => Self::assembled(members, mode),
        }
    }

    /// In the object that writes a challenges summary every key is known and is found
    /// with the value of its field.
    pub proof fn lemma_members(self)
        ensures
            self.json() is Object,
            first_unknown(self.json()->Object_0, Self::keys()) is None,
            lookup(self.json()->Object_0, "eon_number"@) == Some(
                list_json::<EonSnapshot>(self.eon_number),
            ),
            lookup(self.json()->Object_0, "rebuted"@) == Some(u64::json_of(self.rebuted)),
            lookup(self.json()->Object_0, "time"@) == Some(list_json::<DaySnapshot>(self.time)),
    {
        let members = self.json()->Object_0;
        reveal_strlit("eon_number");
        reveal_strlit("rebuted");
        reveal_strlit("time");
        assert("eon_number"@.len() == 10);
        assert("rebuted"@.len() == 7);
        assert("time"@.len() == 4);
        assert(Self::keys()[0] == "eon_number"@);
        assert(Self::keys()[1] == "rebuted"@);
        assert(Self::keys()[2] == "time"@);
        lemma_all_known(members, Self::keys());
        lemma_lookup_at(members, "eon_number"@, 0);
        lemma_lookup_at(members, "rebuted"@, 1);
        lemma_lookup_at(members, "time"@, 2);
    }

    /// A valid challenges summary that was written is read back, in either mode.
    pub proof fn lemma_round_trip(self, mode: Mode)
        requires
            self.valid(),
        ensures
            Self::decoded(self.json(), mode) == Ok::<ChallengesModel, Fault>(self),
    {
        self.lemma_members();
        lemma_list_round_trip::<EonSnapshot>(self.eon_number, mode);
        u64::lemma_round_trip(self.rebuted, mode);
        lemma_list_round_trip::<DaySnapshot>(self.time, mode);
    }
}

impl Challenges {
    /// The keys of a challenges summary.
    fn known() -> (keys: Vec<&'static str>)
        ensures
            names(keys@) == ChallengesModel::keys(),
    {
        let mut keys: Vec<&'static str> = Vec::new();
        keys.push("eon_number");
        keys.push("rebuted");
        keys.push("time");
        assert(names(keys@) =~= ChallengesModel::keys());
        keys
    }
}

impl ToJson for Challenges {
    open spec fn json_of(model: ChallengesModel) -> JsonModel {
        model.json()
    }

    /// Writes the challenges summary as a JSON object with the keys
    /// `eon_number`, `rebuted` and `time`, in this order.
    fn encode(&self) -> (json: Json) {
        let mut members: Vec<(String, Json)> = Vec::new();
        members.push(member("eon_number", write_list(&self.eon_number)));
        members.push(member("rebuted", self.rebuted.encode()));
        members.push(member("time", write_list(&self.time)));
        assert(members_model(members@) =~= self@.json()->Object_0);
        object(members)
    }
}

impl FromJson for Challenges {
    open spec fn decoded(value: JsonModel, mode: Mode) -> Result<ChallengesModel, Fault> {
        ChallengesModel::decoded(value, mode)
    }

    open spec fn valid(model: ChallengesModel) -> bool {
        model.valid()
    }

    proof fn lemma_round_trip(model: ChallengesModel, mode: Mode) {
        model.lemma_round_trip(mode);
    }

    /// Reads a challenges summary from a JSON object.
    fn decode(json: &Json, mode: Mode) -> (r: Result<Challenges, Error>) {
        let members = open(json, &Challenges::known(), mode)?;
        let eon_number = read_list_field::<EonSnapshot>(members, "eon_number", mode)?;
        let rebuted = read_field::<u64>(members, "rebuted", mode)?;
        let time = read_list_field::<DaySnapshot>(members, "time", mode)?;
        let value = Challenges {
            eon_number,
            rebuted,
            time,
        };
        assert(Self::valid(value@));
        Ok(value)
    }
}

/// What the hub tells of deposits, by eon and by day.
#[derive(Clone, Debug, PartialEq, Eq)]
pub struct Deposits {
    pub eon_number: Vec<EonSnapshot>,
    pub time: Vec<DaySnapshot>,
    pub total: u64,
}

/// A deposits summary as contracts see it.
pub ghost struct DepositsModel {
    pub eon_number: Seq<EonSnapshotModel>,
    pub time: Seq<DaySnapshotModel>,
    pub total: u64,
}

impl View for Deposits {
    type V = DepositsModel;

    open spec fn view(&self) -> DepositsModel {
        DepositsModel {
            eon_number: models(self.eon_number@),
            time: models(self.time@),
            total: self.total@,
        }
    }
}

impl DepositsModel {
    /// The keys of a deposits summary, in the order they are written.
    pub open spec fn keys() -> Seq<Seq<char>> {
        seq![
            "eon_number"@,
            "time"@,
            "total"@,
        ]
    }

    /// The JSON object of a deposits summary.
    pub open spec fn json(self) -> JsonModel {
        JsonModel::Object(
            seq![
                ("eon_number"@, list_json::<EonSnapshot>(self.eon_number)),
                ("time"@, list_json::<DaySnapshot>(self.time)),
                ("total"@, u64::json_of(self.total)),
            ],
        )
    }

    /// Every part of the deposits summary is valid.
    pub open spec fn valid(self) -> bool {
        &&& all_valid::<EonSnapshot>(self.eon_number)
        &&& all_valid::<DaySnapshot>(self.time)
        &&& u64::valid(self.total)
    }

    /// The deposits summary that the members of an object make, or the fault of the
    /// first field, in the order of [`Self::keys`], that has one.
    pub open spec fn assembled(members: Members, mode: Mode) -> Result<DepositsModel, Fault> {
        let eon_number = list_field::<EonSnapshot>(members, "eon_number"@, mode);
        let time = list_field::<DaySnapshot>(members, "time"@, mode);
        let total = field::<u64>(members, "total"@, mode);
        if eon_number is Err {
            Err(eon_number->Err_0)
        } else if time is Err {
            Err(time->Err_0)
        } else if total is Err {
            Err(total->Err_0)
        } else {
            Ok(
                DepositsModel {
                    eon_number: eon_number->Ok_0,
                    time: time->Ok_0,
                    total: total->Ok_0,
                },
            )
        }
    }

    /// The deposits summary that a JSON value holds, or the first fault found: the
    /// value is no object, then (in strict mode) the first unknown key, then
    /// the fields in the order of [`Self::keys`].
    pub open spec fn decoded(value: JsonModel, mode: Mode) -> Result<DepositsModel, Fault> {
        match opened(value, Self::keys(), mode) {
            Err(fault) => Err(fault),
            Ok(members) => Self::assembled(members, mode),
        }
    }

    /// In the object that writes a deposits summary every key is known and is found
    /// with the value of its field.
    pub proof fn lemma_members(self)
        ensures
            self.json() is Object,
            first_unknown(self.json()->Object_0, Self::keys()) is None,
            lookup(self.json()->Object_0, "eon_number"@) == Some(
                list_json::<EonSnapshot>(self.eon_number),
            ),
            lookup(self.json()->Object_0, "time"@) == Some(list_json::<DaySnapshot>(self.time)),
            lookup(self.json()->Object_0, "total"@) == Some(u64::json_of(self.total)),
    {
        let members = self.json()->Object_0;
        reveal_strlit("eon_number");
        reveal_strlit("time");
        reveal_strlit("total");
        assert("eon_number"@.len() == 10);
        assert("time"@.len() == 4);
        assert("total"@.len() == 5);
        assert(Self::keys()[0] == "eon_number"@);
        assert(Self::keys()[1] == "time"@);
        assert(Self::keys()[2] == "total"@);
        lemma_all_known(members, Self::keys());
        lemma_lookup_at(members, "eon_number"@, 0);
        lemma_lookup_at(members, "time"@, 1);
        lemma_lookup_at(members, "total"@, 2);
    }

    /// A valid deposits summary that was written is read back, in either mode.
    pub proof fn lemma_round_trip(self, mode: Mode)
        requires
            self.valid(),
        ensures
            Self::decoded(self.json(), mode) == Ok::<DepositsModel, Fault>(self),
    {
        self.lemma_members();
        lemma_list_round_trip::<EonSnapshot>(self.eon_number, mode);
        lemma_list_round_trip::<DaySnapshot>(self.time, mode);
        u64::lemma_round_trip(self.total, mode);
    }
}

impl Deposits {
    /// The keys of a deposits summary.
    fn known() -> (keys: Vec<&'static str>)
        ensures
            names(keys@) == DepositsModel::keys(),
    {
        let mut keys: Vec<&'static str> = Vec::new();
        keys.push("eon_number");
        keys.push("time");
        keys.push("total");
        assert(names(keys@) =~= DepositsModel::keys());
        keys
    }
}

impl ToJson for Deposits {
    open spec fn json_of(model: DepositsModel) -> JsonModel {
        model.json()
    }

    /// Writes the deposits summary as a JSON object with the keys
    /// `eon_number`, `time` and `total`, in this order.
    fn encode(&self) -> (json: Json) {
        let mut members: Vec<(String, Json)> = Vec::new();
        members.push(member("eon_number", write_list(&self.eon_number)));
        members.push(member("time", write_list(&self.time)));
        members.push(member("total", self.total.encode()));
        assert(members_model(members@) =~= self@.json()->Object_0);
        object(members)
    }
}

impl FromJson for Deposits {
    open spec fn decoded(value: JsonModel, mode: Mode) -> Result<DepositsModel, Fault> {
        DepositsModel::decoded(value, mode)
    }

    open spec fn valid(model: DepositsModel) -> bool {
        model.valid()
    }

    proof fn lemma_round_trip(model: DepositsModel, mode: Mode) {
        model.lemma_round_trip(mode);
    }

    /// Reads a deposits summary from a JSON object.
    fn decode(json: &Json, mode: Mode) -> (r: Result<Deposits, Error>) {
        let members = open(json, &Deposits::known(), mode)?;
        let eon_number = read_list_field::<EonSnapshot>(members, "eon_number", mode)?;
        let time = read_list_field::<DaySnapshot>(members, "time", mode)?;
        let total = read_field::<u64>(members, "total", mode)?;
        let value = Deposits {
            eon_number,
            time,
            total,
        };
        assert(Self::valid(value@));
        Ok(value)
    }
}

/// The status of the operator.
#[derive(Clone, Debug, PartialEq, Eq)]
pub struct OperatorStatus {
    pub blocks_per_eon: u64,
    pub confirmed: Vec<Block>,
    pub current_eon_number: u64,
    pub latest: Block,
}

/// An operator status as contracts see it.
pub ghost struct OperatorStatusModel {
    pub blocks_per_eon: u64,
    pub confirmed: Seq<BlockModel>,
    pub current_eon_number: u64,
    pub latest: BlockModel,
}

impl View for OperatorStatus {
    type V = OperatorStatusModel;

    open spec fn view(&self) -> OperatorStatusModel {
        OperatorStatusModel {
            blocks_per_eon: self.blocks_per_eon@,
            confirmed: models(self.confirmed@),
            current_eon_number: self.current_eon_number@,
            latest: self.latest@,
        }
    }
}

impl OperatorStatusModel {
    /// The keys of an operator status, in the order they are written.
    pub open spec fn keys() -> Seq<Seq<char>> {
        seq![
            "blocks_per_eon"@,
            "confirmed"@,
            "current_eon_number"@,
            "latest"@,
        ]
    }

    /// The JSON object of an operator status.
    pub open spec fn json(self) -> JsonModel {
        JsonModel::Object(
            seq![
                ("blocks_per_eon"@, u64::json_of(self.blocks_per_eon)),
                ("confirmed"@, list_json::<Block>(self.confirmed)),
                ("current_eon_number"@, u64::json_of(self.current_eon_number)),
                ("latest"@, Block::json_of(self.latest)),
            ],
        )
    }

    /// Every part of the operator status is valid.
    pub open spec fn valid(self) -> bool {
        &&& u64::valid(self.blocks_per_eon)
        &&& all_valid::<Block>(self.confirmed)
        &&& u64::valid(self.current_eon_number)
        &&& Block::valid(self.latest)
    }

    /// The operator status that the members of an object make, or the fault of the
    /// first field, in the order of [`Self::keys`], that has one.
    pub open spec fn assembled(members: Members, mode: Mode) -> Result<OperatorStatusModel, Fault> {
        let blocks_per_eon = field::<u64>(members, "blocks_per_eon"@, mode);
        let confirmed = list_field::<Block>(members, "confirmed"@, mode);
        let current_eon_number = field::<u64>(members, "current_eon_number"@, mode);
        let latest = field::<Block>(members, "latest"@, mode);
        if blocks_per_eon is Err {
            Err(blocks_per_eon->Err_0)
        } else if confirmed is Err {
            Err(confirmed->Err_0)
        } else if current_eon_number is Err {
            Err(current_eon_number->Err_0)
        } else if latest is Err {
            Err(latest->Err_0)
        } else {
            Ok(
                OperatorStatusModel {
                    blocks_per_eon: blocks_per_eon->Ok_0,
                    confirmed: confirmed->Ok_0,
                    current_eon_number: current_eon_number->Ok_0,
                    latest: latest->Ok_0,
                },
            )
        }
    }

    /// The operator status that a JSON value holds, or the first fault found: the
    /// value is no object, then (in strict mode) the first unknown key, then
    /// the fields in the order of [`Self::keys`].
    pub open spec fn decoded(value: JsonModel, mode: Mode) -> Result<OperatorStatusModel, Fault> {
        match opened(value, Self::keys(), mode) {
            Err(fault) => Err(fault),
            Ok(members) => Self::assembled(members, mode),
        }
    }

    /// In the object that writes an operator status every key is known and is found
    /// with the value of its field.
    pub proof fn lemma_members(self)
        ensures
            self.json() is Object,
            first_unknown(self.json()->Object_0, Self::keys()) is None,
            lookup(self.json()->Object_0, "blocks_per_eon"@) == Some(
                u64::json_of(self.blocks_per_eon),
            ),
            lookup(self.json()->Object_0, "confirmed"@) == Some(list_json::<Block>(self.confirmed)),
            lookup(self.json()->Object_0, "current_eon_number"@) == Some(
                u64::json_of(self.current_eon_number),
            ),
            lookup(self.json()->Object_0, "latest"@) == Some(Block::json_of(self.latest)),
    {
        let members = self.json()->Object_0;
        reveal_strlit("blocks_per_eon");
        reveal_strlit("confirmed");
        reveal_strlit("current_eon_number");
        reveal_strlit("latest");
        assert("blocks_per_eon"@.len() == 14);
        assert("confirmed"@.len() == 9);
        assert("current_eon_number"@.len() == 18);
        assert("latest"@.len() == 6);
        assert(Self::keys()[0] == "blocks_per_eon"@);
        assert(Self::keys()[1] == "confirmed"@);
        assert(Self::keys()[2] == "current_eon_number"@);
        assert(Self::keys()[3] == "latest"@);
        lemma_all_known(members, Self::keys());
        lemma_lookup_at(members, "blocks_per_eon"@, 0);
        lemma_lookup_at(members, "confirmed"@, 1);
        lemma_lookup_at(members, "current_eon_number"@, 2);
        lemma_lookup_at(members, "latest"@, 3);
    }

    /// A valid operator status that was written is read back, in either mode.
    pub proof fn lemma_round_trip(self, mode: Mode)
        requires
            self.valid(),
        ensures
            Self::decoded(self.json(), mode) == Ok::<OperatorStatusModel, Fault>(self),
    {
        self.lemma_members();
        u64::lemma_round_trip(self.blocks_per_eon, mode);
        lemma_list_round_trip::<Block>(self.confirmed, mode);
        u64::lemma_round_trip(self.current_eon_number, mode);
        Block::lemma_round_trip(self.latest, mode);
    }
}

impl OperatorStatus {
    /// The keys of an operator status.
    fn known() -> (keys: Vec<&'static str>)
        ensures
            names(keys@) == OperatorStatusModel::keys(),
    {
        let mut keys: Vec<&'static str> = Vec::new();
        keys.push("blocks_per_eon");
        keys.push("confirmed");
        keys.push("current_eon_number");
        keys.push("latest");
        assert(names(keys@) =~= OperatorStatusModel::keys());
        keys
    }
}

impl ToJson for OperatorStatus {
    open spec fn json_of(model: OperatorStatusModel) -> JsonModel {
        model.json()
    }

    /// Writes the operator status as a JSON object with the keys
    /// `blocks_per_eon`, `confirmed`, `current_eon_number` and `latest`, in
    /// this order.
    fn encode(&self) -> (json: Json) {
        let mut members: Vec<(String, Json)> = Vec::new();
        members.push(member("blocks_per_eon", self.blocks_per_eon.encode()));
        members.push(member("confirmed", write_list(&self.confirmed)));
        members.push(member("current_eon_number", self.current_eon_number.encode()));
        members.push(member("latest", self.latest.encode()));
        assert(members_model(members@) =~= self@.json()->Object_0);
        object(members)
    }
}

impl FromJson for OperatorStatus {
    open spec fn decoded(value: JsonModel, mode: Mode) -> Result<OperatorStatusModel, Fault> {
        OperatorStatusModel::decoded(value, mode)
    }

    open spec fn valid(model: OperatorStatusModel) -> bool {
        model.valid()
    }

    proof fn lemma_round_trip(model: OperatorStatusModel, mode: Mode) {
        model.lemma_round_trip(mode);
    }

    /// Reads an operator status from a JSON object.
    fn decode(json: &Json, mode: Mode) -> (r: Result<OperatorStatus, Error>) {
        let members = open(json, &OperatorStatus::known(), mode)?;
        let blocks_per_eon = read_field::<u64>(members, "blocks_per_eon", mode)?;
        let confirmed = read_list_field::<Block>(members, "confirmed", mode)?;
        let current_eon_number = read_field::<u64>(members, "current_eon_number", mode)?;
        let latest = read_field::<Block>(members, "latest", mode)?;
        let value = OperatorStatus {
            blocks_per_eon,
            confirmed,
            current_eon_number,
            latest,
        };
        assert(Self::valid(value@));
        Ok(value)
    }
}

/// What the hub tells of transfers, by eon and by day.
#[derive(Clone, Debug, PartialEq, Eq)]
pub struct Transfers {
    pub eon_number: Vec<EonSnapshot>,
    pub time: Vec<DaySnapshot>,
    pub total: u64,
}

/// A transfers summary as contracts see it.
pub ghost struct TransfersModel {
    pub eon_number: Seq<EonSnapshotModel>,
    pub time: Seq<DaySnapshotModel>,
    pub total: u64,
}

impl View for Transfers {
    type V = TransfersModel;

    open spec fn view(&self) -> TransfersModel {
        TransfersModel {
            eon_number: models(self.eon_number@),
            time: models(self.time@),
            total: self.total@,
        }
    }
}

impl TransfersModel {
    /// The keys of a transfers summary, in the order they are written.
    pub open spec fn keys() -> Seq<Seq<char>> {
        seq![
            "eon_number"@,
            "time"@,
            "total"@,
        ]
    }

    /// The JSON object of a transfers summary.
    pub open spec fn json(self) -> JsonModel {
        JsonModel::Object(
            seq![
                ("eon_number"@, list_json::<EonSnapshot>(self.eon_number)),
                ("time"@, list_json::<DaySnapshot>(self.time)),
                ("total"@, u64::json_of(self.total)),
            ],
        )
    }

    /// Every part of the transfers summary is valid.
    pub open spec fn valid(self) -> bool {
        &&& all_valid::<EonSnapshot>(self.eon_number)
        &&& all_valid::<DaySnapshot>(self.time)
        &&& u64::valid(self.total)
    }

    /// The transfers summary that the members of an object make, or the fault of the
    /// first field, in the order of [`Self::keys`], that has one.
    pub open spec fn assembled(members: Members, mode: Mode) -> Result<TransfersModel, Fault> {
        let eon_number = list_field::<EonSnapshot>(members, "eon_number"@, mode);
        let time = list_field::<DaySnapshot>(members, "time"@, mode);
        let total = field::<u64>(members, "total"@, mode);
        if eon_number is Err {
            Err(eon_number->Err_0)
        } else if time is Err {
            Err(time->Err_0)
        } else if total is Err {
            Err(total->Err_0)
        } else {
            Ok(
                TransfersModel {
                    eon_number: eon_number->Ok_0,
                    time: time->Ok_0,
                    total: total->Ok_0,
                },
            )
        }
    }

    /// The transfers summary that a JSON value holds, or the first fault found: the
    /// value is no object, then (in strict mode) the first unknown key, then
    /// the fields in the order of [`Self::keys`].
    pub open spec fn decoded(value: JsonModel, mode: Mode) -> Result<TransfersModel, Fault> {
        match opened(value, Self::keys(), mode) {
            Err(fault) => Err(fault),
            Ok(members) => Self::assembled(members, mode),
        }
    }

    /// In the object that writes a transfers summary every key is known and is found
    /// with the value of its field.
    pub proof fn lemma_members(self)
        ensures
            self.json() is Object,
            first_unknown(self.json()->Object_0, Self::keys()) is None,
            lookup(self.json()->Object_0, "eon_number"@) == Some(
                list_json::<EonSnapshot>(self.eon_number),
            ),
            lookup(self.json()->Object_0, "time"@) == Some(list_json::<DaySnapshot>(self.time)),
            lookup(self.json()->Object_0, "total"@) == Some(u64::json_of(self.total)),
    {
        let members = self.json()->Object_0;
        reveal_strlit("eon_number");
        reveal_strlit("time");
        reveal_strlit("total");
        assert("eon_number"@.len() == 10);
        assert("time"@.len() == 4);
        assert("total"@.len() == 5);
        assert(Self::keys()[0] == "eon_number"@);
        assert(Self::keys()[1] == "time"@);
        assert(Self::keys()[2] == "total"@);
        lemma_all_known(members, Self::keys());
        lemma_lookup_at(members, "eon_number"@, 0);
        lemma_lookup_at(members, "time"@, 1);
        lemma_lookup_at(members, "total"@, 2);
    }

    /// A valid transfers summary that was written is read back, in either mode.
    pub proof fn lemma_round_trip(self, mode: Mode)
        requires
            self.valid(),
        ensures
            Self::decoded(self.json(), mode) == Ok::<TransfersModel, Fault>(self),
    {
        self.lemma_members();
        lemma_list_round_trip::<EonSnapshot>(self.eon_number, mode);
        lemma_list_round_trip::<DaySnapshot>(self.time, mode);
        u64::lemma_round_trip(self.total, mode);
    }
}

impl Transfers {
    /// The keys of a transfers summary.
    fn known() -> (keys: Vec<&'static str>)
        ensures
            names(keys@) == TransfersModel::keys(),
    {
        let mut keys: Vec<&'static str> = Vec::new();
        keys.push("eon_number");
        keys.push("time");
        keys.push("total");
        assert(names(keys@) =~= TransfersModel::keys());
        keys
    }
}

impl ToJson for Transfers {
    open spec fn json_of(model: TransfersModel) -> JsonModel {
        model.json()
    }

    /// Writes the transfers summary as a JSON object with the keys
    /// `eon_number`, `time` and `total`, in this order.
    fn encode(&self) -> (json: Json) {
        let mut members: Vec<(String, Json)> = Vec::new();
        members.push(member("eon_number", write_list(&self.eon_number)));
        members.push(member("time", write_list(&self.time)));
        members.push(member("total", self.total.encode()));
        assert(members_model(members@) =~= self@.json()->Object_0);
        object(members)
    }
}

impl FromJson for Transfers {
    open spec fn decoded(value: JsonModel, mode: Mode) -> Result<TransfersModel, Fault> {
        TransfersModel::decoded(value, mode)
    }

    open spec fn valid(model: TransfersModel) -> bool {
        model.valid()
    }

    proof fn lemma_round_trip(model: TransfersModel, mode: Mode) {
        model.lemma_round_trip(mode);
    }

    /// Reads a transfers summary from a JSON object.
    fn decode(json: &Json, mode: Mode) -> (r: Result<Transfers, Error>) {
        let members = open(json, &Transfers::known(), mode)?;
        let eon_number = read_list_field::<EonSnapshot>(members, "eon_number", mode)?;
        let time = read_list_field::<DaySnapshot>(members, "time", mode)?;
        let total = read_field::<u64>(members, "total", mode)?;
        let value = Transfers {
            eon_number,
            time,
            total,
        };
        assert(Self::valid(value@));
        Ok(value)
    }
}

/// What the hub tells of admissions, by eon.
#[derive(Clone, Debug, PartialEq, Eq)]
pub struct Admissions {
    pub eon_number: Vec<EonSnapshot>,
    pub total: u64,
}

/// An admissions summary as contracts see it.
pub ghost struct AdmissionsModel {
    pub eon_number: Seq<EonSnapshotModel>,
    pub total: u64,
}

impl View for Admissions {
    type V = AdmissionsModel;

    open spec fn view(&self) -> AdmissionsModel {
        AdmissionsModel {
            eon_number: models(self.eon_number@),
            total: self.total@,
        }
    }
}

impl AdmissionsModel {
    /// The keys of an admissions summary, in the order they are written.
    pub open spec fn keys() -> Seq<Seq<char>> {
        seq![
            "eon_number"@,
            "total"@,
        ]
    }

    /// The JSON object of an admissions summary.
    pub open spec fn json(self) -> JsonModel {
        JsonModel::Object(
            seq![
                ("eon_number"@, list_json::<EonSnapshot>(self.eon_number)),
                ("total"@, u64::json_of(self.total)),
            ],
        )
    }

    /// Every part of the admissions summary is valid.
    pub open spec fn valid(self) -> bool {
        &&& all_valid::<EonSnapshot>(self.eon_number)
        &&& u64::valid(self.total)
    }

    /// The admissions summary that the members of an object make, or the fault of the
    /// first field, in the order of [`Self::keys`], that has one.
    pub open spec fn assembled(members: Members, mode: Mode) -> Result<AdmissionsModel, Fault> {
        let eon_number = list_field::<EonSnapshot>(members, "eon_number"@, mode);
        let total = field::<u64>(members, "total"@, mode);
        if eon_number is Err {
            Err(eon_number->Err_0)
        } else if total is Err {
            Err(total->Err_0)
        } else {
            Ok(
                AdmissionsModel {
                    eon_number: eon_number->Ok_0,
                    total: total->Ok_0,
                },
            )
        }
    }

    /// The admissions summary that a JSON value holds, or the first fault found: the
    /// value is no object, then (in strict mode) the first unknown key, then
    /// the fields in the order of [`Self::keys`].
    pub open spec fn decoded(value: JsonModel, mode: Mode) -> Result<AdmissionsModel, Fault> {
        match opened(value, Self::keys(), mode) {
            Err(fault) => Err(fault),
            Ok(members) => Self::assembled(members, mode),
        }
    }

    /// In the object that writes an admissions summary every key is known and is found
    /// with the value of its field.
    pub proof fn lemma_members(self)
        ensures
            self.json() is Object,
            first_unknown(self.json()->Object_0, Self::keys()) is None,
            lookup(self.json()->Object_0, "eon_number"@) == Some(
                list_json::<EonSnapshot>(self.eon_number),
            ),
            lookup(self.json()->Object_0, "total"@) == Some(u64::json_of(self.total)),
    {
        let members = self.json()->Object_0;
        reveal_strlit("eon_number");
        reveal_strlit("total");
        assert("eon_number"@.len() == 10);
        assert("total"@.len() == 5);
        assert(Self::keys()[0] == "eon_number"@);
        assert(Self::keys()[1] == "total"@);
        lemma_all_known(members, Self::keys());
        lemma_lookup_at(members, "eon_number"@, 0);
        lemma_lookup_at(members, "total"@, 1);
    }

    /// A valid admissions summary that was written is read back, in either mode.
    pub proof fn lemma_round_trip(self, mode: Mode)
        requires
            self.valid(),
        ensures
            Self::decoded(self.json(), mode) == Ok::<AdmissionsModel, Fault>(self),
    {
        self.lemma_members();
        lemma_list_round_trip::<EonSnapshot>(self.eon_number, mode);
        u64::lemma_round_trip(self.total, mode);
    }
}

impl Admissions {
    /// The keys of an admissions summary.
    fn known() -> (keys: Vec<&'static str>)
        ensures
            names(keys@) == AdmissionsModel::keys(),
    {
        let mut keys: Vec<&'static str> = Vec::new();
        keys.push("eon_number");
        keys.push("total");
        assert(names(keys@) =~= AdmissionsModel::keys());
        keys
    }
}

impl ToJson for Admissions {
    open spec fn json_of(model: AdmissionsModel) -> JsonModel {
        model.json()
    }

    /// Writes the admissions summary as a JSON object with the keys
    /// `eon_number` and `total`, in this order.
    fn encode(&self) -> (json: Json) {
        let mut members: Vec<(String, Json)> = Vec::new();
        members.push(member("eon_number", write_list(&self.eon_number)));
        members.push(member("total", self.total.encode()));
        assert(members_model(members@) =~= self@.json()->Object_0);
        object(members)
    }
}

impl FromJson for Admissions {
    open spec fn decoded(value: JsonModel, mode: Mode) -> Result<AdmissionsModel, Fault> {
        AdmissionsModel::decoded(value, mode)
    }

    open spec fn valid(model: AdmissionsModel) -> bool {
        model.valid()
    }

    proof fn lemma_round_trip(model: AdmissionsModel, mode: Mode) {
        model.lemma_round_trip(mode);
    }

    /// Reads an admissions summary from a JSON object.
    fn decode(json: &Json, mode: Mode) -> (r: Result<Admissions, Error>) {
        let members = open(json, &Admissions::known(), mode)?;
        let eon_number = read_list_field::<EonSnapshot>(members, "eon_number", mode)?;
        let total = read_field::<u64>(members, "total", mode)?;
        let value = Admissions {
            eon_number,
            total,
        };
        assert(Self::valid(value@));
        Ok(value)
    }
}

/// What the hub tells of withdrawals, by eon and by day.
#[derive(Clone, Debug, PartialEq, Eq)]
pub struct Withdrawals {
    pub eon_number: Vec<EonSnapshot>,
    pub time: Vec<DaySnapshot>,
    pub total: u64,
}

/// A withdrawals summary as contracts see it.
pub ghost struct WithdrawalsModel {
    pub eon_number: Seq<EonSnapshotModel>,
    pub time: Seq<DaySnapshotModel>,
    pub total: u64,
}

impl View for Withdrawals {
    type V = WithdrawalsModel;

    open spec fn view(&self) -> WithdrawalsModel {
        WithdrawalsModel {
            eon_number: models(self.eon_number@),
            time: models(self.time@),
            total: self.total@,
        }
    }
}

impl WithdrawalsModel {
    /// The keys of a withdrawals summary, in the order they are written.
    pub open spec fn keys() -> Seq<Seq<char>> {
        seq![
            "eon_number"@,
            "time"@,
            "total"@,
        ]
    }

    /// The JSON object of a withdrawals summary.
    pub open spec fn json(self) -> JsonModel {
        JsonModel::Object(
            seq![
                ("eon_number"@, list_json::<EonSnapshot>(self.eon_number)),
                ("time"@, list_json::<DaySnapshot>(self.time)),
                ("total"@, u64::json_of(self.total)),
            ],
        )
    }

    /// Every part of the withdrawals summary is valid.
    pub open spec fn valid(self) -> bool {
        &&& all_valid::<EonSnapshot>(self.eon_number)
        &&& all_valid::<DaySnapshot>(self.time)
        &&& u64::valid(self.total)
    }

    /// The withdrawals summary that the members of an object make, or the fault of the
    /// first field, in the order of [`Self::keys`], that has one.
    pub open spec fn assembled(members: Members, mode: Mode) -> Result<WithdrawalsModel, Fault> {
        let eon_number = list_field::<EonSnapshot>(members, "eon_number"@, mode);
        let time = list_field::<DaySnapshot>(members, "time"@, mode);
        let total = field::<u64>(members, "total"@, mode);
        if eon_number is Err {
            Err(eon_number->Err_0)
        } else if time is Err {
            Err(time->Err_0)
        } else if total is Err {
            Err(total->Err_0)
        } else {
            Ok(
                WithdrawalsModel {
                    eon_number: eon_number->Ok_0,
                    time: time->Ok_0,
                    total: total->Ok_0,
                },
            )
        }
    }

    /// The withdrawals summary that a JSON value holds, or the first fault found: the
    /// value is no object, then (in strict mode) the first unknown key, then
    /// the fields in the order of [`Self::keys`].
    pub open spec fn decoded(value: JsonModel, mode: Mode) -> Result<WithdrawalsModel, Fault> {
        match opened(value, Self::keys(), mode) {
            Err(fault) => Err(fault),
            Ok(members) => Self::assembled(members, mode),
        }
    }

    /// In the object that writes a withdrawals summary every key is known and is found
    /// with the value of its field.
    pub proof fn lemma_members(self)
        ensures
            self.json() is Object,
            first_unknown(self.json()->Object_0, Self::keys()) is None,
            lookup(self.json()->Object_0, "eon_number"@) == Some(
                list_json::<EonSnapshot>(self.eon_number),
            ),
            lookup(self.json()->Object_0, "time"@) == Some(list_json::<DaySnapshot>(self.time)),
            lookup(self.json()->Object_0, "total"@) == Some(u64::json_of(self.total)),
    {
        let members = self.json()->Object_0;
        reveal_strlit("eon_number");
        reveal_strlit("time");
        reveal_strlit("total");
        assert("eon_number"@.len() == 10);
        assert("time"@.len() == 4);
        assert("total"@.len() == 5);
        assert(Self::keys()[0] == "eon_number"@);
        assert(Self::keys()[1] == "time"@);
        assert(Self::keys()[2] == "total"@);
        lemma_all_known(members, Self::keys());
        lemma_lookup_at(members, "eon_number"@, 0);
        lemma_lookup_at(members, "time"@, 1);
        lemma_lookup_at(members, "total"@, 2);
    }

    /// A valid withdrawals summary that was written is read back, in either mode.
    pub proof fn lemma_round_trip(self, mode: Mode)
        requires
            self.valid(),
        ensures
            Self::decoded(self.json(), mode) == Ok::<WithdrawalsModel, Fault>(self),
    {
        self.lemma_members();
        lemma_list_round_trip::<EonSnapshot>(self.eon_number, mode);
        lemma_list_round_trip::<DaySnapshot>(self.time, mode);
        u64::lemma_round_trip(self.total, mode);
    }
}

impl Withdrawals {
    /// The keys of a withdrawals summary.
    fn known() -> (keys: Vec<&'static str>)
        ensures
            names(keys@) == WithdrawalsModel::keys(),
    {
        let mut keys: Vec<&'static str> = Vec::new();
        keys.push("eon_number");
        keys.push("time");
        keys.push("total");
        assert(names(keys@) =~= WithdrawalsModel::keys());
        keys
    }
}

impl ToJson for Withdrawals {
    open spec fn json_of(model: WithdrawalsModel) -> JsonModel {
        model.json()
    }

    /// Writes the withdrawals summary as a JSON object with the keys
    /// `eon_number`, `time` and `total`, in this order.
    fn encode(&self) -> (json: Json) {
        let mut members: Vec<(String, Json)> = Vec::new();
        members.push(member("eon_number", write_list(&self.eon_number)));
        members.push(member("time", write_list(&self.time)));
        members.push(member("total", self.total.encode()));
        assert(members_model(members@) =~= self@.json()->Object_0);
        object(members)
    }
}

impl FromJson for Withdrawals {
    open spec fn decoded(value: JsonModel, mode: Mode) -> Result<WithdrawalsModel, Fault> {
        WithdrawalsModel::decoded(value, mode)
    }

    open spec fn valid(model: WithdrawalsModel) -> bool {
        model.valid()
    }

    proof fn lemma_round_trip(model: WithdrawalsModel, mode: Mode) {
        model.lemma_round_trip(mode);
    }

    /// Reads a withdrawals summary from a JSON object.
    fn decode(json: &Json, mode: Mode) -> (r: Result<Withdrawals, Error>) {
        let members = open(json, &Withdrawals::known(), mode)?;
        let eon_number = read_list_field::<EonSnapshot>(members, "eon_number", mode)?;
        let time = read_list_field::<DaySnapshot>(members, "time", mode)?;
        let total = read_field::<u64>(members, "total", mode)?;
        let value = Withdrawals {
            eon_number,
            time,
            total,
        };
        assert(Self::valid(value@));
        Ok(value)
    }
}

} // verus!
