//! The models shared by several APIs.

use crate::codec::member;
use crate::error::{Error, Fault};
use crate::json::{
    first_unknown, lemma_all_known, lemma_lookup_at, lookup, members_model, names, object, open,
    opened, Json, JsonModel, Members, Mode,
};
use crate::model::traits::{
    all_valid, field, lemma_list_round_trip, lemma_optional_round_trip, list_field, list_json,
    models, option_model, optional_field, optional_json, read_field, read_list_field,
    read_optional, valid_if_some, write_list, write_optional, FromJson, ToJson,
};
pub use crate::model::decimal::Decimal;
pub use crate::model::scalar::{DateTime, Uri, Uuid};
use vstd::prelude::*;

verus! {

/// A wallet coordinate: a wallet within the context of a token.
#[derive(Clone, Debug, PartialEq, Eq)]
pub struct Wallet {
    pub address: String,
    pub token: String,
}

/// A wallet coordinate as contracts see it.
pub ghost struct WalletModel {
    pub address: Seq<char>,
    pub token: Seq<char>,
}

impl View for Wallet {
    type V = WalletModel;

    open spec fn view(&self) -> WalletModel {
        WalletModel {
            address: self.address@,
            token: self.token@,
        }
    }
}

impl WalletModel {
    /// The keys of a wallet coordinate, in the order they are written.
    pub open spec fn keys() -> Seq<Seq<char>> {
        seq![
            "address"@,
            "token"@,
        ]
    }

    /// The JSON object of a wallet coordinate.
    pub open spec fn json(self) -> JsonModel {
        JsonModel::Object(
            seq![
                ("address"@, String::json_of(self.address)),
                ("token"@, String::json_of(self.token)),
            ],
        )
    }

    /// Every part of the wallet coordinate is valid.
    pub open spec fn valid(self) -> bool {
        &&& String::valid(self.address)
        &&& String::valid(self.token)
    }

    /// The wallet coordinate that the members of an object make, or the fault of the
    /// first field, in the order of [`Self::keys`], that has one.
    pub open spec fn assembled(members: Members, mode: Mode) -> Result<WalletModel, Fault> {
        let address = field::<String>(members, "address"@, mode);
        let token = field::<String>(members, "token"@, mode);
        if address is Err {
            Err(address->Err_0)
        } else if token is Err {
            Err(token->Err_0)
        } else {
            Ok(
                WalletModel {
                    address: address->Ok_0,
                    token: token->Ok_0,
                },
            )
        }
    }

    /// The wallet coordinate that a JSON value holds, or the first fault found: the
    /// value is no object, then (in strict mode) the first unknown key, then
    /// the fields in the order of [`Self::keys`].
    pub open spec fn decoded(value: JsonModel, mode: Mode) -> Result<WalletModel, Fault> {
        match opened(value, Self::keys(), mode) {
            Err(fault) => Err(fault),
            Ok(members) => Self::assembled(members, mode),
        }
    }

    /// In the object that writes a wallet coordinate every key is known and is found
    /// with the value of its field.
    pub proof fn lemma_members(self)
        ensures
            self.json() is Object,
            first_unknown(self.json()->Object_0, Self::keys()) is None,
            lookup(self.json()->Object_0, "address"@) == Some(String::json_of(self.address)),
            lookup(self.json()->Object_0, "token"@) == Some(String::json_of(self.token)),
    {
        let members = self.json()->Object_0;
        reveal_strlit("address");
        reveal_strlit("token");
        assert("address"@.len() == 7);
        assert("token"@.len() == 5);
        assert(Self::keys()[0] == "address"@);
        assert(Self::keys()[1] == "token"@);
        lemma_all_known(members, Self::keys());
        lemma_lookup_at(members, "address"@, 0);
        lemma_lookup_at(members, "token"@, 1);
    }

    /// A valid wallet coordinate that was written is read back, in either mode.
    pub proof fn lemma_round_trip(self, mode: Mode)
        requires
            self.valid(),
        ensures
            Self::decoded(self.json(), mode) == Ok::<WalletModel, Fault>(self),
    {
        self.lemma_members();
        String::lemma_round_trip(self.address, mode);
        String::lemma_round_trip(self.token, mode);
    }
}

impl Wallet {
    /// The keys of a wallet coordinate.
    fn known() -> (keys: Vec<&'static str>)
        ensures
            names(keys@) == WalletModel::keys(),
    {
        let mut keys: Vec<&'static str> = Vec::new();
        keys.push("address");
        keys.push("token");
        assert(names(keys@) =~= WalletModel::keys());
        keys
    }
}

impl ToJson for Wallet {
    open spec fn json_of(model: WalletModel) -> JsonModel {
        model.json()
    }

    /// Writes the wallet coordinate as a JSON object with the keys `address`
    /// and `token`, in this order.
    fn encode(&self) -> (json: Json) {
        let mut members: Vec<(String, Json)> = Vec::new();
        members.push(member("address", self.address.encode()));
        members.push(member("token", self.token.encode()));
        assert(members_model(members@) =~= self@.json()->Object_0);
        object(members)
    }
}

impl FromJson for Wallet {
    open spec fn decoded(value: JsonModel, mode: Mode) -> Result<WalletModel, Fault> {
        WalletModel::decoded(value, mode)
    }

    open spec fn valid(model: WalletModel) -> bool {
        model.valid()
    }

    proof fn lemma_round_trip(model: WalletModel, mode: Mode) {
        model.lemma_round_trip(mode);
    }

    /// Reads a wallet coordinate from a JSON object.
    fn decode(json: &Json, mode: Mode) -> (r: Result<Wallet, Error>) {
        let members = open(json, &Wallet::known(), mode)?;
        let address = read_field::<String>(members, "address", mode)?;
        let token = read_field::<String>(members, "token", mode)?;
        let value = Wallet {
            address,
            token,
        };
        assert(Self::valid(value@));
        Ok(value)
    }
}

/// A block coordinate.
#[derive(Clone, Copy, Debug, PartialEq, Eq)]
pub struct Block {
    pub block: u64,
    pub eon_number: u64,
}

/// A block coordinate as contracts see it.
pub ghost struct BlockModel {
    pub block: u64,
    pub eon_number: u64,
}

impl View for Block {
    type V = BlockModel;

    open spec fn view(&self) -> BlockModel {
        BlockModel {
            block: self.block@,
            eon_number: self.eon_number@,
        }
    }
}

impl BlockModel {
    /// The keys of a block coordinate, in the order they are written.
    pub open spec fn keys() -> Seq<Seq<char>> {
        seq![
            "block"@,
            "eon_number"@,
        ]
    }

    /// The JSON object of a block coordinate.
    pub open spec fn json(self) -> JsonModel {
        JsonModel::Object(
            seq![
                ("block"@, u64::json_of(self.block)),
                ("eon_number"@, u64::json_of(self.eon_number)),
            ],
        )
    }

    /// Every part of the block coordinate is valid.
    pub open spec fn valid(self) -> bool {
        &&& u64::valid(self.block)
        &&& u64::valid(self.eon_number)
    }

    /// The block coordinate that the members of an object make, or the fault of the
    /// first field, in the order of [`Self::keys`], that has one.
    pub open spec fn assembled(members: Members, mode: Mode) -> Result<BlockModel, Fault> {
        let block = field::<u64>(members, "block"@, mode);
        let eon_number = field::<u64>(members, "eon_number"@, mode);
        if block is Err {
            Err(block->Err_0)
        } else if eon_number is Err {
            Err(eon_number->Err_0)
        } else {
            Ok(
                BlockModel {
                    block: block->Ok_0,
                    eon_number: eon_number->Ok_0,
                },
            )
        }
    }

    /// The block coordinate that a JSON value holds, or the first fault found: the
    /// value is no object, then (in strict mode) the first unknown key, then
    /// the fields in the order of [`Self::keys`].
    pub open spec fn decoded(value: JsonModel, mode: Mode) -> Result<BlockModel, Fault> {
        match opened(value, Self::keys(), mode) {
            Err(fault) => Err(fault),
            Ok(members) => Self::assembled(members, mode),
        }
    }

    /// In the object that writes a block coordinate every key is known and is found
    /// with the value of its field.
    pub proof fn lemma_members(self)
        ensures
            self.json() is Object,
            first_unknown(self.json()->Object_0, Self::keys()) is None,
            lookup(self.json()->Object_0, "block"@) == Some(u64::json_of(self.block)),
            lookup(self.json()->Object_0, "eon_number"@) == Some(u64::json_of(self.eon_number)),
    {
        let members = self.json()->Object_0;
        reveal_strlit("block");
        reveal_strlit("eon_number");
        assert("block"@.len() == 5);
        assert("eon_number"@.len() == 10);
        assert(Self::keys()[0] == "block"@);
        assert(Self::keys()[1] == "eon_number"@);
        lemma_all_known(members, Self::keys());
        lemma_lookup_at(members, "block"@, 0);
        lemma_lookup_at(members, "eon_number"@, 1);
    }

    /// A valid block coordinate that was written is read back, in either mode.
    pub proof fn lemma_round_trip(self, mode: Mode)
        requires
            self.valid(),
        ensures
            Self::decoded(self.json(), mode) == Ok::<BlockModel, Fault>(self),
    {
        self.lemma_members();
        u64::lemma_round_trip(self.block, mode);
        u64::lemma_round_trip(self.eon_number, mode);
    }
}

impl Block {
    /// The keys of a block coordinate.
    fn known() -> (keys: Vec<&'static str>)
        ensures
            names(keys@) == BlockModel::keys(),
    {
        let mut keys: Vec<&'static str> = Vec::new();
        keys.push("block");
        keys.push("eon_number");
        assert(names(keys@) =~= BlockModel::keys());
        keys
    }
}

impl ToJson for Block {
    open spec fn json_of(model: BlockModel) -> JsonModel {
        model.json()
    }

    /// Writes the block coordinate as a JSON object with the keys `block` and
    /// `eon_number`, in this order.
    fn encode(&self) -> (json: Json) {
        let mut members: Vec<(String, Json)> = Vec::new();
        members.push(member("block", self.block.encode()));
        members.push(member("eon_number", self.eon_number.encode()));
        assert(members_model(members@) =~= self@.json()->Object_0);
        object(members)
    }
}

impl FromJson for Block {
    open spec fn decoded(value: JsonModel, mode: Mode) -> Result<BlockModel, Fault> {
        BlockModel::decoded(value, mode)
    }

    open spec fn valid(model: BlockModel) -> bool {
        model.valid()
    }

    proof fn lemma_round_trip(model: BlockModel, mode: Mode) {
        model.lemma_round_trip(mode);
    }

    /// Reads a block coordinate from a JSON object.
    fn decode(json: &Json, mode: Mode) -> (r: Result<Block, Error>) {
        let members = open(json, &Block::known(), mode)?;
        let block = read_field::<u64>(members, "block", mode)?;
        let eon_number = read_field::<u64>(members, "eon_number", mode)?;
        let value = Block {
            block,
            eon_number,
        };
        assert(Self::valid(value@));
        Ok(value)
    }
}

/// The active state of a sender.
#[derive(Clone, Debug, PartialEq, Eq)]
pub struct SenderActiveState {
    pub operator_signature: String,
    pub tx_set_hash: String,
    pub tx_set_index: String,
    pub tx_set_proof: Vec<String>,
    pub updated_gains: String,
    pub updated_spendings: String,
    pub wallet_signature: String,
}

/// A sender state as contracts see it.
pub ghost struct SenderActiveStateModel {
    pub operator_signature: Seq<char>,
    pub tx_set_hash: Seq<char>,
    pub tx_set_index: Seq<char>,
    pub tx_set_proof: Seq<Seq<char>>,
    pub updated_gains: Seq<char>,
    pub updated_spendings: Seq<char>,
    pub wallet_signature: Seq<char>,
}

impl View for SenderActiveState {
    type V = SenderActiveStateModel;

    open spec fn view(&self) -> SenderActiveStateModel {
        SenderActiveStateModel {
            operator_signature: self.operator_signature@,
            tx_set_hash: self.tx_set_hash@,
            tx_set_index: self.tx_set_index@,
            tx_set_proof: models(self.tx_set_proof@),
            updated_gains: self.updated_gains@,
            updated_spendings: self.updated_spendings@,
            wallet_signature: self.wallet_signature@,
        }
    }
}

impl SenderActiveStateModel {
    /// The keys of a sender state, in the order they are written.
    pub open spec fn keys() -> Seq<Seq<char>> {
        seq![
            "operator_signature"@,
            "tx_set_hash"@,
            "tx_set_index"@,
            "tx_set_proof"@,
            "updated_gains"@,
            "updated_spendings"@,
            "wallet_signature"@,
        ]
    }

    /// The JSON object of a sender state.
    pub open spec fn json(self) -> JsonModel {
        JsonModel::Object(
            seq![
                ("operator_signature"@, String::json_of(self.operator_signature)),
                ("tx_set_hash"@, String::json_of(self.tx_set_hash)),
                ("tx_set_index"@, String::json_of(self.tx_set_index)),
                ("tx_set_proof"@, list_json::<String>(self.tx_set_proof)),
                ("updated_gains"@, String::json_of(self.updated_gains)),
                ("updated_spendings"@, String::json_of(self.updated_spendings)),
                ("wallet_signature"@, String::json_of(self.wallet_signature)),
            ],
        )
    }

    /// Every part of the sender state is valid.
    pub open spec fn valid(self) -> bool {
        &&& String::valid(self.operator_signature)
        &&& String::valid(self.tx_set_hash)
        &&& String::valid(self.tx_set_index)
        &&& all_valid::<String>(self.tx_set_proof)
        &&& String::valid(self.updated_gains)
        &&& String::valid(self.updated_spendings)
        &&& String::valid(self.wallet_signature)
    }

    /// The sender state that the members of an object make, or the fault of the
    /// first field, in the order of [`Self::keys`], that has one.
    pub open spec fn assembled(members: Members, mode: Mode) -> Result<
        SenderActiveStateModel,
        Fault,
    > {
        let operator_signature = field::<String>(members, "operator_signature"@, mode);
        let tx_set_hash = field::<String>(members, "tx_set_hash"@, mode);
        let tx_set_index = field::<String>(members, "tx_set_index"@, mode);
        let tx_set_proof = list_field::<String>(members, "tx_set_proof"@, mode);
        let updated_gains = field::<String>(members, "updated_gains"@, mode);
        let updated_spendings = field::<String>(members, "updated_spendings"@, mode);
        let wallet_signature = field::<String>(members, "wallet_signature"@, mode);
        if operator_signature is Err {
            Err(operator_signature->Err_0)
        } else if tx_set_hash is Err {
            Err(tx_set_hash->Err_0)
        } else if tx_set_index is Err {
            Err(tx_set_index->Err_0)
        } else if tx_set_proof is Err {
            Err(tx_set_proof->Err_0)
        } else if updated_gains is Err {
            Err(updated_gains->Err_0)
        } else if updated_spendings is Err {
            Err(updated_spendings->Err_0)
        } else if wallet_signature is Err {
            Err(wallet_signature->Err_0)
        } else {
            Ok(
                SenderActiveStateModel {
                    operator_signature: operator_signature->Ok_0,
                    tx_set_hash: tx_set_hash->Ok_0,
                    tx_set_index: tx_set_index->Ok_0,
                    tx_set_proof: tx_set_proof->Ok_0,
                    updated_gains: updated_gains->Ok_0,
                    updated_spendings: updated_spendings->Ok_0,
                    wallet_signature: wallet_signature->Ok_0,
                },
            )
        }
    }

    /// The sender state that a JSON value holds, or the first fault found: the
    /// value is no object, then (in strict mode) the first unknown key, then
    /// the fields in the order of [`Self::keys`].
    pub open spec fn decoded(value: JsonModel, mode: Mode) -> Result<
        SenderActiveStateModel,
        Fault,
    > {
        match opened(value, Self::keys(), mode) {
            Err(fault) => Err(fault),
            Ok(members) => Self::assembled(members, mode),
        }
    }

    /// In the object that writes a sender state every key is known and is found
    /// with the value of its field.
    pub proof fn lemma_members(self)
        ensures
            self.json() is Object,
            first_unknown(self.json()->Object_0, Self::keys()) is None,
            lookup(self.json()->Object_0, "operator_signature"@) == Some(
                String::json_of(self.operator_signature),
            ),
            lookup(self.json()->Object_0, "tx_set_hash"@) == Some(
                String::json_of(self.tx_set_hash),
            ),
            lookup(self.json()->Object_0, "tx_set_index"@) == Some(
                String::json_of(self.tx_set_index),
            ),
            lookup(self.json()->Object_0, "tx_set_proof"@) == Some(
                list_json::<String>(self.tx_set_proof),
            ),
            lookup(self.json()->Object_0, "updated_gains"@) == Some(
                String::json_of(self.updated_gains),
            ),
            lookup(self.json()->Object_0, "updated_spendings"@) == Some(
                String::json_of(self.updated_spendings),
            ),
            lookup(self.json()->Object_0, "wallet_signature"@) == Some(
                String::json_of(self.wallet_signature),
            ),
    {
        let members = self.json()->Object_0;
        reveal_strlit("operator_signature");
        reveal_strlit("tx_set_hash");
        reveal_strlit("tx_set_index");
        reveal_strlit("tx_set_proof");
        reveal_strlit("updated_gains");
        reveal_strlit("updated_spendings");
        reveal_strlit("wallet_signature");
        assert("operator_signature"@.len() == 18);
        assert("tx_set_hash"@.len() == 11);
        assert("tx_set_index"@.len() == 12);
        assert("tx_set_proof"@.len() == 12);
        assert("updated_gains"@.len() == 13);
        assert("updated_spendings"@.len() == 17);
        assert("wallet_signature"@.len() == 16);
        assert("tx_set_index"@[7] == 'i');
        assert("tx_set_proof"@[7] == 'p');
        assert(Self::keys()[0] == "operator_signature"@);
        assert(Self::keys()[1] == "tx_set_hash"@);
        assert(Self::keys()[2] == "tx_set_index"@);
        assert(Self::keys()[3] == "tx_set_proof"@);
        assert(Self::keys()[4] == "updated_gains"@);
        assert(Self::keys()[5] == "updated_spendings"@);
        assert(Self::keys()[6] == "wallet_signature"@);
        lemma_all_known(members, Self::keys());
        lemma_lookup_at(members, "operator_signature"@, 0);
        lemma_lookup_at(members, "tx_set_hash"@, 1);
        lemma_lookup_at(members, "tx_set_index"@, 2);
        lemma_lookup_at(members, "tx_set_proof"@, 3);
        lemma_lookup_at(members, "updated_gains"@, 4);
        lemma_lookup_at(members, "updated_spendings"@, 5);
        lemma_lookup_at(members, "wallet_signature"@, 6);
    }

    /// A valid sender state that was written is read back, in either mode.
    pub proof fn lemma_round_trip(self, mode: Mode)
        requires
            self.valid(),
        ensures
            Self::decoded(self.json(), mode) == Ok::<SenderActiveStateModel, Fault>(self),
    {
        self.lemma_members();
        String::lemma_round_trip(self.operator_signature, mode);
        String::lemma_round_trip(self.tx_set_hash, mode);
        String::lemma_round_trip(self.tx_set_index, mode);
        lemma_list_round_trip::<String>(self.tx_set_proof, mode);
        String::lemma_round_trip(self.updated_gains, mode);
        String::lemma_round_trip(self.updated_spendings, mode);
        String::lemma_round_trip(self.wallet_signature, mode);
    }
}

impl SenderActiveState {
    /// The keys of a sender state.
    fn known() -> (keys: Vec<&'static str>)
        ensures
            names(keys@) == SenderActiveStateModel::keys(),
    {
        let mut keys: Vec<&'static str> = Vec::new();
        keys.push("operator_signature");
        keys.push("tx_set_hash");
        keys.push("tx_set_index");
        keys.push("tx_set_proof");
        keys.push("updated_gains");
        keys.push("updated_spendings");
        keys.push("wallet_signature");
        assert(names(keys@) =~= SenderActiveStateModel::keys());
        keys
    }
}

impl ToJson for SenderActiveState {
    open spec fn json_of(model: SenderActiveStateModel) -> JsonModel {
        model.json()
    }

    /// Writes the sender state as a JSON object with the keys
    /// `operator_signature`, `tx_set_hash`, `tx_set_index`, `tx_set_proof`,
    /// `updated_gains`, `updated_spendings` and `wallet_signature`, in this
    /// order.
    fn encode(&self) -> (json: Json) {
        let mut members: Vec<(String, Json)> = Vec::new();
        members.push(member("operator_signature", self.operator_signature.encode()));
        members.push(member("tx_set_hash", self.tx_set_hash.encode()));
        members.push(member("tx_set_index", self.tx_set_index.encode()));
        members.push(member("tx_set_proof", write_list(&self.tx_set_proof)));
        members.push(member("updated_gains", self.updated_gains.encode()));
        members.push(member("updated_spendings", self.updated_spendings.encode()));
        members.push(member("wallet_signature", self.wallet_signature.encode()));
        assert(members_model(members@) =~= self@.json()->Object_0);
        object(members)
    }
}

impl FromJson for SenderActiveState {
    open spec fn decoded(value: JsonModel, mode: Mode) -> Result<SenderActiveStateModel, Fault> {
        SenderActiveStateModel::decoded(value, mode)
    }

    open spec fn valid(model: SenderActiveStateModel) -> bool {
        model.valid()
    }

    proof fn lemma_round_trip(model: SenderActiveStateModel, mode: Mode) {
        model.lemma_round_trip(mode);
    }

    /// Reads a sender state from a JSON object.
    fn decode(json: &Json, mode: Mode) -> (r: Result<SenderActiveState, Error>) {
        let members = open(json, &SenderActiveState::known(), mode)?;
        let operator_signature = read_field::<String>(members, "operator_signature", mode)?;
        let tx_set_hash = read_field::<String>(members, "tx_set_hash", mode)?;
        let tx_set_index = read_field::<String>(members, "tx_set_index", mode)?;
        let tx_set_proof = read_list_field::<String>(members, "tx_set_proof", mode)?;
        let updated_gains = read_field::<String>(members, "updated_gains", mode)?;
        let updated_spendings = read_field::<String>(members, "updated_spendings", mode)?;
        let wallet_signature = read_field::<String>(members, "wallet_signature", mode)?;
        let value = SenderActiveState {
            operator_signature,
            tx_set_hash,
            tx_set_index,
            tx_set_proof,
            updated_gains,
            updated_spendings,
            wallet_signature,
        };
        assert(Self::valid(value@));
        Ok(value)
    }
}

/// An active state.
#[derive(Clone, Debug, PartialEq, Eq)]
pub struct ActiveState {
    pub operator_signature: String,
    pub tx_set_hash: String,
    pub updated_gains: String,
    pub updated_spendings: String,
    pub wallet_signature: String,
}

/// An active state as contracts see it.
pub ghost struct ActiveStateModel {
    pub operator_signature: Seq<char>,
    pub tx_set_hash: Seq<char>,
    pub updated_gains: Seq<char>,
    pub updated_spendings: Seq<char>,
    pub wallet_signature: Seq<char>,
}

impl View for ActiveState {
    type V = ActiveStateModel;

    open spec fn view(&self) -> ActiveStateModel {
        ActiveStateModel {
            operator_signature: self.operator_signature@,
            tx_set_hash: self.tx_set_hash@,
            updated_gains: self.updated_gains@,
            updated_spendings: self.updated_spendings@,
            wallet_signature: self.wallet_signature@,
        }
    }
}

impl ActiveStateModel {
    /// The keys of an active state, in the order they are written.
    pub open spec fn keys() -> Seq<Seq<char>> {
        seq![
            "operator_signature"@,
            "tx_set_hash"@,
            "updated_gains"@,
            "updated_spendings"@,
            "wallet_signature"@,
        ]
    }

    /// The JSON object of an active state.
    pub open spec fn json(self) -> JsonModel {
        JsonModel::Object(
            seq![
                ("operator_signature"@, String::json_of(self.operator_signature)),
                ("tx_set_hash"@, String::json_of(self.tx_set_hash)),
                ("updated_gains"@, String::json_of(self.updated_gains)),
                ("updated_spendings"@, String::json_of(self.updated_spendings)),
                ("wallet_signature"@, String::json_of(self.wallet_signature)),
            ],
        )
    }

    /// Every part of the active state is valid.
    pub open spec fn valid(self) -> bool {
        &&& String::valid(self.operator_signature)
        &&& String::valid(self.tx_set_hash)
        &&& String::valid(self.updated_gains)
        &&& String::valid(self.updated_spendings)
        &&& String::valid(self.wallet_signature)
    }

    /// The active state that the members of an object make, or the fault of the
    /// first field, in the order of [`Self::keys`], that has one.
    pub open spec fn assembled(members: Members, mode: Mode) -> Result<ActiveStateModel, Fault> {
        let operator_signature = field::<String>(members, "operator_signature"@, mode);
        let tx_set_hash = field::<String>(members, "tx_set_hash"@, mode);
        let updated_gains = field::<String>(members, "updated_gains"@, mode);
        let updated_spendings = field::<String>(members, "updated_spendings"@, mode);
        let wallet_signature = field::<String>(members, "wallet_signature"@, mode);
        if operator_signature is Err {
            Err(operator_signature->Err_0)
        } else if tx_set_hash is Err {
            Err(tx_set_hash->Err_0)
        } else if updated_gains is Err {
            Err(updated_gains->Err_0)
        } else if updated_spendings is Err {
            Err(updated_spendings->Err_0)
        } else if wallet_signature is Err {
            Err(wallet_signature->Err_0)
        } else {
            Ok(
                ActiveStateModel {
                    operator_signature: operator_signature->Ok_0,
                    tx_set_hash: tx_set_hash->Ok_0,
                    updated_gains: updated_gains->Ok_0,
                    updated_spendings: updated_spendings->Ok_0,
                    wallet_signature: wallet_signature->Ok_0,
                },
            )
        }
    }

    /// The active state that a JSON value holds, or the first fault found: the
    /// value is no object, then (in strict mode) the first unknown key, then
    /// the fields in the order of [`Self::keys`].
    pub open spec fn decoded(value: JsonModel, mode: Mode) -> Result<ActiveStateModel, Fault> {
        match opened(value, Self::keys(), mode) {
            Err(fault) => Err(fault),
            Ok(members) => Self::assembled(members, mode),
        }
    }

    /// In the object that writes an active state every key is known and is found
    /// with the value of its field.
    pub proof fn lemma_members(self)
        ensures
            self.json() is Object,
            first_unknown(self.json()->Object_0, Self::keys()) is None,
            lookup(self.json()->Object_0, "operator_signature"@) == Some(
                String::json_of(self.operator_signature),
            ),
            lookup(self.json()->Object_0, "tx_set_hash"@) == Some(
                String::json_of(self.tx_set_hash),
            ),
            lookup(self.json()->Object_0, "updated_gains"@) == Some(
                String::json_of(self.updated_gains),
            ),
            lookup(self.json()->Object_0, "updated_spendings"@) == Some(
                String::json_of(self.updated_spendings),
            ),
            lookup(self.json()->Object_0, "wallet_signature"@) == Some(
                String::json_of(self.wallet_signature),
            ),
    {
        let members = self.json()->Object_0;
        reveal_strlit("operator_signature");
        reveal_strlit("tx_set_hash");
        reveal_strlit("updated_gains");
        reveal_strlit("updated_spendings");
        reveal_strlit("wallet_signature");
        assert("operator_signature"@.len() == 18);
        assert("tx_set_hash"@.len() == 11);
        assert("updated_gains"@.len() == 13);
        assert("updated_spendings"@.len() == 17);
        assert("wallet_signature"@.len() == 16);
        assert(Self::keys()[0] == "operator_signature"@);
        assert(Self::keys()[1] == "tx_set_hash"@);
        assert(Self::keys()[2] == "updated_gains"@);
        assert(Self::keys()[3] == "updated_spendings"@);
        assert(Self::keys()[4] == "wallet_signature"@);
        lemma_all_known(members, Self::keys());
        lemma_lookup_at(members, "operator_signature"@, 0);
        lemma_lookup_at(members, "tx_set_hash"@, 1);
        lemma_lookup_at(members, "updated_gains"@, 2);
        lemma_lookup_at(members, "updated_spendings"@, 3);
        lemma_lookup_at(members, "wallet_signature"@, 4);
    }

    /// A valid active state that was written is read back, in either mode.
    pub proof fn lemma_round_trip(self, mode: Mode)
        requires
            self.valid(),
        ensures
            Self::decoded(self.json(), mode) == Ok::<ActiveStateModel, Fault>(self),
    {
        self.lemma_members();
        String::lemma_round_trip(self.operator_signature, mode);
        String::lemma_round_trip(self.tx_set_hash, mode);
        String::lemma_round_trip(self.updated_gains, mode);
        String::lemma_round_trip(self.updated_spendings, mode);
        String::lemma_round_trip(self.wallet_signature, mode);
    }
}

impl ActiveState {
    /// The keys of an active state.
    fn known() -> (keys: Vec<&'static str>)
        ensures
            names(keys@) == ActiveStateModel::keys(),
    {
        let mut keys: Vec<&'static str> = Vec::new();
        keys.push("operator_signature");
        keys.push("tx_set_hash");
        keys.push("updated_gains");
        keys.push("updated_spendings");
        keys.push("wallet_signature");
        assert(names(keys@) =~= ActiveStateModel::keys());
        keys
    }
}

impl ToJson for ActiveState {
    open spec fn json_of(model: ActiveStateModel) -> JsonModel {
        model.json()
    }

    /// Writes the active state as a JSON object with the keys
    /// `operator_signature`, `tx_set_hash`, `updated_gains`,
    /// `updated_spendings` and `wallet_signature`, in this order.
    fn encode(&self) -> (json: Json) {
        let mut members: Vec<(String, Json)> = Vec::new();
        members.push(member("operator_signature", self.operator_signature.encode()));
        members.push(member("tx_set_hash", self.tx_set_hash.encode()));
        members.push(member("updated_gains", self.updated_gains.encode()));
        members.push(member("updated_spendings", self.updated_spendings.encode()));
        members.push(member("wallet_signature", self.wallet_signature.encode()));
        assert(members_model(members@) =~= self@.json()->Object_0);
        object(members)
    }
}

impl FromJson for ActiveState {
    open spec fn decoded(value: JsonModel, mode: Mode) -> Result<ActiveStateModel, Fault> {
        ActiveStateModel::decoded(value, mode)
    }

    open spec fn valid(model: ActiveStateModel) -> bool {
        model.valid()
    }

    proof fn lemma_round_trip(model: ActiveStateModel, mode: Mode) {
        model.lemma_round_trip(mode);
    }

    /// Reads an active state from a JSON object.
    fn decode(json: &Json, mode: Mode) -> (r: Result<ActiveState, Error>) {
        let members = open(json, &ActiveState::known(), mode)?;
        let operator_signature = read_field::<String>(members, "operator_signature", mode)?;
        let tx_set_hash = read_field::<String>(members, "tx_set_hash", mode)?;
        let updated_gains = read_field::<String>(members, "updated_gains", mode)?;
        let updated_spendings = read_field::<String>(members, "updated_spendings", mode)?;
        let wallet_signature = read_field::<String>(members, "wallet_signature", mode)?;
        let value = ActiveState {
            operator_signature,
            tx_set_hash,
            updated_gains,
            updated_spendings,
            wallet_signature,
        };
        assert(Self::valid(value@));
        Ok(value)
    }
}

/// A Merkle proof.
#[derive(Clone, Debug, PartialEq, Eq)]
pub struct MerkleProof {
    pub active_state: ActiveState,
    pub active_state_checksum: String,
    pub allotment_chain: Vec<String>,
    pub eon_number: u64,
    pub left: u64,
    pub membership_chain: Vec<String>,
    pub passive_amount: u64,
    pub passive_checksum: String,
    pub passive_marker: String,
    pub right: u64,
    pub trail: u64,
    pub values: Vec<u64>,
}

/// A Merkle proof as contracts see it.
pub ghost struct MerkleProofModel {
    pub active_state: ActiveStateModel,
    pub active_state_checksum: Seq<char>,
    pub allotment_chain: Seq<Seq<char>>,
    pub eon_number: u64,
    pub left: u64,
    pub membership_chain: Seq<Seq<char>>,
    pub passive_amount: u64,
    pub passive_checksum: Seq<char>,
    pub passive_marker: Seq<char>,
    pub right: u64,
    pub trail: u64,
    pub values: Seq<u64>,
}

impl View for MerkleProof {
    type V = MerkleProofModel;

    open spec fn view(&self) -> MerkleProofModel {
        MerkleProofModel {
            active_state: self.active_state@,
            active_state_checksum: self.active_state_checksum@,
            allotment_chain: models(self.allotment_chain@),
            eon_number: self.eon_number@,
            left: self.left@,
            membership_chain: models(self.membership_chain@),
            passive_amount: self.passive_amount@,
            passive_checksum: self.passive_checksum@,
            passive_marker: self.passive_marker@,
            right: self.right@,
            trail: self.trail@,
            values: models(self.values@),
        }
    }
}

impl MerkleProofModel {
    /// The keys of a Merkle proof, in the order they are written.
    pub open spec fn keys() -> Seq<Seq<char>> {
        seq![
            "active_state"@,
            "active_state_checksum"@,
            "allotment_chain"@,
            "eon_number"@,
            "left"@,
            "membership_chain"@,
            "passive_amount"@,
            "passive_checksum"@,
            "passive_marker"@,
            "right"@,
            "trail"@,
            "values"@,
        ]
    }

    /// The JSON object of a Merkle proof.
    pub open spec fn json(self) -> JsonModel {
        JsonModel::Object(
            seq![
                ("active_state"@, ActiveState::json_of(self.active_state)),
                ("active_state_checksum"@, String::json_of(self.active_state_checksum)),
                ("allotment_chain"@, list_json::<String>(self.allotment_chain)),
                ("eon_number"@, u64::json_of(self.eon_number)),
                ("left"@, u64::json_of(self.left)),
                ("membership_chain"@, list_json::<String>(self.membership_chain)),
                ("passive_amount"@, u64::json_of(self.passive_amount)),
                ("passive_checksum"@, String::json_of(self.passive_checksum)),
                ("passive_marker"@, String::json_of(self.passive_marker)),
                ("right"@, u64::json_of(self.right)),
                ("trail"@, u64::json_of(self.trail)),
                ("values"@, list_json::<u64>(self.values)),
            ],
        )
    }

    /// Every part of the Merkle proof is valid.
    pub open spec fn valid(self) -> bool {
        &&& ActiveState::valid(self.active_state)
        &&& String::valid(self.active_state_checksum)
        &&& all_valid::<String>(self.allotment_chain)
        &&& u64::valid(self.eon_number)
        &&& u64::valid(self.left)
        &&& all_valid::<String>(self.membership_chain)
        &&& u64::valid(self.passive_amount)
        &&& String::valid(self.passive_checksum)
        &&& String::valid(self.passive_marker)
        &&& u64::valid(self.right)
        &&& u64::valid(self.trail)
        &&& all_valid::<u64>(self.values)
    }

    /// The Merkle proof that the members of an object make, or the fault of the
    /// first field, in the order of [`Self::keys`], that has one.
    pub open spec fn assembled(members: Members, mode: Mode) -> Result<MerkleProofModel, Fault> {
        let active_state = field::<ActiveState>(members, "active_state"@, mode);
        let active_state_checksum = field::<String>(members, "active_state_checksum"@, mode);
        let allotment_chain = list_field::<String>(members, "allotment_chain"@, mode);
        let eon_number = field::<u64>(members, "eon_number"@, mode);
        let left = field::<u64>(members, "left"@, mode);
        let membership_chain = list_field::<String>(members, "membership_chain"@, mode);
        let passive_amount = field::<u64>(members, "passive_amount"@, mode);
        let passive_checksum = field::<String>(members, "passive_checksum"@, mode);
        let passive_marker = field::<String>(members, "passive_marker"@, mode);
        let right = field::<u64>(members, "right"@, mode);
        let trail = field::<u64>(members, "trail"@, mode);
        let values = list_field::<u64>(members, "values"@, mode);
        if active_state is Err {
            Err(active_state->Err_0)
        } else if active_state_checksum is Err {
            Err(active_state_checksum->Err_0)
        } else if allotment_chain is Err {
            Err(allotment_chain->Err_0)
        } else if eon_number is Err {
            Err(eon_number->Err_0)
        } else if left is Err {
            Err(left->Err_0)
        } else if membership_chain is Err {
            Err(membership_chain->Err_0)
        } else if passive_amount is Err {
            Err(passive_amount->Err_0)
        } else if passive_checksum is Err {
            Err(passive_checksum->Err_0)
        } else if passive_marker is Err {
            Err(passive_marker->Err_0)
        } else if right is Err {
            Err(right->Err_0)
        } else if trail is Err {
            Err(trail->Err_0)
        } else if values is Err {
            Err(values->Err_0)
        } else {
            Ok(
                MerkleProofModel {
                    active_state: active_state->Ok_0,
                    active_state_checksum: active_state_checksum->Ok_0,
                    allotment_chain: allotment_chain->Ok_0,
                    eon_number: eon_number->Ok_0,
                    left: left->Ok_0,
                    membership_chain: membership_chain->Ok_0,
                    passive_amount: passive_amount->Ok_0,
                    passive_checksum: passive_checksum->Ok_0,
                    passive_marker: passive_marker->Ok_0,
                    right: right->Ok_0,
                    trail: trail->Ok_0,
                    values: values->Ok_0,
                },
            )
        }
    }

    /// The Merkle proof that a JSON value holds, or the first fault found: the
    /// value is no object, then (in strict mode) the first unknown key, then
    /// the fields in the order of [`Self::keys`].
    pub open spec fn decoded(value: JsonModel, mode: Mode) -> Result<MerkleProofModel, Fault> {
        match opened(value, Self::keys(), mode) {
            Err(fault) => Err(fault),
            Ok(members) => Self::assembled(members, mode),
        }
    }

    /// In the object that writes a Merkle proof every key is known and is found
    /// with the value of its field.
    pub proof fn lemma_members(self)
        ensures
            self.json() is Object,
            first_unknown(self.json()->Object_0, Self::keys()) is None,
            lookup(self.json()->Object_0, "active_state"@) == Some(
                ActiveState::json_of(self.active_state),
            ),
            lookup(self.json()->Object_0, "active_state_checksum"@) == Some(
                String::json_of(self.active_state_checksum),
            ),
            lookup(self.json()->Object_0, "allotment_chain"@) == Some(
                list_json::<String>(self.allotment_chain),
            ),
            lookup(self.json()->Object_0, "eon_number"@) == Some(u64::json_of(self.eon_number)),
            lookup(self.json()->Object_0, "left"@) == Some(u64::json_of(self.left)),
            lookup(self.json()->Object_0, "membership_chain"@) == Some(
                list_json::<String>(self.membership_chain),
            ),
            lookup(self.json()->Object_0, "passive_amount"@) == Some(
                u64::json_of(self.passive_amount),
            ),
            lookup(self.json()->Object_0, "passive_checksum"@) == Some(
                String::json_of(self.passive_checksum),
            ),
            lookup(self.json()->Object_0, "passive_marker"@) == Some(
                String::json_of(self.passive_marker),
            ),
            lookup(self.json()->Object_0, "right"@) == Some(u64::json_of(self.right)),
            lookup(self.json()->Object_0, "trail"@) == Some(u64::json_of(self.trail)),
            lookup(self.json()->Object_0, "values"@) == Some(list_json::<u64>(self.values)),
    {
        let members = self.json()->Object_0;
        reveal_strlit("active_state");
        reveal_strlit("active_state_checksum");
        reveal_strlit("allotment_chain");
        reveal_strlit("eon_number");
        reveal_strlit("left");
        reveal_strlit("membership_chain");
        reveal_strlit("passive_amount");
        reveal_strlit("passive_checksum");
        reveal_strlit("passive_marker");
        reveal_strlit("right");
        reveal_strlit("trail");
        reveal_strlit("values");
        assert("active_state"@.len() == 12);
        assert("active_state_checksum"@.len() == 21);
        assert("allotment_chain"@.len() == 15);
        assert("eon_number"@.len() == 10);
        assert("left"@.len() == 4);
        assert("membership_chain"@.len() == 16);
        assert("passive_amount"@.len() == 14);
        assert("passive_checksum"@.len() == 16);
        assert("passive_marker"@.len() == 14);
        assert("right"@.len() == 5);
        assert("trail"@.len() == 5);
        assert("values"@.len() == 6);
        assert("membership_chain"@[0] == 'm');
        assert("passive_checksum"@[0] == 'p');
        assert("passive_amount"@[8] == 'a');
        assert("passive_marker"@[8] == 'm');
        assert("right"@[0] == 'r');
        assert("trail"@[0] == 't');
        assert(Self::keys()[0] == "active_state"@);
        assert(Self::keys()[1] == "active_state_checksum"@);
        assert(Self::keys()[2] == "allotment_chain"@);
        assert(Self::keys()[3] == "eon_number"@);
        assert(Self::keys()[4] == "left"@);
        assert(Self::keys()[5] == "membership_chain"@);
        assert(Self::keys()[6] == "passive_amount"@);
        assert(Self::keys()[7] == "passive_checksum"@);
        assert(Self::keys()[8] == "passive_marker"@);
        assert(Self::keys()[9] == "right"@);
        assert(Self::keys()[10] == "trail"@);
        assert(Self::keys()[11] == "values"@);
        lemma_all_known(members, Self::keys());
        lemma_lookup_at(members, "active_state"@, 0);
        lemma_lookup_at(members, "active_state_checksum"@, 1);
        lemma_lookup_at(members, "allotment_chain"@, 2);
        lemma_lookup_at(members, "eon_number"@, 3);
        lemma_lookup_at(members, "left"@, 4);
        lemma_lookup_at(members, "membership_chain"@, 5);
        lemma_lookup_at(members, "passive_amount"@, 6);
        lemma_lookup_at(members, "passive_checksum"@, 7);
        lemma_lookup_at(members, "passive_marker"@, 8);
        lemma_lookup_at(members, "right"@, 9);
        lemma_lookup_at(members, "trail"@, 10);
        lemma_lookup_at(members, "values"@, 11);
    }

    /// A valid Merkle proof that was written is read back, in either mode.
    pub proof fn lemma_round_trip(self, mode: Mode)
        requires
            self.valid(),
        ensures
            Self::decoded(self.json(), mode) == Ok::<MerkleProofModel, Fault>(self),
    {
        self.lemma_members();
        ActiveState::lemma_round_trip(self.active_state, mode);
        String::lemma_round_trip(self.active_state_checksum, mode);
        lemma_list_round_trip::<String>(self.allotment_chain, mode);
        u64::lemma_round_trip(self.eon_number, mode);
        u64::lemma_round_trip(self.left, mode);
        lemma_list_round_trip::<String>(self.membership_chain, mode);
        u64::lemma_round_trip(self.passive_amount, mode);
        String::lemma_round_trip(self.passive_checksum, mode);
        String::lemma_round_trip(self.passive_marker, mode);
        u64::lemma_round_trip(self.right, mode);
        u64::lemma_round_trip(self.trail, mode);
        lemma_list_round_trip::<u64>(self.values, mode);
    }
}

impl MerkleProof {
    /// The keys of a Merkle proof.
    fn known() -> (keys: Vec<&'static str>)
        ensures
            names(keys@) == MerkleProofModel::keys(),
    {
        let mut keys: Vec<&'static str> = Vec::new();
        keys.push("active_state");
        keys.push("active_state_checksum");
        keys.push("allotment_chain");
        keys.push("eon_number");
        keys.push("left");
        keys.push("membership_chain");
        keys.push("passive_amount");
        keys.push("passive_checksum");
        keys.push("passive_marker");
        keys.push("right");
        keys.push("trail");
        keys.push("values");
        assert(names(keys@) =~= MerkleProofModel::keys());
        keys
    }
}

impl ToJson for MerkleProof {
    open spec fn json_of(model: MerkleProofModel) -> JsonModel {
        model.json()
    }

    /// Writes the Merkle proof as a JSON object with the keys `active_state`,
    /// `active_state_checksum`, `allotment_chain`, `eon_number`, `left`,
    /// `membership_chain`, `passive_amount`, `passive_checksum`,
    /// `passive_marker`, `right`, `trail` and `values`, in this order.
    fn encode(&self) -> (json: Json) {
        let mut members: Vec<(String, Json)> = Vec::new();
        members.push(member("active_state", self.active_state.encode()));
        members.push(member("active_state_checksum", self.active_state_checksum.encode()));
        members.push(member("allotment_chain", write_list(&self.allotment_chain)));
        members.push(member("eon_number", self.eon_number.encode()));
        members.push(member("left", self.left.encode()));
        members.push(member("membership_chain", write_list(&self.membership_chain)));
        members.push(member("passive_amount", self.passive_amount.encode()));
        members.push(member("passive_checksum", self.passive_checksum.encode()));
        members.push(member("passive_marker", self.passive_marker.encode()));
        members.push(member("right", self.right.encode()));
        members.push(member("trail", self.trail.encode()));
        members.push(member("values", write_list(&self.values)));
        assert(members_model(members@) =~= self@.json()->Object_0);
        object(members)
    }
}

impl FromJson for MerkleProof {
    open spec fn decoded(value: JsonModel, mode: Mode) -> Result<MerkleProofModel, Fault> {
        MerkleProofModel::decoded(value, mode)
    }

    open spec fn valid(model: MerkleProofModel) -> bool {
        model.valid()
    }

    proof fn lemma_round_trip(model: MerkleProofModel, mode: Mode) {
        model.lemma_round_trip(mode);
    }

    /// Reads a Merkle proof from a JSON object.
    fn decode(json: &Json, mode: Mode) -> (r: Result<MerkleProof, Error>) {
        let members = open(json, &MerkleProof::known(), mode)?;
        let active_state = read_field::<ActiveState>(members, "active_state", mode)?;
        let active_state_checksum = read_field::<String>(members, "active_state_checksum", mode)?;
        let allotment_chain = read_list_field::<String>(members, "allotment_chain", mode)?;
        let eon_number = read_field::<u64>(members, "eon_number", mode)?;
        let left = read_field::<u64>(members, "left", mode)?;
        let membership_chain = read_list_field::<String>(members, "membership_chain", mode)?;
        let passive_amount = read_field::<u64>(members, "passive_amount", mode)?;
        let passive_checksum = read_field::<String>(members, "passive_checksum", mode)?;
        let passive_marker = read_field::<String>(members, "passive_marker", mode)?;
        let right = read_field::<u64>(members, "right", mode)?;
        let trail = read_field::<u64>(members, "trail", mode)?;
        let values = read_list_field::<u64>(members, "values", mode)?;
        let value = MerkleProof {
            active_state,
            active_state_checksum,
            allotment_chain,
            eon_number,
            left,
            membership_chain,
            passive_amount,
            passive_checksum,
            passive_marker,
            right,
            trail,
            values,
        };
        assert(Self::valid(value@));
        Ok(value)
    }
}

/// A proof of delivery.
#[derive(Clone, Debug, PartialEq, Eq)]
pub struct DeliveryProof {
    pub merkle_proof: MerkleProof,
    pub transfer_membership_chain: Vec<String>,
    pub transfer_membership_trail: u64,
    pub transfer_membership_values: Vec<u64>,
}

/// A delivery proof as contracts see it.
pub ghost struct DeliveryProofModel {
    pub merkle_proof: MerkleProofModel,
    pub transfer_membership_chain: Seq<Seq<char>>,
    pub transfer_membership_trail: u64,
    pub transfer_membership_values: Seq<u64>,
}

impl View for DeliveryProof {
    type V = DeliveryProofModel;

    open spec fn view(&self) -> DeliveryProofModel {
        DeliveryProofModel {
            merkle_proof: self.merkle_proof@,
            transfer_membership_chain: models(self.transfer_membership_chain@),
            transfer_membership_trail: self.transfer_membership_trail@,
            transfer_membership_values: models(self.transfer_membership_values@),
        }
    }
}

impl DeliveryProofModel {
    /// The keys of a delivery proof, in the order they are written.
    pub open spec fn keys() -> Seq<Seq<char>> {
        seq![
            "merkle_proof"@,
            "transfer_membership_chain"@,
            "transfer_membership_trail"@,
            "transfer_membership_values"@,
        ]
    }

    /// The JSON object of a delivery proof.
    pub open spec fn json(self) -> JsonModel {
        JsonModel::Object(
            seq![
                ("merkle_proof"@, MerkleProof::json_of(self.merkle_proof)),
                ("transfer_membership_chain"@, list_json::<String>(self.transfer_membership_chain)),
                ("transfer_membership_trail"@, u64::json_of(self.transfer_membership_trail)),
                ("transfer_membership_values"@, list_json::<u64>(self.transfer_membership_values)),
            ],
        )
    }

    /// Every part of the delivery proof is valid.
    pub open spec fn valid(self) -> bool {
        &&& MerkleProof::valid(self.merkle_proof)
        &&& all_valid::<String>(self.transfer_membership_chain)
        &&& u64::valid(self.transfer_membership_trail)
        &&& all_valid::<u64>(self.transfer_membership_values)
    }

    /// The delivery proof that the members of an object make, or the fault of the
    /// first field, in the order of [`Self::keys`], that has one.
    pub open spec fn assembled(members: Members, mode: Mode) -> Result<DeliveryProofModel, Fault> {
        let merkle_proof = field::<MerkleProof>(members, "merkle_proof"@, mode);
        let transfer_membership_chain = list_field::<String>(
            members,
            "transfer_membership_chain"@,
            mode,
        );
        let transfer_membership_trail = field::<u64>(members, "transfer_membership_trail"@, mode);
        let transfer_membership_values = list_field::<u64>(
            members,
            "transfer_membership_values"@,
            mode,
        );
        if merkle_proof is Err {
            Err(merkle_proof->Err_0)
        } else if transfer_membership_chain is Err {
            Err(transfer_membership_chain->Err_0)
        } else if transfer_membership_trail is Err {
            Err(transfer_membership_trail->Err_0)
        } else if transfer_membership_values is Err {
            Err(transfer_membership_values->Err_0)
        } else {
            Ok(
                DeliveryProofModel {
                    merkle_proof: merkle_proof->Ok_0,
                    transfer_membership_chain: transfer_membership_chain->Ok_0,
                    transfer_membership_trail: transfer_membership_trail->Ok_0,
                    transfer_membership_values: transfer_membership_values->Ok_0,
                },
            )
        }
    }

    /// The delivery proof that a JSON value holds, or the first fault found: the
    /// value is no object, then (in strict mode) the first unknown key, then
    /// the fields in the order of [`Self::keys`].
    pub open spec fn decoded(value: JsonModel, mode: Mode) -> Result<DeliveryProofModel, Fault> {
        match opened(value, Self::keys(), mode) {
            Err(fault) => Err(fault),
            Ok(members) => Self::assembled(members, mode),
        }
    }

    /// In the object that writes a delivery proof every key is known and is found
    /// with the value of its field.
    pub proof fn lemma_members(self)
        ensures
            self.json() is Object,
            first_unknown(self.json()->Object_0, Self::keys()) is None,
            lookup(self.json()->Object_0, "merkle_proof"@) == Some(
                MerkleProof::json_of(self.merkle_proof),
            ),
            lookup(self.json()->Object_0, "transfer_membership_chain"@) == Some(
                list_json::<String>(self.transfer_membership_chain),
            ),
            lookup(self.json()->Object_0, "transfer_membership_trail"@) == Some(
                u64::json_of(self.transfer_membership_trail),
            ),
            lookup(self.json()->Object_0, "transfer_membership_values"@) == Some(
                list_json::<u64>(self.transfer_membership_values),
            ),
    {
        let members = self.json()->Object_0;
        reveal_strlit("merkle_proof");
        reveal_strlit("transfer_membership_chain");
        reveal_strlit("transfer_membership_trail");
        reveal_strlit("transfer_membership_values");
        assert("merkle_proof"@.len() == 12);
        assert("transfer_membership_chain"@.len() == 25);
        assert("transfer_membership_trail"@.len() == 25);
        assert("transfer_membership_values"@.len() == 26);
        assert("transfer_membership_chain"@[20] == 'c');
        assert("transfer_membership_trail"@[20] == 't');
        assert(Self::keys()[0] == "merkle_proof"@);
        assert(Self::keys()[1] == "transfer_membership_chain"@);
        assert(Self::keys()[2] == "transfer_membership_trail"@);
        assert(Self::keys()[3] == "transfer_membership_values"@);
        lemma_all_known(members, Self::keys());
        lemma_lookup_at(members, "merkle_proof"@, 0);
        lemma_lookup_at(members, "transfer_membership_chain"@, 1);
        lemma_lookup_at(members, "transfer_membership_trail"@, 2);
        lemma_lookup_at(members, "transfer_membership_values"@, 3);
    }

    /// A valid delivery proof that was written is read back, in either mode.
    pub proof fn lemma_round_trip(self, mode: Mode)
        requires
            self.valid(),
        ensures
            Self::decoded(self.json(), mode) == Ok::<DeliveryProofModel, Fault>(self),
    {
        self.lemma_members();
        MerkleProof::lemma_round_trip(self.merkle_proof, mode);
        lemma_list_round_trip::<String>(self.transfer_membership_chain, mode);
        u64::lemma_round_trip(self.transfer_membership_trail, mode);
        lemma_list_round_trip::<u64>(self.transfer_membership_values, mode);
    }
}

impl DeliveryProof {
    /// The keys of a delivery proof.
    fn known() -> (keys: Vec<&'static str>)
        ensures
            names(keys@) == DeliveryProofModel::keys(),
    {
        let mut keys: Vec<&'static str> = Vec::new();
        keys.push("merkle_proof");
        keys.push("transfer_membership_chain");
        keys.push("transfer_membership_trail");
        keys.push("transfer_membership_values");
        assert(names(keys@) =~= DeliveryProofModel::keys());
        keys
    }
}

impl ToJson for DeliveryProof {
    open spec fn json_of(model: DeliveryProofModel) -> JsonModel {
        model.json()
    }

    /// Writes the delivery proof as a JSON object with the keys
    /// `merkle_proof`, `transfer_membership_chain`,
    /// `transfer_membership_trail` and `transfer_membership_values`, in this
    /// order.
    fn encode(&self) -> (json: Json) {
        let mut members: Vec<(String, Json)> = Vec::new();
        members.push(member("merkle_proof", self.merkle_proof.encode()));
        members.push(
            member("transfer_membership_chain", write_list(&self.transfer_membership_chain)),
        );
        members.push(member("transfer_membership_trail", self.transfer_membership_trail.encode()));
        members.push(
            member("transfer_membership_values", write_list(&self.transfer_membership_values)),
        );
        assert(members_model(members@) =~= self@.json()->Object_0);
        object(members)
    }
}

impl FromJson for DeliveryProof {
    open spec fn decoded(value: JsonModel, mode: Mode) -> Result<DeliveryProofModel, Fault> {
        DeliveryProofModel::decoded(value, mode)
    }

    open spec fn valid(model: DeliveryProofModel) -> bool {
        model.valid()
    }

    proof fn lemma_round_trip(model: DeliveryProofModel, mode: Mode) {
        model.lemma_round_trip(mode);
    }

    /// Reads a delivery proof from a JSON object.
    fn decode(json: &Json, mode: Mode) -> (r: Result<DeliveryProof, Error>) {
        let members = open(json, &DeliveryProof::known(), mode)?;
        let merkle_proof = read_field::<MerkleProof>(members, "merkle_proof", mode)?;
        let transfer_membership_chain = read_list_field::<String>(
            members,
            "transfer_membership_chain",
            mode,
        )?;
        let transfer_membership_trail = read_field::<u64>(
            members,
            "transfer_membership_trail",
            mode,
        )?;
        let transfer_membership_values = read_list_field::<u64>(
            members,
            "transfer_membership_values",
            mode,
        )?;
        let value = DeliveryProof {
            merkle_proof,
            transfer_membership_chain,
            transfer_membership_trail,
            transfer_membership_values,
        };
        assert(Self::valid(value@));
        Ok(value)
    }
}

/// A match of swapped amounts. The field `in_` is written under the key `in`.
#[derive(Clone, Debug, PartialEq, Eq)]
pub struct MatchedAmounts {
    pub in_: u64,
    pub matched_in: u64,
    pub matched_out: u64,
    pub out: u64,
}

/// A match of swapped amounts as contracts see it.
pub ghost struct MatchedAmountsModel {
    pub in_: u64,
    pub matched_in: u64,
    pub matched_out: u64,
    pub out: u64,
}

impl View for MatchedAmounts {
    type V = MatchedAmountsModel;

    open spec fn view(&self) -> MatchedAmountsModel {
        MatchedAmountsModel {
            in_: self.in_@,
            matched_in: self.matched_in@,
            matched_out: self.matched_out@,
            out: self.out@,
        }
    }
}

impl MatchedAmountsModel {
    /// The keys of a match of swapped amounts, in the order they are written.
    pub open spec fn keys() -> Seq<Seq<char>> {
        seq![
            "in"@,
            "matched_in"@,
            "matched_out"@,
            "out"@,
        ]
    }

    /// The JSON object of a match of swapped amounts.
    pub open spec fn json(self) -> JsonModel {
        JsonModel::Object(
            seq![
                ("in"@, u64::json_of(self.in_)),
                ("matched_in"@, u64::json_of(self.matched_in)),
                ("matched_out"@, u64::json_of(self.matched_out)),
                ("out"@, u64::json_of(self.out)),
            ],
        )
    }

    /// Every part of the match of swapped amounts is valid.
    pub open spec fn valid(self) -> bool {
        &&& u64::valid(self.in_)
        &&& u64::valid(self.matched_in)
        &&& u64::valid(self.matched_out)
        &&& u64::valid(self.out)
    }

    /// The match of swapped amounts that the members of an object make, or the fault of the
    /// first field, in the order of [`Self::keys`], that has one.
    pub open spec fn assembled(members: Members, mode: Mode) -> Result<MatchedAmountsModel, Fault> {
        let in_ = field::<u64>(members, "in"@, mode);
        let matched_in = field::<u64>(members, "matched_in"@, mode);
        let matched_out = field::<u64>(members, "matched_out"@, mode);
        let out = field::<u64>(members, "out"@, mode);
        if in_ is Err {
            Err(in_->Err_0)
        } else if matched_in is Err {
            Err(matched_in->Err_0)
        } else if matched_out is Err {
            Err(matched_out->Err_0)
        } else if out is Err {
            Err(out->Err_0)
        } else {
            Ok(
                MatchedAmountsModel {
                    in_: in_->Ok_0,
                    matched_in: matched_in->Ok_0,
                    matched_out: matched_out->Ok_0,
                    out: out->Ok_0,
                },
            )
        }
    }

    /// The match of swapped amounts that a JSON value holds, or the first fault found: the
    /// value is no object, then (in strict mode) the first unknown key, then
    /// the fields in the order of [`Self::keys`].
    pub open spec fn decoded(value: JsonModel, mode: Mode) -> Result<MatchedAmountsModel, Fault> {
        match opened(value, Self::keys(), mode) {
            Err(fault) => Err(fault),
            Ok(members) => Self::assembled(members, mode),
        }
    }

    /// In the object that writes a match of swapped amounts every key is known and is found
    /// with the value of its field.
    pub proof fn lemma_members(self)
        ensures
            self.json() is Object,
            first_unknown(self.json()->Object_0, Self::keys()) is None,
            lookup(self.json()->Object_0, "in"@) == Some(u64::json_of(self.in_)),
            lookup(self.json()->Object_0, "matched_in"@) == Some(u64::json_of(self.matched_in)),
            lookup(self.json()->Object_0, "matched_out"@) == Some(u64::json_of(self.matched_out)),
            lookup(self.json()->Object_0, "out"@) == Some(u64::json_of(self.out)),
    {
        let members = self.json()->Object_0;
        reveal_strlit("in");
        reveal_strlit("matched_in");
        reveal_strlit("matched_out");
        reveal_strlit("out");
        assert("in"@.len() == 2);
        assert("matched_in"@.len() == 10);
        assert("matched_out"@.len() == 11);
        assert("out"@.len() == 3);
        assert(Self::keys()[0] == "in"@);
        assert(Self::keys()[1] == "matched_in"@);
        assert(Self::keys()[2] == "matched_out"@);
        assert(Self::keys()[3] == "out"@);
        lemma_all_known(members, Self::keys());
        lemma_lookup_at(members, "in"@, 0);
        lemma_lookup_at(members, "matched_in"@, 1);
        lemma_lookup_at(members, "matched_out"@, 2);
        lemma_lookup_at(members, "out"@, 3);
    }

    /// A valid match of swapped amounts that was written is read back, in either mode.
    pub proof fn lemma_round_trip(self, mode: Mode)
        requires
            self.valid(),
        ensures
            Self::decoded(self.json(), mode) == Ok::<MatchedAmountsModel, Fault>(self),
    {
        self.lemma_members();
        u64::lemma_round_trip(self.in_, mode);
        u64::lemma_round_trip(self.matched_in, mode);
        u64::lemma_round_trip(self.matched_out, mode);
        u64::lemma_round_trip(self.out, mode);
    }
}

impl MatchedAmounts {
    /// The keys of a match of swapped amounts.
    fn known() -> (keys: Vec<&'static str>)
        ensures
            names(keys@) == MatchedAmountsModel::keys(),
    {
        let mut keys: Vec<&'static str> = Vec::new();
        keys.push("in");
        keys.push("matched_in");
        keys.push("matched_out");
        keys.push("out");
        assert(names(keys@) =~= MatchedAmountsModel::keys());
        keys
    }
}

impl ToJson for MatchedAmounts {
    open spec fn json_of(model: MatchedAmountsModel) -> JsonModel {
        model.json()
    }

    /// Writes the match of swapped amounts as a JSON object with the keys
    /// `in`, `matched_in`, `matched_out` and `out`, in this order.
    fn encode(&self) -> (json: Json) {
        let mut members: Vec<(String, Json)> = Vec::new();
        members.push(member("in", self.in_.encode()));
        members.push(member("matched_in", self.matched_in.encode()));
        members.push(member("matched_out", self.matched_out.encode()));
        members.push(member("out", self.out.encode()));
        assert(members_model(members@) =~= self@.json()->Object_0);
        object(members)
    }
}

impl FromJson for MatchedAmounts {
    open spec fn decoded(value: JsonModel, mode: Mode) -> Result<MatchedAmountsModel, Fault> {
        MatchedAmountsModel::decoded(value, mode)
    }

    open spec fn valid(model: MatchedAmountsModel) -> bool {
        model.valid()
    }

    proof fn lemma_round_trip(model: MatchedAmountsModel, mode: Mode) {
        model.lemma_round_trip(mode);
    }

    /// Reads a match of swapped amounts from a JSON object.
    fn decode(json: &Json, mode: Mode) -> (r: Result<MatchedAmounts, Error>) {
        let members = open(json, &MatchedAmounts::known(), mode)?;
        let in_ = read_field::<u64>(members, "in", mode)?;
        let matched_in = read_field::<u64>(members, "matched_in", mode)?;
        let matched_out = read_field::<u64>(members, "matched_out", mode)?;
        let out = read_field::<u64>(members, "out", mode)?;
        let value = MatchedAmounts {
            in_,
            matched_in,
            matched_out,
            out,
        };
        assert(Self::valid(value@));
        Ok(value)
    }
}

/// What the hub tells of a token.
#[derive(Clone, Debug, PartialEq, Eq)]
pub struct Token {
    pub address: String,
    pub name: Option<String>,
    pub short_name: Option<String>,
}

/// A token description as contracts see it.
pub ghost struct TokenModel {
    pub address: Seq<char>,
    pub name: Option<Seq<char>>,
    pub short_name: Option<Seq<char>>,
}

impl View for Token {
    type V = TokenModel;

    open spec fn view(&self) -> TokenModel {
        TokenModel {
            address: self.address@,
            name: option_model(self.name),
            short_name: option_model(self.short_name),
        }
    }
}

impl TokenModel {
    /// The keys of a token description, in the order they are written.
    pub open spec fn keys() -> Seq<Seq<char>> {
        seq![
            "address"@,
            "name"@,
            "short_name"@,
        ]
    }

    /// The JSON object of a token description.
    pub open spec fn json(self) -> JsonModel {
        JsonModel::Object(
            seq![
                ("address"@, String::json_of(self.address)),
                ("name"@, optional_json::<String>(self.name)),
                ("short_name"@, optional_json::<String>(self.short_name)),
            ],
        )
    }

    /// Every part of the token description is valid.
    pub open spec fn valid(self) -> bool {
        &&& String::valid(self.address)
        &&& valid_if_some::<String>(self.name)
        &&& valid_if_some::<String>(self.short_name)
    }

    /// The token description that the members of an object make, or the fault of the
    /// first field, in the order of [`Self::keys`], that has one.
    pub open spec fn assembled(members: Members, mode: Mode) -> Result<TokenModel, Fault> {
        let address = field::<String>(members, "address"@, mode);
        let name = optional_field::<String>(members, "name"@, mode);
        let short_name = optional_field::<String>(members, "short_name"@, mode);
        if address is Err {
            Err(address->Err_0)
        } else if name is Err {
            Err(name->Err_0)
        } else if short_name is Err {
            Err(short_name->Err_0)
        } else {
            Ok(
                TokenModel {
                    address: address->Ok_0,
                    name: name->Ok_0,
                    short_name: short_name->Ok_0,
                },
            )
        }
    }

    /// The token description that a JSON value holds, or the first fault found: the
    /// value is no object, then (in strict mode) the first unknown key, then
    /// the fields in the order of [`Self::keys`].
    pub open spec fn decoded(value: JsonModel, mode: Mode) -> Result<TokenModel, Fault> {
        match opened(value, Self::keys(), mode) {
            Err(fault) => Err(fault),
            Ok(members) => Self::assembled(members, mode),
        }
    }

    /// In the object that writes a token description every key is known and is found
    /// with the value of its field.
    pub proof fn lemma_members(self)
        ensures
            self.json() is Object,
            first_unknown(self.json()->Object_0, Self::keys()) is None,
            lookup(self.json()->Object_0, "address"@) == Some(String::json_of(self.address)),
            lookup(self.json()->Object_0, "name"@) == Some(optional_json::<String>(self.name)),
            lookup(self.json()->Object_0, "short_name"@) == Some(
                optional_json::<String>(self.short_name),
            ),
    {
        let members = self.json()->Object_0;
        reveal_strlit("address");
        reveal_strlit("name");
        reveal_strlit("short_name");
        assert("address"@.len() == 7);
        assert("name"@.len() == 4);
        assert("short_name"@.len() == 10);
        assert(Self::keys()[0] == "address"@);
        assert(Self::keys()[1] == "name"@);
        assert(Self::keys()[2] == "short_name"@);
        lemma_all_known(members, Self::keys());
        lemma_lookup_at(members, "address"@, 0);
        lemma_lookup_at(members, "name"@, 1);
        lemma_lookup_at(members, "short_name"@, 2);
    }

    /// A valid token description that was written is read back, in either mode.
    pub proof fn lemma_round_trip(self, mode: Mode)
        requires
            self.valid(),
        ensures
            Self::decoded(self.json(), mode) == Ok::<TokenModel, Fault>(self),
    {
        self.lemma_members();
        String::lemma_round_trip(self.address, mode);
        lemma_optional_round_trip::<String>(self.name, mode);
        lemma_optional_round_trip::<String>(self.short_name, mode);
    }
}

impl Token {
    /// The keys of a token description.
    fn known() -> (keys: Vec<&'static str>)
        ensures
            names(keys@) == TokenModel::keys(),
    {
        let mut keys: Vec<&'static str> = Vec::new();
        keys.push("address");
        keys.push("name");
        keys.push("short_name");
        assert(names(keys@) =~= TokenModel::keys());
        keys
    }
}

impl ToJson for Token {
    open spec fn json_of(model: TokenModel) -> JsonModel {
        model.json()
    }

    /// Writes the token description as a JSON object with the keys `address`,
    /// `name` and `short_name`, in this order.
    fn encode(&self) -> (json: Json) {
        let mut members: Vec<(String, Json)> = Vec::new();
        members.push(member("address", self.address.encode()));
        members.push(member("name", write_optional(&self.name)));
        members.push(member("short_name", write_optional(&self.short_name)));
        assert(members_model(members@) =~= self@.json()->Object_0);
        object(members)
    }
}

impl FromJson for Token {
    open spec fn decoded(value: JsonModel, mode: Mode) -> Result<TokenModel, Fault> {
        TokenModel::decoded(value, mode)
    }

    open spec fn valid(model: TokenModel) -> bool {
        model.valid()
    }

    proof fn lemma_round_trip(model: TokenModel, mode: Mode) {
        model.lemma_round_trip(mode);
    }

    /// Reads a token description from a JSON object.
    fn decode(json: &Json, mode: Mode) -> (r: Result<Token, Error>) {
        let members = open(json, &Token::known(), mode)?;
        let address = read_field::<String>(members, "address", mode)?;
        let name = read_optional::<String>(members, "name", mode)?;
        let short_name = read_optional::<String>(members, "short_name", mode)?;
        let value = Token {
            address,
            name,
            short_name,
        };
        assert(Self::valid(value@));
        Ok(value)
    }
}

/// The audit receipt of a transfer.
#[derive(Clone, Debug, PartialEq, Eq)]
pub struct TransferAudit {
    pub amount: u64,
    pub amount_swapped: Option<u64>,
    pub appended: bool,
    pub cancelled: bool,
    pub complete: bool,
    pub delivery_proof: DeliveryProof,
    pub eon_number: i64,
    pub id: i64,
    pub matched_amounts: MatchedAmounts,
    pub nonce: u64,
    pub passive: bool,
    pub position: Option<u64>,
    pub processed: bool,
    pub recipient: Wallet,
    pub recipient_active_state: SenderActiveState,
    pub recipient_cancellation_active_state: SenderActiveState,
    pub recipient_finalization_active_state: SenderActiveState,
    pub recipient_fulfillment_active_state: SenderActiveState,
    pub recipient_starting_balance: Option<u64>,
    pub recipient_trail_identifier: i64,
    pub sender_active_state: SenderActiveState,
    pub sender_cancellation_active_state: SenderActiveState,
    pub sender_finalization_active_state: SenderActiveState,
    pub sender_starting_balance: Option<u64>,
    pub swap_freezing_signature: String,
    pub time: DateTime,
    pub timestamp: u64,
    pub tx_id: Option<Uuid>,
    pub voided: bool,
    pub wallet: Wallet,
    pub wallet_trail_identifier: i64,
}

/// A transfer audit as contracts see it.
pub ghost struct TransferAuditModel {
    pub amount: u64,
    pub amount_swapped: Option<u64>,
    pub appended: bool,
    pub cancelled: bool,
    pub complete: bool,
    pub delivery_proof: DeliveryProofModel,
    pub eon_number: i64,
    pub id: i64,
    pub matched_amounts: MatchedAmountsModel,
    pub nonce: u64,
    pub passive: bool,
    pub position: Option<u64>,
    pub processed: bool,
    pub recipient: WalletModel,
    pub recipient_active_state: SenderActiveStateModel,
    pub recipient_cancellation_active_state: SenderActiveStateModel,
    pub recipient_finalization_active_state: SenderActiveStateModel,
    pub recipient_fulfillment_active_state: SenderActiveStateModel,
    pub recipient_starting_balance: Option<u64>,
    pub recipient_trail_identifier: i64,
    pub sender_active_state: SenderActiveStateModel,
    pub sender_cancellation_active_state: SenderActiveStateModel,
    pub sender_finalization_active_state: SenderActiveStateModel,
    pub sender_starting_balance: Option<u64>,
    pub swap_freezing_signature: Seq<char>,
    pub time: (i64, u32),
    pub timestamp: u64,
    pub tx_id: Option<u128>,
    pub voided: bool,
    pub wallet: WalletModel,
    pub wallet_trail_identifier: i64,
}

impl View for TransferAudit {
    type V = TransferAuditModel;

    open spec fn view(&self) -> TransferAuditModel {
        TransferAuditModel {
            amount: self.amount@,
            amount_swapped: option_model(self.amount_swapped),
            appended: self.appended@,
            cancelled: self.cancelled@,
            complete: self.complete@,
            delivery_proof: self.delivery_proof@,
            eon_number: self.eon_number@,
            id: self.id@,
            matched_amounts: self.matched_amounts@,
            nonce: self.nonce@,
            passive: self.passive@,
            position: option_model(self.position),
            processed: self.processed@,
            recipient: self.recipient@,
            recipient_active_state: self.recipient_active_state@,
            recipient_cancellation_active_state: self.recipient_cancellation_active_state@,
            recipient_finalization_active_state: self.recipient_finalization_active_state@,
            recipient_fulfillment_active_state: self.recipient_fulfillment_active_state@,
            recipient_starting_balance: option_model(self.recipient_starting_balance),
            recipient_trail_identifier: self.recipient_trail_identifier@,
            sender_active_state: self.sender_active_state@,
            sender_cancellation_active_state: self.sender_cancellation_active_state@,
            sender_finalization_active_state: self.sender_finalization_active_state@,
            sender_starting_balance: option_model(self.sender_starting_balance),
            swap_freezing_signature: self.swap_freezing_signature@,
            time: self.time@,
            timestamp: self.timestamp@,
            tx_id: option_model(self.tx_id),
            voided: self.voided@,
            wallet: self.wallet@,
            wallet_trail_identifier: self.wallet_trail_identifier@,
        }
    }
}

impl TransferAuditModel {
    /// The keys of a transfer audit, in the order they are written.
    pub open spec fn keys() -> Seq<Seq<char>> {
        seq![
            "amount"@,
            "amount_swapped"@,
            "appended"@,
            "cancelled"@,
            "complete"@,
            "delivery_proof"@,
            "eon_number"@,
            "id"@,
            "matched_amounts"@,
            "nonce"@,
            "passive"@,
            "position"@,
            "processed"@,
            "recipient"@,
            "recipient_active_state"@,
            "recipient_cancellation_active_state"@,
            "recipient_finalization_active_state"@,
            "recipient_fulfillment_active_state"@,
            "recipient_starting_balance"@,
            "recipient_trail_identifier"@,
            "sender_active_state"@,
            "sender_cancellation_active_state"@,
            "sender_finalization_active_state"@,
            "sender_starting_balance"@,
            "swap_freezing_signature"@,
            "time"@,
            "timestamp"@,
            "tx_id"@,
            "voided"@,
            "wallet"@,
            "wallet_trail_identifier"@,
        ]
    }

    /// The JSON object of a transfer audit.
    pub open spec fn json(self) -> JsonModel {
        JsonModel::Object(
            seq![
                ("amount"@, u64::json_of(self.amount)),
                ("amount_swapped"@, optional_json::<u64>(self.amount_swapped)),
                ("appended"@, bool::json_of(self.appended)),
                ("cancelled"@, bool::json_of(self.cancelled)),
                ("complete"@, bool::json_of(self.complete)),
                ("delivery_proof"@, DeliveryProof::json_of(self.delivery_proof)),
                ("eon_number"@, i64::json_of(self.eon_number)),
                ("id"@, i64::json_of(self.id)),
                ("matched_amounts"@, MatchedAmounts::json_of(self.matched_amounts)),
                ("nonce"@, u64::json_of(self.nonce)),
                ("passive"@, bool::json_of(self.passive)),
                ("position"@, optional_json::<u64>(self.position)),
                ("processed"@, bool::json_of(self.processed)),
                ("recipient"@, Wallet::json_of(self.recipient)),
                (
                    "recipient_active_state"@,
                    SenderActiveState::json_of(self.recipient_active_state),
                ),
                (
                    "recipient_cancellation_active_state"@,
                    SenderActiveState::json_of(self.recipient_cancellation_active_state),
                ),
                (
                    "recipient_finalization_active_state"@,
                    SenderActiveState::json_of(self.recipient_finalization_active_state),
                ),
                (
                    "recipient_fulfillment_active_state"@,
                    SenderActiveState::json_of(self.recipient_fulfillment_active_state),
                ),
                (
                    "recipient_starting_balance"@,
                    optional_json::<u64>(self.recipient_starting_balance),
                ),
                ("recipient_trail_identifier"@, i64::json_of(self.recipient_trail_identifier)),
                ("sender_active_state"@, SenderActiveState::json_of(self.sender_active_state)),
                (
                    "sender_cancellation_active_state"@,
                    SenderActiveState::json_of(self.sender_cancellation_active_state),
                ),
                (
                    "sender_finalization_active_state"@,
                    SenderActiveState::json_of(self.sender_finalization_active_state),
                ),
                ("sender_starting_balance"@, optional_json::<u64>(self.sender_starting_balance)),
                ("swap_freezing_signature"@, String::json_of(self.swap_freezing_signature)),
                ("time"@, DateTime::json_of(self.time)),
                ("timestamp"@, u64::json_of(self.timestamp)),
                ("tx_id"@, optional_json::<Uuid>(self.tx_id)),
                ("voided"@, bool::json_of(self.voided)),
                ("wallet"@, Wallet::json_of(self.wallet)),
                ("wallet_trail_identifier"@, i64::json_of(self.wallet_trail_identifier)),
            ],
        )
    }

    /// Every part of the transfer audit is valid.
    pub open spec fn valid(self) -> bool {
        &&& u64::valid(self.amount)
        &&& valid_if_some::<u64>(self.amount_swapped)
        &&& bool::valid(self.appended)
        &&& bool::valid(self.cancelled)
        &&& bool::valid(self.complete)
        &&& DeliveryProof::valid(self.delivery_proof)
        &&& i64::valid(self.eon_number)
        &&& i64::valid(self.id)
        &&& MatchedAmounts::valid(self.matched_amounts)
        &&& u64::valid(self.nonce)
        &&& bool::valid(self.passive)
        &&& valid_if_some::<u64>(self.position)
        &&& bool::valid(self.processed)
        &&& Wallet::valid(self.recipient)
        &&& SenderActiveState::valid(self.recipient_active_state)
        &&& SenderActiveState::valid(self.recipient_cancellation_active_state)
        &&& SenderActiveState::valid(self.recipient_finalization_active_state)
        &&& SenderActiveState::valid(self.recipient_fulfillment_active_state)
        &&& valid_if_some::<u64>(self.recipient_starting_balance)
        &&& i64::valid(self.recipient_trail_identifier)
        &&& SenderActiveState::valid(self.sender_active_state)
        &&& SenderActiveState::valid(self.sender_cancellation_active_state)
        &&& SenderActiveState::valid(self.sender_finalization_active_state)
        &&& valid_if_some::<u64>(self.sender_starting_balance)
        &&& String::valid(self.swap_freezing_signature)
        &&& DateTime::valid(self.time)
        &&& u64::valid(self.timestamp)
        &&& valid_if_some::<Uuid>(self.tx_id)
        &&& bool::valid(self.voided)
        &&& Wallet::valid(self.wallet)
        &&& i64::valid(self.wallet_trail_identifier)
    }

    /// The transfer audit that the members of an object make, or the fault of the
    /// first field, in the order of [`Self::keys`], that has one.
    pub open spec fn assembled(members: Members, mode: Mode) -> Result<TransferAuditModel, Fault> {
        let amount = field::<u64>(members, "amount"@, mode);
        let amount_swapped = optional_field::<u64>(members, "amount_swapped"@, mode);
        let appended = field::<bool>(members, "appended"@, mode);
        let cancelled = field::<bool>(members, "cancelled"@, mode);
        let complete = field::<bool>(members, "complete"@, mode);
        let delivery_proof = field::<DeliveryProof>(members, "delivery_proof"@, mode);
        let eon_number = field::<i64>(members, "eon_number"@, mode);
        let id = field::<i64>(members, "id"@, mode);
        let matched_amounts = field::<MatchedAmounts>(members, "matched_amounts"@, mode);
        let nonce = field::<u64>(members, "nonce"@, mode);
        let passive = field::<bool>(members, "passive"@, mode);
        let position = optional_field::<u64>(members, "position"@, mode);
        let processed = field::<bool>(members, "processed"@, mode);
        let recipient = field::<Wallet>(members, "recipient"@, mode);
        let recipient_active_state = field::<SenderActiveState>(
            members,
            "recipient_active_state"@,
            mode,
        );
        let recipient_cancellation_active_state = field::<SenderActiveState>(
            members,
            "recipient_cancellation_active_state"@,
            mode,
        );
        let recipient_finalization_active_state = field::<SenderActiveState>(
            members,
            "recipient_finalization_active_state"@,
            mode,
        );
        let recipient_fulfillment_active_state = field::<SenderActiveState>(
            members,
            "recipient_fulfillment_active_state"@,
            mode,
        );
        let recipient_starting_balance = optional_field::<u64>(
            members,
            "recipient_starting_balance"@,
            mode,
        );
        let recipient_trail_identifier = field::<i64>(members, "recipient_trail_identifier"@, mode);
        let sender_active_state = field::<SenderActiveState>(members, "sender_active_state"@, mode);
        let sender_cancellation_active_state = field::<SenderActiveState>(
            members,
            "sender_cancellation_active_state"@,
            mode,
        );
        let sender_finalization_active_state = field::<SenderActiveState>(
            members,
            "sender_finalization_active_state"@,
            mode,
        );
        let sender_starting_balance = optional_field::<u64>(
            members,
            "sender_starting_balance"@,
            mode,
        );
        let swap_freezing_signature = field::<String>(members, "swap_freezing_signature"@, mode);
        let time = field::<DateTime>(members, "time"@, mode);
        let timestamp = field::<u64>(members, "timestamp"@, mode);
        let tx_id = optional_field::<Uuid>(members, "tx_id"@, mode);
        let voided = field::<bool>(members, "voided"@, mode);
        let wallet = field::<Wallet>(members, "wallet"@, mode);
        let wallet_trail_identifier = field::<i64>(members, "wallet_trail_identifier"@, mode);
        if amount is Err {
            Err(amount->Err_0)
        } else if amount_swapped is Err {
            Err(amount_swapped->Err_0)
        } else if appended is Err {
            Err(appended->Err_0)
        } else if cancelled is Err {
            Err(cancelled->Err_0)
        } else if complete is Err {
            Err(complete->Err_0)
        } else if delivery_proof is Err {
            Err(delivery_proof->Err_0)
        } else if eon_number is Err {
            Err(eon_number->Err_0)
        } else if id is Err {
            Err(id->Err_0)
        } else if matched_amounts is Err {
            Err(matched_amounts->Err_0)
        } else if nonce is Err {
            Err(nonce->Err_0)
        } else if passive is Err {
            Err(passive->Err_0)
        } else if position is Err {
            Err(position->Err_0)
        } else if processed is Err {
            Err(processed->Err_0)
        } else if recipient is Err {
            Err(recipient->Err_0)
        } else if recipient_active_state is Err {
            Err(recipient_active_state->Err_0)
        } else if recipient_cancellation_active_state is Err {
            Err(recipient_cancellation_active_state->Err_0)
        } else if recipient_finalization_active_state is Err {
            Err(recipient_finalization_active_state->Err_0)
        } else if recipient_fulfillment_active_state is Err {
            Err(recipient_fulfillment_active_state->Err_0)
        } else if recipient_starting_balance is Err {
            Err(recipient_starting_balance->Err_0)
        } else if recipient_trail_identifier is Err {
            Err(recipient_trail_identifier->Err_0)
        } else if sender_active_state is Err {
            Err(sender_active_state->Err_0)
        } else if sender_cancellation_active_state is Err {
            Err(sender_cancellation_active_state->Err_0)
        } else if sender_finalization_active_state is Err {
            Err(sender_finalization_active_state->Err_0)
        } else if sender_starting_balance is Err {
            Err(sender_starting_balance->Err_0)
        } else if swap_freezing_signature is Err {
            Err(swap_freezing_signature->Err_0)
        } else if time is Err {
            Err(time->Err_0)
        } else if timestamp is Err {
            Err(timestamp->Err_0)
        } else if tx_id is Err {
            Err(tx_id->Err_0)
        } else if voided is Err {
            Err(voided->Err_0)
        } else if wallet is Err {
            Err(wallet->Err_0)
        } else if wallet_trail_identifier is Err {
            Err(wallet_trail_identifier->Err_0)
        } else {
            Ok(
                TransferAuditModel {
                    amount: amount->Ok_0,
                    amount_swapped: amount_swapped->Ok_0,
                    appended: appended->Ok_0,
                    cancelled: cancelled->Ok_0,
                    complete: complete->Ok_0,
                    delivery_proof: delivery_proof->Ok_0,
                    eon_number: eon_number->Ok_0,
                    id: id->Ok_0,
                    matched_amounts: matched_amounts->Ok_0,
                    nonce: nonce->Ok_0,
                    passive: passive->Ok_0,
                    position: position->Ok_0,
                    processed: processed->Ok_0,
                    recipient: recipient->Ok_0,
                    recipient_active_state: recipient_active_state->Ok_0,
                    recipient_cancellation_active_state: recipient_cancellation_active_state->Ok_0,
                    recipient_finalization_active_state: recipient_finalization_active_state->Ok_0,
                    recipient_fulfillment_active_state: recipient_fulfillment_active_state->Ok_0,
                    recipient_starting_balance: recipient_starting_balance->Ok_0,
                    recipient_trail_identifier: recipient_trail_identifier->Ok_0,
                    sender_active_state: sender_active_state->Ok_0,
                    sender_cancellation_active_state: sender_cancellation_active_state->Ok_0,
                    sender_finalization_active_state: sender_finalization_active_state->Ok_0,
                    sender_starting_balance: sender_starting_balance->Ok_0,
                    swap_freezing_signature: swap_freezing_signature->Ok_0,
                    time: time->Ok_0,
                    timestamp: timestamp->Ok_0,
                    tx_id: tx_id->Ok_0,
                    voided: voided->Ok_0,
                    wallet: wallet->Ok_0,
                    wallet_trail_identifier: wallet_trail_identifier->Ok_0,
                },
            )
        }
    }

    /// The transfer audit that a JSON value holds, or the first fault found: the
    /// value is no object, then (in strict mode) the first unknown key, then
    /// the fields in the order of [`Self::keys`].
    pub open spec fn decoded(value: JsonModel, mode: Mode) -> Result<TransferAuditModel, Fault> {
        match opened(value, Self::keys(), mode) {
            Err(fault) => Err(fault),
            Ok(members) => Self::assembled(members, mode),
        }
    }

    /// In the object that writes a transfer audit every key is known and is found
    /// with the value of its field.
    pub proof fn lemma_members(self)
        ensures
            self.json() is Object,
            first_unknown(self.json()->Object_0, Self::keys()) is None,
            lookup(self.json()->Object_0, "amount"@) == Some(u64::json_of(self.amount)),
            lookup(self.json()->Object_0, "amount_swapped"@) == Some(
                optional_json::<u64>(self.amount_swapped),
            ),
            lookup(self.json()->Object_0, "appended"@) == Some(bool::json_of(self.appended)),
            lookup(self.json()->Object_0, "cancelled"@) == Some(bool::json_of(self.cancelled)),
            lookup(self.json()->Object_0, "complete"@) == Some(bool::json_of(self.complete)),
            lookup(self.json()->Object_0, "delivery_proof"@) == Some(
                DeliveryProof::json_of(self.delivery_proof),
            ),
            lookup(self.json()->Object_0, "eon_number"@) == Some(i64::json_of(self.eon_number)),
            lookup(self.json()->Object_0, "id"@) == Some(i64::json_of(self.id)),
            lookup(self.json()->Object_0, "matched_amounts"@) == Some(
                MatchedAmounts::json_of(self.matched_amounts),
            ),
            lookup(self.json()->Object_0, "nonce"@) == Some(u64::json_of(self.nonce)),
            lookup(self.json()->Object_0, "passive"@) == Some(bool::json_of(self.passive)),
            lookup(self.json()->Object_0, "position"@) == Some(optional_json::<u64>(self.position)),
            lookup(self.json()->Object_0, "processed"@) == Some(bool::json_of(self.processed)),
            lookup(self.json()->Object_0, "recipient"@) == Some(Wallet::json_of(self.recipient)),
            lookup(self.json()->Object_0, "recipient_active_state"@) == Some(
                SenderActiveState::json_of(self.recipient_active_state),
            ),
            lookup(self.json()->Object_0, "recipient_cancellation_active_state"@) == Some(
                SenderActiveState::json_of(self.recipient_cancellation_active_state),
            ),
            lookup(self.json()->Object_0, "recipient_finalization_active_state"@) == Some(
                SenderActiveState::json_of(self.recipient_finalization_active_state),
            ),
            lookup(self.json()->Object_0, "recipient_fulfillment_active_state"@) == Some(
                SenderActiveState::json_of(self.recipient_fulfillment_active_state),
            ),
            lookup(self.json()->Object_0, "recipient_starting_balance"@) == Some(
                optional_json::<u64>(self.recipient_starting_balance),
            ),
            lookup(self.json()->Object_0, "recipient_trail_identifier"@) == Some(
                i64::json_of(self.recipient_trail_identifier),
            ),
            lookup(self.json()->Object_0, "sender_active_state"@) == Some(
                SenderActiveState::json_of(self.sender_active_state),
            ),
            lookup(self.json()->Object_0, "sender_cancellation_active_state"@) == Some(
                SenderActiveState::json_of(self.sender_cancellation_active_state),
            ),
            lookup(self.json()->Object_0, "sender_finalization_active_state"@) == Some(
                SenderActiveState::json_of(self.sender_finalization_active_state),
            ),
            lookup(self.json()->Object_0, "sender_starting_balance"@) == Some(
                optional_json::<u64>(self.sender_starting_balance),
            ),
            lookup(self.json()->Object_0, "swap_freezing_signature"@) == Some(
                String::json_of(self.swap_freezing_signature),
            ),
            lookup(self.json()->Object_0, "time"@) == Some(DateTime::json_of(self.time)),
            lookup(self.json()->Object_0, "timestamp"@) == Some(u64::json_of(self.timestamp)),
            lookup(self.json()->Object_0, "tx_id"@) == Some(optional_json::<Uuid>(self.tx_id)),
            lookup(self.json()->Object_0, "voided"@) == Some(bool::json_of(self.voided)),
            lookup(self.json()->Object_0, "wallet"@) == Some(Wallet::json_of(self.wallet)),
            lookup(self.json()->Object_0, "wallet_trail_identifier"@) == Some(
                i64::json_of(self.wallet_trail_identifier),
            ),
    {
        let members = self.json()->Object_0;
        reveal_strlit("amount");
        reveal_strlit("amount_swapped");
        reveal_strlit("appended");
        reveal_strlit("cancelled");
        reveal_strlit("complete");
        reveal_strlit("delivery_proof");
        reveal_strlit("eon_number");
        reveal_strlit("id");
        reveal_strlit("matched_amounts");
        reveal_strlit("nonce");
        reveal_strlit("passive");
        reveal_strlit("position");
        reveal_strlit("processed");
        reveal_strlit("recipient");
        reveal_strlit("recipient_active_state");
        reveal_strlit("recipient_cancellation_active_state");
        reveal_strlit("recipient_finalization_active_state");
        reveal_strlit("recipient_fulfillment_active_state");
        reveal_strlit("recipient_starting_balance");
        reveal_strlit("recipient_trail_identifier");
        reveal_strlit("sender_active_state");
        reveal_strlit("sender_cancellation_active_state");
        reveal_strlit("sender_finalization_active_state");
        reveal_strlit("sender_starting_balance");
        reveal_strlit("swap_freezing_signature");
        reveal_strlit("time");
        reveal_strlit("timestamp");
        reveal_strlit("tx_id");
        reveal_strlit("voided");
        reveal_strlit("wallet");
        reveal_strlit("wallet_trail_identifier");
        assert("amount"@.len() == 6);
        assert("amount_swapped"@.len() == 14);
        assert("appended"@.len() == 8);
        assert("cancelled"@.len() == 9);
        assert("complete"@.len() == 8);
        assert("delivery_proof"@.len() == 14);
        assert("eon_number"@.len() == 10);
        assert("id"@.len() == 2);
        assert("matched_amounts"@.len() == 15);
        assert("nonce"@.len() == 5);
        assert("passive"@.len() == 7);
        assert("position"@.len() == 8);
        assert("processed"@.len() == 9);
        assert("recipient"@.len() == 9);
        assert("recipient_active_state"@.len() == 22);
        assert("recipient_cancellation_active_state"@.len() == 35);
        assert("recipient_finalization_active_state"@.len() == 35);
        assert("recipient_fulfillment_active_state"@.len() == 34);
        assert("recipient_starting_balance"@.len() == 26);
        assert("recipient_trail_identifier"@.len() == 26);
        assert("sender_active_state"@.len() == 19);
        assert("sender_cancellation_active_state"@.len() == 32);
        assert("sender_finalization_active_state"@.len() == 32);
        assert("sender_starting_balance"@.len() == 23);
        assert("swap_freezing_signature"@.len() == 23);
        assert("time"@.len() == 4);
        assert("timestamp"@.len() == 9);
        assert("tx_id"@.len() == 5);
        assert("voided"@.len() == 6);
        assert("wallet"@.len() == 6);
        assert("wallet_trail_identifier"@.len() == 23);
        assert("amount"@[0] == 'a');
        assert("voided"@[0] == 'v');
        assert("wallet"@[0] == 'w');
        assert("amount_swapped"@[0] == 'a');
        assert("delivery_proof"@[0] == 'd');
        assert("appended"@[0] == 'a');
        assert("complete"@[0] == 'c');
        assert("position"@[0] == 'p');
        assert("cancelled"@[0] == 'c');
        assert("processed"@[0] == 'p');
        assert("recipient"@[0] == 'r');
        assert("timestamp"@[0] == 't');
        assert("nonce"@[0] == 'n');
        assert("tx_id"@[0] == 't');
        assert("recipient_cancellation_active_state"@[10] == 'c');
        assert("recipient_finalization_active_state"@[10] == 'f');
        assert("recipient_starting_balance"@[10] == 's');
        assert("recipient_trail_identifier"@[10] == 't');
        assert("sender_cancellation_active_state"@[7] == 'c');
        assert("sender_finalization_active_state"@[7] == 'f');
        assert("sender_starting_balance"@[1] == 'e');
        assert("swap_freezing_signature"@[1] == 'w');
        assert("wallet_trail_identifier"@[1] == 'a');
        assert(Self::keys()[0] == "amount"@);
        assert(Self::keys()[1] == "amount_swapped"@);
        assert(Self::keys()[2] == "appended"@);
        assert(Self::keys()[3] == "cancelled"@);
        assert(Self::keys()[4] == "complete"@);
        assert(Self::keys()[5] == "delivery_proof"@);
        assert(Self::keys()[6] == "eon_number"@);
        assert(Self::keys()[7] == "id"@);
        assert(Self::keys()[8] == "matched_amounts"@);
        assert(Self::keys()[9] == "nonce"@);
        assert(Self::keys()[10] == "passive"@);
        assert(Self::keys()[11] == "position"@);
        assert(Self::keys()[12] == "processed"@);
        assert(Self::keys()[13] == "recipient"@);
        assert(Self::keys()[14] == "recipient_active_state"@);
        assert(Self::keys()[15] == "recipient_cancellation_active_state"@);
        assert(Self::keys()[16] == "recipient_finalization_active_state"@);
        assert(Self::keys()[17] == "recipient_fulfillment_active_state"@);
        assert(Self::keys()[18] == "recipient_starting_balance"@);
        assert(Self::keys()[19] == "recipient_trail_identifier"@);
        assert(Self::keys()[20] == "sender_active_state"@);
        assert(Self::keys()[21] == "sender_cancellation_active_state"@);
        assert(Self::keys()[22] == "sender_finalization_active_state"@);
        assert(Self::keys()[23] == "sender_starting_balance"@);
        assert(Self::keys()[24] == "swap_freezing_signature"@);
        assert(Self::keys()[25] == "time"@);
        assert(Self::keys()[26] == "timestamp"@);
        assert(Self::keys()[27] == "tx_id"@);
        assert(Self::keys()[28] == "voided"@);
        assert(Self::keys()[29] == "wallet"@);
        assert(Self::keys()[30] == "wallet_trail_identifier"@);
        lemma_all_known(members, Self::keys());
        lemma_lookup_at(members, "amount"@, 0);
        lemma_lookup_at(members, "amount_swapped"@, 1);
        lemma_lookup_at(members, "appended"@, 2);
        lemma_lookup_at(members, "cancelled"@, 3);
        lemma_lookup_at(members, "complete"@, 4);
        lemma_lookup_at(members, "delivery_proof"@, 5);
        lemma_lookup_at(members, "eon_number"@, 6);
        lemma_lookup_at(members, "id"@, 7);
        lemma_lookup_at(members, "matched_amounts"@, 8);
        lemma_lookup_at(members, "nonce"@, 9);
        lemma_lookup_at(members, "passive"@, 10);
        lemma_lookup_at(members, "position"@, 11);
        lemma_lookup_at(members, "processed"@, 12);
        lemma_lookup_at(members, "recipient"@, 13);
        lemma_lookup_at(members, "recipient_active_state"@, 14);
        lemma_lookup_at(members, "recipient_cancellation_active_state"@, 15);
        lemma_lookup_at(members, "recipient_finalization_active_state"@, 16);
        lemma_lookup_at(members, "recipient_fulfillment_active_state"@, 17);
        lemma_lookup_at(members, "recipient_starting_balance"@, 18);
        lemma_lookup_at(members, "recipient_trail_identifier"@, 19);
        lemma_lookup_at(members, "sender_active_state"@, 20);
        lemma_lookup_at(members, "sender_cancellation_active_state"@, 21);
        lemma_lookup_at(members, "sender_finalization_active_state"@, 22);
        lemma_lookup_at(members, "sender_starting_balance"@, 23);
        lemma_lookup_at(members, "swap_freezing_signature"@, 24);
        lemma_lookup_at(members, "time"@, 25);
        lemma_lookup_at(members, "timestamp"@, 26);
        lemma_lookup_at(members, "tx_id"@, 27);
        lemma_lookup_at(members, "voided"@, 28);
        lemma_lookup_at(members, "wallet"@, 29);
        lemma_lookup_at(members, "wallet_trail_identifier"@, 30);
    }

    /// A valid transfer audit that was written is read back, in either mode.
    pub proof fn lemma_round_trip(self, mode: Mode)
        requires
            self.valid(),
        ensures
            Self::decoded(self.json(), mode) == Ok::<TransferAuditModel, Fault>(self),
    {
        self.lemma_members();
        let members = self.json()->Object_0;
        u64::lemma_round_trip(self.amount, mode);
        assert(field::<u64>(members, "amount"@, mode) == Ok::<u64, Fault>(self.amount));
        lemma_optional_round_trip::<u64>(self.amount_swapped, mode);
        assert(optional_field::<u64>(members, "amount_swapped"@, mode) == Ok::<
            Option<u64>,
            Fault,
        >(self.amount_swapped));
        bool::lemma_round_trip(self.appended, mode);
        assert(field::<bool>(members, "appended"@, mode) == Ok::<bool, Fault>(self.appended));
        bool::lemma_round_trip(self.cancelled, mode);
        assert(field::<bool>(members, "cancelled"@, mode) == Ok::<bool, Fault>(self.cancelled));
        bool::lemma_round_trip(self.complete, mode);
        assert(field::<bool>(members, "complete"@, mode) == Ok::<bool, Fault>(self.complete));
        DeliveryProof::lemma_round_trip(self.delivery_proof, mode);
        assert(field::<DeliveryProof>(members, "delivery_proof"@, mode) == Ok::<
            DeliveryProofModel,
            Fault,
        >(self.delivery_proof));
        i64::lemma_round_trip(self.eon_number, mode);
        assert(field::<i64>(members, "eon_number"@, mode) == Ok::<i64, Fault>(self.eon_number));
        i64::lemma_round_trip(self.id, mode);
        assert(field::<i64>(members, "id"@, mode) == Ok::<i64, Fault>(self.id));
        MatchedAmounts::lemma_round_trip(self.matched_amounts, mode);
        assert(field::<MatchedAmounts>(members, "matched_amounts"@, mode) == Ok::<
            MatchedAmountsModel,
            Fault,
        >(self.matched_amounts));
        u64::lemma_round_trip(self.nonce, mode);
        assert(field::<u64>(members, "nonce"@, mode) == Ok::<u64, Fault>(self.nonce));
        bool::lemma_round_trip(self.passive, mode);
        assert(field::<bool>(members, "passive"@, mode) == Ok::<bool, Fault>(self.passive));
        lemma_optional_round_trip::<u64>(self.position, mode);
        assert(optional_field::<u64>(members, "position"@, mode) == Ok::<
            Option<u64>,
            Fault,
        >(self.position));
        bool::lemma_round_trip(self.processed, mode);
        assert(field::<bool>(members, "processed"@, mode) == Ok::<bool, Fault>(self.processed));
        Wallet::lemma_round_trip(self.recipient, mode);
        assert(field::<Wallet>(members, "recipient"@, mode) == Ok::<
            WalletModel,
            Fault,
        >(self.recipient));
        SenderActiveState::lemma_round_trip(self.recipient_active_state, mode);
        assert(field::<SenderActiveState>(members, "recipient_active_state"@, mode) == Ok::<
            SenderActiveStateModel,
            Fault,
        >(self.recipient_active_state));
        SenderActiveState::lemma_round_trip(self.recipient_cancellation_active_state, mode);
        assert(field::<SenderActiveState>(members, "recipient_cancellation_active_state"@, mode) == Ok::<
            SenderActiveStateModel,
            Fault,
        >(self.recipient_cancellation_active_state));
        SenderActiveState::lemma_round_trip(self.recipient_finalization_active_state, mode);
        assert(field::<SenderActiveState>(members, "recipient_finalization_active_state"@, mode) == Ok::<
            SenderActiveStateModel,
            Fault,
        >(self.recipient_finalization_active_state));
        SenderActiveState::lemma_round_trip(self.recipient_fulfillment_active_state, mode);
        assert(field::<SenderActiveState>(members, "recipient_fulfillment_active_state"@, mode) == Ok::<
            SenderActiveStateModel,
            Fault,
        >(self.recipient_fulfillment_active_state));
        lemma_optional_round_trip::<u64>(self.recipient_starting_balance, mode);
        assert(optional_field::<u64>(members, "recipient_starting_balance"@, mode) == Ok::<
            Option<u64>,
            Fault,
        >(self.recipient_starting_balance));
        i64::lemma_round_trip(self.recipient_trail_identifier, mode);
        assert(field::<i64>(members, "recipient_trail_identifier"@, mode) == Ok::<
            i64,
            Fault,
        >(self.recipient_trail_identifier));
        SenderActiveState::lemma_round_trip(self.sender_active_state, mode);
        assert(field::<SenderActiveState>(members, "sender_active_state"@, mode) == Ok::<
            SenderActiveStateModel,
            Fault,
        >(self.sender_active_state));
        SenderActiveState::lemma_round_trip(self.sender_cancellation_active_state, mode);
        assert(field::<SenderActiveState>(members, "sender_cancellation_active_state"@, mode) == Ok::<
            SenderActiveStateModel,
            Fault,
        >(self.sender_cancellation_active_state));
        SenderActiveState::lemma_round_trip(self.sender_finalization_active_state, mode);
        assert(field::<SenderActiveState>(members, "sender_finalization_active_state"@, mode) == Ok::<
            SenderActiveStateModel,
            Fault,
        >(self.sender_finalization_active_state));
        lemma_optional_round_trip::<u64>(self.sender_starting_balance, mode);
        assert(optional_field::<u64>(members, "sender_starting_balance"@, mode) == Ok::<
            Option<u64>,
            Fault,
        >(self.sender_starting_balance));
        String::lemma_round_trip(self.swap_freezing_signature, mode);
        assert(field::<String>(members, "swap_freezing_signature"@, mode) == Ok::<
            Seq<char>,
            Fault,
        >(self.swap_freezing_signature));
        DateTime::lemma_round_trip(self.time, mode);
        assert(field::<DateTime>(members, "time"@, mode) == Ok::<(i64, u32), Fault>(self.time));
        u64::lemma_round_trip(self.timestamp, mode);
        assert(field::<u64>(members, "timestamp"@, mode) == Ok::<u64, Fault>(self.timestamp));
        lemma_optional_round_trip::<Uuid>(self.tx_id, mode);
        assert(optional_field::<Uuid>(members, "tx_id"@, mode) == Ok::<
            Option<u128>,
            Fault,
        >(self.tx_id));
        bool::lemma_round_trip(self.voided, mode);
        assert(field::<bool>(members, "voided"@, mode) == Ok::<bool, Fault>(self.voided));
        Wallet::lemma_round_trip(self.wallet, mode);
        assert(field::<Wallet>(members, "wallet"@, mode) == Ok::<WalletModel, Fault>(self.wallet));
        i64::lemma_round_trip(self.wallet_trail_identifier, mode);
        assert(field::<i64>(members, "wallet_trail_identifier"@, mode) == Ok::<
            i64,
            Fault,
        >(self.wallet_trail_identifier));
    }
}

impl TransferAudit {
    /// The keys of a transfer audit.
    fn known() -> (keys: Vec<&'static str>)
        ensures
            names(keys@) == TransferAuditModel::keys(),
    {
        let mut keys: Vec<&'static str> = Vec::new();
        keys.push("amount");
        keys.push("amount_swapped");
        keys.push("appended");
        keys.push("cancelled");
        keys.push("complete");
        keys.push("delivery_proof");
        keys.push("eon_number");
        keys.push("id");
        keys.push("matched_amounts");
        keys.push("nonce");
        keys.push("passive");
        keys.push("position");
        keys.push("processed");
        keys.push("recipient");
        keys.push("recipient_active_state");
        keys.push("recipient_cancellation_active_state");
        keys.push("recipient_finalization_active_state");
        keys.push("recipient_fulfillment_active_state");
        keys.push("recipient_starting_balance");
        keys.push("recipient_trail_identifier");
        keys.push("sender_active_state");
        keys.push("sender_cancellation_active_state");
        keys.push("sender_finalization_active_state");
        keys.push("sender_starting_balance");
        keys.push("swap_freezing_signature");
        keys.push("time");
        keys.push("timestamp");
        keys.push("tx_id");
        keys.push("voided");
        keys.push("wallet");
        keys.push("wallet_trail_identifier");
        assert(names(keys@) =~= TransferAuditModel::keys());
        keys
    }
}

impl ToJson for TransferAudit {
    open spec fn json_of(model: TransferAuditModel) -> JsonModel {
        model.json()
    }

    /// Writes the transfer audit as a JSON object with the keys `amount`,
    /// `amount_swapped`, `appended`, `cancelled`, `complete`,
    /// `delivery_proof`, `eon_number`, `id`, `matched_amounts`, `nonce`,
    /// `passive`, `position`, `processed`, `recipient`,
    /// `recipient_active_state`, `recipient_cancellation_active_state`,
    /// `recipient_finalization_active_state`,
    /// `recipient_fulfillment_active_state`, `recipient_starting_balance`,
    /// `recipient_trail_identifier`, `sender_active_state`,
    /// `sender_cancellation_active_state`,
    /// `sender_finalization_active_state`, `sender_starting_balance`,
    /// `swap_freezing_signature`, `time`, `timestamp`, `tx_id`, `voided`,
    /// `wallet` and `wallet_trail_identifier`, in this order.
    fn encode(&self) -> (json: Json) {
        let mut members: Vec<(String, Json)> = Vec::new();
        members.push(member("amount", self.amount.encode()));
        members.push(member("amount_swapped", write_optional(&self.amount_swapped)));
        members.push(member("appended", self.appended.encode()));
        members.push(member("cancelled", self.cancelled.encode()));
        members.push(member("complete", self.complete.encode()));
        members.push(member("delivery_proof", self.delivery_proof.encode()));
        members.push(member("eon_number", self.eon_number.encode()));
        members.push(member("id", self.id.encode()));
        members.push(member("matched_amounts", self.matched_amounts.encode()));
        members.push(member("nonce", self.nonce.encode()));
        members.push(member("passive", self.passive.encode()));
        members.push(member("position", write_optional(&self.position)));
        members.push(member("processed", self.processed.encode()));
        members.push(member("recipient", self.recipient.encode()));
        members.push(member("recipient_active_state", self.recipient_active_state.encode()));
        members.push(
            member(
                "recipient_cancellation_active_state",
                self.recipient_cancellation_active_state.encode(),
            ),
        );
        members.push(
            member(
                "recipient_finalization_active_state",
                self.recipient_finalization_active_state.encode(),
            ),
        );
        members.push(
            member(
                "recipient_fulfillment_active_state",
                self.recipient_fulfillment_active_state.encode(),
            ),
        );
        members.push(
            member("recipient_starting_balance", write_optional(&self.recipient_starting_balance)),
        );
        members.push(
            member("recipient_trail_identifier", self.recipient_trail_identifier.encode()),
        );
        members.push(member("sender_active_state", self.sender_active_state.encode()));
        members.push(
            member(
                "sender_cancellation_active_state",
                self.sender_cancellation_active_state.encode(),
            ),
        );
        members.push(
            member(
                "sender_finalization_active_state",
                self.sender_finalization_active_state.encode(),
            ),
        );
        members.push(
            member("sender_starting_balance", write_optional(&self.sender_starting_balance)),
        );
        members.push(member("swap_freezing_signature", self.swap_freezing_signature.encode()));
        members.push(member("time", self.time.encode()));
        members.push(member("timestamp", self.timestamp.encode()));
        members.push(member("tx_id", write_optional(&self.tx_id)));
        members.push(member("voided", self.voided.encode()));
        members.push(member("wallet", self.wallet.encode()));
        members.push(member("wallet_trail_identifier", self.wallet_trail_identifier.encode()));
        assert(members_model(members@) =~= self@.json()->Object_0);
        object(members)
    }
}

impl FromJson for TransferAudit {
    open spec fn decoded(value: JsonModel, mode: Mode) -> Result<TransferAuditModel, Fault> {
        TransferAuditModel::decoded(value, mode)
    }

    open spec fn valid(model: TransferAuditModel) -> bool {
        model.valid()
    }

    proof fn lemma_round_trip(model: TransferAuditModel, mode: Mode) {
        model.lemma_round_trip(mode);
    }

    /// Reads a transfer audit from a JSON object.
    fn decode(json: &Json, mode: Mode) -> (r: Result<TransferAudit, Error>) {
        let members = open(json, &TransferAudit::known(), mode)?;
        let amount = read_field::<u64>(members, "amount", mode)?;
        let amount_swapped = read_optional::<u64>(members, "amount_swapped", mode)?;
        let appended = read_field::<bool>(members, "appended", mode)?;
        let cancelled = read_field::<bool>(members, "cancelled", mode)?;
        let complete = read_field::<bool>(members, "complete", mode)?;
        let delivery_proof = read_field::<DeliveryProof>(members, "delivery_proof", mode)?;
        let eon_number = read_field::<i64>(members, "eon_number", mode)?;
        let id = read_field::<i64>(members, "id", mode)?;
        let matched_amounts = read_field::<MatchedAmounts>(members, "matched_amounts", mode)?;
        let nonce = read_field::<u64>(members, "nonce", mode)?;
        let passive = read_field::<bool>(members, "passive", mode)?;
        let position = read_optional::<u64>(members, "position", mode)?;
        let processed = read_field::<bool>(members, "processed", mode)?;
        let recipient = read_field::<Wallet>(members, "recipient", mode)?;
        let recipient_active_state = read_field::<SenderActiveState>(
            members,
            "recipient_active_state",
            mode,
        )?;
        let recipient_cancellation_active_state = read_field::<SenderActiveState>(
            members,
            "recipient_cancellation_active_state",
            mode,
        )?;
        let recipient_finalization_active_state = read_field::<SenderActiveState>(
            members,
            "recipient_finalization_active_state",
            mode,
        )?;
        let recipient_fulfillment_active_state = read_field::<SenderActiveState>(
            members,
            "recipient_fulfillment_active_state",
            mode,
        )?;
        let recipient_starting_balance = read_optional::<u64>(
            members,
            "recipient_starting_balance",
            mode,
        )?;
        let recipient_trail_identifier = read_field::<i64>(
            members,
            "recipient_trail_identifier",
            mode,
        )?;
        let sender_active_state = read_field::<SenderActiveState>(
            members,
            "sender_active_state",
            mode,
        )?;
        let sender_cancellation_active_state = read_field::<SenderActiveState>(
            members,
            "sender_cancellation_active_state",
            mode,
        )?;
        let sender_finalization_active_state = read_field::<SenderActiveState>(
            members,
            "sender_finalization_active_state",
            mode,
        )?;
        let sender_starting_balance = read_optional::<u64>(
            members,
            "sender_starting_balance",
            mode,
        )?;
        let swap_freezing_signature = read_field::<String>(
            members,
            "swap_freezing_signature",
            mode,
        )?;
        let time = read_field::<DateTime>(members, "time", mode)?;
        let timestamp = read_field::<u64>(members, "timestamp", mode)?;
        let tx_id = read_optional::<Uuid>(members, "tx_id", mode)?;
        let voided = read_field::<bool>(members, "voided", mode)?;
        let wallet = read_field::<Wallet>(members, "wallet", mode)?;
        let wallet_trail_identifier = read_field::<i64>(members, "wallet_trail_identifier", mode)?;
        let value = TransferAudit {
            amount,
            amount_swapped,
            appended,
            cancelled,
            complete,
            delivery_proof,
            eon_number,
            id,
            matched_amounts,
            nonce,
            passive,
            position,
            processed,
            recipient,
            recipient_active_state,
            recipient_cancellation_active_state,
            recipient_finalization_active_state,
            recipient_fulfillment_active_state,
            recipient_starting_balance,
            recipient_trail_identifier,
            sender_active_state,
            sender_cancellation_active_state,
            sender_finalization_active_state,
            sender_starting_balance,
            swap_freezing_signature,
            time,
            timestamp,
            tx_id,
            voided,
            wallet,
            wallet_trail_identifier,
        };
        assert(Self::valid(value@));
        Ok(value)
    }
}

/// A request to withdraw.
#[derive(Clone, Debug, PartialEq, Eq)]
pub struct WithdrawalRequest {
    pub amount: u64,
    pub block: i64,
    pub eon_number: i64,
    pub slashed: bool,
    pub time: DateTime,
    pub txid: String,
}

/// A withdrawal request as contracts see it.
pub ghost struct WithdrawalRequestModel {
    pub amount: u64,
    pub block: i64,
    pub eon_number: i64,
    pub slashed: bool,
    pub time: (i64, u32),
    pub txid: Seq<char>,
}

impl View for WithdrawalRequest {
    type V = WithdrawalRequestModel;

    open spec fn view(&self) -> WithdrawalRequestModel {
        WithdrawalRequestModel {
            amount: self.amount@,
            block: self.block@,
            eon_number: self.eon_number@,
            slashed: self.slashed@,
            time: self.time@,
            txid: self.txid@,
        }
    }
}

impl WithdrawalRequestModel {
    /// The keys of a withdrawal request, in the order they are written.
    pub open spec fn keys() -> Seq<Seq<char>> {
        seq![
            "amount"@,
            "block"@,
            "eon_number"@,
            "slashed"@,
            "time"@,
            "txid"@,
        ]
    }

    /// The JSON object of a withdrawal request.
    pub open spec fn json(self) -> JsonModel {
        JsonModel::Object(
            seq![
                ("amount"@, u64::json_of(self.amount)),
                ("block"@, i64::json_of(self.block)),
                ("eon_number"@, i64::json_of(self.eon_number)),
                ("slashed"@, bool::json_of(self.slashed)),
                ("time"@, DateTime::json_of(self.time)),
                ("txid"@, String::json_of(self.txid)),
            ],
        )
    }

    /// Every part of the withdrawal request is valid.
    pub open spec fn valid(self) -> bool {
        &&& u64::valid(self.amount)
        &&& i64::valid(self.block)
        &&& i64::valid(self.eon_number)
        &&& bool::valid(self.slashed)
        &&& DateTime::valid(self.time)
        &&& String::valid(self.txid)
    }

    /// The withdrawal request that the members of an object make, or the fault of the
    /// first field, in the order of [`Self::keys`], that has one.
    pub open spec fn assembled(members: Members, mode: Mode) -> Result<
        WithdrawalRequestModel,
        Fault,
    > {
        let amount = field::<u64>(members, "amount"@, mode);
        let block = field::<i64>(members, "block"@, mode);
        let eon_number = field::<i64>(members, "eon_number"@, mode);
        let slashed = field::<bool>(members, "slashed"@, mode);
        let time = field::<DateTime>(members, "time"@, mode);
        let txid = field::<String>(members, "txid"@, mode);
        if amount is Err {
            Err(amount->Err_0)
        } else if block is Err {
            Err(block->Err_0)
        } else if eon_number is Err {
            Err(eon_number->Err_0)
        } else if slashed is Err {
            Err(slashed->Err_0)
        } else if time is Err {
            Err(time->Err_0)
        } else if txid is Err {
            Err(txid->Err_0)
        } else {
            Ok(
                WithdrawalRequestModel {
                    amount: amount->Ok_0,
                    block: block->Ok_0,
                    eon_number: eon_number->Ok_0,
                    slashed: slashed->Ok_0,
                    time: time->Ok_0,
                    txid: txid->Ok_0,
                },
            )
        }
    }

    /// The withdrawal request that a JSON value holds, or the first fault found: the
    /// value is no object, then (in strict mode) the first unknown key, then
    /// the fields in the order of [`Self::keys`].
    pub open spec fn decoded(value: JsonModel, mode: Mode) -> Result<
        WithdrawalRequestModel,
        Fault,
    > {
        match opened(value, Self::keys(), mode) {
            Err(fault) => Err(fault),
            Ok(members) => Self::assembled(members, mode),
        }
    }

    /// In the object that writes a withdrawal request every key is known and is found
    /// with the value of its field.
    pub proof fn lemma_members(self)
        ensures
            self.json() is Object,
            first_unknown(self.json()->Object_0, Self::keys()) is None,
            lookup(self.json()->Object_0, "amount"@) == Some(u64::json_of(self.amount)),
            lookup(self.json()->Object_0, "block"@) == Some(i64::json_of(self.block)),
            lookup(self.json()->Object_0, "eon_number"@) == Some(i64::json_of(self.eon_number)),
            lookup(self.json()->Object_0, "slashed"@) == Some(bool::json_of(self.slashed)),
            lookup(self.json()->Object_0, "time"@) == Some(DateTime::json_of(self.time)),
            lookup(self.json()->Object_0, "txid"@) == Some(String::json_of(self.txid)),
    {
        let members = self.json()->Object_0;
        reveal_strlit("amount");
        reveal_strlit("block");
        reveal_strlit("eon_number");
        reveal_strlit("slashed");
        reveal_strlit("time");
        reveal_strlit("txid");
        assert("amount"@.len() == 6);
        assert("block"@.len() == 5);
        assert("eon_number"@.len() == 10);
        assert("slashed"@.len() == 7);
        assert("time"@.len() == 4);
        assert("txid"@.len() == 4);
        assert("time"@[1] == 'i');
        assert("txid"@[1] == 'x');
        assert(Self::keys()[0] == "amount"@);
        assert(Self::keys()[1] == "block"@);
        assert(Self::keys()[2] == "eon_number"@);
        assert(Self::keys()[3] == "slashed"@);
        assert(Self::keys()[4] == "time"@);
        assert(Self::keys()[5] == "txid"@);
        lemma_all_known(members, Self::keys());
        lemma_lookup_at(members, "amount"@, 0);
        lemma_lookup_at(members, "block"@, 1);
        lemma_lookup_at(members, "eon_number"@, 2);
        lemma_lookup_at(members, "slashed"@, 3);
        lemma_lookup_at(members, "time"@, 4);
        lemma_lookup_at(members, "txid"@, 5);
    }

    /// A valid withdrawal request that was written is read back, in either mode.
    pub proof fn lemma_round_trip(self, mode: Mode)
        requires
            self.valid(),
        ensures
            Self::decoded(self.json(), mode) == Ok::<WithdrawalRequestModel, Fault>(self),
    {
        self.lemma_members();
        u64::lemma_round_trip(self.amount, mode);
        i64::lemma_round_trip(self.block, mode);
        i64::lemma_round_trip(self.eon_number, mode);
        bool::lemma_round_trip(self.slashed, mode);
        DateTime::lemma_round_trip(self.time, mode);
        String::lemma_round_trip(self.txid, mode);
    }
}

impl WithdrawalRequest {
    /// The keys of a withdrawal request.
    fn known() -> (keys: Vec<&'static str>)
        ensures
            names(keys@) == WithdrawalRequestModel::keys(),
    {
        let mut keys: Vec<&'static str> = Vec::new();
        keys.push("amount");
        keys.push("block");
        keys.push("eon_number");
        keys.push("slashed");
        keys.push("time");
        keys.push("txid");
        assert(names(keys@) =~= WithdrawalRequestModel::keys());
        keys
    }
}

impl ToJson for WithdrawalRequest {
    open spec fn json_of(model: WithdrawalRequestModel) -> JsonModel {
        model.json()
    }

    /// Writes the withdrawal request as a JSON object with the keys `amount`,
    /// `block`, `eon_number`, `slashed`, `time` and `txid`, in this order.
    fn encode(&self) -> (json: Json) {
        let mut members: Vec<(String, Json)> = Vec::new();
        members.push(member("amount", self.amount.encode()));
        members.push(member("block", self.block.encode()));
        members.push(member("eon_number", self.eon_number.encode()));
        members.push(member("slashed", self.slashed.encode()));
        members.push(member("time", self.time.encode()));
        members.push(member("txid", self.txid.encode()));
        assert(members_model(members@) =~= self@.json()->Object_0);
        object(members)
    }
}

impl FromJson for WithdrawalRequest {
    open spec fn decoded(value: JsonModel, mode: Mode) -> Result<WithdrawalRequestModel, Fault> {
        WithdrawalRequestModel::decoded(value, mode)
    }

    open spec fn valid(model: WithdrawalRequestModel) -> bool {
        model.valid()
    }

    proof fn lemma_round_trip(model: WithdrawalRequestModel, mode: Mode) {
        model.lemma_round_trip(mode);
    }

    /// Reads a withdrawal request from a JSON object.
    fn decode(json: &Json, mode: Mode) -> (r: Result<WithdrawalRequest, Error>) {
        let members = open(json, &WithdrawalRequest::known(), mode)?;
        let amount = read_field::<u64>(members, "amount", mode)?;
        let block = read_field::<i64>(members, "block", mode)?;
        let eon_number = read_field::<i64>(members, "eon_number", mode)?;
        let slashed = read_field::<bool>(members, "slashed", mode)?;
        let time = read_field::<DateTime>(members, "time", mode)?;
        let txid = read_field::<String>(members, "txid", mode)?;
        let value = WithdrawalRequest {
            amount,
            block,
            eon_number,
            slashed,
            time,
            txid,
        };
        assert(Self::valid(value@));
        Ok(value)
    }
}

/// A withdrawal.
#[derive(Clone, Debug, PartialEq, Eq)]
pub struct Withdrawal {
    pub amount: u64,
    pub block: i64,
    pub eon_number: i64,
    pub request: WithdrawalRequest,
    pub time: DateTime,
    pub txid: String,
}

/// A withdrawal record as contracts see it.
pub ghost struct WithdrawalModel {
    pub amount: u64,
    pub block: i64,
    pub eon_number: i64,
    pub request: WithdrawalRequestModel,
    pub time: (i64, u32),
    pub txid: Seq<char>,
}

impl View for Withdrawal {
    type V = WithdrawalModel;

    open spec fn view(&self) -> WithdrawalModel {
        WithdrawalModel {
            amount: self.amount@,
            block: self.block@,
            eon_number: self.eon_number@,
            request: self.request@,
            time: self.time@,
            txid: self.txid@,
        }
    }
}

impl WithdrawalModel {
    /// The keys of a withdrawal record, in the order they are written.
    pub open spec fn keys() -> Seq<Seq<char>> {
        seq![
            "amount"@,
            "block"@,
            "eon_number"@,
            "request"@,
            "time"@,
            "txid"@,
        ]
    }

    /// The JSON object of a withdrawal record.
    pub open spec fn json(self) -> JsonModel {
        JsonModel::Object(
            seq![
                ("amount"@, u64::json_of(self.amount)),
                ("block"@, i64::json_of(self.block)),
                ("eon_number"@, i64::json_of(self.eon_number)),
                ("request"@, WithdrawalRequest::json_of(self.request)),
                ("time"@, DateTime::json_of(self.time)),
                ("txid"@, String::json_of(self.txid)),
            ],
        )
    }

    /// Every part of the withdrawal record is valid.
    pub open spec fn valid(self) -> bool {
        &&& u64::valid(self.amount)
        &&& i64::valid(self.block)
        &&& i64::valid(self.eon_number)
        &&& WithdrawalRequest::valid(self.request)
        &&& DateTime::valid(self.time)
        &&& String::valid(self.txid)
    }

    /// The withdrawal record that the members of an object make, or the fault of the
    /// first field, in the order of [`Self::keys`], that has one.
    pub open spec fn assembled(members: Members, mode: Mode) -> Result<WithdrawalModel, Fault> {
        let amount = field::<u64>(members, "amount"@, mode);
        let block = field::<i64>(members, "block"@, mode);
        let eon_number = field::<i64>(members, "eon_number"@, mode);
        let request = field::<WithdrawalRequest>(members, "request"@, mode);
        let time = field::<DateTime>(members, "time"@, mode);
        let txid = field::<String>(members, "txid"@, mode);
        if amount is Err {
            Err(amount->Err_0)
        } else if block is Err {
            Err(block->Err_0)
        } else if eon_number is Err {
            Err(eon_number->Err_0)
        } else if request is Err {
            Err(request->Err_0)
        } else if time is Err {
            Err(time->Err_0)
        } else if txid is Err {
            Err(txid->Err_0)
        } else {
            Ok(
                WithdrawalModel {
                    amount: amount->Ok_0,
                    block: block->Ok_0,
                    eon_number: eon_number->Ok_0,
                    request: request->Ok_0,
                    time: time->Ok_0,
                    txid: txid->Ok_0,
                },
            )
        }
    }

    /// The withdrawal record that a JSON value holds, or the first fault found: the
    /// value is no object, then (in strict mode) the first unknown key, then
    /// the fields in the order of [`Self::keys`].
    pub open spec fn decoded(value: JsonModel, mode: Mode) -> Result<WithdrawalModel, Fault> {
        match opened(value, Self::keys(), mode) {
            Err(fault) => Err(fault),
            Ok(members) => Self::assembled(members, mode),
        }
    }

    /// In the object that writes a withdrawal record every key is known and is found
    /// with the value of its field.
    pub proof fn lemma_members(self)
        ensures
            self.json() is Object,
            first_unknown(self.json()->Object_0, Self::keys()) is None,
            lookup(self.json()->Object_0, "amount"@) == Some(u64::json_of(self.amount)),
            lookup(self.json()->Object_0, "block"@) == Some(i64::json_of(self.block)),
            lookup(self.json()->Object_0, "eon_number"@) == Some(i64::json_of(self.eon_number)),
            lookup(self.json()->Object_0, "request"@) == Some(
                WithdrawalRequest::json_of(self.request),
            ),
            lookup(self.json()->Object_0, "time"@) == Some(DateTime::json_of(self.time)),
            lookup(self.json()->Object_0, "txid"@) == Some(String::json_of(self.txid)),
    {
        let members = self.json()->Object_0;
        reveal_strlit("amount");
        reveal_strlit("block");
        reveal_strlit("eon_number");
        reveal_strlit("request");
        reveal_strlit("time");
        reveal_strlit("txid");
        assert("amount"@.len() == 6);
        assert("block"@.len() == 5);
        assert("eon_number"@.len() == 10);
        assert("request"@.len() == 7);
        assert("time"@.len() == 4);
        assert("txid"@.len() == 4);
        assert("time"@[1] == 'i');
        assert("txid"@[1] == 'x');
        assert(Self::keys()[0] == "amount"@);
        assert(Self::keys()[1] == "block"@);
        assert(Self::keys()[2] == "eon_number"@);
        assert(Self::keys()[3] == "request"@);
        assert(Self::keys()[4] == "time"@);
        assert(Self::keys()[5] == "txid"@);
        lemma_all_known(members, Self::keys());
        lemma_lookup_at(members, "amount"@, 0);
        lemma_lookup_at(members, "block"@, 1);
        lemma_lookup_at(members, "eon_number"@, 2);
        lemma_lookup_at(members, "request"@, 3);
        lemma_lookup_at(members, "time"@, 4);
        lemma_lookup_at(members, "txid"@, 5);
    }

    /// A valid withdrawal record that was written is read back, in either mode.
    pub proof fn lemma_round_trip(self, mode: Mode)
        requires
            self.valid(),
        ensures
            Self::decoded(self.json(), mode) == Ok::<WithdrawalModel, Fault>(self),
    {
        self.lemma_members();
        u64::lemma_round_trip(self.amount, mode);
        i64::lemma_round_trip(self.block, mode);
        i64::lemma_round_trip(self.eon_number, mode);
        WithdrawalRequest::lemma_round_trip(self.request, mode);
        DateTime::lemma_round_trip(self.time, mode);
        String::lemma_round_trip(self.txid, mode);
    }
}

impl Withdrawal {
    /// The keys of a withdrawal record.
    fn known() -> (keys: Vec<&'static str>)
        ensures
            names(keys@) == WithdrawalModel::keys(),
    {
        let mut keys: Vec<&'static str> = Vec::new();
        keys.push("amount");
        keys.push("block");
        keys.push("eon_number");
        keys.push("request");
        keys.push("time");
        keys.push("txid");
        assert(names(keys@) =~= WithdrawalModel::keys());
        keys
    }
}

impl ToJson for Withdrawal {
    open spec fn json_of(model: WithdrawalModel) -> JsonModel {
        model.json()
    }

    /// Writes the withdrawal record as a JSON object with the keys `amount`,
    /// `block`, `eon_number`, `request`, `time` and `txid`, in this order.
    fn encode(&self) -> (json: Json) {
        let mut members: Vec<(String, Json)> = Vec::new();
        members.push(member("amount", self.amount.encode()));
        members.push(member("block", self.block.encode()));
        members.push(member("eon_number", self.eon_number.encode()));
        members.push(member("request", self.request.encode()));
        members.push(member("time", self.time.encode()));
        members.push(member("txid", self.txid.encode()));
        assert(members_model(members@) =~= self@.json()->Object_0);
        object(members)
    }
}

impl FromJson for Withdrawal {
    open spec fn decoded(value: JsonModel, mode: Mode) -> Result<WithdrawalModel, Fault> {
        WithdrawalModel::decoded(value, mode)
    }

    open spec fn valid(model: WithdrawalModel) -> bool {
        model.valid()
    }

    proof fn lemma_round_trip(model: WithdrawalModel, mode: Mode) {
        model.lemma_round_trip(mode);
    }

    /// Reads a withdrawal record from a JSON object.
    fn decode(json: &Json, mode: Mode) -> (r: Result<Withdrawal, Error>) {
        let members = open(json, &Withdrawal::known(), mode)?;
        let amount = read_field::<u64>(members, "amount", mode)?;
        let block = read_field::<i64>(members, "block", mode)?;
        let eon_number = read_field::<i64>(members, "eon_number", mode)?;
        let request = read_field::<WithdrawalRequest>(members, "request", mode)?;
        let time = read_field::<DateTime>(members, "time", mode)?;
        let txid = read_field::<String>(members, "txid", mode)?;
        let value = Withdrawal {
            amount,
            block,
            eon_number,
            request,
            time,
            txid,
        };
        assert(Self::valid(value@));
        Ok(value)
    }
}

/// A signature, as the opaque text that the hub hands out.
#[derive(Clone, Debug, PartialEq, Eq)]
pub struct Signature {
    pub value: String,
}

/// A signature as contracts see it.
pub ghost struct SignatureModel {
    pub value: Seq<char>,
}

impl View for Signature {
    type V = SignatureModel;

    open spec fn view(&self) -> SignatureModel {
        SignatureModel {
            value: self.value@,
        }
    }
}

impl SignatureModel {
    /// The keys of a signature, in the order they are written.
    pub open spec fn keys() -> Seq<Seq<char>> {
        seq![
            "value"@,
        ]
    }

    /// The JSON object of a signature.
    pub open spec fn json(self) -> JsonModel {
        JsonModel::Object(
            seq![
                ("value"@, String::json_of(self.value)),
            ],
        )
    }

    /// Every part of the signature is valid.
    pub open spec fn valid(self) -> bool {
        &&& String::valid(self.value)
    }

    /// The signature that the members of an object make, or the fault of the
    /// first field, in the order of [`Self::keys`], that has one.
    pub open spec fn assembled(members: Members, mode: Mode) -> Result<SignatureModel, Fault> {
        let value = field::<String>(members, "value"@, mode);
        if value is Err {
            Err(value->Err_0)
        } else {
            Ok(
                SignatureModel {
                    value: value->Ok_0,
                },
            )
        }
    }

    /// The signature that a JSON value holds, or the first fault found: the
    /// value is no object, then (in strict mode) the first unknown key, then
    /// the fields in the order of [`Self::keys`].
    pub open spec fn decoded(value: JsonModel, mode: Mode) -> Result<SignatureModel, Fault> {
        match opened(value, Self::keys(), mode) {
            Err(fault) => Err(fault),
            Ok(members) => Self::assembled(members, mode),
        }
    }

    /// In the object that writes a signature every key is known and is found
    /// with the value of its field.
    pub proof fn lemma_members(self)
        ensures
            self.json() is Object,
            first_unknown(self.json()->Object_0, Self::keys()) is None,
            lookup(self.json()->Object_0, "value"@) == Some(String::json_of(self.value)),
    {
        let members = self.json()->Object_0;
        reveal_strlit("value");
        assert("value"@.len() == 5);
        assert(Self::keys()[0] == "value"@);
        lemma_all_known(members, Self::keys());
        lemma_lookup_at(members, "value"@, 0);
    }

    /// A valid signature that was written is read back, in either mode.
    pub proof fn lemma_round_trip(self, mode: Mode)
        requires
            self.valid(),
        ensures
            Self::decoded(self.json(), mode) == Ok::<SignatureModel, Fault>(self),
    {
        self.lemma_members();
        String::lemma_round_trip(self.value, mode);
    }
}

impl Signature {
    /// The keys of a signature.
    fn known() -> (keys: Vec<&'static str>)
        ensures
            names(keys@) == SignatureModel::keys(),
    {
        let mut keys: Vec<&'static str> = Vec::new();
        keys.push("value");
        assert(names(keys@) =~= SignatureModel::keys());
        keys
    }
}

impl ToJson for Signature {
    open spec fn json_of(model: SignatureModel) -> JsonModel {
        model.json()
    }

    /// Writes the signature as a JSON object with the key `value`.
    fn encode(&self) -> (json: Json) {
        let mut members: Vec<(String, Json)> = Vec::new();
        members.push(member("value", self.value.encode()));
        assert(members_model(members@) =~= self@.json()->Object_0);
        object(members)
    }
}

impl FromJson for Signature {
    open spec fn decoded(value: JsonModel, mode: Mode) -> Result<SignatureModel, Fault> {
        SignatureModel::decoded(value, mode)
    }

    open spec fn valid(model: SignatureModel) -> bool {
        model.valid()
    }

    proof fn lemma_round_trip(model: SignatureModel, mode: Mode) {
        model.lemma_round_trip(mode);
    }

    /// Reads a signature from a JSON object.
    fn decode(json: &Json, mode: Mode) -> (r: Result<Signature, Error>) {
        let members = open(json, &Signature::known(), mode)?;
        let value = read_field::<String>(members, "value", mode)?;
        let value = Signature {
            value,
        };
        assert(Self::valid(value@));
        Ok(value)
    }
}

} // verus!
