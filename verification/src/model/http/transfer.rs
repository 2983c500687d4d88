//! The models of the HTTP transfer API.

use crate::codec::member;
use crate::error::{Error, Fault};
use crate::json::{
    first_unknown, lemma_all_known, lemma_lookup_at, lookup, members_model, names, object, open,
    opened, Json, JsonModel, Members, Mode,
};
use crate::model::traits::{
    field, lemma_optional_round_trip, models, option_model, optional_field, optional_json,
    read_field, read_optional, valid_if_some, write_optional, FromJson, ToJson,
};
use crate::model::common::{
    DateTime, SenderActiveState, SenderActiveStateModel, Signature, SignatureModel, Uuid, Wallet,
    WalletModel,
};
use vstd::prelude::*;

verus! {

/// A transfer in detail.
#[derive(Clone, Debug, PartialEq, Eq)]
pub struct Transfer {
    pub amount: u64,
    pub complete: bool,
    pub eon_number: i64,
    pub final_receipt_hashes: Option<String>,
    pub final_receipt_index: Option<i64>,
    pub id: i64,
    pub nonce: u64,
    pub passive: bool,
    pub position: u64,
    pub processed: bool,
    pub recipient: String,
    pub recipient_active_state: SenderActiveState,
    pub sender_active_state: SenderActiveState,
    pub sender_finalization_active_state: SenderActiveState,
    pub time: DateTime,
    pub tx_id: Uuid,
    pub wallet: Wallet,
    pub wallet_balance: u64,
    pub wallet_balance_signature: Signature,
    pub wallet_signature: Signature,
}

/// A detailed transfer as contracts see it.
pub ghost struct TransferModel {
    pub amount: u64,
    pub complete: bool,
    pub eon_number: i64,
    pub final_receipt_hashes: Option<Seq<char>>,
    pub final_receipt_index: Option<i64>,
    pub id: i64,
    pub nonce: u64,
    pub passive: bool,
    pub position: u64,
    pub processed: bool,
    pub recipient: Seq<char>,
    pub recipient_active_state: SenderActiveStateModel,
    pub sender_active_state: SenderActiveStateModel,
    pub sender_finalization_active_state: SenderActiveStateModel,
    pub time: (i64, u32),
    pub tx_id: u128,
    pub wallet: WalletModel,
    pub wallet_balance: u64,
    pub wallet_balance_signature: SignatureModel,
    pub wallet_signature: SignatureModel,
}

impl View for Transfer {
    type V = TransferModel;

    open spec fn view(&self) -> TransferModel {
        TransferModel {
            amount: self.amount@,
            complete: self.complete@,
            eon_number: self.eon_number@,
            final_receipt_hashes: option_model(self.final_receipt_hashes),
            final_receipt_index: option_model(self.final_receipt_index),
            id: self.id@,
            nonce: self.nonce@,
            passive: self.passive@,
            position: self.position@,
            processed: self.processed@,
            recipient: self.recipient@,
            recipient_active_state: self.recipient_active_state@,
            sender_active_state: self.sender_active_state@,
            sender_finalization_active_state: self.sender_finalization_active_state@,
            time: self.time@,
            tx_id: self.tx_id@,
            wallet: self.wallet@,
            wallet_balance: self.wallet_balance@,
            wallet_balance_signature: self.wallet_balance_signature@,
            wallet_signature: self.wallet_signature@,
        }
    }
}

impl TransferModel {
    /// The keys of a detailed transfer, in the order they are written.
    pub open spec fn keys() -> Seq<Seq<char>> {
        seq![
            "amount"@,
            "complete"@,
            "eon_number"@,
            "final_receipt_hashes"@,
            "final_receipt_index"@,
            "id"@,
            "nonce"@,
            "passive"@,
            "position"@,
            "processed"@,
            "recipient"@,
            "recipient_active_state"@,
            "sender_active_state"@,
            "sender_finalization_active_state"@,
            "time"@,
            "tx_id"@,
            "wallet"@,
            "wallet_balance"@,
            "wallet_balance_signature"@,
            "wallet_signature"@,
        ]
    }

    /// The JSON object of a detailed transfer.
    pub open spec fn json(self) -> JsonModel {
        JsonModel::Object(
            seq![
                ("amount"@, u64::json_of(self.amount)),
                ("complete"@, bool::json_of(self.complete)),
                ("eon_number"@, i64::json_of(self.eon_number)),
                ("final_receipt_hashes"@, optional_json::<String>(self.final_receipt_hashes)),
                ("final_receipt_index"@, optional_json::<i64>(self.final_receipt_index)),
                ("id"@, i64::json_of(self.id)),
                ("nonce"@, u64::json_of(self.nonce)),
                ("passive"@, bool::json_of(self.passive)),
                ("position"@, u64::json_of(self.position)),
                ("processed"@, bool::json_of(self.processed)),
                ("recipient"@, String::json_of(self.recipient)),
                (
                    "recipient_active_state"@,
                    SenderActiveState::json_of(self.recipient_active_state),
                ),
                ("sender_active_state"@, SenderActiveState::json_of(self.sender_active_state)),
                (
                    "sender_finalization_active_state"@,
                    SenderActiveState::json_of(self.sender_finalization_active_state),
                ),
                ("time"@, DateTime::json_of(self.time)),
                ("tx_id"@, Uuid::json_of(self.tx_id)),
                ("wallet"@, Wallet::json_of(self.wallet)),
                ("wallet_balance"@, u64::json_of(self.wallet_balance)),
                ("wallet_balance_signature"@, Signature::json_of(self.wallet_balance_signature)),
                ("wallet_signature"@, Signature::json_of(self.wallet_signature)),
            ],
        )
    }

    /// Every part of the detailed transfer is valid.
    pub open spec fn valid(self) -> bool {
        &&& u64::valid(self.amount)
        &&& bool::valid(self.complete)
        &&& i64::valid(self.eon_number)
        &&& valid_if_some::<String>(self.final_receipt_hashes)
        &&& valid_if_some::<i64>(self.final_receipt_index)
        &&& i64::valid(self.id)
        &&& u64::valid(self.nonce)
        &&& bool::valid(self.passive)
        &&& u64::valid(self.position)
        &&& bool::valid(self.processed)
        &&& String::valid(self.recipient)
        &&& SenderActiveState::valid(self.recipient_active_state)
        &&& SenderActiveState::valid(self.sender_active_state)
        &&& SenderActiveState::valid(self.sender_finalization_active_state)
        &&& DateTime::valid(self.time)
        &&& Uuid::valid(self.tx_id)
        &&& Wallet::valid(self.wallet)
        &&& u64::valid(self.wallet_balance)
        &&& Signature::valid(self.wallet_balance_signature)
        &&& Signature::valid(self.wallet_signature)
    }

    /// The detailed transfer that the members of an object make, or the fault of the
    /// first field, in the order of [`Self::keys`], that has one.
    pub open spec fn assembled(members: Members, mode: Mode) -> Result<TransferModel, Fault> {
        let amount = field::<u64>(members, "amount"@, mode);
        let complete = field::<bool>(members, "complete"@, mode);
        let eon_number = field::<i64>(members, "eon_number"@, mode);
        let final_receipt_hashes = optional_field::<String>(members, "final_receipt_hashes"@, mode);
        let final_receipt_index = optional_field::<i64>(members, "final_receipt_index"@, mode);
        let id = field::<i64>(members, "id"@, mode);
        let nonce = field::<u64>(members, "nonce"@, mode);
        let passive = field::<bool>(members, "passive"@, mode);
        let position = field::<u64>(members, "position"@, mode);
        let processed = field::<bool>(members, "processed"@, mode);
        let recipient = field::<String>(members, "recipient"@, mode);
        let recipient_active_state = field::<SenderActiveState>(
            members,
            "recipient_active_state"@,
            mode,
        );
        let sender_active_state = field::<SenderActiveState>(members, "sender_active_state"@, mode);
        let sender_finalization_active_state = field::<SenderActiveState>(
            members,
            "sender_finalization_active_state"@,
            mode,
        );
        let time = field::<DateTime>(members, "time"@, mode);
        let tx_id = field::<Uuid>(members, "tx_id"@, mode);
        let wallet = field::<Wallet>(members, "wallet"@, mode);
        let wallet_balance = field::<u64>(members, "wallet_balance"@, mode);
        let wallet_balance_signature = field::<Signature>(
            members,
            "wallet_balance_signature"@,
            mode,
        );
        let wallet_signature = field::<Signature>(members, "wallet_signature"@, mode);
        if amount is Err {
            Err(amount->Err_0)
        } else if complete is Err {
            Err(complete->Err_0)
        } else if eon_number is Err {
            Err(eon_number->Err_0)
        } else if final_receipt_hashes is Err {
            Err(final_receipt_hashes->Err_0)
        } else if final_receipt_index is Err {
            Err(final_receipt_index->Err_0)
        } else if id is Err {
            Err(id->Err_0)
        } else if nonce is Err {
            Err(nonce->Err_0)
        } else if passive is Err {
            Err(passive->Err_0)
        } else if position is Err {
            Err(position->Err_0)
        } else if processed is Err {
            Err(processed->Err_0)
        } else if recipient is Err {
            Err(recipient->Err_0)
        } else if recipient_active_state is Err {
            Err(recipient_active_state->Err_0)
        } else if sender_active_state is Err {
            Err(sender_active_state->Err_0)
        } else if sender_finalization_active_state is Err {
            Err(sender_finalization_active_state->Err_0)
        } else if time is Err {
            Err(time->Err_0)
        } else if tx_id is Err {
            Err(tx_id->Err_0)
        } else if wallet is Err {
            Err(wallet->Err_0)
        } else if wallet_balance is Err {
            Err(wallet_balance->Err_0)
        } else if wallet_balance_signature is Err {
            Err(wallet_balance_signature->Err_0)
        } else if wallet_signature is Err {
            Err(wallet_signature->Err_0)
        } else {
            Ok(
                TransferModel {
                    amount: amount->Ok_0,
                    complete: complete->Ok_0,
                    eon_number: eon_number->Ok_0,
                    final_receipt_hashes: final_receipt_hashes->Ok_0,
                    final_receipt_index: final_receipt_index->Ok_0,
                    id: id->Ok_0,
                    nonce: nonce->Ok_0,
                    passive: passive->Ok_0,
                    position: position->Ok_0,
                    processed: processed->Ok_0,
                    recipient: recipient->Ok_0,
                    recipient_active_state: recipient_active_state->Ok_0,
                    sender_active_state: sender_active_state->Ok_0,
                    sender_finalization_active_state: sender_finalization_active_state->Ok_0,
                    time: time->Ok_0,
                    tx_id: tx_id->Ok_0,
                    wallet: wallet->Ok_0,
                    wallet_balance: wallet_balance->Ok_0,
                    wallet_balance_signature: wallet_balance_signature->Ok_0,
                    wallet_signature: wallet_signature->Ok_0,
                },
            )
        }
    }

    /// The detailed transfer that a JSON value holds, or the first fault found: the
    /// value is no object, then (in strict mode) the first unknown key, then
    /// the fields in the order of [`Self::keys`].
    pub open spec fn decoded(value: JsonModel, mode: Mode) -> Result<TransferModel, Fault> {
        match opened(value, Self::keys(), mode) {
            Err(fault) => Err(fault),
            Ok(members) => Self::assembled(members, mode),
        }
    }

    /// In the object that writes a detailed transfer every key is known and is found
    /// with the value of its field.
    pub proof fn lemma_members(self)
        ensures
            self.json() is Object,
            first_unknown(self.json()->Object_0, Self::keys()) is None,
            lookup(self.json()->Object_0, "amount"@) == Some(u64::json_of(self.amount)),
            lookup(self.json()->Object_0, "complete"@) == Some(bool::json_of(self.complete)),
            lookup(self.json()->Object_0, "eon_number"@) == Some(i64::json_of(self.eon_number)),
            lookup(self.json()->Object_0, "final_receipt_hashes"@) == Some(
                optional_json::<String>(self.final_receipt_hashes),
            ),
            lookup(self.json()->Object_0, "final_receipt_index"@) == Some(
                optional_json::<i64>(self.final_receipt_index),
            ),
            lookup(self.json()->Object_0, "id"@) == Some(i64::json_of(self.id)),
            lookup(self.json()->Object_0, "nonce"@) == Some(u64::json_of(self.nonce)),
            lookup(self.json()->Object_0, "passive"@) == Some(bool::json_of(self.passive)),
            lookup(self.json()->Object_0, "position"@) == Some(u64::json_of(self.position)),
            lookup(self.json()->Object_0, "processed"@) == Some(bool::json_of(self.processed)),
            lookup(self.json()->Object_0, "recipient"@) == Some(String::json_of(self.recipient)),
            lookup(self.json()->Object_0, "recipient_active_state"@) == Some(
                SenderActiveState::json_of(self.recipient_active_state),
            ),
            lookup(self.json()->Object_0, "sender_active_state"@) == Some(
                SenderActiveState::json_of(self.sender_active_state),
            ),
            lookup(self.json()->Object_0, "sender_finalization_active_state"@) == Some(
                SenderActiveState::json_of(self.sender_finalization_active_state),
            ),
            lookup(self.json()->Object_0, "time"@) == Some(DateTime::json_of(self.time)),
            lookup(self.json()->Object_0, "tx_id"@) == Some(Uuid::json_of(self.tx_id)),
            lookup(self.json()->Object_0, "wallet"@) == Some(Wallet::json_of(self.wallet)),
            lookup(self.json()->Object_0, "wallet_balance"@) == Some(
                u64::json_of(self.wallet_balance),
            ),
            lookup(self.json()->Object_0, "wallet_balance_signature"@) == Some(
                Signature::json_of(self.wallet_balance_signature),
            ),
            lookup(self.json()->Object_0, "wallet_signature"@) == Some(
                Signature::json_of(self.wallet_signature),
            ),
    {
        let members = self.json()->Object_0;
        reveal_strlit("amount");
        reveal_strlit("complete");
        reveal_strlit("eon_number");
        reveal_strlit("final_receipt_hashes");
        reveal_strlit("final_receipt_index");
        reveal_strlit("id");
        reveal_strlit("nonce");
        reveal_strlit("passive");
        reveal_strlit("position");
        reveal_strlit("processed");
        reveal_strlit("recipient");
        reveal_strlit("recipient_active_state");
        reveal_strlit("sender_active_state");
        reveal_strlit("sender_finalization_active_state");
        reveal_strlit("time");
        reveal_strlit("tx_id");
        reveal_strlit("wallet");
        reveal_strlit("wallet_balance");
        reveal_strlit("wallet_balance_signature");
        reveal_strlit("wallet_signature");
        assert("amount"@.len() == 6);
        assert("complete"@.len() == 8);
        assert("eon_number"@.len() == 10);
        assert("final_receipt_hashes"@.len() == 20);
        assert("final_receipt_index"@.len() == 19);
        assert("id"@.len() == 2);
        assert("nonce"@.len() == 5);
        assert("passive"@.len() == 7);
        assert("position"@.len() == 8);
        assert("processed"@.len() == 9);
        assert("recipient"@.len() == 9);
        assert("recipient_active_state"@.len() == 22);
        assert("sender_active_state"@.len() == 19);
        assert("sender_finalization_active_state"@.len() == 32);
        assert("time"@.len() == 4);
        assert("tx_id"@.len() == 5);
        assert("wallet"@.len() == 6);
        assert("wallet_balance"@.len() == 14);
        assert("wallet_balance_signature"@.len() == 24);
        assert("wallet_signature"@.len() == 16);
        assert("amount"@[0] == 'a');
        assert("wallet"@[0] == 'w');
        assert("complete"@[0] == 'c');
        assert("position"@[0] == 'p');
        assert("final_receipt_index"@[0] == 'f');
        assert("sender_active_state"@[0] == 's');
        assert("nonce"@[0] == 'n');
        assert("tx_id"@[0] == 't');
        assert("processed"@[0] == 'p');
        assert("recipient"@[0] == 'r');
        assert(Self::keys()[0] == "amount"@);
        assert(Self::keys()[1] == "complete"@);
        assert(Self::keys()[2] == "eon_number"@);
        assert(Self::keys()[3] == "final_receipt_hashes"@);
        assert(Self::keys()[4] == "final_receipt_index"@);
        assert(Self::keys()[5] == "id"@);
        assert(Self::keys()[6] == "nonce"@);
        assert(Self::keys()[7] == "passive"@);
        assert(Self::keys()[8] == "position"@);
        assert(Self::keys()[9] == "processed"@);
        assert(Self::keys()[10] == "recipient"@);
        assert(Self::keys()[11] == "recipient_active_state"@);
        assert(Self::keys()[12] == "sender_active_state"@);
        assert(Self::keys()[13] == "sender_finalization_active_state"@);
        assert(Self::keys()[14] == "time"@);
        assert(Self::keys()[15] == "tx_id"@);
        assert(Self::keys()[16] == "wallet"@);
        assert(Self::keys()[17] == "wallet_balance"@);
        assert(Self::keys()[18] == "wallet_balance_signature"@);
        assert(Self::keys()[19] == "wallet_signature"@);
        lemma_all_known(members, Self::keys());
        lemma_lookup_at(members, "amount"@, 0);
        lemma_lookup_at(members, "complete"@, 1);
        lemma_lookup_at(members, "eon_number"@, 2);
        lemma_lookup_at(members, "final_receipt_hashes"@, 3);
        lemma_lookup_at(members, "final_receipt_index"@, 4);
        lemma_lookup_at(members, "id"@, 5);
        lemma_lookup_at(members, "nonce"@, 6);
        lemma_lookup_at(members, "passive"@, 7);
        lemma_lookup_at(members, "position"@, 8);
        lemma_lookup_at(members, "processed"@, 9);
        lemma_lookup_at(members, "recipient"@, 10);
        lemma_lookup_at(members, "recipient_active_state"@, 11);
        lemma_lookup_at(members, "sender_active_state"@, 12);
        lemma_lookup_at(members, "sender_finalization_active_state"@, 13);
        lemma_lookup_at(members, "time"@, 14);
        lemma_lookup_at(members, "tx_id"@, 15);
        lemma_lookup_at(members, "wallet"@, 16);
        lemma_lookup_at(members, "wallet_balance"@, 17);
        lemma_lookup_at(members, "wallet_balance_signature"@, 18);
        lemma_lookup_at(members, "wallet_signature"@, 19);
    }

    /// A valid detailed transfer that was written is read back, in either mode.
    pub proof fn lemma_round_trip(self, mode: Mode)
        requires
            self.valid(),
        ensures
            Self::decoded(self.json(), mode) == Ok::<TransferModel, Fault>(self),
    {
        self.lemma_members();
        let members = self.json()->Object_0;
        u64::lemma_round_trip(self.amount, mode);
        assert(field::<u64>(members, "amount"@, mode) == Ok::<u64, Fault>(self.amount));
        bool::lemma_round_trip(self.complete, mode);
        assert(field::<bool>(members, "complete"@, mode) == Ok::<bool, Fault>(self.complete));
        i64::lemma_round_trip(self.eon_number, mode);
        assert(field::<i64>(members, "eon_number"@, mode) == Ok::<i64, Fault>(self.eon_number));
        lemma_optional_round_trip::<String>(self.final_receipt_hashes, mode);
        assert(optional_field::<String>(members, "final_receipt_hashes"@, mode) == Ok::<
            Option<Seq<char>>,
            Fault,
        >(self.final_receipt_hashes));
        lemma_optional_round_trip::<i64>(self.final_receipt_index, mode);
        assert(optional_field::<i64>(members, "final_receipt_index"@, mode) == Ok::<
            Option<i64>,
            Fault,
        >(self.final_receipt_index));
        i64::lemma_round_trip(self.id, mode);
        assert(field::<i64>(members, "id"@, mode) == Ok::<i64, Fault>(self.id));
        u64::lemma_round_trip(self.nonce, mode);
        assert(field::<u64>(members, "nonce"@, mode) == Ok::<u64, Fault>(self.nonce));
        bool::lemma_round_trip(self.passive, mode);
        assert(field::<bool>(members, "passive"@, mode) == Ok::<bool, Fault>(self.passive));
        u64::lemma_round_trip(self.position, mode);
        assert(field::<u64>(members, "position"@, mode) == Ok::<u64, Fault>(self.position));
        bool::lemma_round_trip(self.processed, mode);
        assert(field::<bool>(members, "processed"@, mode) == Ok::<bool, Fault>(self.processed));
        String::lemma_round_trip(self.recipient, mode);
        assert(field::<String>(members, "recipient"@, mode) == Ok::<
            Seq<char>,
            Fault,
        >(self.recipient));
        SenderActiveState::lemma_round_trip(self.recipient_active_state, mode);
        assert(field::<SenderActiveState>(members, "recipient_active_state"@, mode) == Ok::<
            SenderActiveStateModel,
            Fault,
        >(self.recipient_active_state));
        SenderActiveState::lemma_round_trip(self.sender_active_state, mode);
        assert(field::<SenderActiveState>(members, "sender_active_state"@, mode) == Ok::<
            SenderActiveStateModel,
            Fault,
        >(self.sender_active_state));
        SenderActiveState::lemma_round_trip(self.sender_finalization_active_state, mode);
        assert(field::<SenderActiveState>(members, "sender_finalization_active_state"@, mode) == Ok::<
            SenderActiveStateModel,
            Fault,
        >(self.sender_finalization_active_state));
        DateTime::lemma_round_trip(self.time, mode);
        assert(field::<DateTime>(members, "time"@, mode) == Ok::<(i64, u32), Fault>(self.time));
        Uuid::lemma_round_trip(self.tx_id, mode);
        assert(field::<Uuid>(members, "tx_id"@, mode) == Ok::<u128, Fault>(self.tx_id));
        Wallet::lemma_round_trip(self.wallet, mode);
        assert(field::<Wallet>(members, "wallet"@, mode) == Ok::<WalletModel, Fault>(self.wallet));
        u64::lemma_round_trip(self.wallet_balance, mode);
        assert(field::<u64>(members, "wallet_balance"@, mode) == Ok::<
            u64,
            Fault,
        >(self.wallet_balance));
        Signature::lemma_round_trip(self.wallet_balance_signature, mode);
        assert(field::<Signature>(members, "wallet_balance_signature"@, mode) == Ok::<
            SignatureModel,
            Fault,
        >(self.wallet_balance_signature));
        Signature::lemma_round_trip(self.wallet_signature, mode);
        assert(field::<Signature>(members, "wallet_signature"@, mode) == Ok::<
            SignatureModel,
            Fault,
        >(self.wallet_signature));
    }
}

impl Transfer {
    /// The keys of a detailed transfer.
    fn known() -> (keys: Vec<&'static str>)
        ensures
            names(keys@) == TransferModel::keys(),
    {
        let mut keys: Vec<&'static str> = Vec::new();
        keys.push("amount");
        keys.push("complete");
        keys.push("eon_number");
        keys.push("final_receipt_hashes");
        keys.push("final_receipt_index");
        keys.push("id");
        keys.push("nonce");
        keys.push("passive");
        keys.push("position");
        keys.push("processed");
        keys.push("recipient");
        keys.push("recipient_active_state");
        keys.push("sender_active_state");
        keys.push("sender_finalization_active_state");
        keys.push("time");
        keys.push("tx_id");
        keys.push("wallet");
        keys.push("wallet_balance");
        keys.push("wallet_balance_signature");
        keys.push("wallet_signature");
        assert(names(keys@) =~= TransferModel::keys());
        keys
    }
}

impl ToJson for Transfer {
    open spec fn json_of(model: TransferModel) -> JsonModel {
        model.json()
    }

    /// Writes the detailed transfer as a JSON object with the keys `amount`,
    /// `complete`, `eon_number`, `final_receipt_hashes`,
    /// `final_receipt_index`, `id`, `nonce`, `passive`, `position`,
    /// `processed`, `recipient`, `recipient_active_state`,
    /// `sender_active_state`, `sender_finalization_active_state`, `time`,
    /// `tx_id`, `wallet`, `wallet_balance`, `wallet_balance_signature` and
    /// `wallet_signature`, in this order.
    fn encode(&self) -> (json: Json) {
        let mut members: Vec<(String, Json)> = Vec::new();
        members.push(member("amount", self.amount.encode()));
        members.push(member("complete", self.complete.encode()));
        members.push(member("eon_number", self.eon_number.encode()));
        members.push(member("final_receipt_hashes", write_optional(&self.final_receipt_hashes)));
        members.push(member("final_receipt_index", write_optional(&self.final_receipt_index)));
        members.push(member("id", self.id.encode()));
        members.push(member("nonce", self.nonce.encode()));
        members.push(member("passive", self.passive.encode()));
        members.push(member("position", self.position.encode()));
        members.push(member("processed", self.processed.encode()));
        members.push(member("recipient", self.recipient.encode()));
        members.push(member("recipient_active_state", self.recipient_active_state.encode()));
        members.push(member("sender_active_state", self.sender_active_state.encode()));
        members.push(
            member(
                "sender_finalization_active_state",
                self.sender_finalization_active_state.encode(),
            ),
        );
        members.push(member("time", self.time.encode()));
        members.push(member("tx_id", self.tx_id.encode()));
        members.push(member("wallet", self.wallet.encode()));
        members.push(member("wallet_balance", self.wallet_balance.encode()));
        members.push(member("wallet_balance_signature", self.wallet_balance_signature.encode()));
        members.push(member("wallet_signature", self.wallet_signature.encode()));
        assert(members_model(members@) =~= self@.json()->Object_0);
        object(members)
    }
}

impl FromJson for Transfer {
    open spec fn decoded(value: JsonModel, mode: Mode) -> Result<TransferModel, Fault> {
        TransferModel::decoded(value, mode)
    }

    open spec fn valid(model: TransferModel) -> bool {
        model.valid()
    }

    proof fn lemma_round_trip(model: TransferModel, mode: Mode) {
        model.lemma_round_trip(mode);
    }

    /// Reads a detailed transfer from a JSON object.
    fn decode(json: &Json, mode: Mode) -> (r: Result<Transfer, Error>) {
        let members = open(json, &Transfer::known(), mode)?;
        let amount = read_field::<u64>(members, "amount", mode)?;
        let complete = read_field::<bool>(members, "complete", mode)?;
        let eon_number = read_field::<i64>(members, "eon_number", mode)?;
        let final_receipt_hashes = read_optional::<String>(members, "final_receipt_hashes", mode)?;
        let final_receipt_index = read_optional::<i64>(members, "final_receipt_index", mode)?;
        let id = read_field::<i64>(members, "id", mode)?;
        let nonce = read_field::<u64>(members, "nonce", mode)?;
        let passive = read_field::<bool>(members, "passive", mode)?;
        let position = read_field::<u64>(members, "position", mode)?;
        let processed = read_field::<bool>(members, "processed", mode)?;
        let recipient = read_field::<String>(members, "recipient", mode)?;
        let recipient_active_state = read_field::<SenderActiveState>(
            members,
            "recipient_active_state",
            mode,
        )?;
        let sender_active_state = read_field::<SenderActiveState>(
            members,
            "sender_active_state",
            mode,
        )?;
        let sender_finalization_active_state = read_field::<SenderActiveState>(
            members,
            "sender_finalization_active_state",
            mode,
        )?;
        let time = read_field::<DateTime>(members, "time", mode)?;
        let tx_id = read_field::<Uuid>(members, "tx_id", mode)?;
        let wallet = read_field::<Wallet>(members, "wallet", mode)?;
        let wallet_balance = read_field::<u64>(members, "wallet_balance", mode)?;
        let wallet_balance_signature = read_field::<Signature>(
            members,
            "wallet_balance_signature",
            mode,
        )?;
        let wallet_signature = read_field::<Signature>(members, "wallet_signature", mode)?;
        let value = Transfer {
            amount,
            complete,
            eon_number,
            final_receipt_hashes,
            final_receipt_index,
            id,
            nonce,
            passive,
            position,
            processed,
            recipient,
            recipient_active_state,
            sender_active_state,
            sender_finalization_active_state,
            time,
            tx_id,
            wallet,
            wallet_balance,
            wallet_balance_signature,
            wallet_signature,
        };
        assert(Self::valid(value@));
        Ok(value)
    }
}

/// The receipt of a transfer.
#[derive(Clone, Debug, PartialEq, Eq)]
pub struct TransferReceipt {
    pub recipient: Wallet,
    pub recipient_active_state: SenderActiveState,
    pub sender_active_state: SenderActiveState,
    pub wallet: Wallet,
    pub wallet_signature: Signature,
}

/// A transfer receipt as contracts see it.
pub ghost struct TransferReceiptModel {
    pub recipient: WalletModel,
    pub recipient_active_state: SenderActiveStateModel,
    pub sender_active_state: SenderActiveStateModel,
    pub wallet: WalletModel,
    pub wallet_signature: SignatureModel,
}

impl View for TransferReceipt {
    type V = TransferReceiptModel;

    open spec fn view(&self) -> TransferReceiptModel {
        TransferReceiptModel {
            recipient: self.recipient@,
            recipient_active_state: self.recipient_active_state@,
            sender_active_state: self.sender_active_state@,
            wallet: self.wallet@,
            wallet_signature: self.wallet_signature@,
        }
    }
}

impl TransferReceiptModel {
    /// The keys of a transfer receipt, in the order they are written.
    pub open spec fn keys() -> Seq<Seq<char>> {
        seq![
            "recipient"@,
            "recipient_active_state"@,
            "sender_active_state"@,
            "wallet"@,
            "wallet_signature"@,
        ]
    }

    /// The JSON object of a transfer receipt.
    pub open spec fn json(self) -> JsonModel {
        JsonModel::Object(
            seq![
                ("recipient"@, Wallet::json_of(self.recipient)),
                (
                    "recipient_active_state"@,
                    SenderActiveState::json_of(self.recipient_active_state),
                ),
                ("sender_active_state"@, SenderActiveState::json_of(self.sender_active_state)),
                ("wallet"@, Wallet::json_of(self.wallet)),
                ("wallet_signature"@, Signature::json_of(self.wallet_signature)),
            ],
        )
    }

    /// Every part of the transfer receipt is valid.
    pub open spec fn valid(self) -> bool {
        &&& Wallet::valid(self.recipient)
        &&& SenderActiveState::valid(self.recipient_active_state)
        &&& SenderActiveState::valid(self.sender_active_state)
        &&& Wallet::valid(self.wallet)
        &&& Signature::valid(self.wallet_signature)
    }

    /// The transfer receipt that the members of an object make, or the fault of the
    /// first field, in the order of [`Self::keys`], that has one.
    pub open spec fn assembled(members: Members, mode: Mode) -> Result<
        TransferReceiptModel,
        Fault,
    > {
        let recipient = field::<Wallet>(members, "recipient"@, mode);
        let recipient_active_state = field::<SenderActiveState>(
            members,
            "recipient_active_state"@,
            mode,
        );
        let sender_active_state = field::<SenderActiveState>(members, "sender_active_state"@, mode);
        let wallet = field::<Wallet>(members, "wallet"@, mode);
        let wallet_signature = field::<Signature>(members, "wallet_signature"@, mode);
        if recipient is Err {
            Err(recipient->Err_0)
        } else if recipient_active_state is Err {
            Err(recipient_active_state->Err_0)
        } else if sender_active_state is Err {
            Err(sender_active_state->Err_0)
        } else if wallet is Err {
            Err(wallet->Err_0)
        } else if wallet_signature is Err {
            Err(wallet_signature->Err_0)
        } else {
            Ok(
                TransferReceiptModel {
                    recipient: recipient->Ok_0,
                    recipient_active_state: recipient_active_state->Ok_0,
                    sender_active_state: sender_active_state->Ok_0,
                    wallet: wallet->Ok_0,
                    wallet_signature: wallet_signature->Ok_0,
                },
            )
        }
    }

    /// The transfer receipt that a JSON value holds, or the first fault found: the
    /// value is no object, then (in strict mode) the first unknown key, then
    /// the fields in the order of [`Self::keys`].
    pub open spec fn decoded(value: JsonModel, mode: Mode) -> Result<TransferReceiptModel, Fault> {
        match opened(value, Self::keys(), mode) {
            Err(fault) => Err(fault),
            Ok(members) => Self::assembled(members, mode),
        }
    }

    /// In the object that writes a transfer receipt every key is known and is found
    /// with the value of its field.
    pub proof fn lemma_members(self)
        ensures
            self.json() is Object,
            first_unknown(self.json()->Object_0, Self::keys()) is None,
            lookup(self.json()->Object_0, "recipient"@) == Some(Wallet::json_of(self.recipient)),
            lookup(self.json()->Object_0, "recipient_active_state"@) == Some(
                SenderActiveState::json_of(self.recipient_active_state),
            ),
            lookup(self.json()->Object_0, "sender_active_state"@) == Some(
                SenderActiveState::json_of(self.sender_active_state),
            ),
            lookup(self.json()->Object_0, "wallet"@) == Some(Wallet::json_of(self.wallet)),
            lookup(self.json()->Object_0, "wallet_signature"@) == Some(
                Signature::json_of(self.wallet_signature),
            ),
    {
        let members = self.json()->Object_0;
        reveal_strlit("recipient");
        reveal_strlit("recipient_active_state");
        reveal_strlit("sender_active_state");
        reveal_strlit("wallet");
        reveal_strlit("wallet_signature");
        assert("recipient"@.len() == 9);
        assert("recipient_active_state"@.len() == 22);
        assert("sender_active_state"@.len() == 19);
        assert("wallet"@.len() == 6);
        assert("wallet_signature"@.len() == 16);
        assert(Self::keys()[0] == "recipient"@);
        assert(Self::keys()[1] == "recipient_active_state"@);
        assert(Self::keys()[2] == "sender_active_state"@);
        assert(Self::keys()[3] == "wallet"@);
        assert(Self::keys()[4] == "wallet_signature"@);
        lemma_all_known(members, Self::keys());
        lemma_lookup_at(members, "recipient"@, 0);
        lemma_lookup_at(members, "recipient_active_state"@, 1);
        lemma_lookup_at(members, "sender_active_state"@, 2);
        lemma_lookup_at(members, "wallet"@, 3);
        lemma_lookup_at(members, "wallet_signature"@, 4);
    }

    /// A valid transfer receipt that was written is read back, in either mode.
    pub proof fn lemma_round_trip(self, mode: Mode)
        requires
            self.valid(),
        ensures
            Self::decoded(self.json(), mode) == Ok::<TransferReceiptModel, Fault>(self),
    {
        self.lemma_members();
        Wallet::lemma_round_trip(self.recipient, mode);
        SenderActiveState::lemma_round_trip(self.recipient_active_state, mode);
        SenderActiveState::lemma_round_trip(self.sender_active_state, mode);
        Wallet::lemma_round_trip(self.wallet, mode);
        Signature::lemma_round_trip(self.wallet_signature, mode);
    }
}

impl TransferReceipt {
    /// The keys of a transfer receipt.
    fn known() -> (keys: Vec<&'static str>)
        ensures
            names(keys@) == TransferReceiptModel::keys(),
    {
        let mut keys: Vec<&'static str> = Vec::new();
        keys.push("recipient");
        keys.push("recipient_active_state");
        keys.push("sender_active_state");
        keys.push("wallet");
        keys.push("wallet_signature");
        assert(names(keys@) =~= TransferReceiptModel::keys());
        keys
    }
}

impl ToJson for TransferReceipt {
    open spec fn json_of(model: TransferReceiptModel) -> JsonModel {
        model.json()
    }

    /// Writes the transfer receipt as a JSON object with the keys
    /// `recipient`, `recipient_active_state`, `sender_active_state`, `wallet`
    /// and `wallet_signature`, in this order.
    fn encode(&self) -> (json: Json) {
        let mut members: Vec<(String, Json)> = Vec::new();
        members.push(member("recipient", self.recipient.encode()));
        members.push(member("recipient_active_state", self.recipient_active_state.encode()));
        members.push(member("sender_active_state", self.sender_active_state.encode()));
        members.push(member("wallet", self.wallet.encode()));
        members.push(member("wallet_signature", self.wallet_signature.encode()));
        assert(members_model(members@) =~= self@.json()->Object_0);
        object(members)
    }
}

impl FromJson for TransferReceipt {
    open spec fn decoded(value: JsonModel, mode: Mode) -> Result<TransferReceiptModel, Fault> {
        TransferReceiptModel::decoded(value, mode)
    }

    open spec fn valid(model: TransferReceiptModel) -> bool {
        model.valid()
    }

    proof fn lemma_round_trip(model: TransferReceiptModel, mode: Mode) {
        model.lemma_round_trip(mode);
    }

    /// Reads a transfer receipt from a JSON object.
    fn decode(json: &Json, mode: Mode) -> (r: Result<TransferReceipt, Error>) {
        let members = open(json, &TransferReceipt::known(), mode)?;
        let recipient = read_field::<Wallet>(members, "recipient", mode)?;
        let recipient_active_state = read_field::<SenderActiveState>(
            members,
            "recipient_active_state",
            mode,
        )?;
        let sender_active_state = read_field::<SenderActiveState>(
            members,
            "sender_active_state",
            mode,
        )?;
        let wallet = read_field::<Wallet>(members, "wallet", mode)?;
        let wallet_signature = read_field::<Signature>(members, "wallet_signature", mode)?;
        let value = TransferReceipt {
            recipient,
            recipient_active_state,
            sender_active_state,
            wallet,
            wallet_signature,
        };
        assert(Self::valid(value@));
        Ok(value)
    }
}

} // verus!
