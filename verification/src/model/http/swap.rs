//! The models of the HTTP swap API.

use crate::codec::member;
use crate::error::{Error, Fault};
use crate::json::{
    first_unknown, lemma_all_known, lemma_lookup_at, lookup, members_model, names, object, open,
    opened, Json, JsonModel, Members, Mode,
};
use crate::model::traits::{
    all_valid, field, lemma_list_round_trip, lemma_optional_round_trip, list_field, list_json,
    models, option_model, optional_field, optional_json, read_field, read_list_field,
    read_optional, valid_if_some, write_list, write_optional, FromJson, ToJson,
};
use crate::model::common::{
    SenderActiveState, SenderActiveStateModel, Signature, SignatureModel, Wallet, WalletModel,
};
use vstd::prelude::*;

verus! {

/// A swap.
#[derive(Clone, Debug, PartialEq, Eq)]
pub struct Swap {
    pub amount: u64,
    pub amount_swapped: Option<u64>,
    pub credit_balance_signature: Vec<Signature>,
    pub credit_signature: Signature,
    pub debit_balance_signature: Vec<Signature>,
    pub debit_signature: Vec<Signature>,
    pub eon_number: u64,
    pub final_receipt_hashes: Option<String>,
    pub final_receipt_index: i64,
    pub fulfillment_signature: Vec<Signature>,
    pub nonce: u64,
    pub recipient: Wallet,
    pub recipient_active_state: SenderActiveState,
    pub sender_active_state: SenderActiveState,
    pub wallet: Wallet,
}

/// A swap order as contracts see it.
pub ghost struct SwapModel {
    pub amount: u64,
    pub amount_swapped: Option<u64>,
    pub credit_balance_signature: Seq<SignatureModel>,
    pub credit_signature: SignatureModel,
    pub debit_balance_signature: Seq<SignatureModel>,
    pub debit_signature: Seq<SignatureModel>,
    pub eon_number: u64,
    pub final_receipt_hashes: Option<Seq<char>>,
    pub final_receipt_index: i64,
    pub fulfillment_signature: Seq<SignatureModel>,
    pub nonce: u64,
    pub recipient: WalletModel,
    pub recipient_active_state: SenderActiveStateModel,
    pub sender_active_state: SenderActiveStateModel,
    pub wallet: WalletModel,
}

impl View for Swap {
    type V = SwapModel;

    open spec fn view(&self) -> SwapModel {
        SwapModel {
            amount: self.amount@,
            amount_swapped: option_model(self.amount_swapped),
            credit_balance_signature: models(self.credit_balance_signature@),
            credit_signature: self.credit_signature@,
            debit_balance_signature: models(self.debit_balance_signature@),
            debit_signature: models(self.debit_signature@),
            eon_number: self.eon_number@,
            final_receipt_hashes: option_model(self.final_receipt_hashes),
            final_receipt_index: self.final_receipt_index@,
            fulfillment_signature: models(self.fulfillment_signature@),
            nonce: self.nonce@,
            recipient: self.recipient@,
            recipient_active_state: self.recipient_active_state@,
            sender_active_state: self.sender_active_state@,
            wallet: self.wallet@,
        }
    }
}

impl SwapModel {
    /// The keys of a swap order, in the order they are written.
    pub open spec fn keys() -> Seq<Seq<char>> {
        seq![
            "amount"@,
            "amount_swapped"@,
            "credit_balance_signature"@,
            "credit_signature"@,
            "debit_balance_signature"@,
            "debit_signature"@,
            "eon_number"@,
            "final_receipt_hashes"@,
            "final_receipt_index"@,
            "fulfillment_signature"@,
            "nonce"@,
            "recipient"@,
            "recipient_active_state"@,
            "sender_active_state"@,
            "wallet"@,
        ]
    }

    /// The JSON object of a swap order.
    pub open spec fn json(self) -> JsonModel {
        JsonModel::Object(
            seq![
                ("amount"@, u64::json_of(self.amount)),
                ("amount_swapped"@, optional_json::<u64>(self.amount_swapped)),
                (
                    "credit_balance_signature"@,
                    list_json::<Signature>(self.credit_balance_signature),
                ),
                ("credit_signature"@, Signature::json_of(self.credit_signature)),
                ("debit_balance_signature"@, list_json::<Signature>(self.debit_balance_signature)),
                ("debit_signature"@, list_json::<Signature>(self.debit_signature)),
                ("eon_number"@, u64::json_of(self.eon_number)),
                ("final_receipt_hashes"@, optional_json::<String>(self.final_receipt_hashes)),
                ("final_receipt_index"@, i64::json_of(self.final_receipt_index)),
                ("fulfillment_signature"@, list_json::<Signature>(self.fulfillment_signature)),
                ("nonce"@, u64::json_of(self.nonce)),
                ("recipient"@, Wallet::json_of(self.recipient)),
                (
                    "recipient_active_state"@,
                    SenderActiveState::json_of(self.recipient_active_state),
                ),
                ("sender_active_state"@, SenderActiveState::json_of(self.sender_active_state)),
                ("wallet"@, Wallet::json_of(self.wallet)),
            ],
        )
    }

    /// Every part of the swap order is valid.
    pub open spec fn valid(self) -> bool {
        &&& u64::valid(self.amount)
        &&& valid_if_some::<u64>(self.amount_swapped)
        &&& all_valid::<Signature>(self.credit_balance_signature)
        &&& Signature::valid(self.credit_signature)
        &&& all_valid::<Signature>(self.debit_balance_signature)
        &&& all_valid::<Signature>(self.debit_signature)
        &&& u64::valid(self.eon_number)
        &&& valid_if_some::<String>(self.final_receipt_hashes)
        &&& i64::valid(self.final_receipt_index)
        &&& all_valid::<Signature>(self.fulfillment_signature)
        &&& u64::valid(self.nonce)
        &&& Wallet::valid(self.recipient)
        &&& SenderActiveState::valid(self.recipient_active_state)
        &&& SenderActiveState::valid(self.sender_active_state)
        &&& Wallet::valid(self.wallet)
    }

    /// The swap order that the members of an object make, or the fault of the
    /// first field, in the order of [`Self::keys`], that has one.
    pub open spec fn assembled(members: Members, mode: Mode) -> Result<SwapModel, Fault> {
        let amount = field::<u64>(members, "amount"@, mode);
        let amount_swapped = optional_field::<u64>(members, "amount_swapped"@, mode);
        let credit_balance_signature = list_field::<Signature>(
            members,
            "credit_balance_signature"@,
            mode,
        );
        let credit_signature = field::<Signature>(members, "credit_signature"@, mode);
        let debit_balance_signature = list_field::<Signature>(
            members,
            "debit_balance_signature"@,
            mode,
        );
        let debit_signature = list_field::<Signature>(members, "debit_signature"@, mode);
        let eon_number = field::<u64>(members, "eon_number"@, mode);
        let final_receipt_hashes = optional_field::<String>(members, "final_receipt_hashes"@, mode);
        let final_receipt_index = field::<i64>(members, "final_receipt_index"@, mode);
        let fulfillment_signature = list_field::<Signature>(
            members,
            "fulfillment_signature"@,
            mode,
        );
        let nonce = field::<u64>(members, "nonce"@, mode);
        let recipient = field::<Wallet>(members, "recipient"@, mode);
        let recipient_active_state = field::<SenderActiveState>(
            members,
            "recipient_active_state"@,
            mode,
        );
        let sender_active_state = field::<SenderActiveState>(members, "sender_active_state"@, mode);
        let wallet = field::<Wallet>(members, "wallet"@, mode);
        if amount is Err {
            Err(amount->Err_0)
        } else if amount_swapped is Err {
            Err(amount_swapped->Err_0)
        } else if credit_balance_signature is Err {
            Err(credit_balance_signature->Err_0)
        } else if credit_signature is Err {
            Err(credit_signature->Err_0)
        } else if debit_balance_signature is Err {
            Err(debit_balance_signature->Err_0)
        } else if debit_signature is Err {
            Err(debit_signature->Err_0)
        } else if eon_number is Err {
            Err(eon_number->Err_0)
        } else if final_receipt_hashes is Err {
            Err(final_receipt_hashes->Err_0)
        } else if final_receipt_index is Err {
            Err(final_receipt_index->Err_0)
        } else if fulfillment_signature is Err {
            Err(fulfillment_signature->Err_0)
        } else if nonce is Err {
            Err(nonce->Err_0)
        } else if recipient is Err {
            Err(recipient->Err_0)
        } else if recipient_active_state is Err {
            Err(recipient_active_state->Err_0)
        } else if sender_active_state is Err {
            Err(sender_active_state->Err_0)
        } else if wallet is Err {
            Err(wallet->Err_0)
        } else {
            Ok(
                SwapModel {
                    amount: amount->Ok_0,
                    amount_swapped: amount_swapped->Ok_0,
                    credit_balance_signature: credit_balance_signature->Ok_0,
                    credit_signature: credit_signature->Ok_0,
                    debit_balance_signature: debit_balance_signature->Ok_0,
                    debit_signature: debit_signature->Ok_0,
                    eon_number: eon_number->Ok_0,
                    final_receipt_hashes: final_receipt_hashes->Ok_0,
                    final_receipt_index: final_receipt_index->Ok_0,
                    fulfillment_signature: fulfillment_signature->Ok_0,
                    nonce: nonce->Ok_0,
                    recipient: recipient->Ok_0,
                    recipient_active_state: recipient_active_state->Ok_0,
                    sender_active_state: sender_active_state->Ok_0,
                    wallet: wallet->Ok_0,
                },
            )
        }
    }

    /// The swap order that a JSON value holds, or the first fault found: the
    /// value is no object, then (in strict mode) the first unknown key, then
    /// the fields in the order of [`Self::keys`].
    pub open spec fn decoded(value: JsonModel, mode: Mode) -> Result<SwapModel, Fault> {
        match opened(value, Self::keys(), mode) {
            Err(fault) => Err(fault),
            Ok(members) => Self::assembled(members, mode),
        }
    }

    /// In the object that writes a swap order every key is known and is found
    /// with the value of its field.
    pub proof fn lemma_members(self)
        ensures
            self.json() is Object,
            first_unknown(self.json()->Object_0, Self::keys()) is None,
            lookup(self.json()->Object_0, "amount"@) == Some(u64::json_of(self.amount)),
            lookup(self.json()->Object_0, "amount_swapped"@) == Some(
                optional_json::<u64>(self.amount_swapped),
            ),
            lookup(self.json()->Object_0, "credit_balance_signature"@) == Some(
                list_json::<Signature>(self.credit_balance_signature),
            ),
            lookup(self.json()->Object_0, "credit_signature"@) == Some(
                Signature::json_of(self.credit_signature),
            ),
            lookup(self.json()->Object_0, "debit_balance_signature"@) == Some(
                list_json::<Signature>(self.debit_balance_signature),
            ),
            lookup(self.json()->Object_0, "debit_signature"@) == Some(
                list_json::<Signature>(self.debit_signature),
            ),
            lookup(self.json()->Object_0, "eon_number"@) == Some(u64::json_of(self.eon_number)),
            lookup(self.json()->Object_0, "final_receipt_hashes"@) == Some(
                optional_json::<String>(self.final_receipt_hashes),
            ),
            lookup(self.json()->Object_0, "final_receipt_index"@) == Some(
                i64::json_of(self.final_receipt_index),
            ),
            lookup(self.json()->Object_0, "fulfillment_signature"@) == Some(
                list_json::<Signature>(self.fulfillment_signature),
            ),
            lookup(self.json()->Object_0, "nonce"@) == Some(u64::json_of(self.nonce)),
            lookup(self.json()->Object_0, "recipient"@) == Some(Wallet::json_of(self.recipient)),
            lookup(self.json()->Object_0, "recipient_active_state"@) == Some(
                SenderActiveState::json_of(self.recipient_active_state),
            ),
            lookup(self.json()->Object_0, "sender_active_state"@) == Some(
                SenderActiveState::json_of(self.sender_active_state),
            ),
            lookup(self.json()->Object_0, "wallet"@) == Some(Wallet::json_of(self.wallet)),
    {
        let members = self.json()->Object_0;
        reveal_strlit("amount");
        reveal_strlit("amount_swapped");
        reveal_strlit("credit_balance_signature");
        reveal_strlit("credit_signature");
        reveal_strlit("debit_balance_signature");
        reveal_strlit("debit_signature");
        reveal_strlit("eon_number");
        reveal_strlit("final_receipt_hashes");
        reveal_strlit("final_receipt_index");
        reveal_strlit("fulfillment_signature");
        reveal_strlit("nonce");
        reveal_strlit("recipient");
        reveal_strlit("recipient_active_state");
        reveal_strlit("sender_active_state");
        reveal_strlit("wallet");
        assert("amount"@.len() == 6);
        assert("amount_swapped"@.len() == 14);
        assert("credit_balance_signature"@.len() == 24);
        assert("credit_signature"@.len() == 16);
        assert("debit_balance_signature"@.len() == 23);
        assert("debit_signature"@.len() == 15);
        assert("eon_number"@.len() == 10);
        assert("final_receipt_hashes"@.len() == 20);
        assert("final_receipt_index"@.len() == 19);
        assert("fulfillment_signature"@.len() == 21);
        assert("nonce"@.len() == 5);
        assert("recipient"@.len() == 9);
        assert("recipient_active_state"@.len() == 22);
        assert("sender_active_state"@.len() == 19);
        assert("wallet"@.len() == 6);
        assert("amount"@[0] == 'a');
        assert("wallet"@[0] == 'w');
        assert("final_receipt_index"@[0] == 'f');
        assert("sender_active_state"@[0] == 's');
        assert(Self::keys()[0] == "amount"@);
        assert(Self::keys()[1] == "amount_swapped"@);
        assert(Self::keys()[2] == "credit_balance_signature"@);
        assert(Self::keys()[3] == "credit_signature"@);
        assert(Self::keys()[4] == "debit_balance_signature"@);
        assert(Self::keys()[5] == "debit_signature"@);
        assert(Self::keys()[6] == "eon_number"@);
        assert(Self::keys()[7] == "final_receipt_hashes"@);
        assert(Self::keys()[8] == "final_receipt_index"@);
        assert(Self::keys()[9] == "fulfillment_signature"@);
        assert(Self::keys()[10] == "nonce"@);
        assert(Self::keys()[11] == "recipient"@);
        assert(Self::keys()[12] == "recipient_active_state"@);
        assert(Self::keys()[13] == "sender_active_state"@);
        assert(Self::keys()[14] == "wallet"@);
        lemma_all_known(members, Self::keys());
        lemma_lookup_at(members, "amount"@, 0);
        lemma_lookup_at(members, "amount_swapped"@, 1);
        lemma_lookup_at(members, "credit_balance_signature"@, 2);
        lemma_lookup_at(members, "credit_signature"@, 3);
        lemma_lookup_at(members, "debit_balance_signature"@, 4);
        lemma_lookup_at(members, "debit_signature"@, 5);
        lemma_lookup_at(members, "eon_number"@, 6);
        lemma_lookup_at(members, "final_receipt_hashes"@, 7);
        lemma_lookup_at(members, "final_receipt_index"@, 8);
        lemma_lookup_at(members, "fulfillment_signature"@, 9);
        lemma_lookup_at(members, "nonce"@, 10);
        lemma_lookup_at(members, "recipient"@, 11);
        lemma_lookup_at(members, "recipient_active_state"@, 12);
        lemma_lookup_at(members, "sender_active_state"@, 13);
        lemma_lookup_at(members, "wallet"@, 14);
    }

    /// A valid swap order that was written is read back, in either mode.
    pub proof fn lemma_round_trip(self, mode: Mode)
        requires
            self.valid(),
        ensures
            Self::decoded(self.json(), mode) == Ok::<SwapModel, Fault>(self),
    {
        self.lemma_members();
        u64::lemma_round_trip(self.amount, mode);
        lemma_optional_round_trip::<u64>(self.amount_swapped, mode);
        lemma_list_round_trip::<Signature>(self.credit_balance_signature, mode);
        Signature::lemma_round_trip(self.credit_signature, mode);
        lemma_list_round_trip::<Signature>(self.debit_balance_signature, mode);
        lemma_list_round_trip::<Signature>(self.debit_signature, mode);
        u64::lemma_round_trip(self.eon_number, mode);
        lemma_optional_round_trip::<String>(self.final_receipt_hashes, mode);
        i64::lemma_round_trip(self.final_receipt_index, mode);
        lemma_list_round_trip::<Signature>(self.fulfillment_signature, mode);
        u64::lemma_round_trip(self.nonce, mode);
        Wallet::lemma_round_trip(self.recipient, mode);
        SenderActiveState::lemma_round_trip(self.recipient_active_state, mode);
        SenderActiveState::lemma_round_trip(self.sender_active_state, mode);
        Wallet::lemma_round_trip(self.wallet, mode);
    }
}

impl Swap {
    /// The keys of a swap order.
    fn known() -> (keys: Vec<&'static str>)
        ensures
            names(keys@) == SwapModel::keys(),
    {
        let mut keys: Vec<&'static str> = Vec::new();
        keys.push("amount");
        keys.push("amount_swapped");
        keys.push("credit_balance_signature");
        keys.push("credit_signature");
        keys.push("debit_balance_signature");
        keys.push("debit_signature");
        keys.push("eon_number");
        keys.push("final_receipt_hashes");
        keys.push("final_receipt_index");
        keys.push("fulfillment_signature");
        keys.push("nonce");
        keys.push("recipient");
        keys.push("recipient_active_state");
        keys.push("sender_active_state");
        keys.push("wallet");
        assert(names(keys@) =~= SwapModel::keys());
        keys
    }
}

impl ToJson for Swap {
    open spec fn json_of(model: SwapModel) -> JsonModel {
        model.json()
    }

    /// Writes the swap order as a JSON object with the keys `amount`,
    /// `amount_swapped`, `credit_balance_signature`, `credit_signature`,
    /// `debit_balance_signature`, `debit_signature`, `eon_number`,
    /// `final_receipt_hashes`, `final_receipt_index`,
    /// `fulfillment_signature`, `nonce`, `recipient`,
    /// `recipient_active_state`, `sender_active_state` and `wallet`, in this
    /// order.
    fn encode(&self) -> (json: Json) {
        let mut members: Vec<(String, Json)> = Vec::new();
        members.push(member("amount", self.amount.encode()));
        members.push(member("amount_swapped", write_optional(&self.amount_swapped)));
        members.push(
            member("credit_balance_signature", write_list(&self.credit_balance_signature)),
        );
        members.push(member("credit_signature", self.credit_signature.encode()));
        members.push(member("debit_balance_signature", write_list(&self.debit_balance_signature)));
        members.push(member("debit_signature", write_list(&self.debit_signature)));
        members.push(member("eon_number", self.eon_number.encode()));
        members.push(member("final_receipt_hashes", write_optional(&self.final_receipt_hashes)));
        members.push(member("final_receipt_index", self.final_receipt_index.encode()));
        members.push(member("fulfillment_signature", write_list(&self.fulfillment_signature)));
        members.push(member("nonce", self.nonce.encode()));
        members.push(member("recipient", self.recipient.encode()));
        members.push(member("recipient_active_state", self.recipient_active_state.encode()));
        members.push(member("sender_active_state", self.sender_active_state.encode()));
        members.push(member("wallet", self.wallet.encode()));
        assert(members_model(members@) =~= self@.json()->Object_0);
        object(members)
    }
}

impl FromJson for Swap {
    open spec fn decoded(value: JsonModel, mode: Mode) -> Result<SwapModel, Fault> {
        SwapModel::decoded(value, mode)
    }

    open spec fn valid(model: SwapModel) -> bool {
        model.valid()
    }

    proof fn lemma_round_trip(model: SwapModel, mode: Mode) {
        model.lemma_round_trip(mode);
    }

    /// Reads a swap order from a JSON object.
    fn decode(json: &Json, mode: Mode) -> (r: Result<Swap, Error>) {
        let members = open(json, &Swap::known(), mode)?;
        let amount = read_field::<u64>(members, "amount", mode)?;
        let amount_swapped = read_optional::<u64>(members, "amount_swapped", mode)?;
        let credit_balance_signature = read_list_field::<Signature>(
            members,
            "credit_balance_signature",
            mode,
        )?;
        let credit_signature = read_field::<Signature>(members, "credit_signature", mode)?;
        let debit_balance_signature = read_list_field::<Signature>(
            members,
            "debit_balance_signature",
            mode,
        )?;
        let debit_signature = read_list_field::<Signature>(members, "debit_signature", mode)?;
        let eon_number = read_field::<u64>(members, "eon_number", mode)?;
        let final_receipt_hashes = read_optional::<String>(members, "final_receipt_hashes", mode)?;
        let final_receipt_index = read_field::<i64>(members, "final_receipt_index", mode)?;
        let fulfillment_signature = read_list_field::<Signature>(
            members,
            "fulfillment_signature",
            mode,
        )?;
        let nonce = read_field::<u64>(members, "nonce", mode)?;
        let recipient = read_field::<Wallet>(members, "recipient", mode)?;
        let recipient_active_state = read_field::<SenderActiveState>(
            members,
            "recipient_active_state",
            mode,
        )?;
        let sender_active_state = read_field::<SenderActiveState>(
            members,
            "sender_active_state",
            mode,
        )?;
        let wallet = read_field::<Wallet>(members, "wallet", mode)?;
        let value = Swap {
            amount,
            amount_swapped,
            credit_balance_signature,
            credit_signature,
            debit_balance_signature,
            debit_signature,
            eon_number,
            final_receipt_hashes,
            final_receipt_index,
            fulfillment_signature,
            nonce,
            recipient,
            recipient_active_state,
            sender_active_state,
            wallet,
        };
        assert(Self::valid(value@));
        Ok(value)
    }
}

/// The cancellation of a swap.
#[derive(Clone, Debug, PartialEq, Eq)]
pub struct SwapCancellation {
    pub recipient_cancellation_signature: Vec<Signature>,
    pub sender_cancellation_signature: Vec<Signature>,
}

/// A swap cancellation as contracts see it.
pub ghost struct SwapCancellationModel {
    pub recipient_cancellation_signature: Seq<SignatureModel>,
    pub sender_cancellation_signature: Seq<SignatureModel>,
}

impl View for SwapCancellation {
    type V = SwapCancellationModel;

    open spec fn view(&self) -> SwapCancellationModel {
        SwapCancellationModel {
            recipient_cancellation_signature: models(self.recipient_cancellation_signature@),
            sender_cancellation_signature: models(self.sender_cancellation_signature@),
        }
    }
}

impl SwapCancellationModel {
    /// The keys of a swap cancellation, in the order they are written.
    pub open spec fn keys() -> Seq<Seq<char>> {
        seq![
            "recipient_cancellation_signature"@,
            "sender_cancellation_signature"@,
        ]
    }

    /// The JSON object of a swap cancellation.
    pub open spec fn json(self) -> JsonModel {
        JsonModel::Object(
            seq![
                (
                    "recipient_cancellation_signature"@,
                    list_json::<Signature>(self.recipient_cancellation_signature),
                ),
                (
                    "sender_cancellation_signature"@,
                    list_json::<Signature>(self.sender_cancellation_signature),
                ),
            ],
        )
    }

    /// Every part of the swap cancellation is valid.
    pub open spec fn valid(self) -> bool {
        &&& all_valid::<Signature>(self.recipient_cancellation_signature)
        &&& all_valid::<Signature>(self.sender_cancellation_signature)
    }

    /// The swap cancellation that the members of an object make, or the fault of the
    /// first field, in the order of [`Self::keys`], that has one.
    pub open spec fn assembled(members: Members, mode: Mode) -> Result<
        SwapCancellationModel,
        Fault,
    > {
        let recipient_cancellation_signature = list_field::<Signature>(
            members,
            "recipient_cancellation_signature"@,
            mode,
        );
        let sender_cancellation_signature = list_field::<Signature>(
            members,
            "sender_cancellation_signature"@,
            mode,
        );
        if recipient_cancellation_signature is Err {
            Err(recipient_cancellation_signature->Err_0)
        } else if sender_cancellation_signature is Err {
            Err(sender_cancellation_signature->Err_0)
        } else {
            Ok(
                SwapCancellationModel {
                    recipient_cancellation_signature: recipient_cancellation_signature->Ok_0,
                    sender_cancellation_signature: sender_cancellation_signature->Ok_0,
                },
            )
        }
    }

    /// The swap cancellation that a JSON value holds, or the first fault found: the
    /// value is no object, then (in strict mode) the first unknown key, then
    /// the fields in the order of [`Self::keys`].
    pub open spec fn decoded(value: JsonModel, mode: Mode) -> Result<SwapCancellationModel, Fault> {
        match opened(value, Self::keys(), mode) {
            Err(fault) => Err(fault),
            Ok(members) => Self::assembled(members, mode),
        }
    }

    /// In the object that writes a swap cancellation every key is known and is found
    /// with the value of its field.
    pub proof fn lemma_members(self)
        ensures
            self.json() is Object,
            first_unknown(self.json()->Object_0, Self::keys()) is None,
            lookup(self.json()->Object_0, "recipient_cancellation_signature"@) == Some(
                list_json::<Signature>(self.recipient_cancellation_signature),
            ),
            lookup(self.json()->Object_0, "sender_cancellation_signature"@) == Some(
                list_json::<Signature>(self.sender_cancellation_signature),
            ),
    {
        let members = self.json()->Object_0;
        reveal_strlit("recipient_cancellation_signature");
        reveal_strlit("sender_cancellation_signature");
        assert("recipient_cancellation_signature"@.len() == 32);
        assert("sender_cancellation_signature"@.len() == 29);
        assert(Self::keys()[0] == "recipient_cancellation_signature"@);
        assert(Self::keys()[1] == "sender_cancellation_signature"@);
        lemma_all_known(members, Self::keys());
        lemma_lookup_at(members, "recipient_cancellation_signature"@, 0);
        lemma_lookup_at(members, "sender_cancellation_signature"@, 1);
    }

    /// A valid swap cancellation that was written is read back, in either mode.
    pub proof fn lemma_round_trip(self, mode: Mode)
        requires
            self.valid(),
        ensures
            Self::decoded(self.json(), mode) == Ok::<SwapCancellationModel, Fault>(self),
    {
        self.lemma_members();
        lemma_list_round_trip::<Signature>(self.recipient_cancellation_signature, mode);
        lemma_list_round_trip::<Signature>(self.sender_cancellation_signature, mode);
    }
}

impl SwapCancellation {
    /// The keys of a swap cancellation.
    fn known() -> (keys: Vec<&'static str>)
        ensures
            names(keys@) == SwapCancellationModel::keys(),
    {
        let mut keys: Vec<&'static str> = Vec::new();
        keys.push("recipient_cancellation_signature");
        keys.push("sender_cancellation_signature");
        assert(names(keys@) =~= SwapCancellationModel::keys());
        keys
    }
}

impl ToJson for SwapCancellation {
    open spec fn json_of(model: SwapCancellationModel) -> JsonModel {
        model.json()
    }

    /// Writes the swap cancellation as a JSON object with the keys
    /// `recipient_cancellation_signature` and
    /// `sender_cancellation_signature`, in this order.
    fn encode(&self) -> (json: Json) {
        let mut members: Vec<(String, Json)> = Vec::new();
        members.push(
            member(
                "recipient_cancellation_signature",
                write_list(&self.recipient_cancellation_signature),
            ),
        );
        members.push(
            member(
                "sender_cancellation_signature",
                write_list(&self.sender_cancellation_signature),
            ),
        );
        assert(members_model(members@) =~= self@.json()->Object_0);
        object(members)
    }
}

impl FromJson for SwapCancellation {
    open spec fn decoded(value: JsonModel, mode: Mode) -> Result<SwapCancellationModel, Fault> {
        SwapCancellationModel::decoded(value, mode)
    }

    open spec fn valid(model: SwapCancellationModel) -> bool {
        model.valid()
    }

    proof fn lemma_round_trip(model: SwapCancellationModel, mode: Mode) {
        model.lemma_round_trip(mode);
    }

    /// Reads a swap cancellation from a JSON object.
    fn decode(json: &Json, mode: Mode) -> (r: Result<SwapCancellation, Error>) {
        let members = open(json, &SwapCancellation::known(), mode)?;
        let recipient_cancellation_signature = read_list_field::<Signature>(
            members,
            "recipient_cancellation_signature",
            mode,
        )?;
        let sender_cancellation_signature = read_list_field::<Signature>(
            members,
            "sender_cancellation_signature",
            mode,
        )?;
        let value = SwapCancellation {
            recipient_cancellation_signature,
            sender_cancellation_signature,
        };
        assert(Self::valid(value@));
        Ok(value)
    }
}

/// The finalization of a swap.
#[derive(Clone, Debug, PartialEq, Eq)]
pub struct SwapFinalization {
    pub finalization_signature: Vec<Signature>,
}

/// A swap finalization as contracts see it.
pub ghost struct SwapFinalizationModel {
    pub finalization_signature: Seq<SignatureModel>,
}

impl View for SwapFinalization {
    type V = SwapFinalizationModel;

    open spec fn view(&self) -> SwapFinalizationModel {
        SwapFinalizationModel {
            finalization_signature: models(self.finalization_signature@),
        }
    }
}

impl SwapFinalizationModel {
    /// The keys of a swap finalization, in the order they are written.
    pub open spec fn keys() -> Seq<Seq<char>> {
        seq![
            "finalization_signature"@,
        ]
    }

    /// The JSON object of a swap finalization.
    pub open spec fn json(self) -> JsonModel {
        JsonModel::Object(
            seq![
                ("finalization_signature"@, list_json::<Signature>(self.finalization_signature)),
            ],
        )
    }

    /// Every part of the swap finalization is valid.
    pub open spec fn valid(self) -> bool {
        &&& all_valid::<Signature>(self.finalization_signature)
    }

    /// The swap finalization that the members of an object make, or the fault of the
    /// first field, in the order of [`Self::keys`], that has one.
    pub open spec fn assembled(members: Members, mode: Mode) -> Result<
        SwapFinalizationModel,
        Fault,
    > {
        let finalization_signature = list_field::<Signature>(
            members,
            "finalization_signature"@,
            mode,
        );
        if finalization_signature is Err {
            Err(finalization_signature->Err_0)
        } else {
            Ok(
                SwapFinalizationModel {
                    finalization_signature: finalization_signature->Ok_0,
                },
            )
        }
    }

    /// The swap finalization that a JSON value holds, or the first fault found: the
    /// value is no object, then (in strict mode) the first unknown key, then
    /// the fields in the order of [`Self::keys`].
    pub open spec fn decoded(value: JsonModel, mode: Mode) -> Result<SwapFinalizationModel, Fault> {
        match opened(value, Self::keys(), mode) {
            Err(fault) => Err(fault),
            Ok(members) => Self::assembled(members, mode),
        }
    }

    /// In the object that writes a swap finalization every key is known and is found
    /// with the value of its field.
    pub proof fn lemma_members(self)
        ensures
            self.json() is Object,
            first_unknown(self.json()->Object_0, Self::keys()) is None,
            lookup(self.json()->Object_0, "finalization_signature"@) == Some(
                list_json::<Signature>(self.finalization_signature),
            ),
    {
        let members = self.json()->Object_0;
        reveal_strlit("finalization_signature");
        assert("finalization_signature"@.len() == 22);
        assert(Self::keys()[0] == "finalization_signature"@);
        lemma_all_known(members, Self::keys());
        lemma_lookup_at(members, "finalization_signature"@, 0);
    }

    /// A valid swap finalization that was written is read back, in either mode.
    pub proof fn lemma_round_trip(self, mode: Mode)
        requires
            self.valid(),
        ensures
            Self::decoded(self.json(), mode) == Ok::<SwapFinalizationModel, Fault>(self),
    {
        self.lemma_members();
        lemma_list_round_trip::<Signature>(self.finalization_signature, mode);
    }
}

impl SwapFinalization {
    /// The keys of a swap finalization.
    fn known() -> (keys: Vec<&'static str>)
        ensures
            names(keys@) == SwapFinalizationModel::keys(),
    {
        let mut keys: Vec<&'static str> = Vec::new();
        keys.push("finalization_signature");
        assert(names(keys@) =~= SwapFinalizationModel::keys());
        keys
    }
}

impl ToJson for SwapFinalization {
    open spec fn json_of(model: SwapFinalizationModel) -> JsonModel {
        model.json()
    }

    /// Writes the swap finalization as a JSON object with the key
    /// `finalization_signature`.
    fn encode(&self) -> (json: Json) {
        let mut members: Vec<(String, Json)> = Vec::new();
        members.push(member("finalization_signature", write_list(&self.finalization_signature)));
        assert(members_model(members@) =~= self@.json()->Object_0);
        object(members)
    }
}

impl FromJson for SwapFinalization {
    open spec fn decoded(value: JsonModel, mode: Mode) -> Result<SwapFinalizationModel, Fault> {
        SwapFinalizationModel::decoded(value, mode)
    }

    open spec fn valid(model: SwapFinalizationModel) -> bool {
        model.valid()
    }

    proof fn lemma_round_trip(model: SwapFinalizationModel, mode: Mode) {
        model.lemma_round_trip(mode);
    }

    /// Reads a swap finalization from a JSON object.
    fn decode(json: &Json, mode: Mode) -> (r: Result<SwapFinalization, Error>) {
        let members = open(json, &SwapFinalization::known(), mode)?;
        let finalization_signature = read_list_field::<Signature>(
            members,
            "finalization_signature",
            mode,
        )?;
        let value = SwapFinalization {
            finalization_signature,
        };
        assert(Self::valid(value@));
        Ok(value)
    }
}

/// The freeze of a swap.
#[derive(Clone, Debug, PartialEq, Eq)]
pub struct SwapFreeze {
    pub freezing_signature: Vec<Signature>,
}

/// A swap freeze as contracts see it.
pub ghost struct SwapFreezeModel {
    pub freezing_signature: Seq<SignatureModel>,
}

impl View for SwapFreeze {
    type V = SwapFreezeModel;

    open spec fn view(&self) -> SwapFreezeModel {
        SwapFreezeModel {
            freezing_signature: models(self.freezing_signature@),
        }
    }
}

impl SwapFreezeModel {
    /// The keys of a swap freeze, in the order they are written.
    pub open spec fn keys() -> Seq<Seq<char>> {
        seq![
            "freezing_signature"@,
        ]
    }

    /// The JSON object of a swap freeze.
    pub open spec fn json(self) -> JsonModel {
        JsonModel::Object(
            seq![
                ("freezing_signature"@, list_json::<Signature>(self.freezing_signature)),
            ],
        )
    }

    /// Every part of the swap freeze is valid.
    pub open spec fn valid(self) -> bool {
        &&& all_valid::<Signature>(self.freezing_signature)
    }

    /// The swap freeze that the members of an object make, or the fault of the
    /// first field, in the order of [`Self::keys`], that has one.
    pub open spec fn assembled(members: Members, mode: Mode) -> Result<SwapFreezeModel, Fault> {
        let freezing_signature = list_field::<Signature>(members, "freezing_signature"@, mode);
        if freezing_signature is Err {
            Err(freezing_signature->Err_0)
        } else {
            Ok(
                SwapFreezeModel {
                    freezing_signature: freezing_signature->Ok_0,
                },
            )
        }
    }

    /// The swap freeze that a JSON value holds, or the first fault found: the
    /// value is no object, then (in strict mode) the first unknown key, then
    /// the fields in the order of [`Self::keys`].
    pub open spec fn decoded(value: JsonModel, mode: Mode) -> Result<SwapFreezeModel, Fault> {
        match opened(value, Self::keys(), mode) {
            Err(fault) => Err(fault),
            Ok(members) => Self::assembled(members, mode),
        }
    }

    /// In the object that writes a swap freeze every key is known and is found
    /// with the value of its field.
    pub proof fn lemma_members(self)
        ensures
            self.json() is Object,
            first_unknown(self.json()->Object_0, Self::keys()) is None,
            lookup(self.json()->Object_0, "freezing_signature"@) == Some(
                list_json::<Signature>(self.freezing_signature),
            ),
    {
        let members = self.json()->Object_0;
        reveal_strlit("freezing_signature");
        assert("freezing_signature"@.len() == 18);
        assert(Self::keys()[0] == "freezing_signature"@);
        lemma_all_known(members, Self::keys());
        lemma_lookup_at(members, "freezing_signature"@, 0);
    }

    /// A valid swap freeze that was written is read back, in either mode.
    pub proof fn lemma_round_trip(self, mode: Mode)
        requires
            self.valid(),
        ensures
            Self::decoded(self.json(), mode) == Ok::<SwapFreezeModel, Fault>(self),
    {
        self.lemma_members();
        lemma_list_round_trip::<Signature>(self.freezing_signature, mode);
    }
}

impl SwapFreeze {
    /// The keys of a swap freeze.
    fn known() -> (keys: Vec<&'static str>)
        ensures
            names(keys@) == SwapFreezeModel::keys(),
    {
        let mut keys: Vec<&'static str> = Vec::new();
        keys.push("freezing_signature");
        assert(names(keys@) =~= SwapFreezeModel::keys());
        keys
    }
}

impl ToJson for SwapFreeze {
    open spec fn json_of(model: SwapFreezeModel) -> JsonModel {
        model.json()
    }

    /// Writes the swap freeze as a JSON object with the key
    /// `freezing_signature`.
    fn encode(&self) -> (json: Json) {
        let mut members: Vec<(String, Json)> = Vec::new();
        members.push(member("freezing_signature", write_list(&self.freezing_signature)));
        assert(members_model(members@) =~= self@.json()->Object_0);
        object(members)
    }
}

impl FromJson for SwapFreeze {
    open spec fn decoded(value: JsonModel, mode: Mode) -> Result<SwapFreezeModel, Fault> {
        SwapFreezeModel::decoded(value, mode)
    }

    open spec fn valid(model: SwapFreezeModel) -> bool {
        model.valid()
    }

    proof fn lemma_round_trip(model: SwapFreezeModel, mode: Mode) {
        model.lemma_round_trip(mode);
    }

    /// Reads a swap freeze from a JSON object.
    fn decode(json: &Json, mode: Mode) -> (r: Result<SwapFreeze, Error>) {
        let members = open(json, &SwapFreeze::known(), mode)?;
        let freezing_signature = read_list_field::<Signature>(members, "freezing_signature", mode)?;
        let value = SwapFreeze {
            freezing_signature,
        };
        assert(Self::valid(value@));
        Ok(value)
    }
}

} // verus!
