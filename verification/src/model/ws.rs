//! The models of the WebSocket notification API.
//!
//! A request is one JSON object `{operation, arguments}`, a message from the
//! hub one JSON object `{type, id, data}`. A notification carries the type of
//! an event and its payload: the type is read first and the payload is then
//! read as the one shape that the type announces, never by trying shapes in
//! turn, so that a payload under the wrong type is an error and not another
//! event.

use crate::codec::{
    expect, expected, member, optional, permit, required, same_text, tag, tagged, untag, untagged,
};
use crate::error::{parse_fault, shape_fault, Error, Fault, ParseKind, ParseReason};
use crate::json::{
    agrees, first_unknown, lemma_all_known, lemma_lookup_at, lookup, members_model, names, object,
    open, opened, Json, JsonKind, JsonModel, Members, Mode,
};
use crate::model::scalar::{valid_uuid, Uuid};
use crate::model::traits::{
    field, lemma_list_round_trip, list_field, list_json, models, read_field, read_list_field,
    write_list, FromJson, ToJson,
};
use vstd::prelude::*;

verus! {

/// The types of the events of a wallet.
#[derive(Clone, Copy, Debug, PartialEq, Eq, Structural)]
pub enum WalletEventType {
    IncomingTransfer,
    IncomingReceipt,
    IncomingConfirmation,
    TimeoutTransfer,
    MatchedSwap,
    FinalizedSwap,
    CanceledSwap,
    RegisteredWallet,
    ConfirmedDeposit,
    RequestWithdrawal,
    ConfirmedWithdrawal,
    CheckpointCreated,
}

impl View for WalletEventType {
    type V = WalletEventType;

    open spec fn view(&self) -> WalletEventType {
        *self
    }
}

impl WalletEventType {
    /// The name under which a wallet event type is written.
    pub open spec fn name_of(self) -> Seq<char> {
        match self {
            WalletEventType::IncomingTransfer => "IncomingTransfer"@,
            WalletEventType::IncomingReceipt => "IncomingReceipt"@,
            WalletEventType::IncomingConfirmation => "IncomingConfirmation"@,
            WalletEventType::TimeoutTransfer => "TimeoutTransfer"@,
            WalletEventType::MatchedSwap => "MatchedSwap"@,
            WalletEventType::FinalizedSwap => "FinalizedSwap"@,
            WalletEventType::CanceledSwap => "CanceledSwap"@,
            WalletEventType::RegisteredWallet => "RegisteredWallet"@,
            WalletEventType::ConfirmedDeposit => "ConfirmedDeposit"@,
            WalletEventType::RequestWithdrawal => "RequestWithdrawal"@,
            WalletEventType::ConfirmedWithdrawal => "ConfirmedWithdrawal"@,
            WalletEventType::CheckpointCreated => "CheckpointCreated"@,
        }
    }

    /// The wallet event type that a name stands for, if it stands for one.
    pub open spec fn named(name: Seq<char>) -> Option<WalletEventType> {
        if name == "IncomingTransfer"@ {
            Some(WalletEventType::IncomingTransfer)
        } else if name == "IncomingReceipt"@ {
            Some(WalletEventType::IncomingReceipt)
        } else if name == "IncomingConfirmation"@ {
            Some(WalletEventType::IncomingConfirmation)
        } else if name == "TimeoutTransfer"@ {
            Some(WalletEventType::TimeoutTransfer)
        } else if name == "MatchedSwap"@ {
            Some(WalletEventType::MatchedSwap)
        } else if name == "FinalizedSwap"@ {
            Some(WalletEventType::FinalizedSwap)
        } else if name == "CanceledSwap"@ {
            Some(WalletEventType::CanceledSwap)
        } else if name == "RegisteredWallet"@ {
            Some(WalletEventType::RegisteredWallet)
        } else if name == "ConfirmedDeposit"@ {
            Some(WalletEventType::ConfirmedDeposit)
        } else if name == "RequestWithdrawal"@ {
            Some(WalletEventType::RequestWithdrawal)
        } else if name == "ConfirmedWithdrawal"@ {
            Some(WalletEventType::ConfirmedWithdrawal)
        } else if name == "CheckpointCreated"@ {
            Some(WalletEventType::CheckpointCreated)
        } else {
            None
        }
    }

    /// The JSON string of a wallet event type.
    pub open spec fn json(self) -> JsonModel {
        JsonModel::Text(self.name_of())
    }

    /// The wallet event type that a JSON value holds.
    pub open spec fn read(value: JsonModel) -> Result<WalletEventType, Fault> {
        match value {
            JsonModel::Text(name) => match Self::named(name) {
                Some(found) => Ok(found),
                None => Err(parse_fault(ParseKind::Tag)),
            },
            _ => Err(shape_fault(JsonKind::Text)),
        }
    }

    /// The name of a wallet event type stands for it and for no other.
    pub proof fn lemma_named(self)
        ensures
            Self::named(self.name_of()) == Some(self),
            Self::read(self.json()) == Ok::<WalletEventType, Fault>(self),
    {
        reveal_strlit("IncomingTransfer");
        reveal_strlit("IncomingReceipt");
        reveal_strlit("IncomingConfirmation");
        reveal_strlit("TimeoutTransfer");
        reveal_strlit("MatchedSwap");
        reveal_strlit("FinalizedSwap");
        reveal_strlit("CanceledSwap");
        reveal_strlit("RegisteredWallet");
        reveal_strlit("ConfirmedDeposit");
        reveal_strlit("RequestWithdrawal");
        reveal_strlit("ConfirmedWithdrawal");
        reveal_strlit("CheckpointCreated");
        assert("IncomingTransfer"@.len() == 16);
        assert("IncomingReceipt"@.len() == 15);
        assert("IncomingConfirmation"@.len() == 20);
        assert("TimeoutTransfer"@.len() == 15);
        assert("MatchedSwap"@.len() == 11);
        assert("FinalizedSwap"@.len() == 13);
        assert("CanceledSwap"@.len() == 12);
        assert("RegisteredWallet"@.len() == 16);
        assert("ConfirmedDeposit"@.len() == 16);
        assert("RequestWithdrawal"@.len() == 17);
        assert("ConfirmedWithdrawal"@.len() == 19);
        assert("CheckpointCreated"@.len() == 17);
        assert("IncomingTransfer"@[0] == 'I');
        assert("RegisteredWallet"@[0] == 'R');
        assert("ConfirmedDeposit"@[0] == 'C');
        assert("IncomingReceipt"@[0] == 'I');
        assert("TimeoutTransfer"@[0] == 'T');
        assert("RequestWithdrawal"@[0] == 'R');
        assert("CheckpointCreated"@[0] == 'C');
    }

    /// The name under which the wallet event type is written.
    pub fn name(&self) -> (name: &'static str)
        ensures
            name@ == self.name_of(),
    {
        match self {
            WalletEventType::IncomingTransfer => "IncomingTransfer",
            WalletEventType::IncomingReceipt => "IncomingReceipt",
            WalletEventType::IncomingConfirmation => "IncomingConfirmation",
            WalletEventType::TimeoutTransfer => "TimeoutTransfer",
            WalletEventType::MatchedSwap => "MatchedSwap",
            WalletEventType::FinalizedSwap => "FinalizedSwap",
            WalletEventType::CanceledSwap => "CanceledSwap",
            WalletEventType::RegisteredWallet => "RegisteredWallet",
            WalletEventType::ConfirmedDeposit => "ConfirmedDeposit",
            WalletEventType::RequestWithdrawal => "RequestWithdrawal",
            WalletEventType::ConfirmedWithdrawal => "ConfirmedWithdrawal",
            WalletEventType::CheckpointCreated => "CheckpointCreated",
        }
    }

    /// Finds the wallet event type that a name stands for.
    pub fn from_name(name: &str) -> (r: Option<WalletEventType>)
        ensures
            r == Self::named(name@),
    {
        if same_text(name, "IncomingTransfer") {
            Some(WalletEventType::IncomingTransfer)
        } else if same_text(name, "IncomingReceipt") {
            Some(WalletEventType::IncomingReceipt)
        } else if same_text(name, "IncomingConfirmation") {
            Some(WalletEventType::IncomingConfirmation)
        } else if same_text(name, "TimeoutTransfer") {
            Some(WalletEventType::TimeoutTransfer)
        } else if same_text(name, "MatchedSwap") {
            Some(WalletEventType::MatchedSwap)
        } else if same_text(name, "FinalizedSwap") {
            Some(WalletEventType::FinalizedSwap)
        } else if same_text(name, "CanceledSwap") {
            Some(WalletEventType::CanceledSwap)
        } else if same_text(name, "RegisteredWallet") {
            Some(WalletEventType::RegisteredWallet)
        } else if same_text(name, "ConfirmedDeposit") {
            Some(WalletEventType::ConfirmedDeposit)
        } else if same_text(name, "RequestWithdrawal") {
            Some(WalletEventType::RequestWithdrawal)
        } else if same_text(name, "ConfirmedWithdrawal") {
            Some(WalletEventType::ConfirmedWithdrawal)
        } else if same_text(name, "CheckpointCreated") {
            Some(WalletEventType::CheckpointCreated)
        } else {
            None
        }
    }
}

impl ToJson for WalletEventType {
    open spec fn json_of(model: WalletEventType) -> JsonModel {
        model.json()
    }

    /// Writes the wallet event type as a JSON string.
    fn encode(&self) -> (json: Json) {
        Json::text(self.name())
    }
}

impl FromJson for WalletEventType {
    open spec fn decoded(value: JsonModel, mode: Mode) -> Result<WalletEventType, Fault> {
        WalletEventType::read(value)
    }

    open spec fn valid(model: WalletEventType) -> bool {
        true
    }

    proof fn lemma_round_trip(model: WalletEventType, mode: Mode) {
        model.lemma_named();
    }

    /// Reads a wallet event type from a JSON string.
    fn decode(json: &Json, mode: Mode) -> (r: Result<WalletEventType, Error>) {
        assert(forall|found: WalletEventType| Self::valid(found@));
        match json {
            Json::Text(name) => match Self::from_name(name.as_str()) {
                Some(found) => Ok(found),
                None => Err(Error::ParseError { reason: ParseReason::Tag }),
            },
            _ => Err(Error::shape(JsonKind::Text)),
        }
    }
}

/// The types of the events of a token pair.
#[derive(Clone, Copy, Debug, PartialEq, Eq, Structural)]
pub enum TokenPairEventType {
    IncomingSwap,
    MatchedSwap,
}

impl View for TokenPairEventType {
    type V = TokenPairEventType;

    open spec fn view(&self) -> TokenPairEventType {
        *self
    }
}

impl TokenPairEventType {
    /// The name under which a token pair event type is written.
    pub open spec fn name_of(self) -> Seq<char> {
        match self {
            TokenPairEventType::IncomingSwap => "IncomingSwap"@,
            TokenPairEventType::MatchedSwap => "MatchedSwap"@,
        }
    }

    /// The token pair event type that a name stands for, if it stands for one.
    pub open spec fn named(name: Seq<char>) -> Option<TokenPairEventType> {
        if name == "IncomingSwap"@ {
            Some(TokenPairEventType::IncomingSwap)
        } else if name == "MatchedSwap"@ {
            Some(TokenPairEventType::MatchedSwap)
        } else {
            None
        }
    }

    /// The JSON string of a token pair event type.
    pub open spec fn json(self) -> JsonModel {
        JsonModel::Text(self.name_of())
    }

    /// The token pair event type that a JSON value holds.
    pub open spec fn read(value: JsonModel) -> Result<TokenPairEventType, Fault> {
        match value {
            JsonModel::Text(name) => match Self::named(name) {
                Some(found) => Ok(found),
                None => Err(parse_fault(ParseKind::Tag)),
            },
            _ => Err(shape_fault(JsonKind::Text)),
        }
    }

    /// The name of a token pair event type stands for it and for no other.
    pub proof fn lemma_named(self)
        ensures
            Self::named(self.name_of()) == Some(self),
            Self::read(self.json()) == Ok::<TokenPairEventType, Fault>(self),
    {
        reveal_strlit("IncomingSwap");
        reveal_strlit("MatchedSwap");
        assert("IncomingSwap"@.len() == 12);
        assert("MatchedSwap"@.len() == 11);
    }

    /// The name under which the token pair event type is written.
    pub fn name(&self) -> (name: &'static str)
        ensures
            name@ == self.name_of(),
    {
        match self {
            TokenPairEventType::IncomingSwap => "IncomingSwap",
            TokenPairEventType::MatchedSwap => "MatchedSwap",
        }
    }

    /// Finds the token pair event type that a name stands for.
    pub fn from_name(name: &str) -> (r: Option<TokenPairEventType>)
        ensures
            r == Self::named(name@),
    {
        if same_text(name, "IncomingSwap") {
            Some(TokenPairEventType::IncomingSwap)
        } else if same_text(name, "MatchedSwap") {
            Some(TokenPairEventType::MatchedSwap)
        } else {
            None
        }
    }
}

impl ToJson for TokenPairEventType {
    open spec fn json_of(model: TokenPairEventType) -> JsonModel {
        model.json()
    }

    /// Writes the token pair event type as a JSON string.
    fn encode(&self) -> (json: Json) {
        Json::text(self.name())
    }
}

impl FromJson for TokenPairEventType {
    open spec fn decoded(value: JsonModel, mode: Mode) -> Result<TokenPairEventType, Fault> {
        TokenPairEventType::read(value)
    }

    open spec fn valid(model: TokenPairEventType) -> bool {
        true
    }

    proof fn lemma_round_trip(model: TokenPairEventType, mode: Mode) {
        model.lemma_named();
    }

    /// Reads a token pair event type from a JSON string.
    fn decode(json: &Json, mode: Mode) -> (r: Result<TokenPairEventType, Error>) {
        assert(forall|found: TokenPairEventType| Self::valid(found@));
        match json {
            Json::Text(name) => match Self::from_name(name.as_str()) {
                Some(found) => Ok(found),
                None => Err(Error::ParseError { reason: ParseReason::Tag }),
            },
            _ => Err(Error::shape(JsonKind::Text)),
        }
    }
}

/// The shapes that the payload of a wallet event can have.
#[derive(Clone, Copy, Debug, PartialEq, Eq, Structural)]
pub enum Payload {
    TransferAudit,
    WalletAdmissionData,
    DepositNotification,
    WithdrawalRequestNotification,
    WithdrawalNotification,
    WalletDataNotification,
}

impl View for Payload {
    type V = Payload;

    open spec fn view(&self) -> Payload {
        *self
    }
}

impl Payload {
    /// The name under which a payload shape is written.
    pub open spec fn name_of(self) -> Seq<char> {
        match self {
            Payload::TransferAudit => "TransferAudit"@,
            Payload::WalletAdmissionData => "WalletAdmissionData"@,
            Payload::DepositNotification => "DepositNotification"@,
            Payload::WithdrawalRequestNotification => "WithdrawalRequestNotification"@,
            Payload::WithdrawalNotification => "WithdrawalNotification"@,
            Payload::WalletDataNotification => "WalletDataNotification"@,
        }
    }

    /// The payload shape that a name stands for, if it stands for one.
    pub open spec fn named(name: Seq<char>) -> Option<Payload> {
        if name == "TransferAudit"@ {
            Some(Payload::TransferAudit)
        } else if name == "WalletAdmissionData"@ {
            Some(Payload::WalletAdmissionData)
        } else if name == "DepositNotification"@ {
            Some(Payload::DepositNotification)
        } else if name == "WithdrawalRequestNotification"@ {
            Some(Payload::WithdrawalRequestNotification)
        } else if name == "WithdrawalNotification"@ {
            Some(Payload::WithdrawalNotification)
        } else if name == "WalletDataNotification"@ {
            Some(Payload::WalletDataNotification)
        } else {
            None
        }
    }

    /// The JSON string of a payload shape.
    pub open spec fn json(self) -> JsonModel {
        JsonModel::Text(self.name_of())
    }

    /// The payload shape that a JSON value holds.
    pub open spec fn read(value: JsonModel) -> Result<Payload, Fault> {
        match value {
            JsonModel::Text(name) => match Self::named(name) {
                Some(found) => Ok(found),
                None => Err(parse_fault(ParseKind::Tag)),
            },
            _ => Err(shape_fault(JsonKind::Text)),
        }
    }

    /// The name of a payload shape stands for it and for no other.
    pub proof fn lemma_named(self)
        ensures
            Self::named(self.name_of()) == Some(self),
            Self::read(self.json()) == Ok::<Payload, Fault>(self),
    {
        reveal_strlit("TransferAudit");
        reveal_strlit("WalletAdmissionData");
        reveal_strlit("DepositNotification");
        reveal_strlit("WithdrawalRequestNotification");
        reveal_strlit("WithdrawalNotification");
        reveal_strlit("WalletDataNotification");
        assert("TransferAudit"@.len() == 13);
        assert("WalletAdmissionData"@.len() == 19);
        assert("DepositNotification"@.len() == 19);
        assert("WithdrawalRequestNotification"@.len() == 29);
        assert("WithdrawalNotification"@.len() == 22);
        assert("WalletDataNotification"@.len() == 22);
        assert("WalletAdmissionData"@[0] == 'W');
        assert("DepositNotification"@[0] == 'D');
        assert("WithdrawalNotification"@[1] == 'i');
        assert("WalletDataNotification"@[1] == 'a');
    }

    /// The name under which the payload shape is written.
    pub fn name(&self) -> (name: &'static str)
        ensures
            name@ == self.name_of(),
    {
        match self {
            Payload::TransferAudit => "TransferAudit",
            Payload::WalletAdmissionData => "WalletAdmissionData",
            Payload::DepositNotification => "DepositNotification",
            Payload::WithdrawalRequestNotification => "WithdrawalRequestNotification",
            Payload::WithdrawalNotification => "WithdrawalNotification",
            Payload::WalletDataNotification => "WalletDataNotification",
        }
    }

    /// Finds the payload shape that a name stands for.
    pub fn from_name(name: &str) -> (r: Option<Payload>)
        ensures
            r == Self::named(name@),
    {
        if same_text(name, "TransferAudit") {
            Some(Payload::TransferAudit)
        } else if same_text(name, "WalletAdmissionData") {
            Some(Payload::WalletAdmissionData)
        } else if same_text(name, "DepositNotification") {
            Some(Payload::DepositNotification)
        } else if same_text(name, "WithdrawalRequestNotification") {
            Some(Payload::WithdrawalRequestNotification)
        } else if same_text(name, "WithdrawalNotification") {
            Some(Payload::WithdrawalNotification)
        } else if same_text(name, "WalletDataNotification") {
            Some(Payload::WalletDataNotification)
        } else {
            None
        }
    }
}

impl ToJson for Payload {
    open spec fn json_of(model: Payload) -> JsonModel {
        model.json()
    }

    /// Writes the payload shape as a JSON string.
    fn encode(&self) -> (json: Json) {
        Json::text(self.name())
    }
}

impl FromJson for Payload {
    open spec fn decoded(value: JsonModel, mode: Mode) -> Result<Payload, Fault> {
        Payload::read(value)
    }

    open spec fn valid(model: Payload) -> bool {
        true
    }

    proof fn lemma_round_trip(model: Payload, mode: Mode) {
        model.lemma_named();
    }

    /// Reads a payload shape from a JSON string.
    fn decode(json: &Json, mode: Mode) -> (r: Result<Payload, Error>) {
        assert(forall|found: Payload| Self::valid(found@));
        match json {
            Json::Text(name) => match Self::from_name(name.as_str()) {
                Some(found) => Ok(found),
                None => Err(Error::ParseError { reason: ParseReason::Tag }),
            },
            _ => Err(Error::shape(JsonKind::Text)),
        }
    }
}

/// The operations that a client can ask for.
#[derive(Clone, Copy, Debug, PartialEq, Eq, Structural)]
pub enum Operation {
    Ping,
    Ack,
    Subscribe,
    Unsubscribe,
}

impl View for Operation {
    type V = Operation;

    open spec fn view(&self) -> Operation {
        *self
    }
}

impl Operation {
    /// The name under which an operation is written.
    pub open spec fn name_of(self) -> Seq<char> {
        match self {
            Operation::Ping => "ping"@,
            Operation::Ack => "ack"@,
            Operation::Subscribe => "subscribe"@,
            Operation::Unsubscribe => "unsubscribe"@,
        }
    }

    /// The operation that a name stands for, if it stands for one.
    pub open spec fn named(name: Seq<char>) -> Option<Operation> {
        if name == "ping"@ {
            Some(Operation::Ping)
        } else if name == "ack"@ {
            Some(Operation::Ack)
        } else if name == "subscribe"@ {
            Some(Operation::Subscribe)
        } else if name == "unsubscribe"@ {
            Some(Operation::Unsubscribe)
        } else {
            None
        }
    }

    /// The JSON string of an operation.
    pub open spec fn json(self) -> JsonModel {
        JsonModel::Text(self.name_of())
    }

    /// The operation that a JSON value holds.
    pub open spec fn read(value: JsonModel) -> Result<Operation, Fault> {
        match value {
            JsonModel::Text(name) => match Self::named(name) {
                Some(found) => Ok(found),
                None => Err(parse_fault(ParseKind::Tag)),
            },
            _ => Err(shape_fault(JsonKind::Text)),
        }
    }

    /// The name of an operation stands for it and for no other.
    pub proof fn lemma_named(self)
        ensures
            Self::named(self.name_of()) == Some(self),
            Self::read(self.json()) == Ok::<Operation, Fault>(self),
    {
        reveal_strlit("ping");
        reveal_strlit("ack");
        reveal_strlit("subscribe");
        reveal_strlit("unsubscribe");
        assert("ping"@.len() == 4);
        assert("ack"@.len() == 3);
        assert("subscribe"@.len() == 9);
        assert("unsubscribe"@.len() == 11);
    }

    /// The name under which the operation is written.
    pub fn name(&self) -> (name: &'static str)
        ensures
            name@ == self.name_of(),
    {
        match self {
            Operation::Ping => "ping",
            Operation::Ack => "ack",
            Operation::Subscribe => "subscribe",
            Operation::Unsubscribe => "unsubscribe",
        }
    }

    /// Finds the operation that a name stands for.
    pub fn from_name(name: &str) -> (r: Option<Operation>)
        ensures
            r == Self::named(name@),
    {
        if same_text(name, "ping") {
            Some(Operation::Ping)
        } else if same_text(name, "ack") {
            Some(Operation::Ack)
        } else if same_text(name, "subscribe") {
            Some(Operation::Subscribe)
        } else if same_text(name, "unsubscribe") {
            Some(Operation::Unsubscribe)
        } else {
            None
        }
    }
}

impl ToJson for Operation {
    open spec fn json_of(model: Operation) -> JsonModel {
        model.json()
    }

    /// Writes the operation as a JSON string.
    fn encode(&self) -> (json: Json) {
        Json::text(self.name())
    }
}

impl FromJson for Operation {
    open spec fn decoded(value: JsonModel, mode: Mode) -> Result<Operation, Fault> {
        Operation::read(value)
    }

    open spec fn valid(model: Operation) -> bool {
        true
    }

    proof fn lemma_round_trip(model: Operation, mode: Mode) {
        model.lemma_named();
    }

    /// Reads an operation from a JSON string.
    fn decode(json: &Json, mode: Mode) -> (r: Result<Operation, Error>) {
        assert(forall|found: Operation| Self::valid(found@));
        match json {
            Json::Text(name) => match Self::from_name(name.as_str()) {
                Some(found) => Ok(found),
                None => Err(Error::ParseError { reason: ParseReason::Tag }),
            },
            _ => Err(Error::shape(JsonKind::Text)),
        }
    }
}

/// The kinds of message that the hub sends.
#[derive(Clone, Copy, Debug, PartialEq, Eq, Structural)]
pub enum MessageKind {
    Error,
    Notification,
    Response,
}

impl View for MessageKind {
    type V = MessageKind;

    open spec fn view(&self) -> MessageKind {
        *self
    }
}

impl MessageKind {
    /// The name under which a message kind is written.
    pub open spec fn name_of(self) -> Seq<char> {
        match self {
            MessageKind::Error => "error"@,
            MessageKind::Notification => "notification"@,
            MessageKind::Response => "response"@,
        }
    }

    /// The message kind that a name stands for, if it stands for one.
    pub open spec fn named(name: Seq<char>) -> Option<MessageKind> {
        if name == "error"@ {
            Some(MessageKind::Error)
        } else if name == "notification"@ {
            Some(MessageKind::Notification)
        } else if name == "response"@ {
            Some(MessageKind::Response)
        } else {
            None
        }
    }

    /// The JSON string of a message kind.
    pub open spec fn json(self) -> JsonModel {
        JsonModel::Text(self.name_of())
    }

    /// The message kind that a JSON value holds.
    pub open spec fn read(value: JsonModel) -> Result<MessageKind, Fault> {
        match value {
            JsonModel::Text(name) => match Self::named(name) {
                Some(found) => Ok(found),
                None => Err(parse_fault(ParseKind::Tag)),
            },
            _ => Err(shape_fault(JsonKind::Text)),
        }
    }

    /// The name of a message kind stands for it and for no other.
    pub proof fn lemma_named(self)
        ensures
            Self::named(self.name_of()) == Some(self),
            Self::read(self.json()) == Ok::<MessageKind, Fault>(self),
    {
        reveal_strlit("error");
        reveal_strlit("notification");
        reveal_strlit("response");
        assert("error"@.len() == 5);
        assert("notification"@.len() == 12);
        assert("response"@.len() == 8);
    }

    /// The name under which the message kind is written.
    pub fn name(&self) -> (name: &'static str)
        ensures
            name@ == self.name_of(),
    {
        match self {
            MessageKind::Error => "error",
            MessageKind::Notification => "notification",
            MessageKind::Response => "response",
        }
    }

    /// Finds the message kind that a name stands for.
    pub fn from_name(name: &str) -> (r: Option<MessageKind>)
        ensures
            r == Self::named(name@),
    {
        if same_text(name, "error") {
            Some(MessageKind::Error)
        } else if same_text(name, "notification") {
            Some(MessageKind::Notification)
        } else if same_text(name, "response") {
            Some(MessageKind::Response)
        } else {
            None
        }
    }
}

impl ToJson for MessageKind {
    open spec fn json_of(model: MessageKind) -> JsonModel {
        model.json()
    }

    /// Writes the message kind as a JSON string.
    fn encode(&self) -> (json: Json) {
        Json::text(self.name())
    }
}

impl FromJson for MessageKind {
    open spec fn decoded(value: JsonModel, mode: Mode) -> Result<MessageKind, Fault> {
        MessageKind::read(value)
    }

    open spec fn valid(model: MessageKind) -> bool {
        true
    }

    proof fn lemma_round_trip(model: MessageKind, mode: Mode) {
        model.lemma_named();
    }

    /// Reads a message kind from a JSON string.
    fn decode(json: &Json, mode: Mode) -> (r: Result<MessageKind, Error>) {
        assert(forall|found: MessageKind| Self::valid(found@));
        match json {
            Json::Text(name) => match Self::from_name(name.as_str()) {
                Some(found) => Ok(found),
                None => Err(Error::ParseError { reason: ParseReason::Tag }),
            },
            _ => Err(Error::shape(JsonKind::Text)),
        }
    }
}

/// The type of an event: that of a wallet or that of a token pair.
#[derive(Clone, Copy, Debug, PartialEq, Eq, Structural)]
pub enum EventType {
    Wallet(WalletEventType),
    TokenPair(TokenPairEventType),
}

impl View for EventType {
    type V = EventType;

    open spec fn view(&self) -> EventType {
        *self
    }
}

impl EventType {
    /// The JSON object of an event type: the family as the key, the type
    /// within the family as the value.
    pub open spec fn json(self) -> JsonModel {
        match self {
            EventType::Wallet(kind) => tagged("Wallet"@, kind.json()),
            EventType::TokenPair(kind) => tagged("TokenPair"@, kind.json()),
        }
    }

    /// The event type that a JSON value holds.
    pub open spec fn read(value: JsonModel) -> Result<EventType, Fault> {
        match untagged(value) {
            Err(fault) => Err(fault),
            Ok(found) => if found.0 == "Wallet"@ {
                match WalletEventType::read(found.1) {
                    Ok(kind) => Ok(EventType::Wallet(kind)),
                    Err(fault) => Err(fault),
                }
            } else if found.0 == "TokenPair"@ {
                match TokenPairEventType::read(found.1) {
                    Ok(kind) => Ok(EventType::TokenPair(kind)),
                    Err(fault) => Err(fault),
                }
            } else {
                Err(parse_fault(ParseKind::Tag))
            },
        }
    }

    /// The shape of the payload that a wallet event of type `kind` carries.
    /// A token pair event always carries the audit of a transfer.
    pub open spec fn payload_of(kind: WalletEventType) -> Payload {
        match kind {
            WalletEventType::RegisteredWallet => Payload::WalletAdmissionData,
            WalletEventType::ConfirmedDeposit => Payload::DepositNotification,
            WalletEventType::RequestWithdrawal => Payload::WithdrawalRequestNotification,
            WalletEventType::ConfirmedWithdrawal => Payload::WithdrawalNotification,
            WalletEventType::CheckpointCreated => Payload::WalletDataNotification,
            _ => Payload::TransferAudit,
        }
    }

    /// The shape of the payload that a wallet event of type `kind` carries:
    /// the admission data for a registered wallet, the matching notification
    /// for a deposit, a withdrawal request, a withdrawal and a checkpoint, and
    /// the audit of a transfer for every transfer and swap event.
    pub fn payload(kind: WalletEventType) -> (shape: Payload)
        ensures
            shape == Self::payload_of(kind),
    {
        match kind {
            WalletEventType::RegisteredWallet => Payload::WalletAdmissionData,
            WalletEventType::ConfirmedDeposit => Payload::DepositNotification,
            WalletEventType::RequestWithdrawal => Payload::WithdrawalRequestNotification,
            WalletEventType::ConfirmedWithdrawal => Payload::WithdrawalNotification,
            WalletEventType::CheckpointCreated => Payload::WalletDataNotification,
            _ => Payload::TransferAudit,
        }
    }
}

impl ToJson for EventType {
    open spec fn json_of(model: EventType) -> JsonModel {
        model.json()
    }

    /// Writes the event type as a JSON object.
    fn encode(&self) -> (json: Json) {
        match self {
            EventType::Wallet(kind) => tag("Wallet", kind.encode()),
            EventType::TokenPair(kind) => tag("TokenPair", kind.encode()),
        }
    }
}

impl FromJson for EventType {
    open spec fn decoded(value: JsonModel, mode: Mode) -> Result<EventType, Fault> {
        EventType::read(value)
    }

    open spec fn valid(model: EventType) -> bool {
        true
    }

    proof fn lemma_round_trip(model: EventType, mode: Mode) {
        reveal_strlit("Wallet");
        reveal_strlit("TokenPair");
        assert("Wallet"@.len() != "TokenPair"@.len());
        match model {
            EventType::Wallet(kind) => kind.lemma_named(),
            EventType::TokenPair(kind) => kind.lemma_named(),
        }
    }

    /// Reads an event type from a JSON object.
    fn decode(json: &Json, mode: Mode) -> (r: Result<EventType, Error>) {
        assert(forall|found: EventType| Self::valid(found@));
        let found = untag(json)?;
        if same_text(found.0.as_str(), "Wallet") {
            Ok(EventType::Wallet(WalletEventType::decode(found.1, mode)?))
        } else if same_text(found.0.as_str(), "TokenPair") {
            Ok(EventType::TokenPair(TokenPairEventType::decode(found.1, mode)?))
        } else {
            Err(Error::ParseError { reason: ParseReason::Tag })
        }
    }
}

/// The audit of a transfer as a notification carries it. The hub documents
/// no field of it.
#[derive(Clone, Debug, PartialEq, Eq)]
pub struct TransferAudit {}

/// The audit of a transfer as contracts see it.
pub ghost struct TransferAuditModel {}

impl View for TransferAudit {
    type V = TransferAuditModel;

    open spec fn view(&self) -> TransferAuditModel {
        TransferAuditModel {  }
    }
}

impl TransferAuditModel {
    /// The keys of a transfer audit: none.
    pub open spec fn keys() -> Seq<Seq<char>> {
        Seq::empty()
    }

    /// The JSON object of a transfer audit.
    pub open spec fn json(self) -> JsonModel {
        JsonModel::Object(Seq::empty())
    }

    /// The transfer audit that a JSON value holds, or the fault found: the
    /// value is no object, or (in strict mode) it holds a key.
    pub open spec fn decoded(value: JsonModel, mode: Mode) -> Result<TransferAuditModel, Fault> {
        match opened(value, Self::keys(), mode) {
            Err(fault) => Err(fault),
            Ok(_) => Ok(TransferAuditModel {  }),
        }
    }
}

impl ToJson for TransferAudit {
    open spec fn json_of(model: TransferAuditModel) -> JsonModel {
        model.json()
    }

    /// Writes the transfer audit as an empty JSON object.
    fn encode(&self) -> (json: Json) {
        let members: Vec<(String, Json)> = Vec::new();
        assert(members_model(members@) =~= Seq::empty());
        object(members)
    }
}

impl FromJson for TransferAudit {
    open spec fn decoded(value: JsonModel, mode: Mode) -> Result<TransferAuditModel, Fault> {
        TransferAuditModel::decoded(value, mode)
    }

    open spec fn valid(model: TransferAuditModel) -> bool {
        true
    }

    proof fn lemma_round_trip(model: TransferAuditModel, mode: Mode) {
    }

    /// Reads a transfer audit from a JSON object.
    fn decode(json: &Json, mode: Mode) -> (r: Result<TransferAudit, Error>) {
        assert(forall|found: TransferAudit| Self::valid(found@));
        let known: Vec<&'static str> = Vec::new();
        assert(names(known@) =~= TransferAuditModel::keys());
        let _ = open(json, &known, mode)?;
        Ok(TransferAudit {  })
    }
}

/// What the hub tells of a wallet that it has admitted.
#[derive(Clone, Debug, PartialEq, Eq)]
pub struct WalletAdmissionData {
    pub address: String,
    pub token: String,
    pub eon_number: i64,
    pub wallet_signature: String,
    pub operator_signature: String,
    pub trail_identifier: i64,
}

/// A wallet admission as contracts see it.
pub ghost struct WalletAdmissionDataModel {
    pub address: Seq<char>,
    pub token: Seq<char>,
    pub eon_number: i64,
    pub wallet_signature: Seq<char>,
    pub operator_signature: Seq<char>,
    pub trail_identifier: i64,
}

impl View for WalletAdmissionData {
    type V = WalletAdmissionDataModel;

    open spec fn view(&self) -> WalletAdmissionDataModel {
        WalletAdmissionDataModel {
            address: self.address@,
            token: self.token@,
            eon_number: self.eon_number@,
            wallet_signature: self.wallet_signature@,
            operator_signature: self.operator_signature@,
            trail_identifier: self.trail_identifier@,
        }
    }
}

impl WalletAdmissionDataModel {
    /// The keys of a wallet admission, in the order they are written.
    pub open spec fn keys() -> Seq<Seq<char>> {
        seq![
            "address"@,
            "token"@,
            "eon_number"@,
            "wallet_signature"@,
            "operator_signature"@,
            "trail_identifier"@,
        ]
    }

    /// The JSON object of a wallet admission.
    pub open spec fn json(self) -> JsonModel {
        JsonModel::Object(
            seq![
                ("address"@, String::json_of(self.address)),
                ("token"@, String::json_of(self.token)),
                ("eon_number"@, i64::json_of(self.eon_number)),
                ("wallet_signature"@, String::json_of(self.wallet_signature)),
                ("operator_signature"@, String::json_of(self.operator_signature)),
                ("trail_identifier"@, i64::json_of(self.trail_identifier)),
            ],
        )
    }

    /// Every part of the wallet admission is valid.
    pub open spec fn valid(self) -> bool {
        &&& String::valid(self.address)
        &&& String::valid(self.token)
        &&& i64::valid(self.eon_number)
        &&& String::valid(self.wallet_signature)
        &&& String::valid(self.operator_signature)
        &&& i64::valid(self.trail_identifier)
    }

    /// The wallet admission that the members of an object make, or the fault of the
    /// first field, in the order of [`Self::keys`], that has one.
    pub open spec fn assembled(members: Members, mode: Mode) -> Result<
        WalletAdmissionDataModel,
        Fault,
    > {
        let address = field::<String>(members, "address"@, mode);
        let token = field::<String>(members, "token"@, mode);
        let eon_number = field::<i64>(members, "eon_number"@, mode);
        let wallet_signature = field::<String>(members, "wallet_signature"@, mode);
        let operator_signature = field::<String>(members, "operator_signature"@, mode);
        let trail_identifier = field::<i64>(members, "trail_identifier"@, mode);
        if address is Err {
            Err(address->Err_0)
        } else if token is Err {
            Err(token->Err_0)
        } else if eon_number is Err {
            Err(eon_number->Err_0)
        } else if wallet_signature is Err {
            Err(wallet_signature->Err_0)
        } else if operator_signature is Err {
            Err(operator_signature->Err_0)
        } else if trail_identifier is Err {
            Err(trail_identifier->Err_0)
        } else {
            Ok(
                WalletAdmissionDataModel {
                    address: address->Ok_0,
                    token: token->Ok_0,
                    eon_number: eon_number->Ok_0,
                    wallet_signature: wallet_signature->Ok_0,
                    operator_signature: operator_signature->Ok_0,
                    trail_identifier: trail_identifier->Ok_0,
                },
            )
        }
    }

    /// The wallet admission that a JSON value holds, or the first fault found: the
    /// value is no object, then (in strict mode) the first unknown key, then
    /// the fields in the order of [`Self::keys`].
    pub open spec fn decoded(value: JsonModel, mode: Mode) -> Result<
        WalletAdmissionDataModel,
        Fault,
    > {
        match opened(value, Self::keys(), mode) {
            Err(fault) => Err(fault),
            Ok(members) => Self::assembled(members, mode),
        }
    }

    /// In the object that writes a wallet admission every key is known and is found
    /// with the value of its field.
    pub proof fn lemma_members(self)
        ensures
            self.json() is Object,
            first_unknown(self.json()->Object_0, Self::keys()) is None,
            lookup(self.json()->Object_0, "address"@) == Some(String::json_of(self.address)),
            lookup(self.json()->Object_0, "token"@) == Some(String::json_of(self.token)),
            lookup(self.json()->Object_0, "eon_number"@) == Some(i64::json_of(self.eon_number)),
            lookup(self.json()->Object_0, "wallet_signature"@) == Some(
                String::json_of(self.wallet_signature),
            ),
            lookup(self.json()->Object_0, "operator_signature"@) == Some(
                String::json_of(self.operator_signature),
            ),
            lookup(self.json()->Object_0, "trail_identifier"@) == Some(
                i64::json_of(self.trail_identifier),
            ),
    {
        let members = self.json()->Object_0;
        reveal_strlit("address");
        reveal_strlit("token");
        reveal_strlit("eon_number");
        reveal_strlit("wallet_signature");
        reveal_strlit("operator_signature");
        reveal_strlit("trail_identifier");
        assert("address"@.len() == 7);
        assert("token"@.len() == 5);
        assert("eon_number"@.len() == 10);
        assert("wallet_signature"@.len() == 16);
        assert("operator_signature"@.len() == 18);
        assert("trail_identifier"@.len() == 16);
        assert("wallet_signature"@[0] == 'w');
        assert("trail_identifier"@[0] == 't');
        assert(Self::keys()[0] == "address"@);
        assert(Self::keys()[1] == "token"@);
        assert(Self::keys()[2] == "eon_number"@);
        assert(Self::keys()[3] == "wallet_signature"@);
        assert(Self::keys()[4] == "operator_signature"@);
        assert(Self::keys()[5] == "trail_identifier"@);
        lemma_all_known(members, Self::keys());
        lemma_lookup_at(members, "address"@, 0);
        lemma_lookup_at(members, "token"@, 1);
        lemma_lookup_at(members, "eon_number"@, 2);
        lemma_lookup_at(members, "wallet_signature"@, 3);
        lemma_lookup_at(members, "operator_signature"@, 4);
        lemma_lookup_at(members, "trail_identifier"@, 5);
    }

    /// A valid wallet admission that was written is read back, in either mode.
    pub proof fn lemma_round_trip(self, mode: Mode)
        requires
            self.valid(),
        ensures
            Self::decoded(self.json(), mode) == Ok::<WalletAdmissionDataModel, Fault>(self),
    {
        self.lemma_members();
        String::lemma_round_trip(self.address, mode);
        String::lemma_round_trip(self.token, mode);
        i64::lemma_round_trip(self.eon_number, mode);
        String::lemma_round_trip(self.wallet_signature, mode);
        String::lemma_round_trip(self.operator_signature, mode);
        i64::lemma_round_trip(self.trail_identifier, mode);
    }
}

impl WalletAdmissionData {
    /// The keys of a wallet admission.
    fn known() -> (keys: Vec<&'static str>)
        ensures
            names(keys@) == WalletAdmissionDataModel::keys(),
    {
        let mut keys: Vec<&'static str> = Vec::new();
        keys.push("address");
        keys.push("token");
        keys.push("eon_number");
        keys.push("wallet_signature");
        keys.push("operator_signature");
        keys.push("trail_identifier");
        assert(names(keys@) =~= WalletAdmissionDataModel::keys());
        keys
    }
}

impl ToJson for WalletAdmissionData {
    open spec fn json_of(model: WalletAdmissionDataModel) -> JsonModel {
        model.json()
    }

    /// Writes the wallet admission as a JSON object with the keys `address`,
    /// `token`, `eon_number`, `wallet_signature`, `operator_signature` and
    /// `trail_identifier`, in this order.
    fn encode(&self) -> (json: Json) {
        let mut members: Vec<(String, Json)> = Vec::new();
        members.push(member("address", self.address.encode()));
        members.push(member("token", self.token.encode()));
        members.push(member("eon_number", self.eon_number.encode()));
        members.push(member("wallet_signature", self.wallet_signature.encode()));
        members.push(member("operator_signature", self.operator_signature.encode()));
        members.push(member("trail_identifier", self.trail_identifier.encode()));
        assert(members_model(members@) =~= self@.json()->Object_0);
        object(members)
    }
}

impl FromJson for WalletAdmissionData {
    open spec fn decoded(value: JsonModel, mode: Mode) -> Result<WalletAdmissionDataModel, Fault> {
        WalletAdmissionDataModel::decoded(value, mode)
    }

    open spec fn valid(model: WalletAdmissionDataModel) -> bool {
        model.valid()
    }

    proof fn lemma_round_trip(model: WalletAdmissionDataModel, mode: Mode) {
        model.lemma_round_trip(mode);
    }

    /// Reads a wallet admission from a JSON object.
    fn decode(json: &Json, mode: Mode) -> (r: Result<WalletAdmissionData, Error>) {
        let members = open(json, &WalletAdmissionData::known(), mode)?;
        let address = read_field::<String>(members, "address", mode)?;
        let token = read_field::<String>(members, "token", mode)?;
        let eon_number = read_field::<i64>(members, "eon_number", mode)?;
        let wallet_signature = read_field::<String>(members, "wallet_signature", mode)?;
        let operator_signature = read_field::<String>(members, "operator_signature", mode)?;
        let trail_identifier = read_field::<i64>(members, "trail_identifier", mode)?;
        let value = WalletAdmissionData {
            address,
            token,
            eon_number,
            wallet_signature,
            operator_signature,
            trail_identifier,
        };
        assert(Self::valid(value@));
        Ok(value)
    }
}

/// The notification of a deposit.
#[derive(Clone, Debug, PartialEq, Eq)]
pub struct DepositNotification {
    pub address: String,
    pub token: String,
}

/// A deposit notification as contracts see it.
pub ghost struct DepositNotificationModel {
    pub address: Seq<char>,
    pub token: Seq<char>,
}

impl View for DepositNotification {
    type V = DepositNotificationModel;

    open spec fn view(&self) -> DepositNotificationModel {
        DepositNotificationModel {
            address: self.address@,
            token: self.token@,
        }
    }
}

impl DepositNotificationModel {
    /// The keys of a deposit notification, in the order they are written.
    pub open spec fn keys() -> Seq<Seq<char>> {
        seq![
            "address"@,
            "token"@,
        ]
    }

    /// The JSON object of a deposit notification.
    pub open spec fn json(self) -> JsonModel {
        JsonModel::Object(
            seq![
                ("address"@, String::json_of(self.address)),
                ("token"@, String::json_of(self.token)),
            ],
        )
    }

    /// Every part of the deposit notification is valid.
    pub open spec fn valid(self) -> bool {
        &&& String::valid(self.address)
        &&& String::valid(self.token)
    }

    /// The deposit notification that the members of an object make, or the fault of the
    /// first field, in the order of [`Self::keys`], that has one.
    pub open spec fn assembled(members: Members, mode: Mode) -> Result<
        DepositNotificationModel,
        Fault,
    > {
        let address = field::<String>(members, "address"@, mode);
        let token = field::<String>(members, "token"@, mode);
        if address is Err {
            Err(address->Err_0)
        } else if token is Err {
            Err(token->Err_0)
        } else {
            Ok(
                DepositNotificationModel {
                    address: address->Ok_0,
                    token: token->Ok_0,
                },
            )
        }
    }

    /// The deposit notification that a JSON value holds, or the first fault found: the
    /// value is no object, then (in strict mode) the first unknown key, then
    /// the fields in the order of [`Self::keys`].
    pub open spec fn decoded(value: JsonModel, mode: Mode) -> Result<
        DepositNotificationModel,
        Fault,
    > {
        match opened(value, Self::keys(), mode) {
            Err(fault) => Err(fault),
            Ok(members) => Self::assembled(members, mode),
        }
    }

    /// In the object that writes a deposit notification every key is known and is found
    /// with the value of its field.
    pub proof fn lemma_members(self)
        ensures
            self.json() is Object,
            first_unknown(self.json()->Object_0, Self::keys()) is None,
            lookup(self.json()->Object_0, "address"@) == Some(String::json_of(self.address)),
            lookup(self.json()->Object_0, "token"@) == Some(String::json_of(self.token)),
    {
        let members = self.json()->Object_0;
        reveal_strlit("address");
        reveal_strlit("token");
        assert("address"@.len() == 7);
        assert("token"@.len() == 5);
        assert(Self::keys()[0] == "address"@);
        assert(Self::keys()[1] == "token"@);
        lemma_all_known(members, Self::keys());
        lemma_lookup_at(members, "address"@, 0);
        lemma_lookup_at(members, "token"@, 1);
    }

    /// A valid deposit notification that was written is read back, in either mode.
    pub proof fn lemma_round_trip(self, mode: Mode)
        requires
            self.valid(),
        ensures
            Self::decoded(self.json(), mode) == Ok::<DepositNotificationModel, Fault>(self),
    {
        self.lemma_members();
        String::lemma_round_trip(self.address, mode);
        String::lemma_round_trip(self.token, mode);
    }
}

impl DepositNotification {
    /// The keys of a deposit notification.
    fn known() -> (keys: Vec<&'static str>)
        ensures
            names(keys@) == DepositNotificationModel::keys(),
    {
        let mut keys: Vec<&'static str> = Vec::new();
        keys.push("address");
        keys.push("token");
        assert(names(keys@) =~= DepositNotificationModel::keys());
        keys
    }
}

impl ToJson for DepositNotification {
    open spec fn json_of(model: DepositNotificationModel) -> JsonModel {
        model.json()
    }

    /// Writes the deposit notification as a JSON object with the keys
    /// `address` and `token`, in this order.
    fn encode(&self) -> (json: Json) {
        let mut members: Vec<(String, Json)> = Vec::new();
        members.push(member("address", self.address.encode()));
        members.push(member("token", self.token.encode()));
        assert(members_model(members@) =~= self@.json()->Object_0);
        object(members)
    }
}

impl FromJson for DepositNotification {
    open spec fn decoded(value: JsonModel, mode: Mode) -> Result<DepositNotificationModel, Fault> {
        DepositNotificationModel::decoded(value, mode)
    }

    open spec fn valid(model: DepositNotificationModel) -> bool {
        model.valid()
    }

    proof fn lemma_round_trip(model: DepositNotificationModel, mode: Mode) {
        model.lemma_round_trip(mode);
    }

    /// Reads a deposit notification from a JSON object.
    fn decode(json: &Json, mode: Mode) -> (r: Result<DepositNotification, Error>) {
        let members = open(json, &DepositNotification::known(), mode)?;
        let address = read_field::<String>(members, "address", mode)?;
        let token = read_field::<String>(members, "token", mode)?;
        let value = DepositNotification {
            address,
            token,
        };
        assert(Self::valid(value@));
        Ok(value)
    }
}

/// The notification of a request to withdraw.
#[derive(Clone, Debug, PartialEq, Eq)]
pub struct WithdrawalRequestNotification {
    pub address: String,
    pub token: String,
}

/// A withdrawal request notification as contracts see it.
pub ghost struct WithdrawalRequestNotificationModel {
    pub address: Seq<char>,
    pub token: Seq<char>,
}

impl View for WithdrawalRequestNotification {
    type V = WithdrawalRequestNotificationModel;

    open spec fn view(&self) -> WithdrawalRequestNotificationModel {
        WithdrawalRequestNotificationModel {
            address: self.address@,
            token: self.token@,
        }
    }
}

impl WithdrawalRequestNotificationModel {
    /// The keys of a withdrawal request notification, in the order they are written.
    pub open spec fn keys() -> Seq<Seq<char>> {
        seq![
            "address"@,
            "token"@,
        ]
    }

    /// The JSON object of a withdrawal request notification.
    pub open spec fn json(self) -> JsonModel {
        JsonModel::Object(
            seq![
                ("address"@, String::json_of(self.address)),
                ("token"@, String::json_of(self.token)),
            ],
        )
    }

    /// Every part of the withdrawal request notification is valid.
    pub open spec fn valid(self) -> bool {
        &&& String::valid(self.address)
        &&& String::valid(self.token)
    }

    /// The withdrawal request notification that the members of an object make, or the fault of the
    /// first field, in the order of [`Self::keys`], that has one.
    pub open spec fn assembled(members: Members, mode: Mode) -> Result<
        WithdrawalRequestNotificationModel,
        Fault,
    > {
        let address = field::<String>(members, "address"@, mode);
        let token = field::<String>(members, "token"@, mode);
        if address is Err {
            Err(address->Err_0)
        } else if token is Err {
            Err(token->Err_0)
        } else {
            Ok(
                WithdrawalRequestNotificationModel {
                    address: address->Ok_0,
                    token: token->Ok_0,
                },
            )
        }
    }

    /// The withdrawal request notification that a JSON value holds, or the first fault found: the
    /// value is no object, then (in strict mode) the first unknown key, then
    /// the fields in the order of [`Self::keys`].
    pub open spec fn decoded(value: JsonModel, mode: Mode) -> Result<
        WithdrawalRequestNotificationModel,
        Fault,
    > {
        match opened(value, Self::keys(), mode) {
            Err(fault) => Err(fault),
            Ok(members) => Self::assembled(members, mode),
        }
    }

    /// In the object that writes a withdrawal request notification every key is known and is found
    /// with the value of its field.
    pub proof fn lemma_members(self)
        ensures
            self.json() is Object,
            first_unknown(self.json()->Object_0, Self::keys()) is None,
            lookup(self.json()->Object_0, "address"@) == Some(String::json_of(self.address)),
            lookup(self.json()->Object_0, "token"@) == Some(String::json_of(self.token)),
    {
        let members = self.json()->Object_0;
        reveal_strlit("address");
        reveal_strlit("token");
        assert("address"@.len() == 7);
        assert("token"@.len() == 5);
        assert(Self::keys()[0] == "address"@);
        assert(Self::keys()[1] == "token"@);
        lemma_all_known(members, Self::keys());
        lemma_lookup_at(members, "address"@, 0);
        lemma_lookup_at(members, "token"@, 1);
    }

    /// A valid withdrawal request notification that was written is read back, in either mode.
    pub proof fn lemma_round_trip(self, mode: Mode)
        requires
            self.valid(),
        ensures
            Self::decoded(self.json(), mode) == Ok::<WithdrawalRequestNotificationModel, Fault>(self),
    {
        self.lemma_members();
        String::lemma_round_trip(self.address, mode);
        String::lemma_round_trip(self.token, mode);
    }
}

impl WithdrawalRequestNotification {
    /// The keys of a withdrawal request notification.
    fn known() -> (keys: Vec<&'static str>)
        ensures
            names(keys@) == WithdrawalRequestNotificationModel::keys(),
    {
        let mut keys: Vec<&'static str> = Vec::new();
        keys.push("address");
        keys.push("token");
        assert(names(keys@) =~= WithdrawalRequestNotificationModel::keys());
        keys
    }
}

impl ToJson for WithdrawalRequestNotification {
    open spec fn json_of(model: WithdrawalRequestNotificationModel) -> JsonModel {
        model.json()
    }

    /// Writes the withdrawal request notification as a JSON object with the
    /// keys `address` and `token`, in this order.
    fn encode(&self) -> (json: Json) {
        let mut members: Vec<(String, Json)> = Vec::new();
        members.push(member("address", self.address.encode()));
        members.push(member("token", self.token.encode()));
        assert(members_model(members@) =~= self@.json()->Object_0);
        object(members)
    }
}

impl FromJson for WithdrawalRequestNotification {
    open spec fn decoded(value: JsonModel, mode: Mode) -> Result<WithdrawalRequestNotificationModel, Fault> {
        WithdrawalRequestNotificationModel::decoded(value, mode)
    }

    open spec fn valid(model: WithdrawalRequestNotificationModel) -> bool {
        model.valid()
    }

    proof fn lemma_round_trip(model: WithdrawalRequestNotificationModel, mode: Mode) {
        model.lemma_round_trip(mode);
    }

    /// Reads a withdrawal request notification from a JSON object.
    fn decode(json: &Json, mode: Mode) -> (r: Result<WithdrawalRequestNotification, Error>) {
        let members = open(json, &WithdrawalRequestNotification::known(), mode)?;
        let address = read_field::<String>(members, "address", mode)?;
        let token = read_field::<String>(members, "token", mode)?;
        let value = WithdrawalRequestNotification {
            address,
            token,
        };
        assert(Self::valid(value@));
        Ok(value)
    }
}

/// The notification of a withdrawal.
#[derive(Clone, Debug, PartialEq, Eq)]
pub struct WithdrawalNotification {
    pub address: String,
    pub token: String,
}

/// A withdrawal notification as contracts see it.
pub ghost struct WithdrawalNotificationModel {
    pub address: Seq<char>,
    pub token: Seq<char>,
}

impl View for WithdrawalNotification {
    type V = WithdrawalNotificationModel;

    open spec fn view(&self) -> WithdrawalNotificationModel {
        WithdrawalNotificationModel {
            address: self.address@,
            token: self.token@,
        }
    }
}

impl WithdrawalNotificationModel {
    /// The keys of a withdrawal notification, in the order they are written.
    pub open spec fn keys() -> Seq<Seq<char>> {
        seq![
            "address"@,
            "token"@,
        ]
    }

    /// The JSON object of a withdrawal notification.
    pub open spec fn json(self) -> JsonModel {
        JsonModel::Object(
            seq![
                ("address"@, String::json_of(self.address)),
                ("token"@, String::json_of(self.token)),
            ],
        )
    }

    /// Every part of the withdrawal notification is valid.
    pub open spec fn valid(self) -> bool {
        &&& String::valid(self.address)
        &&& String::valid(self.token)
    }

    /// The withdrawal notification that the members of an object make, or the fault of the
    /// first field, in the order of [`Self::keys`], that has one.
    pub open spec fn assembled(members: Members, mode: Mode) -> Result<
        WithdrawalNotificationModel,
        Fault,
    > {
        let address = field::<String>(members, "address"@, mode);
        let token = field::<String>(members, "token"@, mode);
        if address is Err {
            Err(address->Err_0)
        } else if token is Err {
            Err(token->Err_0)
        } else {
            Ok(
                WithdrawalNotificationModel {
                    address: address->Ok_0,
                    token: token->Ok_0,
                },
            )
        }
    }

    /// The withdrawal notification that a JSON value holds, or the first fault found: the
    /// value is no object, then (in strict mode) the first unknown key, then
    /// the fields in the order of [`Self::keys`].
    pub open spec fn decoded(value: JsonModel, mode: Mode) -> Result<
        WithdrawalNotificationModel,
        Fault,
    > {
        match opened(value, Self::keys(), mode) {
            Err(fault) => Err(fault),
            Ok(members) => Self::assembled(members, mode),
        }
    }

    /// In the object that writes a withdrawal notification every key is known and is found
    /// with the value of its field.
    pub proof fn lemma_members(self)
        ensures
            self.json() is Object,
            first_unknown(self.json()->Object_0, Self::keys()) is None,
            lookup(self.json()->Object_0, "address"@) == Some(String::json_of(self.address)),
            lookup(self.json()->Object_0, "token"@) == Some(String::json_of(self.token)),
    {
        let members = self.json()->Object_0;
        reveal_strlit("address");
        reveal_strlit("token");
        assert("address"@.len() == 7);
        assert("token"@.len() == 5);
        assert(Self::keys()[0] == "address"@);
        assert(Self::keys()[1] == "token"@);
        lemma_all_known(members, Self::keys());
        lemma_lookup_at(members, "address"@, 0);
        lemma_lookup_at(members, "token"@, 1);
    }

    /// A valid withdrawal notification that was written is read back, in either mode.
    pub proof fn lemma_round_trip(self, mode: Mode)
        requires
            self.valid(),
        ensures
            Self::decoded(self.json(), mode) == Ok::<WithdrawalNotificationModel, Fault>(self),
    {
        self.lemma_members();
        String::lemma_round_trip(self.address, mode);
        String::lemma_round_trip(self.token, mode);
    }
}

impl WithdrawalNotification {
    /// The keys of a withdrawal notification.
    fn known() -> (keys: Vec<&'static str>)
        ensures
            names(keys@) == WithdrawalNotificationModel::keys(),
    {
        let mut keys: Vec<&'static str> = Vec::new();
        keys.push("address");
        keys.push("token");
        assert(names(keys@) =~= WithdrawalNotificationModel::keys());
        keys
    }
}

impl ToJson for WithdrawalNotification {
    open spec fn json_of(model: WithdrawalNotificationModel) -> JsonModel {
        model.json()
    }

    /// Writes the withdrawal notification as a JSON object with the keys
    /// `address` and `token`, in this order.
    fn encode(&self) -> (json: Json) {
        let mut members: Vec<(String, Json)> = Vec::new();
        members.push(member("address", self.address.encode()));
        members.push(member("token", self.token.encode()));
        assert(members_model(members@) =~= self@.json()->Object_0);
        object(members)
    }
}

impl FromJson for WithdrawalNotification {
    open spec fn decoded(value: JsonModel, mode: Mode) -> Result<WithdrawalNotificationModel, Fault> {
        WithdrawalNotificationModel::decoded(value, mode)
    }

    open spec fn valid(model: WithdrawalNotificationModel) -> bool {
        model.valid()
    }

    proof fn lemma_round_trip(model: WithdrawalNotificationModel, mode: Mode) {
        model.lemma_round_trip(mode);
    }

    /// Reads a withdrawal notification from a JSON object.
    fn decode(json: &Json, mode: Mode) -> (r: Result<WithdrawalNotification, Error>) {
        let members = open(json, &WithdrawalNotification::known(), mode)?;
        let address = read_field::<String>(members, "address", mode)?;
        let token = read_field::<String>(members, "token", mode)?;
        let value = WithdrawalNotification {
            address,
            token,
        };
        assert(Self::valid(value@));
        Ok(value)
    }
}

/// The notification of new wallet data.
#[derive(Clone, Debug, PartialEq, Eq)]
pub struct WalletDataNotification {
    pub address: String,
    pub token: String,
}

/// A wallet data notification as contracts see it.
pub ghost struct WalletDataNotificationModel {
    pub address: Seq<char>,
    pub token: Seq<char>,
}

impl View for WalletDataNotification {
    type V = WalletDataNotificationModel;

    open spec fn view(&self) -> WalletDataNotificationModel {
        WalletDataNotificationModel {
            address: self.address@,
            token: self.token@,
        }
    }
}

impl WalletDataNotificationModel {
    /// The keys of a wallet data notification, in the order they are written.
    pub open spec fn keys() -> Seq<Seq<char>> {
        seq![
            "address"@,
            "token"@,
        ]
    }

    /// The JSON object of a wallet data notification.
    pub open spec fn json(self) -> JsonModel {
        JsonModel::Object(
            seq![
                ("address"@, String::json_of(self.address)),
                ("token"@, String::json_of(self.token)),
            ],
        )
    }

    /// Every part of the wallet data notification is valid.
    pub open spec fn valid(self) -> bool {
        &&& String::valid(self.address)
        &&& String::valid(self.token)
    }

    /// The wallet data notification that the members of an object make, or the fault of the
    /// first field, in the order of [`Self::keys`], that has one.
    pub open spec fn assembled(members: Members, mode: Mode) -> Result<
        WalletDataNotificationModel,
        Fault,
    > {
        let address = field::<String>(members, "address"@, mode);
        let token = field::<String>(members, "token"@, mode);
        if address is Err {
            Err(address->Err_0)
        } else if token is Err {
            Err(token->Err_0)
        } else {
            Ok(
                WalletDataNotificationModel {
                    address: address->Ok_0,
                    token: token->Ok_0,
                },
            )
        }
    }

    /// The wallet data notification that a JSON value holds, or the first fault found: the
    /// value is no object, then (in strict mode) the first unknown key, then
    /// the fields in the order of [`Self::keys`].
    pub open spec fn decoded(value: JsonModel, mode: Mode) -> Result<
        WalletDataNotificationModel,
        Fault,
    > {
        match opened(value, Self::keys(), mode) {
            Err(fault) => Err(fault),
            Ok(members) => Self::assembled(members, mode),
        }
    }

    /// In the object that writes a wallet data notification every key is known and is found
    /// with the value of its field.
    pub proof fn lemma_members(self)
        ensures
            self.json() is Object,
            first_unknown(self.json()->Object_0, Self::keys()) is None,
            lookup(self.json()->Object_0, "address"@) == Some(String::json_of(self.address)),
            lookup(self.json()->Object_0, "token"@) == Some(String::json_of(self.token)),
    {
        let members = self.json()->Object_0;
        reveal_strlit("address");
        reveal_strlit("token");
        assert("address"@.len() == 7);
        assert("token"@.len() == 5);
        assert(Self::keys()[0] == "address"@);
        assert(Self::keys()[1] == "token"@);
        lemma_all_known(members, Self::keys());
        lemma_lookup_at(members, "address"@, 0);
        lemma_lookup_at(members, "token"@, 1);
    }

    /// A valid wallet data notification that was written is read back, in either mode.
    pub proof fn lemma_round_trip(self, mode: Mode)
        requires
            self.valid(),
        ensures
            Self::decoded(self.json(), mode) == Ok::<WalletDataNotificationModel, Fault>(self),
    {
        self.lemma_members();
        String::lemma_round_trip(self.address, mode);
        String::lemma_round_trip(self.token, mode);
    }
}

impl WalletDataNotification {
    /// The keys of a wallet data notification.
    fn known() -> (keys: Vec<&'static str>)
        ensures
            names(keys@) == WalletDataNotificationModel::keys(),
    {
        let mut keys: Vec<&'static str> = Vec::new();
        keys.push("address");
        keys.push("token");
        assert(names(keys@) =~= WalletDataNotificationModel::keys());
        keys
    }
}

impl ToJson for WalletDataNotification {
    open spec fn json_of(model: WalletDataNotificationModel) -> JsonModel {
        model.json()
    }

    /// Writes the wallet data notification as a JSON object with the keys
    /// `address` and `token`, in this order.
    fn encode(&self) -> (json: Json) {
        let mut members: Vec<(String, Json)> = Vec::new();
        members.push(member("address", self.address.encode()));
        members.push(member("token", self.token.encode()));
        assert(members_model(members@) =~= self@.json()->Object_0);
        object(members)
    }
}

impl FromJson for WalletDataNotification {
    open spec fn decoded(value: JsonModel, mode: Mode) -> Result<WalletDataNotificationModel, Fault> {
        WalletDataNotificationModel::decoded(value, mode)
    }

    open spec fn valid(model: WalletDataNotificationModel) -> bool {
        model.valid()
    }

    proof fn lemma_round_trip(model: WalletDataNotificationModel, mode: Mode) {
        model.lemma_round_trip(mode);
    }

    /// Reads a wallet data notification from a JSON object.
    fn decode(json: &Json, mode: Mode) -> (r: Result<WalletDataNotification, Error>) {
        let members = open(json, &WalletDataNotification::known(), mode)?;
        let address = read_field::<String>(members, "address", mode)?;
        let token = read_field::<String>(members, "token", mode)?;
        let value = WalletDataNotification {
            address,
            token,
        };
        assert(Self::valid(value@));
        Ok(value)
    }
}

/// The payload of a wallet event.
#[derive(Clone, Debug, PartialEq, Eq)]
pub enum WalletEvent {
    TransferAudit(TransferAudit),
    WalletAdmissionData(WalletAdmissionData),
    DepositNotification(DepositNotification),
    WithdrawalRequestNotification(WithdrawalRequestNotification),
    WithdrawalNotification(WithdrawalNotification),
    WalletDataNotification(WalletDataNotification),
}

/// The payload of a wallet event as contracts see it.
pub ghost enum WalletEventModel {
    TransferAudit(TransferAuditModel),
    WalletAdmissionData(WalletAdmissionDataModel),
    DepositNotification(DepositNotificationModel),
    WithdrawalRequestNotification(WithdrawalRequestNotificationModel),
    WithdrawalNotification(WithdrawalNotificationModel),
    WalletDataNotification(WalletDataNotificationModel),
}

impl View for WalletEvent {
    type V = WalletEventModel;

    open spec fn view(&self) -> WalletEventModel {
        match self {
            WalletEvent::TransferAudit(data) => WalletEventModel::TransferAudit(data@),
            WalletEvent::WalletAdmissionData(data) => WalletEventModel::WalletAdmissionData(data@),
            WalletEvent::DepositNotification(data) => WalletEventModel::DepositNotification(data@),
            WalletEvent::WithdrawalRequestNotification(data) => WalletEventModel::WithdrawalRequestNotification(data@),
            WalletEvent::WithdrawalNotification(data) => WalletEventModel::WithdrawalNotification(data@),
            WalletEvent::WalletDataNotification(data) => WalletEventModel::WalletDataNotification(data@),
        }
    }
}

impl WalletEventModel {
    /// The shape of the payload.
    pub open spec fn payload(self) -> Payload {
        match self {
            WalletEventModel::TransferAudit(_) => Payload::TransferAudit,
            WalletEventModel::WalletAdmissionData(_) => Payload::WalletAdmissionData,
            WalletEventModel::DepositNotification(_) => Payload::DepositNotification,
            WalletEventModel::WithdrawalRequestNotification(_) => Payload::WithdrawalRequestNotification,
            WalletEventModel::WithdrawalNotification(_) => Payload::WithdrawalNotification,
            WalletEventModel::WalletDataNotification(_) => Payload::WalletDataNotification,
        }
    }

    /// The JSON object of the payload: its shape as the key, its fields as the
    /// value.
    pub open spec fn json(self) -> JsonModel {
        match self {
            WalletEventModel::TransferAudit(data) => tagged("TransferAudit"@, data.json()),
            WalletEventModel::WalletAdmissionData(data) => tagged("WalletAdmissionData"@, data.json()),
            WalletEventModel::DepositNotification(data) => tagged("DepositNotification"@, data.json()),
            WalletEventModel::WithdrawalRequestNotification(data) => tagged("WithdrawalRequestNotification"@, data.json()),
            WalletEventModel::WithdrawalNotification(data) => tagged("WithdrawalNotification"@, data.json()),
            WalletEventModel::WalletDataNotification(data) => tagged("WalletDataNotification"@, data.json()),
        }
    }

    /// The payload that a JSON value holds if it is read as the shape
    /// `shape`: the value must carry that shape as its tag, and its fields
    /// are read as that shape and as no other.
    pub open spec fn decoded_as(shape: Payload, value: JsonModel, mode: Mode) -> Result<
        WalletEventModel,
        Fault,
    > {
        match expected(value, shape.name_of()) {
            Err(fault) => Err(fault),
            Ok(fields) => match shape {
                Payload::TransferAudit => match TransferAuditModel::decoded(fields, mode) {
                    Ok(data) => Ok(WalletEventModel::TransferAudit(data)),
                    Err(fault) => Err(fault),
                },
                Payload::WalletAdmissionData => match WalletAdmissionDataModel::decoded(fields, mode) {
                    Ok(data) => Ok(WalletEventModel::WalletAdmissionData(data)),
                    Err(fault) => Err(fault),
                },
                Payload::DepositNotification => match DepositNotificationModel::decoded(fields, mode) {
                    Ok(data) => Ok(WalletEventModel::DepositNotification(data)),
                    Err(fault) => Err(fault),
                },
                Payload::WithdrawalRequestNotification => match WithdrawalRequestNotificationModel::decoded(fields, mode) {
                    Ok(data) => Ok(WalletEventModel::WithdrawalRequestNotification(data)),
                    Err(fault) => Err(fault),
                },
                Payload::WithdrawalNotification => match WithdrawalNotificationModel::decoded(fields, mode) {
                    Ok(data) => Ok(WalletEventModel::WithdrawalNotification(data)),
                    Err(fault) => Err(fault),
                },
                Payload::WalletDataNotification => match WalletDataNotificationModel::decoded(fields, mode) {
                    Ok(data) => Ok(WalletEventModel::WalletDataNotification(data)),
                    Err(fault) => Err(fault),
                },
            },
        }
    }

    /// A payload that was written is read back as its own shape.
    pub proof fn lemma_round_trip(self, mode: Mode)
        ensures
            Self::decoded_as(self.payload(), self.json(), mode) == Ok::<WalletEventModel, Fault>(
                self,
            ),
    {
        match self {
            WalletEventModel::TransferAudit(data) => {},
            WalletEventModel::WalletAdmissionData(data) => data.lemma_round_trip(mode),
            WalletEventModel::DepositNotification(data) => data.lemma_round_trip(mode),
            WalletEventModel::WithdrawalRequestNotification(data) => data.lemma_round_trip(mode),
            WalletEventModel::WithdrawalNotification(data) => data.lemma_round_trip(mode),
            WalletEventModel::WalletDataNotification(data) => data.lemma_round_trip(mode),
        }
    }

    /// A payload that is read as another shape than its own is refused as an
    /// event that is not the one announced.
    pub proof fn lemma_other_shape(self, shape: Payload, mode: Mode)
        requires
            shape != self.payload(),
        ensures
            Self::decoded_as(shape, self.json(), mode) == Err::<WalletEventModel, Fault>(
                parse_fault(ParseKind::Event),
            ),
    {
        shape.lemma_named();
        self.payload().lemma_named();
    }
}

impl WalletEvent {
    /// The shape of the payload.
    pub fn payload(&self) -> (shape: Payload)
        ensures
            shape == self@.payload(),
    {
        match self {
            WalletEvent::TransferAudit(_) => Payload::TransferAudit,
            WalletEvent::WalletAdmissionData(_) => Payload::WalletAdmissionData,
            WalletEvent::DepositNotification(_) => Payload::DepositNotification,
            WalletEvent::WithdrawalRequestNotification(_) => Payload::WithdrawalRequestNotification,
            WalletEvent::WithdrawalNotification(_) => Payload::WithdrawalNotification,
            WalletEvent::WalletDataNotification(_) => Payload::WalletDataNotification,
        }
    }

    /// Reads a payload as the shape `shape`.
    pub fn decode_as(shape: Payload, json: &Json, mode: Mode) -> (r: Result<WalletEvent, Error>)
        ensures
            agrees(r, WalletEventModel::decoded_as(shape, json@, mode)),
    {
        let fields = expect(json, shape.name())?;
        match shape {
            Payload::TransferAudit => Ok(WalletEvent::TransferAudit(TransferAudit::decode(fields, mode)?)),
            Payload::WalletAdmissionData => Ok(WalletEvent::WalletAdmissionData(WalletAdmissionData::decode(fields, mode)?)),
            Payload::DepositNotification => Ok(WalletEvent::DepositNotification(DepositNotification::decode(fields, mode)?)),
            Payload::WithdrawalRequestNotification => Ok(WalletEvent::WithdrawalRequestNotification(WithdrawalRequestNotification::decode(fields, mode)?)),
            Payload::WithdrawalNotification => Ok(WalletEvent::WithdrawalNotification(WithdrawalNotification::decode(fields, mode)?)),
            Payload::WalletDataNotification => Ok(WalletEvent::WalletDataNotification(WalletDataNotification::decode(fields, mode)?)),
        }
    }
}

impl ToJson for WalletEvent {
    open spec fn json_of(model: WalletEventModel) -> JsonModel {
        model.json()
    }

    /// Writes the payload as a JSON object: its shape as the key, its fields
    /// as the value.
    fn encode(&self) -> (json: Json) {
        match self {
            WalletEvent::TransferAudit(data) => tag("TransferAudit", data.encode()),
            WalletEvent::WalletAdmissionData(data) => tag("WalletAdmissionData", data.encode()),
            WalletEvent::DepositNotification(data) => tag("DepositNotification", data.encode()),
            WalletEvent::WithdrawalRequestNotification(data) => tag("WithdrawalRequestNotification", data.encode()),
            WalletEvent::WithdrawalNotification(data) => tag("WithdrawalNotification", data.encode()),
            WalletEvent::WalletDataNotification(data) => tag("WalletDataNotification", data.encode()),
        }
    }
}

/// The payload of a token pair event.
#[derive(Clone, Debug, PartialEq, Eq)]
pub struct TokenEvent(pub TransferAudit);

impl View for TokenEvent {
    type V = TransferAuditModel;

    open spec fn view(&self) -> TransferAuditModel {
        self.0@
    }
}

/// The payload of an event.
#[derive(Clone, Debug, PartialEq, Eq)]
pub enum Event {
    Wallet(WalletEvent),
    Token(TokenEvent),
}

/// The payload of an event as contracts see it.
pub ghost enum EventModel {
    Wallet(WalletEventModel),
    Token(TransferAuditModel),
}

impl View for Event {
    type V = EventModel;

    open spec fn view(&self) -> EventModel {
        match self {
            Event::Wallet(event) => EventModel::Wallet(event@),
            Event::Token(event) => EventModel::Token(event@),
        }
    }
}

impl EventModel {
    /// Tells whether the payload is the one that the type `kind` announces: a
    /// wallet type goes with a wallet payload of the shape that the type
    /// asks for, a token pair type with a token payload.
    pub open spec fn announced_by(self, kind: EventType) -> bool {
        match kind {
            EventType::Wallet(wallet) => self matches EventModel::Wallet(event)
                && event.payload() == EventType::payload_of(wallet),
            EventType::TokenPair(_) => self is Token,
        }
    }

    /// The JSON object of the payload: its family as the key.
    pub open spec fn json(self) -> JsonModel {
        match self {
            EventModel::Wallet(event) => tagged("Wallet"@, event.json()),
            EventModel::Token(event) => tagged("Token"@, event.json()),
        }
    }

    /// The payload that a JSON value holds for an event of type `kind`. The
    /// type decides what is read: the family that the value must carry as its
    /// tag and, for a wallet event, the one shape of the payload.
    pub open spec fn decoded_for(kind: EventType, value: JsonModel, mode: Mode) -> Result<
        EventModel,
        Fault,
    > {
        match kind {
            EventType::Wallet(wallet) => match expected(value, "Wallet"@) {
                Err(fault) => Err(fault),
                Ok(payload) => match WalletEventModel::decoded_as(
                    EventType::payload_of(wallet),
                    payload,
                    mode,
                ) {
                    Ok(event) => Ok(EventModel::Wallet(event)),
                    Err(fault) => Err(fault),
                },
            },
            EventType::TokenPair(_) => match expected(value, "Token"@) {
                Err(fault) => Err(fault),
                Ok(payload) => match TransferAuditModel::decoded(payload, mode) {
                    Ok(event) => Ok(EventModel::Token(event)),
                    Err(fault) => Err(fault),
                },
            },
        }
    }

    /// A payload that was written is read back under the type that announces
    /// it.
    pub proof fn lemma_round_trip(self, kind: EventType, mode: Mode)
        requires
            self.announced_by(kind),
        ensures
            Self::decoded_for(kind, self.json(), mode) == Ok::<EventModel, Fault>(self),
    {
        match self {
            EventModel::Wallet(event) => event.lemma_round_trip(mode),
            EventModel::Token(event) => {},
        }
    }

    /// Whatever is read for a type is a payload that the type announces.
    pub proof fn lemma_dispatch(kind: EventType, value: JsonModel, mode: Mode)
        ensures
            Self::decoded_for(kind, value, mode) matches Ok(event) ==> event.announced_by(kind),
    {
    }

    /// A payload under a type that does not announce it is refused, whatever
    /// its fields hold: a token payload under a wallet type, a wallet payload
    /// under a token pair type, and a wallet payload of another shape than
    /// the type asks for.
    pub proof fn lemma_mismatch(self, kind: EventType, mode: Mode)
        requires
            !self.announced_by(kind),
        ensures
            Self::decoded_for(kind, self.json(), mode) == Err::<EventModel, Fault>(
                parse_fault(ParseKind::Event),
            ),
    {
        reveal_strlit("Wallet");
        reveal_strlit("Token");
        assert("Wallet"@.len() != "Token"@.len());
        match (kind, self) {
            (EventType::Wallet(wallet), EventModel::Wallet(event)) => {
                event.lemma_other_shape(EventType::payload_of(wallet), mode);
            },
            _ => {},
        }
    }
}

impl Event {
    /// Tells whether the payload is the one that the type `kind` announces.
    pub fn announced_by(&self, kind: EventType) -> (r: bool)
        ensures
            r == self@.announced_by(kind),
    {
        match kind {
            EventType::Wallet(wallet) => match self {
                Event::Wallet(event) => event.payload() == EventType::payload(wallet),
                Event::Token(_) => false,
            },
            EventType::TokenPair(_) => match self {
                Event::Wallet(_) => false,
                Event::Token(_) => true,
            },
        }
    }

    /// Reads the payload of an event of the type `kind`.
    pub fn decode_for(kind: EventType, json: &Json, mode: Mode) -> (r: Result<Event, Error>)
        ensures
            agrees(r, EventModel::decoded_for(kind, json@, mode)),
            r matches Ok(event) ==> event@.announced_by(kind),
    {
        match kind {
            EventType::Wallet(wallet) => {
                let payload = expect(json, "Wallet")?;
                let event = WalletEvent::decode_as(EventType::payload(wallet), payload, mode)?;
                Ok(Event::Wallet(event))
            },
            EventType::TokenPair(_) => {
                let payload = expect(json, "Token")?;
                let event = TransferAudit::decode(payload, mode)?;
                Ok(Event::Token(TokenEvent(event)))
            },
        }
    }
}

impl ToJson for Event {
    open spec fn json_of(model: EventModel) -> JsonModel {
        model.json()
    }

    /// Writes the payload as a JSON object: its family as the key.
    fn encode(&self) -> (json: Json) {
        match self {
            Event::Wallet(event) => tag("Wallet", event.encode()),
            Event::Token(event) => tag("Token", event.0.encode()),
        }
    }
}

/// The data of a notification: the type of an event and its payload.
///
/// The fields are open, so a value can be built without
/// [`NotificationData::new`]: [`NotificationData::validate`] tells whether the
/// type announces the payload. What is read from JSON always does.
#[derive(Clone, Debug, PartialEq, Eq)]
pub struct NotificationData {
    pub type_: EventType,
    pub data: Event,
}

/// The data of a notification as contracts see it.
pub ghost struct NotificationDataModel {
    pub type_: EventType,
    pub data: EventModel,
}

impl View for NotificationData {
    type V = NotificationDataModel;

    open spec fn view(&self) -> NotificationDataModel {
        NotificationDataModel { type_: self.type_, data: self.data@ }
    }
}

impl NotificationDataModel {
    /// The type announces the payload.
    pub open spec fn consistent(self) -> bool {
        self.data.announced_by(self.type_)
    }

    /// The keys of the data of a notification, in the order they are written.
    pub open spec fn keys() -> Seq<Seq<char>> {
        seq!["type"@, "data"@]
    }

    /// The JSON object of the data of a notification.
    pub open spec fn json(self) -> JsonModel {
        JsonModel::Object(seq![("type"@, self.type_.json()), ("data"@, self.data.json())])
    }

    /// What [`NotificationData::new`] gives for a type and a payload.
    pub open spec fn created(self) -> Result<NotificationDataModel, Fault> {
        if self.consistent() {
            Ok(self)
        } else {
            Err(parse_fault(ParseKind::Event))
        }
    }

    /// The data that a JSON value holds, or the first fault found: the value
    /// is no object, then (in strict mode) the first unknown key, then the
    /// type, then the payload read as the type announces it.
    pub open spec fn decoded(value: JsonModel, mode: Mode) -> Result<NotificationDataModel, Fault> {
        match opened(value, Self::keys(), mode) {
            Err(fault) => Err(fault),
            Ok(members) => match field::<EventType>(members, "type"@, mode) {
                Err(fault) => Err(fault),
                Ok(type_) => match required(members, "data"@) {
                    Err(fault) => Err(fault),
                    Ok(payload) => match EventModel::decoded_for(type_, payload, mode) {
                        Err(fault) => Err(fault),
                        Ok(data) => Ok(NotificationDataModel { type_, data }),
                    },
                },
            },
        }
    }

    /// In the object that writes the data both keys are known and are found
    /// with their values.
    pub proof fn lemma_members(self)
        ensures
            first_unknown(self.json()->Object_0, Self::keys()) is None,
            lookup(self.json()->Object_0, "type"@) == Some(self.type_.json()),
            lookup(self.json()->Object_0, "data"@) == Some(self.data.json()),
    {
        let members = self.json()->Object_0;
        reveal_strlit("type");
        reveal_strlit("data");
        assert("type"@[0] != "data"@[0]);
        assert(Self::keys()[0] == "type"@);
        assert(Self::keys()[1] == "data"@);
        lemma_all_known(members, Self::keys());
        lemma_lookup_at(members, "type"@, 0);
        lemma_lookup_at(members, "data"@, 1);
    }

    /// Data that was written is read back, if its type announces its payload.
    pub proof fn lemma_round_trip(self, mode: Mode)
        requires
            self.consistent(),
        ensures
            Self::decoded(self.json(), mode) == Ok::<NotificationDataModel, Fault>(self),
    {
        self.lemma_members();
        EventType::lemma_round_trip(self.type_, mode);
        self.data.lemma_round_trip(self.type_, mode);
    }

    /// Whatever is read is consistent: no JSON value gives a type with a
    /// payload that the type does not announce.
    pub proof fn lemma_consistent(value: JsonModel, mode: Mode)
        ensures
            Self::decoded(value, mode) matches Ok(data) ==> data.consistent(),
    {
    }

    /// Data whose type does not announce its payload is refused when it is
    /// read, as an event that is not the one announced.
    pub proof fn lemma_mismatch(self, mode: Mode)
        requires
            !self.consistent(),
        ensures
            Self::decoded(self.json(), mode) == Err::<NotificationDataModel, Fault>(
                parse_fault(ParseKind::Event),
            ),
    {
        self.lemma_members();
        EventType::lemma_round_trip(self.type_, mode);
        self.data.lemma_mismatch(self.type_, mode);
    }
}

impl NotificationData {
    /// Pairs a type with a payload, if the type announces the payload.
    pub fn new(type_: EventType, data: Event) -> (r: Result<NotificationData, Error>)
        ensures
            agrees(r, (NotificationDataModel { type_, data: data@ }).created()),
    {
        if data.announced_by(type_) {
            Ok(NotificationData { type_, data })
        } else {
            Err(Error::ParseError { reason: ParseReason::Event })
        }
    }

    /// Checks data that was built without [`NotificationData::new`].
    pub fn validate(&self) -> (r: Result<(), Error>)
        ensures
            match self@.created() {
                Ok(_) => r is Ok,
                Err(fault) => r matches Err(e) && e@ == fault,
            },
    {
        if self.data.announced_by(self.type_) {
            Ok(())
        } else {
            Err(Error::ParseError { reason: ParseReason::Event })
        }
    }

    /// The keys of the data of a notification.
    fn known() -> (keys: Vec<&'static str>)
        ensures
            names(keys@) == NotificationDataModel::keys(),
    {
        let mut keys: Vec<&'static str> = Vec::new();
        keys.push("type");
        keys.push("data");
        assert(names(keys@) =~= NotificationDataModel::keys());
        keys
    }
}

impl ToJson for NotificationData {
    open spec fn json_of(model: NotificationDataModel) -> JsonModel {
        model.json()
    }

    /// Writes the data as a JSON object with the keys `type` and `data`, in
    /// this order.
    fn encode(&self) -> (json: Json) {
        let mut members: Vec<(String, Json)> = Vec::new();
        members.push(member("type", self.type_.encode()));
        members.push(member("data", self.data.encode()));
        assert(members_model(members@) =~= self@.json()->Object_0);
        object(members)
    }
}

impl FromJson for NotificationData {
    open spec fn decoded(value: JsonModel, mode: Mode) -> Result<NotificationDataModel, Fault> {
        NotificationDataModel::decoded(value, mode)
    }

    open spec fn valid(model: NotificationDataModel) -> bool {
        model.consistent()
    }

    proof fn lemma_round_trip(model: NotificationDataModel, mode: Mode) {
        model.lemma_round_trip(mode);
    }

    /// Reads the data of a notification: the type first, then the payload as
    /// the type announces it.
    fn decode(json: &Json, mode: Mode) -> (r: Result<NotificationData, Error>) {
        let members = open(json, &NotificationData::known(), mode)?;
        let type_ = read_field::<EventType>(members, "type", mode)?;
        let data = Event::decode_for(type_, crate::codec::require(members, "data")?, mode)?;
        let value = NotificationData { type_, data };
        assert(Self::valid(value@));
        Ok(value)
    }
}

/// A request: an operation and its arguments.
#[derive(Clone, Debug, PartialEq, Eq)]
pub struct GenericRequest<Op, Args> {
    pub op: Op,
    pub args: Args,
}

/// The operation of a [`PingRequest`].
#[derive(Clone, Copy, Debug, PartialEq, Eq)]
pub struct PingOp;

/// A request that only keeps the connection alive.
pub type PingRequest = GenericRequest<PingOp, ()>;

/// The operation of an [`AckRequest`].
#[derive(Clone, Copy, Debug, PartialEq, Eq)]
pub struct AckOp;

/// A request that acknowledges the message with the given identifier.
pub type AckRequest = GenericRequest<AckOp, Uuid>;

/// The operation of a [`SubscribeRequest`].
#[derive(Clone, Copy, Debug, PartialEq, Eq)]
pub struct SubscribeOp;

/// A request to follow the given streams.
pub type SubscribeRequest = GenericRequest<SubscribeOp, Vec<String>>;

/// The operation of an [`UnsubscribeRequest`].
#[derive(Clone, Copy, Debug, PartialEq, Eq)]
pub struct UnsubscribeOp;

/// A request to follow the given streams no longer.
pub type UnsubscribeRequest = GenericRequest<UnsubscribeOp, Vec<String>>;

/// Any request: the operation and the arguments that go with it, in one.
#[derive(Clone, Debug, PartialEq, Eq)]
pub enum Request {
    Ping(PingRequest),
    Ack(AckRequest),
    Subscribe(SubscribeRequest),
    Unsubscribe(UnsubscribeRequest),
}

/// A request as contracts see it.
pub ghost enum RequestModel {
    Ping,
    Ack(u128),
    Subscribe(Seq<Seq<char>>),
    Unsubscribe(Seq<Seq<char>>),
}

impl View for Request {
    type V = RequestModel;

    open spec fn view(&self) -> RequestModel {
        match self {
            Request::Ping(_) => RequestModel::Ping,
            Request::Ack(request) => RequestModel::Ack(request.args@),
            Request::Subscribe(request) => RequestModel::Subscribe(models(request.args@)),
            Request::Unsubscribe(request) => RequestModel::Unsubscribe(models(request.args@)),
        }
    }
}

impl RequestModel {
    /// The operation of the request.
    pub open spec fn operation(self) -> Operation {
        match self {
            RequestModel::Ping => Operation::Ping,
            RequestModel::Ack(_) => Operation::Ack,
            RequestModel::Subscribe(_) => Operation::Subscribe,
            RequestModel::Unsubscribe(_) => Operation::Unsubscribe,
        }
    }

    /// The arguments of the request: `null` for a ping, the identifier for an
    /// acknowledgement, the streams for the other two.
    pub open spec fn arguments(self) -> JsonModel {
        match self {
            RequestModel::Ping => JsonModel::Null,
            RequestModel::Ack(id) => Uuid::json_of(id),
            RequestModel::Subscribe(streams) => list_json::<String>(streams),
            RequestModel::Unsubscribe(streams) => list_json::<String>(streams),
        }
    }

    /// The identifier of an acknowledgement has a text that reads back.
    pub open spec fn valid(self) -> bool {
        self matches RequestModel::Ack(id) ==> valid_uuid(id)
    }

    /// The keys of a request, in the order they are written.
    pub open spec fn keys() -> Seq<Seq<char>> {
        seq!["operation"@, "arguments"@]
    }

    /// The JSON object of a request.
    pub open spec fn json(self) -> JsonModel {
        JsonModel::Object(
            seq![("operation"@, self.operation().json()), ("arguments"@, self.arguments())],
        )
    }

    /// The request that an operation and the members of an object make. A
    /// ping takes no arguments: the key is absent or holds `null`.
    pub open spec fn assembled(operation: Operation, members: Members, mode: Mode) -> Result<
        RequestModel,
        Fault,
    > {
        match operation {
            Operation::Ping => match optional(members, "arguments"@) {
                None => Ok(RequestModel::Ping),
                Some(_) => Err(shape_fault(JsonKind::Null)),
            },
            Operation::Ack => match field::<Uuid>(members, "arguments"@, mode) {
                Ok(id) => Ok(RequestModel::Ack(id)),
                Err(fault) => Err(fault),
            },
            Operation::Subscribe => match list_field::<String>(members, "arguments"@, mode) {
                Ok(streams) => Ok(RequestModel::Subscribe(streams)),
                Err(fault) => Err(fault),
            },
            Operation::Unsubscribe => match list_field::<String>(members, "arguments"@, mode) {
                Ok(streams) => Ok(RequestModel::Unsubscribe(streams)),
                Err(fault) => Err(fault),
            },
        }
    }

    /// The request that a JSON value holds, or the first fault found: the
    /// value is no object, then (in strict mode) the first unknown key, then
    /// the operation, then the arguments that the operation asks for.
    pub open spec fn decoded(value: JsonModel, mode: Mode) -> Result<RequestModel, Fault> {
        match opened(value, Self::keys(), mode) {
            Err(fault) => Err(fault),
            Ok(members) => match required(members, "operation"@) {
                Err(fault) => Err(fault),
                Ok(name) => match Operation::read(name) {
                    Err(fault) => Err(fault),
                    Ok(operation) => Self::assembled(operation, members, mode),
                },
            },
        }
    }

    /// A request that was written is read back, in either mode.
    pub proof fn lemma_round_trip(self, mode: Mode)
        requires
            self.valid(),
        ensures
            Self::decoded(self.json(), mode) == Ok::<RequestModel, Fault>(self),
    {
        let members = self.json()->Object_0;
        reveal_strlit("operation");
        reveal_strlit("arguments");
        assert("operation"@[0] != "arguments"@[0]);
        assert(Self::keys()[0] == "operation"@);
        assert(Self::keys()[1] == "arguments"@);
        lemma_all_known(members, Self::keys());
        lemma_lookup_at(members, "operation"@, 0);
        lemma_lookup_at(members, "arguments"@, 1);
        self.operation().lemma_named();
        match self {
            RequestModel::Subscribe(streams) => lemma_list_round_trip::<String>(streams, mode),
            RequestModel::Unsubscribe(streams) => lemma_list_round_trip::<String>(streams, mode),
            _ => {},
        }
    }
}

impl Request {
    /// The request that keeps the connection alive.
    pub fn ping() -> (request: Request)
        ensures
            request@ == RequestModel::Ping,
    {
        Request::Ping(GenericRequest { op: PingOp, args: () })
    }

    /// The request that acknowledges the message `id`.
    pub fn ack(id: Uuid) -> (request: Request)
        ensures
            request@ == RequestModel::Ack(id@),
    {
        Request::Ack(GenericRequest { op: AckOp, args: id })
    }

    /// The request to follow `streams`.
    pub fn subscribe(streams: Vec<String>) -> (request: Request)
        ensures
            request@ == RequestModel::Subscribe(models(streams@)),
    {
        Request::Subscribe(GenericRequest { op: SubscribeOp, args: streams })
    }

    /// The request to follow `streams` no longer.
    pub fn unsubscribe(streams: Vec<String>) -> (request: Request)
        ensures
            request@ == RequestModel::Unsubscribe(models(streams@)),
    {
        Request::Unsubscribe(GenericRequest { op: UnsubscribeOp, args: streams })
    }

    /// The operation of the request.
    pub fn operation(&self) -> (operation: Operation)
        ensures
            operation == self@.operation(),
    {
        match self {
            Request::Ping(_) => Operation::Ping,
            Request::Ack(_) => Operation::Ack,
            Request::Subscribe(_) => Operation::Subscribe,
            Request::Unsubscribe(_) => Operation::Unsubscribe,
        }
    }

    /// The keys of a request.
    fn known() -> (keys: Vec<&'static str>)
        ensures
            names(keys@) == RequestModel::keys(),
    {
        let mut keys: Vec<&'static str> = Vec::new();
        keys.push("operation");
        keys.push("arguments");
        assert(names(keys@) =~= RequestModel::keys());
        keys
    }
}

impl ToJson for Request {
    open spec fn json_of(model: RequestModel) -> JsonModel {
        model.json()
    }

    /// Writes the request as a JSON object with the keys `operation` and
    /// `arguments`, in this order.
    fn encode(&self) -> (json: Json) {
        let arguments = match self {
            Request::Ping(_) => Json::Null,
            Request::Ack(request) => request.args.encode(),
            Request::Subscribe(request) => write_list(&request.args),
            Request::Unsubscribe(request) => write_list(&request.args),
        };
        let mut members: Vec<(String, Json)> = Vec::new();
        members.push(member("operation", self.operation().encode()));
        members.push(member("arguments", arguments));
        assert(members_model(members@) =~= self@.json()->Object_0);
        object(members)
    }
}

impl FromJson for Request {
    open spec fn decoded(value: JsonModel, mode: Mode) -> Result<RequestModel, Fault> {
        RequestModel::decoded(value, mode)
    }

    open spec fn valid(model: RequestModel) -> bool {
        model.valid()
    }

    proof fn lemma_round_trip(model: RequestModel, mode: Mode) {
        model.lemma_round_trip(mode);
    }

    /// Reads a request from a JSON object.
    fn decode(json: &Json, mode: Mode) -> (r: Result<Request, Error>) {
        let members = open(json, &Request::known(), mode)?;
        let operation = read_field::<Operation>(members, "operation", mode)?;
        let request = match operation {
            Operation::Ping => match permit(members, "arguments") {
                None => Request::ping(),
                Some(_) => {
                    return Err(Error::shape(JsonKind::Null));
                },
            },
            Operation::Ack => Request::ack(read_field::<Uuid>(members, "arguments", mode)?),
            Operation::Subscribe => Request::subscribe(
                read_list_field::<String>(members, "arguments", mode)?,
            ),
            Operation::Unsubscribe => Request::unsubscribe(
                read_list_field::<String>(members, "arguments", mode)?,
            ),
        };
        assert(Self::valid(request@));
        Ok(request)
    }
}

/// A message of the hub: its type, the identifier by which it is matched to
/// what it answers, and its data.
#[derive(Clone, Debug, PartialEq, Eq)]
pub struct GenericResponse<Type, Data> {
    pub type_: Type,
    pub uuid: Uuid,
    pub data: Data,
}

/// The type of an [`ErrorResponse`].
#[derive(Clone, Copy, Debug, PartialEq, Eq)]
pub struct ErrorType;

/// The data of an [`ErrorResponse`]: a message and the request at fault.
#[derive(Clone, Debug, PartialEq, Eq)]
pub struct ErrorData<Req> {
    pub message: String,
    pub cause: Req,
}

/// The message with which the hub refuses a request. It is a message like
/// the others: the connection stays up.
pub type ErrorResponse<Req> = GenericResponse<ErrorType, ErrorData<Req>>;

/// The type of a [`NotificationResponse`].
#[derive(Clone, Copy, Debug, PartialEq, Eq)]
pub struct NotificationType;

/// The message with which the hub announces an event.
pub type NotificationResponse = GenericResponse<NotificationType, NotificationData>;

/// The type of a [`Response`].
#[derive(Clone, Copy, Debug, PartialEq, Eq)]
pub struct ResponseType;

/// The message with which the hub answers a request.
pub type Response<Data> = GenericResponse<ResponseType, Data>;

/// The data of an answer: the operation that is answered and the streams it
/// was about.
#[derive(Clone, Debug, PartialEq, Eq)]
pub struct StreamData<Op> {
    pub op: Op,
    pub stream: Vec<String>,
}

/// The data of a [`SubscribeResponse`].
pub type SubscribeData = StreamData<SubscribeOp>;

/// The answer to a [`SubscribeRequest`].
pub type SubscribeResponse = Response<SubscribeData>;

/// The data of an [`UnsubscribeResponse`].
pub type UnsubscribeData = StreamData<UnsubscribeOp>;

/// The answer to an [`UnsubscribeRequest`].
pub type UnsubscribeResponse = Response<UnsubscribeData>;

/// Any message of the hub.
#[derive(Clone, Debug, PartialEq, Eq)]
pub enum Message {
    Error(ErrorResponse<Request>),
    Notification(NotificationResponse),
    Ping(Response<StreamData<PingOp>>),
    Ack(Response<StreamData<AckOp>>),
    Subscribe(SubscribeResponse),
    Unsubscribe(UnsubscribeResponse),
}

/// The data of a message as contracts see it.
pub ghost enum BodyModel {
    Error { message: Seq<char>, cause: RequestModel },
    Notification(NotificationDataModel),
    Response { operation: Operation, stream: Seq<Seq<char>> },
}

/// A message as contracts see it.
pub ghost struct MessageModel {
    pub id: u128,
    pub body: BodyModel,
}

impl View for Message {
    type V = MessageModel;

    open spec fn view(&self) -> MessageModel {
        match self {
            Message::Error(message) => MessageModel {
                id: message.uuid@,
                body: BodyModel::Error {
                    message: message.data.message@,
                    cause: message.data.cause@,
                },
            },
            Message::Notification(message) => MessageModel {
                id: message.uuid@,
                body: BodyModel::Notification(message.data@),
            },
            Message::Ping(message) => MessageModel {
                id: message.uuid@,
                body: BodyModel::Response {
                    operation: Operation::Ping,
                    stream: models(message.data.stream@),
                },
            },
            Message::Ack(message) => MessageModel {
                id: message.uuid@,
                body: BodyModel::Response {
                    operation: Operation::Ack,
                    stream: models(message.data.stream@),
                },
            },
            Message::Subscribe(message) => MessageModel {
                id: message.uuid@,
                body: BodyModel::Response {
                    operation: Operation::Subscribe,
                    stream: models(message.data.stream@),
                },
            },
            Message::Unsubscribe(message) => MessageModel {
                id: message.uuid@,
                body: BodyModel::Response {
                    operation: Operation::Unsubscribe,
                    stream: models(message.data.stream@),
                },
            },
        }
    }
}

impl BodyModel {
    /// The kind of message that carries this data.
    pub open spec fn kind(self) -> MessageKind {
        match self {
            BodyModel::Error { .. } => MessageKind::Error,
            BodyModel::Notification(_) => MessageKind::Notification,
            BodyModel::Response { .. } => MessageKind::Response,
        }
    }

    /// The request at fault is valid, and the type of an event announces its
    /// payload.
    pub open spec fn valid(self) -> bool {
        match self {
            BodyModel::Error { cause, .. } => cause.valid(),
            BodyModel::Notification(data) => data.consistent(),
            BodyModel::Response { .. } => true,
        }
    }

    /// The keys of the data of an error.
    pub open spec fn error_keys() -> Seq<Seq<char>> {
        seq!["message"@, "cause"@]
    }

    /// The keys of the data of an answer.
    pub open spec fn response_keys() -> Seq<Seq<char>> {
        seq!["op"@, "stream"@]
    }

    /// The JSON object of the data.
    pub open spec fn json(self) -> JsonModel {
        match self {
            BodyModel::Error { message, cause } => JsonModel::Object(
                seq![("message"@, JsonModel::Text(message)), ("cause"@, cause.json())],
            ),
            BodyModel::Notification(data) => data.json(),
            BodyModel::Response { operation, stream } => JsonModel::Object(
                seq![("op"@, operation.json()), ("stream"@, list_json::<String>(stream))],
            ),
        }
    }

    /// The data of an error that a JSON value holds.
    pub open spec fn decoded_error(value: JsonModel, mode: Mode) -> Result<BodyModel, Fault> {
        match opened(value, Self::error_keys(), mode) {
            Err(fault) => Err(fault),
            Ok(members) => match field::<String>(members, "message"@, mode) {
                Err(fault) => Err(fault),
                Ok(message) => match required(members, "cause"@) {
                    Err(fault) => Err(fault),
                    Ok(request) => match RequestModel::decoded(request, mode) {
                        Err(fault) => Err(fault),
                        Ok(cause) => Ok(BodyModel::Error { message, cause }),
                    },
                },
            },
        }
    }

    /// The data of an answer that a JSON value holds.
    pub open spec fn decoded_response(value: JsonModel, mode: Mode) -> Result<BodyModel, Fault> {
        match opened(value, Self::response_keys(), mode) {
            Err(fault) => Err(fault),
            Ok(members) => match required(members, "op"@) {
                Err(fault) => Err(fault),
                Ok(name) => match Operation::read(name) {
                    Err(fault) => Err(fault),
                    Ok(operation) => match list_field::<String>(members, "stream"@, mode) {
                        Err(fault) => Err(fault),
                        Ok(stream) => Ok(BodyModel::Response { operation, stream }),
                    },
                },
            },
        }
    }

    /// The data that a JSON value holds for a message of the kind `kind`: the
    /// kind decides which shape is read.
    pub open spec fn decoded_as(kind: MessageKind, value: JsonModel, mode: Mode) -> Result<
        BodyModel,
        Fault,
    > {
        match kind {
            MessageKind::Error => Self::decoded_error(value, mode),
            MessageKind::Notification => match NotificationDataModel::decoded(value, mode) {
                Ok(data) => Ok(BodyModel::Notification(data)),
                Err(fault) => Err(fault),
            },
            MessageKind::Response => Self::decoded_response(value, mode),
        }
    }

    /// Data that was written is read back under its own kind.
    pub proof fn lemma_round_trip(self, mode: Mode)
        requires
            self.valid(),
        ensures
            Self::decoded_as(self.kind(), self.json(), mode) == Ok::<BodyModel, Fault>(self),
    {
        match self {
            BodyModel::Error { message, cause } => {
                let members = self.json()->Object_0;
                reveal_strlit("message");
                reveal_strlit("cause");
                assert("message"@[0] != "cause"@[0]);
                assert(Self::error_keys()[0] == "message"@);
                assert(Self::error_keys()[1] == "cause"@);
                lemma_all_known(members, Self::error_keys());
                lemma_lookup_at(members, "message"@, 0);
                lemma_lookup_at(members, "cause"@, 1);
                cause.lemma_round_trip(mode);
            },
            BodyModel::Notification(data) => {
                data.lemma_round_trip(mode);
            },
            BodyModel::Response { operation, stream } => {
                let members = self.json()->Object_0;
                reveal_strlit("op");
                reveal_strlit("stream");
                assert("op"@[0] != "stream"@[0]);
                assert(Self::response_keys()[0] == "op"@);
                assert(Self::response_keys()[1] == "stream"@);
                lemma_all_known(members, Self::response_keys());
                lemma_lookup_at(members, "op"@, 0);
                lemma_lookup_at(members, "stream"@, 1);
                operation.lemma_named();
                lemma_list_round_trip::<String>(stream, mode);
            },
        }
    }
}

impl MessageModel {
    /// The identifier has a text that reads back, and the data is valid.
    pub open spec fn valid(self) -> bool {
        valid_uuid(self.id) && self.body.valid()
    }

    /// The keys of a message, in the order they are written.
    pub open spec fn keys() -> Seq<Seq<char>> {
        seq!["type"@, "id"@, "data"@]
    }

    /// The JSON object of a message.
    pub open spec fn json(self) -> JsonModel {
        JsonModel::Object(
            seq![
                ("type"@, self.body.kind().json()),
                ("id"@, Uuid::json_of(self.id)),
                ("data"@, self.body.json()),
            ],
        )
    }

    /// The message that a JSON value holds, or the first fault found: the
    /// value is no object, then (in strict mode) the first unknown key, then
    /// the type, the identifier, and the data read as the type asks.
    pub open spec fn decoded(value: JsonModel, mode: Mode) -> Result<MessageModel, Fault> {
        match opened(value, Self::keys(), mode) {
            Err(fault) => Err(fault),
            Ok(members) => match required(members, "type"@) {
                Err(fault) => Err(fault),
                Ok(name) => match MessageKind::read(name) {
                    Err(fault) => Err(fault),
                    Ok(kind) => match required(members, "id"@) {
                        Err(fault) => Err(fault),
                        Ok(identifier) => match Uuid::decoded(identifier, mode) {
                            Err(fault) => Err(fault),
                            Ok(id) => match required(members, "data"@) {
                                Err(fault) => Err(fault),
                                Ok(data) => match BodyModel::decoded_as(kind, data, mode) {
                                    Err(fault) => Err(fault),
                                    Ok(body) => Ok(MessageModel { id, body }),
                                },
                            },
                        },
                    },
                },
            },
        }
    }

    /// A message that was written is read back, in either mode.
    pub proof fn lemma_round_trip(self, mode: Mode)
        requires
            self.valid(),
        ensures
            Self::decoded(self.json(), mode) == Ok::<MessageModel, Fault>(self),
    {
        let members = self.json()->Object_0;
        reveal_strlit("type");
        reveal_strlit("id");
        reveal_strlit("data");
        assert("type"@[0] != "data"@[0]);
        assert("type"@.len() != "id"@.len());
        assert("id"@.len() != "data"@.len());
        assert(Self::keys()[0] == "type"@);
        assert(Self::keys()[1] == "id"@);
        assert(Self::keys()[2] == "data"@);
        lemma_all_known(members, Self::keys());
        lemma_lookup_at(members, "type"@, 0);
        lemma_lookup_at(members, "id"@, 1);
        lemma_lookup_at(members, "data"@, 2);
        self.body.kind().lemma_named();
        self.body.lemma_round_trip(mode);
    }

    /// No message that is read carries an event under a type that does not
    /// announce it.
    pub proof fn lemma_consistent(value: JsonModel, mode: Mode)
        ensures
            Self::decoded(value, mode) matches Ok(message) ==> (message.body matches BodyModel::Notification(
                data,
            ) ==> data.consistent()),
    {
    }
}

/// Builds the data of an answer.
fn stream_data<Op>(op: Op, stream: Vec<String>) -> (data: StreamData<Op>)
    ensures
        data.op == op,
        data.stream == stream,
{
    StreamData { op, stream }
}

impl Message {
    /// The identifier by which the message is matched to what it answers.
    pub fn id(&self) -> (id: Uuid)
        ensures
            id@ == self@.id,
    {
        match self {
            Message::Error(message) => message.uuid,
            Message::Notification(message) => message.uuid,
            Message::Ping(message) => message.uuid,
            Message::Ack(message) => message.uuid,
            Message::Subscribe(message) => message.uuid,
            Message::Unsubscribe(message) => message.uuid,
        }
    }

    /// The kind of the message.
    pub fn kind(&self) -> (kind: MessageKind)
        ensures
            kind == self@.body.kind(),
    {
        match self {
            Message::Error(_) => MessageKind::Error,
            Message::Notification(_) => MessageKind::Notification,
            _ => MessageKind::Response,
        }
    }

    /// The answer to the operation `operation` about the streams `stream`.
    pub fn response(operation: Operation, uuid: Uuid, stream: Vec<String>) -> (message: Message)
        ensures
            message@ == (MessageModel {
                id: uuid@,
                body: BodyModel::Response { operation, stream: models(stream@) },
            }),
    {
        match operation {
            Operation::Ping => Message::Ping(
                GenericResponse { type_: ResponseType, uuid, data: stream_data(PingOp, stream) },
            ),
            Operation::Ack => Message::Ack(
                GenericResponse { type_: ResponseType, uuid, data: stream_data(AckOp, stream) },
            ),
            Operation::Subscribe => Message::Subscribe(
                GenericResponse {
                    type_: ResponseType,
                    uuid,
                    data: stream_data(SubscribeOp, stream),
                },
            ),
            Operation::Unsubscribe => Message::Unsubscribe(
                GenericResponse {
                    type_: ResponseType,
                    uuid,
                    data: stream_data(UnsubscribeOp, stream),
                },
            ),
        }
    }

    /// Writes the data of an answer.
    fn encode_response(operation: Operation, stream: &Vec<String>) -> (json: Json)
        ensures
            json@ == (BodyModel::Response { operation, stream: models(stream@) }).json(),
    {
        let mut members: Vec<(String, Json)> = Vec::new();
        members.push(member("op", operation.encode()));
        members.push(member("stream", write_list(stream)));
        assert(members_model(members@) =~= (BodyModel::Response {
            operation,
            stream: models(stream@),
        }).json()->Object_0);
        object(members)
    }

    /// Writes the data of the message.
    fn encode_data(&self) -> (json: Json)
        ensures
            json@ == self@.body.json(),
    {
        match self {
            Message::Error(message) => {
                let mut members: Vec<(String, Json)> = Vec::new();
                members.push(member("message", Json::Text(message.data.message.clone())));
                members.push(member("cause", message.data.cause.encode()));
                assert(members_model(members@) =~= self@.body.json()->Object_0);
                object(members)
            },
            Message::Notification(message) => message.data.encode(),
            Message::Ping(message) => Message::encode_response(
                Operation::Ping,
                &message.data.stream,
            ),
            Message::Ack(message) => Message::encode_response(Operation::Ack, &message.data.stream),
            Message::Subscribe(message) => Message::encode_response(
                Operation::Subscribe,
                &message.data.stream,
            ),
            Message::Unsubscribe(message) => Message::encode_response(
                Operation::Unsubscribe,
                &message.data.stream,
            ),
        }
    }

    /// Reads the data of a message of the kind `kind`.
    fn decode_data(kind: MessageKind, uuid: Uuid, json: &Json, mode: Mode) -> (r: Result<
        Message,
        Error,
    >)
        ensures
            match BodyModel::decoded_as(kind, json@, mode) {
                Ok(body) => r matches Ok(message) && message@ == (MessageModel { id: uuid@, body }),
                Err(fault) => r matches Err(e) && e@ == fault,
            },
            r matches Ok(message) ==> message@.body.valid(),
    {
        match kind {
            MessageKind::Error => {
                let mut keys: Vec<&'static str> = Vec::new();
                keys.push("message");
                keys.push("cause");
                assert(names(keys@) =~= BodyModel::error_keys());
                let members = open(json, &keys, mode)?;
                let message = read_field::<String>(members, "message", mode)?;
                let cause = read_field::<Request>(members, "cause", mode)?;
                Ok(
                    Message::Error(
                        GenericResponse { type_: ErrorType, uuid, data: ErrorData { message, cause } },
                    ),
                )
            },
            MessageKind::Notification => {
                let data = NotificationData::decode(json, mode)?;
                assert(NotificationData::valid(data@) == data@.consistent());
                Ok(Message::Notification(GenericResponse { type_: NotificationType, uuid, data }))
            },
            MessageKind::Response => {
                let mut keys: Vec<&'static str> = Vec::new();
                keys.push("op");
                keys.push("stream");
                assert(names(keys@) =~= BodyModel::response_keys());
                let members = open(json, &keys, mode)?;
                let operation = read_field::<Operation>(members, "op", mode)?;
                let stream = read_list_field::<String>(members, "stream", mode)?;
                Ok(Message::response(operation, uuid, stream))
            },
        }
    }
}

impl ToJson for Message {
    open spec fn json_of(model: MessageModel) -> JsonModel {
        model.json()
    }

    /// Writes the message as a JSON object with the keys `type`, `id` and
    /// `data`, in this order.
    fn encode(&self) -> (json: Json) {
        let mut members: Vec<(String, Json)> = Vec::new();
        members.push(member("type", self.kind().encode()));
        members.push(member("id", self.id().encode()));
        members.push(member("data", self.encode_data()));
        assert(members_model(members@) =~= self@.json()->Object_0);
        object(members)
    }
}

impl FromJson for Message {
    open spec fn decoded(value: JsonModel, mode: Mode) -> Result<MessageModel, Fault> {
        MessageModel::decoded(value, mode)
    }

    open spec fn valid(model: MessageModel) -> bool {
        model.valid()
    }

    proof fn lemma_round_trip(model: MessageModel, mode: Mode) {
        model.lemma_round_trip(mode);
    }

    /// Reads a message: the type first, then the identifier, then the data as
    /// the type asks.
    fn decode(json: &Json, mode: Mode) -> (r: Result<Message, Error>) {
        let mut keys: Vec<&'static str> = Vec::new();
        keys.push("type");
        keys.push("id");
        keys.push("data");
        assert(names(keys@) =~= MessageModel::keys());
        let members = open(json, &keys, mode)?;
        let kind = read_field::<MessageKind>(members, "type", mode)?;
        let uuid = read_field::<Uuid>(members, "id", mode)?;
        let message = Message::decode_data(kind, uuid, crate::codec::require(members, "data")?, mode)?;
        assert(Self::valid(message@));
        Ok(message)
    }
}

} // verus!
