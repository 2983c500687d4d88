//! The models of the HTTP audit API.

use crate::codec::member;
use crate::error::{Error, Fault};
use crate::json::{
    first_unknown, lemma_all_known, lemma_lookup_at, lookup, members_model, names, object, open,
    opened, Json, JsonModel, Members, Mode,
};
use crate::model::traits::{
    all_valid, field, lemma_list_round_trip, lemma_optional_round_trip, list_field, list_json,
    models, option_model, optional_field, optional_json, read_field, read_list_field,
    read_optional, valid_if_some, write_list, write_optional, FromJson, ToJson,
};
pub use crate::model::common::{
    ActiveState, DeliveryProof, MatchedAmounts, MerkleProof, Token, TransferAudit, Withdrawal,
    WithdrawalRequest,
};
use crate::model::common::{
    Block, DateTime, DeliveryProofModel, MatchedAmountsModel, MerkleProofModel, SenderActiveState,
    SenderActiveStateModel, TransferAuditModel, Uri, Uuid, Wallet, WalletModel, WithdrawalModel,
    WithdrawalRequestModel, BlockModel,
};
use vstd::prelude::*;

verus! {

/// The blocks that the hub has confirmed, and the latest one.
#[derive(Clone, Debug, PartialEq, Eq)]
pub struct Blocks {
    pub confirmed: Vec<Block>,
    pub latest: Block,
}

/// A blocks summary as contracts see it.
pub ghost struct BlocksModel {
    pub confirmed: Seq<BlockModel>,
    pub latest: BlockModel,
}

impl View for Blocks {
    type V = BlocksModel;

    open spec fn view(&self) -> BlocksModel {
        BlocksModel {
            confirmed: models(self.confirmed@),
            latest: self.latest@,
        }
    }
}

impl BlocksModel {
    /// The keys of a blocks summary, in the order they are written.
    pub open spec fn keys() -> Seq<Seq<char>> {
        seq![
            "confirmed"@,
            "latest"@,
        ]
    }

    /// The JSON object of a blocks summary.
    pub open spec fn json(self) -> JsonModel {
        JsonModel::Object(
            seq![
                ("confirmed"@, list_json::<Block>(self.confirmed)),
                ("latest"@, Block::json_of(self.latest)),
            ],
        )
    }

    /// Every part of the blocks summary is valid.
    pub open spec fn valid(self) -> bool {
        &&& all_valid::<Block>(self.confirmed)
        &&& Block::valid(self.latest)
    }

    /// The blocks summary that the members of an object make, or the fault of the
    /// first field, in the order of [`Self::keys`], that has one.
    pub open spec fn assembled(members: Members, mode: Mode) -> Result<BlocksModel, Fault> {
        let confirmed = list_field::<Block>(members, "confirmed"@, mode);
        let latest = field::<Block>(members, "latest"@, mode);
        if confirmed is Err {
            Err(confirmed->Err_0)
        } else if latest is Err {
            Err(latest->Err_0)
        } else {
            Ok(
                BlocksModel {
                    confirmed: confirmed->Ok_0,
                    latest: latest->Ok_0,
                },
            )
        }
    }

    /// The blocks summary that a JSON value holds, or the first fault found: the
    /// value is no object, then (in strict mode) the first unknown key, then
    /// the fields in the order of [`Self::keys`].
    pub open spec fn decoded(value: JsonModel, mode: Mode) -> Result<BlocksModel, Fault> {
        match opened(value, Self::keys(), mode) {
            Err(fault) => Err(fault),
            Ok(members) => Self::assembled(members, mode),
        }
    }

    /// In the object that writes a blocks summary every key is known and is found
    /// with the value of its field.
    pub proof fn lemma_members(self)
        ensures
            self.json() is Object,
            first_unknown(self.json()->Object_0, Self::keys()) is None,
            lookup(self.json()->Object_0, "confirmed"@) == Some(list_json::<Block>(self.confirmed)),
            lookup(self.json()->Object_0, "latest"@) == Some(Block::json_of(self.latest)),
    {
        let members = self.json()->Object_0;
        reveal_strlit("confirmed");
        reveal_strlit("latest");
        assert("confirmed"@.len() == 9);
        assert("latest"@.len() == 6);
        assert(Self::keys()[0] == "confirmed"@);
        assert(Self::keys()[1] == "latest"@);
        lemma_all_known(members, Self::keys());
        lemma_lookup_at(members, "confirmed"@, 0);
        lemma_lookup_at(members, "latest"@, 1);
    }

    /// A valid blocks summary that was written is read back, in either mode.
    pub proof fn lemma_round_trip(self, mode: Mode)
        requires
            self.valid(),
        ensures
            Self::decoded(self.json(), mode) == Ok::<BlocksModel, Fault>(self),
    {
        self.lemma_members();
        lemma_list_round_trip::<Block>(self.confirmed, mode);
        Block::lemma_round_trip(self.latest, mode);
    }
}

impl Blocks {
    /// The keys of a blocks summary.
    fn known() -> (keys: Vec<&'static str>)
        ensures
            names(keys@) == BlocksModel::keys(),
    {
        let mut keys: Vec<&'static str> = Vec::new();
        keys.push("confirmed");
        keys.push("latest");
        assert(names(keys@) =~= BlocksModel::keys());
        keys
    }
}

impl ToJson for Blocks {
    open spec fn json_of(model: BlocksModel) -> JsonModel {
        model.json()
    }

    /// Writes the blocks summary as a JSON object with the keys `confirmed`
    /// and `latest`, in this order.
    fn encode(&self) -> (json: Json) {
        let mut members: Vec<(String, Json)> = Vec::new();
        members.push(member("confirmed", write_list(&self.confirmed)));
        members.push(member("latest", self.latest.encode()));
        assert(members_model(members@) =~= self@.json()->Object_0);
        object(members)
    }
}

impl FromJson for Blocks {
    open spec fn decoded(value: JsonModel, mode: Mode) -> Result<BlocksModel, Fault> {
        BlocksModel::decoded(value, mode)
    }

    open spec fn valid(model: BlocksModel) -> bool {
        model.valid()
    }

    proof fn lemma_round_trip(model: BlocksModel, mode: Mode) {
        model.lemma_round_trip(mode);
    }

    /// Reads a blocks summary from a JSON object.
    fn decode(json: &Json, mode: Mode) -> (r: Result<Blocks, Error>) {
        let members = open(json, &Blocks::known(), mode)?;
        let confirmed = read_list_field::<Block>(members, "confirmed", mode)?;
        let latest = read_field::<Block>(members, "latest", mode)?;
        let value = Blocks {
            confirmed,
            latest,
        };
        assert(Self::valid(value@));
        Ok(value)
    }
}

/// An order of the order book.
#[derive(Clone, Debug, PartialEq, Eq)]
pub struct SwapAudit {
    pub amount: u64,
    pub amount_swapped: u64,
    pub remaining_in: u64,
    pub remaining_out: u64,
}

/// A swap order as contracts see it.
pub ghost struct SwapAuditModel {
    pub amount: u64,
    pub amount_swapped: u64,
    pub remaining_in: u64,
    pub remaining_out: u64,
}

impl View for SwapAudit {
    type V = SwapAuditModel;

    open spec fn view(&self) -> SwapAuditModel {
        SwapAuditModel {
            amount: self.amount@,
            amount_swapped: self.amount_swapped@,
            remaining_in: self.remaining_in@,
            remaining_out: self.remaining_out@,
        }
    }
}

impl SwapAuditModel {
    /// The keys of a swap order, in the order they are written.
    pub open spec fn keys() -> Seq<Seq<char>> {
        seq![
            "amount"@,
            "amount_swapped"@,
            "remaining_in"@,
            "remaining_out"@,
        ]
    }

    /// The JSON object of a swap order.
    pub open spec fn json(self) -> JsonModel {
        JsonModel::Object(
            seq![
                ("amount"@, u64::json_of(self.amount)),
                ("amount_swapped"@, u64::json_of(self.amount_swapped)),
                ("remaining_in"@, u64::json_of(self.remaining_in)),
                ("remaining_out"@, u64::json_of(self.remaining_out)),
            ],
        )
    }

    /// Every part of the swap order is valid.
    pub open spec fn valid(self) -> bool {
        &&& u64::valid(self.amount)
        &&& u64::valid(self.amount_swapped)
        &&& u64::valid(self.remaining_in)
        &&& u64::valid(self.remaining_out)
    }

    /// The swap order that the members of an object make, or the fault of the
    /// first field, in the order of [`Self::keys`], that has one.
    pub open spec fn assembled(members: Members, mode: Mode) -> Result<SwapAuditModel, Fault> {
        let amount = field::<u64>(members, "amount"@, mode);
        let amount_swapped = field::<u64>(members, "amount_swapped"@, mode);
        let remaining_in = field::<u64>(members, "remaining_in"@, mode);
        let remaining_out = field::<u64>(members, "remaining_out"@, mode);
        if amount is Err {
            Err(amount->Err_0)
        } else if amount_swapped is Err {
            Err(amount_swapped->Err_0)
        } else if remaining_in is Err {
            Err(remaining_in->Err_0)
        } else if remaining_out is Err {
            Err(remaining_out->Err_0)
        } else {
            Ok(
                SwapAuditModel {
                    amount: amount->Ok_0,
                    amount_swapped: amount_swapped->Ok_0,
                    remaining_in: remaining_in->Ok_0,
                    remaining_out: remaining_out->Ok_0,
                },
            )
        }
    }

    /// The swap order that a JSON value holds, or the first fault found: the
    /// value is no object, then (in strict mode) the first unknown key, then
    /// the fields in the order of [`Self::keys`].
    pub open spec fn decoded(value: JsonModel, mode: Mode) -> Result<SwapAuditModel, Fault> {
        match opened(value, Self::keys(), mode) {
            Err(fault) => Err(fault),
            Ok(members) => Self::assembled(members, mode),
        }
    }

    /// In the object that writes a swap order every key is known and is found
    /// with the value of its field.
    pub proof fn lemma_members(self)
        ensures
            self.json() is Object,
            first_unknown(self.json()->Object_0, Self::keys()) is None,
            lookup(self.json()->Object_0, "amount"@) == Some(u64::json_of(self.amount)),
            lookup(self.json()->Object_0, "amount_swapped"@) == Some(
                u64::json_of(self.amount_swapped),
            ),
            lookup(self.json()->Object_0, "remaining_in"@) == Some(u64::json_of(self.remaining_in)),
            lookup(self.json()->Object_0, "remaining_out"@) == Some(
                u64::json_of(self.remaining_out),
            ),
    {
        let members = self.json()->Object_0;
        reveal_strlit("amount");
        reveal_strlit("amount_swapped");
        reveal_strlit("remaining_in");
        reveal_strlit("remaining_out");
        assert("amount"@.len() == 6);
        assert("amount_swapped"@.len() == 14);
        assert("remaining_in"@.len() == 12);
        assert("remaining_out"@.len() == 13);
        assert(Self::keys()[0] == "amount"@);
        assert(Self::keys()[1] == "amount_swapped"@);
        assert(Self::keys()[2] == "remaining_in"@);
        assert(Self::keys()[3] == "remaining_out"@);
        lemma_all_known(members, Self::keys());
        lemma_lookup_at(members, "amount"@, 0);
        lemma_lookup_at(members, "amount_swapped"@, 1);
        lemma_lookup_at(members, "remaining_in"@, 2);
        lemma_lookup_at(members, "remaining_out"@, 3);
    }

    /// A valid swap order that was written is read back, in either mode.
    pub proof fn lemma_round_trip(self, mode: Mode)
        requires
            self.valid(),
        ensures
            Self::decoded(self.json(), mode) == Ok::<SwapAuditModel, Fault>(self),
    {
        self.lemma_members();
        u64::lemma_round_trip(self.amount, mode);
        u64::lemma_round_trip(self.amount_swapped, mode);
        u64::lemma_round_trip(self.remaining_in, mode);
        u64::lemma_round_trip(self.remaining_out, mode);
    }
}

impl SwapAudit {
    /// The keys of a swap order.
    fn known() -> (keys: Vec<&'static str>)
        ensures
            names(keys@) == SwapAuditModel::keys(),
    {
        let mut keys: Vec<&'static str> = Vec::new();
        keys.push("amount");
        keys.push("amount_swapped");
        keys.push("remaining_in");
        keys.push("remaining_out");
        assert(names(keys@) =~= SwapAuditModel::keys());
        keys
    }
}

impl ToJson for SwapAudit {
    open spec fn json_of(model: SwapAuditModel) -> JsonModel {
        model.json()
    }

    /// Writes the swap order as a JSON object with the keys `amount`,
    /// `amount_swapped`, `remaining_in` and `remaining_out`, in this order.
    fn encode(&self) -> (json: Json) {
        let mut members: Vec<(String, Json)> = Vec::new();
        members.push(member("amount", self.amount.encode()));
        members.push(member("amount_swapped", self.amount_swapped.encode()));
        members.push(member("remaining_in", self.remaining_in.encode()));
        members.push(member("remaining_out", self.remaining_out.encode()));
        assert(members_model(members@) =~= self@.json()->Object_0);
        object(members)
    }
}

impl FromJson for SwapAudit {
    open spec fn decoded(value: JsonModel, mode: Mode) -> Result<SwapAuditModel, Fault> {
        SwapAuditModel::decoded(value, mode)
    }

    open spec fn valid(model: SwapAuditModel) -> bool {
        model.valid()
    }

    proof fn lemma_round_trip(model: SwapAuditModel, mode: Mode) {
        model.lemma_round_trip(mode);
    }

    /// Reads a swap order from a JSON object.
    fn decode(json: &Json, mode: Mode) -> (r: Result<SwapAudit, Error>) {
        let members = open(json, &SwapAudit::known(), mode)?;
        let amount = read_field::<u64>(members, "amount", mode)?;
        let amount_swapped = read_field::<u64>(members, "amount_swapped", mode)?;
        let remaining_in = read_field::<u64>(members, "remaining_in", mode)?;
        let remaining_out = read_field::<u64>(members, "remaining_out", mode)?;
        let value = SwapAudit {
            amount,
            amount_swapped,
            remaining_in,
            remaining_out,
        };
        assert(Self::valid(value@));
        Ok(value)
    }
}

/// The order book of a token pair.
#[derive(Clone, Debug, PartialEq, Eq)]
pub struct TokenOrderBook {
    pub buy_orders: Vec<SwapAudit>,
    pub sell_orders: Vec<SwapAudit>,
}

/// An order book as contracts see it.
pub ghost struct TokenOrderBookModel {
    pub buy_orders: Seq<SwapAuditModel>,
    pub sell_orders: Seq<SwapAuditModel>,
}

impl View for TokenOrderBook {
    type V = TokenOrderBookModel;

    open spec fn view(&self) -> TokenOrderBookModel {
        TokenOrderBookModel {
            buy_orders: models(self.buy_orders@),
            sell_orders: models(self.sell_orders@),
        }
    }
}

impl TokenOrderBookModel {
    /// The keys of an order book, in the order they are written.
    pub open spec fn keys() -> Seq<Seq<char>> {
        seq![
            "buy_orders"@,
            "sell_orders"@,
        ]
    }

    /// The JSON object of an order book.
    pub open spec fn json(self) -> JsonModel {
        JsonModel::Object(
            seq![
                ("buy_orders"@, list_json::<SwapAudit>(self.buy_orders)),
                ("sell_orders"@, list_json::<SwapAudit>(self.sell_orders)),
            ],
        )
    }

    /// Every part of the order book is valid.
    pub open spec fn valid(self) -> bool {
        &&& all_valid::<SwapAudit>(self.buy_orders)
        &&& all_valid::<SwapAudit>(self.sell_orders)
    }

    /// The order book that the members of an object make, or the fault of the
    /// first field, in the order of [`Self::keys`], that has one.
    pub open spec fn assembled(members: Members, mode: Mode) -> Result<TokenOrderBookModel, Fault> {
        let buy_orders = list_field::<SwapAudit>(members, "buy_orders"@, mode);
        let sell_orders = list_field::<SwapAudit>(members, "sell_orders"@, mode);
        if buy_orders is Err {
            Err(buy_orders->Err_0)
        } else if sell_orders is Err {
            Err(sell_orders->Err_0)
        } else {
            Ok(
                TokenOrderBookModel {
                    buy_orders: buy_orders->Ok_0,
                    sell_orders: sell_orders->Ok_0,
                },
            )
        }
    }

    /// The order book that a JSON value holds, or the first fault found: the
    /// value is no object, then (in strict mode) the first unknown key, then
    /// the fields in the order of [`Self::keys`].
    pub open spec fn decoded(value: JsonModel, mode: Mode) -> Result<TokenOrderBookModel, Fault> {
        match opened(value, Self::keys(), mode) {
            Err(fault) => Err(fault),
            Ok(members) => Self::assembled(members, mode),
        }
    }

    /// In the object that writes an order book every key is known and is found
    /// with the value of its field.
    pub proof fn lemma_members(self)
        ensures
            self.json() is Object,
            first_unknown(self.json()->Object_0, Self::keys()) is None,
            lookup(self.json()->Object_0, "buy_orders"@) == Some(
                list_json::<SwapAudit>(self.buy_orders),
            ),
            lookup(self.json()->Object_0, "sell_orders"@) == Some(
                list_json::<SwapAudit>(self.sell_orders),
            ),
    {
        let members = self.json()->Object_0;
        reveal_strlit("buy_orders");
        reveal_strlit("sell_orders");
        assert("buy_orders"@.len() == 10);
        assert("sell_orders"@.len() == 11);
        assert(Self::keys()[0] == "buy_orders"@);
        assert(Self::keys()[1] == "sell_orders"@);
        lemma_all_known(members, Self::keys());
        lemma_lookup_at(members, "buy_orders"@, 0);
        lemma_lookup_at(members, "sell_orders"@, 1);
    }

    /// A valid order book that was written is read back, in either mode.
    pub proof fn lemma_round_trip(self, mode: Mode)
        requires
            self.valid(),
        ensures
            Self::decoded(self.json(), mode) == Ok::<TokenOrderBookModel, Fault>(self),
    {
        self.lemma_members();
        lemma_list_round_trip::<SwapAudit>(self.buy_orders, mode);
        lemma_list_round_trip::<SwapAudit>(self.sell_orders, mode);
    }
}

impl TokenOrderBook {
    /// The keys of an order book.
    fn known() -> (keys: Vec<&'static str>)
        ensures
            names(keys@) == TokenOrderBookModel::keys(),
    {
        let mut keys: Vec<&'static str> = Vec::new();
        keys.push("buy_orders");
        keys.push("sell_orders");
        assert(names(keys@) =~= TokenOrderBookModel::keys());
        keys
    }
}

impl ToJson for TokenOrderBook {
    open spec fn json_of(model: TokenOrderBookModel) -> JsonModel {
        model.json()
    }

    /// Writes the order book as a JSON object with the keys `buy_orders` and
    /// `sell_orders`, in this order.
    fn encode(&self) -> (json: Json) {
        let mut members: Vec<(String, Json)> = Vec::new();
        members.push(member("buy_orders", write_list(&self.buy_orders)));
        members.push(member("sell_orders", write_list(&self.sell_orders)));
        assert(members_model(members@) =~= self@.json()->Object_0);
        object(members)
    }
}

impl FromJson for TokenOrderBook {
    open spec fn decoded(value: JsonModel, mode: Mode) -> Result<TokenOrderBookModel, Fault> {
        TokenOrderBookModel::decoded(value, mode)
    }

    open spec fn valid(model: TokenOrderBookModel) -> bool {
        model.valid()
    }

    proof fn lemma_round_trip(model: TokenOrderBookModel, mode: Mode) {
        model.lemma_round_trip(mode);
    }

    /// Reads an order book from a JSON object.
    fn decode(json: &Json, mode: Mode) -> (r: Result<TokenOrderBook, Error>) {
        let members = open(json, &TokenOrderBook::known(), mode)?;
        let buy_orders = read_list_field::<SwapAudit>(members, "buy_orders", mode)?;
        let sell_orders = read_list_field::<SwapAudit>(members, "sell_orders", mode)?;
        let value = TokenOrderBook {
            buy_orders,
            sell_orders,
        };
        assert(Self::valid(value@));
        Ok(value)
    }
}

/// A matching of a token pair.
#[derive(Clone, Debug, PartialEq, Eq)]
pub struct TokenMatching {
    pub price: u64,
    pub time: u64,
    pub volume: u64,
}

/// A token matching as contracts see it.
pub ghost struct TokenMatchingModel {
    pub price: u64,
    pub time: u64,
    pub volume: u64,
}

impl View for TokenMatching {
    type V = TokenMatchingModel;

    open spec fn view(&self) -> TokenMatchingModel {
        TokenMatchingModel {
            price: self.price@,
            time: self.time@,
            volume: self.volume@,
        }
    }
}

impl TokenMatchingModel {
    /// The keys of a token matching, in the order they are written.
    pub open spec fn keys() -> Seq<Seq<char>> {
        seq![
            "price"@,
            "time"@,
            "volume"@,
        ]
    }

    /// The JSON object of a token matching.
    pub open spec fn json(self) -> JsonModel {
        JsonModel::Object(
            seq![
                ("price"@, u64::json_of(self.price)),
                ("time"@, u64::json_of(self.time)),
                ("volume"@, u64::json_of(self.volume)),
            ],
        )
    }

    /// Every part of the token matching is valid.
    pub open spec fn valid(self) -> bool {
        &&& u64::valid(self.price)
        &&& u64::valid(self.time)
        &&& u64::valid(self.volume)
    }

    /// The token matching that the members of an object make, or the fault of the
    /// first field, in the order of [`Self::keys`], that has one.
    pub open spec fn assembled(members: Members, mode: Mode) -> Result<TokenMatchingModel, Fault> {
        let price = field::<u64>(members, "price"@, mode);
        let time = field::<u64>(members, "time"@, mode);
        let volume = field::<u64>(members, "volume"@, mode);
        if price is Err {
            Err(price->Err_0)
        } else if time is Err {
            Err(time->Err_0)
        } else if volume is Err {
            Err(volume->Err_0)
        } else {
            Ok(
                TokenMatchingModel {
                    price: price->Ok_0,
                    time: time->Ok_0,
                    volume: volume->Ok_0,
                },
            )
        }
    }

    /// The token matching that a JSON value holds, or the first fault found: the
    /// value is no object, then (in strict mode) the first unknown key, then
    /// the fields in the order of [`Self::keys`].
    pub open spec fn decoded(value: JsonModel, mode: Mode) -> Result<TokenMatchingModel, Fault> {
        match opened(value, Self::keys(), mode) {
            Err(fault) => Err(fault),
            Ok(members) => Self::assembled(members, mode),
        }
    }

    /// In the object that writes a token matching every key is known and is found
    /// with the value of its field.
    pub proof fn lemma_members(self)
        ensures
            self.json() is Object,
            first_unknown(self.json()->Object_0, Self::keys()) is None,
            lookup(self.json()->Object_0, "price"@) == Some(u64::json_of(self.price)),
            lookup(self.json()->Object_0, "time"@) == Some(u64::json_of(self.time)),
            lookup(self.json()->Object_0, "volume"@) == Some(u64::json_of(self.volume)),
    {
        let members = self.json()->Object_0;
        reveal_strlit("price");
        reveal_strlit("time");
        reveal_strlit("volume");
        assert("price"@.len() == 5);
        assert("time"@.len() == 4);
        assert("volume"@.len() == 6);
        assert(Self::keys()[0] == "price"@);
        assert(Self::keys()[1] == "time"@);
        assert(Self::keys()[2] == "volume"@);
        lemma_all_known(members, Self::keys());
        lemma_lookup_at(members, "price"@, 0);
        lemma_lookup_at(members, "time"@, 1);
        lemma_lookup_at(members, "volume"@, 2);
    }

    /// A valid token matching that was written is read back, in either mode.
    pub proof fn lemma_round_trip(self, mode: Mode)
        requires
            self.valid(),
        ensures
            Self::decoded(self.json(), mode) == Ok::<TokenMatchingModel, Fault>(self),
    {
        self.lemma_members();
        u64::lemma_round_trip(self.price, mode);
        u64::lemma_round_trip(self.time, mode);
        u64::lemma_round_trip(self.volume, mode);
    }
}

impl TokenMatching {
    /// The keys of a token matching.
    fn known() -> (keys: Vec<&'static str>)
        ensures
            names(keys@) == TokenMatchingModel::keys(),
    {
        let mut keys: Vec<&'static str> = Vec::new();
        keys.push("price");
        keys.push("time");
        keys.push("volume");
        assert(names(keys@) =~= TokenMatchingModel::keys());
        keys
    }
}

impl ToJson for TokenMatching {
    open spec fn json_of(model: TokenMatchingModel) -> JsonModel {
        model.json()
    }

    /// Writes the token matching as a JSON object with the keys `price`,
    /// `time` and `volume`, in this order.
    fn encode(&self) -> (json: Json) {
        let mut members: Vec<(String, Json)> = Vec::new();
        members.push(member("price", self.price.encode()));
        members.push(member("time", self.time.encode()));
        members.push(member("volume", self.volume.encode()));
        assert(members_model(members@) =~= self@.json()->Object_0);
        object(members)
    }
}

impl FromJson for TokenMatching {
    open spec fn decoded(value: JsonModel, mode: Mode) -> Result<TokenMatchingModel, Fault> {
        TokenMatchingModel::decoded(value, mode)
    }

    open spec fn valid(model: TokenMatchingModel) -> bool {
        model.valid()
    }

    proof fn lemma_round_trip(model: TokenMatchingModel, mode: Mode) {
        model.lemma_round_trip(mode);
    }

    /// Reads a token matching from a JSON object.
    fn decode(json: &Json, mode: Mode) -> (r: Result<TokenMatching, Error>) {
        let members = open(json, &TokenMatching::known(), mode)?;
        let price = read_field::<u64>(members, "price", mode)?;
        let time = read_field::<u64>(members, "time", mode)?;
        let volume = read_field::<u64>(members, "volume", mode)?;
        let value = TokenMatching {
            price,
            time,
            volume,
        };
        assert(Self::valid(value@));
        Ok(value)
    }
}

/// A transfer in short.
#[derive(Clone, Debug, PartialEq, Eq)]
pub struct ConciseTransfer {
    pub amount: u64,
    pub amount_swapped: u64,
    pub cancelled: bool,
    pub complete: bool,
    pub eon_number: i64,
    pub id: i64,
    pub nonce: u64,
    pub passive: bool,
    pub recipient: Wallet,
    pub swap: bool,
    pub time: DateTime,
    pub voided: bool,
    pub wallet: Wallet,
}

/// A concise transfer as contracts see it.
pub ghost struct ConciseTransferModel {
    pub amount: u64,
    pub amount_swapped: u64,
    pub cancelled: bool,
    pub complete: bool,
    pub eon_number: i64,
    pub id: i64,
    pub nonce: u64,
    pub passive: bool,
    pub recipient: WalletModel,
    pub swap: bool,
    pub time: (i64, u32),
    pub voided: bool,
    pub wallet: WalletModel,
}

impl View for ConciseTransfer {
    type V = ConciseTransferModel;

    open spec fn view(&self) -> ConciseTransferModel {
        ConciseTransferModel {
            amount: self.amount@,
            amount_swapped: self.amount_swapped@,
            cancelled: self.cancelled@,
            complete: self.complete@,
            eon_number: self.eon_number@,
            id: self.id@,
            nonce: self.nonce@,
            passive: self.passive@,
            recipient: self.recipient@,
            swap: self.swap@,
            time: self.time@,
            voided: self.voided@,
            wallet: self.wallet@,
        }
    }
}

impl ConciseTransferModel {
    /// The keys of a concise transfer, in the order they are written.
    pub open spec fn keys() -> Seq<Seq<char>> {
        seq![
            "amount"@,
            "amount_swapped"@,
            "cancelled"@,
            "complete"@,
            "eon_number"@,
            "id"@,
            "nonce"@,
            "passive"@,
            "recipient"@,
            "swap"@,
            "time"@,
            "voided"@,
            "wallet"@,
        ]
    }

    /// The JSON object of a concise transfer.
    pub open spec fn json(self) -> JsonModel {
        JsonModel::Object(
            seq![
                ("amount"@, u64::json_of(self.amount)),
                ("amount_swapped"@, u64::json_of(self.amount_swapped)),
                ("cancelled"@, bool::json_of(self.cancelled)),
                ("complete"@, bool::json_of(self.complete)),
                ("eon_number"@, i64::json_of(self.eon_number)),
                ("id"@, i64::json_of(self.id)),
                ("nonce"@, u64::json_of(self.nonce)),
                ("passive"@, bool::json_of(self.passive)),
                ("recipient"@, Wallet::json_of(self.recipient)),
                ("swap"@, bool::json_of(self.swap)),
                ("time"@, DateTime::json_of(self.time)),
                ("voided"@, bool::json_of(self.voided)),
                ("wallet"@, Wallet::json_of(self.wallet)),
            ],
        )
    }

    /// Every part of the concise transfer is valid.
    pub open spec fn valid(self) -> bool {
        &&& u64::valid(self.amount)
        &&& u64::valid(self.amount_swapped)
        &&& bool::valid(self.cancelled)
        &&& bool::valid(self.complete)
        &&& i64::valid(self.eon_number)
        &&& i64::valid(self.id)
        &&& u64::valid(self.nonce)
        &&& bool::valid(self.passive)
        &&& Wallet::valid(self.recipient)
        &&& bool::valid(self.swap)
        &&& DateTime::valid(self.time)
        &&& bool::valid(self.voided)
        &&& Wallet::valid(self.wallet)
    }

    /// The concise transfer that the members of an object make, or the fault of the
    /// first field, in the order of [`Self::keys`], that has one.
    pub open spec fn assembled(members: Members, mode: Mode) -> Result<
        ConciseTransferModel,
        Fault,
    > {
        let amount = field::<u64>(members, "amount"@, mode);
        let amount_swapped = field::<u64>(members, "amount_swapped"@, mode);
        let cancelled = field::<bool>(members, "cancelled"@, mode);
        let complete = field::<bool>(members, "complete"@, mode);
        let eon_number = field::<i64>(members, "eon_number"@, mode);
        let id = field::<i64>(members, "id"@, mode);
        let nonce = field::<u64>(members, "nonce"@, mode);
        let passive = field::<bool>(members, "passive"@, mode);
        let recipient = field::<Wallet>(members, "recipient"@, mode);
        let swap = field::<bool>(members, "swap"@, mode);
        let time = field::<DateTime>(members, "time"@, mode);
        let voided = field::<bool>(members, "voided"@, mode);
        let wallet = field::<Wallet>(members, "wallet"@, mode);
        if amount is Err {
            Err(amount->Err_0)
        } else if amount_swapped is Err {
            Err(amount_swapped->Err_0)
        } else if cancelled is Err {
            Err(cancelled->Err_0)
        } else if complete is Err {
            Err(complete->Err_0)
        } else if eon_number is Err {
            Err(eon_number->Err_0)
        } else if id is Err {
            Err(id->Err_0)
        } else if nonce is Err {
            Err(nonce->Err_0)
        } else if passive is Err {
            Err(passive->Err_0)
        } else if recipient is Err {
            Err(recipient->Err_0)
        } else if swap is Err {
            Err(swap->Err_0)
        } else if time is Err {
            Err(time->Err_0)
        } else if voided is Err {
            Err(voided->Err_0)
        } else if wallet is Err {
            Err(wallet->Err_0)
        } else {
            Ok(
                ConciseTransferModel {
                    amount: amount->Ok_0,
                    amount_swapped: amount_swapped->Ok_0,
                    cancelled: cancelled->Ok_0,
                    complete: complete->Ok_0,
                    eon_number: eon_number->Ok_0,
                    id: id->Ok_0,
                    nonce: nonce->Ok_0,
                    passive: passive->Ok_0,
                    recipient: recipient->Ok_0,
                    swap: swap->Ok_0,
                    time: time->Ok_0,
                    voided: voided->Ok_0,
                    wallet: wallet->Ok_0,
                },
            )
        }
    }

    /// The concise transfer that a JSON value holds, or the first fault found: the
    /// value is no object, then (in strict mode) the first unknown key, then
    /// the fields in the order of [`Self::keys`].
    pub open spec fn decoded(value: JsonModel, mode: Mode) -> Result<ConciseTransferModel, Fault> {
        match opened(value, Self::keys(), mode) {
            Err(fault) => Err(fault),
            Ok(members) => Self::assembled(members, mode),
        }
    }

    /// In the object that writes a concise transfer every key is known and is found
    /// with the value of its field.
    pub proof fn lemma_members(self)
        ensures
            self.json() is Object,
            first_unknown(self.json()->Object_0, Self::keys()) is None,
            lookup(self.json()->Object_0, "amount"@) == Some(u64::json_of(self.amount)),
            lookup(self.json()->Object_0, "amount_swapped"@) == Some(
                u64::json_of(self.amount_swapped),
            ),
            lookup(self.json()->Object_0, "cancelled"@) == Some(bool::json_of(self.cancelled)),
            lookup(self.json()->Object_0, "complete"@) == Some(bool::json_of(self.complete)),
            lookup(self.json()->Object_0, "eon_number"@) == Some(i64::json_of(self.eon_number)),
            lookup(self.json()->Object_0, "id"@) == Some(i64::json_of(self.id)),
            lookup(self.json()->Object_0, "nonce"@) == Some(u64::json_of(self.nonce)),
            lookup(self.json()->Object_0, "passive"@) == Some(bool::json_of(self.passive)),
            lookup(self.json()->Object_0, "recipient"@) == Some(Wallet::json_of(self.recipient)),
            lookup(self.json()->Object_0, "swap"@) == Some(bool::json_of(self.swap)),
            lookup(self.json()->Object_0, "time"@) == Some(DateTime::json_of(self.time)),
            lookup(self.json()->Object_0, "voided"@) == Some(bool::json_of(self.voided)),
            lookup(self.json()->Object_0, "wallet"@) == Some(Wallet::json_of(self.wallet)),
    {
        let members = self.json()->Object_0;
        reveal_strlit("amount");
        reveal_strlit("amount_swapped");
        reveal_strlit("cancelled");
        reveal_strlit("complete");
        reveal_strlit("eon_number");
        reveal_strlit("id");
        reveal_strlit("nonce");
        reveal_strlit("passive");
        reveal_strlit("recipient");
        reveal_strlit("swap");
        reveal_strlit("time");
        reveal_strlit("voided");
        reveal_strlit("wallet");
        assert("amount"@.len() == 6);
        assert("amount_swapped"@.len() == 14);
        assert("cancelled"@.len() == 9);
        assert("complete"@.len() == 8);
        assert("eon_number"@.len() == 10);
        assert("id"@.len() == 2);
        assert("nonce"@.len() == 5);
        assert("passive"@.len() == 7);
        assert("recipient"@.len() == 9);
        assert("swap"@.len() == 4);
        assert("time"@.len() == 4);
        assert("voided"@.len() == 6);
        assert("wallet"@.len() == 6);
        assert("amount"@[0] == 'a');
        assert("voided"@[0] == 'v');
        assert("wallet"@[0] == 'w');
        assert("cancelled"@[0] == 'c');
        assert("recipient"@[0] == 'r');
        assert("swap"@[0] == 's');
        assert("time"@[0] == 't');
        assert(Self::keys()[0] == "amount"@);
        assert(Self::keys()[1] == "amount_swapped"@);
        assert(Self::keys()[2] == "cancelled"@);
        assert(Self::keys()[3] == "complete"@);
        assert(Self::keys()[4] == "eon_number"@);
        assert(Self::keys()[5] == "id"@);
        assert(Self::keys()[6] == "nonce"@);
        assert(Self::keys()[7] == "passive"@);
        assert(Self::keys()[8] == "recipient"@);
        assert(Self::keys()[9] == "swap"@);
        assert(Self::keys()[10] == "time"@);
        assert(Self::keys()[11] == "voided"@);
        assert(Self::keys()[12] == "wallet"@);
        lemma_all_known(members, Self::keys());
        lemma_lookup_at(members, "amount"@, 0);
        lemma_lookup_at(members, "amount_swapped"@, 1);
        lemma_lookup_at(members, "cancelled"@, 2);
        lemma_lookup_at(members, "complete"@, 3);
        lemma_lookup_at(members, "eon_number"@, 4);
        lemma_lookup_at(members, "id"@, 5);
        lemma_lookup_at(members, "nonce"@, 6);
        lemma_lookup_at(members, "passive"@, 7);
        lemma_lookup_at(members, "recipient"@, 8);
        lemma_lookup_at(members, "swap"@, 9);
        lemma_lookup_at(members, "time"@, 10);
        lemma_lookup_at(members, "voided"@, 11);
        lemma_lookup_at(members, "wallet"@, 12);
    }

    /// A valid concise transfer that was written is read back, in either mode.
    pub proof fn lemma_round_trip(self, mode: Mode)
        requires
            self.valid(),
        ensures
            Self::decoded(self.json(), mode) == Ok::<ConciseTransferModel, Fault>(self),
    {
        self.lemma_members();
        u64::lemma_round_trip(self.amount, mode);
        u64::lemma_round_trip(self.amount_swapped, mode);
        bool::lemma_round_trip(self.cancelled, mode);
        bool::lemma_round_trip(self.complete, mode);
        i64::lemma_round_trip(self.eon_number, mode);
        i64::lemma_round_trip(self.id, mode);
        u64::lemma_round_trip(self.nonce, mode);
        bool::lemma_round_trip(self.passive, mode);
        Wallet::lemma_round_trip(self.recipient, mode);
        bool::lemma_round_trip(self.swap, mode);
        DateTime::lemma_round_trip(self.time, mode);
        bool::lemma_round_trip(self.voided, mode);
        Wallet::lemma_round_trip(self.wallet, mode);
    }
}

impl ConciseTransfer {
    /// The keys of a concise transfer.
    fn known() -> (keys: Vec<&'static str>)
        ensures
            names(keys@) == ConciseTransferModel::keys(),
    {
        let mut keys: Vec<&'static str> = Vec::new();
        keys.push("amount");
        keys.push("amount_swapped");
        keys.push("cancelled");
        keys.push("complete");
        keys.push("eon_number");
        keys.push("id");
        keys.push("nonce");
        keys.push("passive");
        keys.push("recipient");
        keys.push("swap");
        keys.push("time");
        keys.push("voided");
        keys.push("wallet");
        assert(names(keys@) =~= ConciseTransferModel::keys());
        keys
    }
}

impl ToJson for ConciseTransfer {
    open spec fn json_of(model: ConciseTransferModel) -> JsonModel {
        model.json()
    }

    /// Writes the concise transfer as a JSON object with the keys `amount`,
    /// `amount_swapped`, `cancelled`, `complete`, `eon_number`, `id`,
    /// `nonce`, `passive`, `recipient`, `swap`, `time`, `voided` and
    /// `wallet`, in this order.
    fn encode(&self) -> (json: Json) {
        let mut members: Vec<(String, Json)> = Vec::new();
        members.push(member("amount", self.amount.encode()));
        members.push(member("amount_swapped", self.amount_swapped.encode()));
        members.push(member("cancelled", self.cancelled.encode()));
        members.push(member("complete", self.complete.encode()));
        members.push(member("eon_number", self.eon_number.encode()));
        members.push(member("id", self.id.encode()));
        members.push(member("nonce", self.nonce.encode()));
        members.push(member("passive", self.passive.encode()));
        members.push(member("recipient", self.recipient.encode()));
        members.push(member("swap", self.swap.encode()));
        members.push(member("time", self.time.encode()));
        members.push(member("voided", self.voided.encode()));
        members.push(member("wallet", self.wallet.encode()));
        assert(members_model(members@) =~= self@.json()->Object_0);
        object(members)
    }
}

impl FromJson for ConciseTransfer {
    open spec fn decoded(value: JsonModel, mode: Mode) -> Result<ConciseTransferModel, Fault> {
        ConciseTransferModel::decoded(value, mode)
    }

    open spec fn valid(model: ConciseTransferModel) -> bool {
        model.valid()
    }

    proof fn lemma_round_trip(model: ConciseTransferModel, mode: Mode) {
        model.lemma_round_trip(mode);
    }

    /// Reads a concise transfer from a JSON object.
    fn decode(json: &Json, mode: Mode) -> (r: Result<ConciseTransfer, Error>) {
        let members = open(json, &ConciseTransfer::known(), mode)?;
        let amount = read_field::<u64>(members, "amount", mode)?;
        let amount_swapped = read_field::<u64>(members, "amount_swapped", mode)?;
        let cancelled = read_field::<bool>(members, "cancelled", mode)?;
        let complete = read_field::<bool>(members, "complete", mode)?;
        let eon_number = read_field::<i64>(members, "eon_number", mode)?;
        let id = read_field::<i64>(members, "id", mode)?;
        let nonce = read_field::<u64>(members, "nonce", mode)?;
        let passive = read_field::<bool>(members, "passive", mode)?;
        let recipient = read_field::<Wallet>(members, "recipient", mode)?;
        let swap = read_field::<bool>(members, "swap", mode)?;
        let time = read_field::<DateTime>(members, "time", mode)?;
        let voided = read_field::<bool>(members, "voided", mode)?;
        let wallet = read_field::<Wallet>(members, "wallet", mode)?;
        let value = ConciseTransfer {
            amount,
            amount_swapped,
            cancelled,
            complete,
            eon_number,
            id,
            nonce,
            passive,
            recipient,
            swap,
            time,
            voided,
            wallet,
        };
        assert(Self::valid(value@));
        Ok(value)
    }
}

/// One page of transfers, with the links to the pages around it.
#[derive(Clone, Debug, PartialEq, Eq)]
pub struct Transfers {
    pub count: i64,
    pub next: Option<Uri>,
    pub previous: Option<Uri>,
    pub results: Vec<ConciseTransfer>,
}

/// A transfers page as contracts see it.
pub ghost struct TransfersModel {
    pub count: i64,
    pub next: Option<Seq<char>>,
    pub previous: Option<Seq<char>>,
    pub results: Seq<ConciseTransferModel>,
}

impl View for Transfers {
    type V = TransfersModel;

    open spec fn view(&self) -> TransfersModel {
        TransfersModel {
            count: self.count@,
            next: option_model(self.next),
            previous: option_model(self.previous),
            results: models(self.results@),
        }
    }
}

impl TransfersModel {
    /// The keys of a transfers page, in the order they are written.
    pub open spec fn keys() -> Seq<Seq<char>> {
        seq![
            "count"@,
            "next"@,
            "previous"@,
            "results"@,
        ]
    }

    /// The JSON object of a transfers page.
    pub open spec fn json(self) -> JsonModel {
        JsonModel::Object(
            seq![
                ("count"@, i64::json_of(self.count)),
                ("next"@, optional_json::<Uri>(self.next)),
                ("previous"@, optional_json::<Uri>(self.previous)),
                ("results"@, list_json::<ConciseTransfer>(self.results)),
            ],
        )
    }

    /// Every part of the transfers page is valid.
    pub open spec fn valid(self) -> bool {
        &&& i64::valid(self.count)
        &&& valid_if_some::<Uri>(self.next)
        &&& valid_if_some::<Uri>(self.previous)
        &&& all_valid::<ConciseTransfer>(self.results)
    }

    /// The transfers page that the members of an object make, or the fault of the
    /// first field, in the order of [`Self::keys`], that has one.
    pub open spec fn assembled(members: Members, mode: Mode) -> Result<TransfersModel, Fault> {
        let count = field::<i64>(members, "count"@, mode);
        let next = optional_field::<Uri>(members, "next"@, mode);
        let previous = optional_field::<Uri>(members, "previous"@, mode);
        let results = list_field::<ConciseTransfer>(members, "results"@, mode);
        if count is Err {
            Err(count->Err_0)
        } else if next is Err {
            Err(next->Err_0)
        } else if previous is Err {
            Err(previous->Err_0)
        } else if results is Err {
            Err(results->Err_0)
        } else {
            Ok(
                TransfersModel {
                    count: count->Ok_0,
                    next: next->Ok_0,
                    previous: previous->Ok_0,
                    results: results->Ok_0,
                },
            )
        }
    }

    /// The transfers page that a JSON value holds, or the first fault found: the
    /// value is no object, then (in strict mode) the first unknown key, then
    /// the fields in the order of [`Self::keys`].
    pub open spec fn decoded(value: JsonModel, mode: Mode) -> Result<TransfersModel, Fault> {
        match opened(value, Self::keys(), mode) {
            Err(fault) => Err(fault),
            Ok(members) => Self::assembled(members, mode),
        }
    }

    /// In the object that writes a transfers page every key is known and is found
    /// with the value of its field.
    pub proof fn lemma_members(self)
        ensures
            self.json() is Object,
            first_unknown(self.json()->Object_0, Self::keys()) is None,
            lookup(self.json()->Object_0, "count"@) == Some(i64::json_of(self.count)),
            lookup(self.json()->Object_0, "next"@) == Some(optional_json::<Uri>(self.next)),
            lookup(self.json()->Object_0, "previous"@) == Some(optional_json::<Uri>(self.previous)),
            lookup(self.json()->Object_0, "results"@) == Some(
                list_json::<ConciseTransfer>(self.results),
            ),
    {
        let members = self.json()->Object_0;
        reveal_strlit("count");
        reveal_strlit("next");
        reveal_strlit("previous");
        reveal_strlit("results");
        assert("count"@.len() == 5);
        assert("next"@.len() == 4);
        assert("previous"@.len() == 8);
        assert("results"@.len() == 7);
        assert(Self::keys()[0] == "count"@);
        assert(Self::keys()[1] == "next"@);
        assert(Self::keys()[2] == "previous"@);
        assert(Self::keys()[3] == "results"@);
        lemma_all_known(members, Self::keys());
        lemma_lookup_at(members, "count"@, 0);
        lemma_lookup_at(members, "next"@, 1);
        lemma_lookup_at(members, "previous"@, 2);
        lemma_lookup_at(members, "results"@, 3);
    }

    /// A valid transfers page that was written is read back, in either mode.
    pub proof fn lemma_round_trip(self, mode: Mode)
        requires
            self.valid(),
        ensures
            Self::decoded(self.json(), mode) == Ok::<TransfersModel, Fault>(self),
    {
        self.lemma_members();
        i64::lemma_round_trip(self.count, mode);
        lemma_optional_round_trip::<Uri>(self.next, mode);
        lemma_optional_round_trip::<Uri>(self.previous, mode);
        lemma_list_round_trip::<ConciseTransfer>(self.results, mode);
    }
}

impl Transfers {
    /// The keys of a transfers page.
    fn known() -> (keys: Vec<&'static str>)
        ensures
            names(keys@) == TransfersModel::keys(),
    {
        let mut keys: Vec<&'static str> = Vec::new();
        keys.push("count");
        keys.push("next");
        keys.push("previous");
        keys.push("results");
        assert(names(keys@) =~= TransfersModel::keys());
        keys
    }
}

impl ToJson for Transfers {
    open spec fn json_of(model: TransfersModel) -> JsonModel {
        model.json()
    }

    /// Writes the transfers page as a JSON object with the keys `count`,
    /// `next`, `previous` and `results`, in this order.
    fn encode(&self) -> (json: Json) {
        let mut members: Vec<(String, Json)> = Vec::new();
        members.push(member("count", self.count.encode()));
        members.push(member("next", write_optional(&self.next)));
        members.push(member("previous", write_optional(&self.previous)));
        members.push(member("results", write_list(&self.results)));
        assert(members_model(members@) =~= self@.json()->Object_0);
        object(members)
    }
}

impl FromJson for Transfers {
    open spec fn decoded(value: JsonModel, mode: Mode) -> Result<TransfersModel, Fault> {
        TransfersModel::decoded(value, mode)
    }

    open spec fn valid(model: TransfersModel) -> bool {
        model.valid()
    }

    proof fn lemma_round_trip(model: TransfersModel, mode: Mode) {
        model.lemma_round_trip(mode);
    }

    /// Reads a transfers page from a JSON object.
    fn decode(json: &Json, mode: Mode) -> (r: Result<Transfers, Error>) {
        let members = open(json, &Transfers::known(), mode)?;
        let count = read_field::<i64>(members, "count", mode)?;
        let next = read_optional::<Uri>(members, "next", mode)?;
        let previous = read_optional::<Uri>(members, "previous", mode)?;
        let results = read_list_field::<ConciseTransfer>(members, "results", mode)?;
        let value = Transfers {
            count,
            next,
            previous,
            results,
        };
        assert(Self::valid(value@));
        Ok(value)
    }
}

/// A transfer in full.
#[derive(Clone, Debug, PartialEq, Eq)]
pub struct Transfer {
    pub amount: u64,
    pub amount_swapped: Option<u64>,
    pub appended: bool,
    pub cancelled: bool,
    pub complete: bool,
    pub delivery_proof: DeliveryProof,
    pub eon_number: i64,
    pub id: i64,
    pub matched_amounts: MatchedAmounts,
    pub nonce: u64,
    pub passive: bool,
    pub position: Option<u64>,
    pub recipient: Wallet,
    pub recipient_active_state: SenderActiveState,
    pub recipient_cancellation_active_state: SenderActiveState,
    pub recipient_finalization_active_state: SenderActiveState,
    pub recipient_fulfillment_active_state: SenderActiveState,
    pub recipient_starting_balance: Option<u64>,
    pub recipient_trail_identifier: i64,
    pub sender_active_state: SenderActiveState,
    pub sender_cancellation_active_state: SenderActiveState,
    pub sender_finalization_active_state: SenderActiveState,
    pub sender_starting_balance: Option<u64>,
    pub swap_freezing_signature: String,
    pub time: DateTime,
    pub timestamp: u64,
    pub tx_id: Option<Uuid>,
    pub voided: bool,
    pub wallet: Wallet,
    pub wallet_trail_identifier: i64,
}

/// A full transfer as contracts see it.
pub ghost struct TransferModel {
    pub amount: u64,
    pub amount_swapped: Option<u64>,
    pub appended: bool,
    pub cancelled: bool,
    pub complete: bool,
    pub delivery_proof: DeliveryProofModel,
    pub eon_number: i64,
    pub id: i64,
    pub matched_amounts: MatchedAmountsModel,
    pub nonce: u64,
    pub passive: bool,
    pub position: Option<u64>,
    pub recipient: WalletModel,
    pub recipient_active_state: SenderActiveStateModel,
    pub recipient_cancellation_active_state: SenderActiveStateModel,
    pub recipient_finalization_active_state: SenderActiveStateModel,
    pub recipient_fulfillment_active_state: SenderActiveStateModel,
    pub recipient_starting_balance: Option<u64>,
    pub recipient_trail_identifier: i64,
    pub sender_active_state: SenderActiveStateModel,
    pub sender_cancellation_active_state: SenderActiveStateModel,
    pub sender_finalization_active_state: SenderActiveStateModel,
    pub sender_starting_balance: Option<u64>,
    pub swap_freezing_signature: Seq<char>,
    pub time: (i64, u32),
    pub timestamp: u64,
    pub tx_id: Option<u128>,
    pub voided: bool,
    pub wallet: WalletModel,
    pub wallet_trail_identifier: i64,
}

impl View for Transfer {
    type V = TransferModel;

    open spec fn view(&self) -> TransferModel {
        TransferModel {
            amount: self.amount@,
            amount_swapped: option_model(self.amount_swapped),
            appended: self.appended@,
            cancelled: self.cancelled@,
            complete: self.complete@,
            delivery_proof: self.delivery_proof@,
            eon_number: self.eon_number@,
            id: self.id@,
            matched_amounts: self.matched_amounts@,
            nonce: self.nonce@,
            passive: self.passive@,
            position: option_model(self.position),
            recipient: self.recipient@,
            recipient_active_state: self.recipient_active_state@,
            recipient_cancellation_active_state: self.recipient_cancellation_active_state@,
            recipient_finalization_active_state: self.recipient_finalization_active_state@,
            recipient_fulfillment_active_state: self.recipient_fulfillment_active_state@,
            recipient_starting_balance: option_model(self.recipient_starting_balance),
            recipient_trail_identifier: self.recipient_trail_identifier@,
            sender_active_state: self.sender_active_state@,
            sender_cancellation_active_state: self.sender_cancellation_active_state@,
            sender_finalization_active_state: self.sender_finalization_active_state@,
            sender_starting_balance: option_model(self.sender_starting_balance),
            swap_freezing_signature: self.swap_freezing_signature@,
            time: self.time@,
            timestamp: self.timestamp@,
            tx_id: option_model(self.tx_id),
            voided: self.voided@,
            wallet: self.wallet@,
            wallet_trail_identifier: self.wallet_trail_identifier@,
        }
    }
}

impl TransferModel {
    /// The keys of a full transfer, in the order they are written.
    pub open spec fn keys() -> Seq<Seq<char>> {
        seq![
            "amount"@,
            "amount_swapped"@,
            "appended"@,
            "cancelled"@,
            "complete"@,
            "delivery_proof"@,
            "eon_number"@,
            "id"@,
            "matched_amounts"@,
            "nonce"@,
            "passive"@,
            "position"@,
            "recipient"@,
            "recipient_active_state"@,
            "recipient_cancellation_active_state"@,
            "recipient_finalization_active_state"@,
            "recipient_fulfillment_active_state"@,
            "recipient_starting_balance"@,
            "recipient_trail_identifier"@,
            "sender_active_state"@,
            "sender_cancellation_active_state"@,
            "sender_finalization_active_state"@,
            "sender_starting_balance"@,
            "swap_freezing_signature"@,
            "time"@,
            "timestamp"@,
            "tx_id"@,
            "voided"@,
            "wallet"@,
            "wallet_trail_identifier"@,
        ]
    }

    /// The JSON object of a full transfer.
    pub open spec fn json(self) -> JsonModel {
        JsonModel::Object(
            seq![
                ("amount"@, u64::json_of(self.amount)),
                ("amount_swapped"@, optional_json::<u64>(self.amount_swapped)),
                ("appended"@, bool::json_of(self.appended)),
                ("cancelled"@, bool::json_of(self.cancelled)),
                ("complete"@, bool::json_of(self.complete)),
                ("delivery_proof"@, DeliveryProof::json_of(self.delivery_proof)),
                ("eon_number"@, i64::json_of(self.eon_number)),
                ("id"@, i64::json_of(self.id)),
                ("matched_amounts"@, MatchedAmounts::json_of(self.matched_amounts)),
                ("nonce"@, u64::json_of(self.nonce)),
                ("passive"@, bool::json_of(self.passive)),
                ("position"@, optional_json::<u64>(self.position)),
                ("recipient"@, Wallet::json_of(self.recipient)),
                (
                    "recipient_active_state"@,
                    SenderActiveState::json_of(self.recipient_active_state),
                ),
                (
                    "recipient_cancellation_active_state"@,
                    SenderActiveState::json_of(self.recipient_cancellation_active_state),
                ),
                (
                    "recipient_finalization_active_state"@,
                    SenderActiveState::json_of(self.recipient_finalization_active_state),
                ),
                (
                    "recipient_fulfillment_active_state"@,
                    SenderActiveState::json_of(self.recipient_fulfillment_active_state),
                ),
                (
                    "recipient_starting_balance"@,
                    optional_json::<u64>(self.recipient_starting_balance),
                ),
                ("recipient_trail_identifier"@, i64::json_of(self.recipient_trail_identifier)),
                ("sender_active_state"@, SenderActiveState::json_of(self.sender_active_state)),
                (
                    "sender_cancellation_active_state"@,
                    SenderActiveState::json_of(self.sender_cancellation_active_state),
                ),
                (
                    "sender_finalization_active_state"@,
                    SenderActiveState::json_of(self.sender_finalization_active_state),
                ),
                ("sender_starting_balance"@, optional_json::<u64>(self.sender_starting_balance)),
                ("swap_freezing_signature"@, String::json_of(self.swap_freezing_signature)),
                ("time"@, DateTime::json_of(self.time)),
                ("timestamp"@, u64::json_of(self.timestamp)),
                ("tx_id"@, optional_json::<Uuid>(self.tx_id)),
                ("voided"@, bool::json_of(self.voided)),
                ("wallet"@, Wallet::json_of(self.wallet)),
                ("wallet_trail_identifier"@, i64::json_of(self.wallet_trail_identifier)),
            ],
        )
    }

    /// Every part of the full transfer is valid.
    pub open spec fn valid(self) -> bool {
        &&& u64::valid(self.amount)
        &&& valid_if_some::<u64>(self.amount_swapped)
        &&& bool::valid(self.appended)
        &&& bool::valid(self.cancelled)
        &&& bool::valid(self.complete)
        &&& DeliveryProof::valid(self.delivery_proof)
        &&& i64::valid(self.eon_number)
        &&& i64::valid(self.id)
        &&& MatchedAmounts::valid(self.matched_amounts)
        &&& u64::valid(self.nonce)
        &&& bool::valid(self.passive)
        &&& valid_if_some::<u64>(self.position)
        &&& Wallet::valid(self.recipient)
        &&& SenderActiveState::valid(self.recipient_active_state)
        &&& SenderActiveState::valid(self.recipient_cancellation_active_state)
        &&& SenderActiveState::valid(self.recipient_finalization_active_state)
        &&& SenderActiveState::valid(self.recipient_fulfillment_active_state)
        &&& valid_if_some::<u64>(self.recipient_starting_balance)
        &&& i64::valid(self.recipient_trail_identifier)
        &&& SenderActiveState::valid(self.sender_active_state)
        &&& SenderActiveState::valid(self.sender_cancellation_active_state)
        &&& SenderActiveState::valid(self.sender_finalization_active_state)
        &&& valid_if_some::<u64>(self.sender_starting_balance)
        &&& String::valid(self.swap_freezing_signature)
        &&& DateTime::valid(self.time)
        &&& u64::valid(self.timestamp)
        &&& valid_if_some::<Uuid>(self.tx_id)
        &&& bool::valid(self.voided)
        &&& Wallet::valid(self.wallet)
        &&& i64::valid(self.wallet_trail_identifier)
    }

    /// The full transfer that the members of an object make, or the fault of the
    /// first field, in the order of [`Self::keys`], that has one.
    pub open spec fn assembled(members: Members, mode: Mode) -> Result<TransferModel, Fault> {
        let amount = field::<u64>(members, "amount"@, mode);
        let amount_swapped = optional_field::<u64>(members, "amount_swapped"@, mode);
        let appended = field::<bool>(members, "appended"@, mode);
        let cancelled = field::<bool>(members, "cancelled"@, mode);
        let complete = field::<bool>(members, "complete"@, mode);
        let delivery_proof = field::<DeliveryProof>(members, "delivery_proof"@, mode);
        let eon_number = field::<i64>(members, "eon_number"@, mode);
        let id = field::<i64>(members, "id"@, mode);
        let matched_amounts = field::<MatchedAmounts>(members, "matched_amounts"@, mode);
        let nonce = field::<u64>(members, "nonce"@, mode);
        let passive = field::<bool>(members, "passive"@, mode);
        let position = optional_field::<u64>(members, "position"@, mode);
        let recipient = field::<Wallet>(members, "recipient"@, mode);
        let recipient_active_state = field::<SenderActiveState>(
            members,
            "recipient_active_state"@,
            mode,
        );
        let recipient_cancellation_active_state = field::<SenderActiveState>(
            members,
            "recipient_cancellation_active_state"@,
            mode,
        );
        let recipient_finalization_active_state = field::<SenderActiveState>(
            members,
            "recipient_finalization_active_state"@,
            mode,
        );
        let recipient_fulfillment_active_state = field::<SenderActiveState>(
            members,
            "recipient_fulfillment_active_state"@,
            mode,
        );
        let recipient_starting_balance = optional_field::<u64>(
            members,
            "recipient_starting_balance"@,
            mode,
        );
        let recipient_trail_identifier = field::<i64>(members, "recipient_trail_identifier"@, mode);
        let sender_active_state = field::<SenderActiveState>(members, "sender_active_state"@, mode);
        let sender_cancellation_active_state = field::<SenderActiveState>(
            members,
            "sender_cancellation_active_state"@,
            mode,
        );
        let sender_finalization_active_state = field::<SenderActiveState>(
            members,
            "sender_finalization_active_state"@,
            mode,
        );
        let sender_starting_balance = optional_field::<u64>(
            members,
            "sender_starting_balance"@,
            mode,
        );
        let swap_freezing_signature = field::<String>(members, "swap_freezing_signature"@, mode);
        let time = field::<DateTime>(members, "time"@, mode);
        let timestamp = field::<u64>(members, "timestamp"@, mode);
        let tx_id = optional_field::<Uuid>(members, "tx_id"@, mode);
        let voided = field::<bool>(members, "voided"@, mode);
        let wallet = field::<Wallet>(members, "wallet"@, mode);
        let wallet_trail_identifier = field::<i64>(members, "wallet_trail_identifier"@, mode);
        if amount is Err {
            Err(amount->Err_0)
        } else if amount_swapped is Err {
            Err(amount_swapped->Err_0)
        } else if appended is Err {
            Err(appended->Err_0)
        } else if cancelled is Err {
            Err(cancelled->Err_0)
        } else if complete is Err {
            Err(complete->Err_0)
        } else if delivery_proof is Err {
            Err(delivery_proof->Err_0)
        } else if eon_number is Err {
            Err(eon_number->Err_0)
        } else if id is Err {
            Err(id->Err_0)
        } else if matched_amounts is Err {
            Err(matched_amounts->Err_0)
        } else if nonce is Err {
            Err(nonce->Err_0)
        } else if passive is Err {
            Err(passive->Err_0)
        } else if position is Err {
            Err(position->Err_0)
        } else if recipient is Err {
            Err(recipient->Err_0)
        } else if recipient_active_state is Err {
            Err(recipient_active_state->Err_0)
        } else if recipient_cancellation_active_state is Err {
            Err(recipient_cancellation_active_state->Err_0)
        } else if recipient_finalization_active_state is Err {
            Err(recipient_finalization_active_state->Err_0)
        } else if recipient_fulfillment_active_state is Err {
            Err(recipient_fulfillment_active_state->Err_0)
        } else if recipient_starting_balance is Err {
            Err(recipient_starting_balance->Err_0)
        } else if recipient_trail_identifier is Err {
            Err(recipient_trail_identifier->Err_0)
        } else if sender_active_state is Err {
            Err(sender_active_state->Err_0)
        } else if sender_cancellation_active_state is Err {
            Err(sender_cancellation_active_state->Err_0)
        } else if sender_finalization_active_state is Err {
            Err(sender_finalization_active_state->Err_0)
        } else if sender_starting_balance is Err {
            Err(sender_starting_balance->Err_0)
        } else if swap_freezing_signature is Err {
            Err(swap_freezing_signature->Err_0)
        } else if time is Err {
            Err(time->Err_0)
        } else if timestamp is Err {
            Err(timestamp->Err_0)
        } else if tx_id is Err {
            Err(tx_id->Err_0)
        } else if voided is Err {
            Err(voided->Err_0)
        } else if wallet is Err {
            Err(wallet->Err_0)
        } else if wallet_trail_identifier is Err {
            Err(wallet_trail_identifier->Err_0)
        } else {
            Ok(
                TransferModel {
                    amount: amount->Ok_0,
                    amount_swapped: amount_swapped->Ok_0,
                    appended: appended->Ok_0,
                    cancelled: cancelled->Ok_0,
                    complete: complete->Ok_0,
                    delivery_proof: delivery_proof->Ok_0,
                    eon_number: eon_number->Ok_0,
                    id: id->Ok_0,
                    matched_amounts: matched_amounts->Ok_0,
                    nonce: nonce->Ok_0,
                    passive: passive->Ok_0,
                    position: position->Ok_0,
                    recipient: recipient->Ok_0,
                    recipient_active_state: recipient_active_state->Ok_0,
                    recipient_cancellation_active_state: recipient_cancellation_active_state->Ok_0,
                    recipient_finalization_active_state: recipient_finalization_active_state->Ok_0,
                    recipient_fulfillment_active_state: recipient_fulfillment_active_state->Ok_0,
                    recipient_starting_balance: recipient_starting_balance->Ok_0,
                    recipient_trail_identifier: recipient_trail_identifier->Ok_0,
                    sender_active_state: sender_active_state->Ok_0,
                    sender_cancellation_active_state: sender_cancellation_active_state->Ok_0,
                    sender_finalization_active_state: sender_finalization_active_state->Ok_0,
                    sender_starting_balance: sender_starting_balance->Ok_0,
                    swap_freezing_signature: swap_freezing_signature->Ok_0,
                    time: time->Ok_0,
                    timestamp: timestamp->Ok_0,
                    tx_id: tx_id->Ok_0,
                    voided: voided->Ok_0,
                    wallet: wallet->Ok_0,
                    wallet_trail_identifier: wallet_trail_identifier->Ok_0,
                },
            )
        }
    }

    /// The full transfer that a JSON value holds, or the first fault found: the
    /// value is no object, then (in strict mode) the first unknown key, then
    /// the fields in the order of [`Self::keys`].
    pub open spec fn decoded(value: JsonModel, mode: Mode) -> Result<TransferModel, Fault> {
        match opened(value, Self::keys(), mode) {
            Err(fault) => Err(fault),
            Ok(members) => Self::assembled(members, mode),
        }
    }

    /// In the object that writes a full transfer every key is known and is found
    /// with the value of its field.
    pub proof fn lemma_members(self)
        ensures
            self.json() is Object,
            first_unknown(self.json()->Object_0, Self::keys()) is None,
            lookup(self.json()->Object_0, "amount"@) == Some(u64::json_of(self.amount)),
            lookup(self.json()->Object_0, "amount_swapped"@) == Some(
                optional_json::<u64>(self.amount_swapped),
            ),
            lookup(self.json()->Object_0, "appended"@) == Some(bool::json_of(self.appended)),
            lookup(self.json()->Object_0, "cancelled"@) == Some(bool::json_of(self.cancelled)),
            lookup(self.json()->Object_0, "complete"@) == Some(bool::json_of(self.complete)),
            lookup(self.json()->Object_0, "delivery_proof"@) == Some(
                DeliveryProof::json_of(self.delivery_proof),
            ),
            lookup(self.json()->Object_0, "eon_number"@) == Some(i64::json_of(self.eon_number)),
            lookup(self.json()->Object_0, "id"@) == Some(i64::json_of(self.id)),
            lookup(self.json()->Object_0, "matched_amounts"@) == Some(
                MatchedAmounts::json_of(self.matched_amounts),
            ),
            lookup(self.json()->Object_0, "nonce"@) == Some(u64::json_of(self.nonce)),
            lookup(self.json()->Object_0, "passive"@) == Some(bool::json_of(self.passive)),
            lookup(self.json()->Object_0, "position"@) == Some(optional_json::<u64>(self.position)),
            lookup(self.json()->Object_0, "recipient"@) == Some(Wallet::json_of(self.recipient)),
            lookup(self.json()->Object_0, "recipient_active_state"@) == Some(
                SenderActiveState::json_of(self.recipient_active_state),
            ),
            lookup(self.json()->Object_0, "recipient_cancellation_active_state"@) == Some(
                SenderActiveState::json_of(self.recipient_cancellation_active_state),
            ),
            lookup(self.json()->Object_0, "recipient_finalization_active_state"@) == Some(
                SenderActiveState::json_of(self.recipient_finalization_active_state),
            ),
            lookup(self.json()->Object_0, "recipient_fulfillment_active_state"@) == Some(
                SenderActiveState::json_of(self.recipient_fulfillment_active_state),
            ),
            lookup(self.json()->Object_0, "recipient_starting_balance"@) == Some(
                optional_json::<u64>(self.recipient_starting_balance),
            ),
            lookup(self.json()->Object_0, "recipient_trail_identifier"@) == Some(
                i64::json_of(self.recipient_trail_identifier),
            ),
            lookup(self.json()->Object_0, "sender_active_state"@) == Some(
                SenderActiveState::json_of(self.sender_active_state),
            ),
            lookup(self.json()->Object_0, "sender_cancellation_active_state"@) == Some(
                SenderActiveState::json_of(self.sender_cancellation_active_state),
            ),
            lookup(self.json()->Object_0, "sender_finalization_active_state"@) == Some(
                SenderActiveState::json_of(self.sender_finalization_active_state),
            ),
            lookup(self.json()->Object_0, "sender_starting_balance"@) == Some(
                optional_json::<u64>(self.sender_starting_balance),
            ),
            lookup(self.json()->Object_0, "swap_freezing_signature"@) == Some(
                String::json_of(self.swap_freezing_signature),
            ),
            lookup(self.json()->Object_0, "time"@) == Some(DateTime::json_of(self.time)),
            lookup(self.json()->Object_0, "timestamp"@) == Some(u64::json_of(self.timestamp)),
            lookup(self.json()->Object_0, "tx_id"@) == Some(optional_json::<Uuid>(self.tx_id)),
            lookup(self.json()->Object_0, "voided"@) == Some(bool::json_of(self.voided)),
            lookup(self.json()->Object_0, "wallet"@) == Some(Wallet::json_of(self.wallet)),
            lookup(self.json()->Object_0, "wallet_trail_identifier"@) == Some(
                i64::json_of(self.wallet_trail_identifier),
            ),
    {
        let members = self.json()->Object_0;
        reveal_strlit("amount");
        reveal_strlit("amount_swapped");
        reveal_strlit("appended");
        reveal_strlit("cancelled");
        reveal_strlit("complete");
        reveal_strlit("delivery_proof");
        reveal_strlit("eon_number");
        reveal_strlit("id");
        reveal_strlit("matched_amounts");
        reveal_strlit("nonce");
        reveal_strlit("passive");
        reveal_strlit("position");
        reveal_strlit("recipient");
        reveal_strlit("recipient_active_state");
        reveal_strlit("recipient_cancellation_active_state");
        reveal_strlit("recipient_finalization_active_state");
        reveal_strlit("recipient_fulfillment_active_state");
        reveal_strlit("recipient_starting_balance");
        reveal_strlit("recipient_trail_identifier");
        reveal_strlit("sender_active_state");
        reveal_strlit("sender_cancellation_active_state");
        reveal_strlit("sender_finalization_active_state");
        reveal_strlit("sender_starting_balance");
        reveal_strlit("swap_freezing_signature");
        reveal_strlit("time");
        reveal_strlit("timestamp");
        reveal_strlit("tx_id");
        reveal_strlit("voided");
        reveal_strlit("wallet");
        reveal_strlit("wallet_trail_identifier");
        assert("amount"@.len() == 6);
        assert("amount_swapped"@.len() == 14);
        assert("appended"@.len() == 8);
        assert("cancelled"@.len() == 9);
        assert("complete"@.len() == 8);
        assert("delivery_proof"@.len() == 14);
        assert("eon_number"@.len() == 10);
        assert("id"@.len() == 2);
        assert("matched_amounts"@.len() == 15);
        assert("nonce"@.len() == 5);
        assert("passive"@.len() == 7);
        assert("position"@.len() == 8);
        assert("recipient"@.len() == 9);
        assert("recipient_active_state"@.len() == 22);
        assert("recipient_cancellation_active_state"@.len() == 35);
        assert("recipient_finalization_active_state"@.len() == 35);
        assert("recipient_fulfillment_active_state"@.len() == 34);
        assert("recipient_starting_balance"@.len() == 26);
        assert("recipient_trail_identifier"@.len() == 26);
        assert("sender_active_state"@.len() == 19);
        assert("sender_cancellation_active_state"@.len() == 32);
        assert("sender_finalization_active_state"@.len() == 32);
        assert("sender_starting_balance"@.len() == 23);
        assert("swap_freezing_signature"@.len() == 23);
        assert("time"@.len() == 4);
        assert("timestamp"@.len() == 9);
        assert("tx_id"@.len() == 5);
        assert("voided"@.len() == 6);
        assert("wallet"@.len() == 6);
        assert("wallet_trail_identifier"@.len() == 23);
        assert("amount"@[0] == 'a');
        assert("voided"@[0] == 'v');
        assert("wallet"@[0] == 'w');
        assert("amount_swapped"@[0] == 'a');
        assert("delivery_proof"@[0] == 'd');
        assert("appended"@[0] == 'a');
        assert("complete"@[0] == 'c');
        assert("position"@[0] == 'p');
        assert("cancelled"@[0] == 'c');
        assert("recipient"@[0] == 'r');
        assert("timestamp"@[0] == 't');
        assert("nonce"@[0] == 'n');
        assert("tx_id"@[0] == 't');
        assert("recipient_cancellation_active_state"@[10] == 'c');
        assert("recipient_finalization_active_state"@[10] == 'f');
        assert("recipient_starting_balance"@[10] == 's');
        assert("recipient_trail_identifier"@[10] == 't');
        assert("sender_cancellation_active_state"@[7] == 'c');
        assert("sender_finalization_active_state"@[7] == 'f');
        assert("sender_starting_balance"@[1] == 'e');
        assert("swap_freezing_signature"@[1] == 'w');
        assert("wallet_trail_identifier"@[1] == 'a');
        assert(Self::keys()[0] == "amount"@);
        assert(Self::keys()[1] == "amount_swapped"@);
        assert(Self::keys()[2] == "appended"@);
        assert(Self::keys()[3] == "cancelled"@);
        assert(Self::keys()[4] == "complete"@);
        assert(Self::keys()[5] == "delivery_proof"@);
        assert(Self::keys()[6] == "eon_number"@);
        assert(Self::keys()[7] == "id"@);
        assert(Self::keys()[8] == "matched_amounts"@);
        assert(Self::keys()[9] == "nonce"@);
        assert(Self::keys()[10] == "passive"@);
        assert(Self::keys()[11] == "position"@);
        assert(Self::keys()[12] == "recipient"@);
        assert(Self::keys()[13] == "recipient_active_state"@);
        assert(Self::keys()[14] == "recipient_cancellation_active_state"@);
        assert(Self::keys()[15] == "recipient_finalization_active_state"@);
        assert(Self::keys()[16] == "recipient_fulfillment_active_state"@);
        assert(Self::keys()[17] == "recipient_starting_balance"@);
        assert(Self::keys()[18] == "recipient_trail_identifier"@);
        assert(Self::keys()[19] == "sender_active_state"@);
        assert(Self::keys()[20] == "sender_cancellation_active_state"@);
        assert(Self::keys()[21] == "sender_finalization_active_state"@);
        assert(Self::keys()[22] == "sender_starting_balance"@);
        assert(Self::keys()[23] == "swap_freezing_signature"@);
        assert(Self::keys()[24] == "time"@);
        assert(Self::keys()[25] == "timestamp"@);
        assert(Self::keys()[26] == "tx_id"@);
        assert(Self::keys()[27] == "voided"@);
        assert(Self::keys()[28] == "wallet"@);
        assert(Self::keys()[29] == "wallet_trail_identifier"@);
        lemma_all_known(members, Self::keys());
        lemma_lookup_at(members, "amount"@, 0);
        lemma_lookup_at(members, "amount_swapped"@, 1);
        lemma_lookup_at(members, "appended"@, 2);
        lemma_lookup_at(members, "cancelled"@, 3);
        lemma_lookup_at(members, "complete"@, 4);
        lemma_lookup_at(members, "delivery_proof"@, 5);
        lemma_lookup_at(members, "eon_number"@, 6);
        lemma_lookup_at(members, "id"@, 7);
        lemma_lookup_at(members, "matched_amounts"@, 8);
        lemma_lookup_at(members, "nonce"@, 9);
        lemma_lookup_at(members, "passive"@, 10);
        lemma_lookup_at(members, "position"@, 11);
        lemma_lookup_at(members, "recipient"@, 12);
        lemma_lookup_at(members, "recipient_active_state"@, 13);
        lemma_lookup_at(members, "recipient_cancellation_active_state"@, 14);
        lemma_lookup_at(members, "recipient_finalization_active_state"@, 15);
        lemma_lookup_at(members, "recipient_fulfillment_active_state"@, 16);
        lemma_lookup_at(members, "recipient_starting_balance"@, 17);
        lemma_lookup_at(members, "recipient_trail_identifier"@, 18);
        lemma_lookup_at(members, "sender_active_state"@, 19);
        lemma_lookup_at(members, "sender_cancellation_active_state"@, 20);
        lemma_lookup_at(members, "sender_finalization_active_state"@, 21);
        lemma_lookup_at(members, "sender_starting_balance"@, 22);
        lemma_lookup_at(members, "swap_freezing_signature"@, 23);
        lemma_lookup_at(members, "time"@, 24);
        lemma_lookup_at(members, "timestamp"@, 25);
        lemma_lookup_at(members, "tx_id"@, 26);
        lemma_lookup_at(members, "voided"@, 27);
        lemma_lookup_at(members, "wallet"@, 28);
        lemma_lookup_at(members, "wallet_trail_identifier"@, 29);
    }

    /// A valid full transfer that was written is read back, in either mode.
    pub proof fn lemma_round_trip(self, mode: Mode)
        requires
            self.valid(),
        ensures
            Self::decoded(self.json(), mode) == Ok::<TransferModel, Fault>(self),
    {
        self.lemma_members();
        let members = self.json()->Object_0;
        u64::lemma_round_trip(self.amount, mode);
        assert(field::<u64>(members, "amount"@, mode) == Ok::<u64, Fault>(self.amount));
        lemma_optional_round_trip::<u64>(self.amount_swapped, mode);
        assert(optional_field::<u64>(members, "amount_swapped"@, mode) == Ok::<
            Option<u64>,
            Fault,
        >(self.amount_swapped));
        bool::lemma_round_trip(self.appended, mode);
        assert(field::<bool>(members, "appended"@, mode) == Ok::<bool, Fault>(self.appended));
        bool::lemma_round_trip(self.cancelled, mode);
        assert(field::<bool>(members, "cancelled"@, mode) == Ok::<bool, Fault>(self.cancelled));
        bool::lemma_round_trip(self.complete, mode);
        assert(field::<bool>(members, "complete"@, mode) == Ok::<bool, Fault>(self.complete));
        DeliveryProof::lemma_round_trip(self.delivery_proof, mode);
        assert(field::<DeliveryProof>(members, "delivery_proof"@, mode) == Ok::<
            DeliveryProofModel,
            Fault,
        >(self.delivery_proof));
        i64::lemma_round_trip(self.eon_number, mode);
        assert(field::<i64>(members, "eon_number"@, mode) == Ok::<i64, Fault>(self.eon_number));
        i64::lemma_round_trip(self.id, mode);
        assert(field::<i64>(members, "id"@, mode) == Ok::<i64, Fault>(self.id));
        MatchedAmounts::lemma_round_trip(self.matched_amounts, mode);
        assert(field::<MatchedAmounts>(members, "matched_amounts"@, mode) == Ok::<
            MatchedAmountsModel,
            Fault,
        >(self.matched_amounts));
        u64::lemma_round_trip(self.nonce, mode);
        assert(field::<u64>(members, "nonce"@, mode) == Ok::<u64, Fault>(self.nonce));
        bool::lemma_round_trip(self.passive, mode);
        assert(field::<bool>(members, "passive"@, mode) == Ok::<bool, Fault>(self.passive));
        lemma_optional_round_trip::<u64>(self.position, mode);
        assert(optional_field::<u64>(members, "position"@, mode) == Ok::<
            Option<u64>,
            Fault,
        >(self.position));
        Wallet::lemma_round_trip(self.recipient, mode);
        assert(field::<Wallet>(members, "recipient"@, mode) == Ok::<
            WalletModel,
            Fault,
        >(self.recipient));
        SenderActiveState::lemma_round_trip(self.recipient_active_state, mode);
        assert(field::<SenderActiveState>(members, "recipient_active_state"@, mode) == Ok::<
            SenderActiveStateModel,
            Fault,
        >(self.recipient_active_state));
        SenderActiveState::lemma_round_trip(self.recipient_cancellation_active_state, mode);
        assert(field::<SenderActiveState>(members, "recipient_cancellation_active_state"@, mode) == Ok::<
            SenderActiveStateModel,
            Fault,
        >(self.recipient_cancellation_active_state));
        SenderActiveState::lemma_round_trip(self.recipient_finalization_active_state, mode);
        assert(field::<SenderActiveState>(members, "recipient_finalization_active_state"@, mode) == Ok::<
            SenderActiveStateModel,
            Fault,
        >(self.recipient_finalization_active_state));
        SenderActiveState::lemma_round_trip(self.recipient_fulfillment_active_state, mode);
        assert(field::<SenderActiveState>(members, "recipient_fulfillment_active_state"@, mode) == Ok::<
            SenderActiveStateModel,
            Fault,
        >(self.recipient_fulfillment_active_state));
        lemma_optional_round_trip::<u64>(self.recipient_starting_balance, mode);
        assert(optional_field::<u64>(members, "recipient_starting_balance"@, mode) == Ok::<
            Option<u64>,
            Fault,
        >(self.recipient_starting_balance));
        i64::lemma_round_trip(self.recipient_trail_identifier, mode);
        assert(field::<i64>(members, "recipient_trail_identifier"@, mode) == Ok::<
            i64,
            Fault,
        >(self.recipient_trail_identifier));
        SenderActiveState::lemma_round_trip(self.sender_active_state, mode);
        assert(field::<SenderActiveState>(members, "sender_active_state"@, mode) == Ok::<
            SenderActiveStateModel,
            Fault,
        >(self.sender_active_state));
        SenderActiveState::lemma_round_trip(self.sender_cancellation_active_state, mode);
        assert(field::<SenderActiveState>(members, "sender_cancellation_active_state"@, mode) == Ok::<
            SenderActiveStateModel,
            Fault,
        >(self.sender_cancellation_active_state));
        SenderActiveState::lemma_round_trip(self.sender_finalization_active_state, mode);
        assert(field::<SenderActiveState>(members, "sender_finalization_active_state"@, mode) == Ok::<
            SenderActiveStateModel,
            Fault,
        >(self.sender_finalization_active_state));
        lemma_optional_round_trip::<u64>(self.sender_starting_balance, mode);
        assert(optional_field::<u64>(members, "sender_starting_balance"@, mode) == Ok::<
            Option<u64>,
            Fault,
        >(self.sender_starting_balance));
        String::lemma_round_trip(self.swap_freezing_signature, mode);
        assert(field::<String>(members, "swap_freezing_signature"@, mode) == Ok::<
            Seq<char>,
            Fault,
        >(self.swap_freezing_signature));
        DateTime::lemma_round_trip(self.time, mode);
        assert(field::<DateTime>(members, "time"@, mode) == Ok::<(i64, u32), Fault>(self.time));
        u64::lemma_round_trip(self.timestamp, mode);
        assert(field::<u64>(members, "timestamp"@, mode) == Ok::<u64, Fault>(self.timestamp));
        lemma_optional_round_trip::<Uuid>(self.tx_id, mode);
        assert(optional_field::<Uuid>(members, "tx_id"@, mode) == Ok::<
            Option<u128>,
            Fault,
        >(self.tx_id));
        bool::lemma_round_trip(self.voided, mode);
        assert(field::<bool>(members, "voided"@, mode) == Ok::<bool, Fault>(self.voided));
        Wallet::lemma_round_trip(self.wallet, mode);
        assert(field::<Wallet>(members, "wallet"@, mode) == Ok::<WalletModel, Fault>(self.wallet));
        i64::lemma_round_trip(self.wallet_trail_identifier, mode);
        assert(field::<i64>(members, "wallet_trail_identifier"@, mode) == Ok::<
            i64,
            Fault,
        >(self.wallet_trail_identifier));
    }
}

impl Transfer {
    /// The keys of a full transfer.
    fn known() -> (keys: Vec<&'static str>)
        ensures
            names(keys@) == TransferModel::keys(),
    {
        let mut keys: Vec<&'static str> = Vec::new();
        keys.push("amount");
        keys.push("amount_swapped");
        keys.push("appended");
        keys.push("cancelled");
        keys.push("complete");
        keys.push("delivery_proof");
        keys.push("eon_number");
        keys.push("id");
        keys.push("matched_amounts");
        keys.push("nonce");
        keys.push("passive");
        keys.push("position");
        keys.push("recipient");
        keys.push("recipient_active_state");
        keys.push("recipient_cancellation_active_state");
        keys.push("recipient_finalization_active_state");
        keys.push("recipient_fulfillment_active_state");
        keys.push("recipient_starting_balance");
        keys.push("recipient_trail_identifier");
        keys.push("sender_active_state");
        keys.push("sender_cancellation_active_state");
        keys.push("sender_finalization_active_state");
        keys.push("sender_starting_balance");
        keys.push("swap_freezing_signature");
        keys.push("time");
        keys.push("timestamp");
        keys.push("tx_id");
        keys.push("voided");
        keys.push("wallet");
        keys.push("wallet_trail_identifier");
        assert(names(keys@) =~= TransferModel::keys());
        keys
    }
}

impl ToJson for Transfer {
    open spec fn json_of(model: TransferModel) -> JsonModel {
        model.json()
    }

    /// Writes the full transfer as a JSON object with the keys `amount`,
    /// `amount_swapped`, `appended`, `cancelled`, `complete`,
    /// `delivery_proof`, `eon_number`, `id`, `matched_amounts`, `nonce`,
    /// `passive`, `position`, `recipient`, `recipient_active_state`,
    /// `recipient_cancellation_active_state`,
    /// `recipient_finalization_active_state`,
    /// `recipient_fulfillment_active_state`, `recipient_starting_balance`,
    /// `recipient_trail_identifier`, `sender_active_state`,
    /// `sender_cancellation_active_state`,
    /// `sender_finalization_active_state`, `sender_starting_balance`,
    /// `swap_freezing_signature`, `time`, `timestamp`, `tx_id`, `voided`,
    /// `wallet` and `wallet_trail_identifier`, in this order.
    fn encode(&self) -> (json: Json) {
        let mut members: Vec<(String, Json)> = Vec::new();
        members.push(member("amount", self.amount.encode()));
        members.push(member("amount_swapped", write_optional(&self.amount_swapped)));
        members.push(member("appended", self.appended.encode()));
        members.push(member("cancelled", self.cancelled.encode()));
        members.push(member("complete", self.complete.encode()));
        members.push(member("delivery_proof", self.delivery_proof.encode()));
        members.push(member("eon_number", self.eon_number.encode()));
        members.push(member("id", self.id.encode()));
        members.push(member("matched_amounts", self.matched_amounts.encode()));
        members.push(member("nonce", self.nonce.encode()));
        members.push(member("passive", self.passive.encode()));
        members.push(member("position", write_optional(&self.position)));
        members.push(member("recipient", self.recipient.encode()));
        members.push(member("recipient_active_state", self.recipient_active_state.encode()));
        members.push(
            member(
                "recipient_cancellation_active_state",
                self.recipient_cancellation_active_state.encode(),
            ),
        );
        members.push(
            member(
                "recipient_finalization_active_state",
                self.recipient_finalization_active_state.encode(),
            ),
        );
        members.push(
            member(
                "recipient_fulfillment_active_state",
                self.recipient_fulfillment_active_state.encode(),
            ),
        );
        members.push(
            member("recipient_starting_balance", write_optional(&self.recipient_starting_balance)),
        );
        members.push(
            member("recipient_trail_identifier", self.recipient_trail_identifier.encode()),
        );
        members.push(member("sender_active_state", self.sender_active_state.encode()));
        members.push(
            member(
                "sender_cancellation_active_state",
                self.sender_cancellation_active_state.encode(),
            ),
        );
        members.push(
            member(
                "sender_finalization_active_state",
                self.sender_finalization_active_state.encode(),
            ),
        );
        members.push(
            member("sender_starting_balance", write_optional(&self.sender_starting_balance)),
        );
        members.push(member("swap_freezing_signature", self.swap_freezing_signature.encode()));
        members.push(member("time", self.time.encode()));
        members.push(member("timestamp", self.timestamp.encode()));
        members.push(member("tx_id", write_optional(&self.tx_id)));
        members.push(member("voided", self.voided.encode()));
        members.push(member("wallet", self.wallet.encode()));
        members.push(member("wallet_trail_identifier", self.wallet_trail_identifier.encode()));
        assert(members_model(members@) =~= self@.json()->Object_0);
        object(members)
    }
}

impl FromJson for Transfer {
    open spec fn decoded(value: JsonModel, mode: Mode) -> Result<TransferModel, Fault> {
        TransferModel::decoded(value, mode)
    }

    open spec fn valid(model: TransferModel) -> bool {
        model.valid()
    }

    proof fn lemma_round_trip(model: TransferModel, mode: Mode) {
        model.lemma_round_trip(mode);
    }

    /// Reads a full transfer from a JSON object.
    fn decode(json: &Json, mode: Mode) -> (r: Result<Transfer, Error>) {
        let members = open(json, &Transfer::known(), mode)?;
        let amount = read_field::<u64>(members, "amount", mode)?;
        let amount_swapped = read_optional::<u64>(members, "amount_swapped", mode)?;
        let appended = read_field::<bool>(members, "appended", mode)?;
        let cancelled = read_field::<bool>(members, "cancelled", mode)?;
        let complete = read_field::<bool>(members, "complete", mode)?;
        let delivery_proof = read_field::<DeliveryProof>(members, "delivery_proof", mode)?;
        let eon_number = read_field::<i64>(members, "eon_number", mode)?;
        let id = read_field::<i64>(members, "id", mode)?;
        let matched_amounts = read_field::<MatchedAmounts>(members, "matched_amounts", mode)?;
        let nonce = read_field::<u64>(members, "nonce", mode)?;
        let passive = read_field::<bool>(members, "passive", mode)?;
        let position = read_optional::<u64>(members, "position", mode)?;
        let recipient = read_field::<Wallet>(members, "recipient", mode)?;
        let recipient_active_state = read_field::<SenderActiveState>(
            members,
            "recipient_active_state",
            mode,
        )?;
        let recipient_cancellation_active_state = read_field::<SenderActiveState>(
            members,
            "recipient_cancellation_active_state",
            mode,
        )?;
        let recipient_finalization_active_state = read_field::<SenderActiveState>(
            members,
            "recipient_finalization_active_state",
            mode,
        )?;
        let recipient_fulfillment_active_state = read_field::<SenderActiveState>(
            members,
            "recipient_fulfillment_active_state",
            mode,
        )?;
        let recipient_starting_balance = read_optional::<u64>(
            members,
            "recipient_starting_balance",
            mode,
        )?;
        let recipient_trail_identifier = read_field::<i64>(
            members,
            "recipient_trail_identifier",
            mode,
        )?;
        let sender_active_state = read_field::<SenderActiveState>(
            members,
            "sender_active_state",
            mode,
        )?;
        let sender_cancellation_active_state = read_field::<SenderActiveState>(
            members,
            "sender_cancellation_active_state",
            mode,
        )?;
        let sender_finalization_active_state = read_field::<SenderActiveState>(
            members,
            "sender_finalization_active_state",
            mode,
        )?;
        let sender_starting_balance = read_optional::<u64>(
            members,
            "sender_starting_balance",
            mode,
        )?;
        let swap_freezing_signature = read_field::<String>(
            members,
            "swap_freezing_signature",
            mode,
        )?;
        let time = read_field::<DateTime>(members, "time", mode)?;
        let timestamp = read_field::<u64>(members, "timestamp", mode)?;
        let tx_id = read_optional::<Uuid>(members, "tx_id", mode)?;
        let voided = read_field::<bool>(members, "voided", mode)?;
        let wallet = read_field::<Wallet>(members, "wallet", mode)?;
        let wallet_trail_identifier = read_field::<i64>(members, "wallet_trail_identifier", mode)?;
        let value = Transfer {
            amount,
            amount_swapped,
            appended,
            cancelled,
            complete,
            delivery_proof,
            eon_number,
            id,
            matched_amounts,
            nonce,
            passive,
            position,
            recipient,
            recipient_active_state,
            recipient_cancellation_active_state,
            recipient_finalization_active_state,
            recipient_fulfillment_active_state,
            recipient_starting_balance,
            recipient_trail_identifier,
            sender_active_state,
            sender_cancellation_active_state,
            sender_finalization_active_state,
            sender_starting_balance,
            swap_freezing_signature,
            time,
            timestamp,
            tx_id,
            voided,
            wallet,
            wallet_trail_identifier,
        };
        assert(Self::valid(value@));
        Ok(value)
    }
}

/// A deposit.
#[derive(Clone, Debug, PartialEq, Eq)]
pub struct Deposit {
    pub amount: u64,
    pub block: i64,
    pub eon_number: i64,
    pub time: DateTime,
    pub txid: String,
}

/// A deposit record as contracts see it.
pub ghost struct DepositModel {
    pub amount: u64,
    pub block: i64,
    pub eon_number: i64,
    pub time: (i64, u32),
    pub txid: Seq<char>,
}

impl View for Deposit {
    type V = DepositModel;

    open spec fn view(&self) -> DepositModel {
        DepositModel {
            amount: self.amount@,
            block: self.block@,
            eon_number: self.eon_number@,
            time: self.time@,
            txid: self.txid@,
        }
    }
}

impl DepositModel {
    /// The keys of a deposit record, in the order they are written.
    pub open spec fn keys() -> Seq<Seq<char>> {
        seq![
            "amount"@,
            "block"@,
            "eon_number"@,
            "time"@,
            "txid"@,
        ]
    }

    /// The JSON object of a deposit record.
    pub open spec fn json(self) -> JsonModel {
        JsonModel::Object(
            seq![
                ("amount"@, u64::json_of(self.amount)),
                ("block"@, i64::json_of(self.block)),
                ("eon_number"@, i64::json_of(self.eon_number)),
                ("time"@, DateTime::json_of(self.time)),
                ("txid"@, String::json_of(self.txid)),
            ],
        )
    }

    /// Every part of the deposit record is valid.
    pub open spec fn valid(self) -> bool {
        &&& u64::valid(self.amount)
        &&& i64::valid(self.block)
        &&& i64::valid(self.eon_number)
        &&& DateTime::valid(self.time)
        &&& String::valid(self.txid)
    }

    /// The deposit record that the members of an object make, or the fault of the
    /// first field, in the order of [`Self::keys`], that has one.
    pub open spec fn assembled(members: Members, mode: Mode) -> Result<DepositModel, Fault> {
        let amount = field::<u64>(members, "amount"@, mode);
        let block = field::<i64>(members, "block"@, mode);
        let eon_number = field::<i64>(members, "eon_number"@, mode);
        let time = field::<DateTime>(members, "time"@, mode);
        let txid = field::<String>(members, "txid"@, mode);
        if amount is Err {
            Err(amount->Err_0)
        } else if block is Err {
            Err(block->Err_0)
        } else if eon_number is Err {
            Err(eon_number->Err_0)
        } else if time is Err {
            Err(time->Err_0)
        } else if txid is Err {
            Err(txid->Err_0)
        } else {
            Ok(
                DepositModel {
                    amount: amount->Ok_0,
                    block: block->Ok_0,
                    eon_number: eon_number->Ok_0,
                    time: time->Ok_0,
                    txid: txid->Ok_0,
                },
            )
        }
    }

    /// The deposit record that a JSON value holds, or the first fault found: the
    /// value is no object, then (in strict mode) the first unknown key, then
    /// the fields in the order of [`Self::keys`].
    pub open spec fn decoded(value: JsonModel, mode: Mode) -> Result<DepositModel, Fault> {
        match opened(value, Self::keys(), mode) {
            Err(fault) => Err(fault),
            Ok(members) => Self::assembled(members, mode),
        }
    }

    /// In the object that writes a deposit record every key is known and is found
    /// with the value of its field.
    pub proof fn lemma_members(self)
        ensures
            self.json() is Object,
            first_unknown(self.json()->Object_0, Self::keys()) is None,
            lookup(self.json()->Object_0, "amount"@) == Some(u64::json_of(self.amount)),
            lookup(self.json()->Object_0, "block"@) == Some(i64::json_of(self.block)),
            lookup(self.json()->Object_0, "eon_number"@) == Some(i64::json_of(self.eon_number)),
            lookup(self.json()->Object_0, "time"@) == Some(DateTime::json_of(self.time)),
            lookup(self.json()->Object_0, "txid"@) == Some(String::json_of(self.txid)),
    {
        let members = self.json()->Object_0;
        reveal_strlit("amount");
        reveal_strlit("block");
        reveal_strlit("eon_number");
        reveal_strlit("time");
        reveal_strlit("txid");
        assert("amount"@.len() == 6);
        assert("block"@.len() == 5);
        assert("eon_number"@.len() == 10);
        assert("time"@.len() == 4);
        assert("txid"@.len() == 4);
        assert("time"@[1] == 'i');
        assert("txid"@[1] == 'x');
        assert(Self::keys()[0] == "amount"@);
        assert(Self::keys()[1] == "block"@);
        assert(Self::keys()[2] == "eon_number"@);
        assert(Self::keys()[3] == "time"@);
        assert(Self::keys()[4] == "txid"@);
        lemma_all_known(members, Self::keys());
        lemma_lookup_at(members, "amount"@, 0);
        lemma_lookup_at(members, "block"@, 1);
        lemma_lookup_at(members, "eon_number"@, 2);
        lemma_lookup_at(members, "time"@, 3);
        lemma_lookup_at(members, "txid"@, 4);
    }

    /// A valid deposit record that was written is read back, in either mode.
    pub proof fn lemma_round_trip(self, mode: Mode)
        requires
            self.valid(),
        ensures
            Self::decoded(self.json(), mode) == Ok::<DepositModel, Fault>(self),
    {
        self.lemma_members();
        u64::lemma_round_trip(self.amount, mode);
        i64::lemma_round_trip(self.block, mode);
        i64::lemma_round_trip(self.eon_number, mode);
        DateTime::lemma_round_trip(self.time, mode);
        String::lemma_round_trip(self.txid, mode);
    }
}

impl Deposit {
    /// The keys of a deposit record.
    fn known() -> (keys: Vec<&'static str>)
        ensures
            names(keys@) == DepositModel::keys(),
    {
        let mut keys: Vec<&'static str> = Vec::new();
        keys.push("amount");
        keys.push("block");
        keys.push("eon_number");
        keys.push("time");
        keys.push("txid");
        assert(names(keys@) =~= DepositModel::keys());
        keys
    }
}

impl ToJson for Deposit {
    open spec fn json_of(model: DepositModel) -> JsonModel {
        model.json()
    }

    /// Writes the deposit record as a JSON object with the keys `amount`,
    /// `block`, `eon_number`, `time` and `txid`, in this order.
    fn encode(&self) -> (json: Json) {
        let mut members: Vec<(String, Json)> = Vec::new();
        members.push(member("amount", self.amount.encode()));
        members.push(member("block", self.block.encode()));
        members.push(member("eon_number", self.eon_number.encode()));
        members.push(member("time", self.time.encode()));
        members.push(member("txid", self.txid.encode()));
        assert(members_model(members@) =~= self@.json()->Object_0);
        object(members)
    }
}

impl FromJson for Deposit {
    open spec fn decoded(value: JsonModel, mode: Mode) -> Result<DepositModel, Fault> {
        DepositModel::decoded(value, mode)
    }

    open spec fn valid(model: DepositModel) -> bool {
        model.valid()
    }

    proof fn lemma_round_trip(model: DepositModel, mode: Mode) {
        model.lemma_round_trip(mode);
    }

    /// Reads a deposit record from a JSON object.
    fn decode(json: &Json, mode: Mode) -> (r: Result<Deposit, Error>) {
        let members = open(json, &Deposit::known(), mode)?;
        let amount = read_field::<u64>(members, "amount", mode)?;
        let block = read_field::<i64>(members, "block", mode)?;
        let eon_number = read_field::<i64>(members, "eon_number", mode)?;
        let time = read_field::<DateTime>(members, "time", mode)?;
        let txid = read_field::<String>(members, "txid", mode)?;
        let value = Deposit {
            amount,
            block,
            eon_number,
            time,
            txid,
        };
        assert(Self::valid(value@));
        Ok(value)
    }
}

/// The registration of a wallet.
#[derive(Clone, Debug, PartialEq, Eq)]
pub struct Registration {
    pub eon_number: u64,
    pub operator_signature: String,
    pub trail_identifier: u64,
    pub wallet_signature: String,
}

/// A wallet registration as contracts see it.
pub ghost struct RegistrationModel {
    pub eon_number: u64,
    pub operator_signature: Seq<char>,
    pub trail_identifier: u64,
    pub wallet_signature: Seq<char>,
}

impl View for Registration {
    type V = RegistrationModel;

    open spec fn view(&self) -> RegistrationModel {
        RegistrationModel {
            eon_number: self.eon_number@,
            operator_signature: self.operator_signature@,
            trail_identifier: self.trail_identifier@,
            wallet_signature: self.wallet_signature@,
        }
    }
}

impl RegistrationModel {
    /// The keys of a wallet registration, in the order they are written.
    pub open spec fn keys() -> Seq<Seq<char>> {
        seq![
            "eon_number"@,
            "operator_signature"@,
            "trail_identifier"@,
            "wallet_signature"@,
        ]
    }

    /// The JSON object of a wallet registration.
    pub open spec fn json(self) -> JsonModel {
        JsonModel::Object(
            seq![
                ("eon_number"@, u64::json_of(self.eon_number)),
                ("operator_signature"@, String::json_of(self.operator_signature)),
                ("trail_identifier"@, u64::json_of(self.trail_identifier)),
                ("wallet_signature"@, String::json_of(self.wallet_signature)),
            ],
        )
    }

    /// Every part of the wallet registration is valid.
    pub open spec fn valid(self) -> bool {
        &&& u64::valid(self.eon_number)
        &&& String::valid(self.operator_signature)
        &&& u64::valid(self.trail_identifier)
        &&& String::valid(self.wallet_signature)
    }

    /// The wallet registration that the members of an object make, or the fault of the
    /// first field, in the order of [`Self::keys`], that has one.
    pub open spec fn assembled(members: Members, mode: Mode) -> Result<RegistrationModel, Fault> {
        let eon_number = field::<u64>(members, "eon_number"@, mode);
        let operator_signature = field::<String>(members, "operator_signature"@, mode);
        let trail_identifier = field::<u64>(members, "trail_identifier"@, mode);
        let wallet_signature = field::<String>(members, "wallet_signature"@, mode);
        if eon_number is Err {
            Err(eon_number->Err_0)
        } else if operator_signature is Err {
            Err(operator_signature->Err_0)
        } else if trail_identifier is Err {
            Err(trail_identifier->Err_0)
        } else if wallet_signature is Err {
            Err(wallet_signature->Err_0)
        } else {
            Ok(
                RegistrationModel {
                    eon_number: eon_number->Ok_0,
                    operator_signature: operator_signature->Ok_0,
                    trail_identifier: trail_identifier->Ok_0,
                    wallet_signature: wallet_signature->Ok_0,
                },
            )
        }
    }

    /// The wallet registration that a JSON value holds, or the first fault found: the
    /// value is no object, then (in strict mode) the first unknown key, then
    /// the fields in the order of [`Self::keys`].
    pub open spec fn decoded(value: JsonModel, mode: Mode) -> Result<RegistrationModel, Fault> {
        match opened(value, Self::keys(), mode) {
            Err(fault) => Err(fault),
            Ok(members) => Self::assembled(members, mode),
        }
    }

    /// In the object that writes a wallet registration every key is known and is found
    /// with the value of its field.
    pub proof fn lemma_members(self)
        ensures
            self.json() is Object,
            first_unknown(self.json()->Object_0, Self::keys()) is None,
            lookup(self.json()->Object_0, "eon_number"@) == Some(u64::json_of(self.eon_number)),
            lookup(self.json()->Object_0, "operator_signature"@) == Some(
                String::json_of(self.operator_signature),
            ),
            lookup(self.json()->Object_0, "trail_identifier"@) == Some(
                u64::json_of(self.trail_identifier),
            ),
            lookup(self.json()->Object_0, "wallet_signature"@) == Some(
                String::json_of(self.wallet_signature),
            ),
    {
        let members = self.json()->Object_0;
        reveal_strlit("eon_number");
        reveal_strlit("operator_signature");
        reveal_strlit("trail_identifier");
        reveal_strlit("wallet_signature");
        assert("eon_number"@.len() == 10);
        assert("operator_signature"@.len() == 18);
        assert("trail_identifier"@.len() == 16);
        assert("wallet_signature"@.len() == 16);
        assert("trail_identifier"@[0] == 't');
        assert("wallet_signature"@[0] == 'w');
        assert(Self::keys()[0] == "eon_number"@);
        assert(Self::keys()[1] == "operator_signature"@);
        assert(Self::keys()[2] == "trail_identifier"@);
        assert(Self::keys()[3] == "wallet_signature"@);
        lemma_all_known(members, Self::keys());
        lemma_lookup_at(members, "eon_number"@, 0);
        lemma_lookup_at(members, "operator_signature"@, 1);
        lemma_lookup_at(members, "trail_identifier"@, 2);
        lemma_lookup_at(members, "wallet_signature"@, 3);
    }

    /// A valid wallet registration that was written is read back, in either mode.
    pub proof fn lemma_round_trip(self, mode: Mode)
        requires
            self.valid(),
        ensures
            Self::decoded(self.json(), mode) == Ok::<RegistrationModel, Fault>(self),
    {
        self.lemma_members();
        u64::lemma_round_trip(self.eon_number, mode);
        String::lemma_round_trip(self.operator_signature, mode);
        u64::lemma_round_trip(self.trail_identifier, mode);
        String::lemma_round_trip(self.wallet_signature, mode);
    }
}

impl Registration {
    /// The keys of a wallet registration.
    fn known() -> (keys: Vec<&'static str>)
        ensures
            names(keys@) == RegistrationModel::keys(),
    {
        let mut keys: Vec<&'static str> = Vec::new();
        keys.push("eon_number");
        keys.push("operator_signature");
        keys.push("trail_identifier");
        keys.push("wallet_signature");
        assert(names(keys@) =~= RegistrationModel::keys());
        keys
    }
}

impl ToJson for Registration {
    open spec fn json_of(model: RegistrationModel) -> JsonModel {
        model.json()
    }

    /// Writes the wallet registration as a JSON object with the keys
    /// `eon_number`, `operator_signature`, `trail_identifier` and
    /// `wallet_signature`, in this order.
    fn encode(&self) -> (json: Json) {
        let mut members: Vec<(String, Json)> = Vec::new();
        members.push(member("eon_number", self.eon_number.encode()));
        members.push(member("operator_signature", self.operator_signature.encode()));
        members.push(member("trail_identifier", self.trail_identifier.encode()));
        members.push(member("wallet_signature", self.wallet_signature.encode()));
        assert(members_model(members@) =~= self@.json()->Object_0);
        object(members)
    }
}

impl FromJson for Registration {
    open spec fn decoded(value: JsonModel, mode: Mode) -> Result<RegistrationModel, Fault> {
        RegistrationModel::decoded(value, mode)
    }

    open spec fn valid(model: RegistrationModel) -> bool {
        model.valid()
    }

    proof fn lemma_round_trip(model: RegistrationModel, mode: Mode) {
        model.lemma_round_trip(mode);
    }

    /// Reads a wallet registration from a JSON object.
    fn decode(json: &Json, mode: Mode) -> (r: Result<Registration, Error>) {
        let members = open(json, &Registration::known(), mode)?;
        let eon_number = read_field::<u64>(members, "eon_number", mode)?;
        let operator_signature = read_field::<String>(members, "operator_signature", mode)?;
        let trail_identifier = read_field::<u64>(members, "trail_identifier", mode)?;
        let wallet_signature = read_field::<String>(members, "wallet_signature", mode)?;
        let value = Registration {
            eon_number,
            operator_signature,
            trail_identifier,
            wallet_signature,
        };
        assert(Self::valid(value@));
        Ok(value)
    }
}

/// All that the hub holds of a wallet.
#[derive(Clone, Debug, PartialEq, Eq)]
pub struct WalletState {
    pub deposits: Vec<Deposit>,
    pub merkle_proofs: Vec<MerkleProof>,
    pub registration: Registration,
    pub transfers: Vec<TransferAudit>,
    pub withdrawal_request: Vec<WithdrawalRequest>,
    pub withdrawals: Vec<Withdrawal>,
}

/// A wallet state as contracts see it.
pub ghost struct WalletStateModel {
    pub deposits: Seq<DepositModel>,
    pub merkle_proofs: Seq<MerkleProofModel>,
    pub registration: RegistrationModel,
    pub transfers: Seq<TransferAuditModel>,
    pub withdrawal_request: Seq<WithdrawalRequestModel>,
    pub withdrawals: Seq<WithdrawalModel>,
}

impl View for WalletState {
    type V = WalletStateModel;

    open spec fn view(&self) -> WalletStateModel {
        WalletStateModel {
            deposits: models(self.deposits@),
            merkle_proofs: models(self.merkle_proofs@),
            registration: self.registration@,
            transfers: models(self.transfers@),
            withdrawal_request: models(self.withdrawal_request@),
            withdrawals: models(self.withdrawals@),
        }
    }
}

impl WalletStateModel {
    /// The keys of a wallet state, in the order they are written.
    pub open spec fn keys() -> Seq<Seq<char>> {
        seq![
            "deposits"@,
            "merkle_proofs"@,
            "registration"@,
            "transfers"@,
            "withdrawal_request"@,
            "withdrawals"@,
        ]
    }

    /// The JSON object of a wallet state.
    pub open spec fn json(self) -> JsonModel {
        JsonModel::Object(
            seq![
                ("deposits"@, list_json::<Deposit>(self.deposits)),
                ("merkle_proofs"@, list_json::<MerkleProof>(self.merkle_proofs)),
                ("registration"@, Registration::json_of(self.registration)),
                ("transfers"@, list_json::<TransferAudit>(self.transfers)),
                ("withdrawal_request"@, list_json::<WithdrawalRequest>(self.withdrawal_request)),
                ("withdrawals"@, list_json::<Withdrawal>(self.withdrawals)),
            ],
        )
    }

    /// Every part of the wallet state is valid.
    pub open spec fn valid(self) -> bool {
        &&& all_valid::<Deposit>(self.deposits)
        &&& all_valid::<MerkleProof>(self.merkle_proofs)
        &&& Registration::valid(self.registration)
        &&& all_valid::<TransferAudit>(self.transfers)
        &&& all_valid::<WithdrawalRequest>(self.withdrawal_request)
        &&& all_valid::<Withdrawal>(self.withdrawals)
    }

    /// The wallet state that the members of an object make, or the fault of the
    /// first field, in the order of [`Self::keys`], that has one.
    pub open spec fn assembled(members: Members, mode: Mode) -> Result<WalletStateModel, Fault> {
        let deposits = list_field::<Deposit>(members, "deposits"@, mode);
        let merkle_proofs = list_field::<MerkleProof>(members, "merkle_proofs"@, mode);
        let registration = field::<Registration>(members, "registration"@, mode);
        let transfers = list_field::<TransferAudit>(members, "transfers"@, mode);
        let withdrawal_request = list_field::<WithdrawalRequest>(
            members,
            "withdrawal_request"@,
            mode,
        );
        let withdrawals = list_field::<Withdrawal>(members, "withdrawals"@, mode);
        if deposits is Err {
            Err(deposits->Err_0)
        } else if merkle_proofs is Err {
            Err(merkle_proofs->Err_0)
        } else if registration is Err {
            Err(registration->Err_0)
        } else if transfers is Err {
            Err(transfers->Err_0)
        } else if withdrawal_request is Err {
            Err(withdrawal_request->Err_0)
        } else if withdrawals is Err {
            Err(withdrawals->Err_0)
        } else {
            Ok(
                WalletStateModel {
                    deposits: deposits->Ok_0,
                    merkle_proofs: merkle_proofs->Ok_0,
                    registration: registration->Ok_0,
                    transfers: transfers->Ok_0,
                    withdrawal_request: withdrawal_request->Ok_0,
                    withdrawals: withdrawals->Ok_0,
                },
            )
        }
    }

    /// The wallet state that a JSON value holds, or the first fault found: the
    /// value is no object, then (in strict mode) the first unknown key, then
    /// the fields in the order of [`Self::keys`].
    pub open spec fn decoded(value: JsonModel, mode: Mode) -> Result<WalletStateModel, Fault> {
        match opened(value, Self::keys(), mode) {
            Err(fault) => Err(fault),
            Ok(members) => Self::assembled(members, mode),
        }
    }

    /// In the object that writes a wallet state every key is known and is found
    /// with the value of its field.
    pub proof fn lemma_members(self)
        ensures
            self.json() is Object,
            first_unknown(self.json()->Object_0, Self::keys()) is None,
            lookup(self.json()->Object_0, "deposits"@) == Some(list_json::<Deposit>(self.deposits)),
            lookup(self.json()->Object_0, "merkle_proofs"@) == Some(
                list_json::<MerkleProof>(self.merkle_proofs),
            ),
            lookup(self.json()->Object_0, "registration"@) == Some(
                Registration::json_of(self.registration),
            ),
            lookup(self.json()->Object_0, "transfers"@) == Some(
                list_json::<TransferAudit>(self.transfers),
            ),
            lookup(self.json()->Object_0, "withdrawal_request"@) == Some(
                list_json::<WithdrawalRequest>(self.withdrawal_request),
            ),
            lookup(self.json()->Object_0, "withdrawals"@) == Some(
                list_json::<Withdrawal>(self.withdrawals),
            ),
    {
        let members = self.json()->Object_0;
        reveal_strlit("deposits");
        reveal_strlit("merkle_proofs");
        reveal_strlit("registration");
        reveal_strlit("transfers");
        reveal_strlit("withdrawal_request");
        reveal_strlit("withdrawals");
        assert("deposits"@.len() == 8);
        assert("merkle_proofs"@.len() == 13);
        assert("registration"@.len() == 12);
        assert("transfers"@.len() == 9);
        assert("withdrawal_request"@.len() == 18);
        assert("withdrawals"@.len() == 11);
        assert(Self::keys()[0] == "deposits"@);
        assert(Self::keys()[1] == "merkle_proofs"@);
        assert(Self::keys()[2] == "registration"@);
        assert(Self::keys()[3] == "transfers"@);
        assert(Self::keys()[4] == "withdrawal_request"@);
        assert(Self::keys()[5] == "withdrawals"@);
        lemma_all_known(members, Self::keys());
        lemma_lookup_at(members, "deposits"@, 0);
        lemma_lookup_at(members, "merkle_proofs"@, 1);
        lemma_lookup_at(members, "registration"@, 2);
        lemma_lookup_at(members, "transfers"@, 3);
        lemma_lookup_at(members, "withdrawal_request"@, 4);
        lemma_lookup_at(members, "withdrawals"@, 5);
    }

    /// A valid wallet state that was written is read back, in either mode.
    pub proof fn lemma_round_trip(self, mode: Mode)
        requires
            self.valid(),
        ensures
            Self::decoded(self.json(), mode) == Ok::<WalletStateModel, Fault>(self),
    {
        self.lemma_members();
        lemma_list_round_trip::<Deposit>(self.deposits, mode);
        lemma_list_round_trip::<MerkleProof>(self.merkle_proofs, mode);
        Registration::lemma_round_trip(self.registration, mode);
        lemma_list_round_trip::<TransferAudit>(self.transfers, mode);
        lemma_list_round_trip::<WithdrawalRequest>(self.withdrawal_request, mode);
        lemma_list_round_trip::<Withdrawal>(self.withdrawals, mode);
    }
}

impl WalletState {
    /// The keys of a wallet state.
    fn known() -> (keys: Vec<&'static str>)
        ensures
            names(keys@) == WalletStateModel::keys(),
    {
        let mut keys: Vec<&'static str> = Vec::new();
        keys.push("deposits");
        keys.push("merkle_proofs");
        keys.push("registration");
        keys.push("transfers");
        keys.push("withdrawal_request");
        keys.push("withdrawals");
        assert(names(keys@) =~= WalletStateModel::keys());
        keys
    }
}

impl ToJson for WalletState {
    open spec fn json_of(model: WalletStateModel) -> JsonModel {
        model.json()
    }

    /// Writes the wallet state as a JSON object with the keys `deposits`,
    /// `merkle_proofs`, `registration`, `transfers`, `withdrawal_request` and
    /// `withdrawals`, in this order.
    fn encode(&self) -> (json: Json) {
        let mut members: Vec<(String, Json)> = Vec::new();
        members.push(member("deposits", write_list(&self.deposits)));
        members.push(member("merkle_proofs", write_list(&self.merkle_proofs)));
        members.push(member("registration", self.registration.encode()));
        members.push(member("transfers", write_list(&self.transfers)));
        members.push(member("withdrawal_request", write_list(&self.withdrawal_request)));
        members.push(member("withdrawals", write_list(&self.withdrawals)));
        assert(members_model(members@) =~= self@.json()->Object_0);
        object(members)
    }
}

impl FromJson for WalletState {
    open spec fn decoded(value: JsonModel, mode: Mode) -> Result<WalletStateModel, Fault> {
        WalletStateModel::decoded(value, mode)
    }

    open spec fn valid(model: WalletStateModel) -> bool {
        model.valid()
    }

    proof fn lemma_round_trip(model: WalletStateModel, mode: Mode) {
        model.lemma_round_trip(mode);
    }

    /// Reads a wallet state from a JSON object.
    fn decode(json: &Json, mode: Mode) -> (r: Result<WalletState, Error>) {
        let members = open(json, &WalletState::known(), mode)?;
        let deposits = read_list_field::<Deposit>(members, "deposits", mode)?;
        let merkle_proofs = read_list_field::<MerkleProof>(members, "merkle_proofs", mode)?;
        let registration = read_field::<Registration>(members, "registration", mode)?;
        let transfers = read_list_field::<TransferAudit>(members, "transfers", mode)?;
        let withdrawal_request = read_list_field::<WithdrawalRequest>(
            members,
            "withdrawal_request",
            mode,
        )?;
        let withdrawals = read_list_field::<Withdrawal>(members, "withdrawals", mode)?;
        let value = WalletState {
            deposits,
            merkle_proofs,
            registration,
            transfers,
            withdrawal_request,
            withdrawals,
        };
        assert(Self::valid(value@));
        Ok(value)
    }
}

/// Who a wallet is to the hub.
#[derive(Clone, Debug, PartialEq, Eq)]
pub struct WhoIs {
    pub eon_number: u64,
    pub operator_signature: String,
    pub trail_identifier: u64,
    pub wallet_signature: String,
}

/// A wallet identity as contracts see it.
pub ghost struct WhoIsModel {
    pub eon_number: u64,
    pub operator_signature: Seq<char>,
    pub trail_identifier: u64,
    pub wallet_signature: Seq<char>,
}

impl View for WhoIs {
    type V = WhoIsModel;

    open spec fn view(&self) -> WhoIsModel {
        WhoIsModel {
            eon_number: self.eon_number@,
            operator_signature: self.operator_signature@,
            trail_identifier: self.trail_identifier@,
            wallet_signature: self.wallet_signature@,
        }
    }
}

impl WhoIsModel {
    /// The keys of a wallet identity, in the order they are written.
    pub open spec fn keys() -> Seq<Seq<char>> {
        seq![
            "eon_number"@,
            "operator_signature"@,
            "trail_identifier"@,
            "wallet_signature"@,
        ]
    }

    /// The JSON object of a wallet identity.
    pub open spec fn json(self) -> JsonModel {
        JsonModel::Object(
            seq![
                ("eon_number"@, u64::json_of(self.eon_number)),
                ("operator_signature"@, String::json_of(self.operator_signature)),
                ("trail_identifier"@, u64::json_of(self.trail_identifier)),
                ("wallet_signature"@, String::json_of(self.wallet_signature)),
            ],
        )
    }

    /// Every part of the wallet identity is valid.
    pub open spec fn valid(self) -> bool {
        &&& u64::valid(self.eon_number)
        &&& String::valid(self.operator_signature)
        &&& u64::valid(self.trail_identifier)
        &&& String::valid(self.wallet_signature)
    }

    /// The wallet identity that the members of an object make, or the fault of the
    /// first field, in the order of [`Self::keys`], that has one.
    pub open spec fn assembled(members: Members, mode: Mode) -> Result<WhoIsModel, Fault> {
        let eon_number = field::<u64>(members, "eon_number"@, mode);
        let operator_signature = field::<String>(members, "operator_signature"@, mode);
        let trail_identifier = field::<u64>(members, "trail_identifier"@, mode);
        let wallet_signature = field::<String>(members, "wallet_signature"@, mode);
        if eon_number is Err {
            Err(eon_number->Err_0)
        } else if operator_signature is Err {
            Err(operator_signature->Err_0)
        } else if trail_identifier is Err {
            Err(trail_identifier->Err_0)
        } else if wallet_signature is Err {
            Err(wallet_signature->Err_0)
        } else {
            Ok(
                WhoIsModel {
                    eon_number: eon_number->Ok_0,
                    operator_signature: operator_signature->Ok_0,
                    trail_identifier: trail_identifier->Ok_0,
                    wallet_signature: wallet_signature->Ok_0,
                },
            )
        }
    }

    /// The wallet identity that a JSON value holds, or the first fault found: the
    /// value is no object, then (in strict mode) the first unknown key, then
    /// the fields in the order of [`Self::keys`].
    pub open spec fn decoded(value: JsonModel, mode: Mode) -> Result<WhoIsModel, Fault> {
        match opened(value, Self::keys(), mode) {
            Err(fault) => Err(fault),
            Ok(members) => Self::assembled(members, mode),
        }
    }

    /// In the object that writes a wallet identity every key is known and is found
    /// with the value of its field.
    pub proof fn lemma_members(self)
        ensures
            self.json() is Object,
            first_unknown(self.json()->Object_0, Self::keys()) is None,
            lookup(self.json()->Object_0, "eon_number"@) == Some(u64::json_of(self.eon_number)),
            lookup(self.json()->Object_0, "operator_signature"@) == Some(
                String::json_of(self.operator_signature),
            ),
            lookup(self.json()->Object_0, "trail_identifier"@) == Some(
                u64::json_of(self.trail_identifier),
            ),
            lookup(self.json()->Object_0, "wallet_signature"@) == Some(
                String::json_of(self.wallet_signature),
            ),
    {
        let members = self.json()->Object_0;
        reveal_strlit("eon_number");
        reveal_strlit("operator_signature");
        reveal_strlit("trail_identifier");
        reveal_strlit("wallet_signature");
        assert("eon_number"@.len() == 10);
        assert("operator_signature"@.len() == 18);
        assert("trail_identifier"@.len() == 16);
        assert("wallet_signature"@.len() == 16);
        assert("trail_identifier"@[0] == 't');
        assert("wallet_signature"@[0] == 'w');
        assert(Self::keys()[0] == "eon_number"@);
        assert(Self::keys()[1] == "operator_signature"@);
        assert(Self::keys()[2] == "trail_identifier"@);
        assert(Self::keys()[3] == "wallet_signature"@);
        lemma_all_known(members, Self::keys());
        lemma_lookup_at(members, "eon_number"@, 0);
        lemma_lookup_at(members, "operator_signature"@, 1);
        lemma_lookup_at(members, "trail_identifier"@, 2);
        lemma_lookup_at(members, "wallet_signature"@, 3);
    }

    /// A valid wallet identity that was written is read back, in either mode.
    pub proof fn lemma_round_trip(self, mode: Mode)
        requires
            self.valid(),
        ensures
            Self::decoded(self.json(), mode) == Ok::<WhoIsModel, Fault>(self),
    {
        self.lemma_members();
        u64::lemma_round_trip(self.eon_number, mode);
        String::lemma_round_trip(self.operator_signature, mode);
        u64::lemma_round_trip(self.trail_identifier, mode);
        String::lemma_round_trip(self.wallet_signature, mode);
    }
}

impl WhoIs {
    /// The keys of a wallet identity.
    fn known() -> (keys: Vec<&'static str>)
        ensures
            names(keys@) == WhoIsModel::keys(),
    {
        let mut keys: Vec<&'static str> = Vec::new();
        keys.push("eon_number");
        keys.push("operator_signature");
        keys.push("trail_identifier");
        keys.push("wallet_signature");
        assert(names(keys@) =~= WhoIsModel::keys());
        keys
    }
}

impl ToJson for WhoIs {
    open spec fn json_of(model: WhoIsModel) -> JsonModel {
        model.json()
    }

    /// Writes the wallet identity as a JSON object with the keys
    /// `eon_number`, `operator_signature`, `trail_identifier` and
    /// `wallet_signature`, in this order.
    fn encode(&self) -> (json: Json) {
        let mut members: Vec<(String, Json)> = Vec::new();
        members.push(member("eon_number", self.eon_number.encode()));
        members.push(member("operator_signature", self.operator_signature.encode()));
        members.push(member("trail_identifier", self.trail_identifier.encode()));
        members.push(member("wallet_signature", self.wallet_signature.encode()));
        assert(members_model(members@) =~= self@.json()->Object_0);
        object(members)
    }
}

impl FromJson for WhoIs {
    open spec fn decoded(value: JsonModel, mode: Mode) -> Result<WhoIsModel, Fault> {
        WhoIsModel::decoded(value, mode)
    }

    open spec fn valid(model: WhoIsModel) -> bool {
        model.valid()
    }

    proof fn lemma_round_trip(model: WhoIsModel, mode: Mode) {
        model.lemma_round_trip(mode);
    }

    /// Reads a wallet identity from a JSON object.
    fn decode(json: &Json, mode: Mode) -> (r: Result<WhoIs, Error>) {
        let members = open(json, &WhoIs::known(), mode)?;
        let eon_number = read_field::<u64>(members, "eon_number", mode)?;
        let operator_signature = read_field::<String>(members, "operator_signature", mode)?;
        let trail_identifier = read_field::<u64>(members, "trail_identifier", mode)?;
        let wallet_signature = read_field::<String>(members, "wallet_signature", mode)?;
        let value = WhoIs {
            eon_number,
            operator_signature,
            trail_identifier,
            wallet_signature,
        };
        assert(Self::valid(value@));
        Ok(value)
    }
}

} // verus!
