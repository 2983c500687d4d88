use libliquefy::model::traits::{FromJson, ToJson};
use libliquefy::error::{Error, ParseReason};
use libliquefy::json::{Json, Mode};
use libliquefy::model::common::Uuid;
use libliquefy::model::ws::{
    AckOp, AckRequest, DepositNotification, ErrorData, ErrorType, Event, EventType,
    GenericRequest, GenericResponse, Message, MessageKind, NotificationData, NotificationType,
    Operation, Payload, PingOp, PingRequest, Request, ResponseType, StreamData, SubscribeOp,
    SubscribeRequest, SubscribeResponse, TokenEvent, TokenPairEventType, TransferAudit,
    UnsubscribeOp, UnsubscribeRequest, UnsubscribeResponse, WalletAdmissionData,
    WalletDataNotification, WalletEvent, WalletEventType, WithdrawalNotification,
    WithdrawalRequestNotification,
};

const WALLET_KINDS: [WalletEventType; 12] = [
    WalletEventType::IncomingTransfer,
    WalletEventType::IncomingReceipt,
    WalletEventType::IncomingConfirmation,
    WalletEventType::TimeoutTransfer,
    WalletEventType::MatchedSwap,
    WalletEventType::FinalizedSwap,
    WalletEventType::CanceledSwap,
    WalletEventType::RegisteredWallet,
    WalletEventType::ConfirmedDeposit,
    WalletEventType::RequestWithdrawal,
    WalletEventType::ConfirmedWithdrawal,
    WalletEventType::CheckpointCreated,
];

const PAYLOADS: [Payload; 6] = [
    Payload::TransferAudit,
    Payload::WalletAdmissionData,
    Payload::DepositNotification,
    Payload::WithdrawalRequestNotification,
    Payload::WithdrawalNotification,
    Payload::WalletDataNotification,
];

fn id() -> Uuid {
    Uuid::from_u128(0x550e8400e29b41d4a716446655440000)
}

fn streams() -> Vec<String> {
    vec!["wallet/0xaa/0xbb".to_string(), "tokenpair/0xaa/0xbb".to_string()]
}

fn wallet_event(shape: Payload) -> WalletEvent {
    let address = "0xaa".to_string();
    let token = "0xbb".to_string();
    match shape {
        Payload::TransferAudit => WalletEvent::TransferAudit(TransferAudit {}),
        Payload::WalletAdmissionData => WalletEvent::WalletAdmissionData(WalletAdmissionData {
            address,
            token,
            eon_number: 4,
            wallet_signature: "w".to_string(),
            operator_signature: "o".to_string(),
            trail_identifier: -1,
        }),
        Payload::DepositNotification => {
            WalletEvent::DepositNotification(DepositNotification { address, token })
        }
        Payload::WithdrawalRequestNotification => WalletEvent::WithdrawalRequestNotification(
            WithdrawalRequestNotification { address, token },
        ),
        Payload::WithdrawalNotification => {
            WalletEvent::WithdrawalNotification(WithdrawalNotification { address, token })
        }
        Payload::WalletDataNotification => {
            WalletEvent::WalletDataNotification(WalletDataNotification { address, token })
        }
    }
}

fn is_event_fault<T: std::fmt::Debug>(r: Result<T, Error>) -> bool {
    matches!(r, Err(Error::ParseError { reason: ParseReason::Event }))
}

#[test]
fn event_type_names() {
    let names = [
        "IncomingTransfer",
        "IncomingReceipt",
        "IncomingConfirmation",
        "TimeoutTransfer",
        "MatchedSwap",
        "FinalizedSwap",
        "CanceledSwap",
        "RegisteredWallet",
        "ConfirmedDeposit",
        "RequestWithdrawal",
        "ConfirmedWithdrawal",
        "CheckpointCreated",
    ];
    for (kind, name) in WALLET_KINDS.iter().zip(names) {
        assert_eq!(kind.name(), name);
        assert_eq!(WalletEventType::from_name(name), Some(*kind));
        assert_eq!(WalletEventType::decode(&kind.encode(), Mode::Strict).unwrap(), *kind);
    }
    assert_eq!(WalletEventType::from_name("incomingtransfer"), None);
    assert_eq!(WalletEventType::from_name("IncomingSwap"), None);
    assert_eq!(TokenPairEventType::from_name("IncomingSwap"), Some(TokenPairEventType::IncomingSwap));
    assert_eq!(TokenPairEventType::from_name("MatchedSwap"), Some(TokenPairEventType::MatchedSwap));
    assert_eq!(TokenPairEventType::from_name("FinalizedSwap"), None);
    assert_eq!(TokenPairEventType::IncomingSwap.name(), "IncomingSwap");
}

#[test]
fn operation_and_message_kind_names() {
    for (operation, name) in [
        (Operation::Ping, "ping"),
        (Operation::Ack, "ack"),
        (Operation::Subscribe, "subscribe"),
        (Operation::Unsubscribe, "unsubscribe"),
    ] {
        assert_eq!(operation.name(), name);
        assert_eq!(Operation::from_name(name), Some(operation));
    }
    assert_eq!(Operation::from_name("Ping"), None);
    for (kind, name) in [
        (MessageKind::Error, "error"),
        (MessageKind::Notification, "notification"),
        (MessageKind::Response, "response"),
    ] {
        assert_eq!(kind.name(), name);
        assert_eq!(MessageKind::from_name(name), Some(kind));
    }
    assert_eq!(MessageKind::from_name("reply"), None);
    assert!(matches!(
        MessageKind::decode(&Json::Text("reply".to_string()), Mode::Strict),
        Err(Error::ParseError { reason: ParseReason::Tag })
    ));
    assert!(matches!(
        Operation::decode(&Json::Null, Mode::Strict),
        Err(Error::ParseError { reason: ParseReason::Shape { .. } })
    ));
}

#[test]
fn event_type_round_trips() {
    let kind = EventType::Wallet(WalletEventType::IncomingTransfer);
    assert_eq!(kind.encode().to_text().unwrap(), "{\"Wallet\":\"IncomingTransfer\"}");
    let pair = EventType::TokenPair(TokenPairEventType::MatchedSwap);
    assert_eq!(pair.encode().to_text().unwrap(), "{\"TokenPair\":\"MatchedSwap\"}");
    for wallet in WALLET_KINDS {
        let kind = EventType::Wallet(wallet);
        assert_eq!(EventType::decode(&kind.encode(), Mode::Strict).unwrap(), kind);
    }
    for pair in [TokenPairEventType::IncomingSwap, TokenPairEventType::MatchedSwap] {
        let kind = EventType::TokenPair(pair);
        assert_eq!(EventType::decode(&kind.encode(), Mode::Strict).unwrap(), kind);
    }
}

#[test]
fn event_type_refuses_other_values() {
    let decode = |text: &str| EventType::decode(&Json::parse(text).unwrap(), Mode::Strict);
    assert!(matches!(decode("{\"Token\":\"MatchedSwap\"}"), Err(Error::ParseError { reason: ParseReason::Tag })));
    assert!(matches!(decode("{\"Wallet\":\"IncomingSwap\"}"), Err(Error::ParseError { reason: ParseReason::Tag })));
    assert!(matches!(decode("{\"TokenPair\":\"IncomingTransfer\"}"), Err(Error::ParseError { reason: ParseReason::Tag })));
    assert!(matches!(decode("{}"), Err(Error::ParseError { reason: ParseReason::Tag })));
    assert!(matches!(
        decode("{\"Wallet\":\"MatchedSwap\",\"TokenPair\":\"MatchedSwap\"}"),
        Err(Error::ParseError { reason: ParseReason::Tag })
    ));
    assert!(matches!(decode("\"Wallet\""), Err(Error::ParseError { reason: ParseReason::Shape { .. } })));
}

#[test]
fn every_wallet_event_type_has_its_payload() {
    let transfers = [
        WalletEventType::IncomingTransfer,
        WalletEventType::IncomingReceipt,
        WalletEventType::IncomingConfirmation,
        WalletEventType::TimeoutTransfer,
        WalletEventType::MatchedSwap,
        WalletEventType::FinalizedSwap,
        WalletEventType::CanceledSwap,
    ];
    for kind in transfers {
        assert_eq!(EventType::payload(kind), Payload::TransferAudit);
    }
    assert_eq!(EventType::payload(WalletEventType::RegisteredWallet), Payload::WalletAdmissionData);
    assert_eq!(EventType::payload(WalletEventType::ConfirmedDeposit), Payload::DepositNotification);
    assert_eq!(
        EventType::payload(WalletEventType::RequestWithdrawal),
        Payload::WithdrawalRequestNotification
    );
    assert_eq!(
        EventType::payload(WalletEventType::ConfirmedWithdrawal),
        Payload::WithdrawalNotification
    );
    assert_eq!(
        EventType::payload(WalletEventType::CheckpointCreated),
        Payload::WalletDataNotification
    );
}

#[test]
fn wallet_event_round_trips_as_its_own_shape() {
    for shape in PAYLOADS {
        let event = wallet_event(shape);
        assert_eq!(event.payload(), shape);
        for mode in [Mode::Lenient, Mode::Strict] {
            assert_eq!(WalletEvent::decode_as(shape, &event.encode(), mode).unwrap(), event);
        }
    }
}

#[test]
fn wallet_event_is_not_read_as_another_shape() {
    for shape in PAYLOADS {
        for other in PAYLOADS {
            if other != shape {
                let json = wallet_event(shape).encode();
                assert!(is_event_fault(WalletEvent::decode_as(other, &json, Mode::Lenient)));
            }
        }
    }
}

#[test]
fn sibling_payloads_are_told_apart_by_the_type() {
    // The four notifications have the same fields: only the type says which one it is.
    let deposit = wallet_event(Payload::DepositNotification);
    assert_eq!(
        deposit.encode().to_text().unwrap(),
        "{\"DepositNotification\":{\"address\":\"0xaa\",\"token\":\"0xbb\"}}"
    );
    let data = NotificationData {
        type_: EventType::Wallet(WalletEventType::ConfirmedWithdrawal),
        data: Event::Wallet(deposit),
    };
    assert!(is_event_fault(data.validate()));
    assert!(is_event_fault(NotificationData::decode(&data.encode(), Mode::Lenient)));
}

#[test]
fn notification_round_trips_for_every_type() {
    for wallet in WALLET_KINDS {
        let type_ = EventType::Wallet(wallet);
        let data = Event::Wallet(wallet_event(EventType::payload(wallet)));
        let notification = NotificationData::new(type_, data).unwrap();
        assert!(notification.validate().is_ok());
        for mode in [Mode::Lenient, Mode::Strict] {
            assert_eq!(
                NotificationData::decode(&notification.encode(), mode).unwrap(),
                notification
            );
        }
    }
    for pair in [TokenPairEventType::IncomingSwap, TokenPairEventType::MatchedSwap] {
        let notification =
            NotificationData::new(EventType::TokenPair(pair), Event::Token(TokenEvent(TransferAudit {})))
                .unwrap();
        assert_eq!(
            NotificationData::decode(&notification.encode(), Mode::Strict).unwrap(),
            notification
        );
    }
}

#[test]
fn notification_wire_form() {
    let notification = NotificationData::new(
        EventType::Wallet(WalletEventType::ConfirmedDeposit),
        Event::Wallet(wallet_event(Payload::DepositNotification)),
    )
    .unwrap();
    assert_eq!(
        notification.encode().to_text().unwrap(),
        "{\"type\":{\"Wallet\":\"ConfirmedDeposit\"},\"data\":{\"Wallet\":{\"DepositNotification\":{\"address\":\"0xaa\",\"token\":\"0xbb\"}}}}"
    );
    let token = NotificationData::new(
        EventType::TokenPair(TokenPairEventType::IncomingSwap),
        Event::Token(TokenEvent(TransferAudit {})),
    )
    .unwrap();
    assert_eq!(
        token.encode().to_text().unwrap(),
        "{\"type\":{\"TokenPair\":\"IncomingSwap\"},\"data\":{\"Token\":{}}}"
    );
}

#[test]
fn wallet_type_with_token_payload_is_refused() {
    let mismatched = NotificationData {
        type_: EventType::Wallet(WalletEventType::IncomingTransfer),
        data: Event::Token(TokenEvent(TransferAudit {})),
    };
    assert!(is_event_fault(mismatched.validate()));
    assert!(is_event_fault(NotificationData::new(mismatched.type_, mismatched.data.clone())));
    for mode in [Mode::Lenient, Mode::Strict] {
        assert!(is_event_fault(NotificationData::decode(&mismatched.encode(), mode)));
    }
    let text = "{\"type\":{\"Wallet\":\"IncomingTransfer\"},\"data\":{\"Token\":{}}}";
    assert_eq!(mismatched.encode().to_text().unwrap(), text);
    assert!(is_event_fault(NotificationData::decode(&Json::parse(text).unwrap(), Mode::Lenient)));
}

#[test]
fn token_pair_type_with_wallet_payload_is_refused() {
    for shape in PAYLOADS {
        let mismatched = NotificationData {
            type_: EventType::TokenPair(TokenPairEventType::MatchedSwap),
            data: Event::Wallet(wallet_event(shape)),
        };
        assert!(is_event_fault(mismatched.validate()));
        assert!(is_event_fault(NotificationData::decode(&mismatched.encode(), Mode::Lenient)));
    }
}

#[test]
fn wallet_type_with_another_wallet_payload_is_refused() {
    for wallet in WALLET_KINDS {
        for shape in PAYLOADS {
            let pair = NotificationData {
                type_: EventType::Wallet(wallet),
                data: Event::Wallet(wallet_event(shape)),
            };
            let fits = EventType::payload(wallet) == shape;
            assert_eq!(pair.data.announced_by(pair.type_), fits);
            assert_eq!(pair.validate().is_ok(), fits);
            let read = NotificationData::decode(&pair.encode(), Mode::Strict);
            if fits {
                assert_eq!(read.unwrap(), pair);
            } else {
                assert!(is_event_fault(read));
            }
        }
    }
}

#[test]
fn payload_that_does_not_parse_is_fatal() {
    // The type announces admission data; the payload carries that tag but lacks its fields.
    let text = "{\"type\":{\"Wallet\":\"RegisteredWallet\"},\"data\":{\"Wallet\":{\"WalletAdmissionData\":{\"address\":\"a\",\"token\":\"t\"}}}}";
    match NotificationData::decode(&Json::parse(text).unwrap(), Mode::Lenient) {
        Err(Error::MissingField { field }) => assert_eq!(field, "eon_number"),
        other => panic!("{:?}", other),
    }
    let text = "{\"type\":{\"Wallet\":\"ConfirmedDeposit\"},\"data\":{\"Wallet\":{\"DepositNotification\":{\"address\":\"a\",\"token\":\"t\",\"new\":1}}}}";
    assert!(NotificationData::decode(&Json::parse(text).unwrap(), Mode::Lenient).is_ok());
    match NotificationData::decode(&Json::parse(text).unwrap(), Mode::Strict) {
        Err(Error::UnknownField { field }) => assert_eq!(field, "new"),
        other => panic!("{:?}", other),
    }
}

#[test]
fn notification_reads_the_type_first() {
    // Both the type and the payload are wrong: the fault of the type is reported.
    let text = "{\"data\":{\"Nothing\":1},\"type\":{\"Wallet\":\"Nothing\"}}";
    assert!(matches!(
        NotificationData::decode(&Json::parse(text).unwrap(), Mode::Lenient),
        Err(Error::ParseError { reason: ParseReason::Tag })
    ));
    match NotificationData::decode(&Json::parse("{\"data\":{}}").unwrap(), Mode::Lenient) {
        Err(Error::MissingField { field }) => assert_eq!(field, "type"),
        other => panic!("{:?}", other),
    }
    match NotificationData::decode(
        &Json::parse("{\"type\":{\"Wallet\":\"MatchedSwap\"}}").unwrap(),
        Mode::Lenient,
    ) {
        Err(Error::MissingField { field }) => assert_eq!(field, "data"),
        other => panic!("{:?}", other),
    }
}

#[test]
fn request_wire_forms() {
    assert_eq!(Request::ping().to_json().unwrap(), "{\"operation\":\"ping\",\"arguments\":null}");
    assert_eq!(
        Request::ack(id()).to_json().unwrap(),
        "{\"operation\":\"ack\",\"arguments\":\"550e8400-e29b-41d4-a716-446655440000\"}"
    );
    assert_eq!(
        Request::subscribe(streams()).to_json().unwrap(),
        "{\"operation\":\"subscribe\",\"arguments\":[\"wallet/0xaa/0xbb\",\"tokenpair/0xaa/0xbb\"]}"
    );
    assert_eq!(
        Request::unsubscribe(vec![]).to_json().unwrap(),
        "{\"operation\":\"unsubscribe\",\"arguments\":[]}"
    );
}

#[test]
fn request_constructors_build_the_generic_shapes() {
    let ping: PingRequest = GenericRequest { op: PingOp, args: () };
    assert_eq!(Request::ping(), Request::Ping(ping));
    let ack: AckRequest = GenericRequest { op: AckOp, args: id() };
    assert_eq!(Request::ack(id()), Request::Ack(ack));
    let subscribe: SubscribeRequest = GenericRequest { op: SubscribeOp, args: streams() };
    assert_eq!(Request::subscribe(streams()), Request::Subscribe(subscribe));
    let unsubscribe: UnsubscribeRequest = GenericRequest { op: UnsubscribeOp, args: streams() };
    assert_eq!(Request::unsubscribe(streams()), Request::Unsubscribe(unsubscribe));
    assert_eq!(Request::ping().operation(), Operation::Ping);
    assert_eq!(Request::ack(id()).operation(), Operation::Ack);
    assert_eq!(Request::subscribe(vec![]).operation(), Operation::Subscribe);
    assert_eq!(Request::unsubscribe(vec![]).operation(), Operation::Unsubscribe);
}

#[test]
fn request_round_trips() {
    for request in [
        Request::ping(),
        Request::ack(id()),
        Request::subscribe(streams()),
        Request::unsubscribe(streams()),
        Request::subscribe(vec![]),
    ] {
        for mode in [Mode::Lenient, Mode::Strict] {
            assert_eq!(Request::decode(&request.encode(), mode).unwrap(), request);
            assert_eq!(Request::from_json(&request.to_json().unwrap(), mode).unwrap(), request);
        }
    }
}

#[test]
fn request_reads_the_arguments_that_the_operation_asks_for() {
    assert_eq!(Request::from_json("{\"operation\":\"ping\"}", Mode::Strict).unwrap(), Request::ping());
    assert!(matches!(
        Request::from_json("{\"operation\":\"ping\",\"arguments\":[]}", Mode::Lenient),
        Err(Error::ParseError { reason: ParseReason::Shape { .. } })
    ));
    match Request::from_json("{\"operation\":\"ack\"}", Mode::Lenient) {
        Err(Error::MissingField { field }) => assert_eq!(field, "arguments"),
        other => panic!("{:?}", other),
    }
    assert!(matches!(
        Request::from_json("{\"operation\":\"ack\",\"arguments\":\"no\"}", Mode::Lenient),
        Err(Error::ParseError { reason: ParseReason::Uuid { .. } })
    ));
    assert!(matches!(
        Request::from_json("{\"operation\":\"subscribe\",\"arguments\":[1]}", Mode::Lenient),
        Err(Error::ParseError { reason: ParseReason::Shape { .. } })
    ));
    assert!(matches!(
        Request::from_json("{\"operation\":\"subscribe\",\"arguments\":\"a\"}", Mode::Lenient),
        Err(Error::ParseError { reason: ParseReason::Shape { .. } })
    ));
    assert!(matches!(
        Request::from_json("{\"operation\":\"pong\",\"arguments\":null}", Mode::Lenient),
        Err(Error::ParseError { reason: ParseReason::Tag })
    ));
    match Request::from_json("{\"arguments\":null}", Mode::Lenient) {
        Err(Error::MissingField { field }) => assert_eq!(field, "operation"),
        other => panic!("{:?}", other),
    }
    match Request::from_json("{\"operation\":\"ping\",\"op\":1}", Mode::Strict) {
        Err(Error::UnknownField { field }) => assert_eq!(field, "op"),
        other => panic!("{:?}", other),
    }
}

fn subscribed() -> Message {
    let response: SubscribeResponse = GenericResponse {
        type_: ResponseType,
        uuid: id(),
        data: StreamData { op: SubscribeOp, stream: streams() },
    };
    Message::Subscribe(response)
}

fn notified() -> Message {
    Message::Notification(GenericResponse {
        type_: NotificationType,
        uuid: id(),
        data: NotificationData::new(
            EventType::Wallet(WalletEventType::RegisteredWallet),
            Event::Wallet(wallet_event(Payload::WalletAdmissionData)),
        )
        .unwrap(),
    })
}

fn refused() -> Message {
    Message::Error(GenericResponse {
        type_: ErrorType,
        uuid: id(),
        data: ErrorData { message: "unknown stream".to_string(), cause: Request::subscribe(streams()) },
    })
}

#[test]
fn message_wire_forms() {
    assert_eq!(
        subscribed().to_json().unwrap(),
        "{\"type\":\"response\",\"id\":\"550e8400-e29b-41d4-a716-446655440000\",\"data\":{\"op\":\"subscribe\",\"stream\":[\"wallet/0xaa/0xbb\",\"tokenpair/0xaa/0xbb\"]}}"
    );
    assert_eq!(
        refused().to_json().unwrap(),
        "{\"type\":\"error\",\"id\":\"550e8400-e29b-41d4-a716-446655440000\",\"data\":{\"message\":\"unknown stream\",\"cause\":{\"operation\":\"subscribe\",\"arguments\":[\"wallet/0xaa/0xbb\",\"tokenpair/0xaa/0xbb\"]}}}"
    );
    assert_eq!(
        notified().to_json().unwrap(),
        "{\"type\":\"notification\",\"id\":\"550e8400-e29b-41d4-a716-446655440000\",\"data\":{\"type\":{\"Wallet\":\"RegisteredWallet\"},\"data\":{\"Wallet\":{\"WalletAdmissionData\":{\"address\":\"0xaa\",\"token\":\"0xbb\",\"eon_number\":4,\"wallet_signature\":\"w\",\"operator_signature\":\"o\",\"trail_identifier\":-1}}}}}"
    );
}

#[test]
fn message_round_trips() {
    let unsubscribed: UnsubscribeResponse = GenericResponse {
        type_: ResponseType,
        uuid: id(),
        data: StreamData { op: UnsubscribeOp, stream: vec![] },
    };
    let messages = [
        subscribed(),
        notified(),
        refused(),
        Message::Unsubscribe(unsubscribed),
        Message::response(Operation::Ping, id(), vec![]),
        Message::response(Operation::Ack, id(), streams()),
    ];
    for message in messages {
        for mode in [Mode::Lenient, Mode::Strict] {
            assert_eq!(Message::decode(&message.encode(), mode).unwrap(), message);
            assert_eq!(Message::from_json(&message.to_json().unwrap(), mode).unwrap(), message);
        }
    }
}

#[test]
fn message_carries_the_identifier_of_its_request() {
    for message in [subscribed(), notified(), refused()] {
        assert_eq!(message.id(), id());
    }
    assert_eq!(subscribed().kind(), MessageKind::Response);
    assert_eq!(notified().kind(), MessageKind::Notification);
    assert_eq!(refused().kind(), MessageKind::Error);
    assert_eq!(Message::response(Operation::Subscribe, id(), streams()), subscribed());
}

#[test]
fn message_with_a_mismatched_event_is_refused() {
    let text = "{\"type\":\"notification\",\"id\":\"550e8400-e29b-41d4-a716-446655440000\",\"data\":{\"type\":{\"Wallet\":\"IncomingTransfer\"},\"data\":{\"Token\":{}}}}";
    assert!(is_event_fault(Message::from_json(text, Mode::Lenient)));
    assert!(is_event_fault(Message::from_json(text, Mode::Strict)));
    let text = "{\"type\":\"notification\",\"id\":\"550e8400-e29b-41d4-a716-446655440000\",\"data\":{\"type\":{\"TokenPair\":\"IncomingSwap\"},\"data\":{\"Wallet\":{\"TransferAudit\":{}}}}}";
    assert!(is_event_fault(Message::from_json(text, Mode::Lenient)));
}

#[test]
fn message_data_is_read_as_the_type_asks() {
    // Data of an answer under the type of an error.
    let text = "{\"type\":\"error\",\"id\":\"550e8400-e29b-41d4-a716-446655440000\",\"data\":{\"op\":\"subscribe\",\"stream\":[]}}";
    match Message::from_json(text, Mode::Lenient) {
        Err(Error::MissingField { field }) => assert_eq!(field, "message"),
        other => panic!("{:?}", other),
    }
    match Message::from_json(text, Mode::Strict) {
        Err(Error::UnknownField { field }) => assert_eq!(field, "op"),
        other => panic!("{:?}", other),
    }
    let text = "{\"type\":\"other\",\"id\":\"550e8400-e29b-41d4-a716-446655440000\",\"data\":{}}";
    assert!(matches!(
        Message::from_json(text, Mode::Lenient),
        Err(Error::ParseError { reason: ParseReason::Tag })
    ));
    let text = "{\"type\":\"response\",\"id\":\"nope\",\"data\":{\"op\":\"subscribe\",\"stream\":[]}}";
    assert!(matches!(
        Message::from_json(text, Mode::Lenient),
        Err(Error::ParseError { reason: ParseReason::Uuid { .. } })
    ));
    let text = "{\"type\":\"response\",\"data\":{\"op\":\"subscribe\",\"stream\":[]}}";
    match Message::from_json(text, Mode::Lenient) {
        Err(Error::MissingField { field }) => assert_eq!(field, "id"),
        other => panic!("{:?}", other),
    }
    assert!(matches!(Message::from_json("not json", Mode::Lenient), Err(Error::JSON { .. })));
}
