use libliquefy::error::Error;
use libliquefy::json::Mode;
use libliquefy::model::common::{
    ActiveState, Block, DateTime, DeliveryProof, MatchedAmounts, MerkleProof, SenderActiveState,
    Signature, Token, TransferAudit, Uri, Uuid, Wallet,
};
use libliquefy::model::http::analytics::{Admissions, EonSnapshot, OperatorStatus};
use libliquefy::model::http::audit::{ConciseTransfer, Transfers};
use libliquefy::model::http::transfer::TransferReceipt;
use libliquefy::model::traits::{FromJson, ToJson};
use libliquefy::request::http::error::{ErrorData, ErrorResponse};

fn state(tag: &str) -> SenderActiveState {
    SenderActiveState {
        operator_signature: format!("{}-operator", tag),
        tx_set_hash: format!("{}-hash", tag),
        tx_set_index: "3".to_string(),
        tx_set_proof: vec!["p1".to_string(), "p2".to_string()],
        updated_gains: "10".to_string(),
        updated_spendings: "20".to_string(),
        wallet_signature: format!("{}-wallet", tag),
    }
}

fn transfer_audit() -> TransferAudit {
    let wallet = |a: &str| Wallet { address: a.to_string(), token: "0xtoken".to_string() };
    TransferAudit {
        amount: 5,
        amount_swapped: None,
        appended: true,
        cancelled: false,
        complete: true,
        delivery_proof: DeliveryProof {
            merkle_proof: MerkleProof {
                active_state: ActiveState {
                    operator_signature: "o".to_string(),
                    tx_set_hash: "h".to_string(),
                    updated_gains: "g".to_string(),
                    updated_spendings: "s".to_string(),
                    wallet_signature: "w".to_string(),
                },
                active_state_checksum: "c".to_string(),
                allotment_chain: vec!["a".to_string()],
                eon_number: 1,
                left: 2,
                membership_chain: vec![],
                passive_amount: 3,
                passive_checksum: "pc".to_string(),
                passive_marker: "pm".to_string(),
                right: 4,
                trail: 5,
                values: vec![1, 2, 3],
            },
            transfer_membership_chain: vec!["x".to_string(), "y".to_string()],
            transfer_membership_trail: 9,
            transfer_membership_values: vec![u64::MAX],
        },
        eon_number: -1,
        id: 77,
        matched_amounts: MatchedAmounts { in_: 1, matched_in: 2, matched_out: 3, out: 4 },
        nonce: 123,
        passive: false,
        position: Some(8),
        processed: true,
        recipient: wallet("0xrecipient"),
        recipient_active_state: state("ra"),
        recipient_cancellation_active_state: state("rc"),
        recipient_finalization_active_state: state("rf"),
        recipient_fulfillment_active_state: state("ru"),
        recipient_starting_balance: Some(0),
        recipient_trail_identifier: 4,
        sender_active_state: state("sa"),
        sender_cancellation_active_state: state("sc"),
        sender_finalization_active_state: state("sf"),
        sender_starting_balance: None,
        swap_freezing_signature: "freeze".to_string(),
        time: DateTime::from_str("2020-01-02T03:04:05Z").unwrap(),
        timestamp: 1577934245,
        tx_id: Some(Uuid::from_u128(0x550e8400e29b41d4a716446655440000)),
        voided: false,
        wallet: wallet("0xwallet"),
        wallet_trail_identifier: 6,
    }
}

#[test]
fn nested_records_round_trip() {
    let audit = transfer_audit();
    for mode in [Mode::Lenient, Mode::Strict] {
        let read = TransferAudit::decode(&audit.encode(), mode).unwrap();
        assert_eq!(read, audit);
        let text = audit.to_json().unwrap();
        assert_eq!(TransferAudit::from_json(&text, mode).unwrap(), audit);
    }
}

#[test]
fn absent_values_are_written_as_null_and_read_from_null_or_nothing() {
    let token = Token { address: "0xaa".to_string(), name: Some("Ether".to_string()), short_name: None };
    assert_eq!(
        token.to_json().unwrap(),
        "{\"address\":\"0xaa\",\"name\":\"Ether\",\"short_name\":null}"
    );
    assert_eq!(Token::from_json(&token.to_json().unwrap(), Mode::Strict).unwrap(), token);
    assert_eq!(
        Token::from_json("{\"address\":\"0xaa\",\"name\":\"Ether\"}", Mode::Strict).unwrap(),
        token
    );
    assert!(matches!(
        Token::from_json("{\"address\":\"0xaa\",\"name\":7}", Mode::Strict),
        Err(Error::ParseError { .. })
    ));
    match Token::from_json("{\"name\":\"Ether\"}", Mode::Strict) {
        Err(Error::MissingField { field }) => assert_eq!(field, "address"),
        other => panic!("{:?}", other),
    }
}

#[test]
fn lists_round_trip_and_report_the_first_fault() {
    let admissions = Admissions {
        eon_number: vec![EonSnapshot { count: 1, eon_number: 1 }, EonSnapshot { count: 2, eon_number: 2 }],
        total: 3,
    };
    assert_eq!(
        admissions.to_json().unwrap(),
        "{\"eon_number\":[{\"count\":1,\"eon_number\":1},{\"count\":2,\"eon_number\":2}],\"total\":3}"
    );
    assert_eq!(Admissions::from_json(&admissions.to_json().unwrap(), Mode::Strict).unwrap(), admissions);
    let status = OperatorStatus {
        blocks_per_eon: 10,
        confirmed: vec![],
        current_eon_number: 2,
        latest: Block { block: 7, eon_number: 2 },
    };
    assert_eq!(OperatorStatus::from_json(&status.to_json().unwrap(), Mode::Strict).unwrap(), status);
    let text = "{\"eon_number\":[{\"count\":1,\"eon_number\":1},{\"count\":2},{\"eon_number\":3}],\"total\":3}";
    match Admissions::from_json(text, Mode::Lenient) {
        Err(Error::MissingField { field }) => assert_eq!(field, "eon_number"),
        other => panic!("{:?}", other),
    }
    let text = "{\"eon_number\":[{\"count\":1,\"eon_number\":1,\"x\":0}],\"total\":3}";
    assert!(Admissions::from_json(text, Mode::Lenient).is_ok());
    match Admissions::from_json(text, Mode::Strict) {
        Err(Error::UnknownField { field }) => assert_eq!(field, "x"),
        other => panic!("{:?}", other),
    }
    assert!(matches!(
        Admissions::from_json("{\"eon_number\":{},\"total\":3}", Mode::Lenient),
        Err(Error::ParseError { .. })
    ));
}

#[test]
fn records_with_scalars_round_trip() {
    let transfer = ConciseTransfer {
        amount: 1,
        amount_swapped: 0,
        cancelled: false,
        complete: true,
        eon_number: 3,
        id: 4,
        nonce: 5,
        passive: true,
        recipient: Wallet { address: "r".to_string(), token: "t".to_string() },
        swap: false,
        time: DateTime::from_str("2020-01-02T03:04:05.5Z").unwrap(),
        voided: false,
        wallet: Wallet { address: "w".to_string(), token: "t".to_string() },
    };
    let page = Transfers {
        count: 1,
        next: Some(Uri::from_str("https://public.liquidity.network/audit/transfers/?offset=1").unwrap()),
        previous: None,
        results: vec![transfer],
    };
    let text = page.to_json().unwrap();
    assert!(text.starts_with("{\"count\":1,\"next\":\"https://public.liquidity.network/audit/transfers/?offset=1\",\"previous\":null,\"results\":[{\"amount\":1,"));
    assert!(text.contains("\"time\":\"2020-01-02T03:04:05.500Z\""));
    assert_eq!(Transfers::from_json(&text, Mode::Strict).unwrap(), page);
    let bad = text.replace("https://public.liquidity.network/audit/transfers/?offset=1", "/audit/transfers/");
    assert!(matches!(Transfers::from_json(&bad, Mode::Strict), Err(Error::InvalidURI { .. })));
    let errors = ErrorResponse {
        non_field_errors: vec![ErrorData {
            code: vec!["WALLET_BLACKLISTED".to_string()],
            message: "no".to_string(),
        }],
        field_errors: vec![],
    };
    assert_eq!(ErrorResponse::from_json(&errors.to_json().unwrap(), Mode::Strict).unwrap(), errors);
    let transfer = TransferReceipt {
        recipient: Wallet { address: "r".to_string(), token: "t".to_string() },
        recipient_active_state: state("r"),
        sender_active_state: state("s"),
        wallet: Wallet { address: "w".to_string(), token: "t".to_string() },
        wallet_signature: Signature { value: "sig".to_string() },
    };
    assert_eq!(
        TransferReceipt::decode(&transfer.encode(), Mode::Strict).unwrap(),
        transfer
    );
    let _ = Uuid::from_u128(1);
}
