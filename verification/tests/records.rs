use libliquefy::model::traits::{FromJson, ToJson};
use libliquefy::constants::{MAINNET_HUB_ADDRESS, REGTEST_HUB_ADDRESS, TESTNET_HUB_ADDRESS};
use libliquefy::error::Error;
use libliquefy::json::{Json, Mode};
use libliquefy::model::common::{ActiveState, Block, MatchedAmounts, Signature, Uri, Wallet};
use libliquefy::model::http::analytics::EonSnapshot;
use libliquefy::model::http::audit::{Registration, SwapAudit, TokenMatching, WhoIs};
use libliquefy::request::constants::{MAINNET_HUB_HOST, REGTEST_HUB_HOST, TESTNET_HUB_HOST};
use libliquefy::request::http::admission::{
    ADMISSION_CREATE_BULK_ERROR_CODES, ADMISSION_CREATE_ERROR_CODES,
};
use libliquefy::request::http::codes::{error_codes, is_error_code, Endpoint};
use libliquefy::request::http::swap::{
    SWAP_CANCEL_UPDATE_ERROR_CODES, SWAP_CREATE_ERROR_CODES, SWAP_FINALIZE_UPDATE_ERROR_CODES,
    SWAP_FREEZE_UPDATE_ERROR_CODES,
};
use libliquefy::request::http::transfer::{TRANSFER_CREATE_ERROR_CODES, TRANSFER_UPDATE_ERROR_CODES};
use libliquefy::utils::{URI, UUID};

#[test]
fn wallet_round_trips() {
    let wallet = Wallet { address: "0xaa".to_string(), token: "0xbb".to_string() };
    assert_eq!(wallet.to_json().unwrap(), "{\"address\":\"0xaa\",\"token\":\"0xbb\"}");
    for mode in [Mode::Lenient, Mode::Strict] {
        assert_eq!(Wallet::from_json(&wallet.to_json().unwrap(), mode).unwrap(), wallet);
        assert_eq!(Wallet::decode(&wallet.encode(), mode).unwrap(), wallet);
    }
}

#[test]
fn wallet_reports_faults() {
    match Wallet::from_json("{\"address\":\"a\"}", Mode::Strict) {
        Err(Error::MissingField { field }) => assert_eq!(field, "token"),
        other => panic!("{:?}", other),
    }
    match Wallet::from_json("{\"address\":\"a\",\"token\":\"t\",\"x\":1}", Mode::Strict) {
        Err(Error::UnknownField { field }) => assert_eq!(field, "x"),
        other => panic!("{:?}", other),
    }
    assert!(Wallet::from_json("{\"address\":\"a\",\"token\":\"t\",\"x\":1}", Mode::Lenient).is_ok());
}

#[test]
fn block_round_trips() {
    let block = Block { block: 12, eon_number: u64::MAX };
    assert_eq!(block.to_json().unwrap(), "{\"block\":12,\"eon_number\":18446744073709551615}");
    for mode in [Mode::Lenient, Mode::Strict] {
        assert_eq!(Block::from_json(&block.to_json().unwrap(), mode).unwrap(), block);
    }
    assert!(matches!(
        Block::from_json("{\"block\":-1,\"eon_number\":0}", Mode::Lenient),
        Err(Error::ParseError { .. })
    ));
}

#[test]
fn matched_amounts_uses_the_key_in() {
    let amounts = MatchedAmounts { in_: 1, matched_in: 2, matched_out: 3, out: 4 };
    assert_eq!(
        amounts.to_json().unwrap(),
        "{\"in\":1,\"matched_in\":2,\"matched_out\":3,\"out\":4}"
    );
    assert_eq!(
        MatchedAmounts::from_json(&amounts.to_json().unwrap(), Mode::Strict).unwrap(),
        amounts
    );
}

#[test]
fn flat_records_round_trip() {
    let state = ActiveState {
        operator_signature: "o".to_string(),
        tx_set_hash: "h".to_string(),
        updated_gains: "g".to_string(),
        updated_spendings: "s".to_string(),
        wallet_signature: "w".to_string(),
    };
    assert_eq!(ActiveState::decode(&state.encode(), Mode::Strict).unwrap(), state);
    let signature = Signature { value: "0xsig".to_string() };
    assert_eq!(signature.to_json().unwrap(), "{\"value\":\"0xsig\"}");
    assert_eq!(Signature::decode(&signature.encode(), Mode::Strict).unwrap(), signature);
    let snapshot = EonSnapshot { count: 3, eon_number: 9 };
    assert_eq!(EonSnapshot::decode(&snapshot.encode(), Mode::Strict).unwrap(), snapshot);
    let order = SwapAudit { amount: 1, amount_swapped: 2, remaining_in: 3, remaining_out: 4 };
    assert_eq!(SwapAudit::decode(&order.encode(), Mode::Strict).unwrap(), order);
    let matching = TokenMatching { price: 1, time: 2, volume: 3 };
    assert_eq!(TokenMatching::decode(&matching.encode(), Mode::Strict).unwrap(), matching);
    let registration = Registration {
        eon_number: 1,
        operator_signature: "o".to_string(),
        trail_identifier: 7,
        wallet_signature: "w".to_string(),
    };
    assert_eq!(
        registration.to_json().unwrap(),
        "{\"eon_number\":1,\"operator_signature\":\"o\",\"trail_identifier\":7,\"wallet_signature\":\"w\"}"
    );
    assert_eq!(Registration::decode(&registration.encode(), Mode::Strict).unwrap(), registration);
    let who = WhoIs {
        eon_number: 1,
        operator_signature: "o".to_string(),
        trail_identifier: 7,
        wallet_signature: "w".to_string(),
    };
    assert_eq!(WhoIs::decode(&who.encode(), Mode::Strict).unwrap(), who);
}

#[test]
fn integers_are_read_from_numbers_only() {
    let decode = |text: &str| EonSnapshot::decode(&Json::parse(text).unwrap(), Mode::Lenient);
    assert!(decode("{\"count\":0,\"eon_number\":1}").is_ok());
    assert!(matches!(decode("{\"count\":\"0\",\"eon_number\":1}"), Err(Error::ParseError { .. })));
    assert!(matches!(decode("{\"count\":0.0,\"eon_number\":1}"), Err(Error::ParseError { .. })));
    assert!(matches!(decode("{\"count\":null,\"eon_number\":1}"), Err(Error::ParseError { .. })));
}

#[test]
fn hub_addresses() {
    assert_eq!(MAINNET_HUB_ADDRESS, "https://public.liquidity.network");
    assert_eq!(TESTNET_HUB_ADDRESS, "https://rinkeby.liquidity.network");
    assert_eq!(REGTEST_HUB_ADDRESS, "https://limbo.liquidity.network");
    assert_eq!(MAINNET_HUB_HOST, "public.liquidity.network");
    assert_eq!(TESTNET_HUB_HOST, "rinkeby.liquidity.network");
    assert_eq!(REGTEST_HUB_HOST, "limbo.liquidity.network");
    for address in [MAINNET_HUB_ADDRESS, TESTNET_HUB_ADDRESS, REGTEST_HUB_ADDRESS] {
        assert_eq!(Uri::from_str(address).unwrap().to_string(), address);
    }
}

#[test]
fn other_names_of_the_scalars() {
    let id: UUID = UUID::from_u128(7);
    assert_eq!(id.as_u128(), 7);
    let uri: URI = URI::from_str("https://example.com").unwrap();
    assert_eq!(uri.to_string(), "https://example.com");
}

#[test]
fn error_codes_by_endpoint() {
    assert_eq!(error_codes(Endpoint::AdmissionCreate), ADMISSION_CREATE_ERROR_CODES.to_vec());
    assert_eq!(
        error_codes(Endpoint::AdmissionCreateBulk),
        ADMISSION_CREATE_BULK_ERROR_CODES.to_vec()
    );
    assert_eq!(error_codes(Endpoint::SwapCreate), SWAP_CREATE_ERROR_CODES.to_vec());
    assert_eq!(error_codes(Endpoint::SwapCancelUpdate), SWAP_CANCEL_UPDATE_ERROR_CODES.to_vec());
    assert_eq!(
        error_codes(Endpoint::SwapFinalizeUpdate),
        SWAP_FINALIZE_UPDATE_ERROR_CODES.to_vec()
    );
    assert_eq!(error_codes(Endpoint::SwapFreezeUpdate), SWAP_FREEZE_UPDATE_ERROR_CODES.to_vec());
    assert_eq!(error_codes(Endpoint::TransferCreate), TRANSFER_CREATE_ERROR_CODES.to_vec());
    assert_eq!(error_codes(Endpoint::TransferUpdate), TRANSFER_UPDATE_ERROR_CODES.to_vec());
}

#[test]
fn error_codes_of_the_admission_api() {
    assert_eq!(
        error_codes(Endpoint::AdmissionCreate),
        vec![
            "TOKEN_NOT_REGISTERED",
            "WALLET_BLACKLISTED",
            "WALLET_ALREADY_ADMITTED",
            "INVALID_ADMISSION_SIGNATURE"
        ]
    );
    assert_eq!(error_codes(Endpoint::SwapCreate).len(), 24);
    assert_eq!(error_codes(Endpoint::SwapCancelUpdate).len(), 10);
    assert_eq!(error_codes(Endpoint::SwapFinalizeUpdate).len(), 8);
    assert_eq!(error_codes(Endpoint::SwapFreezeUpdate).len(), 5);
    assert_eq!(error_codes(Endpoint::TransferCreate).len(), 13);
    assert_eq!(error_codes(Endpoint::TransferUpdate).len(), 5);
}

#[test]
fn error_codes_are_recognized() {
    assert!(is_error_code(Endpoint::AdmissionCreate, "WALLET_BLACKLISTED"));
    assert!(!is_error_code(Endpoint::AdmissionCreateBulk, "WALLET_BLACKLISTED"));
    assert!(is_error_code(Endpoint::AdmissionCreateBulk, "TOO_MANY_ADMISSION_REQUESTS"));
    assert!(is_error_code(Endpoint::SwapCreate, "INVALID_CREDIT_FULFILLMENT_SIGNATURE"));
    assert!(is_error_code(Endpoint::TransferUpdate, "TRANSFER_TIMED_OUT"));
    assert!(!is_error_code(Endpoint::TransferUpdate, "transfer_timed_out"));
    assert!(!is_error_code(Endpoint::SwapFreezeUpdate, ""));
}
