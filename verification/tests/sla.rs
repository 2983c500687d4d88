use libliquefy::model::traits::{FromJson, ToJson};
use libliquefy::error::{Error, ParseDecimalError};
use libliquefy::json::{Json, Mode};
use libliquefy::model::common::{DateTime, Decimal};
use libliquefy::model::decimal::DecimalEncoding;
use libliquefy::model::http::sla::{WalletSLA, MIN_LIMIT, RECIPIENT_LENGTH, SLA, TOKEN_LENGTH};

const RECIPIENT: &str = "0xabcdefabcdefabcdefabcdefabcdefabcdefabcd";
const TOKEN: &str = "0x0123456789012345678901234567890123456789";

fn cost() -> Decimal {
    Decimal::from_str("1000000000000000000000").unwrap()
}

#[test]
fn sla_constants() {
    assert_eq!(MIN_LIMIT, 1);
    assert_eq!(RECIPIENT_LENGTH, 42);
    assert_eq!(TOKEN_LENGTH, 42);
    assert_eq!(RECIPIENT.len(), 42);
    assert_eq!(TOKEN.len(), 42);
}

#[test]
fn sla_limit_zero_is_out_of_range() {
    match SLA::new(cost(), 0, RECIPIENT, TOKEN) {
        Err(Error::OutOfRange { value, min, max }) => {
            assert_eq!(value, 0);
            assert_eq!(min, Some(1));
            assert_eq!(max, None);
        }
        other => panic!("{:?}", other),
    }
}

#[test]
fn sla_limit_one_is_accepted() {
    let sla = SLA::new(cost(), 1, RECIPIENT, TOKEN).unwrap();
    assert_eq!(sla.cost, cost());
    assert_eq!(sla.limit, 1);
    assert_eq!(sla.recipient, RECIPIENT);
    assert_eq!(sla.token, TOKEN);
    assert!(sla.validate().is_ok());
    assert!(SLA::new(cost(), u64::MAX, RECIPIENT, TOKEN).is_ok());
}

#[test]
fn sla_recipient_of_length_41_or_43_is_refused() {
    for recipient in [&RECIPIENT[..41], &format!("{}0", RECIPIENT)[..]] {
        match SLA::new(cost(), 1, recipient, TOKEN) {
            Err(Error::InvalidLength { length, expected }) => {
                assert_eq!(length, recipient.chars().count());
                assert_eq!(expected, 42);
            }
            other => panic!("{:?}", other),
        }
    }
}

#[test]
fn sla_token_of_another_length_is_refused() {
    for token in ["", &TOKEN[..41], &format!("{}0", TOKEN)[..]] {
        match SLA::new(cost(), 1, RECIPIENT, token) {
            Err(Error::InvalidLength { length, expected }) => {
                assert_eq!(length, token.chars().count());
                assert_eq!(expected, 42);
            }
            other => panic!("{:?}", other),
        }
    }
}

#[test]
fn sla_length_counts_characters() {
    // 42 characters, one of which takes two bytes
    let recipient = format!("{}\u{e9}", &RECIPIENT[..41]);
    assert_eq!(recipient.chars().count(), 42);
    assert_eq!(recipient.len(), 43);
    let sla = SLA::new(cost(), 1, &recipient, TOKEN).unwrap();
    assert!(sla.validate().is_ok());
    let token = format!("{}\u{1f600}", &TOKEN[..41]);
    assert_eq!(token.chars().count(), 42);
    assert!(SLA::new(cost(), 1, RECIPIENT, &token).is_ok());
    // 41 characters in 42 bytes
    let recipient = format!("{}\u{e9}", &RECIPIENT[..40]);
    assert_eq!(recipient.chars().count(), 41);
    assert_eq!(recipient.len(), 42);
    assert!(matches!(
        SLA::new(cost(), 1, &recipient, TOKEN),
        Err(Error::InvalidLength { length: 41, expected: 42 })
    ));
    // 43 characters
    let recipient = format!("{}\u{e9}\u{e9}", &RECIPIENT[..41]);
    assert!(matches!(
        SLA::new(cost(), 1, &recipient, TOKEN),
        Err(Error::InvalidLength { length: 43, expected: 42 })
    ));
    let built = SLA {
        cost: cost(),
        limit: 1,
        recipient: RECIPIENT.to_string(),
        token: format!("{}\u{e9}", &TOKEN[..40]),
    };
    assert!(matches!(
        built.validate(),
        Err(Error::InvalidLength { length: 41, expected: 42 })
    ));
}

#[test]
fn sla_reports_the_first_rule_broken() {
    // the limit before the lengths
    assert!(matches!(SLA::new(cost(), 0, "short", "short"), Err(Error::OutOfRange { .. })));
    // the recipient before the token
    assert!(matches!(
        SLA::new(cost(), 1, "short", "tiny"),
        Err(Error::InvalidLength { length: 5, expected: 42 })
    ));
    assert!(matches!(
        SLA::new(cost(), 1, RECIPIENT, "tiny"),
        Err(Error::InvalidLength { length: 4, expected: 42 })
    ));
}

fn same_verdict(limit: u64, recipient: &str, token: &str) {
    let made = SLA::new(cost(), limit, recipient, token);
    let built =
        SLA { cost: cost(), limit, recipient: recipient.to_string(), token: token.to_string() };
    match (made, built.validate()) {
        (Ok(sla), Ok(())) => assert_eq!(sla, built),
        (
            Err(Error::OutOfRange { value: a, min: b, max: c }),
            Err(Error::OutOfRange { value: x, min: y, max: z }),
        ) => assert_eq!((a, b, c), (x, y, z)),
        (
            Err(Error::InvalidLength { length: a, expected: b }),
            Err(Error::InvalidLength { length: x, expected: y }),
        ) => assert_eq!((a, b), (x, y)),
        (made, checked) => panic!("{:?} but {:?}", made, checked),
    }
}

#[test]
fn sla_new_and_validate_report_the_same() {
    same_verdict(1, RECIPIENT, TOKEN);
    same_verdict(0, RECIPIENT, TOKEN);
    same_verdict(0, "", "");
    same_verdict(5, &RECIPIENT[..41], TOKEN);
    same_verdict(5, RECIPIENT, &TOKEN[..10]);
    same_verdict(5, "", &TOKEN[..10]);
}

#[test]
fn sla_writes_its_cost_as_text_or_as_number() {
    let sla = SLA::new(cost(), 7, RECIPIENT, TOKEN).unwrap();
    assert_eq!(
        sla.to_json_as(DecimalEncoding::Text).unwrap(),
        format!(
            "{{\"cost\":\"1000000000000000000000\",\"limit\":7,\"recipient\":\"{}\",\"token\":\"{}\"}}",
            RECIPIENT, TOKEN
        )
    );
    assert_eq!(
        sla.to_json_as(DecimalEncoding::Number).unwrap(),
        format!(
            "{{\"cost\":1000000000000000000000,\"limit\":7,\"recipient\":\"{}\",\"token\":\"{}\"}}",
            RECIPIENT, TOKEN
        )
    );
}

#[test]
fn sla_round_trips() {
    let sla = SLA::new(cost(), u64::MAX, RECIPIENT, TOKEN).unwrap();
    for encoding in [DecimalEncoding::Text, DecimalEncoding::Number] {
        for mode in [Mode::Lenient, Mode::Strict] {
            assert_eq!(SLA::decode(&sla.encode_as(encoding), mode).unwrap(), sla);
            assert_eq!(SLA::from_json(&sla.to_json_as(encoding).unwrap(), mode).unwrap(), sla);
        }
    }
}

#[test]
fn sla_decode_takes_the_fields_as_they_are() {
    let json = Json::parse("{\"cost\":\"1\",\"limit\":0,\"recipient\":\"r\",\"token\":\"t\"}").unwrap();
    let sla = SLA::decode(&json, Mode::Strict).unwrap();
    assert_eq!(sla.limit, 0);
    assert!(matches!(sla.validate(), Err(Error::OutOfRange { value: 0, min: Some(1), max: None })));
    let invalid = SLA { cost: cost(), limit: 0, recipient: String::new(), token: String::new() };
    assert_eq!(SLA::decode(&invalid.encode_as(DecimalEncoding::Text), Mode::Strict).unwrap(), invalid);
    assert_eq!(SLA::decode(&invalid.encode(), Mode::Strict).unwrap(), invalid);
}

#[test]
fn sla_read_from_json_is_validated_by_validate() {
    let text = format!("{{\"cost\":\"1\",\"limit\":0,\"recipient\":\"{}\",\"token\":\"{}\"}}", RECIPIENT, TOKEN);
    let sla = SLA::from_json(&text, Mode::Lenient).unwrap();
    assert!(matches!(
        sla.validate(),
        Err(Error::OutOfRange { value: 0, min: Some(1), max: None })
    ));
    let text = format!("{{\"cost\":\"1\",\"limit\":1,\"recipient\":\"0x\",\"token\":\"{}\"}}", TOKEN);
    let sla = SLA::from_json(&text, Mode::Lenient).unwrap();
    assert!(matches!(sla.validate(), Err(Error::InvalidLength { length: 2, expected: 42 })));
    let text = format!("{{\"cost\":\"1\",\"limit\":1,\"recipient\":\"{}\",\"token\":\"{}\"}}", RECIPIENT, TOKEN);
    assert!(SLA::from_json(&text, Mode::Lenient).unwrap().validate().is_ok());
    assert!(matches!(SLA::from_json("{", Mode::Lenient), Err(Error::JSON { .. })));
}

#[test]
fn sla_default_encoding_is_text() {
    let sla = SLA::new(cost(), 7, RECIPIENT, TOKEN).unwrap();
    assert_eq!(sla.encode(), sla.encode_as(DecimalEncoding::Text));
    assert_eq!(sla.to_json().unwrap(), sla.to_json_as(DecimalEncoding::Text).unwrap());
}

#[test]
fn sla_reports_missing_and_malformed_fields() {
    let decode = |text: &str| SLA::decode(&Json::parse(text).unwrap(), Mode::Lenient);
    match decode("{\"limit\":1,\"recipient\":\"r\",\"token\":\"t\"}") {
        Err(Error::MissingField { field }) => assert_eq!(field, "cost"),
        other => panic!("{:?}", other),
    }
    match decode("{\"cost\":1,\"recipient\":\"r\",\"token\":\"t\"}") {
        Err(Error::MissingField { field }) => assert_eq!(field, "limit"),
        other => panic!("{:?}", other),
    }
    match decode("{\"cost\":1,\"limit\":1,\"recipient\":\"r\"}") {
        Err(Error::MissingField { field }) => assert_eq!(field, "token"),
        other => panic!("{:?}", other),
    }
    assert!(matches!(
        decode("{\"cost\":\"12x\",\"limit\":1,\"recipient\":\"r\",\"token\":\"t\"}"),
        Err(Error::InvalidDecimal { source: ParseDecimalError::InvalidDigit })
    ));
    assert!(matches!(
        decode("{\"cost\":1,\"limit\":\"1\",\"recipient\":\"r\",\"token\":\"t\"}"),
        Err(Error::ParseError { .. })
    ));
    assert!(matches!(
        decode("{\"cost\":1,\"limit\":-1,\"recipient\":\"r\",\"token\":\"t\"}"),
        Err(Error::ParseError { .. })
    ));
    assert!(matches!(
        decode("{\"cost\":1,\"limit\":18446744073709551616,\"recipient\":\"r\",\"token\":\"t\"}"),
        Err(Error::ParseError { .. })
    ));
    assert!(matches!(
        decode("{\"cost\":1,\"limit\":1.5,\"recipient\":\"r\",\"token\":\"t\"}"),
        Err(Error::ParseError { .. })
    ));
    assert!(matches!(
        decode("{\"cost\":1,\"limit\":1,\"recipient\":7,\"token\":\"t\"}"),
        Err(Error::ParseError { .. })
    ));
    assert!(matches!(decode("[]"), Err(Error::ParseError { .. })));
}

#[test]
fn sla_strict_mode_refuses_unknown_keys() {
    let text = format!(
        "{{\"cost\":\"1\",\"extra\":true,\"limit\":1,\"recipient\":\"{}\",\"token\":\"{}\"}}",
        RECIPIENT, TOKEN
    );
    assert!(SLA::from_json(&text, Mode::Lenient).is_ok());
    match SLA::from_json(&text, Mode::Strict) {
        Err(Error::UnknownField { field }) => assert_eq!(field, "extra"),
        other => panic!("{:?}", other),
    }
}

#[test]
fn wallet_sla_round_trips() {
    let expiry = DateTime::from_str("2020-06-01T12:00:00Z").unwrap();
    let sla = WalletSLA::new(expiry);
    assert_eq!(sla.expiry, expiry);
    assert_eq!(sla.to_json().unwrap(), "{\"expiry\":\"2020-06-01T12:00:00Z\"}");
    for mode in [Mode::Lenient, Mode::Strict] {
        assert_eq!(WalletSLA::decode(&sla.encode(), mode).unwrap(), sla);
        assert_eq!(WalletSLA::from_json(&sla.to_json().unwrap(), mode).unwrap(), sla);
    }
}

#[test]
fn wallet_sla_reports_faults() {
    match WalletSLA::from_json("{}", Mode::Lenient) {
        Err(Error::MissingField { field }) => assert_eq!(field, "expiry"),
        other => panic!("{:?}", other),
    }
    assert!(matches!(
        WalletSLA::from_json("{\"expiry\":\"soon\"}", Mode::Lenient),
        Err(Error::ParseError { .. })
    ));
    assert!(matches!(
        WalletSLA::from_json("{\"expiry\":\"2020-06-01T12:00:00Z\",\"more\":1}", Mode::Strict),
        Err(Error::UnknownField { .. })
    ));
}
