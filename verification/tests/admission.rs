use libliquefy::model::traits::{FromJson, ToJson};
use libliquefy::error::{Error, ParseReason};
use libliquefy::json::{Json, JsonKind, Mode};
use libliquefy::model::http::admission::Admission;

const ADDRESS: &str = "0xabcdefabcdefabcdefabcdefabcdefabcdefabcd";
const TOKEN: &str = "0xdef0123456789abcdef0123456789abcdef01230";

fn admission() -> Admission {
    Admission {
        address: ADDRESS.to_string(),
        authorization: "sig0123456789".to_string(),
        token: TOKEN.to_string(),
    }
}

fn source() -> String {
    format!(
        "{{\"address\":\"{}\",\"authorization\":\"sig0123456789\",\"token\":\"{}\"}}",
        ADDRESS, TOKEN
    )
}

#[test]
fn admission_reads_and_writes_the_same_bytes() {
    assert_eq!(ADDRESS.len(), 42);
    assert_eq!(TOKEN.len(), 42);
    let read = Admission::from_json(&source(), Mode::Lenient).unwrap();
    assert_eq!(read, admission());
    assert_eq!(read.to_json().unwrap(), source());
    let strict = Admission::from_json(&source(), Mode::Strict).unwrap();
    assert_eq!(strict.to_json().unwrap().as_bytes(), source().as_bytes());
}

#[test]
fn admission_writes_its_keys_in_the_documented_order() {
    let shuffled = format!(
        "{{\"token\":\"{}\",\"authorization\":\"sig0123456789\",\"address\":\"{}\"}}",
        TOKEN, ADDRESS
    );
    let read = Admission::from_json(&shuffled, Mode::Strict).unwrap();
    assert_eq!(read, admission());
    assert_eq!(read.to_json().unwrap(), source());
    assert_eq!(
        admission().encode(),
        Json::Object(vec![
            ("address".to_string(), Json::Text(ADDRESS.to_string())),
            ("authorization".to_string(), Json::Text("sig0123456789".to_string())),
            ("token".to_string(), Json::Text(TOKEN.to_string())),
        ])
    );
}

#[test]
fn admission_round_trips() {
    for mode in [Mode::Lenient, Mode::Strict] {
        assert_eq!(Admission::decode(&admission().encode(), mode).unwrap(), admission());
        assert_eq!(
            Admission::from_json(&admission().to_json().unwrap(), mode).unwrap(),
            admission()
        );
    }
    let odd = Admission {
        address: "\"quoted\"\n".to_string(),
        authorization: String::new(),
        token: "\u{1f600}".to_string(),
    };
    assert_eq!(Admission::from_json(&odd.to_json().unwrap(), Mode::Strict).unwrap(), odd);
}

fn with_extra(at: usize) -> String {
    let mut members = vec![
        format!("\"address\":\"{}\"", ADDRESS),
        "\"authorization\":\"sig0123456789\"".to_string(),
        format!("\"token\":\"{}\"", TOKEN),
    ];
    members.insert(at, "\"eon_number\":12".to_string());
    format!("{{{}}}", members.join(","))
}

#[test]
fn admission_lenient_mode_tolerates_an_unknown_key() {
    for at in 0..4 {
        assert_eq!(Admission::from_json(&with_extra(at), Mode::Lenient).unwrap(), admission());
    }
}

#[test]
fn admission_strict_mode_refuses_an_unknown_key() {
    for at in 0..4 {
        match Admission::from_json(&with_extra(at), Mode::Strict) {
            Err(Error::UnknownField { field }) => assert_eq!(field, "eon_number"),
            other => panic!("{:?}", other),
        }
    }
}

#[test]
fn admission_strict_mode_reports_the_first_unknown_key() {
    let text = format!(
        "{{\"zeta\":1,\"address\":\"{}\",\"alpha\":2,\"authorization\":\"s\",\"token\":\"{}\"}}",
        ADDRESS, TOKEN
    );
    match Admission::from_json(&text, Mode::Strict) {
        Err(Error::UnknownField { field }) => assert_eq!(field, "zeta"),
        other => panic!("{:?}", other),
    }
}

#[test]
fn admission_reports_a_missing_key() {
    let cases = [
        ("{\"authorization\":\"s\",\"token\":\"t\"}", "address"),
        ("{\"address\":\"a\",\"token\":\"t\"}", "authorization"),
        ("{\"address\":\"a\",\"authorization\":\"s\"}", "token"),
        ("{}", "address"),
    ];
    for (text, missing) in cases {
        for mode in [Mode::Lenient, Mode::Strict] {
            match Admission::from_json(text, mode) {
                Err(Error::MissingField { field }) => assert_eq!(field, missing),
                other => panic!("{:?}", other),
            }
        }
    }
}

#[test]
fn admission_unknown_key_comes_before_missing_key() {
    match Admission::from_json("{\"more\":1}", Mode::Strict) {
        Err(Error::UnknownField { field }) => assert_eq!(field, "more"),
        other => panic!("{:?}", other),
    }
    match Admission::from_json("{\"more\":1}", Mode::Lenient) {
        Err(Error::MissingField { field }) => assert_eq!(field, "address"),
        other => panic!("{:?}", other),
    }
}

#[test]
fn admission_reports_a_value_of_the_wrong_kind() {
    let text = "{\"address\":1,\"authorization\":\"s\",\"token\":\"t\"}";
    assert!(matches!(
        Admission::from_json(text, Mode::Lenient),
        Err(Error::ParseError { reason: ParseReason::Shape { expected: JsonKind::Text } })
    ));
    assert!(matches!(
        Admission::from_json("[]", Mode::Lenient),
        Err(Error::ParseError { reason: ParseReason::Shape { expected: JsonKind::Object } })
    ));
    assert!(matches!(
        Admission::from_json("{\"address\":null,\"authorization\":\"s\",\"token\":\"t\"}", Mode::Lenient),
        Err(Error::ParseError { reason: ParseReason::Shape { expected: JsonKind::Text } })
    ));
}

#[test]
fn admission_reports_malformed_json() {
    assert!(matches!(Admission::from_json("{\"address\":", Mode::Lenient), Err(Error::JSON { .. })));
    assert!(matches!(Admission::from_json("", Mode::Strict), Err(Error::JSON { .. })));
}
