use libliquefy::error::Error;
use libliquefy::json::{find, unknown_key, Json, JsonKind};

fn text(s: &str) -> Json {
    Json::Text(s.to_string())
}

#[test]
fn json_reads_every_kind_of_value() {
    assert_eq!(Json::parse("null").unwrap(), Json::Null);
    assert_eq!(Json::parse("true").unwrap(), Json::Bool(true));
    assert_eq!(Json::parse("false").unwrap(), Json::Bool(false));
    assert_eq!(Json::parse("12").unwrap(), Json::Number("12".to_string()));
    assert_eq!(Json::parse("\"a\\nb\"").unwrap(), text("a\nb"));
    assert_eq!(
        Json::parse("[1, \"two\", null]").unwrap(),
        Json::Array(vec![Json::Number("1".to_string()), text("two"), Json::Null])
    );
    assert_eq!(
        Json::parse("{\"a\": 1, \"b\": {\"c\": []}}").unwrap(),
        Json::Object(vec![
            ("a".to_string(), Json::Number("1".to_string())),
            ("b".to_string(), Json::Object(vec![("c".to_string(), Json::Array(vec![]))])),
        ])
    );
}

#[test]
fn json_keeps_the_literal_of_a_number() {
    for literal in ["0", "-1", "12.34", "1e+3", "18446744073709551616", "123456789012345678901234567890", "-343412345678910111213141516171819202122232425262728293031"] {
        assert_eq!(Json::parse(literal).unwrap(), Json::Number(literal.to_string()));
        assert_eq!(Json::Number(literal.to_string()).to_text().unwrap(), literal);
    }
}

#[test]
fn json_writes_the_sign_of_an_exponent() {
    assert_eq!(Json::parse("1e3").unwrap(), Json::Number("1e+3".to_string()));
    assert_eq!(Json::parse("1E-3").unwrap(), Json::Number("1e-3".to_string()));
}

#[test]
fn json_keeps_the_order_of_members() {
    let source = "{\"zeta\":1,\"alpha\":2,\"mid\":3}";
    let parsed = Json::parse(source).unwrap();
    assert_eq!(
        parsed,
        Json::Object(vec![
            ("zeta".to_string(), Json::Number("1".to_string())),
            ("alpha".to_string(), Json::Number("2".to_string())),
            ("mid".to_string(), Json::Number("3".to_string())),
        ])
    );
    assert_eq!(parsed.to_text().unwrap(), source);
}

#[test]
fn json_writes_compact_text() {
    let value = Json::Object(vec![
        ("a".to_string(), Json::Array(vec![Json::Null, Json::Bool(false)])),
        ("b".to_string(), text("x\"y")),
    ]);
    assert_eq!(value.to_text().unwrap(), "{\"a\":[null,false],\"b\":\"x\\\"y\"}");
    assert_eq!(Json::Null.to_text().unwrap(), "null");
    assert_eq!(text("").to_text().unwrap(), "\"\"");
}

#[test]
fn json_round_trips_through_text() {
    let source = "{\"type\":\"response\",\"id\":\"550e8400-e29b-41d4-a716-446655440000\",\"data\":{\"op\":\"subscribe\",\"stream\":[\"a\",\"b\"]}}";
    let value = Json::parse(source).unwrap();
    assert_eq!(value.to_text().unwrap(), source);
    assert_eq!(Json::parse(&value.to_text().unwrap()).unwrap(), value);
}

#[test]
fn json_refuses_malformed_text() {
    for source in ["", "{", "{\"a\":}", "[1,]", "nul", "{\"a\":1} x", "'a'"] {
        match Json::parse(source) {
            Err(Error::JSON { message }) => assert!(!message.is_empty()),
            other => panic!("{:?} for {:?}", other, source),
        }
    }
}

#[test]
fn json_refuses_to_write_a_number_that_is_none() {
    assert!(matches!(Json::Number("abc".to_string()).to_text(), Err(Error::JSON { .. })));
    assert!(matches!(Json::Number(String::new()).to_text(), Err(Error::JSON { .. })));
    assert!(matches!(
        Json::Array(vec![Json::Number("-".to_string())]).to_text(),
        Err(Error::JSON { .. })
    ));
}

#[test]
fn json_tells_the_kind_of_a_value() {
    assert_eq!(Json::Null.kind(), JsonKind::Null);
    assert_eq!(Json::Bool(true).kind(), JsonKind::Bool);
    assert_eq!(Json::Number("1".to_string()).kind(), JsonKind::Number);
    assert_eq!(text("a").kind(), JsonKind::Text);
    assert_eq!(Json::Array(vec![]).kind(), JsonKind::Array);
    assert_eq!(Json::Object(vec![]).kind(), JsonKind::Object);
    assert_eq!(Json::text("abc"), text("abc"));
}

#[test]
fn json_finds_the_first_member_of_a_key() {
    let members = vec![
        ("a".to_string(), text("first")),
        ("b".to_string(), Json::Null),
        ("a".to_string(), text("second")),
    ];
    assert_eq!(find(&members, "a"), Some(&text("first")));
    assert_eq!(find(&members, "b"), Some(&Json::Null));
    assert_eq!(find(&members, "c"), None);
    assert_eq!(find(&vec![], "a"), None);
}

#[test]
fn json_finds_the_first_unknown_key() {
    let members = vec![
        ("a".to_string(), Json::Null),
        ("x".to_string(), Json::Null),
        ("b".to_string(), Json::Null),
        ("y".to_string(), Json::Null),
    ];
    assert_eq!(unknown_key(&members, &vec!["a", "b"]), Some("x".to_string()));
    assert_eq!(unknown_key(&members, &vec!["a", "b", "x"]), Some("y".to_string()));
    assert_eq!(unknown_key(&members, &vec!["a", "b", "x", "y"]), None);
    assert_eq!(unknown_key(&members, &vec![]), Some("a".to_string()));
    assert_eq!(unknown_key(&vec![], &vec![]), None);
}
